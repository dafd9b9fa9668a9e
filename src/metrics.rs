use vstd::prelude::*;

verus! {

/// A shape that can work out its own area and keep it in its own state.
pub trait Metrics {
    /// The measurements that determine the shape, in a fixed order.
    spec fn dims(&self) -> Seq<int>;

    /// The area currently stored in the shape.
    spec fn stored_area(&self) -> int;

    /// The area that the shape's formula gives for its measurements.
    spec fn formula_area(&self) -> int;

    /// Works out the area from the shape's own measurements and stores it.
    /// The measurements, and so the formula's value, stay as they were.
    fn calculate_area(&mut self)
        ensures
            final(self).dims() == old(self).dims(),
            final(self).formula_area() == old(self).formula_area(),
            final(self).stored_area() == old(self).formula_area(),
    ;

    /// The area currently stored in the shape.
    fn area(&self) -> (r: isize)
        ensures
            r as int == self.stored_area(),
    ;
}

/// `after` is `before` with its area worked out: the same measurements, and
/// the stored area equal to what the formula gives for them.
pub open spec fn area_calculated<S: Metrics>(before: S, after: S) -> bool {
    &&& after.dims() == before.dims()
    &&& after.formula_area() == before.formula_area()
    &&& after.stored_area() == before.formula_area()
}

/// `after` holds, position for position, the shapes of `before` with their
/// areas worked out.
pub open spec fn all_area_calculated<S: Metrics>(before: Seq<S>, after: Seq<S>) -> bool {
    &&& after.len() == before.len()
    &&& forall|i: int| 0 <= i < before.len() ==> area_calculated(before[i], #[trigger] after[i])
}

/// `after` holds, position for position, the boxed shapes of `before` with
/// their areas worked out.
pub open spec fn all_boxed_area_calculated(
    before: Seq<Box<dyn Metrics>>,
    after: Seq<Box<dyn Metrics>>,
) -> bool {
    &&& after.len() == before.len()
    &&& forall|i: int|
        #![trigger after[i]]
        0 <= i < before.len() ==> {
            &&& after[i].dims() == before[i].dims()
            &&& after[i].formula_area() == before[i].formula_area()
            &&& after[i].stored_area() == before[i].formula_area()
        }
}

} // verus!
