use vstd::prelude::*;
use crate::metrics::{Metrics, area_calculated, all_area_calculated, all_boxed_area_calculated};

verus! {

/// Shapes of possibly different kinds, each owned on the heap and reached
/// only through `Metrics`; calls on them are resolved at run time.
pub struct DynamicShapeCollection {
    pub shapes: Vec<Box<dyn Metrics>>,
}

impl DynamicShapeCollection {
    /// Works out the area of every shape, in the order in which they are held.
    /// Each position keeps its shape's measurements, and its stored area
    /// becomes what the formula gives for them.
    pub fn calc(&mut self)
        ensures
            all_boxed_area_calculated(old(self).shapes@, final(self).shapes@),
    {
        let n: usize = self.shapes.len();
        let mut i: usize = 0;
        while i < n
            invariant
                0 <= i <= n,
                self.shapes@.len() == n,
                old(self).shapes@.len() == n,
                forall|j: int|
                    #![trigger self.shapes@[j]]
                    0 <= j < i ==> {
                        &&& self.shapes@[j].dims() == old(self).shapes@[j].dims()
                        &&& self.shapes@[j].formula_area() == old(self).shapes@[j].formula_area()
                        &&& self.shapes@[j].stored_area() == old(self).shapes@[j].formula_area()
                    },
                forall|j: int| i <= j < n ==> self.shapes@[j] == old(self).shapes@[j],
            decreases n - i,
        {
            let ghost before = self.shapes@;
            let shape: &mut Box<dyn Metrics> = &mut self.shapes[i];
            shape.calculate_area();
            assert(forall|j: int| 0 <= j < n && j != i ==> self.shapes@[j] == before[j]);
            i += 1;
        }
    }
}

/// Shapes all of one kind `T`, known when the program is built; calls on them
/// are resolved then.
pub struct StaticShapeCollection<T: Metrics> {
    pub shapes: Vec<T>,
}

impl<T: Metrics> StaticShapeCollection<T> {
    /// Works out the area of every shape, in the order in which they are held.
    /// Each position holds its shape with the area worked out.
    pub fn calc(&mut self)
        ensures
            all_area_calculated(old(self).shapes@, final(self).shapes@),
    {
        let n: usize = self.shapes.len();
        let mut i: usize = 0;
        while i < n
            invariant
                0 <= i <= n,
                self.shapes@.len() == n,
                old(self).shapes@.len() == n,
                forall|j: int|
                    0 <= j < i ==> area_calculated(old(self).shapes@[j], #[trigger] self.shapes@[j]),
                forall|j: int| i <= j < n ==> self.shapes@[j] == old(self).shapes@[j],
            decreases n - i,
        {
            let ghost before = self.shapes@;
            let shape: &mut T = &mut self.shapes[i];
            shape.calculate_area();
            assert(forall|j: int| 0 <= j < n && j != i ==> self.shapes@[j] == before[j]);
            i += 1;
        }
    }
}

} // verus!
