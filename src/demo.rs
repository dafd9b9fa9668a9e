use vstd::prelude::*;
use crate::metrics::Metrics;
use crate::triangle::Triangle;
use crate::collections::{DynamicShapeCollection, StaticShapeCollection};

verus! {

/// Encapsulation and polymorphism without inheritance: a type hides what it
/// chooses, and code is shared across types through traits and generics
/// bounded by them. There is nothing to compute here.
pub fn characteristics_of_object_oriented_languages() {
}

/// Runs one triangle of base 5 and height 4 through each kind of collection.
/// Returns the first shape of the collection of triangles after `calc`, and
/// the area that the first shape of the collection of boxed shapes reports
/// after `calc`. Both come out with area zero, the formula's value there.
pub fn using_trait_objects_that_allow_for_values_of_different_types() -> (r: (Triangle, isize))
    ensures
        r.0 == (Triangle { base: 5, height: 4, area: 0 }),
        r.1 == 0,
{
    let mut another_shapes = StaticShapeCollection { shapes: vec![Triangle::new(5, 4)] };
    another_shapes.calc();
    let first: Triangle = another_shapes.shapes[0];

    let mut shapes = DynamicShapeCollection { shapes: vec![Box::new(Triangle::new(5, 4))] };
    shapes.calc();
    let area: isize = shapes.shapes[0].area();

    (first, area)
}

} // verus!
