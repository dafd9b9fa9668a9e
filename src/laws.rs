use vstd::prelude::*;
use crate::metrics::{Metrics, area_calculated, all_area_calculated, all_boxed_area_calculated};
use crate::triangle::{Triangle, triangle_area};

verus! {

/// Running `calc` a second time on a collection of shapes of one kind leaves
/// every position with the same measurements and the same stored area as the
/// first run did: the formula reads the measurements only, never the area
/// stored before.
pub proof fn lemma_calc_twice_same_areas<T: Metrics>(start: Seq<T>, once: Seq<T>, twice: Seq<T>)
    requires
        all_area_calculated(start, once),
        all_area_calculated(once, twice),
    ensures
        twice.len() == once.len(),
        forall|i: int|
            0 <= i < once.len() ==> (#[trigger] twice[i]).stored_area() == once[i].stored_area()
                && twice[i].dims() == once[i].dims(),
{
    assert forall|i: int| 0 <= i < once.len() implies (#[trigger] twice[i]).stored_area()
        == once[i].stored_area() && twice[i].dims() == once[i].dims() by {
        assert(area_calculated(start[i], once[i]));
        assert(area_calculated(once[i], twice[i]));
    }
}

/// Running `calc` a second time on a collection of boxed shapes leaves every
/// position with the same measurements and the same stored area as the first
/// run did.
pub proof fn lemma_boxed_calc_twice_same_areas(
    start: Seq<Box<dyn Metrics>>,
    once: Seq<Box<dyn Metrics>>,
    twice: Seq<Box<dyn Metrics>>,
)
    requires
        all_boxed_area_calculated(start, once),
        all_boxed_area_calculated(once, twice),
    ensures
        twice.len() == once.len(),
        forall|i: int|
            0 <= i < once.len() ==> (#[trigger] twice[i]).stored_area() == once[i].stored_area()
                && twice[i].dims() == once[i].dims(),
{
    assert forall|i: int| 0 <= i < once.len() implies (#[trigger] twice[i]).stored_area()
        == once[i].stored_area() && twice[i].dims() == once[i].dims() by {
        assert(once[i].formula_area() == start[i].formula_area());
    }
}

/// After `calc` on a collection of triangles, position `i` holds the `i`-th
/// triangle that went in, with its base and height kept and its area set by
/// the formula: nothing is dropped, added or moved.
pub proof fn lemma_triangles_calculated_in_place(start: Seq<Triangle>, once: Seq<Triangle>)
    requires
        all_area_calculated(start, once),
    ensures
        once.len() == start.len(),
        forall|i: int|
            0 <= i < start.len() ==> #[trigger] once[i] == (Triangle {
                area: triangle_area(start[i].base as int, start[i].height as int) as isize,
                ..start[i]
            }),
{
    assert forall|i: int| 0 <= i < start.len() implies #[trigger] once[i] == (Triangle {
        area: triangle_area(start[i].base as int, start[i].height as int) as isize,
        ..start[i]
    }) by {
        assert(area_calculated(start[i], once[i]));
        assert(once[i].dims()[0] == start[i].dims()[0]);
        assert(once[i].dims()[1] == start[i].dims()[1]);
    }
}

} // verus!
