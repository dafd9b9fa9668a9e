use shapes::collections::{DynamicShapeCollection, StaticShapeCollection};
use shapes::demo::{
    characteristics_of_object_oriented_languages,
    using_trait_objects_that_allow_for_values_of_different_types,
};
use shapes::metrics::Metrics;
use shapes::triangle::Triangle;

#[test]
fn new_triangle_starts_with_zero_area() {
    let t = Triangle::new(5, 4);
    assert_eq!(t.base, 5);
    assert_eq!(t.height, 4);
    assert_eq!(t.area, 0);
    assert_eq!(t.area(), 0);
}

#[test]
fn triangle_area_truncates_half_to_zero() {
    let mut t = Triangle::new(5, 4);
    t.calculate_area();
    assert_eq!(t.area, 0);
    assert_eq!(t.base, 5);
    assert_eq!(t.height, 4);
}

#[test]
fn triangle_area_resets_a_stale_area() {
    let mut t = Triangle { base: 6, height: 10, area: 30 };
    t.calculate_area();
    assert_eq!(t, Triangle { base: 6, height: 10, area: 0 });
}

#[test]
fn triangle_area_on_extreme_measurements() {
    let mut t = Triangle::new(isize::MAX, isize::MIN);
    t.calculate_area();
    assert_eq!(t.area, 0);
    let mut u = Triangle::new(-3, 7);
    u.calculate_area();
    assert_eq!(u.area, 0);
}

#[test]
fn dynamic_collection_first_area_is_zero() {
    let mut shapes = DynamicShapeCollection {
        shapes: vec![Box::new(Triangle::new(5, 4)) as Box<dyn Metrics>],
    };
    shapes.calc();
    assert_eq!(shapes.shapes.len(), 1);
    assert_eq!(shapes.shapes[0].area(), 0);
}

#[test]
fn static_collection_matches_dynamic() {
    let mut another_shapes = StaticShapeCollection { shapes: vec![Triangle::new(5, 4)] };
    another_shapes.calc();
    let mut shapes = DynamicShapeCollection {
        shapes: vec![Box::new(Triangle::new(5, 4)) as Box<dyn Metrics>],
    };
    shapes.calc();
    assert_eq!(another_shapes.shapes[0], Triangle { base: 5, height: 4, area: 0 });
    assert_eq!(another_shapes.shapes[0].area(), shapes.shapes[0].area());
}

#[test]
fn static_calc_keeps_positions() {
    let mut c = StaticShapeCollection {
        shapes: vec![Triangle::new(1, 2), Triangle::new(3, 4), Triangle::new(5, 6)],
    };
    c.calc();
    assert_eq!(
        c.shapes,
        vec![
            Triangle { base: 1, height: 2, area: 0 },
            Triangle { base: 3, height: 4, area: 0 },
            Triangle { base: 5, height: 6, area: 0 },
        ]
    );
}

#[test]
fn dynamic_calc_keeps_every_shape() {
    let mut c = DynamicShapeCollection {
        shapes: vec![
            Box::new(Triangle { base: 9, height: 9, area: 81 }) as Box<dyn Metrics>,
            Box::new(Triangle { base: 2, height: 3, area: 3 }) as Box<dyn Metrics>,
            Box::new(Triangle::new(7, 1)) as Box<dyn Metrics>,
        ],
    };
    let before: Vec<isize> = c.shapes.iter().map(|s| s.area()).collect();
    assert_eq!(before, vec![81, 3, 0]);
    c.calc();
    let after: Vec<isize> = c.shapes.iter().map(|s| s.area()).collect();
    assert_eq!(after, vec![0, 0, 0]);
}

#[test]
fn calc_twice_gives_the_same_areas() {
    let mut s = StaticShapeCollection { shapes: vec![Triangle::new(5, 4), Triangle::new(8, 2)] };
    s.calc();
    let once = s.shapes.clone();
    s.calc();
    assert_eq!(s.shapes, once);

    let mut d = DynamicShapeCollection {
        shapes: vec![
            Box::new(Triangle::new(5, 4)) as Box<dyn Metrics>,
            Box::new(Triangle::new(8, 2)) as Box<dyn Metrics>,
        ],
    };
    d.calc();
    let first: Vec<isize> = d.shapes.iter().map(|s| s.area()).collect();
    d.calc();
    let second: Vec<isize> = d.shapes.iter().map(|s| s.area()).collect();
    assert_eq!(first, second);
    assert_eq!(second, vec![0, 0]);
}

#[test]
fn calc_on_empty_collections_does_nothing() {
    let mut s: StaticShapeCollection<Triangle> = StaticShapeCollection { shapes: Vec::new() };
    s.calc();
    assert!(s.shapes.is_empty());
    let mut d = DynamicShapeCollection { shapes: Vec::new() };
    d.calc();
    assert!(d.shapes.is_empty());
}

#[test]
fn demonstration_reports_zero_areas() {
    characteristics_of_object_oriented_languages();
    let (first, area) = using_trait_objects_that_allow_for_values_of_different_types();
    assert_eq!(first, Triangle { base: 5, height: 4, area: 0 });
    assert_eq!(area, 0);
}
