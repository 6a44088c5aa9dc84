use axgeom::rect;
use axgeom::vec2;
use axgeom::AxisDyn;
use axgeom::Range;
use axgeom::Rect;
use axgeom::XAXIS;
use axgeom::YAXIS;

#[test]
fn rect_and_new_build_the_same() {
    let r = rect(1, 2, 3, 4);
    assert_eq!(r, Rect::new(1, 2, 3, 4));
    assert_eq!(r.x, Range::new(1, 2));
    assert_eq!(r.y, Range::new(3, 4));
    assert_eq!(r.get(), ((1, 2), (3, 4)));
}

#[test]
fn get_range_picks_the_axis() {
    let mut r = rect(1, 2, 3, 4);
    assert_eq!(*r.get_range(XAXIS), Range::new(1, 2));
    assert_eq!(*r.get_range(YAXIS), Range::new(3, 4));
    assert_eq!(*r.get_range(AxisDyn::Y), Range::new(3, 4));
    r.get_range_mut(YAXIS).end = 9;
    assert_eq!(r, rect(1, 2, 3, 9));
    *r.get_range_mut(XAXIS) = Range::new(-5, 5);
    assert_eq!(r, rect(-5, 5, 3, 9));
}

#[test]
fn corners_come_in_winding_order() {
    let r = rect(1, 2, 3, 4);
    assert_eq!(r.top_left(), vec2(1, 3));
    assert_eq!(r.get_corners(), [vec2(1, 3), vec2(2, 3), vec2(2, 4), vec2(1, 4)]);
}

#[test]
fn contains_point_is_both_ranges_contain() {
    let r = rect(0, 10, 20, 30);
    for x in -2..13 {
        for y in 18..33 {
            assert_eq!(r.contains_point(vec2(x, y)), r.x.contains(x) && r.y.contains(y));
        }
    }
    assert!(r.contains_point(vec2(0, 20)));
    assert!(r.contains_point(vec2(9, 29)));
    assert!(!r.contains_point(vec2(10, 25)));
    assert!(!r.contains_point(vec2(5, 30)));
}

#[test]
fn is_valid_needs_both_ranges() {
    assert!(rect(0, 10, 0, 10).is_valid());
    assert!(rect(0, 0, 0, 0).is_valid());
    assert!(!rect(10, 0, 0, 10).is_valid());
    assert!(!rect(0, 10, 10, 0).is_valid());
}

#[test]
fn subdivide_splits_one_axis_and_carries_the_other() {
    let r = rect(0, 10, 20, 30);
    let (l, rr) = r.subdivide(XAXIS, 4);
    assert_eq!(l, rect(0, 4, 20, 30));
    assert_eq!(rr, rect(4, 10, 20, 30));
    let (l, rr) = r.subdivide(YAXIS, 25);
    assert_eq!(l, rect(0, 10, 20, 25));
    assert_eq!(rr, rect(0, 10, 25, 30));
    let (l, rr) = r.subdivide(AxisDyn::X, 9);
    assert_eq!(l, rect(0, 9, 20, 30));
    assert_eq!(rr, rect(9, 10, 20, 30));
}

#[test]
fn subdivide_moves_a_divider_outside_to_the_nearer_bound() {
    let r = rect(0, 10, 20, 30);
    let (l, rr) = r.subdivide(XAXIS, -7);
    assert_eq!(l, rect(0, 0, 20, 30));
    assert_eq!(rr, r);
    let (l, rr) = r.subdivide(XAXIS, 99);
    assert_eq!(l, r);
    assert_eq!(rr, rect(10, 10, 20, 30));
    let (l, rr) = r.subdivide(YAXIS, 30);
    assert_eq!(l, r);
    assert_eq!(rr, rect(0, 10, 30, 30));
}

#[test]
fn subdivide_parts_rebuild_the_range_that_was_split() {
    let r = rect(0, 10, 20, 30);
    for d in -3..14 {
        let (l, rr) = r.subdivide(XAXIS, d);
        assert_eq!(l.x.start, r.x.start);
        assert_eq!(rr.x.end, r.x.end);
        assert_eq!(l.x.end, rr.x.start);
        assert_eq!(l.y, r.y);
        assert_eq!(rr.y, r.y);
        for x in -2..13 {
            let p = vec2(x, 25);
            assert_eq!(r.contains_point(p), l.contains_point(p) || rr.contains_point(p));
            assert!(!(l.contains_point(p) && rr.contains_point(p)));
        }
    }
}

#[test]
fn rect_subdivide_keeps_every_bit_of_a_float() {
    let r = rect(0.1f64 + 0.2, 1.0e300, -1.0 / 3.0, 2.0 / 3.0);
    let divider = 1.0f64 / 7.0;
    let (l, rr) = r.subdivide(YAXIS, divider);
    assert_eq!(l.y.start.to_bits(), r.y.start.to_bits());
    assert_eq!(l.y.end.to_bits(), divider.to_bits());
    assert_eq!(rr.y.start.to_bits(), divider.to_bits());
    assert_eq!(rr.y.end.to_bits(), r.y.end.to_bits());
    assert_eq!(l.x.start.to_bits(), r.x.start.to_bits());
    assert_eq!(rr.x.end.to_bits(), r.x.end.to_bits());
}

#[test]
fn contains_rect_and_intersects_rect() {
    let r = rect(0, 10, 0, 10);
    assert!(r.contains_rect(&rect(0, 10, 0, 10)));
    assert!(r.contains_rect(&rect(2, 3, 4, 5)));
    assert!(!r.contains_rect(&rect(2, 11, 4, 5)));
    assert!(!r.contains_rect(&rect(2, 3, -1, 5)));
    assert!(r.intersects_rect(&rect(5, 15, 5, 15)));
    assert!(r.intersects_rect(&rect(-5, 1, 9, 15)));
    assert!(!r.intersects_rect(&rect(10, 15, 5, 15)));
    assert!(!r.intersects_rect(&rect(5, 15, 10, 15)));
    assert!(!r.intersects_rect(&rect(20, 30, 20, 30)));
}

#[test]
fn a_rect_without_points_intersects_nothing() {
    let r = rect(0, 10, 0, 10);
    assert!(!r.intersects_rect(&rect(5, 5, 2, 8)));
    assert!(!rect(5, 5, 2, 8).intersects_rect(&r));
    assert!(!r.intersects_rect(&rect(2, 8, 5, 5)));
    assert!(!r.intersects_rect(&rect(8, 2, 2, 8)));
}

#[test]
fn intersects_rect_means_a_shared_rectangle() {
    let rects = [
        rect(0, 10, 0, 10),
        rect(5, 15, -5, 5),
        rect(10, 15, 0, 5),
        rect(2, 3, 4, 5),
        rect(-4, 1, 9, 12),
        rect(5, 5, 2, 8),
        rect(3, 9, 7, 7),
    ];
    for a in rects {
        for b in rects {
            assert_eq!(a.intersects_rect(&b), a.get_intersect_rect(&b).is_some());
            assert_eq!(a.intersects_rect(&b), b.intersects_rect(&a));
        }
    }
}

#[test]
fn get_intersect_rect_is_the_shared_rectangle() {
    let r = rect(0, 10, 0, 10);
    assert_eq!(r.get_intersect_rect(&rect(5, 15, -5, 5)), Some(rect(5, 10, 0, 5)));
    assert_eq!(r.get_intersect_rect(&rect(2, 3, 4, 5)), Some(rect(2, 3, 4, 5)));
    assert_eq!(r.get_intersect_rect(&r), Some(r));
    assert_eq!(r.get_intersect_rect(&rect(10, 15, 0, 5)), None);
    assert_eq!(r.get_intersect_rect(&rect(0, 5, -5, 0)), None);
    assert_eq!(r.get_intersect_rect(&rect(20, 30, 20, 30)), None);
    let f = rect(0.0f64, 10.0, 0.0, 10.0);
    assert_eq!(f.get_intersect_rect(&rect(2.5, 20.0, -1.0, 0.5)), Some(rect(2.5, 10.0, 0.0, 0.5)));
}

#[test]
fn get_intersect_rect_commutes() {
    let rects = [
        rect(0, 10, 0, 10),
        rect(5, 15, -5, 5),
        rect(10, 15, 0, 5),
        rect(2, 3, 4, 5),
        rect(-4, 1, 9, 12),
    ];
    for a in rects {
        for b in rects {
            assert_eq!(a.get_intersect_rect(&b), b.get_intersect_rect(&a));
        }
    }
}

#[test]
fn rect_grow_moves_all_four_sides_out() {
    assert_eq!(rect(0, 10, 20, 30).grow(2), rect(-2, 12, 18, 32));
    assert_eq!(rect(0, 10, 20, 30).grow(0), rect(0, 10, 20, 30));
}

#[test]
fn rect_from_point_is_point_minus_and_plus_radius() {
    assert_eq!(Rect::from_point(vec2(5, 50), vec2(1, 10)), rect(4, 6, 40, 60));
}

#[test]
fn rect_grow_to_fit_never_shrinks() {
    let mut r = rect(0, 10, 0, 10);
    r.grow_to_fit(&rect(2, 3, 4, 5));
    assert_eq!(r, rect(0, 10, 0, 10));
    r.grow_to_fit(&rect(-2, 3, 4, 15));
    assert_eq!(r, rect(-2, 10, 0, 15));
    let same = *r.grow_to_fit(&rect(-20, 30, -40, 50));
    assert_eq!(same, rect(-20, 30, -40, 50));
    assert_eq!(r, rect(-20, 30, -40, 50));
}

#[test]
fn grow_to_fit_point_moves_one_bound_per_axis() {
    let mut r = rect(0, 10, 0, 10);
    r.grow_to_fit_point(vec2(5, 5));
    assert_eq!(r, rect(0, 10, 0, 10));
    r.grow_to_fit_point(vec2(-3, 20));
    assert_eq!(r, rect(-3, 10, 0, 20));
    r.grow_to_fit_point(vec2(10, 20));
    assert_eq!(r, rect(-3, 10, 0, 20));
    r.grow_to_fit_point(vec2(11, -1));
    assert_eq!(r, rect(-3, 11, -1, 20));
}

#[test]
fn furthest_distance_is_to_the_furthest_corner() {
    let r = rect(0, 10, 0, 10);
    assert_eq!(r.furthest_distance_squared_to_point(vec2(0, 0)), 200);
    assert_eq!(r.furthest_distance_squared_to_point(vec2(5, 5)), 50);
    assert_eq!(r.furthest_distance_squared_to_point(vec2(-3, 4)), 13 * 13 + 6 * 6);
    assert_eq!(r.furthest_distance_squared_to_point(vec2(12, 14)), 12 * 12 + 14 * 14);
    for x in -3..14 {
        for y in -3..14 {
            let p = vec2(x, y);
            let furthest = r.furthest_distance_squared_to_point(p);
            for c in r.get_corners() {
                assert!(c.distance_squared_to_point(p) <= furthest);
            }
        }
    }
}

#[test]
fn distance_squared_to_point_is_none_strictly_inside() {
    let r = rect(0, 10, 0, 10);
    assert_eq!(r.distance_squared_to_point(vec2(3, 4)), None);
    assert_eq!(r.distance_squared_to_point(vec2(1, 9)), None);
    assert_eq!(r.distance_squared_to_point(vec2(0, 4)), Some(0));
    assert_eq!(r.distance_squared_to_point(vec2(10, 10)), Some(0));
    assert_eq!(r.distance_squared_to_point(vec2(13, 14)), Some(25));
    assert_eq!(r.distance_squared_to_point(vec2(-2, 5)), Some(4));
    assert_eq!(r.distance_squared_to_point(vec2(5, 17)), Some(49));
    let f = rect(0.0f64, 10.0, 0.0, 10.0);
    assert_eq!(f.distance_squared_to_point(vec2(11.5, 5.0)), Some(2.25));
    assert_eq!(f.distance_squared_to_point(vec2(5.0, 5.0)), None);
}

#[test]
fn derive_center_is_start_plus_half_the_length() {
    assert_eq!(rect(0i64, 10, 0, 10).derive_center(), vec2(5, 5));
    assert_eq!(rect(0i64, 10, 0, 7).derive_center(), vec2(5, 3));
    assert_eq!(rect(-7i64, 0, -10, -4).derive_center(), vec2(-4, -7));
    assert_eq!(rect(3i64, 3, 4, 5).derive_center(), vec2(3, 4));
    assert_eq!(rect(10i64, 3, 0, 0).derive_center(), vec2(7, 0));
}

#[test]
fn rect_inner_conversions() {
    let r: Rect<i64> = rect(-3i32, 7, 1, 2).inner_into();
    assert_eq!(r, rect(-3i64, 7, 1, 2));
    let ok: Result<Rect<u8>, _> = rect(3i32, 200, 0, 255).inner_try_into();
    assert_eq!(ok.unwrap(), rect(3u8, 200, 0, 255));
    let bad_x: Result<Rect<u8>, _> = rect(-3i32, 7, 1, 2).inner_try_into();
    assert!(bad_x.is_err());
    let bad_y: Result<Rect<u8>, _> = rect(3i32, 7, 1, 256).inner_try_into();
    assert!(bad_y.is_err());
}

#[test]
fn rect_converts_to_and_from_an_array() {
    let r: Rect<i32> = [1, 2, 3, 4].into();
    assert_eq!(r, rect(1, 2, 3, 4));
    let by_ref: [i32; 4] = (&r).into();
    assert_eq!(by_ref, [1, 2, 3, 4]);
    let a: [i32; 4] = r.into();
    assert_eq!(a, [1, 2, 3, 4]);
}
