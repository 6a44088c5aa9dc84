use axgeom::ray;
use axgeom::ray::QuadraticRoots;
use axgeom::rect;
use axgeom::vec2;
use axgeom::CastResult;
use axgeom::Range;
use axgeom::Ray;
use axgeom::Vec2;
use axgeom::XAXIS;
use axgeom::YAXIS;
use core::cmp::Ordering;

fn cast_to_circle(ray: &Ray<f64>, center: Vec2<f64>, radius: f64) -> CastResult<f64> {
    let two = 2.0;
    let a = ray.dir.x.powi(2) + ray.dir.y.powi(2);
    let b = two * ray.dir.x * (ray.point.x - center.x) + two * ray.dir.y * (ray.point.y - center.y);
    let c = (ray.point.x - center.x).powi(2) + (ray.point.y - center.y).powi(2) - radius.powi(2);
    let found = match roots::find_roots_quadratic(a, b, c) {
        roots::Roots::No(_) => QuadraticRoots::No,
        roots::Roots::One([a]) => QuadraticRoots::One(a),
        roots::Roots::Two([a, b]) => QuadraticRoots::Two(a, b),
        _ => panic!("a quadratic has at most two roots"),
    };
    CastResult::from_quadratic_roots(found, 0.0)
}

#[test]
fn raytest() {
    let aabb = rect(0.0f64, 10.0, 0.0, 10.0);

    let r = ray(vec2(5.0f64, 15.0), vec2(0.0, -1.0));
    assert_eq!(r.cast_to_rect_with_zero(&aabb, 0.0), CastResult::Hit(5.0));

    let r = ray(vec2(-6.0f64, 5.0), vec2(1.0, 0.0));
    assert_eq!(r.cast_to_rect_with_zero(&aabb, 0.0), CastResult::Hit(6.0));

    let r = ray(vec2(0.0f64, -5.0), vec2(0.0, 1.0));
    assert_eq!(r.cast_to_rect_with_zero(&aabb, 0.0), CastResult::Hit(5.0));

    let r = ray(vec2(10.0f64, -5.0), vec2(0.0, 1.0));
    assert_eq!(r.cast_to_rect_with_zero(&aabb, 0.0), CastResult::NoHit);
}

#[test]
fn ray_hits_rect_from_outside() {
    let aabb = rect(0i64, 10, 0, 10);

    let r = ray(vec2(5i64, 15), vec2(0, -1));
    assert_eq!(r.cast_to_rect(&aabb), CastResult::Hit(5));

    let r = ray(vec2(-6i64, 5), vec2(1, 0));
    assert_eq!(r.cast_to_rect(&aabb), CastResult::Hit(6));

    let r = ray(vec2(0i64, -5), vec2(0, 1));
    assert_eq!(r.cast_to_rect(&aabb), CastResult::Hit(5));

    let r = ray(vec2(9i64, -5), vec2(0, 1));
    assert_eq!(r.cast_to_rect(&aabb), CastResult::Hit(5));
}

#[test]
fn ray_hits_rect_from_outside_in_floats() {
    let aabb = rect(0.0f64, 10.0, 0.0, 10.0);

    let r = ray(vec2(5.0f64, 15.0), vec2(0.0, -1.0));
    assert_eq!(r.cast_to_rect_with_zero(&aabb, 0.0), CastResult::Hit(5.0));

    let r = ray(vec2(-6.0f64, 5.0), vec2(1.0, 0.0));
    assert_eq!(r.cast_to_rect_with_zero(&aabb, 0.0), CastResult::Hit(6.0));

    let r = ray(vec2(0.0f64, -5.0), vec2(0.0, 1.0));
    assert_eq!(r.cast_to_rect_with_zero(&aabb, 0.0), CastResult::Hit(5.0));

    let r = ray(vec2(5.0f64, 5.0), vec2(0.0, 1.0));
    assert_eq!(r.cast_to_rect_with_zero(&aabb, 0.0), CastResult::Hit(0.0));
}

#[test]
fn ray_along_the_end_bound_misses_the_half_open_rect() {
    let aabb = rect(0i64, 10, 0, 10);
    let r = ray(vec2(10i64, -5), vec2(0, 1));
    assert_eq!(r.cast_to_rect(&aabb), CastResult::NoHit);
    let r = ray(vec2(-5i64, 10), vec2(1, 0));
    assert_eq!(r.cast_to_rect(&aabb), CastResult::NoHit);
}

#[test]
fn ray_from_inside_rect_hits_at_zero() {
    let aabb = rect(0i64, 10, 0, 10);
    for dir in [vec2(1i64, 0), vec2(0, 1), vec2(-1, -1), vec2(0, 0), vec2(7, -3)] {
        let r = ray(vec2(5i64, 5), dir);
        assert_eq!(r.cast_to_rect(&aabb), CastResult::Hit(0));
    }
    let r = ray(vec2(0i64, 0), vec2(-1, -1));
    assert_eq!(r.cast_to_rect(&aabb), CastResult::Hit(0));
}

#[test]
fn ray_that_points_away_or_passes_by_misses_the_rect() {
    let aabb = rect(0i64, 10, 0, 10);
    let r = ray(vec2(5i64, 15), vec2(0, 1));
    assert_eq!(r.cast_to_rect(&aabb), CastResult::NoHit);
    let r = ray(vec2(-6i64, 5), vec2(-1, 0));
    assert_eq!(r.cast_to_rect(&aabb), CastResult::NoHit);
    let r = ray(vec2(-6i64, 50), vec2(1, 0));
    assert_eq!(r.cast_to_rect(&aabb), CastResult::NoHit);
    let r = ray(vec2(-6i64, 5), vec2(0, 0));
    assert_eq!(r.cast_to_rect(&aabb), CastResult::NoHit);
}

#[test]
fn ray_that_meets_both_near_faces_takes_the_later() {
    let aabb = rect(0i64, 10, 0, 10);
    let r = ray(vec2(-2i64, -4), vec2(1, 1));
    assert_eq!(r.cast_to_rect(&aabb), CastResult::Hit(4));
    let r = ray(vec2(-4i64, -2), vec2(1, 1));
    assert_eq!(r.cast_to_rect(&aabb), CastResult::Hit(4));
    let r = ray(vec2(-3i64, -3), vec2(1, 1));
    assert_eq!(r.cast_to_rect(&aabb), CastResult::Hit(3));
    let r = ray(vec2(12i64, 13), vec2(-1, -1));
    assert_eq!(r.cast_to_rect(&aabb), CastResult::Hit(3));
    let r = ray(vec2(-2i64, -40), vec2(1, 1));
    assert_eq!(r.cast_to_rect(&aabb), CastResult::NoHit);
}

#[test]
fn cast_to_aaline_solves_for_t() {
    let r = ray(vec2(5i64, 15), vec2(2, -1));
    assert_eq!(r.cast_to_aaline(YAXIS, 10), CastResult::Hit(5));
    assert_eq!(r.cast_to_aaline(XAXIS, 11), CastResult::Hit(3));
    assert_eq!(r.cast_to_aaline(XAXIS, 12), CastResult::Hit(3));
    assert_eq!(r.cast_to_aaline(YAXIS, -15), CastResult::Hit(30));
}

#[test]
fn cast_to_aaline_misses_lines_behind_at_and_parallel() {
    let r = ray(vec2(5i64, 15), vec2(2, -1));
    assert_eq!(r.cast_to_aaline(YAXIS, 20), CastResult::NoHit);
    assert_eq!(r.cast_to_aaline(XAXIS, 1), CastResult::NoHit);
    assert_eq!(r.cast_to_aaline(XAXIS, 5), CastResult::NoHit);
    assert_eq!(r.cast_to_aaline(XAXIS, 6), CastResult::NoHit);
    let flat = ray(vec2(5i64, 15), vec2(1, 0));
    assert_eq!(flat.cast_to_aaline(YAXIS, 20), CastResult::NoHit);
    assert_eq!(flat.cast_to_aaline(YAXIS, 15), CastResult::NoHit);
}

#[test]
fn cast_to_aaline_with_zero_works_in_floats() {
    let r = ray(vec2(5.0f64, 15.0), vec2(2.0, -1.0));
    assert_eq!(r.cast_to_aaline_with_zero(XAXIS, 6.0, 0.0), CastResult::Hit(0.5));
    assert_eq!(r.cast_to_aaline_with_zero(YAXIS, 10.0, 0.0), CastResult::Hit(5.0));
    assert_eq!(r.cast_to_aaline_with_zero(YAXIS, 15.0, 0.0), CastResult::NoHit);
    assert_eq!(r.cast_to_aaline_with_zero(YAXIS, 16.0, 0.0), CastResult::NoHit);
}

#[test]
fn point_at_tval_is_point_plus_dir_times_t() {
    let r = ray(vec2(5, 15), vec2(2, -1));
    assert_eq!(r.point_at_tval(0), vec2(5, 15));
    assert_eq!(r.point_at_tval(5), vec2(15, 10));
    assert_eq!(r.point_at_tval(-1), vec2(3, 16));
}

#[test]
fn range_side_looks_at_the_start_of_the_ray() {
    let r = ray(vec2(5, 15), vec2(2, -1));
    let range = Range::new(0, 10);
    assert_eq!(r.range_side(XAXIS, &range), Ordering::Equal);
    assert_eq!(r.range_side(YAXIS, &range), Ordering::Greater);
    assert_eq!(r.range_side(YAXIS, &Range::new(20, 30)), Ordering::Less);
}

#[test]
fn cast_result_map_and_unwrap() {
    assert_eq!(CastResult::Hit(3).map(|t| t * 2), CastResult::Hit(6));
    assert_eq!(CastResult::NoHit.map(|t: i32| t * 2), CastResult::NoHit);
    assert_eq!(CastResult::Hit(3).unwrap(), 3);
}

#[test]
fn ray_pointing_away_from_circle_misses() {
    let r = ray(vec2(2.0f64, 0.0), vec2(1.0, 0.0));
    assert_eq!(cast_to_circle(&r, vec2(0.0, 0.0), 1.0), CastResult::NoHit);
    let r = ray(vec2(0.0f64, 5.0), vec2(1.0, 0.0));
    assert_eq!(cast_to_circle(&r, vec2(0.0, 0.0), 1.0), CastResult::NoHit);
}

#[test]
fn ray_from_inside_circle_hits_at_zero() {
    let r = ray(vec2(0.0f64, 0.0), vec2(1.0, 0.0));
    assert_eq!(cast_to_circle(&r, vec2(0.0, 0.0), 1.0), CastResult::Hit(0.0));
    let r = ray(vec2(0.5f64, -0.25), vec2(-3.0, 1.0));
    assert_eq!(cast_to_circle(&r, vec2(0.0, 0.0), 1.0), CastResult::Hit(0.0));
}

#[test]
fn ray_from_the_circle_itself_hits_at_zero() {
    let r = ray(vec2(1.0f64, 0.0), vec2(1.0, 0.0));
    assert_eq!(cast_to_circle(&r, vec2(0.0, 0.0), 1.0), CastResult::Hit(0.0));
    let r = ray(vec2(-1.0f64, 0.0), vec2(1.0, 0.0));
    assert_eq!(cast_to_circle(&r, vec2(0.0, 0.0), 1.0), CastResult::Hit(0.0));
    let r = ray(vec2(0.0f64, 3.0), vec2(0.0, 2.0));
    assert_eq!(cast_to_circle(&r, vec2(0.0, 0.0), 3.0), CastResult::Hit(0.0));
}

#[test]
fn no_hit_on_a_circle_is_behind_the_ray() {
    let starts = [-3.0f64, -1.0, -0.5, 0.0, 0.5, 1.0, 3.0];
    let dirs = [vec2(1.0f64, 0.0), vec2(-1.0, 0.0), vec2(0.0, 1.0), vec2(1.0, 1.0), vec2(-2.0, 0.5)];
    for x in starts {
        for y in starts {
            for dir in dirs {
                match cast_to_circle(&ray(vec2(x, y), dir), vec2(0.0, 0.0), 1.0) {
                    CastResult::Hit(t) => assert!(t >= 0.0),
                    CastResult::NoHit => {}
                }
            }
        }
    }
}

#[test]
fn ray_through_circle_hits_at_the_smaller_root() {
    let r = ray(vec2(-2.0f64, 0.0), vec2(1.0, 0.0));
    assert_eq!(cast_to_circle(&r, vec2(0.0, 0.0), 1.0), CastResult::Hit(1.0));
    let r = ray(vec2(0.0f64, 6.0), vec2(0.0, -2.0));
    assert_eq!(cast_to_circle(&r, vec2(0.0, 0.0), 2.0), CastResult::Hit(2.0));
}

#[test]
fn from_quadratic_roots_reads_the_hit_off_the_roots() {
    assert_eq!(CastResult::from_quadratic_roots(QuadraticRoots::No, 0), CastResult::NoHit);
    assert_eq!(CastResult::from_quadratic_roots(QuadraticRoots::One(-1), 0), CastResult::NoHit);
    assert_eq!(CastResult::from_quadratic_roots(QuadraticRoots::One(0), 0), CastResult::Hit(0));
    assert_eq!(CastResult::from_quadratic_roots(QuadraticRoots::One(4), 0), CastResult::Hit(4));
    assert_eq!(CastResult::from_quadratic_roots(QuadraticRoots::Two(-3, -1), 0), CastResult::NoHit);
    assert_eq!(CastResult::from_quadratic_roots(QuadraticRoots::Two(-1, -3), 0), CastResult::NoHit);
    assert_eq!(CastResult::from_quadratic_roots(QuadraticRoots::Two(-1, 3), 0), CastResult::Hit(0));
    assert_eq!(CastResult::from_quadratic_roots(QuadraticRoots::Two(3, -1), 0), CastResult::Hit(0));
    assert_eq!(CastResult::from_quadratic_roots(QuadraticRoots::Two(1, 3), 0), CastResult::Hit(1));
    assert_eq!(CastResult::from_quadratic_roots(QuadraticRoots::Two(3, 1), 0), CastResult::Hit(1));
    assert_eq!(CastResult::from_quadratic_roots(QuadraticRoots::Two(0, 3), 0), CastResult::Hit(0));
    assert_eq!(CastResult::from_quadratic_roots(QuadraticRoots::Two(-2, 0), 0), CastResult::Hit(0));
    assert_eq!(CastResult::from_quadratic_roots(QuadraticRoots::Two(0, -2), 0), CastResult::Hit(0));
    assert_eq!(CastResult::from_quadratic_roots(QuadraticRoots::Two(0, 0), 0), CastResult::Hit(0));
    assert_eq!(
        CastResult::from_quadratic_roots(QuadraticRoots::Two(-2.0f64, -0.0), 0.0),
        CastResult::Hit(0.0)
    );
}

#[test]
fn ray_inner_conversions() {
    let r: Ray<i64> = ray(vec2(1i32, 2), vec2(3, 4)).inner_into();
    assert_eq!(r.point, vec2(1i64, 2));
    assert_eq!(r.dir, vec2(3i64, 4));
    let ok: Result<Ray<u8>, _> = ray(vec2(1i32, 2), vec2(3, 4)).inner_try_into();
    assert_eq!(ok.unwrap().dir, vec2(3u8, 4));
    let bad: Result<Ray<u8>, _> = ray(vec2(1i32, 2), vec2(3, -4)).inner_try_into();
    assert!(bad.is_err());
}
