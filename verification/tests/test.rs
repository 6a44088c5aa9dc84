use axgeom::rect;
use axgeom::vec2;
use axgeom::Axis;
use axgeom::StaticAxis;

fn generic<T: Axis>(a: T) -> usize {
    //known at compile time
    if a.is_xaxis() {
        1
    } else {
        0
    }
}

#[test]
fn rect_rest() {
    let rect = rect(0, 10, 0, 10);

    let k = rect.furthest_distance_squared_to_point(vec2(0, 0));
    assert_eq!(k, 10 * 10 + 10 * 10);

    let k = rect.furthest_distance_squared_to_point(vec2(10, 10));
    assert_eq!(k, 10 * 10 + 10 * 10);

    let k = rect.furthest_distance_squared_to_point(vec2(5, 5));
    assert_eq!(k, 5 * 5 + 5 * 5);
}

#[test]
fn test() {
    let a = axgeom::XAXIS;
    let b = a.next();
    let c = b.next();

    assert_eq!(generic(a), 1);
    assert_eq!(generic(b), 0);
    assert_eq!(generic(c), 1);
}
