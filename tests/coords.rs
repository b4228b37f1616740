use beatgrid::coords::Coords;

#[test]
fn sum_with_itself_and_norms() {
    let a = Coords { x: 42, y: 12 };
    let s = a + a;
    assert_eq!(s, Coords { x: 84, y: 24 });
    assert_eq!(s.l2(), 84 * 84 + 24 * 24);
    assert_eq!(s.l2(), 7632);
    let d = a - a;
    assert_eq!(d, Coords { x: 0, y: 0 });
    assert_eq!(d.l1(), 0);
}

#[test]
fn add_then_sub_gives_back() {
    let a = Coords { x: -100, y: 27 };
    let b = Coords { x: 50, y: -27 };
    assert_eq!((a + b) - b, a);
}

#[test]
fn mul_then_div_gives_back() {
    let a = Coords { x: -21, y: 9 };
    assert_eq!((a * 6) / 6, a);
    assert_eq!((a * -5) / -5, a);
}

#[test]
fn div_truncates_toward_zero() {
    assert_eq!(Coords { x: -7, y: 7 } / 2, Coords { x: -3, y: 3 });
    assert_eq!(Coords { x: 7, y: -7 } / -2, Coords { x: -3, y: 3 });
}

#[test]
fn mul_scales_each_component() {
    assert_eq!(Coords { x: 3, y: -4 } * 5, Coords { x: 15, y: -20 });
}

#[test]
fn l1_of_negative_components() {
    assert_eq!(Coords { x: -3, y: 4 }.l1(), 7);
    assert_eq!(Coords { x: -128, y: -128 }.l1(), 256);
}

#[test]
fn l2_at_the_extremes() {
    assert_eq!(Coords { x: -128, y: -128 }.l2(), 32768);
    assert_eq!(Coords { x: 127, y: -128 }.l2(), 127 * 127 + 128 * 128);
    assert_eq!(Coords { x: 0, y: 0 }.l2(), 0);
    assert_eq!(Coords { x: -3, y: 4 }.l2(), 25);
}
