use viewbuilder_core::arith::Add;
use viewbuilder_core::arith::Sub;
use viewbuilder_core::inverse::InversibleTransform;
use viewbuilder_core::inverse::RevertableTransform;
use viewbuilder_core::inverse::Transform;

#[test]
fn add_five_end_to_end() {
    let add5 = Add::new(5);
    let applied = add5.apply(10);
    assert_eq!(applied, 15);
    let sub5 = add5.invert();
    assert_eq!(sub5.apply(15), 10);
    assert_eq!(add5.revert(15), 10);
}

#[test]
fn revert_round_trips_in_both_directions() {
    let add = Add::new(41);
    for v in [0, 7, -3, i32::MAX, i32::MIN] {
        assert_eq!(add.revert(add.apply(v)), v);
    }
    let sub = Sub::new(13);
    for v in [5, -9, i32::MAX, i32::MIN] {
        assert_eq!(sub.revert(sub.apply(v)), v);
    }
}

#[test]
fn invert_constructs_the_matching_inverse() {
    let add = Add::new(8);
    let sub: Sub = add.invert();
    assert_eq!(sub.value(), 8);
    let back: Add = sub.invert();
    assert_eq!(back.value(), 8);
}
