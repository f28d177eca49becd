use viewbuilder_core::View;
use viewbuilder_core::arith::Add;
use viewbuilder_core::arith::SequencedAdd;
use viewbuilder_core::arith::Sub;
use viewbuilder_core::transform::MutableTransform;
use viewbuilder_core::transform::OnceTransform;
use viewbuilder_core::transform::Transform;

#[test]
fn apply_tiers_agree_on_same_input() {
    let add5 = Add::new(5);
    let shared = add5.apply(10);
    let mut mutable_add5 = Add::new(5);
    let mutable = mutable_add5.apply_mut(10);
    let once = Add::new(5).apply_once(10);
    assert_eq!(shared, 15);
    assert_eq!(mutable, 15);
    assert_eq!(once, 15);
}

#[test]
fn repeated_applications_are_stable() {
    let sub3 = Sub::new(3);
    assert_eq!(sub3.apply(9), 6);
    assert_eq!(sub3.apply(9), 6);
    let mut mutable_sub3 = Sub::new(3);
    assert_eq!(mutable_sub3.apply_mut(9), 6);
    assert_eq!(mutable_sub3.apply_mut(9), 6);
}

#[test]
fn shared_reference_forwards_every_tier() {
    let add7 = Add::new(7);
    let forwarded = &add7;
    assert_eq!(<&Add as Transform<i32>>::apply(&forwarded, 1), add7.apply(1));
    let mut mutable_forwarded = &add7;
    assert_eq!(
        <&Add as MutableTransform<i32>>::apply_mut(&mut mutable_forwarded, 1),
        8
    );
    assert_eq!(<&Add as OnceTransform<i32>>::apply_once(forwarded, 1), 8);
}

#[test]
fn mutable_reference_forwards_mutable_and_once_tiers() {
    let mut add9 = Add::new(9);
    let mut forwarded = &mut add9;
    assert_eq!(
        <&mut Add as MutableTransform<i32>>::apply_mut(&mut forwarded, 1),
        10
    );
    assert_eq!(<&mut Add as OnceTransform<i32>>::apply_once(forwarded, 2), 11);
}

#[test]
fn sequenced_add_consumes_one_queued_offset_per_call() {
    let mut add = SequencedAdd::new(vec![2, 4]);
    let mut total = 0;
    total = add.apply_mut(total);
    assert_eq!(total, 4);
    total = add.apply_mut(total);
    assert_eq!(total, 6);
    total = add.apply_mut(total);
    assert_eq!(total, 6);
}

#[test]
fn sequenced_add_applied_once_uses_the_last_queued_offset() {
    let add = SequencedAdd::new(vec![2, 4]);
    assert_eq!(add.apply_once(10), 14);
}

#[test]
fn mutable_reference_forwarding_updates_the_referent() {
    let mut add = SequencedAdd::new(vec![10]);
    {
        let mut forwarded = &mut add;
        assert_eq!(
            <&mut SequencedAdd as MutableTransform<i32>>::apply_mut(&mut forwarded, 1),
            11
        );
    }
    assert_eq!(add.apply_mut(1), 1);
}

#[test]
fn addition_wraps_at_the_domain_bounds() {
    assert_eq!(Add::new(1).apply(i32::MAX), i32::MIN);
    assert_eq!(Sub::new(1).apply(i32::MIN), i32::MAX);
}

#[test]
fn offset_accessors_report_the_construction_value() {
    assert_eq!(Add::new(3).value(), 3);
    assert_eq!(Sub::new(-4).value(), -4);
}

#[test]
fn unit_view_body_is_unit() {
    assert_eq!(().body(), ());
}
