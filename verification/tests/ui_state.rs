use ffchess_client::ui_state::{CooldownSeconds, JoinStep, RejoinFlow};

#[test]
fn join_step_defaults_to_name_entry() {
    let step = JoinStep::default();
    assert!(step.is_enter_name());
    assert!(!step.is_select_kit());
    assert!(JoinStep::SelectKit.is_select_kit());
    assert!(!JoinStep::SelectKit.is_enter_name());
}

#[test]
fn rejoin_flow_forces_overlay_only_without_result() {
    assert!(RejoinFlow::Active.forces_join_overlay(false));
    assert!(!RejoinFlow::Active.forces_join_overlay(true));
    assert!(!RejoinFlow::Inactive.forces_join_overlay(false));
    assert!(!RejoinFlow::default().is_active());
    assert!(RejoinFlow::Active.is_active());
}

#[test]
fn cooldown_counts_down_to_zero_and_stays() {
    let mut c = CooldownSeconds::from_seconds(3);
    assert!(c.is_active());
    assert_eq!(c.as_u32(), 3);
    c = c.decrement();
    assert_eq!(c.as_u32(), 2);
    c = c.decrement().decrement();
    assert!(c.is_zero());
    assert!(!c.is_active());
    c = c.decrement();
    assert_eq!(c.as_u32(), 0);
    assert_eq!(CooldownSeconds::zero(), CooldownSeconds::default());
}

#[test]
fn cooldowns_are_equal_by_their_seconds() {
    for n in [0u32, 1, 7, u32::MAX] {
        assert_eq!(CooldownSeconds::from_seconds(n).as_u32(), n);
        let c = CooldownSeconds::from_seconds(n);
        assert_eq!(CooldownSeconds::from_seconds(c.as_u32()), c);
        assert_eq!(c.is_zero(), c.as_u32() == 0);
        assert_eq!(c.is_zero(), !c.is_active());
        assert_eq!(c.is_zero(), c == CooldownSeconds::zero());
    }
    assert_eq!(CooldownSeconds::from_seconds(3).decrement(), CooldownSeconds::from_seconds(2));
}
