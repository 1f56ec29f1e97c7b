use vvm_core::{
    ClockTiming, CycleTiming, FailurePolicy, InoutState, InvalidTimeStep, TimeStep,
};

#[test]
fn unit_clock_timing_matches_cycle_unit() {
    assert_eq!(ClockTiming::unit().cycle(), CycleTiming::unit());
}

#[test]
fn default_clock_timing_is_unit() {
    assert_eq!(ClockTiming::default(), ClockTiming::unit());
}

#[test]
fn from_cycle_uses_inactive_phase_for_first_delay() -> Result<(), InvalidTimeStep> {
    let cycle = CycleTiming::new(TimeStep::new(3)?, TimeStep::new(2)?);
    let timing = ClockTiming::from_cycle(cycle);
    assert_eq!(timing.first_active_after(), TimeStep::new(3)?);
    assert_eq!(timing.active_phase(), TimeStep::new(2)?);
    Ok(())
}

#[test]
fn custom_first_active_delay_is_preserved() -> Result<(), InvalidTimeStep> {
    let timing = ClockTiming::new(CycleTiming::unit(), TimeStep::new(7)?);
    assert_eq!(timing.first_active_after(), TimeStep::new(7)?);
    Ok(())
}

#[test]
fn clock_timing_exposes_recurring_inactive_phase() -> Result<(), InvalidTimeStep> {
    let timing = ClockTiming::from_cycle(CycleTiming::new(TimeStep::new(3)?, TimeStep::one()));
    assert_eq!(timing.inactive_phase(), TimeStep::new(3)?);
    Ok(())
}

#[test]
fn clock_timing_exposes_recurring_active_phase() -> Result<(), InvalidTimeStep> {
    let timing = ClockTiming::from_cycle(CycleTiming::new(TimeStep::one(), TimeStep::new(3)?));
    assert_eq!(timing.active_phase(), TimeStep::new(3)?);
    Ok(())
}

#[test]
fn zero_time_step_is_rejected() {
    assert_eq!(TimeStep::new(0), Err(InvalidTimeStep));
    assert_eq!(TimeStep::new(5).map(TimeStep::get), Ok(5));
}

#[test]
fn rejects_zero_and_stops_at_the_configured_limit() {
    let zero_limit = FailurePolicy::collect_up_to(0).expect_err("zero limit must be rejected");
    assert_eq!(zero_limit.message(), "maximum failure count must be > 0");

    let policy = FailurePolicy::collect_up_to(3).expect("nonzero limit must be accepted");
    assert!(!policy.should_stop(2));
    assert!(policy.should_stop(3));
    assert!(policy.should_stop(4));
    assert!(FailurePolicy::default().should_stop(1));
}

#[test]
fn constructs_and_returns_components() {
    let state = InoutState::<i16, u16>::new(-42, 0x00FF, 21);
    assert_eq!(state.input(), &-42);
    assert_eq!(state.output_enable(), &0x00FF);
    assert_eq!(state.output_value(), &21);
    assert_eq!(state.into_parts(), (-42, 0x00FF, 21));
}

#[test]
fn default_uses_component_defaults() {
    assert_eq!(InoutState::<u8>::default().into_parts(), (0, 0, 0));
}

#[test]
fn primitive_state_is_copy() {
    let state = InoutState::new(true, true, false);
    let copied = state;
    assert_eq!(state, copied);
}

#[test]
fn wide_state_is_cloneable() {
    let state = InoutState::new(
        vvm_core::Bits::<65>::zero(),
        vvm_core::Bits::<65>::zero(),
        vvm_core::Bits::<65>::zero(),
    );
    assert_eq!(state, state.clone());
}
