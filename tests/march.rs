use raymarch::march::{replay_march, MarchAction, MarchState, StepObservation, MAX_MARCH_STEPS};

fn step(grew: bool, within_threshold: bool) -> StepObservation {
    StepObservation { grew, within_threshold }
}

#[test]
fn start_has_taken_no_steps() {
    let s = MarchState::start();
    assert_eq!(s.steps_taken, 0);
    assert!(!s.last_grew);
}

#[test]
fn observe_advances_when_far_from_surface() {
    let (s, a) = MarchState::start().observe(step(false, false));
    assert_eq!(a, MarchAction::Advance);
    assert_eq!(s, MarchState { steps_taken: 1, last_grew: false });
}

#[test]
fn observe_reports_hit_below_threshold() {
    let (s, a) = MarchState::start().observe(step(false, true));
    assert_eq!(a, MarchAction::Hit);
    assert_eq!(s.steps_taken, 1);
}

#[test]
fn single_growth_does_not_diverge() {
    let (s, a) = MarchState::start().observe(step(true, false));
    assert_eq!(a, MarchAction::Advance);
    assert!(s.last_grew);
    let (_, a) = MarchState { steps_taken: 5, last_grew: false }.observe(step(true, false));
    assert_eq!(a, MarchAction::Advance);
}

#[test]
fn divergence_is_tested_before_hit() {
    let (_, a) = MarchState { steps_taken: 3, last_grew: true }.observe(step(true, true));
    assert_eq!(a, MarchAction::Diverged);
}

#[test]
fn last_step_of_budget_is_exhausted() {
    let (s, a) = MarchState { steps_taken: MAX_MARCH_STEPS - 1, last_grew: false }.observe(step(false, false));
    assert_eq!(a, MarchAction::Exhausted);
    assert_eq!(s.steps_taken, MAX_MARCH_STEPS);
    let (_, a) = MarchState { steps_taken: MAX_MARCH_STEPS - 1, last_grew: false }.observe(step(false, true));
    assert_eq!(a, MarchAction::Hit);
}

#[test]
fn replay_stops_on_divergence_well_before_budget() {
    let mut obs = vec![step(false, false); 200];
    obs[3] = step(true, false);
    obs[4] = step(true, false);
    let (s, a) = replay_march(&obs);
    assert_eq!(a, MarchAction::Diverged);
    assert_eq!(s.steps_taken, 5);
}

#[test]
fn replay_without_growth_or_hit_exhausts_budget() {
    let obs = vec![step(false, false); 200];
    let (s, a) = replay_march(&obs);
    assert_eq!(a, MarchAction::Exhausted);
    assert_eq!(s.steps_taken, 128);
}

#[test]
fn replay_hit_before_growth() {
    let mut obs = vec![step(false, false); 10];
    obs[6] = step(false, true);
    obs[8] = step(true, false);
    obs[9] = step(true, false);
    let (s, a) = replay_march(&obs);
    assert_eq!(a, MarchAction::Hit);
    assert_eq!(s.steps_taken, 7);
}

#[test]
fn replay_running_out_of_observations_is_still_advancing() {
    let obs = vec![step(false, false); 4];
    let (s, a) = replay_march(&obs);
    assert_eq!(a, MarchAction::Advance);
    assert_eq!(s.steps_taken, 4);
}

#[test]
fn replay_is_repeatable_whatever_follows_the_stop() {
    let mut a = vec![step(false, false); 20];
    a[2] = step(false, true);
    let mut b = a.clone();
    for o in b.iter_mut().skip(3) {
        *o = step(true, false);
    }
    assert_eq!(replay_march(&a), replay_march(&a));
    assert_eq!(replay_march(&a), replay_march(&b));
}
