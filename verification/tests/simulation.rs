use neworder::simulation::Action::{
    ApplyModifier, BeginStep, CheckFailed, Finished, RunCheck, RunCheckpoint, RunTransition,
};
use neworder::simulation::{modifiers_consistent, rank_has_modifier, Action, Simulation, Stage};
use neworder::timeline::Timeline;

fn run_all(sim: &mut Simulation, failing_check: Option<(u32, usize)>) -> Vec<Action> {
    let mut actions = Vec::new();
    let mut step = 0;
    loop {
        let a = sim.next_action();
        actions.push(a);
        match a {
            Action::BeginStep(i) => step = i,
            Action::RunCheck(k) => sim.check_result(failing_check != Some((step, k))),
            Action::Finished | Action::CheckFailed(_) => break,
            _ => {}
        }
    }
    actions
}

#[test]
fn run_hands_out_callbacks_in_order() {
    let mut sim = Simulation::new(Timeline::new(vec![2, 3]), 0, 0, 2, 1, 1);
    let actions = run_all(&mut sim, None);
    assert_eq!(
        actions,
        vec![
            BeginStep(1),
            RunTransition(0),
            RunTransition(1),
            RunCheck(0),
            BeginStep(2),
            RunTransition(0),
            RunTransition(1),
            RunCheck(0),
            RunCheckpoint(0),
            BeginStep(3),
            RunTransition(0),
            RunTransition(1),
            RunCheck(0),
            RunCheckpoint(0),
            Finished,
        ]
    );
    assert_eq!(sim.stage(), Stage::Finished);
    assert_eq!(sim.next_action(), Finished);
    assert_eq!(sim.timeline().index(), 3);
}

#[test]
fn modifier_runs_first() {
    let mut sim = Simulation::new(Timeline::null(), 3, 2, 0, 0, 1);
    let actions = run_all(&mut sim, None);
    assert_eq!(actions, vec![ApplyModifier(2), BeginStep(1), RunCheckpoint(0), Finished]);
}

#[test]
fn failed_check_stops_the_run() {
    let mut sim = Simulation::new(Timeline::new(vec![5]), 0, 0, 1, 2, 1);
    let actions = run_all(&mut sim, Some((2, 1)));
    assert_eq!(
        actions,
        vec![
            BeginStep(1),
            RunTransition(0),
            RunCheck(0),
            RunCheck(1),
            BeginStep(2),
            RunTransition(0),
            RunCheck(0),
            RunCheck(1),
            CheckFailed(1),
        ]
    );
    assert_eq!(sim.next_action(), CheckFailed(1));
    assert_eq!(sim.stage(), Stage::Failed(1));
}

#[test]
fn run_resumes_from_timeline_position() {
    let mut t = Timeline::new(vec![4]);
    t.next();
    t.next();
    let mut sim = Simulation::new(t, 0, 0, 0, 0, 0);
    assert_eq!(run_all(&mut sim, None), vec![BeginStep(3), BeginStep(4), Finished]);
}

#[test]
fn modifier_counts_are_checked() {
    assert!(modifiers_consistent(0, 4));
    assert!(modifiers_consistent(4, 4));
    assert!(!modifiers_consistent(3, 4));
    assert!(!modifiers_consistent(1, -1));
    assert!(rank_has_modifier(0, -1));
    assert!(rank_has_modifier(4, 3));
    assert!(!rank_has_modifier(4, 4));
    assert!(!rank_has_modifier(4, -1));
}
