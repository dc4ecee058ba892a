use neworder::timeline::{checkpoints_valid, Timeline};

#[test]
fn timeline_steps_through_checkpoints() {
    let mut timeline = Timeline::new(vec![10, 20, 30]);

    assert_eq!(timeline.index(), 0);
    assert_eq!(timeline.at_checkpoint(), false);
    assert_eq!(timeline.at_end(), false);
    assert_eq!(timeline.nsteps(), 30);

    assert_eq!(timeline.next(), Some(1));
    assert_eq!(timeline.index(), 1);
    assert_eq!(timeline.at_checkpoint(), false);
    assert_eq!(timeline.at_end(), false);

    for _ in 0..8 {
        timeline.next();
    }
    assert_eq!(timeline.next(), Some(10));
    assert_eq!(timeline.index(), 10);
    assert_eq!(timeline.at_checkpoint(), true);
    assert_eq!(timeline.at_end(), false);

    for _ in 0..19 {
        timeline.next();
    }
    assert_eq!(timeline.next(), Some(30));
    assert_eq!(timeline.index(), 30);
    assert_eq!(timeline.at_checkpoint(), true);
    assert_eq!(timeline.at_end(), true);

    assert_eq!(timeline.next(), None);
    assert_eq!(timeline.index(), 30);

    timeline.reset();
    let mut step = 1;
    while let Some(i) = timeline.next() {
        assert_eq!(step, i);
        step += 1;
    }
    assert_eq!(step, 31);
}

#[test]
fn null_timeline_has_one_step() {
    let mut notimeline = Timeline::null();

    assert_eq!(notimeline.index(), 0);
    assert_eq!(notimeline.at_checkpoint(), false);
    assert_eq!(notimeline.at_end(), false);
    assert_eq!(notimeline.nsteps(), 1);

    assert_eq!(notimeline.next(), Some(1));
    assert_eq!(notimeline.index(), 1);
    assert_eq!(notimeline.at_checkpoint(), true);
    assert_eq!(notimeline.at_end(), true);
    assert_eq!(notimeline.next(), None);
}

#[test]
fn advance_moves_past_the_end() {
    let mut t = Timeline::null();
    t.advance();
    assert!(t.at_end());
    t.advance();
    assert_eq!(t.index(), 2);
    assert!(!t.at_end());
    assert!(!t.at_checkpoint());
}

#[test]
fn checkpoint_schedules_are_validated() {
    assert!(checkpoints_valid(&vec![10, 20, 30]));
    assert!(checkpoints_valid(&vec![0]));
    assert!(!checkpoints_valid(&vec![]));
    assert!(!checkpoints_valid(&vec![10, 10, 30]));
    assert!(!checkpoints_valid(&vec![10, 30, 20]));
}

#[test]
fn checkpoint_at_zero_is_seen_at_start() {
    let t = Timeline::new(vec![0, 4]);
    assert!(t.at_checkpoint());
    assert_eq!(t.checkpoints(), &vec![0, 4]);
}

#[test]
fn clone_keeps_position() {
    let mut t = Timeline::new(vec![3]);
    t.next();
    let c = t.clone();
    assert_eq!(c.index(), 1);
    assert_eq!(c.nsteps(), 3);
}
