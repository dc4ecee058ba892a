use neworder::montecarlo::{checked_seed, compute_seed, MonteCarlo};

#[test]
fn mt19937_first_draws() {
    let mut mc = MonteCarlo::new(0, 1, true);
    assert_eq!(mc.seed(), 19937);
    assert!(mc.indep());
    let r = mc.draw_u32s(5);
    assert_eq!(r, vec![1450791966, 204743920, 3492290356, 1071801876, 1454088227]);
}

#[test]
fn reset_restarts_the_stream() {
    let mut mc = MonteCarlo::new(0, 1, true);
    let first = mc.draw_u32s(2);
    let next = mc.draw_u32s(2);
    assert_ne!(first, next);
    mc.reset();
    assert_eq!(mc.draw_u32s(2), first);
    assert_eq!(mc.draw_u32s(2), next);
    mc.reset();
    assert_eq!(mc.draw_u32s(4), vec![first[0], first[1], next[0], next[1]]);
}

#[test]
fn seeds_follow_rank_and_size() {
    assert_eq!(compute_seed(0, 1, true), 19937);
    assert_eq!(compute_seed(3, 4, true), 19937 * 4 + 3);
    assert_eq!(compute_seed(3, 4, false), 19937 * 4);
    assert_eq!(compute_seed(0, 4, false), compute_seed(2, 4, false));
    assert_ne!(compute_seed(0, 4, true), compute_seed(2, 4, true));
    assert_eq!(compute_seed(-1, 2, false), 19937 * 2);
}

#[test]
fn engine_records_its_seed() {
    let mc = MonteCarlo::new(1, 2, false);
    assert_eq!(mc.seed(), 39874);
    assert!(!mc.indep());
    let mut a = MonteCarlo::with_seed(39874, false);
    let mut b = MonteCarlo::new(0, 2, false);
    assert_eq!(a.draw_u32s(3), b.draw_u32s(3));
}

#[test]
fn clone_continues_the_same_stream() {
    let mut a = MonteCarlo::new(0, 1, true);
    a.draw_u32s(3);
    let mut b = a.clone();
    assert_eq!(b.seed(), a.seed());
    assert_eq!(b.indep(), a.indep());
    assert_eq!(a.draw_u32s(4), b.draw_u32s(4));
}

#[test]
fn checked_seed_reports_overflow() {
    assert_eq!(checked_seed(0, 1, true), Some(19937));
    assert_eq!(checked_seed(5, 216_000, false), None);
    assert_eq!(checked_seed(-1, 1, true), None);
    assert_eq!(checked_seed(-1, 1, false), Some(19937));
}

#[test]
fn successive_draws_continue_one_stream() {
    let mut a = MonteCarlo::new(1, 3, true);
    let mut b = MonteCarlo::new(1, 3, true);
    let mut first = a.draw_u32s(3);
    first.extend(a.draw_u32s(4));
    assert_eq!(first, b.draw_u32s(7));
}
