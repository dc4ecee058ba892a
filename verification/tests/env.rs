use neworder::env::{
    checked, checked_default, halt, init_world, rank, set_rank, set_size, size, verbose, verbose_default,
    version, Env,
};
use neworder::environment::{indep, mpi, seed};

#[test]
fn env_defaults() {
    let e = Env::new();
    assert!(!e.verbose);
    assert!(e.checked);
    assert!(!e.halt);
    assert_eq!(rank(&e), 0);
    assert_eq!(size(&e), 1);
    assert_eq!(version(), "0.1.0");
}

#[test]
fn env_setters_read_back() {
    let mut e = Env::new();
    set_rank(&mut e, 3);
    set_size(&mut e, 4);
    assert_eq!(rank(&e), 3);
    assert_eq!(size(&e), 4);
    verbose(&mut e, true);
    assert!(e.verbose);
    checked(&mut e, false);
    assert!(!e.checked);
    halt(&mut e, true);
    assert!(e.halt);
    set_rank(&mut e, 1);
    assert_eq!(rank(&e), 1);
    assert_eq!(size(&e), 4);
}

#[test]
fn env_flags_default_to_on() {
    let mut e = Env::new();
    verbose_default(&mut e, None);
    assert!(e.verbose);
    verbose_default(&mut e, Some(false));
    assert!(!e.verbose);
    checked_default(&mut e, Some(false));
    assert!(!e.checked);
    checked_default(&mut e, None);
    assert!(e.checked);
}

#[test]
fn env_world_falls_back_to_serial() {
    let mut e = Env::new();
    assert!(!init_world(&mut e, Some((2, 5))));
    assert_eq!((rank(&e), size(&e)), (2, 5));
    assert!(init_world(&mut e, None));
    assert_eq!((rank(&e), size(&e)), (0, 1));
}

#[test]
fn environment_constants() {
    assert_eq!(*seed(), 19937);
    assert!(!*indep());
    assert_eq!(mpi(Some((1, 4))), (1, 4));
    assert_eq!(mpi(None), (-1, -1));
}
