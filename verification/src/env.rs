use vstd::prelude::*;

verus! {

/// The runtime state of a neworder process: its diagnostic flags and its place
/// in the group of processes that run the model together.
pub struct Env {
    /// Whether extra diagnostics are logged.
    pub verbose: bool,
    /// Whether the model's checks are run.
    pub checked: bool,
    /// Whether the model has asked the run to stop.
    pub halt: bool,
    /// The index of this process in the group (0 when running alone).
    pub rank: i32,
    /// The number of processes in the group (1 when running alone).
    pub size: i32,
}

impl Env {
    /// The state of a process that has just started, alone.
    pub open spec fn initial() -> Env {
        Env { verbose: false, checked: true, halt: false, rank: 0, size: 1 }
    }

    /// This state with the verbose flag set to `v`.
    pub open spec fn with_verbose(self, v: bool) -> Env {
        Env { verbose: v, ..self }
    }

    /// This state with the checked flag set to `c`.
    pub open spec fn with_checked(self, c: bool) -> Env {
        Env { checked: c, ..self }
    }

    /// This state with the halt flag set to `h`.
    pub open spec fn with_halt(self, h: bool) -> Env {
        Env { halt: h, ..self }
    }

    /// This state with rank `r`.
    pub open spec fn with_rank(self, r: i32) -> Env {
        Env { rank: r, ..self }
    }

    /// This state with size `s`.
    pub open spec fn with_size(self, s: i32) -> Env {
        Env { size: s, ..self }
    }

    /// The state of a process that has just started: not verbose, checks on,
    /// not halted, rank 0 of 1.
    pub fn new() -> (e: Env)
        ensures
            e == Env::initial(),
    {
        Env { verbose: false, checked: true, halt: false, rank: 0, size: 1 }
    }
}

/// The version of this library.
pub fn version() -> (v: &'static str)
    ensures
        v@ == "0.1.0"@,
{
    "0.1.0"
}

/// Turns verbose diagnostics on or off.
pub fn verbose(env: &mut Env, v: bool)
    ensures
        *final(env) == old(env).with_verbose(v),
{
    env.verbose = v;
}

/// Turns the model's checks on or off.
pub fn checked(env: &mut Env, c: bool)
    ensures
        *final(env) == old(env).with_checked(c),
{
    env.checked = c;
}

/// Sets the halt flag; the model calls this with `true` to stop the run.
pub fn halt(env: &mut Env, h: bool)
    ensures
        *final(env) == old(env).with_halt(h),
{
    env.halt = h;
}

/// The rank of this process.
pub fn rank(env: &Env) -> (r: i32)
    ensures
        r == env.rank,
{
    env.rank
}

/// The number of processes.
pub fn size(env: &Env) -> (s: i32)
    ensures
        s == env.size,
{
    env.size
}

/// Sets the rank of this process (done once, when the module starts).
pub fn set_rank(env: &mut Env, r: i32)
    ensures
        *final(env) == old(env).with_rank(r),
{
    env.rank = r;
}

/// Sets the number of processes (done once, when the module starts).
pub fn set_size(env: &mut Env, s: i32)
    ensures
        *final(env) == old(env).with_size(s),
{
    env.size = s;
}

/// Sets the verbose flag, which is turned on when no value is given.
pub fn verbose_default(env: &mut Env, v: Option<bool>)
    ensures
        *final(env) == old(env).with_verbose(
            match v {
                Some(b) => b,
                None => true,
            },
        ),
{
    match v {
        Some(b) => verbose(env, b),
        None => verbose(env, true),
    }
}

/// Sets the checked flag, which is turned on when no value is given.
pub fn checked_default(env: &mut Env, c: Option<bool>)
    ensures
        *final(env) == old(env).with_checked(
            match c {
                Some(b) => b,
                None => true,
            },
        ),
{
    match c {
        Some(b) => checked(env, b),
        None => checked(env, true),
    }
}

/// Takes the rank and size of the process group when one was found, and
/// falls back to running alone (rank 0 of 1) when none was. Returns whether it
/// fell back, in which case the caller warns that it runs in serial mode.
pub fn init_world(env: &mut Env, world: Option<(i32, i32)>) -> (serial: bool)
    ensures
        serial == (world is None),
        match world {
            Some((r, s)) => *final(env) == old(env).with_rank(r).with_size(s),
            None => *final(env) == old(env).with_rank(0).with_size(1),
        },
{
    match world {
        Some((r, s)) => {
            set_rank(env, r);
            set_size(env, s);
            false
        },
        None => {
            set_rank(env, 0);
            set_size(env, 1);
            true
        },
    }
}

/// What a setter writes is what the matching getter reads back, and a setter
/// changes nothing but its own field.
pub proof fn law_setters_read_back(e: Env, r: i32, s: i32, b: bool)
    ensures
        e.with_rank(r).rank == r,
        e.with_size(s).size == s,
        e.with_verbose(b).verbose == b,
        e.with_checked(b).checked == b,
        e.with_halt(b).halt == b,
        e.with_rank(r).with_size(s).rank == r,
        e.with_rank(r) == (Env { rank: r, ..e }),
        e.with_size(s) == (Env { size: s, ..e }),
        e.with_verbose(b) == (Env { verbose: b, ..e }),
        e.with_checked(b) == (Env { checked: b, ..e }),
        e.with_halt(b) == (Env { halt: b, ..e }),
{
}

/// Setting a flag twice is the same as setting it once to the second value.
pub proof fn law_last_write_wins(e: Env, r1: i32, r2: i32, b1: bool, b2: bool)
    ensures
        e.with_rank(r1).with_rank(r2) == e.with_rank(r2),
        e.with_verbose(b1).with_verbose(b2) == e.with_verbose(b2),
        e.with_checked(b1).with_checked(b2) == e.with_checked(b2),
        e.with_halt(b1).with_halt(b2) == e.with_halt(b2),
{
}

} // verus!
