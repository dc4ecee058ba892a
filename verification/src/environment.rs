use vstd::prelude::*;

verus! {

/// The base seed from which random streams are derived.
pub const BASE_SEED: i64 = 19937;

/// The seed of the process environment.
pub fn seed() -> (s: &'static i64)
    ensures
        *s == 19937,
{
    &BASE_SEED
}

/// Whether processes draw independent random streams by default (they do not).
pub fn indep() -> (b: &'static bool)
    ensures
        *b == false,
{
    &false
}

/// The rank and size of the process group, from what starting the message
/// passing layer gave back: its rank and size when it started, and `(-1, -1)`
/// when it could not be started.
pub fn mpi(world: Option<(i32, i32)>) -> (rs: (i32, i32))
    ensures
        rs == match world {
            Some(w) => w,
            None => (-1i32, -1i32),
        },
{
    match world {
        Some((r, s)) => (r, s),
        None => (-1, -1),
    }
}

} // verus!
