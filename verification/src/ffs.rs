use vstd::prelude::*;

verus! {

/// A minimal class that counts, starting from zero.
pub struct PyClassTest {
    count: usize,
}

impl View for PyClassTest {
    type V = usize;

    closed spec fn view(&self) -> usize {
        self.count
    }
}

impl PyClassTest {
    /// A counter at zero.
    pub fn new() -> (p: PyClassTest)
        ensures
            p@ == 0,
    {
        PyClassTest { count: 0 }
    }
}

} // verus!
