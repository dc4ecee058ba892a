use vstd::prelude::*;

verus! {

/// Checkpoints are strictly increasing: each one comes after the one before.
pub open spec fn strictly_increasing(s: Seq<u32>) -> bool {
    forall|i: int, j: int| 0 <= i < j < s.len() ==> s[i] < s[j]
}

/// A schedule of checkpoints is usable when it is non-empty and strictly increasing.
pub open spec fn valid_checkpoints(s: Seq<u32>) -> bool {
    &&& s.len() > 0
    &&& strictly_increasing(s)
}

/// The final checkpoint, which is the number of timesteps of the run.
pub open spec fn final_checkpoint(s: Seq<u32>) -> u32
    recommends
        s.len() > 0,
{
    s[s.len() - 1]
}

/// The abstract state of a timeline: its checkpoints and its current step index.
pub struct TimelineView {
    pub checkpoints: Seq<u32>,
    pub index: u32,
}

/// One step of iteration over a timeline: at the final step the timeline stays
/// where it is and yields nothing; otherwise it moves on one step and yields
/// the new index.
pub open spec fn iter_step(v: TimelineView) -> (TimelineView, Option<u32>) {
    if v.index == final_checkpoint(v.checkpoints) {
        (v, None)
    } else {
        (TimelineView { checkpoints: v.checkpoints, index: (v.index + 1) as u32 }, Some((v.index + 1) as u32))
    }
}

/// The timeline after `k` iteration steps.
pub open spec fn iter_state(v: TimelineView, k: nat) -> TimelineView
    decreases k,
{
    if k == 0 {
        v
    } else {
        iter_step(iter_state(v, (k - 1) as nat)).0
    }
}

/// What the iteration step numbered `k` (counting from 0) yields.
pub open spec fn iter_output(v: TimelineView, k: nat) -> Option<u32> {
    iter_step(iter_state(v, k)).1
}

/// The discrete part of a simulation timeline: the steps at which checkpoints
/// occur (the last one being the end of the run) and the current step.
pub struct Timeline {
    checkpoints: Vec<u32>,
    index: u32,
}

impl View for Timeline {
    type V = TimelineView;

    closed spec fn view(&self) -> TimelineView {
        TimelineView { checkpoints: self.checkpoints@, index: self.index }
    }
}

/// Checks that a schedule of checkpoints is non-empty and strictly increasing,
/// comparing each checkpoint with the one before it.
pub fn checkpoints_valid(checkpoints: &Vec<u32>) -> (ok: bool)
    ensures
        ok == valid_checkpoints(checkpoints@),
{
    let n = checkpoints.len();
    if n == 0 {
        return false;
    }
    let mut i: usize = 1;
    while i < n
        invariant
            1 <= i <= n,
            n == checkpoints@.len(),
            strictly_increasing(checkpoints@.subrange(0, i as int)),
        decreases n - i,
    {
        if checkpoints[i - 1] >= checkpoints[i] {
            assert(!strictly_increasing(checkpoints@)) by {
                let a = (i - 1) as int;
                assert(checkpoints@[a] >= checkpoints@[a + 1]);
            }
            return false;
        }
        assert forall|a: int, b: int| 0 <= a < b < i + 1 implies
            #[trigger] checkpoints@.subrange(0, i + 1)[a] < #[trigger] checkpoints@.subrange(0, i + 1)[b] by {
            if b < i {
                assert(checkpoints@.subrange(0, i as int)[a] < checkpoints@.subrange(0, i as int)[b]);
            } else if a < i - 1 {
                assert(checkpoints@.subrange(0, i as int)[a] < checkpoints@.subrange(0, i as int)[i - 1]);
            }
        }
        i = i + 1;
    }
    assert(checkpoints@.subrange(0, n as int) =~= checkpoints@);
    true
}

impl Clone for Timeline {
    fn clone(&self) -> (c: Self)
        ensures
            c@ == self@,
    {
        let checkpoints = self.checkpoints.clone();
        assert(checkpoints@ =~= self.checkpoints@);
        Timeline { checkpoints, index: self.index }
    }
}

impl Timeline {
    /// The timeline is well formed: its checkpoints are a valid schedule.
    pub open spec fn wf(&self) -> bool {
        valid_checkpoints(self@.checkpoints)
    }

    /// The number of timesteps of the run (the final checkpoint).
    pub open spec fn spec_nsteps(&self) -> u32 {
        final_checkpoint(self@.checkpoints)
    }

    /// A timeline at step 0 with the given checkpoints; the last checkpoint
    /// is the final step.
    pub fn new(checkpoints: Vec<u32>) -> (t: Timeline)
        requires
            valid_checkpoints(checkpoints@),
        ensures
            t.wf(),
            t@.checkpoints == checkpoints@,
            t@.index == 0,
    {
        Timeline { checkpoints, index: 0 }
    }

    /// The null timeline: a single step, which is also its only checkpoint.
    pub fn null() -> (t: Timeline)
        ensures
            t.wf(),
            t@.checkpoints == seq![1u32],
            t@.index == 0,
    {
        let mut checkpoints: Vec<u32> = Vec::new();
        checkpoints.push(1);
        assert(checkpoints@ =~= seq![1u32]);
        Timeline { checkpoints, index: 0 }
    }

    /// The current timestep index.
    pub fn index(&self) -> (i: u32)
        ensures
            i == self@.index,
    {
        self.index
    }

    /// The number of timesteps, which is the final checkpoint.
    pub fn nsteps(&self) -> (n: u32)
        requires
            self.wf(),
        ensures
            n == self.spec_nsteps(),
    {
        self.checkpoints[self.checkpoints.len() - 1]
    }

    /// Whether the current step is one of the checkpoints.
    pub fn at_checkpoint(&self) -> (b: bool)
        ensures
            b == self@.checkpoints.contains(self@.index),
    {
        let n = self.checkpoints.len();
        let mut i: usize = 0;
        while i < n
            invariant
                i <= n,
                n == self@.checkpoints.len(),
                forall|j: int| 0 <= j < i ==> self@.checkpoints[j] != self@.index,
            decreases n - i,
        {
            if self.checkpoints[i] == self.index {
                assert(self@.checkpoints[i as int] == self@.index);
                return true;
            }
            i = i + 1;
        }
        false
    }

    /// Whether the current step is the final one.
    pub fn at_end(&self) -> (b: bool)
        requires
            self.wf(),
        ensures
            b == (self@.index == self.spec_nsteps()),
    {
        self.index == self.checkpoints[self.checkpoints.len() - 1]
    }

    /// Moves to the next step unconditionally, even past the end.
    pub fn advance(&mut self)
        requires
            old(self)@.index < u32::MAX,
        ensures
            final(self)@.checkpoints == old(self)@.checkpoints,
            final(self)@.index == old(self)@.index + 1,
    {
        self.index = self.index + 1;
    }

    /// Steps the timeline as an iterator does: at the end nothing happens and
    /// `None` comes back; otherwise the index moves on by one and is returned.
    pub fn next(&mut self) -> (r: Option<u32>)
        requires
            old(self).wf(),
            old(self)@.index != old(self).spec_nsteps() ==> old(self)@.index < u32::MAX,
        ensures
            final(self).wf(),
            (final(self)@, r) == iter_step(old(self)@),
    {
        if self.at_end() {
            None
        } else {
            self.index = self.index + 1;
            Some(self.index)
        }
    }

    /// Returns to step 0, keeping the checkpoints.
    pub fn reset(&mut self)
        ensures
            final(self)@.checkpoints == old(self)@.checkpoints,
            final(self)@.index == 0,
    {
        self.index = 0;
    }

    /// The checkpoint steps, in order.
    pub fn checkpoints(&self) -> (c: &Vec<u32>)
        ensures
            c@ == self@.checkpoints,
    {
        &self.checkpoints
    }
}

/// Iterating a timeline from step `start` yields the steps `start + 1`, `start + 2`,
/// ... up to the final step, in order, and nothing after that: the timeline then
/// stays at its final step.
pub proof fn law_iteration_yields_each_step(checkpoints: Seq<u32>, start: u32, k: nat)
    requires
        valid_checkpoints(checkpoints),
        start <= final_checkpoint(checkpoints),
    ensures
        iter_state(TimelineView { checkpoints, index: start }, k).checkpoints == checkpoints,
        start + k <= final_checkpoint(checkpoints) ==>
            iter_state(TimelineView { checkpoints, index: start }, k).index == start + k,
        start + k > final_checkpoint(checkpoints) ==>
            iter_state(TimelineView { checkpoints, index: start }, k).index == final_checkpoint(checkpoints),
        start + k < final_checkpoint(checkpoints) ==>
            iter_output(TimelineView { checkpoints, index: start }, k) == Some((start + k + 1) as u32),
        start + k >= final_checkpoint(checkpoints) ==>
            iter_output(TimelineView { checkpoints, index: start }, k) is None,
    decreases k,
{
    if k > 0 {
        law_iteration_yields_each_step(checkpoints, start, (k - 1) as nat);
    }
}

/// A timeline restarted from step 0 yields exactly as many steps as it has
/// timesteps, numbered 1 to the final checkpoint.
pub proof fn law_full_run_length(checkpoints: Seq<u32>)
    requires
        valid_checkpoints(checkpoints),
    ensures
        forall|k: nat| k < final_checkpoint(checkpoints) ==>
            #[trigger] iter_output(TimelineView { checkpoints, index: 0 }, k) == Some((k + 1) as u32),
        iter_output(TimelineView { checkpoints, index: 0 }, final_checkpoint(checkpoints) as nat) is None,
        iter_state(TimelineView { checkpoints, index: 0 }, final_checkpoint(checkpoints) as nat).index
            == final_checkpoint(checkpoints),
{
    assert forall|k: nat| k < final_checkpoint(checkpoints) implies
        #[trigger] iter_output(TimelineView { checkpoints, index: 0 }, k) == Some((k + 1) as u32) by {
        law_iteration_yields_each_step(checkpoints, 0, k);
    }
    law_iteration_yields_each_step(checkpoints, 0, final_checkpoint(checkpoints) as nat);
}

/// The final step of a timeline is always a checkpoint.
pub proof fn law_end_is_checkpoint(checkpoints: Seq<u32>)
    requires
        valid_checkpoints(checkpoints),
    ensures
        checkpoints.contains(final_checkpoint(checkpoints)),
{
    assert(checkpoints[checkpoints.len() - 1] == final_checkpoint(checkpoints));
}

/// In a valid schedule every checkpoint is at most the final one, so no step
/// after the end of the run is a checkpoint.
pub proof fn law_no_checkpoint_after_end(checkpoints: Seq<u32>, i: u32)
    requires
        valid_checkpoints(checkpoints),
        i > final_checkpoint(checkpoints),
    ensures
        !checkpoints.contains(i),
{
    if checkpoints.contains(i) {
        let j = choose|j: int| 0 <= j < checkpoints.len() && checkpoints[j] == i;
        if j < checkpoints.len() - 1 {
            assert(checkpoints[j] < checkpoints[checkpoints.len() - 1]);
        }
    }
}

} // verus!
