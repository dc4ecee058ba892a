use vstd::prelude::*;
use crate::montecarlo::MonteCarlo;
use crate::timeline::Timeline;

verus! {

/// Why a model callback could not run.
#[derive(PartialEq, Eq, Debug, Clone, Copy, Structural)]
pub enum ModelError {
    /// The base model has no step; a model must provide its own.
    StepNotImplemented,
    /// The base model has no checkpoint; a model must provide its own.
    CheckpointNotImplemented,
}

impl ModelError {
    /// The message that reports the error.
    pub fn message(&self) -> (m: &'static str)
        ensures
            *self == ModelError::StepNotImplemented ==> m@ == "step() must be implemented in the model subclass"@,
            *self == ModelError::CheckpointNotImplemented ==> m@
                == "checkpoint() must be implemented in the model subclass"@,
    {
        match self {
            ModelError::StepNotImplemented => "step() must be implemented in the model subclass",
            ModelError::CheckpointNotImplemented => "checkpoint() must be implemented in the model subclass",
        }
    }
}

/// A microsimulation model: a timeline and a Monte-Carlo engine, with default
/// callbacks that a concrete model replaces.
pub struct Model {
    pub timeline: Timeline,
    pub mc: MonteCarlo,
}

impl Clone for Model {
    fn clone(&self) -> (c: Self)
        ensures
            c.timeline@ == self.timeline@,
            c.mc@ == self.mc@,
    {
        Model { timeline: self.timeline.clone(), mc: self.mc.clone() }
    }
}

impl Model {
    /// A model over the given timeline and Monte-Carlo engine.
    pub fn new(timeline: Timeline, mc: MonteCarlo) -> (m: Model)
        ensures
            m.timeline@ == timeline@,
            m.mc@ == mc@,
    {
        Model { timeline, mc }
    }

    /// The default modification of the model for a process: nothing to do.
    pub fn modify(&self, _r: i32) -> (res: Result<(), ModelError>)
        ensures
            res == Ok::<(), ModelError>(()),
    {
        Ok(())
    }

    /// The default step, which always fails: a model must define its own.
    pub fn step(&self) -> (res: Result<(), ModelError>)
        ensures
            res == Err::<(), ModelError>(ModelError::StepNotImplemented),
    {
        Err(ModelError::StepNotImplemented)
    }

    /// The default check, which always passes.
    pub fn check(&self) -> (res: Result<bool, ModelError>)
        ensures
            res == Ok::<bool, ModelError>(true),
    {
        Ok(true)
    }

    /// The default checkpoint, which always fails: a model must define its own.
    pub fn checkpoint(&self) -> (res: Result<(), ModelError>)
        ensures
            res == Err::<(), ModelError>(ModelError::CheckpointNotImplemented),
    {
        Err(ModelError::CheckpointNotImplemented)
    }
}

} // verus!
