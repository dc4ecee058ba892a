use neworder::command::{returns_value, CommandType};
use neworder::ffs::PyClassTest;
use neworder::model::{Model, ModelError};
use neworder::montecarlo::MonteCarlo;
use neworder::timeline::Timeline;

#[test]
fn base_model_callbacks() {
    let m = Model::new(Timeline::null(), MonteCarlo::new(0, 1, true));
    assert_eq!(m.modify(0), Ok(()));
    assert_eq!(m.check(), Ok(true));
    assert_eq!(m.step(), Err(ModelError::StepNotImplemented));
    assert_eq!(m.checkpoint(), Err(ModelError::CheckpointNotImplemented));
    assert_eq!(m.timeline.nsteps(), 1);
    assert_eq!(m.mc.seed(), 19937);
}

#[test]
fn model_error_messages() {
    assert_eq!(ModelError::StepNotImplemented.message(), "step() must be implemented in the model subclass");
    assert_eq!(
        ModelError::CheckpointNotImplemented.message(),
        "checkpoint() must be implemented in the model subclass"
    );
}

#[test]
fn command_kinds() {
    assert!(!returns_value(CommandType::Exec));
    assert!(returns_value(CommandType::Eval));
}

#[test]
fn counter_class_builds() {
    let _p = PyClassTest::new();
}
