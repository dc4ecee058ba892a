use vstd::prelude::*;

verus! {

/// How a piece of model code is run.
#[derive(PartialEq, Eq, Debug, Clone, Copy, Structural)]
pub enum CommandType {
    /// Executed for its effect; it returns nothing.
    Exec,
    /// Evaluated as an expression; it returns its value.
    Eval,
}

/// Whether code run this way gives back a value.
pub fn returns_value(kind: CommandType) -> (b: bool)
    ensures
        b == (kind == CommandType::Eval),
{
    match kind {
        CommandType::Exec => false,
        CommandType::Eval => true,
    }
}

} // verus!
