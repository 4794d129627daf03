//! Failures of a call into a registered native function.
use vstd::prelude::*;

verus! {

/// Why a call did not produce a value.
#[derive(Debug, PartialEq, Eq)]
pub enum EvalError {
    /// The call site handed over a number of arguments other than the
    /// function's arity.
    ArgCountMismatch { expected: usize, found: usize },
    /// The argument at `position` does not hold the native type that the
    /// function expects there.
    ArgTypeMismatch { position: usize },
    /// No function is registered under the name and the argument types.
    FunctionNotFound,
    /// The native function itself reported a failure.
    Runtime(String),
}

impl EvalError {
    /// A failure raised by a native function, with its message.
    pub fn runtime(message: &str) -> (e: EvalError)
        ensures
            e matches EvalError::Runtime(m) && m@ == message@,
    {
        EvalError::Runtime(message.to_owned())
    }

    /// The message of a native failure; `None` for the other failures.
    pub fn message(&self) -> (m: Option<String>)
        ensures
            match self {
                EvalError::Runtime(text) => m matches Some(s) && s@ == text@,
                _ => m is None,
            },
    {
        match self {
            EvalError::Runtime(text) => Some(text.clone()),
            _ => None,
        }
    }
}

} // verus!
