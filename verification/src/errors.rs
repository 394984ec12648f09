//! What can go wrong, each failure with the engine's raw code where it has one.

use vstd::prelude::*;

verus! {

/// The result of an operation of this library.
pub type Result<T> = core::result::Result<T, AriaError>;

/// A failure. The codes are the engine's own and are passed on unread.
#[derive(Copy, Clone, Debug, PartialEq, Eq, Structural)]
pub enum AriaError {
    /// The engine is already started in this process.
    AlreadyInitialized,
    /// The handle could not be used to unregister the listener.
    InvalidCallbackHandle(usize),
    /// Advancing the engine failed with this code.
    RunError(i32),
    /// Adding a download failed with this code.
    AddError(i32),
}

impl AriaError {
    /// The engine's code that the failure carries, if it carries one.
    pub open spec fn spec_engine_code(self) -> Option<i32> {
        match self {
            AriaError::RunError(code) => Some(code),
            AriaError::AddError(code) => Some(code),
            _ => None,
        }
    }

    /// The engine's code that the failure carries, for diagnosis.
    pub fn engine_code(&self) -> (code: Option<i32>)
        ensures
            code == self.spec_engine_code(),
    {
        match self {
            AriaError::RunError(code) => Some(*code),
            AriaError::AddError(code) => Some(*code),
            _ => None,
        }
    }
}

} // verus!
