//! The exit cell: the exit code that stops the run-loop, once one is set.

use vstd::prelude::*;

verus! {

/// The exit code reported when no code was ever set.
pub const EXIT_SUCCESS: u8 = 0;

/// Holds the exit code, if one has been set. A later write replaces an
/// earlier one.
#[derive(Clone, Copy, Debug)]
pub struct Exit {
    code: Option<u8>,
}

impl View for Exit {
    type V = Option<u8>;

    closed spec fn view(&self) -> Option<u8> {
        self.code
    }
}

impl Exit {
    /// A cell with no exit code.
    pub fn new() -> (exit: Exit)
        ensures
            exit@ == None::<u8>,
    {
        Exit { code: None }
    }

    /// Sets the exit code, replacing any code set before.
    pub fn set(&mut self, code: u8)
        ensures
            final(self)@ == Some(code),
    {
        self.code = Some(code);
    }

    /// The exit code, if one has been set.
    pub fn get(&self) -> (code: Option<u8>)
        ensures
            code == self@,
    {
        self.code
    }

    /// Whether an exit code has been set.
    pub fn is_set(&self) -> (set: bool)
        ensures
            set == self@.is_some(),
    {
        self.code.is_some()
    }
}

} // verus!
