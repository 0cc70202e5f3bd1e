//! The continuation directive that a handler hands back to the server.

use vstd::prelude::*;

verus! {

/// The integer with which the server is told to keep calling the client.
pub const CONTINUE_CODE: i32 = 1;

/// The integer with which the server is told to stop the client.
pub const QUIT_CODE: i32 = 0;

/// What a control-returning callback asks of the server.
#[derive(Clone, Copy, Debug, PartialEq, Eq, Structural)]
pub enum Control {
    /// Keep processing.
    Continue,
    /// Stop the client.
    Quit,
}

impl Control {
    /// The integer that stands for this directive at the server boundary:
    /// non-zero for `Continue`, zero for `Quit`.
    pub open spec fn code(self) -> i32 {
        match self {
            Control::Continue => CONTINUE_CODE,
            Control::Quit => QUIT_CODE,
        }
    }

    /// The directive that `code` stands for: any non-zero code is `Continue`.
    pub open spec fn spec_from_code(code: i32) -> Control {
        if code != 0 {
            Control::Continue
        } else {
            Control::Quit
        }
    }

    /// Translates the directive into the server's integer convention.
    pub fn to_ffi(self) -> (code: i32)
        ensures
            code == self.code(),
            code != 0 <==> self == Control::Continue,
            Control::spec_from_code(code) == self,
    {
        match self {
            Control::Continue => CONTINUE_CODE,
            Control::Quit => QUIT_CODE,
        }
    }
}

impl Default for Control {
    /// The default directive keeps the client running.
    fn default() -> (directive: Control)
        ensures
            directive == Control::Continue,
    {
        Control::Continue
    }
}

} // verus!
