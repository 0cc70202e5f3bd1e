//! The options with which a session is asked of the server.

use vstd::prelude::*;

verus! {

/// The bit that asks the server not to start itself on behalf of the client.
pub const NO_START_SERVER_BIT: u32 = 0x01;

/// A set of option flags, kept as the bits the server expects.
#[derive(Clone, Copy, Debug, PartialEq, Eq, Structural)]
pub struct ClientOptions {
    bits: u32,
}

impl View for ClientOptions {
    type V = u32;

    /// The options are their bit pattern.
    closed spec fn view(&self) -> u32 {
        self.bits
    }
}

impl ClientOptions {
    /// The options that hold exactly the flags of `bits`.
    pub closed spec fn spec_from_bits(bits: u32) -> ClientOptions {
        ClientOptions { bits }
    }

    /// No option at all.
    pub fn empty() -> (options: ClientOptions)
        ensures
            options == ClientOptions::spec_from_bits(0),
            options@ == 0,
    {
        ClientOptions { bits: 0 }
    }

    /// The options that ask only that no server be started.
    pub fn no_start_server() -> (options: ClientOptions)
        ensures
            options == ClientOptions::spec_from_bits(NO_START_SERVER_BIT),
            options@ == NO_START_SERVER_BIT,
    {
        ClientOptions { bits: NO_START_SERVER_BIT }
    }

    /// The flags as the server expects them.
    pub fn bits(&self) -> (bits: u32)
        ensures
            bits == self@,
    {
        self.bits
    }
}

} // verus!
