//! The status word with which the server describes a session.

use vstd::prelude::*;

verus! {

/// A set of status flags, kept as the bits the server sent.
#[derive(Clone, Copy, Debug, PartialEq, Eq, Structural)]
pub struct ClientStatus {
    bits: u32,
}

impl View for ClientStatus {
    type V = u32;

    /// The status is its bit pattern.
    closed spec fn view(&self) -> u32 {
        self.bits
    }
}

impl ClientStatus {
    /// The status that holds exactly the flags of `bits`.
    pub closed spec fn spec_from_bits(bits: u32) -> ClientStatus {
        ClientStatus { bits }
    }

    /// The status with no flag set.
    pub fn empty() -> (status: ClientStatus)
        ensures
            status == ClientStatus::spec_from_bits(0),
            status@ == 0,
    {
        ClientStatus { bits: 0 }
    }

    /// The status that holds exactly the flags of `bits`.
    pub fn from_bits(bits: u32) -> (status: ClientStatus)
        ensures
            status == ClientStatus::spec_from_bits(bits),
            status@ == bits,
    {
        ClientStatus { bits }
    }

    /// The flags as the server encodes them.
    pub fn bits(&self) -> (bits: u32)
        ensures
            bits == self@,
    {
        self.bits
    }

    /// Whether no flag is set.
    pub fn is_empty(&self) -> (none: bool)
        ensures
            none <==> self@ == 0,
    {
        self.bits == 0
    }
}

} // verus!
