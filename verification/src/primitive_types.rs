//! Plain value types shared by the whole library.

use vstd::prelude::*;

verus! {

/// A count of audio frames, in the server's unsigned width.
pub type Frames = u32;

/// The identifier the server gives to a port.
pub type PortId = u32;

/// A point in time, in microseconds.
pub type Time = u64;

/// An opaque tag that stands for the identity of an operating-system thread.
pub type ThreadTag = u64;

} // verus!
