//! Which thread last ran each kind of callback.
//!
//! The server owns the threads on which callbacks arrive. The record kept here
//! lets a caller check, after the fact, what the server documents about them.

use vstd::prelude::*;
use crate::primitive_types::ThreadTag;

verus! {

/// The number of callback kinds.
pub const CALLBACK_KINDS: usize = 12;

/// The kinds of callback that the server can invoke.
#[derive(Clone, Copy, Debug, PartialEq, Eq, Structural)]
pub enum CallbackKind {
    ThreadInit,
    Shutdown,
    Process,
    Freewheel,
    BufferSize,
    SampleRate,
    ClientRegistration,
    PortRegistration,
    PortRename,
    PortConnect,
    GraphOrder,
    Xrun,
}

impl CallbackKind {
    /// The position of this kind in a table of all kinds.
    pub open spec fn spec_index(self) -> int {
        match self {
            CallbackKind::ThreadInit => 0,
            CallbackKind::Shutdown => 1,
            CallbackKind::Process => 2,
            CallbackKind::Freewheel => 3,
            CallbackKind::BufferSize => 4,
            CallbackKind::SampleRate => 5,
            CallbackKind::ClientRegistration => 6,
            CallbackKind::PortRegistration => 7,
            CallbackKind::PortRename => 8,
            CallbackKind::PortConnect => 9,
            CallbackKind::GraphOrder => 10,
            CallbackKind::Xrun => 11,
        }
    }

    /// The position of this kind in a table of all kinds.
    pub fn index(self) -> (i: usize)
        ensures
            i == self.spec_index(),
            i < CALLBACK_KINDS,
    {
        match self {
            CallbackKind::ThreadInit => 0,
            CallbackKind::Shutdown => 1,
            CallbackKind::Process => 2,
            CallbackKind::Freewheel => 3,
            CallbackKind::BufferSize => 4,
            CallbackKind::SampleRate => 5,
            CallbackKind::ClientRegistration => 6,
            CallbackKind::PortRegistration => 7,
            CallbackKind::PortRename => 8,
            CallbackKind::PortConnect => 9,
            CallbackKind::GraphOrder => 10,
            CallbackKind::Xrun => 11,
        }
    }

    /// Whether the server waits for a continuation directive from this kind.
    pub open spec fn spec_returns_control(self) -> bool {
        match self {
            CallbackKind::Process
            | CallbackKind::BufferSize
            | CallbackKind::SampleRate
            | CallbackKind::PortRename
            | CallbackKind::GraphOrder
            | CallbackKind::Xrun => true,
            _ => false,
        }
    }

    /// Whether the server waits for a continuation directive from this kind.
    pub fn returns_control(self) -> (yes: bool)
        ensures
            yes == self.spec_returns_control(),
    {
        match self {
            CallbackKind::Process
            | CallbackKind::BufferSize
            | CallbackKind::SampleRate
            | CallbackKind::PortRename
            | CallbackKind::GraphOrder
            | CallbackKind::Xrun => true,
            _ => false,
        }
    }
}

/// For each kind of callback, the thread that ran it last, if any did.
#[derive(Debug)]
pub struct ThreadAffinity {
    last: [Option<ThreadTag>; 12],
}

impl View for ThreadAffinity {
    type V = Seq<Option<ThreadTag>>;

    /// One slot for each kind of callback, in the order of the kinds.
    closed spec fn view(&self) -> Seq<Option<ThreadTag>> {
        self.last@
    }
}

/// The table in which no callback has run yet.
pub open spec fn no_affinity() -> Seq<Option<ThreadTag>> {
    Seq::new(CALLBACK_KINDS as nat, |i: int| None::<ThreadTag>)
}

/// The table `table` after `thread` has run a callback of `kind`.
pub open spec fn with_affinity(
    table: Seq<Option<ThreadTag>>,
    kind: CallbackKind,
    thread: ThreadTag,
) -> Seq<Option<ThreadTag>> {
    table.update(kind.spec_index(), Some(thread))
}

impl ThreadAffinity {
    /// The thread that last ran a callback of `kind`, if one was recorded.
    pub open spec fn spec_last(self, kind: CallbackKind) -> Option<ThreadTag> {
        self@[kind.spec_index()]
    }

    /// A record in which no callback has run yet.
    pub fn new() -> (record: ThreadAffinity)
        ensures
            record@ == no_affinity(),
    {
        let record = ThreadAffinity {
            last: [None, None, None, None, None, None, None, None, None, None, None, None],
        };
        assert(record.last@ =~= no_affinity());
        record
    }

    /// The thread that last ran a callback of `kind`, if one was recorded.
    pub fn last(&self, kind: CallbackKind) -> (thread: Option<ThreadTag>)
        ensures
            thread == self.spec_last(kind),
    {
        self.last[kind.index()]
    }

    /// Notes that `thread` has just run a callback of `kind`. The slots of the
    /// other kinds keep what they held.
    pub fn record(&mut self, kind: CallbackKind, thread: ThreadTag)
        ensures
            final(self)@ == with_affinity(old(self)@, kind, thread),
    {
        let slot = kind.index();
        self.last[slot] = Some(thread);
        assert(self.last@ =~= with_affinity(old(self).last@, kind, thread));
    }

    /// Every record has one slot for each kind.
    pub proof fn lemma_len(self)
        ensures
            self@.len() == CALLBACK_KINDS,
    {
    }
}

} // verus!
