//! The handle of a session with the server, while no handlers are installed.

use vstd::prelude::*;
use crate::client_options::ClientOptions;
use crate::client_status::ClientStatus;
use crate::error::Error;
use crate::primitive_types::Frames;
use crate::primitive_types::ThreadTag;
use crate::thread_affinity::no_affinity;
use crate::thread_affinity::with_affinity;
use crate::thread_affinity::CallbackKind;
use crate::thread_affinity::CALLBACK_KINDS;
use crate::thread_affinity::ThreadAffinity;

verus! {

/// The server's answer to a request to open a session.
#[derive(Clone, Copy, Debug, PartialEq, Eq, Structural)]
pub struct OpenReply {
    /// The session the server opened, or zero when it opened none.
    pub raw: usize,
    /// The status word that came with the answer.
    pub status_bits: u32,
}

/// A session with the server. It is owned by exactly one wrapper at a time:
/// it moves into the active wrapper on activation and out of it on
/// deactivation, and is never copied.
#[derive(Debug)]
pub struct Client {
    name: String,
    options: ClientOptions,
    raw: usize,
    affinity: ThreadAffinity,
}

/// The mathematical content of a client.
pub struct ClientView {
    /// The name under which the session was asked for.
    pub name: Seq<char>,
    /// The options with which it was asked for.
    pub options: ClientOptions,
    /// The server's session; zero stands for no session.
    pub raw: usize,
    /// For each kind of callback, the thread that ran it last.
    pub affinity: Seq<Option<ThreadTag>>,
}

impl View for Client {
    type V = ClientView;

    closed spec fn view(&self) -> ClientView {
        ClientView {
            name: self.name@,
            options: self.options,
            raw: self.raw,
            affinity: self.affinity@,
        }
    }
}

impl ClientView {
    /// This client after `thread` has run a callback of `kind` on it.
    pub open spec fn stamped(self, kind: CallbackKind, thread: ThreadTag) -> ClientView {
        ClientView { affinity: with_affinity(self.affinity, kind, thread), ..self }
    }
}

impl Client {
    /// Decides a request to open a session named `client_name` from the
    /// server's `reply`. A reply without a session is the failure
    /// `ClientError`, which carries the status that came with it. Otherwise
    /// the client is returned with that status, and no callback has run on it.
    pub fn new(client_name: &str, options: ClientOptions, reply: OpenReply) -> (opened: Result<
        (Client, ClientStatus),
        Error,
    >)
        ensures
            reply.raw != 0 <==> opened is Ok,
            opened matches Ok((client, status)) ==> {
                &&& client@ == (ClientView {
                    name: client_name@,
                    options: options,
                    raw: reply.raw,
                    affinity: no_affinity(),
                })
                &&& status@ == reply.status_bits
            },
            opened matches Err(error) ==> error matches Error::ClientError(status) && status@
                == reply.status_bits,
    {
        let status = ClientStatus::from_bits(reply.status_bits);
        if reply.raw == 0 {
            Err(Error::ClientError(status))
        } else {
            let client = Client {
                name: client_name.to_owned(),
                options,
                raw: reply.raw,
                affinity: ThreadAffinity::new(),
            };
            Ok((client, status))
        }
    }

    /// Wraps a session that the server handed out by other means. Zero is
    /// accepted and stands for no session. The client has no name and no
    /// options, and no callback has run on it.
    pub fn from_raw(raw: usize) -> (client: Client)
        ensures
            client@ == (ClientView {
                name: Seq::<char>::empty(),
                options: ClientOptions::spec_from_bits(0),
                raw: raw,
                affinity: no_affinity(),
            }),
    {
        Client {
            name: String::new(),
            options: ClientOptions::empty(),
            raw,
            affinity: ThreadAffinity::new(),
        }
    }

    /// The server's session; zero stands for no session.
    pub fn raw(&self) -> (raw: usize)
        ensures
            raw == self@.raw,
    {
        self.raw
    }

    /// The name under which the session was asked for.
    pub fn name(&self) -> (name: &str)
        ensures
            name@ == self@.name,
    {
        self.name.as_str()
    }

    /// The options with which the session was asked for.
    pub fn options(&self) -> (options: ClientOptions)
        ensures
            options == self@.options,
    {
        self.options
    }

    /// The thread that last ran a callback of `kind` on this client, if one
    /// was recorded.
    pub fn last_thread(&self, kind: CallbackKind) -> (thread: Option<ThreadTag>)
        ensures
            thread == self@.affinity[kind.spec_index()],
    {
        self.affinity.last(kind)
    }

    /// Notes that `thread` is running a callback of `kind` on this client.
    /// Nothing else about the client changes.
    pub fn stamp(&mut self, kind: CallbackKind, thread: ThreadTag)
        ensures
            final(self)@ == old(self)@.stamped(kind, thread),
    {
        self.affinity.record(kind, thread);
    }

    /// Decides a request to run cycles of `n_frames` frames from the
    /// server's `reply`: zero when it took the request, anything else is the
    /// failure `SetBufferSizeError`. The client itself learns of the new size
    /// when the server delivers it to the process handler.
    pub fn set_buffer_size(&self, n_frames: Frames, reply: i32) -> (requested: Result<(), Error>)
        ensures
            reply == 0 ==> requested == Ok::<(), Error>(()),
            reply != 0 ==> requested == Err::<(), Error>(Error::SetBufferSizeError),
    {
        if reply == 0 {
            Ok(())
        } else {
            Err(Error::SetBufferSizeError)
        }
    }

    /// The record of threads of a client has one slot for each kind of
    /// callback.
    pub proof fn lemma_affinity_len(self)
        ensures
            self@.affinity.len() == CALLBACK_KINDS,
    {
        self.affinity.lemma_len();
    }
}

} // verus!
