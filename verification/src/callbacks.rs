//! The entry points that the server calls, one for each kind of event.
//!
//! An entry point takes the event as the server encodes it (counts and
//! identifiers as unsigned integers, flags as integers, text as raw bytes),
//! decodes it, hands it to the handler that the kind belongs to, and
//! translates the handler's directive into the server's code. It may run on
//! any thread: the caller says which, and the entry point only records it.

use vstd::prelude::*;
use crate::client::Client;
use crate::client_status::ClientStatus;
use crate::control::Control;
use crate::control::CONTINUE_CODE;
use crate::control::QUIT_CODE;
use crate::handler::Notification;
use crate::handler::NotificationHandler;
use crate::handler::ProcessHandler;
use crate::primitive_types::Frames;
use crate::primitive_types::PortId;
use crate::primitive_types::ThreadTag;
use crate::process_scope::scope_of;
use crate::process_scope::ProcessScope;
use crate::process_scope::RawCycle;
use crate::text::decode_text;
use crate::text::raw_view;
use crate::text::text_of;
use crate::thread_affinity::CallbackKind;

verus! {

/// What the entry points reach: the client and the pair of handlers that were
/// installed on it.
#[derive(Debug)]
pub struct CallbackContext<N, P> {
    /// The client on which the handlers are installed.
    pub client: Client,
    /// The capability for the notification thread.
    pub notification: N,
    /// The capability for the process thread.
    pub process: P,
    /// The kinds of callback in which a handler failed, oldest first.
    pub faults: Vec<CallbackKind>,
}

/// The flag that the server's integer `flag` stands for.
pub open spec fn flag_of(flag: i32) -> bool {
    flag != 0
}

/// The text handed to the shutdown hook for the raw reason `raw`: what it
/// holds, or the empty text if it holds none.
pub open spec fn reason_of(raw: Option<Seq<u8>>) -> Seq<char> {
    match text_of(raw) {
        Some(text) => text,
        None => Seq::<char>::empty(),
    }
}

/// An event as the server encodes it.
#[derive(Clone, Copy, Debug)]
pub enum RawEvent<'a> {
    /// The server has made a new thread for this client.
    ThreadInit,
    /// The server has shut the client down.
    Shutdown { code: u32, reason: Option<&'a [u8]> },
    /// A cycle of `n_frames` frames is due.
    Process { n_frames: Frames, cycle: Option<RawCycle> },
    /// Freewheel mode starts (non-zero) or ends.
    Freewheel { starting: i32 },
    /// A cycle now has `n_frames` frames.
    BufferSize { n_frames: Frames },
    /// The sample rate is now `n_frames` frames per second.
    SampleRate { n_frames: Frames },
    /// A client has appeared (non-zero) or gone.
    ClientRegistration { name: Option<&'a [u8]>, register: i32 },
    /// A port has appeared (non-zero) or gone.
    PortRegistration { port_id: PortId, register: i32 },
    /// A port has changed its name.
    PortRename { port_id: PortId, old_name: Option<&'a [u8]>, new_name: Option<&'a [u8]> },
    /// Two ports have been connected (non-zero) or disconnected.
    PortConnect { port_id_a: PortId, port_id_b: PortId, connect: i32 },
    /// The processing graph has been reordered.
    GraphOrder,
    /// A cycle missed its deadline.
    Xrun,
}

impl<'a> RawEvent<'a> {
    /// The kind of callback that delivers this event.
    pub open spec fn spec_kind(self) -> CallbackKind {
        match self {
            RawEvent::ThreadInit => CallbackKind::ThreadInit,
            RawEvent::Shutdown { .. } => CallbackKind::Shutdown,
            RawEvent::Process { .. } => CallbackKind::Process,
            RawEvent::Freewheel { .. } => CallbackKind::Freewheel,
            RawEvent::BufferSize { .. } => CallbackKind::BufferSize,
            RawEvent::SampleRate { .. } => CallbackKind::SampleRate,
            RawEvent::ClientRegistration { .. } => CallbackKind::ClientRegistration,
            RawEvent::PortRegistration { .. } => CallbackKind::PortRegistration,
            RawEvent::PortRename { .. } => CallbackKind::PortRename,
            RawEvent::PortConnect { .. } => CallbackKind::PortConnect,
            RawEvent::GraphOrder => CallbackKind::GraphOrder,
            RawEvent::Xrun => CallbackKind::Xrun,
        }
    }

    /// The kind of callback that delivers this event.
    pub fn kind(&self) -> (kind: CallbackKind)
        ensures
            kind == self.spec_kind(),
    {
        match self {
            RawEvent::ThreadInit => CallbackKind::ThreadInit,
            RawEvent::Shutdown { .. } => CallbackKind::Shutdown,
            RawEvent::Process { .. } => CallbackKind::Process,
            RawEvent::Freewheel { .. } => CallbackKind::Freewheel,
            RawEvent::BufferSize { .. } => CallbackKind::BufferSize,
            RawEvent::SampleRate { .. } => CallbackKind::SampleRate,
            RawEvent::ClientRegistration { .. } => CallbackKind::ClientRegistration,
            RawEvent::PortRegistration { .. } => CallbackKind::PortRegistration,
            RawEvent::PortRename { .. } => CallbackKind::PortRename,
            RawEvent::PortConnect { .. } => CallbackKind::PortConnect,
            RawEvent::GraphOrder => CallbackKind::GraphOrder,
            RawEvent::Xrun => CallbackKind::Xrun,
        }
    }
}

/// What the server is answered when a handler failed in a callback of
/// `kind`: the code for `Continue` where it waits for one, nothing otherwise.
pub open spec fn fallback_answer(kind: CallbackKind) -> Option<i32> {
    if kind.spec_returns_control() {
        Some(CONTINUE_CODE)
    } else {
        None
    }
}

impl<N: NotificationHandler, P: ProcessHandler> CallbackContext<N, P> {
    /// Whether `post` is `pre` after `thread` ran a callback of `kind` that
    /// changed no handler.
    pub open spec fn passed_by(pre: Self, post: Self, kind: CallbackKind, thread: ThreadTag) -> bool {
        &&& post.client@ == pre.client@.stamped(kind, thread)
        &&& post.notification == pre.notification
        &&& post.process == pre.process
        &&& post.faults@ == pre.faults@
    }

    /// Whether `post` is `pre` after `thread` ran a callback of `kind` that
    /// told the notification handler of `event` and got `directive` back.
    pub open spec fn told(
        pre: Self,
        post: Self,
        kind: CallbackKind,
        thread: ThreadTag,
        event: Notification,
        directive: Control,
    ) -> bool {
        &&& post.client@ == pre.client@.stamped(kind, thread)
        &&& pre.notification.notified(post.client@, event, post.notification, directive)
        &&& post.process == pre.process
        &&& post.faults@ == pre.faults@
    }

    /// Puts a pair of handlers on a client. No handler has failed yet.
    pub fn new(client: Client, notification: N, process: P) -> (context: Self)
        ensures
            context.client == client,
            context.notification == notification,
            context.process == process,
            context.faults@ == Seq::<CallbackKind>::empty(),
    {
        CallbackContext { client, notification, process, faults: Vec::new() }
    }

    /// Entry point for a new thread of the server. The notification handler
    /// is told of the thread; a handler told through a shared reference
    /// stays the value it was.
    pub fn thread_init(&mut self, thread: ThreadTag)
        ensures
            Self::passed_by(*old(self), *final(self), CallbackKind::ThreadInit, thread),
            old(self).notification.thread_started(final(self).client@),
    {
        self.client.stamp(CallbackKind::ThreadInit, thread);
        self.notification.thread_init(&self.client);
    }

    /// Entry point for the shutdown of the client by the server. The status
    /// word is passed on as it is; a reason that holds no text is passed on
    /// as the empty text.
    pub fn shutdown(&mut self, thread: ThreadTag, code: u32, reason: Option<&[u8]>)
        ensures
            final(self).client@ == old(self).client@.stamped(CallbackKind::Shutdown, thread),
            old(self).notification.shut_down(
                ClientStatus::spec_from_bits(code),
                reason_of(raw_view(reason)),
                final(self).notification,
            ),
            final(self).process == old(self).process,
            final(self).faults@ == old(self).faults@,
    {
        self.client.stamp(CallbackKind::Shutdown, thread);
        let status = ClientStatus::from_bits(code);
        match decode_text(reason) {
            Some(text) => self.notification.shutdown(status, text),
            None => {
                let text = "";
                proof {
                    reveal_strlit("");
                    assert(text@ =~= Seq::<char>::empty());
                }
                self.notification.shutdown(status, text)
            },
        }
    }

    /// Entry point for a process cycle of `n_frames` frames.
    pub fn process(&mut self, thread: ThreadTag, n_frames: Frames, cycle: Option<RawCycle>) -> (code: i32)
        ensures
            final(self).client@ == old(self).client@.stamped(CallbackKind::Process, thread),
            old(self).process.processed(
                final(self).client@,
                scope_of(n_frames, cycle),
                final(self).process,
                Control::spec_from_code(code),
            ),
            code == CONTINUE_CODE || code == QUIT_CODE,
            final(self).notification == old(self).notification,
            final(self).faults@ == old(self).faults@,
    {
        self.client.stamp(CallbackKind::Process, thread);
        let scope = ProcessScope::from_raw(n_frames, cycle);
        let directive = self.process.process(&self.client, &scope);
        directive.to_ffi()
    }

    /// Entry point for a change of the number of frames in a cycle. The
    /// process handler is given exactly `n_frames`.
    pub fn buffer_size(&mut self, thread: ThreadTag, n_frames: Frames) -> (code: i32)
        ensures
            final(self).client@ == old(self).client@.stamped(CallbackKind::BufferSize, thread),
            old(self).process.resized(
                final(self).client@,
                n_frames,
                final(self).process,
                Control::spec_from_code(code),
            ),
            code == CONTINUE_CODE || code == QUIT_CODE,
            final(self).notification == old(self).notification,
            final(self).faults@ == old(self).faults@,
    {
        self.client.stamp(CallbackKind::BufferSize, thread);
        let directive = self.process.buffer_size(&self.client, n_frames);
        directive.to_ffi()
    }

    /// Entry point for the start (non-zero `starting`) or end of freewheel
    /// mode.
    pub fn freewheel(&mut self, thread: ThreadTag, starting: i32)
        ensures
            Self::told(
                *old(self),
                *final(self),
                CallbackKind::Freewheel,
                thread,
                Notification::Freewheel { is_starting: flag_of(starting) },
                Control::Continue,
            ),
    {
        self.client.stamp(CallbackKind::Freewheel, thread);
        self.notification.freewheel(&self.client, starting != 0);
    }

    /// Entry point for a change of the sample rate.
    pub fn sample_rate(&mut self, thread: ThreadTag, n_frames: Frames) -> (code: i32)
        ensures
            Self::told(
                *old(self),
                *final(self),
                CallbackKind::SampleRate,
                thread,
                Notification::SampleRate { srate: n_frames },
                Control::spec_from_code(code),
            ),
            code == CONTINUE_CODE || code == QUIT_CODE,
    {
        self.client.stamp(CallbackKind::SampleRate, thread);
        let directive = self.notification.sample_rate(&self.client, n_frames);
        directive.to_ffi()
    }

    /// Entry point for the appearance (non-zero `register`) or departure of
    /// another client. An event whose name holds no text reaches no handler.
    pub fn client_registration(&mut self, thread: ThreadTag, name: Option<&[u8]>, register: i32)
        ensures
            match text_of(raw_view(name)) {
                Some(text) => Self::told(
                    *old(self),
                    *final(self),
                    CallbackKind::ClientRegistration,
                    thread,
                    Notification::ClientRegistration {
                        name: text,
                        is_registered: flag_of(register),
                    },
                    Control::Continue,
                ),
                None => Self::passed_by(
                    *old(self),
                    *final(self),
                    CallbackKind::ClientRegistration,
                    thread,
                ),
            },
    {
        self.client.stamp(CallbackKind::ClientRegistration, thread);
        match decode_text(name) {
            Some(text) => self.notification.client_registration(&self.client, text, register != 0),
            None => {},
        }
    }

    /// Entry point for the appearance (non-zero `register`) or departure of
    /// a port.
    pub fn port_registration(&mut self, thread: ThreadTag, port_id: PortId, register: i32)
        ensures
            Self::told(
                *old(self),
                *final(self),
                CallbackKind::PortRegistration,
                thread,
                Notification::PortRegistration { port_id, is_registered: flag_of(register) },
                Control::Continue,
            ),
    {
        self.client.stamp(CallbackKind::PortRegistration, thread);
        self.notification.port_registration(&self.client, port_id, register != 0);
    }

    /// Entry point for the renaming of a port. An event one of whose names
    /// holds no text reaches no handler and is answered with the code for
    /// `Continue`.
    pub fn port_rename(
        &mut self,
        thread: ThreadTag,
        port_id: PortId,
        old_name: Option<&[u8]>,
        new_name: Option<&[u8]>,
    ) -> (code: i32)
        ensures
            match (text_of(raw_view(old_name)), text_of(raw_view(new_name))) {
                (Some(old_text), Some(new_text)) => Self::told(
                    *old(self),
                    *final(self),
                    CallbackKind::PortRename,
                    thread,
                    Notification::PortRename { port_id, old_name: old_text, new_name: new_text },
                    Control::spec_from_code(code),
                ),
                _ => code == CONTINUE_CODE && Self::passed_by(
                    *old(self),
                    *final(self),
                    CallbackKind::PortRename,
                    thread,
                ),
            },
            code == CONTINUE_CODE || code == QUIT_CODE,
    {
        self.client.stamp(CallbackKind::PortRename, thread);
        match (decode_text(old_name), decode_text(new_name)) {
            (Some(old_text), Some(new_text)) => {
                let directive = self.notification.port_rename(
                    &self.client,
                    port_id,
                    old_text,
                    new_text,
                );
                directive.to_ffi()
            },
            _ => Control::Continue.to_ffi(),
        }
    }

    /// Entry point for the connection (non-zero `connect`) or disconnection
    /// of two ports.
    pub fn port_connect(
        &mut self,
        thread: ThreadTag,
        port_id_a: PortId,
        port_id_b: PortId,
        connect: i32,
    )
        ensures
            Self::told(
                *old(self),
                *final(self),
                CallbackKind::PortConnect,
                thread,
                Notification::PortsConnected {
                    port_id_a,
                    port_id_b,
                    are_connected: flag_of(connect),
                },
                Control::Continue,
            ),
    {
        self.client.stamp(CallbackKind::PortConnect, thread);
        self.notification.ports_connected(&self.client, port_id_a, port_id_b, connect != 0);
    }

    /// Entry point for a reordering of the processing graph.
    pub fn graph_order(&mut self, thread: ThreadTag) -> (code: i32)
        ensures
            Self::told(
                *old(self),
                *final(self),
                CallbackKind::GraphOrder,
                thread,
                Notification::GraphReorder,
                Control::spec_from_code(code),
            ),
            code == CONTINUE_CODE || code == QUIT_CODE,
    {
        self.client.stamp(CallbackKind::GraphOrder, thread);
        let directive = self.notification.graph_reorder(&self.client);
        directive.to_ffi()
    }

    /// Entry point for a missed deadline.
    pub fn xrun(&mut self, thread: ThreadTag) -> (code: i32)
        ensures
            Self::told(
                *old(self),
                *final(self),
                CallbackKind::Xrun,
                thread,
                Notification::Xrun,
                Control::spec_from_code(code),
            ),
            code == CONTINUE_CODE || code == QUIT_CODE,
    {
        self.client.stamp(CallbackKind::Xrun, thread);
        let directive = self.notification.xrun(&self.client);
        directive.to_ffi()
    }

    /// Whether `post` and `answer` are an outcome of the entry point for
    /// `event`, run by `thread` on `pre`. The answer is the code for the
    /// server, where the kind of event asks for one.
    pub open spec fn dispatched(
        pre: Self,
        post: Self,
        thread: ThreadTag,
        event: RawEvent,
        answer: Option<i32>,
    ) -> bool {
        let kind = event.spec_kind();
        let directive = match answer {
            Some(code) => Control::spec_from_code(code),
            None => Control::Continue,
        };
        &&& answer is Some <==> kind.spec_returns_control()
        &&& answer matches Some(code) ==> code == CONTINUE_CODE || code == QUIT_CODE
        &&& post.client@ == pre.client@.stamped(kind, thread)
        &&& post.faults@ == pre.faults@
        &&& match event {
            RawEvent::ThreadInit => {
                &&& Self::passed_by(pre, post, kind, thread)
                &&& pre.notification.thread_started(post.client@)
            },
            RawEvent::Shutdown { code, reason } => {
                &&& pre.notification.shut_down(
                    ClientStatus::spec_from_bits(code),
                    reason_of(raw_view(reason)),
                    post.notification,
                )
                &&& post.process == pre.process
            },
            RawEvent::Process { n_frames, cycle } => {
                &&& pre.process.processed(
                    post.client@,
                    scope_of(n_frames, cycle),
                    post.process,
                    directive,
                )
                &&& post.notification == pre.notification
            },
            RawEvent::BufferSize { n_frames } => {
                &&& pre.process.resized(post.client@, n_frames, post.process, directive)
                &&& post.notification == pre.notification
            },
            RawEvent::Freewheel { starting } => Self::told(
                pre,
                post,
                kind,
                thread,
                Notification::Freewheel { is_starting: flag_of(starting) },
                directive,
            ),
            RawEvent::SampleRate { n_frames } => Self::told(
                pre,
                post,
                kind,
                thread,
                Notification::SampleRate { srate: n_frames },
                directive,
            ),
            RawEvent::ClientRegistration { name, register } => match text_of(raw_view(name)) {
                Some(text) => Self::told(
                    pre,
                    post,
                    kind,
                    thread,
                    Notification::ClientRegistration {
                        name: text,
                        is_registered: flag_of(register),
                    },
                    directive,
                ),
                None => Self::passed_by(pre, post, kind, thread),
            },
            RawEvent::PortRegistration { port_id, register } => Self::told(
                pre,
                post,
                kind,
                thread,
                Notification::PortRegistration { port_id, is_registered: flag_of(register) },
                directive,
            ),
            RawEvent::PortRename { port_id, old_name, new_name } => match (
                text_of(raw_view(old_name)),
                text_of(raw_view(new_name)),
            ) {
                (Some(old_text), Some(new_text)) => Self::told(
                    pre,
                    post,
                    kind,
                    thread,
                    Notification::PortRename { port_id, old_name: old_text, new_name: new_text },
                    directive,
                ),
                _ => answer == Some(CONTINUE_CODE) && Self::passed_by(pre, post, kind, thread),
            },
            RawEvent::PortConnect { port_id_a, port_id_b, connect } => Self::told(
                pre,
                post,
                kind,
                thread,
                Notification::PortsConnected {
                    port_id_a,
                    port_id_b,
                    are_connected: flag_of(connect),
                },
                directive,
            ),
            RawEvent::GraphOrder => Self::told(
                pre,
                post,
                kind,
                thread,
                Notification::GraphReorder,
                directive,
            ),
            RawEvent::Xrun => Self::told(pre, post, kind, thread, Notification::Xrun, directive),
        }
    }

    /// Runs the entry point that `event` belongs to, on behalf of `thread`.
    pub fn dispatch(&mut self, thread: ThreadTag, event: &RawEvent) -> (answer: Option<i32>)
        ensures
            Self::dispatched(*old(self), *final(self), thread, *event, answer),
    {
        match *event {
            RawEvent::ThreadInit => {
                self.thread_init(thread);
                None
            },
            RawEvent::Shutdown { code, reason } => {
                self.shutdown(thread, code, reason);
                None
            },
            RawEvent::Process { n_frames, cycle } => Some(self.process(thread, n_frames, cycle)),
            RawEvent::Freewheel { starting } => {
                self.freewheel(thread, starting);
                None
            },
            RawEvent::BufferSize { n_frames } => Some(self.buffer_size(thread, n_frames)),
            RawEvent::SampleRate { n_frames } => Some(self.sample_rate(thread, n_frames)),
            RawEvent::ClientRegistration { name, register } => {
                self.client_registration(thread, name, register);
                None
            },
            RawEvent::PortRegistration { port_id, register } => {
                self.port_registration(thread, port_id, register);
                None
            },
            RawEvent::PortRename { port_id, old_name, new_name } => Some(
                self.port_rename(thread, port_id, old_name, new_name),
            ),
            RawEvent::PortConnect { port_id_a, port_id_b, connect } => {
                self.port_connect(thread, port_id_a, port_id_b, connect);
                None
            },
            RawEvent::GraphOrder => Some(self.graph_order(thread)),
            RawEvent::Xrun => Some(self.xrun(thread)),
        }
    }

    /// Stands in for a callback of `kind` whose handler failed. The failure
    /// is added to the record of faults, and the server gets the safest
    /// answer: the code for `Continue` where it waits for one. Nothing else
    /// changes.
    pub fn contain_fault(&mut self, kind: CallbackKind) -> (answer: Option<i32>)
        ensures
            answer == fallback_answer(kind),
            final(self).faults@ == old(self).faults@.push(kind),
            final(self).client == old(self).client,
            final(self).notification == old(self).notification,
            final(self).process == old(self).process,
    {
        self.faults.push(kind);
        if kind.returns_control() {
            Some(Control::Continue.to_ffi())
        } else {
            None
        }
    }
}

/// With the empty pair of handlers, every entry point, whatever the event
/// holds and whichever thread runs it, answers the server with the code for
/// `Continue` where the kind of event asks for an answer, and with nothing
/// otherwise; and no fault is recorded.
pub proof fn lemma_empty_handlers_continue(
    pre: CallbackContext<(), ()>,
    post: CallbackContext<(), ()>,
    thread: ThreadTag,
    event: RawEvent,
    answer: Option<i32>,
)
    requires
        CallbackContext::dispatched(pre, post, thread, event, answer),
    ensures
        answer == fallback_answer(event.spec_kind()),
        post.faults@ == pre.faults@,
        post.client@ == pre.client@.stamped(event.spec_kind(), thread),
{
}

} // verus!
