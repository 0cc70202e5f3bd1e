//! The two capabilities that user code supplies: one for the real-time
//! process thread, one for the notification thread.
//!
//! They are two traits, because the two run under different rules: the
//! process capability may never block, the notification capability may.
//!
//! Each handler can state, as a relation of its own, which outcomes its
//! methods can have; one that states nothing can do anything. The callback
//! entry points promise their results in terms of these relations.

use vstd::prelude::*;
use crate::client::Client;
use crate::client::ClientView;
use crate::client_status::ClientStatus;
use crate::control::Control;
use crate::primitive_types::Frames;
use crate::primitive_types::PortId;
use crate::process_scope::ProcessScope;
use crate::process_scope::ProcessScopeView;

verus! {

/// A notification, decoded: the kind of event and the values it carries.
pub enum Notification {
    /// The server enters (`true`) or leaves freewheel mode.
    Freewheel { is_starting: bool },
    /// The sample rate is now `srate`.
    SampleRate { srate: Frames },
    /// The client called `name` has appeared (`true`) or gone.
    ClientRegistration { name: Seq<char>, is_registered: bool },
    /// The port `port_id` has appeared (`true`) or gone.
    PortRegistration { port_id: PortId, is_registered: bool },
    /// The port `port_id` has changed its name.
    PortRename { port_id: PortId, old_name: Seq<char>, new_name: Seq<char> },
    /// The two ports have been connected (`true`) or disconnected.
    PortsConnected { port_id_a: PortId, port_id_b: PortId, are_connected: bool },
    /// The processing graph has been reordered.
    GraphReorder,
    /// A cycle missed its deadline.
    Xrun,
}

/// The capability that runs on the notification thread.
pub trait NotificationHandler: Sized {
    /// Whether this handler, told of `event` on `client`, can become `next`
    /// and answer `directive`. An event that asks for no directive is
    /// answered with `Continue`. A handler that does not say otherwise can
    /// do anything.
    open spec fn notified(
        self,
        client: ClientView,
        event: Notification,
        next: Self,
        directive: Control,
    ) -> bool {
        true
    }

    /// Whether this handler, told that the server has shut the client down
    /// with `status` and `reason`, can become `next`. A handler that does
    /// not say otherwise can do anything.
    open spec fn shut_down(self, status: ClientStatus, reason: Seq<char>, next: Self) -> bool {
        true
    }

    /// Whether this handler has been told that a thread was started for
    /// `client`. A handler that does not say otherwise states nothing of it.
    open spec fn thread_started(self, client: ClientView) -> bool {
        true
    }

    /// Called once on each thread that the server makes for this client's
    /// callbacks, the real-time thread among them.
    fn thread_init(&self, client: &Client)
        ensures
            self.thread_started(client@),
    ;

    /// Called when the server shuts the client down. No callback follows.
    fn shutdown(&mut self, status: ClientStatus, reason: &str)
        ensures
            old(self).shut_down(status, reason@, *final(self)),
    ;

    /// Called when the server enters or leaves freewheel mode.
    fn freewheel(&mut self, client: &Client, is_starting: bool)
        ensures
            old(self).notified(
                client@,
                Notification::Freewheel { is_starting },
                *final(self),
                Control::Continue,
            ),
    ;

    /// Called when the sample rate changes.
    fn sample_rate(&mut self, client: &Client, srate: Frames) -> (directive: Control)
        ensures
            old(self).notified(
                client@,
                Notification::SampleRate { srate },
                *final(self),
                directive,
            ),
    ;

    /// Called when another client appears or goes.
    fn client_registration(&mut self, client: &Client, name: &str, is_registered: bool)
        ensures
            old(self).notified(
                client@,
                Notification::ClientRegistration { name: name@, is_registered },
                *final(self),
                Control::Continue,
            ),
    ;

    /// Called when a port appears or goes.
    fn port_registration(&mut self, client: &Client, port_id: PortId, is_registered: bool)
        ensures
            old(self).notified(
                client@,
                Notification::PortRegistration { port_id, is_registered },
                *final(self),
                Control::Continue,
            ),
    ;

    /// Called when a port changes its name.
    fn port_rename(&mut self, client: &Client, port_id: PortId, old_name: &str, new_name: &str) -> (directive: Control)
        ensures
            old(self).notified(
                client@,
                Notification::PortRename { port_id, old_name: old_name@, new_name: new_name@ },
                *final(self),
                directive,
            ),
    ;

    /// Called when two ports are connected or disconnected.
    fn ports_connected(
        &mut self,
        client: &Client,
        port_id_a: PortId,
        port_id_b: PortId,
        are_connected: bool,
    )
        ensures
            old(self).notified(
                client@,
                Notification::PortsConnected { port_id_a, port_id_b, are_connected },
                *final(self),
                Control::Continue,
            ),
    ;

    /// Called when the processing graph is reordered.
    fn graph_reorder(&mut self, client: &Client) -> (directive: Control)
        ensures
            old(self).notified(client@, Notification::GraphReorder, *final(self), directive),
    ;

    /// Called when a cycle missed its deadline.
    fn xrun(&mut self, client: &Client) -> (directive: Control)
        ensures
            old(self).notified(client@, Notification::Xrun, *final(self), directive),
    ;
}

/// The capability that runs on the real-time process thread.
pub trait ProcessHandler: Sized {
    /// Whether this handler, run for the cycle `scope` on `client`, can
    /// become `next` and answer `directive`. A handler that does not say
    /// otherwise can do anything.
    open spec fn processed(
        self,
        client: ClientView,
        scope: ProcessScopeView,
        next: Self,
        directive: Control,
    ) -> bool {
        true
    }

    /// Whether this handler, told on `client` that a cycle now has `size`
    /// frames, can become `next` and answer `directive`. A handler that does
    /// not say otherwise can do anything.
    open spec fn resized(self, client: ClientView, size: Frames, next: Self, directive: Control) -> bool {
        true
    }

    /// Called once for each cycle.
    fn process(&mut self, client: &Client, scope: &ProcessScope) -> (directive: Control)
        ensures
            old(self).processed(client@, scope@, *final(self), directive),
    ;

    /// Called when the number of frames in a cycle changes.
    fn buffer_size(&mut self, client: &Client, size: Frames) -> (directive: Control)
        ensures
            old(self).resized(client@, size, *final(self), directive),
    ;
}

/// The empty notification capability: it ignores every event and lets the
/// client continue.
impl NotificationHandler for () {
    open spec fn notified(
        self,
        client: ClientView,
        event: Notification,
        next: Self,
        directive: Control,
    ) -> bool {
        directive == Control::Continue
    }

    open spec fn shut_down(self, status: ClientStatus, reason: Seq<char>, next: Self) -> bool {
        true
    }

    fn thread_init(&self, client: &Client) {
    }

    fn shutdown(&mut self, status: ClientStatus, reason: &str) {
    }

    fn freewheel(&mut self, client: &Client, is_starting: bool) {
    }

    fn sample_rate(&mut self, client: &Client, srate: Frames) -> (directive: Control) {
        Control::Continue
    }

    fn client_registration(&mut self, client: &Client, name: &str, is_registered: bool) {
    }

    fn port_registration(&mut self, client: &Client, port_id: PortId, is_registered: bool) {
    }

    fn port_rename(&mut self, client: &Client, port_id: PortId, old_name: &str, new_name: &str) -> (directive: Control) {
        Control::Continue
    }

    fn ports_connected(
        &mut self,
        client: &Client,
        port_id_a: PortId,
        port_id_b: PortId,
        are_connected: bool,
    ) {
    }

    fn graph_reorder(&mut self, client: &Client) -> (directive: Control) {
        Control::Continue
    }

    fn xrun(&mut self, client: &Client) -> (directive: Control) {
        Control::Continue
    }
}

/// The empty process capability: it does nothing in a cycle and lets the
/// client continue.
impl ProcessHandler for () {
    open spec fn processed(
        self,
        client: ClientView,
        scope: ProcessScopeView,
        next: Self,
        directive: Control,
    ) -> bool {
        directive == Control::Continue
    }

    open spec fn resized(self, client: ClientView, size: Frames, next: Self, directive: Control) -> bool {
        directive == Control::Continue
    }

    fn process(&mut self, client: &Client, scope: &ProcessScope) -> (directive: Control) {
        Control::Continue
    }

    fn buffer_size(&mut self, client: &Client, size: Frames) -> (directive: Control) {
        Control::Continue
    }
}

} // verus!
