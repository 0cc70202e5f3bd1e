//! The activation state machine: a client is inactive, active, or on its way
//! from active to inactive.
//!
//! Whatever needs the server (asking it to activate, asking it to stop and
//! waiting until it has) is done by the caller, who hands the server's answer
//! to the functions here. They decide what the answer means.

use vstd::prelude::*;
use crate::callbacks::fallback_answer;
use crate::callbacks::CallbackContext;
use crate::callbacks::RawEvent;
use crate::client::Client;
use crate::control::Control;
use crate::error::Error;
use crate::handler::NotificationHandler;
use crate::handler::ProcessHandler;
use crate::primitive_types::ThreadTag;
use crate::thread_affinity::CallbackKind;

verus! {

/// The states of the activation state machine.
#[derive(Clone, Copy, Debug, PartialEq, Eq, Structural)]
pub enum Lifecycle {
    /// No handlers are installed.
    Inactive,
    /// Handlers are installed and the server may call them at any time.
    Active,
    /// The server has been asked to stop calling and has not confirmed yet.
    Deactivating,
}

/// The server's answers to a request to activate a client.
#[derive(Clone, Copy, Debug, PartialEq, Eq, Structural)]
pub struct ActivationReply {
    /// Zero when the server accepted every callback entry point.
    pub callbacks: i32,
    /// Zero when the server activated the client.
    pub activation: i32,
}

impl ActivationReply {
    /// Whether the server accepted the entry points and activated the client.
    pub open spec fn spec_accepted(self) -> bool {
        self.callbacks == 0 && self.activation == 0
    }

    /// The failure that a reply which is no acceptance stands for.
    pub open spec fn spec_error(self) -> Error {
        if self.callbacks != 0 {
            Error::CallbackRegistrationError
        } else {
            Error::ClientActivationError
        }
    }

    /// The reply of a server that accepted everything.
    pub fn accepted() -> (reply: ActivationReply)
        ensures
            reply.spec_accepted(),
            reply.callbacks == 0,
            reply.activation == 0,
    {
        ActivationReply { callbacks: 0, activation: 0 }
    }
}

/// A refused activation. The client and the handlers come back untouched, so
/// that the caller can try again.
#[derive(Debug)]
pub struct ActivationFailure<N, P> {
    /// Why the server refused.
    pub error: Error,
    /// The client, still inactive.
    pub client: Client,
    /// The notification handler that was to be installed.
    pub notification: N,
    /// The process handler that was to be installed.
    pub process: P,
}

/// The owner of a client and of the handlers installed on it, from
/// activation until deactivation.
#[derive(Debug)]
pub struct AsyncClient<N, P> {
    callback: Option<CallbackContext<N, P>>,
    closing: bool,
}

impl<N, P> AsyncClient<N, P> {
    /// The client and the handlers that the wrapper owns, while it owns any.
    pub closed spec fn context(self) -> Option<CallbackContext<N, P>> {
        self.callback
    }

    /// Whether the server has been asked to stop calling.
    pub closed spec fn closing(self) -> bool {
        self.closing
    }

    /// The state of the wrapper.
    pub open spec fn spec_lifecycle(self) -> Lifecycle {
        match self.context() {
            None => Lifecycle::Inactive,
            Some(_) => if self.closing() {
                Lifecycle::Deactivating
            } else {
                Lifecycle::Active
            },
        }
    }

    /// Whether `wrapper` is the active wrapper of `client` with the handlers
    /// `notification` and `process` freshly installed.
    pub open spec fn installed(wrapper: Self, client: Client, notification: N, process: P) -> bool {
        &&& wrapper.spec_lifecycle() == Lifecycle::Active
        &&& wrapper.context() matches Some(context)
        &&& context.client == client
        &&& context.notification == notification
        &&& context.process == process
        &&& context.faults@ == Seq::<CallbackKind>::empty()
    }

    /// Whether `outcome` is what activating `client` with the two handlers
    /// comes to when the server answers `reply`.
    pub open spec fn activation_outcome(
        client: Client,
        notification: N,
        process: P,
        reply: ActivationReply,
        outcome: Result<Self, ActivationFailure<N, P>>,
    ) -> bool {
        match outcome {
            Ok(wrapper) => reply.spec_accepted() && Self::installed(
                wrapper,
                client,
                notification,
                process,
            ),
            Err(failure) => {
                &&& !reply.spec_accepted()
                &&& failure.error == reply.spec_error()
                &&& failure.client == client
                &&& failure.notification == notification
                &&& failure.process == process
            },
        }
    }

    /// Whether `post` and `outcome` are what deactivating `pre` comes to
    /// when the server answers `reply`. A wrapper that is inactive already
    /// reports `ClientIsNoLongerAlive` and stays as it is. Any other wrapper
    /// ends inactive: with a zero reply the client and the handlers are
    /// handed back, with any other reply they are given up and
    /// `ClientDeactivationError` is reported.
    pub open spec fn deactivation_outcome(
        pre: Self,
        reply: i32,
        post: Self,
        outcome: Result<CallbackContext<N, P>, Error>,
    ) -> bool {
        match pre.context() {
            None => post == pre && outcome == Err::<CallbackContext<N, P>, Error>(
                Error::ClientIsNoLongerAlive,
            ),
            Some(context) => {
                &&& post.spec_lifecycle() == Lifecycle::Inactive
                &&& if reply == 0 {
                    outcome == Ok::<CallbackContext<N, P>, Error>(context)
                } else {
                    outcome == Err::<CallbackContext<N, P>, Error>(Error::ClientDeactivationError)
                }
            },
        }
    }

    /// The state of the wrapper.
    pub fn lifecycle(&self) -> (state: Lifecycle)
        ensures
            state == self.spec_lifecycle(),
    {
        match &self.callback {
            None => Lifecycle::Inactive,
            Some(_) => if self.closing {
                Lifecycle::Deactivating
            } else {
                Lifecycle::Active
            },
        }
    }

    /// The client that the wrapper owns. An inactive wrapper owns none.
    pub fn as_client(&self) -> (client: &Client)
        requires
            self.spec_lifecycle() != Lifecycle::Inactive,
        ensures
            self.context() matches Some(context) && *client == context.client,
    {
        &self.callback.as_ref().unwrap().client
    }

    /// Notes that the server is being asked to stop calling. Only an active
    /// wrapper can be asked: it becomes deactivating and keeps its handlers,
    /// which callbacks still in flight go on to reach. Any other wrapper
    /// stays as it is and reports why.
    pub fn begin_deactivation(&mut self) -> (begun: Result<(), Error>)
        ensures
            match old(self).spec_lifecycle() {
                Lifecycle::Active => {
                    &&& begun is Ok
                    &&& final(self).spec_lifecycle() == Lifecycle::Deactivating
                    &&& final(self).context() == old(self).context()
                },
                Lifecycle::Deactivating => {
                    &&& begun == Err::<(), Error>(Error::ClientDeactivationError)
                    &&& *final(self) == *old(self)
                },
                Lifecycle::Inactive => {
                    &&& begun == Err::<(), Error>(Error::ClientIsNoLongerAlive)
                    &&& *final(self) == *old(self)
                },
            },
    {
        match self.lifecycle() {
            Lifecycle::Active => {
                self.closing = true;
                Ok(())
            },
            Lifecycle::Deactivating => Err(Error::ClientDeactivationError),
            Lifecycle::Inactive => Err(Error::ClientIsNoLongerAlive),
        }
    }

    /// Ends the activation with the server's `reply` to the request to stop
    /// calling: zero when it has confirmed that no callback is running and
    /// none will follow.
    pub fn maybe_deactivate(&mut self, reply: i32) -> (outcome: Result<CallbackContext<N, P>, Error>)
        ensures
            Self::deactivation_outcome(*old(self), reply, *final(self), outcome),
    {
        match self.callback.take() {
            None => Err(Error::ClientIsNoLongerAlive),
            Some(context) => {
                if reply == 0 {
                    Ok(context)
                } else {
                    Err(Error::ClientDeactivationError)
                }
            },
        }
    }

    /// Ends the activation and hands back the client and the two handlers,
    /// which from then on are the caller's alone.
    pub fn deactivate(self, reply: i32) -> (outcome: Result<(Client, N, P), Error>)
        ensures
            match self.context() {
                None => outcome == Err::<(Client, N, P), Error>(Error::ClientIsNoLongerAlive),
                Some(context) => if reply == 0 {
                    outcome == Ok::<(Client, N, P), Error>(
                        (context.client, context.notification, context.process),
                    )
                } else {
                    outcome == Err::<(Client, N, P), Error>(Error::ClientDeactivationError)
                },
            },
    {
        let mut wrapper = self;
        match wrapper.maybe_deactivate(reply) {
            Ok(context) => Ok((context.client, context.notification, context.process)),
            Err(error) => Err(error),
        }
    }
}

impl<N: NotificationHandler, P: ProcessHandler> AsyncClient<N, P> {
    /// Whether `post` and `answer` are what a callback for `event`, run by
    /// `thread`, comes to on the wrapper `pre`. While the wrapper owns
    /// handlers, the entry point of the event runs on them and the state of
    /// the wrapper stays. An inactive wrapper has no handler to call: it
    /// stays as it is, and the server gets the answer that keeps it going.
    pub open spec fn delivered(
        pre: Self,
        post: Self,
        thread: ThreadTag,
        event: RawEvent,
        answer: Option<i32>,
    ) -> bool {
        match pre.context() {
            Some(before) => {
                &&& post.context() matches Some(after)
                &&& CallbackContext::dispatched(before, after, thread, event, answer)
                &&& post.closing() == pre.closing()
            },
            None => post == pre && answer == fallback_answer(event.spec_kind()),
        }
    }

    /// Stands in for a callback of `kind` whose handler failed: the server
    /// gets the answer that keeps it going, and a wrapper that owns handlers
    /// adds the failure to its record of faults. Nothing else changes.
    pub fn contain_fault(&mut self, kind: CallbackKind) -> (answer: Option<i32>)
        ensures
            answer == fallback_answer(kind),
            final(self).closing() == old(self).closing(),
            match old(self).context() {
                Some(before) => {
                    &&& final(self).context() matches Some(after)
                    &&& after.faults@ == before.faults@.push(kind)
                    &&& after.client == before.client
                    &&& after.notification == before.notification
                    &&& after.process == before.process
                },
                None => *final(self) == *old(self),
            },
    {
        match &mut self.callback {
            Some(context) => context.contain_fault(kind),
            None => {
                if kind.returns_control() {
                    Some(Control::Continue.to_ffi())
                } else {
                    None
                }
            },
        }
    }

    /// Takes a callback of the server for this wrapper.
    pub fn deliver(&mut self, thread: ThreadTag, event: &RawEvent) -> (answer: Option<i32>)
        ensures
            Self::delivered(*old(self), *final(self), thread, *event, answer),
    {
        match &mut self.callback {
            Some(context) => context.dispatch(thread, event),
            None => {
                if event.kind().returns_control() {
                    Some(Control::Continue.to_ffi())
                } else {
                    None
                }
            },
        }
    }
}

impl Client {
    /// Activates the client with a pair of handlers, given the server's
    /// `reply` to the request. If the server accepted, the handlers are
    /// installed and owned by the wrapper that is returned. If it refused,
    /// nothing is installed and everything comes back with the error.
    pub fn activate_async<N, P>(
        self,
        notification_handler: N,
        process_handler: P,
        reply: ActivationReply,
    ) -> (outcome: Result<AsyncClient<N, P>, ActivationFailure<N, P>>)
        ensures
            AsyncClient::activation_outcome(
                self,
                notification_handler,
                process_handler,
                reply,
                outcome,
            ),
    {
        if reply.callbacks != 0 {
            Err(
                ActivationFailure {
                    error: Error::CallbackRegistrationError,
                    client: self,
                    notification: notification_handler,
                    process: process_handler,
                },
            )
        } else if reply.activation != 0 {
            Err(
                ActivationFailure {
                    error: Error::ClientActivationError,
                    client: self,
                    notification: notification_handler,
                    process: process_handler,
                },
            )
        } else {
            let context = CallbackContext {
                client: self,
                notification: notification_handler,
                process: process_handler,
                faults: Vec::new(),
            };
            Ok(AsyncClient { callback: Some(context), closing: false })
        }
    }
}

/// Deactivating a wrapper that is inactive already, whatever the server
/// says, reports `ClientIsNoLongerAlive` and changes nothing. So of two
/// deactivations in a row the second always fails in this way.
pub proof fn lemma_deactivation_is_final<N, P>(
    first: AsyncClient<N, P>,
    first_reply: i32,
    second: AsyncClient<N, P>,
    first_outcome: Result<CallbackContext<N, P>, Error>,
    second_reply: i32,
    third: AsyncClient<N, P>,
    second_outcome: Result<CallbackContext<N, P>, Error>,
)
    requires
        AsyncClient::deactivation_outcome(first, first_reply, second, first_outcome),
        AsyncClient::deactivation_outcome(second, second_reply, third, second_outcome),
    ensures
        second.spec_lifecycle() == Lifecycle::Inactive,
        second_outcome == Err::<CallbackContext<N, P>, Error>(Error::ClientIsNoLongerAlive),
        third == second,
{
}

/// A client that comes back from a deactivation can be activated again, and
/// the new activation knows the new pair of handlers only: the wrapper owns
/// exactly the client that came back and the new pair, with no fault on
/// record, and what a callback on it comes to is an outcome of the entry
/// point run on these. The pair that came back has no part in it.
pub proof fn lemma_reactivation_installs_new_pair<
    N,
    P,
    M: NotificationHandler,
    Q: ProcessHandler,
>(
    first: AsyncClient<N, P>,
    ended: AsyncClient<N, P>,
    handed_back: CallbackContext<N, P>,
    notification: M,
    process: Q,
    reply: ActivationReply,
    second: AsyncClient<M, Q>,
    later: AsyncClient<M, Q>,
    thread: ThreadTag,
    event: RawEvent,
    answer: Option<i32>,
)
    requires
        AsyncClient::deactivation_outcome(
            first,
            0,
            ended,
            Ok::<CallbackContext<N, P>, Error>(handed_back),
        ),
        AsyncClient::activation_outcome(
            handed_back.client,
            notification,
            process,
            reply,
            Ok::<AsyncClient<M, Q>, ActivationFailure<M, Q>>(second),
        ),
        AsyncClient::delivered(second, later, thread, event, answer),
    ensures
        first.context() == Some(handed_back),
        ended.spec_lifecycle() == Lifecycle::Inactive,
        AsyncClient::installed(second, handed_back.client, notification, process),
        later.spec_lifecycle() == Lifecycle::Active,
        second.context() matches Some(before) && later.context() matches Some(after) && {
            &&& before.client == handed_back.client
            &&& before.notification == notification
            &&& before.process == process
            &&& CallbackContext::dispatched(before, after, thread, event, answer)
        },
{
}

/// A refused activation changes nothing: the client and the handlers that
/// come back with the error are the ones that were handed in, so the same
/// activation can be asked for again.
pub proof fn lemma_refused_activation_preserves<N, P>(
    client: Client,
    notification: N,
    process: P,
    reply: ActivationReply,
    failure: ActivationFailure<N, P>,
)
    requires
        AsyncClient::activation_outcome(
            client,
            notification,
            process,
            reply,
            Err::<AsyncClient<N, P>, ActivationFailure<N, P>>(failure),
        ),
    ensures
        failure.client == client,
        failure.notification == notification,
        failure.process == process,
        reply.callbacks != 0 ==> failure.error == Error::CallbackRegistrationError,
        reply.callbacks == 0 ==> reply.activation != 0 && failure.error
            == Error::ClientActivationError,
{
}

} // verus!
