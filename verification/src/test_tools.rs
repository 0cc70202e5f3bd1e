//! Handlers that record what they are told, and shortcuts to a client that
//! carries them, for trying out the callback entry points.

use std::sync::atomic::AtomicUsize;
use std::sync::atomic::Ordering;
use std::sync::mpsc::SyncSender;
use std::sync::Mutex;
use std::sync::MutexGuard;
use std::sync::TryLockError;
use vstd::prelude::*;
use crate::async_client::ActivationReply;
use crate::async_client::AsyncClient;
use crate::async_client::Lifecycle;
use crate::callbacks::CallbackContext;
use crate::callbacks::RawEvent;
use crate::client::Client;
use crate::client::ClientView;
use crate::client::OpenReply;
use crate::client_options::ClientOptions;
use crate::client_options::NO_START_SERVER_BIT;
use crate::client_status::ClientStatus;
use crate::control::Control;
use crate::control::CONTINUE_CODE;
use crate::handler::Notification;
use crate::handler::NotificationHandler;
use crate::handler::ProcessHandler;
use crate::port::AudioIn;
use crate::port::Port;
use crate::port::PortView;
use crate::primitive_types::Frames;
use crate::primitive_types::PortId;
use crate::primitive_types::ThreadTag;
use crate::process_scope::ProcessScope;
use crate::process_scope::ProcessScopeView;
use crate::process_scope::RawCycle;
use crate::text::raw_view;
use crate::text::text_of;
use crate::thread_affinity::no_affinity;
use crate::thread_affinity::CallbackKind;

verus! {

/// A handler for both threads that counts and records what it is told.
///
/// The count of thread initialisations is the one field that several
/// threads write, so it is atomic; nothing is stated of its value, and no
/// method but `thread_init` touches it. The other fields are written from
/// one kind of thread each.
#[derive(Debug)]
pub struct Counter {
    pub process_return_val: Control,
    /// Asks whoever drives the cycles to stall each one so that deadlines
    /// are missed. The counter itself never blocks.
    pub induce_xruns: bool,
    pub thread_init_count: AtomicUsize,
    /// The frames of all cycles so far, counted modulo the range of `usize`.
    pub frames_processed: usize,
    /// The thread that ran the last cycle, if the client knew it.
    pub process_thread: Option<ThreadTag>,
    /// For each change of the buffer size, the thread that delivered it.
    pub buffer_size_thread_history: Vec<Option<ThreadTag>>,
    pub buffer_size_change_history: Vec<Frames>,
    pub registered_client_history: Vec<String>,
    pub unregistered_client_history: Vec<String>,
    pub port_register_history: Vec<PortId>,
    pub port_unregister_history: Vec<PortId>,
    /// The missed deadlines so far, counted modulo the range of `usize`.
    pub xruns_count: usize,
    pub last_frame_time: Frames,
    pub frames_since_cycle_start: Frames,
}

/// What a counter has recorded, as plain mathematics.
pub struct CounterView {
    pub process_return_val: Control,
    pub induce_xruns: bool,
    pub frames_processed: usize,
    pub process_thread: Option<ThreadTag>,
    pub buffer_size_thread_history: Seq<Option<ThreadTag>>,
    pub buffer_size_change_history: Seq<Frames>,
    pub registered_client_history: Seq<Seq<char>>,
    pub unregistered_client_history: Seq<Seq<char>>,
    pub port_register_history: Seq<PortId>,
    pub port_unregister_history: Seq<PortId>,
    pub xruns_count: usize,
    pub last_frame_time: Frames,
    pub frames_since_cycle_start: Frames,
}

/// The sum of `count` and `more`, modulo the range of `usize`.
pub open spec fn wrapped_sum(count: usize, more: usize) -> usize {
    if count + more > usize::MAX {
        (count + more - usize::MAX - 1) as usize
    } else {
        (count + more) as usize
    }
}

impl CounterView {
    /// The record of a counter that has been told nothing yet.
    pub open spec fn fresh() -> CounterView {
        CounterView {
            process_return_val: Control::Continue,
            induce_xruns: false,
            frames_processed: 0,
            process_thread: None,
            buffer_size_thread_history: Seq::empty(),
            buffer_size_change_history: Seq::empty(),
            registered_client_history: Seq::empty(),
            unregistered_client_history: Seq::empty(),
            port_register_history: Seq::empty(),
            port_unregister_history: Seq::empty(),
            xruns_count: 0,
            last_frame_time: 0,
            frames_since_cycle_start: 0,
        }
    }

    /// The record after a client called `name` appeared (`true`) or went:
    /// the name is added to the history of the one or of the other.
    pub open spec fn on_client_registration(self, name: Seq<char>, is_registered: bool) -> CounterView {
        if is_registered {
            CounterView {
                registered_client_history: self.registered_client_history.push(name),
                ..self
            }
        } else {
            CounterView {
                unregistered_client_history: self.unregistered_client_history.push(name),
                ..self
            }
        }
    }

    /// The record after the port `port_id` appeared (`true`) or went: the
    /// identifier is added to the history of the one or of the other.
    pub open spec fn on_port_registration(self, port_id: PortId, is_registered: bool) -> CounterView {
        if is_registered {
            CounterView { port_register_history: self.port_register_history.push(port_id), ..self }
        } else {
            CounterView {
                port_unregister_history: self.port_unregister_history.push(port_id),
                ..self
            }
        }
    }

    /// The record after one more missed deadline.
    pub open spec fn on_xrun(self) -> CounterView {
        CounterView { xruns_count: wrapped_sum(self.xruns_count, 1), ..self }
    }

    /// The record after the cycle `scope` ran on `client`: its frames are
    /// added, its two frame counters are kept, and so is the thread that the
    /// client saw run it.
    pub open spec fn on_process(self, client: ClientView, scope: ProcessScopeView) -> CounterView {
        CounterView {
            frames_processed: wrapped_sum(self.frames_processed, scope.n_frames as usize),
            last_frame_time: scope.last_frame_time,
            frames_since_cycle_start: scope.frames_since_cycle_start,
            process_thread: client.affinity[CallbackKind::Process.spec_index()],
            ..self
        }
    }

    /// The record after the buffer size became `size` on `client`: the size
    /// is added to the history of sizes, and the thread that the client saw
    /// deliver it to the history of threads.
    pub open spec fn on_buffer_size(self, client: ClientView, size: Frames) -> CounterView {
        CounterView {
            buffer_size_change_history: self.buffer_size_change_history.push(size),
            buffer_size_thread_history: self.buffer_size_thread_history.push(
                client.affinity[CallbackKind::BufferSize.spec_index()],
            ),
            ..self
        }
    }

    /// The record after the notification `event`. Events that the counter
    /// does not count leave it as it is.
    pub open spec fn on_notification(self, event: Notification) -> CounterView {
        match event {
            Notification::ClientRegistration { name, is_registered } => self.on_client_registration(
                name,
                is_registered,
            ),
            Notification::PortRegistration { port_id, is_registered } => self.on_port_registration(
                port_id,
                is_registered,
            ),
            Notification::Xrun => self.on_xrun(),
            _ => self,
        }
    }
}

impl View for Counter {
    type V = CounterView;

    open spec fn view(&self) -> CounterView {
        CounterView {
            process_return_val: self.process_return_val,
            induce_xruns: self.induce_xruns,
            frames_processed: self.frames_processed,
            process_thread: self.process_thread,
            buffer_size_thread_history: self.buffer_size_thread_history@,
            buffer_size_change_history: self.buffer_size_change_history@,
            registered_client_history: self.registered_client_history.deep_view(),
            unregistered_client_history: self.unregistered_client_history.deep_view(),
            port_register_history: self.port_register_history@,
            port_unregister_history: self.port_unregister_history@,
            xruns_count: self.xruns_count,
            last_frame_time: self.last_frame_time,
            frames_since_cycle_start: self.frames_since_cycle_start,
        }
    }
}

impl Default for Counter {
    /// A counter that has been told nothing yet.
    fn default() -> (counter: Counter)
        ensures
            counter@ == CounterView::fresh(),
    {
        let counter = Counter {
            process_return_val: Control::Continue,
            induce_xruns: false,
            thread_init_count: AtomicUsize::new(0),
            frames_processed: 0,
            process_thread: None,
            buffer_size_thread_history: Vec::new(),
            buffer_size_change_history: Vec::new(),
            registered_client_history: Vec::new(),
            unregistered_client_history: Vec::new(),
            port_register_history: Vec::new(),
            port_unregister_history: Vec::new(),
            xruns_count: 0,
            last_frame_time: 0,
            frames_since_cycle_start: 0,
        };
        assert(counter.registered_client_history.deep_view() =~= Seq::<Seq<char>>::empty());
        assert(counter.unregistered_client_history.deep_view() =~= Seq::<Seq<char>>::empty());
        counter
    }
}

/// Appends an owned copy of `name` to a history of names.
fn push_name(history: &mut Vec<String>, name: &str)
    ensures
        final(history).deep_view() == old(history).deep_view().push(name@),
{
    history.push(name.to_owned());
    assert(history.deep_view() =~= old(history).deep_view().push(name@));
}

impl NotificationHandler for Counter {
    open spec fn notified(
        self,
        client: ClientView,
        event: Notification,
        next: Self,
        directive: Control,
    ) -> bool {
        &&& next@ == self@.on_notification(event)
        &&& next.thread_init_count == self.thread_init_count
        &&& directive == Control::Continue
    }

    open spec fn shut_down(self, status: ClientStatus, reason: Seq<char>, next: Self) -> bool {
        next@ == self@ && next.thread_init_count == self.thread_init_count
    }

    fn thread_init(&self, client: &Client) {
        self.thread_init_count.fetch_add(1, Ordering::Relaxed);
    }

    fn shutdown(&mut self, status: ClientStatus, reason: &str) {
    }

    fn freewheel(&mut self, client: &Client, is_starting: bool) {
    }

    fn sample_rate(&mut self, client: &Client, srate: Frames) -> (directive: Control) {
        Control::Continue
    }

    fn client_registration(&mut self, client: &Client, name: &str, is_registered: bool)
        ensures
            final(self)@ == old(self)@.on_client_registration(name@, is_registered),
            final(self).thread_init_count == old(self).thread_init_count,
    {
        if is_registered {
            push_name(&mut self.registered_client_history, name);
        } else {
            push_name(&mut self.unregistered_client_history, name);
        }
    }

    fn port_registration(&mut self, client: &Client, port_id: PortId, is_registered: bool)
        ensures
            final(self)@ == old(self)@.on_port_registration(port_id, is_registered),
            final(self).thread_init_count == old(self).thread_init_count,
    {
        if is_registered {
            self.port_register_history.push(port_id);
        } else {
            self.port_unregister_history.push(port_id);
        }
    }

    fn port_rename(&mut self, client: &Client, port_id: PortId, old_name: &str, new_name: &str) -> (directive: Control) {
        Control::Continue
    }

    fn ports_connected(
        &mut self,
        client: &Client,
        port_id_a: PortId,
        port_id_b: PortId,
        are_connected: bool,
    ) {
    }

    fn graph_reorder(&mut self, client: &Client) -> (directive: Control) {
        Control::Continue
    }

    fn xrun(&mut self, client: &Client) -> (directive: Control)
        ensures
            final(self)@ == old(self)@.on_xrun(),
            final(self).thread_init_count == old(self).thread_init_count,
            directive == Control::Continue,
    {
        self.xruns_count = self.xruns_count.wrapping_add(1);
        Control::Continue
    }
}

impl ProcessHandler for Counter {
    open spec fn processed(
        self,
        client: ClientView,
        scope: ProcessScopeView,
        next: Self,
        directive: Control,
    ) -> bool {
        &&& next@ == self@.on_process(client, scope)
        &&& next.thread_init_count == self.thread_init_count
        &&& directive == Control::Continue
    }

    open spec fn resized(self, client: ClientView, size: Frames, next: Self, directive: Control) -> bool {
        &&& next@ == self@.on_buffer_size(client, size)
        &&& next.thread_init_count == self.thread_init_count
        &&& directive == Control::Continue
    }

    fn process(&mut self, client: &Client, scope: &ProcessScope) -> (directive: Control)
        ensures
            final(self)@ == old(self)@.on_process(client@, scope@),
            final(self).thread_init_count == old(self).thread_init_count,
            directive == Control::Continue,
    {
        self.frames_processed = self.frames_processed.wrapping_add(scope.n_frames() as usize);
        self.last_frame_time = scope.last_frame_time();
        self.frames_since_cycle_start = scope.frames_since_cycle_start();
        let _cycle_times = scope.cycle_times();
        self.process_thread = client.last_thread(CallbackKind::Process);
        Control::Continue
    }

    fn buffer_size(&mut self, client: &Client, size: Frames) -> (directive: Control)
        ensures
            final(self)@ == old(self)@.on_buffer_size(client@, size),
            final(self).thread_init_count == old(self).thread_init_count,
            directive == Control::Continue,
    {
        self.buffer_size_change_history.push(size);
        self.buffer_size_thread_history.push(client.last_thread(CallbackKind::BufferSize));
        Control::Continue
    }
}

/// A change of the buffer size as a counter sees it: the client at the time
/// of the callback, and the size delivered.
pub type Resize = (ClientView, Frames);

/// The appearance (`true`) or departure of a port as a counter sees it.
pub type PortEvent = (PortId, bool);

/// The sizes that a run of changes delivers, in order.
pub open spec fn sizes_of(changes: Seq<Resize>) -> Seq<Frames> {
    changes.map_values(|change: Resize| change.1)
}

/// The ports of a run of port events that carry the flag `is_registered`, in
/// order.
pub open spec fn ports_flagged(events: Seq<PortEvent>, is_registered: bool) -> Seq<PortId>
    decreases events.len(),
{
    if events.len() == 0 {
        Seq::empty()
    } else {
        let before = ports_flagged(events.drop_last(), is_registered);
        if events.last().1 == is_registered {
            before.push(events.last().0)
        } else {
            before
        }
    }
}

/// The events that announce each of `ports`, in order, with the flag
/// `is_registered`.
pub open spec fn port_events(ports: Seq<PortId>, is_registered: bool) -> Seq<PortEvent> {
    ports.map_values(|port_id: PortId| (port_id, is_registered))
}

impl CounterView {
    /// The record after a run of changes of the buffer size, oldest first.
    pub open spec fn after_resizes(self, changes: Seq<Resize>) -> CounterView
        decreases changes.len(),
    {
        if changes.len() == 0 {
            self
        } else {
            self.after_resizes(changes.drop_last()).on_buffer_size(
                changes.last().0,
                changes.last().1,
            )
        }
    }

    /// The record after a run of port events, oldest first.
    pub open spec fn after_port_events(self, events: Seq<PortEvent>) -> CounterView
        decreases events.len(),
    {
        if events.len() == 0 {
            self
        } else {
            self.after_port_events(events.drop_last()).on_port_registration(
                events.last().0,
                events.last().1,
            )
        }
    }
}

/// After two cycles in a row, of which the later has the greater frame time,
/// the frame time that a counter holds is greater than it was between them.
pub proof fn lemma_frame_time_increases(
    start: CounterView,
    client: ClientView,
    earlier: ProcessScopeView,
    later: ProcessScopeView,
)
    requires
        earlier.last_frame_time < later.last_frame_time,
    ensures
        start.on_process(client, earlier).last_frame_time == earlier.last_frame_time,
        start.on_process(client, earlier).on_process(client, later).last_frame_time
            == later.last_frame_time,
        start.on_process(client, earlier).last_frame_time < start.on_process(
            client,
            earlier,
        ).on_process(client, later).last_frame_time,
{
}

/// Every size that is delivered is recorded as it is, after those that came
/// before it: after a run of changes the history of sizes is what it was,
/// followed by the sizes of the run in their order, and the history of
/// threads has grown by as many entries.
pub proof fn lemma_buffer_sizes_in_order(start: CounterView, changes: Seq<Resize>)
    ensures
        start.after_resizes(changes).buffer_size_change_history
            == start.buffer_size_change_history + sizes_of(changes),
        start.after_resizes(changes).buffer_size_thread_history.len()
            == start.buffer_size_thread_history.len() + changes.len(),
    decreases changes.len(),
{
    if changes.len() == 0 {
        assert(start.buffer_size_change_history + sizes_of(changes)
            =~= start.buffer_size_change_history);
    } else {
        lemma_buffer_sizes_in_order(start, changes.drop_last());
        assert(sizes_of(changes) =~= sizes_of(changes.drop_last()).push(changes.last().1));
        assert(start.buffer_size_change_history + sizes_of(changes) =~= (
        start.buffer_size_change_history + sizes_of(changes.drop_last())).push(changes.last().1));
    }
}

/// A counter told that a client appeared adds its name once to the history
/// of registrations and leaves the history of departures alone; told that a
/// client went, it does the reverse. Nothing else of the record changes.
pub proof fn lemma_client_registration_counted_once(
    start: CounterView,
    name: Seq<char>,
    is_registered: bool,
)
    ensures
        is_registered ==> start.on_client_registration(name, is_registered) == (CounterView {
            registered_client_history: start.registered_client_history.push(name),
            ..start
        }),
        !is_registered ==> start.on_client_registration(name, is_registered) == (CounterView {
            unregistered_client_history: start.unregistered_client_history.push(name),
            ..start
        }),
        start.on_client_registration(name, is_registered).registered_client_history.len()
            + start.on_client_registration(name, is_registered).unregistered_client_history.len()
            == start.registered_client_history.len() + start.unregistered_client_history.len()
            + 1,
{
}

/// After a run of port events the history of registrations is what it was,
/// followed by the ports that appeared, in their order, and the history of
/// departures is what it was, followed by the ports that went.
pub proof fn lemma_port_histories(start: CounterView, events: Seq<PortEvent>)
    ensures
        start.after_port_events(events).port_register_history == start.port_register_history
            + ports_flagged(events, true),
        start.after_port_events(events).port_unregister_history
            == start.port_unregister_history + ports_flagged(events, false),
    decreases events.len(),
{
    if events.len() == 0 {
        assert(start.port_register_history + ports_flagged(events, true)
            =~= start.port_register_history);
        assert(start.port_unregister_history + ports_flagged(events, false)
            =~= start.port_unregister_history);
    } else {
        lemma_port_histories(start, events.drop_last());
        if events.last().1 {
            assert(start.port_register_history + ports_flagged(events, true) =~= (
            start.port_register_history + ports_flagged(events.drop_last(), true)).push(
                events.last().0,
            ));
        } else {
            assert(start.port_unregister_history + ports_flagged(events, false) =~= (
            start.port_unregister_history + ports_flagged(events.drop_last(), false)).push(
                events.last().0,
            ));
        }
    }
}

/// The events that announce `ports` with one flag hold each of them under
/// that flag, in order, and none under the other.
pub proof fn lemma_ports_flagged_of_port_events(ports: Seq<PortId>, is_registered: bool)
    ensures
        ports_flagged(port_events(ports, is_registered), is_registered) == ports,
        ports_flagged(port_events(ports, is_registered), !is_registered) == Seq::<
            PortId,
        >::empty(),
    decreases ports.len(),
{
    let events = port_events(ports, is_registered);
    if ports.len() == 0 {
        assert(ports_flagged(events, is_registered) =~= ports);
    } else {
        lemma_ports_flagged_of_port_events(ports.drop_last(), is_registered);
        assert(events.drop_last() =~= port_events(ports.drop_last(), is_registered));
        assert(events.last() == (ports.last(), is_registered));
        assert(ports_flagged(events, is_registered) =~= ports);
    }
}

/// Registering each of `ports` and then unregistering each of them adds
/// every one of them, in order, to both histories, so that each history has
/// at least as many entries as there are ports.
pub proof fn lemma_ports_registered_then_unregistered(start: CounterView, ports: Seq<PortId>)
    ensures
        ({
            let end = start.after_port_events(port_events(ports, true)).after_port_events(
                port_events(ports, false),
            );
            &&& end.port_register_history == start.port_register_history + ports
            &&& end.port_unregister_history == start.port_unregister_history + ports
            &&& end.port_register_history.len() >= ports.len()
            &&& end.port_unregister_history.len() >= ports.len()
        }),
{
    let middle = start.after_port_events(port_events(ports, true));
    lemma_port_histories(start, port_events(ports, true));
    lemma_port_histories(middle, port_events(ports, false));
    lemma_ports_flagged_of_port_events(ports, true);
    lemma_ports_flagged_of_port_events(ports, false);
    assert(start.port_unregister_history + Seq::<PortId>::empty()
        =~= start.port_unregister_history);
    assert(middle.port_register_history + Seq::<PortId>::empty() =~= middle.port_register_history);
}

/// A change of the buffer size that the entry point delivers to a counter is
/// recorded with exactly the size that the server sent and with the thread
/// that delivered it, and the server is told to continue.
pub proof fn lemma_counter_records_buffer_size<N: NotificationHandler>(
    pre: CallbackContext<N, Counter>,
    post: CallbackContext<N, Counter>,
    thread: ThreadTag,
    n_frames: Frames,
    answer: Option<i32>,
)
    requires
        CallbackContext::dispatched(pre, post, thread, RawEvent::BufferSize { n_frames }, answer),
    ensures
        answer == Some(CONTINUE_CODE),
        post.process@.buffer_size_change_history
            == pre.process@.buffer_size_change_history.push(n_frames),
        post.process@.buffer_size_thread_history == pre.process@.buffer_size_thread_history.push(
            Some(thread),
        ),
        post.process.thread_init_count == pre.process.thread_init_count,
        post.notification == pre.notification,
{
    pre.client.lemma_affinity_len();
}

/// A cycle that the entry point delivers to a counter is recorded with the
/// frame counters that the server sent and with the thread that ran it, and
/// the server is told to continue.
pub proof fn lemma_counter_records_cycle<N: NotificationHandler>(
    pre: CallbackContext<N, Counter>,
    post: CallbackContext<N, Counter>,
    thread: ThreadTag,
    n_frames: Frames,
    cycle: RawCycle,
    answer: Option<i32>,
)
    requires
        CallbackContext::dispatched(
            pre,
            post,
            thread,
            RawEvent::Process { n_frames, cycle: Some(cycle) },
            answer,
        ),
    ensures
        answer == Some(CONTINUE_CODE),
        post.process@.frames_processed == wrapped_sum(
            pre.process@.frames_processed,
            n_frames as usize,
        ),
        post.process@.last_frame_time == cycle.last_frame_time,
        post.process@.frames_since_cycle_start == cycle.frames_since_cycle_start,
        post.process@.process_thread == Some(thread),
        post.process.thread_init_count == pre.process.thread_init_count,
{
    pre.client.lemma_affinity_len();
}

/// The appearance of a client that the entry point delivers to a counter
/// adds the name once to the history of registrations and nothing to the
/// history of departures; a departure does the reverse. A name that holds no
/// text changes neither.
pub proof fn lemma_counter_records_client<P: ProcessHandler>(
    pre: CallbackContext<Counter, P>,
    post: CallbackContext<Counter, P>,
    thread: ThreadTag,
    name: Option<&[u8]>,
    register: i32,
    answer: Option<i32>,
)
    requires
        CallbackContext::dispatched(
            pre,
            post,
            thread,
            RawEvent::ClientRegistration { name, register },
            answer,
        ),
    ensures
        answer is None,
        match text_of(raw_view(name)) {
            Some(text) => post.notification@ == pre.notification@.on_client_registration(
                text,
                register != 0,
            ),
            None => post.notification@ == pre.notification@,
        },
        post.notification.thread_init_count == pre.notification.thread_init_count,
        post.process == pre.process,
{
}

/// The appearance (non-zero `register`) or departure of a port that the
/// entry point delivers to a counter adds the identifier, as the server sent
/// it, to the history of the one or of the other.
pub proof fn lemma_counter_records_port<P: ProcessHandler>(
    pre: CallbackContext<Counter, P>,
    post: CallbackContext<Counter, P>,
    thread: ThreadTag,
    port_id: PortId,
    register: i32,
    answer: Option<i32>,
)
    requires
        CallbackContext::dispatched(
            pre,
            post,
            thread,
            RawEvent::PortRegistration { port_id, register },
            answer,
        ),
    ensures
        answer is None,
        post.notification@ == pre.notification@.on_port_registration(port_id, register != 0),
        post.notification.thread_init_count == pre.notification.thread_init_count,
        post.process == pre.process,
{
}

/// The sending end of a bounded channel of the standard library.
#[verifier::external_type_specification]
#[verifier::external_body]
#[verifier::reject_recursive_types(T)]
pub struct ExSyncSender<T>(SyncSender<T>);

/// A lock of the standard library around a value.
#[verifier::external_type_specification]
#[verifier::external_body]
#[verifier::reject_recursive_types(T)]
pub struct ExMutex<T: ?Sized>(Mutex<T>);

/// The right to use the value behind a lock, until it is dropped.
#[verifier::external_type_specification]
#[verifier::external_body]
#[verifier::reject_recursive_types(T)]
pub struct ExMutexGuard<'a, T: ?Sized + 'a>(MutexGuard<'a, T>);

/// Why an identifier did not reach the channel.
#[derive(Clone, Copy, Debug, PartialEq, Eq, Structural)]
pub enum SendFailure {
    /// The lock around the sender was held already.
    LockBusy,
    /// A thread panicked while it held the lock around the sender.
    LockPoisoned,
    /// The receiving end of the channel is gone.
    ReceiverGone,
}

/// An identifier that did not reach the channel, and why.
#[derive(Clone, Copy, Debug, PartialEq, Eq, Structural)]
pub struct LostPort {
    pub port_id: PortId,
    pub cause: SendFailure,
}

/// A notification handler that passes the identifier of every port that
/// appears on to a channel.
#[derive(Debug)]
pub struct PortIdHandler {
    /// Where the identifiers go.
    pub reg_tx: Mutex<SyncSender<PortId>>,
    /// The identifiers that the channel did not take, oldest first.
    pub lost: Vec<LostPort>,
}

/// Takes the lock with `Mutex::try_lock`, which never waits. Of its two
/// errors, the one that says the lock is held already comes back as
/// `LockBusy`, and the one that says a thread panicked while it held the
/// lock as `LockPoisoned`.
#[verifier::external_body]
fn try_lock_sender<'a>(reg_tx: &'a Mutex<SyncSender<PortId>>) -> (guard: Result<
    MutexGuard<'a, SyncSender<PortId>>,
    SendFailure,
>) {
    match reg_tx.try_lock() {
        Ok(guard) => Ok(guard),
        Err(TryLockError::WouldBlock) => Err(SendFailure::LockBusy),
        Err(TryLockError::Poisoned(_)) => Err(SendFailure::LockPoisoned),
    }
}

/// Sends `port_id` with `SyncSender::send`, which waits while the channel is
/// full. The result tells whether the channel took the value; it does not
/// when the receiving end is gone.
#[verifier::external_body]
fn send_port_id(reg_tx: &MutexGuard<SyncSender<PortId>>, port_id: PortId) -> (sent: bool) {
    reg_tx.send(port_id).is_ok()
}

/// What a port event puts on the channel: the identifier of a port that
/// appeared, and nothing for a port that went.
pub open spec fn message_of(port_id: PortId, is_registered: bool) -> Option<PortId> {
    if is_registered {
        Some(port_id)
    } else {
        None
    }
}

/// Decides what a port event puts on the channel.
pub fn port_to_send(port_id: PortId, is_registered: bool) -> (message: Option<PortId>)
    ensures
        message == message_of(port_id, is_registered),
{
    if is_registered {
        Some(port_id)
    } else {
        None
    }
}

/// How an attempt to send ended, from what the lock and the channel said:
/// without a guard the cause is the lock's; with a guard the value was sent,
/// or else the receiving end is gone.
pub open spec fn failure_of(attempt: Result<bool, SendFailure>) -> Option<SendFailure> {
    match attempt {
        Ok(sent) => if sent {
            None
        } else {
            Some(SendFailure::ReceiverGone)
        },
        Err(cause) => Some(cause),
    }
}

/// Decides how an attempt to send ended.
pub fn send_failure(attempt: Result<bool, SendFailure>) -> (failure: Option<SendFailure>)
    ensures
        failure == failure_of(attempt),
{
    match attempt {
        Ok(sent) => if sent {
            None
        } else {
            Some(SendFailure::ReceiverGone)
        },
        Err(cause) => Some(cause),
    }
}

impl PortIdHandler {
    /// A handler that sends to `reg_tx` and has lost nothing yet.
    pub fn new(reg_tx: Mutex<SyncSender<PortId>>) -> (handler: PortIdHandler)
        ensures
            handler.reg_tx == reg_tx,
            handler.lost@ == Seq::<LostPort>::empty(),
    {
        PortIdHandler { reg_tx, lost: Vec::new() }
    }

    /// The identifiers lost so far, after an attempt to send `port_id` that
    /// ended as `failure` says: a failed attempt adds the identifier with
    /// its cause, a sent value adds nothing.
    pub open spec fn lost_after(
        lost: Seq<LostPort>,
        port_id: PortId,
        failure: Option<SendFailure>,
    ) -> Seq<LostPort> {
        match failure {
            None => lost,
            Some(cause) => lost.push(LostPort { port_id, cause }),
        }
    }

    /// Whether `after` is `before` after some attempt to send `port_id`:
    /// either nothing was added, or the identifier was, with one of the
    /// three causes.
    pub open spec fn lost_somehow(before: Seq<LostPort>, after: Seq<LostPort>, port_id: PortId) -> bool {
        ||| after == Self::lost_after(before, port_id, None)
        ||| after == Self::lost_after(before, port_id, Some(SendFailure::LockBusy))
        ||| after == Self::lost_after(before, port_id, Some(SendFailure::LockPoisoned))
        ||| after == Self::lost_after(before, port_id, Some(SendFailure::ReceiverGone))
    }

    /// Takes note of an attempt to send `port_id`: what did not reach the
    /// channel is kept as lost, with the cause.
    pub fn note_send(&mut self, port_id: PortId, failure: Option<SendFailure>)
        ensures
            final(self).lost@ == Self::lost_after(old(self).lost@, port_id, failure),
            final(self).reg_tx == old(self).reg_tx,
    {
        match failure {
            None => {},
            Some(cause) => {
                self.lost.push(LostPort { port_id, cause });
            },
        }
    }
}

impl NotificationHandler for PortIdHandler {
    /// Only a port event that has a message for the channel has an effect:
    /// the message is sent, or else kept as lost with the cause. Which of
    /// these is up to the lock and the channel.
    open spec fn notified(
        self,
        client: ClientView,
        event: Notification,
        next: Self,
        directive: Control,
    ) -> bool {
        &&& directive == Control::Continue
        &&& next.reg_tx == self.reg_tx
        &&& match event {
            Notification::PortRegistration { port_id, is_registered } => match message_of(
                port_id,
                is_registered,
            ) {
                Some(message) => Self::lost_somehow(self.lost@, next.lost@, message),
                None => next.lost@ == self.lost@,
            },
            _ => next.lost@ == self.lost@,
        }
    }

    open spec fn shut_down(self, status: ClientStatus, reason: Seq<char>, next: Self) -> bool {
        next == self
    }

    fn thread_init(&self, client: &Client) {
    }

    fn shutdown(&mut self, status: ClientStatus, reason: &str) {
    }

    fn freewheel(&mut self, client: &Client, is_starting: bool) {
    }

    fn sample_rate(&mut self, client: &Client, srate: Frames) -> (directive: Control) {
        Control::Continue
    }

    fn client_registration(&mut self, client: &Client, name: &str, is_registered: bool) {
    }

    fn port_registration(&mut self, client: &Client, port_id: PortId, is_registered: bool) {
        match port_to_send(port_id, is_registered) {
            Some(message) => {
                let attempt = match try_lock_sender(&self.reg_tx) {
                    Ok(guard) => Ok(send_port_id(&guard, message)),
                    Err(cause) => Err(cause),
                };
                self.note_send(message, send_failure(attempt));
            },
            None => {},
        }
    }

    fn port_rename(&mut self, client: &Client, port_id: PortId, old_name: &str, new_name: &str) -> (directive: Control) {
        Control::Continue
    }

    fn ports_connected(
        &mut self,
        client: &Client,
        port_id_a: PortId,
        port_id_b: PortId,
        are_connected: bool,
    ) {
    }

    fn graph_reorder(&mut self, client: &Client) -> (directive: Control) {
        Control::Continue
    }

    fn xrun(&mut self, client: &Client) -> (directive: Control) {
        Control::Continue
    }
}

/// What the client holds that `open_test_client` makes for `name` on the
/// session `raw`.
pub open spec fn test_client_view(name: Seq<char>, raw: usize) -> ClientView {
    ClientView {
        name: name,
        options: ClientOptions::spec_from_bits(NO_START_SERVER_BIT),
        raw: raw,
        affinity: no_affinity(),
    }
}

/// Whether `active` is a wrapper as `active_test_client` makes it for `name`
/// on the session `raw`: active, with a client as `open_test_client` makes
/// it and two counters that have been told nothing yet.
pub open spec fn is_active_test_client(
    active: AsyncClient<Counter, Counter>,
    name: Seq<char>,
    raw: usize,
) -> bool {
    &&& active.spec_lifecycle() == Lifecycle::Active
    &&& active.context() matches Some(context)
    &&& context.client@ == test_client_view(name, raw)
    &&& context.notification@ == CounterView::fresh()
    &&& context.process@ == CounterView::fresh()
    &&& context.faults@ == Seq::<CallbackKind>::empty()
}

/// Opens a client called `name` that asks that no server be started, given
/// the server's answer `opened`, which must grant a session.
pub fn open_test_client(name: &str, opened: OpenReply) -> (client: (Client, ClientStatus))
    requires
        opened.raw != 0,
    ensures
        client.0@ == test_client_view(name@, opened.raw),
        client.1@ == opened.status_bits,
{
    Client::new(name, ClientOptions::no_start_server(), opened).unwrap()
}

/// Opens a client called `name` and activates it with two fresh counters,
/// given the server's answers to the two requests, which must grant both.
pub fn active_test_client(name: &str, opened: OpenReply, activated: ActivationReply) -> (active:
    AsyncClient<Counter, Counter>)
    requires
        opened.raw != 0,
        activated.spec_accepted(),
    ensures
        is_active_test_client(active, name@, opened.raw),
{
    let c = open_test_client(name, opened).0;
    c.activate_async(Counter::default(), Counter::default(), activated).unwrap()
}

/// Activates a client called `client` with two fresh counters and registers
/// an audio input called `port` on it, given the server's answers to the
/// three requests, which must grant all of them.
pub fn open_client_with_port(
    client: &str,
    port: &str,
    opened: OpenReply,
    activated: ActivationReply,
    registered: usize,
) -> (made: (AsyncClient<Counter, Counter>, Port<AudioIn>))
    requires
        opened.raw != 0,
        activated.spec_accepted(),
        registered != 0,
    ensures
        is_active_test_client(made.0, client@, opened.raw),
        made.1@ == (PortView { spec: AudioIn, name: port@, raw: registered }),
{
    let c = open_test_client(client, opened).0;
    let ac = c.activate_async(Counter::default(), Counter::default(), activated).unwrap();
    let p = ac.as_client().register_port(port, AudioIn, registered).unwrap();
    (ac, p)
}

} // verus!
