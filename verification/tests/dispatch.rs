use jack::client::OpenReply;
use jack::async_client::ActivationReply;
use std::sync::atomic::Ordering;
use std::sync::mpsc::sync_channel;
use std::sync::Mutex;

use jack::callbacks::CallbackContext;
use jack::callbacks::RawEvent;
use jack::client::Client;
use jack::client_status::ClientStatus;
use jack::control::Control;
use jack::error::Error;
use jack::handler::NotificationHandler;
use jack::process_scope::CycleTimes;
use jack::process_scope::ProcessScope;
use jack::process_scope::RawCycle;
use jack::test_tools::active_test_client;
use jack::test_tools::open_test_client;
use jack::test_tools::Counter;
use jack::test_tools::port_to_send;
use jack::test_tools::send_failure;
use jack::test_tools::LostPort;
use jack::test_tools::SendFailure;
use jack::test_tools::PortIdHandler;
use jack::text::decode_text;
use jack::text::until_nul;
use jack::thread_affinity::CallbackKind;
use jack::thread_affinity::ThreadAffinity;
use jack::time::time_from_micros;

/// The answer of a server that grants a session.
const OPENED: OpenReply = OpenReply { raw: 1, status_bits: 0 };

fn boundary_events() -> Vec<RawEvent<'static>> {
    vec![
        RawEvent::ThreadInit,
        RawEvent::Shutdown { code: 0, reason: None },
        RawEvent::Shutdown { code: u32::MAX, reason: Some(&[0xff, 0xfe]) },
        RawEvent::Process { n_frames: 0, cycle: None },
        RawEvent::Process {
            n_frames: u32::MAX,
            cycle: Some(RawCycle {
                last_frame_time: u32::MAX,
                frames_since_cycle_start: u32::MAX,
                times_code: -1,
                current_usecs: u64::MAX,
                next_usecs: 0,
            }),
        },
        RawEvent::Freewheel { starting: 0 },
        RawEvent::Freewheel { starting: i32::MIN },
        RawEvent::BufferSize { n_frames: 0 },
        RawEvent::SampleRate { n_frames: 0 },
        RawEvent::ClientRegistration { name: None, register: 1 },
        RawEvent::ClientRegistration { name: Some(b""), register: 0 },
        RawEvent::ClientRegistration { name: Some(&[0xc3, 0x28]), register: -1 },
        RawEvent::PortRegistration { port_id: u32::MAX, register: 1 },
        RawEvent::PortRegistration { port_id: 0, register: 0 },
        RawEvent::PortRename { port_id: u32::MAX, old_name: None, new_name: None },
        RawEvent::PortRename { port_id: 0, old_name: Some(b"a"), new_name: Some(b"") },
        RawEvent::PortConnect { port_id_a: u32::MAX, port_id_b: u32::MAX, connect: 2 },
        RawEvent::GraphOrder,
        RawEvent::Xrun,
    ]
}

#[test]
fn empty_handlers_continue_on_boundary_inputs() {
    let mut context = CallbackContext::new(Client::from_raw(0), (), ());
    for event in boundary_events() {
        let answer = context.dispatch(0, &event);
        if event.kind().returns_control() {
            assert_eq!(answer, Some(Control::Continue.to_ffi()));
        } else {
            assert_eq!(answer, None);
        }
    }
    assert!(context.faults.is_empty());
}

#[test]
fn counter_continues_on_boundary_inputs() {
    let mut ac = active_test_client("boundary", OPENED, ActivationReply::accepted());
    for event in boundary_events() {
        let answer = ac.deliver(u64::MAX, &event);
        assert_eq!(answer.is_some(), event.kind().returns_control());
        assert!(answer.is_none() || answer == Some(1));
    }
}

#[test]
fn control_codes_follow_the_server_convention() {
    assert_eq!(Control::Continue.to_ffi(), 1);
    assert_eq!(Control::Quit.to_ffi(), 0);
    assert_eq!(Control::default(), Control::Continue);
}

#[test]
fn callback_kinds_that_return_control() {
    let control = [
        CallbackKind::Process,
        CallbackKind::BufferSize,
        CallbackKind::SampleRate,
        CallbackKind::PortRename,
        CallbackKind::GraphOrder,
        CallbackKind::Xrun,
    ];
    let void = [
        CallbackKind::ThreadInit,
        CallbackKind::Shutdown,
        CallbackKind::Freewheel,
        CallbackKind::ClientRegistration,
        CallbackKind::PortRegistration,
        CallbackKind::PortConnect,
    ];
    let mut seen = [false; 12];
    for kind in control {
        assert!(kind.returns_control());
        seen[kind.index()] = true;
    }
    for kind in void {
        assert!(!kind.returns_control());
        seen[kind.index()] = true;
    }
    assert_eq!(seen, [true; 12]);
}

/// A process handler that asks to quit once it has seen a given frame time.
struct QuitAt(u32);

impl jack::handler::ProcessHandler for QuitAt {
    fn process(&mut self, _: &Client, scope: &ProcessScope) -> Control {
        if scope.last_frame_time() >= self.0 {
            Control::Quit
        } else {
            Control::Continue
        }
    }

    fn buffer_size(&mut self, _: &Client, size: u32) -> Control {
        if size == 0 {
            Control::Quit
        } else {
            Control::Continue
        }
    }
}

#[test]
fn quit_directive_becomes_the_stop_code() {
    let mut context = CallbackContext::new(open_test_client("quitter", OPENED).0, (), QuitAt(2048));
    let cycle = |t: u32| RawCycle {
        last_frame_time: t,
        frames_since_cycle_start: 0,
        times_code: 0,
        current_usecs: 0,
        next_usecs: 0,
    };
    assert_eq!(context.process(1, 1024, Some(cycle(1024))), 1);
    assert_eq!(context.process(1, 1024, Some(cycle(2048))), 0);
    assert_eq!(context.process(1, 1024, None), 1);
    assert_eq!(context.buffer_size(1, 0), 0);
    assert_eq!(context.buffer_size(1, 64), 1);
}

#[test]
fn frame_time_increases_across_cycles() {
    let mut ac = active_test_client("frame_time", OPENED, ActivationReply::accepted());
    let cycle = |t: u32| RawEvent::Process {
        n_frames: 1024,
        cycle: Some(RawCycle {
            last_frame_time: t,
            frames_since_cycle_start: 3,
            times_code: 0,
            current_usecs: 10,
            next_usecs: 20,
        }),
    };
    ac.deliver(1, &cycle(4096));
    let context = ac.maybe_deactivate(0).unwrap();
    let earlier = context.process.last_frame_time;
    assert_eq!(earlier, 4096);
    let mut ac = context
        .client
        .activate_async(
            context.notification,
            context.process,
            ActivationReply::accepted(),
        )
        .unwrap();
    ac.deliver(1, &cycle(5120));
    ac.deliver(1, &cycle(6144));
    let (_, _, counter) = ac.deactivate(0).unwrap();
    assert!(counter.last_frame_time > earlier);
    assert_eq!(counter.last_frame_time, 6144);
    assert_eq!(counter.frames_processed, 3 * 1024);
    assert_eq!(counter.frames_since_cycle_start, 3);
}

#[test]
fn frames_and_xruns_are_counted_modulo_the_range() {
    let client = Client::from_raw(1);
    let mut counter = Counter { frames_processed: usize::MAX - 1, xruns_count: usize::MAX, ..Counter::default() };
    let scope = ProcessScope::from_raw(3, None);
    assert_eq!(jack::handler::ProcessHandler::process(&mut counter, &client, &scope), Control::Continue);
    assert_eq!(counter.frames_processed, 1);
    assert_eq!(counter.xrun(&client), Control::Continue);
    assert_eq!(counter.xruns_count, 0);
    assert_eq!(counter.xrun(&client), Control::Continue);
    assert_eq!(counter.xruns_count, 1);
}

#[test]
fn counter_returns_continue_whatever_its_return_value_field_says() {
    let client = Client::from_raw(1);
    let mut counter = Counter { process_return_val: Control::Quit, ..Counter::default() };
    let scope = ProcessScope::from_raw(8, None);
    assert_eq!(jack::handler::ProcessHandler::process(&mut counter, &client, &scope), Control::Continue);
    assert_eq!(counter.process_return_val, Control::Quit);
}

#[test]
fn thread_init_is_counted_once_per_call() {
    let mut ac = active_test_client("threads", OPENED, ActivationReply::accepted());
    ac.deliver(1, &RawEvent::ThreadInit);
    ac.deliver(2, &RawEvent::ThreadInit);
    ac.deliver(3, &RawEvent::ThreadInit);
    let (client, notification, process) = ac.deactivate(0).unwrap();
    assert_eq!(notification.thread_init_count.load(Ordering::Relaxed), 3);
    assert_eq!(process.thread_init_count.load(Ordering::Relaxed), 0);
    assert_eq!(client.last_thread(CallbackKind::ThreadInit), Some(3));
}

#[test]
fn buffer_sizes_are_recorded_with_their_thread() {
    let mut ac = active_test_client("sizes", OPENED, ActivationReply::accepted());
    ac.deliver(7, &RawEvent::BufferSize { n_frames: 512 });
    ac.deliver(8, &RawEvent::BufferSize { n_frames: 256 });
    ac.deliver(7, &RawEvent::BufferSize { n_frames: 256 });
    let (client, _, counter) = ac.deactivate(0).unwrap();
    assert_eq!(counter.buffer_size_change_history, [512, 256, 256]);
    assert_eq!(counter.buffer_size_thread_history, [Some(7), Some(8), Some(7)]);
    assert_eq!(counter.process_thread, None);
    assert_eq!(client.last_thread(CallbackKind::BufferSize), Some(7));
    assert_eq!(client.last_thread(CallbackKind::Process), None);
}

#[test]
fn second_client_is_announced_exactly_once_each_way() {
    let mut ac = active_test_client("first", OPENED, ActivationReply::accepted());
    let count = |history: &Vec<String>| history.iter().filter(|n| n.as_str() == "second").count();
    ac.deliver(2, &RawEvent::ClientRegistration { name: Some(b"second\0junk"), register: 1 });
    let context = ac.maybe_deactivate(0).unwrap();
    assert_eq!(count(&context.notification.registered_client_history), 1);
    assert_eq!(count(&context.notification.unregistered_client_history), 0);

    let mut context = context;
    context.client_registration(2, Some(b"second"), 0);
    assert_eq!(count(&context.notification.registered_client_history), 1);
    assert_eq!(count(&context.notification.unregistered_client_history), 1);
    assert_eq!(context.notification.registered_client_history, ["second"]);
    assert_eq!(context.notification.unregistered_client_history, ["second"]);
}

#[test]
fn n_ports_registered_then_unregistered() {
    let n: u32 = 17;
    let mut ac = active_test_client("ports", OPENED, ActivationReply::accepted());
    for port_id in 0..n {
        ac.deliver(2, &RawEvent::PortRegistration { port_id, register: 1 });
    }
    for port_id in 0..n {
        ac.deliver(2, &RawEvent::PortRegistration { port_id, register: 0 });
    }
    let counter = ac.deactivate(0).unwrap().1;
    let ports: Vec<u32> = (0..n).collect();
    assert!(counter.port_register_history.len() >= n as usize);
    assert!(counter.port_unregister_history.len() >= n as usize);
    assert_eq!(counter.port_register_history, ports);
    assert_eq!(counter.port_unregister_history, ports);
}

#[test]
fn undecodable_names_reach_no_handler() {
    let mut ac = active_test_client("names", OPENED, ActivationReply::accepted());
    ac.deliver(2, &RawEvent::ClientRegistration { name: None, register: 1 });
    ac.deliver(2, &RawEvent::ClientRegistration { name: Some(&[0x80]), register: 1 });
    ac.deliver(2, &RawEvent::ClientRegistration { name: Some("gr\u{fc}n".as_bytes()), register: 1 });
    ac.deliver(2, &RawEvent::ClientRegistration { name: Some(b""), register: 1 });
    let counter = ac.deactivate(0).unwrap().1;
    assert_eq!(counter.registered_client_history, ["gr\u{fc}n", ""]);
    assert!(counter.unregistered_client_history.is_empty());
}

/// A notification handler that keeps what the shutdown hook was given.
#[derive(Default)]
struct LastWords {
    status: Option<ClientStatus>,
    reason: Option<String>,
    renames: Vec<(u32, String, String)>,
}

impl NotificationHandler for LastWords {
    fn thread_init(&self, _: &Client) {}
    fn shutdown(&mut self, status: ClientStatus, reason: &str) {
        self.status = Some(status);
        self.reason = Some(reason.to_string());
    }
    fn freewheel(&mut self, _: &Client, _: bool) {}
    fn sample_rate(&mut self, _: &Client, _: u32) -> Control {
        Control::Continue
    }
    fn client_registration(&mut self, _: &Client, _: &str, _: bool) {}
    fn port_registration(&mut self, _: &Client, _: u32, _: bool) {}
    fn port_rename(&mut self, _: &Client, port_id: u32, old_name: &str, new_name: &str) -> Control {
        self.renames.push((port_id, old_name.to_string(), new_name.to_string()));
        Control::Quit
    }
    fn ports_connected(&mut self, _: &Client, _: u32, _: u32, _: bool) {}
    fn graph_reorder(&mut self, _: &Client) -> Control {
        Control::Continue
    }
    fn xrun(&mut self, _: &Client) -> Control {
        Control::Quit
    }
}

#[test]
fn shutdown_passes_status_and_reason_on() {
    let mut context = CallbackContext::new(open_test_client("last", OPENED).0, LastWords::default(), ());
    context.shutdown(2, 0x21, Some(b"server went away\0"));
    assert_eq!(context.notification.status, Some(ClientStatus::from_bits(0x21)));
    assert_eq!(context.notification.reason.as_deref(), Some("server went away"));
    context.shutdown(2, 0, None);
    assert_eq!(context.notification.status, Some(ClientStatus::empty()));
    assert_eq!(context.notification.reason.as_deref(), Some(""));
    context.shutdown(2, 1, Some(&[0xff]));
    assert_eq!(context.notification.reason.as_deref(), Some(""));
    assert_eq!(context.client.last_thread(CallbackKind::Shutdown), Some(2));
}

#[test]
fn port_rename_needs_both_names() {
    let mut context = CallbackContext::new(open_test_client("rename", OPENED).0, LastWords::default(), ());
    assert_eq!(context.port_rename(2, 5, Some(b"old"), Some(b"new")), 0);
    assert_eq!(context.port_rename(2, 6, None, Some(b"new")), 1);
    assert_eq!(context.port_rename(2, 7, Some(b"old"), Some(&[0xff])), 1);
    assert_eq!(context.notification.renames, [(5, "old".to_string(), "new".to_string())]);
    assert_eq!(context.xrun(2), 0);
    assert_eq!(context.graph_order(2), 1);
    assert_eq!(context.sample_rate(2, 48_000), 1);
}

#[test]
fn faults_are_recorded_and_answered_with_continue() {
    let mut context = CallbackContext::new(open_test_client("faulty", OPENED).0, Counter::default(), ());
    assert_eq!(context.contain_fault(CallbackKind::Process), Some(1));
    assert_eq!(context.contain_fault(CallbackKind::PortRegistration), None);
    assert_eq!(context.contain_fault(CallbackKind::Xrun), Some(1));
    assert_eq!(
        context.faults,
        [CallbackKind::Process, CallbackKind::PortRegistration, CallbackKind::Xrun]
    );
    assert_eq!(context.notification.xruns_count, 0);

    let mut ac = active_test_client("faulty", OPENED, ActivationReply::accepted());
    assert_eq!(ac.contain_fault(CallbackKind::Shutdown), None);
    assert_eq!(ac.contain_fault(CallbackKind::BufferSize), Some(1));
    let context = ac.maybe_deactivate(0).unwrap();
    assert_eq!(context.faults, [CallbackKind::Shutdown, CallbackKind::BufferSize]);
}

#[test]
fn text_ends_at_the_first_zero_byte() {
    assert_eq!(until_nul(b"abc\0def\0"), b"abc");
    assert_eq!(until_nul(b"abc"), b"abc");
    assert_eq!(until_nul(b"\0abc"), b"");
    assert_eq!(until_nul(b""), b"");
}

#[test]
fn text_is_decoded_as_utf8_or_not_at_all() {
    assert_eq!(decode_text(None), None);
    assert_eq!(decode_text(Some(b"")), Some(""));
    assert_eq!(decode_text(Some(b"system:capture_1\0")), Some("system:capture_1"));
    assert_eq!(decode_text(Some(&[0xe2, 0x82, 0xac, 0x00, 0xff])), Some("\u{20ac}"));
    assert_eq!(decode_text(Some(&[0xe2, 0x82])), None);
    assert_eq!(decode_text(Some(&[0xff, 0x00])), None);
    assert_eq!(decode_text(Some(&[0xed, 0xa0, 0x80])), None);
}

#[test]
fn scope_accessors_give_what_the_server_sent() {
    let scope = ProcessScope::from_raw(
        256,
        Some(RawCycle {
            last_frame_time: 9_000,
            frames_since_cycle_start: 12,
            times_code: 0,
            current_usecs: 1_000_000,
            next_usecs: 1_005_333,
        }),
    );
    assert_eq!(scope.n_frames(), 256);
    assert_eq!(scope.last_frame_time(), 9_000);
    assert_eq!(scope.frames_since_cycle_start(), 12);
    assert_eq!(
        scope.cycle_times(),
        Ok(CycleTimes { current_usecs: 1_000_000, next_usecs: 1_005_333 })
    );
}

#[test]
fn scope_without_valid_times_reports_a_time_error() {
    let invalid = ProcessScope::from_raw(
        64,
        Some(RawCycle {
            last_frame_time: 5,
            frames_since_cycle_start: 6,
            times_code: 1,
            current_usecs: 7,
            next_usecs: 8,
        }),
    );
    assert_eq!(invalid.cycle_times(), Err(Error::TimeError));
    assert_eq!(invalid.last_frame_time(), 5);
    assert_eq!(invalid.frames_since_cycle_start(), 6);
    let null = ProcessScope::from_raw(64, None);
    assert_eq!(null.cycle_times(), Err(Error::TimeError));
    assert_eq!(null.n_frames(), 64);
    assert_eq!(null.last_frame_time(), 0);
    assert_eq!(null.frames_since_cycle_start(), 0);
}

#[test]
fn affinity_keeps_the_last_thread_of_each_kind() {
    let mut record = ThreadAffinity::new();
    assert_eq!(record.last(CallbackKind::Xrun), None);
    record.record(CallbackKind::Xrun, 4);
    record.record(CallbackKind::Process, 5);
    record.record(CallbackKind::Xrun, 6);
    assert_eq!(record.last(CallbackKind::Xrun), Some(6));
    assert_eq!(record.last(CallbackKind::Process), Some(5));
    assert_eq!(record.last(CallbackKind::ThreadInit), None);
    record.record(CallbackKind::Process, 9);
    assert_eq!(record.last(CallbackKind::Process), Some(9));
    assert_eq!(record.last(CallbackKind::Xrun), Some(6));
}

#[test]
fn port_ids_go_to_the_channel_or_are_kept_as_lost() {
    let client = Client::from_raw(1);
    let (tx, rx) = sync_channel(4);
    let mut handler = PortIdHandler::new(Mutex::new(tx));
    handler.port_registration(&client, 31, true);
    handler.port_registration(&client, 32, false);
    handler.port_registration(&client, 33, true);
    assert_eq!(rx.try_recv(), Ok(31));
    assert_eq!(rx.try_recv(), Ok(33));
    assert!(rx.try_recv().is_err());
    assert!(handler.lost.is_empty());

    drop(rx);
    handler.port_registration(&client, 34, true);
    handler.port_registration(&client, 35, false);
    assert_eq!(handler.lost, [LostPort { port_id: 34, cause: SendFailure::ReceiverGone }]);
    handler.note_send(36, None);
    handler.note_send(37, Some(SendFailure::LockPoisoned));
    assert_eq!(
        handler.lost,
        [
            LostPort { port_id: 34, cause: SendFailure::ReceiverGone },
            LostPort { port_id: 37, cause: SendFailure::LockPoisoned },
        ]
    );
    assert_eq!(handler.xrun(&client), Control::Continue);
}

#[test]
fn micros_become_a_time() {
    assert_eq!(time_from_micros(None), 0);
    assert_eq!(time_from_micros(Some(0)), 0);
    assert_eq!(time_from_micros(Some(1_700_000_000_000_000)), 1_700_000_000_000_000);
    assert_eq!(time_from_micros(Some(u64::MAX as u128)), u64::MAX);
    assert_eq!(time_from_micros(Some(u64::MAX as u128 + 1)), u64::MAX);
    assert_eq!(time_from_micros(Some(u128::MAX)), u64::MAX);
}

#[test]
fn clock_is_past_the_year_2020() {
    assert!(jack::time::get_time() > 1_577_836_800_000_000);
}

#[test]
fn only_ports_that_appear_are_sent() {
    assert_eq!(port_to_send(31, true), Some(31));
    assert_eq!(port_to_send(31, false), None);
    assert_eq!(port_to_send(0, true), Some(0));
    assert_eq!(port_to_send(u32::MAX, true), Some(u32::MAX));
    assert_eq!(port_to_send(u32::MAX, false), None);
}

#[test]
fn port_id_is_lost_while_the_lock_is_held() {
    let client = Client::from_raw(1);
    let (tx, rx) = sync_channel(4);
    let mut handler = PortIdHandler::new(Mutex::new(tx));
    handler.port_registration(&client, 41, true);
    // a guard that is never given back keeps the lock for good
    std::mem::forget(handler.reg_tx.lock().unwrap());
    handler.port_registration(&client, 42, true);
    handler.port_registration(&client, 43, false);
    handler.port_registration(&client, 44, true);
    assert_eq!(rx.try_recv(), Ok(41));
    assert!(rx.try_recv().is_err());
    assert_eq!(
        handler.lost,
        [
            LostPort { port_id: 42, cause: SendFailure::LockBusy },
            LostPort { port_id: 44, cause: SendFailure::LockBusy },
        ]
    );
}

#[test]
fn counter_methods_leave_the_thread_init_count_alone() {
    let client = Client::from_raw(1);
    let mut counter = Counter::default();
    counter.thread_init(&client);
    counter.thread_init(&client);
    let scope = ProcessScope::from_raw(16, None);
    jack::handler::ProcessHandler::process(&mut counter, &client, &scope);
    jack::handler::ProcessHandler::buffer_size(&mut counter, &client, 32);
    counter.client_registration(&client, "other", true);
    counter.port_registration(&client, 5, false);
    counter.xrun(&client);
    counter.shutdown(ClientStatus::empty(), "bye");
    assert_eq!(counter.thread_init_count.load(Ordering::Relaxed), 2);
}

#[test]
fn failed_attempts_have_a_cause() {
    assert_eq!(send_failure(Ok(true)), None);
    assert_eq!(send_failure(Ok(false)), Some(SendFailure::ReceiverGone));
    assert_eq!(send_failure(Err(SendFailure::LockBusy)), Some(SendFailure::LockBusy));
    assert_eq!(send_failure(Err(SendFailure::LockPoisoned)), Some(SendFailure::LockPoisoned));
    assert_eq!(send_failure(Err(SendFailure::ReceiverGone)), Some(SendFailure::ReceiverGone));
}

/// A notification handler that counts the threads it is told of.
#[derive(Default)]
struct Threads(std::sync::atomic::AtomicUsize);

impl NotificationHandler for Threads {
    fn thread_init(&self, client: &Client) {
        assert!(client.last_thread(CallbackKind::ThreadInit).is_some());
        self.0.fetch_add(1, Ordering::Relaxed);
    }
    fn shutdown(&mut self, _: ClientStatus, _: &str) {}
    fn freewheel(&mut self, _: &Client, _: bool) {}
    fn sample_rate(&mut self, _: &Client, _: u32) -> Control {
        Control::Continue
    }
    fn client_registration(&mut self, _: &Client, _: &str, _: bool) {}
    fn port_registration(&mut self, _: &Client, _: u32, _: bool) {}
    fn port_rename(&mut self, _: &Client, _: u32, _: &str, _: &str) -> Control {
        Control::Continue
    }
    fn ports_connected(&mut self, _: &Client, _: u32, _: u32, _: bool) {}
    fn graph_reorder(&mut self, _: &Client) -> Control {
        Control::Continue
    }
    fn xrun(&mut self, _: &Client) -> Control {
        Control::Continue
    }
}

#[test]
fn every_new_thread_reaches_the_notification_handler() {
    let mut context = CallbackContext::new(open_test_client("threads", OPENED).0, Threads::default(), ());
    context.thread_init(1);
    assert_eq!(context.notification.0.load(Ordering::Relaxed), 1);
    assert_eq!(context.dispatch(2, &RawEvent::ThreadInit), None);
    assert_eq!(context.notification.0.load(Ordering::Relaxed), 2);
    assert_eq!(context.client.last_thread(CallbackKind::ThreadInit), Some(2));
}
