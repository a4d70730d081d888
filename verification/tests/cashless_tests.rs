use snackbot::cashless_device::{
    decode_poll, CashlessDeviceCommand, CashlessDeviceEvent, CashlessDeviceResponse, Frame,
    PollEvent,
};
use snackbot::cashless_task::{
    cashless_device_task, Activity, CashlessAction, CashlessInput, CashlessOutput, CashlessTask,
    Session,
};
use snackbot::dispenser::DispenserAddress;
use snackbot::mdb::BusError;

fn at(row: char, col: char) -> DispenserAddress {
    DispenserAddress { row, col }
}

fn ok(bytes: &[u8]) -> CashlessInput {
    CashlessInput::Reply(Ok(bytes.to_vec()))
}

fn quiet(action: CashlessAction) -> CashlessOutput {
    CashlessOutput { publish: vec![], respond: None, action }
}

fn enabled_task() -> CashlessTask {
    let mut task = CashlessTask::new();
    let _ = cashless_device_task(&mut task, CashlessInput::Woke);
    for _ in 0..4 {
        let _ = cashless_device_task(&mut task, ok(&[]));
    }
    assert_eq!(task.session, Session::Enabled);
    assert_eq!(task.activity, Activity::Sleeping);
    task
}

/// One cycle: wake, poll reply, and acknowledgements until the task sleeps.
fn cycle(task: &mut CashlessTask, poll: &[u8]) -> (Vec<Frame>, CashlessOutput) {
    assert_eq!(
        cashless_device_task(task, CashlessInput::Woke),
        quiet(CashlessAction::Transact(Frame::Poll))
    );
    let first = cashless_device_task(task, ok(poll));
    let mut sent = vec![];
    let mut action = first.action;
    while let CashlessAction::Transact(frame) = action {
        sent.push(frame);
        let next = cashless_device_task(task, ok(&[]));
        assert_eq!(next.publish, vec![]);
        assert_eq!(next.respond, None);
        action = next.action;
    }
    assert_eq!(action, CashlessAction::Sleep { ms: 100 });
    (sent, first)
}

fn approved_task(amount: u16, item: DispenserAddress) -> CashlessTask {
    let mut task = enabled_task();
    task.command(CashlessDeviceCommand::StartTransaction(amount, item));
    let (sent, _) = cycle(&mut task, &[]);
    assert_eq!(sent, vec![Frame::VendRequest(amount, item)]);
    assert_eq!(task.session, Session::Starting);
    let (sent, out) = cycle(&mut task, &[0x05, (amount >> 8) as u8, amount as u8]);
    assert_eq!(sent, vec![]);
    assert_eq!(out.respond, Some(CashlessDeviceResponse::VendApproved(amount)));
    assert_eq!(task.session, Session::Approved);
    task
}

#[test]
fn frames_carry_command_and_payload() {
    let item = at('A', '0');
    let expected: Vec<(Frame, u8, Vec<u8>)> = vec![
        (Frame::Reset, 0x00, vec![]),
        (Frame::Setup, 0x01, vec![]),
        (Frame::Poll, 0x02, vec![]),
        (Frame::RequestId, 0x07, vec![0x00]),
        (Frame::Enable, 0x04, vec![0x01]),
        (Frame::Disable, 0x04, vec![0x00]),
        (Frame::SessionComplete, 0x04, vec![]),
        (Frame::VendRequest(100, item), 0x03, vec![0x00, 0x00, 0x64, 0x41, 0x30]),
        (Frame::VendRequest(0x1234, at('F', '3')), 0x03, vec![0x00, 0x12, 0x34, 0x46, 0x33]),
        (Frame::VendCancel, 0x03, vec![0x01]),
        (Frame::VendSuccess(item), 0x03, vec![0x02, 0x41, 0x30]),
        (Frame::VendFailure, 0x03, vec![0x04]),
        (Frame::CashSale(150, at('B', '2')), 0x03, vec![0x05, 0x00, 0x96, 0x42, 0x32]),
    ];
    for (frame, command, payload) in expected {
        assert_eq!(frame.command(), command);
        assert_eq!(frame.payload(), payload);
    }
}

#[test]
fn poll_bytes_decode_against_the_opcode_table() {
    assert_eq!(decode_poll(&vec![]), vec![]);
    assert_eq!(
        decode_poll(&vec![0x03, 0x01, 0xF4, 0x04, 0x05, 0x00, 0x64, 0x06, 0x07, 0x08, 0x0A, 0x1C, 0x0B]),
        vec![
            PollEvent::BeginSession(500),
            PollEvent::SessionCancelRequest,
            PollEvent::VendApproved(100),
            PollEvent::VendDenied,
            PollEvent::EndSession,
            PollEvent::Cancelled,
            PollEvent::Malfunction(0x1C),
            PollEvent::CmdOutOfSequence,
        ]
    );
}

#[test]
fn decoding_stops_at_unknown_opcode_and_at_short_item() {
    assert_eq!(decode_poll(&vec![0x00]), vec![]);
    assert_eq!(decode_poll(&vec![0x06, 0x01, 0x06]), vec![PollEvent::VendDenied]);
    assert_eq!(decode_poll(&vec![0x07, 0x05, 0x00]), vec![PollEvent::EndSession]);
    assert_eq!(decode_poll(&vec![0x0A]), vec![]);
}

#[test]
fn responses_become_host_events() {
    assert_eq!(CashlessDeviceResponse::Available.to_event(), CashlessDeviceEvent::Available);
    assert_eq!(CashlessDeviceResponse::Unavailable.to_event(), CashlessDeviceEvent::Unavailable);
    assert_eq!(
        CashlessDeviceResponse::VendApproved(7).to_event(),
        CashlessDeviceEvent::VendApproved(7)
    );
    assert_eq!(CashlessDeviceResponse::VendDenied.to_event(), CashlessDeviceEvent::VendDenied);
}

#[test]
fn reader_is_brought_up_in_four_frames() {
    let mut task = CashlessTask::new();
    assert_eq!(task.session, Session::Absent);
    assert_eq!(
        cashless_device_task(&mut task, CashlessInput::Woke),
        quiet(CashlessAction::Transact(Frame::Reset))
    );
    assert_eq!(task.session, Session::Initializing);
    assert_eq!(
        cashless_device_task(&mut task, ok(&[])),
        quiet(CashlessAction::Transact(Frame::Setup))
    );
    assert_eq!(
        cashless_device_task(&mut task, ok(&[0x01, 0x02])),
        quiet(CashlessAction::Transact(Frame::RequestId))
    );
    assert_eq!(
        cashless_device_task(&mut task, ok(&[0x09])),
        quiet(CashlessAction::Transact(Frame::Enable))
    );
    assert_eq!(task.session, Session::Idle);
    assert_eq!(
        cashless_device_task(&mut task, ok(&[])),
        quiet(CashlessAction::Sleep { ms: 100 })
    );
    assert_eq!(task.session, Session::Enabled);
    assert_eq!(task.queue, vec![]);
}

#[test]
fn quiet_poll_changes_nothing() {
    let mut task = enabled_task();
    let before = task.clone();
    let (sent, out) = cycle(&mut task, &[]);
    assert_eq!(sent, vec![]);
    assert_eq!(out, quiet(CashlessAction::Sleep { ms: 100 }));
    assert_eq!(task, before);
}

#[test]
fn happy_path_publishes_approval_then_end_of_session() {
    let item = at('A', '0');
    let mut published = vec![];
    let mut task = enabled_task();
    task.command(CashlessDeviceCommand::StartTransaction(100, item));
    let (sent, out) = cycle(&mut task, &[]);
    published.extend(out.publish);
    assert_eq!(sent, vec![Frame::VendRequest(100, item)]);
    let (_, out) = cycle(&mut task, &[0x05, 0x00, 0x64]);
    assert_eq!(out.respond, Some(CashlessDeviceResponse::VendApproved(100)));
    published.extend(out.publish);
    task.command(CashlessDeviceCommand::VendSuccess(item));
    let (sent, out) = cycle(&mut task, &[]);
    published.extend(out.publish);
    assert_eq!(sent, vec![Frame::VendSuccess(item), Frame::SessionComplete]);
    assert_eq!(task.session, Session::Enabled);
    let (sent, out) = cycle(&mut task, &[0x07]);
    published.extend(out.publish);
    assert_eq!(sent, vec![]);
    assert_eq!(out.respond, None);
    assert_eq!(published, vec![PollEvent::VendApproved(100), PollEvent::EndSession]);
    assert_eq!(task.session, Session::Enabled);
}

#[test]
fn settling_passes_through_its_state() {
    let item = at('B', '2');
    let mut task = approved_task(150, item);
    task.command(CashlessDeviceCommand::VendSuccess(item));
    let _ = cashless_device_task(&mut task, CashlessInput::Woke);
    let out = cashless_device_task(&mut task, ok(&[]));
    assert_eq!(out.action, CashlessAction::Transact(Frame::VendSuccess(item)));
    assert_eq!(task.session, Session::Settling);
    assert_eq!(task.queue, vec![Frame::VendSuccess(item), Frame::SessionComplete]);
    let out = cashless_device_task(&mut task, ok(&[]));
    assert_eq!(out.action, CashlessAction::Transact(Frame::SessionComplete));
    assert_eq!(task.session, Session::Settling);
    let out = cashless_device_task(&mut task, ok(&[]));
    assert_eq!(out.action, CashlessAction::Sleep { ms: 100 });
    assert_eq!(task.session, Session::Enabled);
}

#[test]
fn failed_vend_is_refunded() {
    let mut task = approved_task(150, at('C', '3'));
    task.command(CashlessDeviceCommand::VendFailed);
    let _ = cashless_device_task(&mut task, CashlessInput::Woke);
    let out = cashless_device_task(&mut task, ok(&[]));
    assert_eq!(out.action, CashlessAction::Transact(Frame::VendFailure));
    assert_eq!(task.session, Session::Refunding);
    let _ = cashless_device_task(&mut task, ok(&[]));
    let _ = cashless_device_task(&mut task, ok(&[]));
    assert_eq!(task.session, Session::Enabled);
}

#[test]
fn denial_answers_and_completes_the_session() {
    let mut task = enabled_task();
    task.command(CashlessDeviceCommand::StartTransaction(90, at('A', '2')));
    let _ = cycle(&mut task, &[]);
    let (sent, out) = cycle(&mut task, &[0x06]);
    assert_eq!(out.respond, Some(CashlessDeviceResponse::VendDenied));
    assert_eq!(out.publish, vec![PollEvent::VendDenied]);
    assert_eq!(sent, vec![Frame::SessionComplete]);
    assert_eq!(task.session, Session::Enabled);
}

#[test]
fn cancel_from_any_open_vend_returns_to_enabled() {
    for approved in [false, true] {
        let item = at('B', '2');
        let mut task = if approved {
            approved_task(150, item)
        } else {
            let mut task = enabled_task();
            task.command(CashlessDeviceCommand::StartTransaction(150, item));
            let _ = cycle(&mut task, &[]);
            task
        };
        task.command(CashlessDeviceCommand::CancelTransaction);
        let (sent, out) = cycle(&mut task, &[]);
        assert_eq!(sent, vec![Frame::VendCancel]);
        assert_eq!(out.respond, None);
        assert_eq!(task.session, Session::Cancelling);
        let (sent, out) = cycle(&mut task, &[0x06]);
        assert_eq!(sent, vec![Frame::SessionComplete]);
        assert_eq!(out.respond, Some(CashlessDeviceResponse::VendDenied));
        assert_eq!(task.session, Session::Enabled);
    }
}

#[test]
fn cancel_is_sent_in_every_state_and_idempotent() {
    let mut task = enabled_task();
    task.command(CashlessDeviceCommand::CancelTransaction);
    let (sent, out) = cycle(&mut task, &[]);
    assert_eq!(sent, vec![Frame::VendCancel]);
    assert_eq!(out.respond, None);
    assert_eq!(task.session, Session::Enabled);
    task.command(CashlessDeviceCommand::Disable);
    let _ = cycle(&mut task, &[]);
    task.command(CashlessDeviceCommand::CancelTransaction);
    let (sent, _) = cycle(&mut task, &[]);
    assert_eq!(sent, vec![Frame::VendCancel]);
    assert_eq!(task.session, Session::Idle);

    let mut task = enabled_task();
    task.command(CashlessDeviceCommand::StartTransaction(100, at('A', '0')));
    let _ = cycle(&mut task, &[]);
    task.command(CashlessDeviceCommand::CancelTransaction);
    let (sent, _) = cycle(&mut task, &[]);
    assert_eq!(sent, vec![Frame::VendCancel]);
    assert_eq!(task.session, Session::Cancelling);
    task.command(CashlessDeviceCommand::CancelTransaction);
    let (sent, _) = cycle(&mut task, &[]);
    assert_eq!(sent, vec![Frame::VendCancel]);
    assert_eq!(task.session, Session::Cancelling);
    let (sent, out) = cycle(&mut task, &[0x06]);
    assert_eq!(sent, vec![Frame::SessionComplete]);
    assert_eq!(out.respond, Some(CashlessDeviceResponse::VendDenied));
    assert_eq!(task.session, Session::Enabled);
}

#[test]
fn speculative_session_is_cancelled_before_a_pending_command() {
    let mut task = enabled_task();
    task.command(CashlessDeviceCommand::StartTransaction(100, at('A', '0')));
    let (sent, out) = cycle(&mut task, &[0x03, 0x13, 0x88]);
    assert_eq!(sent, vec![Frame::VendCancel, Frame::VendRequest(100, at('A', '0'))]);
    assert_eq!(out.publish, vec![]);
    assert_eq!(out.respond, None);
    assert_eq!(task.session, Session::Starting);
}

#[test]
fn speculative_session_is_cancelled_before_a_reset() {
    let mut task = enabled_task();
    task.command(CashlessDeviceCommand::Reset);
    let (sent, out) = cycle(&mut task, &[0x03, 0x13, 0x88]);
    assert_eq!(
        sent,
        vec![Frame::VendCancel, Frame::Reset, Frame::Setup, Frame::RequestId, Frame::Enable]
    );
    assert_eq!(out.publish, vec![]);
    assert_eq!(out.respond, None);
    assert_eq!(task.pending, None);
    assert_eq!(task.session, Session::Enabled);
}

#[test]
fn end_of_session_goes_out_before_a_reset() {
    let mut task = approved_task(100, at('A', '0'));
    task.command(CashlessDeviceCommand::Reset);
    let (sent, out) = cycle(&mut task, &[0x06]);
    assert_eq!(
        sent,
        vec![Frame::SessionComplete, Frame::Reset, Frame::Setup, Frame::RequestId, Frame::Enable]
    );
    assert_eq!(out.respond, Some(CashlessDeviceResponse::VendDenied));
    assert_eq!(task.session, Session::Enabled);
}

#[test]
fn request_in_the_cycle_of_a_denial_opens_a_new_session() {
    let first = at('A', '0');
    let second = at('B', '2');
    let mut task = enabled_task();
    task.command(CashlessDeviceCommand::StartTransaction(90, first));
    let _ = cycle(&mut task, &[]);
    task.command(CashlessDeviceCommand::StartTransaction(100, second));
    let (sent, out) = cycle(&mut task, &[0x06]);
    assert_eq!(sent, vec![Frame::SessionComplete, Frame::VendRequest(100, second)]);
    assert_eq!(out.respond, Some(CashlessDeviceResponse::VendDenied));
    assert_eq!(task.session, Session::Starting);
    let (_, out) = cycle(&mut task, &[0x05, 0x00, 0x64]);
    assert_eq!(out.respond, Some(CashlessDeviceResponse::VendApproved(100)));
    assert_eq!(task.session, Session::Approved);
    task.command(CashlessDeviceCommand::VendSuccess(second));
    let (sent, _) = cycle(&mut task, &[]);
    assert_eq!(sent, vec![Frame::VendSuccess(second), Frame::SessionComplete]);
    assert_eq!(task.session, Session::Enabled);
}

#[test]
fn speculative_session_is_cancelled_and_not_published() {
    let mut task = enabled_task();
    let (sent, out) = cycle(&mut task, &[0x03, 0x13, 0x88]);
    assert_eq!(sent, vec![Frame::VendCancel]);
    assert_eq!(out.publish, vec![]);
    assert_eq!(out.respond, None);
    assert_eq!(task.session, Session::Enabled);
}

#[test]
fn reader_giving_up_ends_the_session() {
    for opcode in [0x04u8, 0x08] {
        let mut task = approved_task(100, at('A', '0'));
        let _ = cashless_device_task(&mut task, CashlessInput::Woke);
        let out = cashless_device_task(&mut task, ok(&[opcode]));
        assert_eq!(out.respond, None);
        assert_eq!(out.action, CashlessAction::Transact(Frame::SessionComplete));
        assert_eq!(task.session, Session::Ending);
        let _ = cashless_device_task(&mut task, ok(&[]));
        assert_eq!(task.session, Session::Enabled);
    }
}

#[test]
fn settlement_is_sent_in_every_state() {
    let item = at('A', '0');
    let mut task = enabled_task();
    task.command(CashlessDeviceCommand::VendSuccess(item));
    let (sent, _) = cycle(&mut task, &[]);
    assert_eq!(sent, vec![Frame::VendSuccess(item), Frame::SessionComplete]);
    assert_eq!(task.session, Session::Enabled);
    task.command(CashlessDeviceCommand::VendFailed);
    let (sent, _) = cycle(&mut task, &[]);
    assert_eq!(sent, vec![Frame::VendFailure, Frame::SessionComplete]);
    assert_eq!(task.session, Session::Enabled);
    task.command(CashlessDeviceCommand::StartTransaction(100, item));
    let _ = cycle(&mut task, &[]);
    task.command(CashlessDeviceCommand::VendSuccess(item));
    let (sent, _) = cycle(&mut task, &[]);
    assert_eq!(sent, vec![Frame::VendSuccess(item), Frame::SessionComplete]);
}

#[test]
fn enable_disable_and_cash_sale() {
    let mut task = enabled_task();
    task.command(CashlessDeviceCommand::Disable);
    let (sent, _) = cycle(&mut task, &[]);
    assert_eq!(sent, vec![Frame::Disable]);
    assert_eq!(task.session, Session::Idle);
    task.command(CashlessDeviceCommand::RecordCashTransaction(90, at('A', '0')));
    let (sent, _) = cycle(&mut task, &[]);
    assert_eq!(sent, vec![Frame::CashSale(90, at('A', '0'))]);
    assert_eq!(task.session, Session::Idle);
    task.command(CashlessDeviceCommand::Enable);
    let (sent, _) = cycle(&mut task, &[]);
    assert_eq!(sent, vec![Frame::Enable]);
    assert_eq!(task.session, Session::Enabled);
}

#[test]
fn later_command_replaces_pending_one() {
    let mut task = enabled_task();
    task.command(CashlessDeviceCommand::Disable);
    task.command(CashlessDeviceCommand::StartTransaction(100, at('A', '0')));
    let (sent, _) = cycle(&mut task, &[]);
    assert_eq!(sent, vec![Frame::VendRequest(100, at('A', '0'))]);
}

#[test]
fn malfunction_loses_reader_and_reinit_follows_at_once() {
    let cases = [
        (vec![0x0A, 0x01], vec![PollEvent::Malfunction(0x01)]),
        (vec![0x0B], vec![PollEvent::CmdOutOfSequence]),
        (vec![0x07, 0x0B, 0x06], vec![PollEvent::EndSession, PollEvent::CmdOutOfSequence]),
    ];
    for (poll, published) in cases {
        let mut task = approved_task(100, at('A', '0'));
        task.command(CashlessDeviceCommand::VendSuccess(at('A', '0')));
        let _ = cashless_device_task(&mut task, CashlessInput::Woke);
        let out = cashless_device_task(&mut task, CashlessInput::Reply(Ok(poll.clone())));
        assert_eq!(out.action, CashlessAction::Sleep { ms: 0 });
        assert_eq!(out.respond, None);
        assert_eq!(out.publish, published);
        assert_eq!(task.session, Session::Absent);
        assert_eq!(task.queue, vec![]);
        assert_eq!(
            cashless_device_task(&mut task, CashlessInput::Woke),
            quiet(CashlessAction::Transact(Frame::Reset))
        );
    }
}

#[test]
fn fault_lets_queued_frames_out_first() {
    let mut task = enabled_task();
    task.command(CashlessDeviceCommand::Enable);
    let _ = cashless_device_task(&mut task, CashlessInput::Woke);
    let out = cashless_device_task(&mut task, ok(&[0x03, 0x00, 0x01, 0x0B, 0x06]));
    assert_eq!(out.publish, vec![PollEvent::CmdOutOfSequence]);
    assert_eq!(out.action, CashlessAction::Transact(Frame::VendCancel));
    assert_eq!(task.session, Session::Absent);
    assert_eq!(task.queue, vec![Frame::VendCancel]);
    assert_eq!(task.pending, Some(CashlessDeviceCommand::Enable));
    let out = cashless_device_task(&mut task, ok(&[]));
    assert_eq!(out, quiet(CashlessAction::Sleep { ms: 0 }));
    assert_eq!(
        cashless_device_task(&mut task, CashlessInput::Woke),
        quiet(CashlessAction::Transact(Frame::Reset))
    );
}

#[test]
fn bus_error_loses_reader_for_ten_seconds() {
    for error in [BusError::Timeout, BusError::ChecksumMismatch, BusError::NoReply] {
        let mut task = enabled_task();
        let _ = cashless_device_task(&mut task, CashlessInput::Woke);
        let out = cashless_device_task(&mut task, CashlessInput::Reply(Err(error)));
        assert_eq!(out, quiet(CashlessAction::Sleep { ms: 1000 }));
        assert_eq!(task.session, Session::Absent);
        let mut slept = 1000;
        loop {
            match cashless_device_task(&mut task, CashlessInput::Woke).action {
                CashlessAction::Sleep { ms } => slept += ms,
                CashlessAction::Transact(frame) => {
                    assert_eq!(frame, Frame::Reset);
                    break;
                }
            }
        }
        assert_eq!(slept, 10_000);
        assert_eq!(task.session, Session::Initializing);
    }
}

#[test]
fn command_pending_at_the_loss_is_answered_at_once() {
    let mut task = enabled_task();
    let _ = cashless_device_task(&mut task, CashlessInput::Woke);
    task.command(CashlessDeviceCommand::StartTransaction(100, at('A', '0')));
    let out = cashless_device_task(&mut task, CashlessInput::Reply(Err(BusError::NoReply)));
    assert_eq!(
        out,
        CashlessOutput {
            publish: vec![],
            respond: Some(CashlessDeviceResponse::Unavailable),
            action: CashlessAction::Sleep { ms: 1000 },
        }
    );
    assert_eq!(task.pending, None);
}

#[test]
fn absent_reader_answers_unavailable() {
    let mut task = CashlessTask::new();
    for _ in 0..3 {
        assert_eq!(
            cashless_device_task(&mut task, CashlessInput::Woke),
            quiet(CashlessAction::Transact(Frame::Reset))
        );
        let out = cashless_device_task(&mut task, CashlessInput::Reply(Err(BusError::NoReply)));
        assert_eq!(out, quiet(CashlessAction::Sleep { ms: 1000 }));
        for _ in 0..9 {
            assert_eq!(
                cashless_device_task(&mut task, CashlessInput::Woke),
                quiet(CashlessAction::Sleep { ms: 1000 })
            );
        }
    }
    let _ = cashless_device_task(&mut task, CashlessInput::Woke);
    let _ = cashless_device_task(&mut task, CashlessInput::Reply(Err(BusError::NoReply)));
    task.command(CashlessDeviceCommand::StartTransaction(100, at('A', '0')));
    let out = cashless_device_task(&mut task, CashlessInput::Woke);
    assert_eq!(
        out,
        CashlessOutput {
            publish: vec![],
            respond: Some(CashlessDeviceResponse::Unavailable),
            action: CashlessAction::Sleep { ms: 1000 },
        }
    );
    assert_eq!(task.pending, None);
    assert_eq!(task.session, Session::Absent);
}

#[test]
fn reset_command_brings_reader_up_again() {
    let mut task = enabled_task();
    task.command(CashlessDeviceCommand::Reset);
    let _ = cashless_device_task(&mut task, CashlessInput::Woke);
    let out = cashless_device_task(&mut task, ok(&[]));
    assert_eq!(out, quiet(CashlessAction::Transact(Frame::Reset)));
    assert_eq!(task.session, Session::Initializing);
    assert_eq!(task.pending, None);
}

#[test]
fn unexpected_input_loses_reader() {
    let mut task = enabled_task();
    let out = cashless_device_task(&mut task, ok(&[]));
    assert_eq!(out, quiet(CashlessAction::Sleep { ms: 1000 }));
    assert_eq!(task.session, Session::Absent);
    assert_eq!(task.absent_checks, 9);
}
