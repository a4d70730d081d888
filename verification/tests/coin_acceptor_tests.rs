use snackbot::coin_acceptor::{
    coin_acceptor_task, coin_acceptor_try_init, coin_routing, coin_type_bytes,
    coinacceptor_process_poll_events, decode_poll, parse_setup, set_coin_acceptor_enabled,
    CoinAcceptorDriverCommand, CoinAcceptorEvent, CoinAcceptorTask, CoinAction, CoinEvent,
    CoinInput, CoinInserted, CoinOutput, CoinRouting, CoinSetup, CoinState, InitStep, PollEvent,
    Publication,
};
use snackbot::mdb::BusError;

fn setup_reply(level: u8) -> Vec<u8> {
    let mut reply = vec![level, 0x18, 0x26, 5, 2, 0x00, 0x0F];
    reply.extend_from_slice(&[1, 2, 4, 10, 20, 40, 0, 0, 0, 0, 0, 0, 0, 0, 0, 255]);
    reply
}

fn ready_task(level: u8) -> CoinAcceptorTask {
    let mut task = CoinAcceptorTask::new();
    let _ = coin_acceptor_task(&mut task, CoinInput::Woke);
    let _ = coin_acceptor_task(&mut task, CoinInput::Reply(Ok(vec![])));
    let _ = coin_acceptor_task(&mut task, CoinInput::Reply(Ok(setup_reply(level))));
    let _ = coin_acceptor_task(&mut task, CoinInput::Reply(Ok(vec![0; 18])));
    if level >= 3 {
        let _ = coin_acceptor_task(&mut task, CoinInput::Reply(Ok(vec![0; 33])));
    }
    let _ = coin_acceptor_task(&mut task, CoinInput::Reply(Ok(vec![])));
    assert_eq!(task.state, CoinState::Ready);
    task
}

fn transact(command: u8, payload: Vec<u8>) -> CoinOutput {
    CoinOutput { publish: vec![], action: CoinAction::Transact { command, payload } }
}

fn sleep(ms: u32) -> CoinOutput {
    CoinOutput { publish: vec![], action: CoinAction::Sleep { ms } }
}

#[test]
fn status_bytes_map_to_events() {
    let expected = [
        (0x01, CoinAcceptorEvent::EscrowPressed),
        (0x02, CoinAcceptorEvent::PayoutBusy),
        (0x03, CoinAcceptorEvent::NoCredit),
        (0x04, CoinAcceptorEvent::DefectiveTubeSensor),
        (0x05, CoinAcceptorEvent::DoubleArrival),
        (0x06, CoinAcceptorEvent::AcceptorUnplugged),
        (0x07, CoinAcceptorEvent::TubeJam),
        (0x08, CoinAcceptorEvent::RomChecksumError),
        (0x09, CoinAcceptorEvent::CoinRoutingError),
        (0x0A, CoinAcceptorEvent::Busy),
        (0x0B, CoinAcceptorEvent::WasReset),
        (0x0C, CoinAcceptorEvent::CoinJam),
        (0x0D, CoinAcceptorEvent::InvalidEvent),
        (0x00, CoinAcceptorEvent::InvalidEvent),
        (0xFF, CoinAcceptorEvent::InvalidEvent),
    ];
    for (byte, event) in expected {
        assert_eq!(CoinAcceptorEvent::from(byte), event);
    }
}

#[test]
fn setup_reply_is_parsed() {
    let setup = parse_setup(&setup_reply(3)).unwrap();
    assert_eq!(setup.feature_level, 3);
    assert_eq!(setup.country, 0x1826);
    assert_eq!(setup.scaling_factor, 5);
    assert_eq!(setup.decimal_places, 2);
    assert_eq!(setup.coin_routing, 0x000F);
    assert_eq!(setup.credits, [1, 2, 4, 10, 20, 40, 0, 0, 0, 0, 0, 0, 0, 0, 0, 255]);
}

#[test]
fn short_setup_reply_is_refused_and_short_table_is_padded() {
    assert_eq!(parse_setup(&vec![]), None);
    assert_eq!(parse_setup(&vec![2, 0, 1, 5, 2, 0]), None);
    let setup = parse_setup(&vec![2, 0, 1, 5, 2, 0, 3, 7, 9]).unwrap();
    assert_eq!(setup.credits, [7, 9, 0, 0, 0, 0, 0, 0, 0, 0, 0, 0, 0, 0, 0, 0]);
    assert_eq!(parse_setup(&vec![0; 7]), Some(CoinSetup::empty()));
}

#[test]
fn routing_is_in_bits_five_and_four() {
    assert_eq!(coin_routing(0x40), CoinRouting::CashBox);
    assert_eq!(coin_routing(0x52), CoinRouting::Tube);
    assert_eq!(coin_routing(0x6F), CoinRouting::Unknown);
    assert_eq!(coin_routing(0x73), CoinRouting::Reject);
}

#[test]
fn poll_bytes_decode_to_status_and_coins() {
    let setup = parse_setup(&setup_reply(2)).unwrap();
    assert_eq!(decode_poll(&vec![], &setup), vec![]);
    assert_eq!(decode_poll(&vec![0x01], &setup), vec![PollEvent::Status(0x01)]);
    assert_eq!(
        decode_poll(&vec![0x53, 0x07], &setup),
        vec![PollEvent::Coin(CoinInserted { value: 50, routing: CoinRouting::Tube })]
    );
    assert_eq!(
        decode_poll(&vec![0x0B, 0x41, 0x05, 0x01, 0x7F, 0x00], &setup),
        vec![
            PollEvent::Status(0x0B),
            PollEvent::Coin(CoinInserted { value: 10, routing: CoinRouting::CashBox }),
            PollEvent::Status(0x01),
            PollEvent::Coin(CoinInserted { value: 1275, routing: CoinRouting::Reject }),
        ]
    );
}

#[test]
fn coin_record_without_count_is_dropped() {
    let setup = parse_setup(&setup_reply(2)).unwrap();
    assert_eq!(decode_poll(&vec![0x40], &setup), vec![]);
    assert_eq!(decode_poll(&vec![0x02, 0x45], &setup), vec![PollEvent::Status(0x02)]);
}

#[test]
fn largest_coin_value_fits() {
    let mut setup = CoinSetup::empty();
    setup.scaling_factor = 255;
    setup.credits[15] = 255;
    assert_eq!(
        decode_poll(&vec![0x4F, 0x00], &setup),
        vec![PollEvent::Coin(CoinInserted { value: 65025, routing: CoinRouting::CashBox })]
    );
}

#[test]
fn each_poll_item_is_published_once_in_order() {
    let events = vec![
        PollEvent::Status(0x01),
        PollEvent::Coin(CoinInserted { value: 100, routing: CoinRouting::Tube }),
        PollEvent::Status(0x0B),
    ];
    assert_eq!(
        coinacceptor_process_poll_events(&events),
        vec![
            Publication { seq: 0, event: CoinEvent::Status(CoinAcceptorEvent::EscrowPressed) },
            Publication {
                seq: 1,
                event: CoinEvent::Inserted(CoinInserted { value: 100, routing: CoinRouting::Tube }),
            },
            Publication { seq: 2, event: CoinEvent::Status(CoinAcceptorEvent::WasReset) },
        ]
    );
    assert_eq!(coinacceptor_process_poll_events(&vec![]), vec![]);
}

#[test]
fn coin_events_match_coin_records() {
    let setup = parse_setup(&setup_reply(2)).unwrap();
    let bytes = vec![0x40, 0x01, 0x02, 0x51, 0x02, 0x03, 0x42, 0x00, 0x44];
    let out = coinacceptor_process_poll_events(&decode_poll(&bytes, &setup));
    let coins = out.iter().filter(|p| matches!(p.event, CoinEvent::Inserted(_))).count();
    assert_eq!(coins, 3);
    assert_eq!(out.len(), 5);
}

#[test]
fn coin_type_payload_repeats_the_mask() {
    assert_eq!(coin_type_bytes(0xFFFF), vec![0xFF, 0xFF, 0xFF, 0xFF]);
    assert_eq!(coin_type_bytes(0x0000), vec![0, 0, 0, 0]);
    assert_eq!(coin_type_bytes(0x12AB), vec![0x12, 0xAB, 0x12, 0xAB]);
}

#[test]
fn level_two_acceptor_is_brought_up_in_order() {
    let mut task = CoinAcceptorTask::new();
    assert_eq!(task.state, CoinState::Absent);
    assert_eq!(coin_acceptor_task(&mut task, CoinInput::Woke), transact(0x00, vec![]));
    assert_eq!(task.state, CoinState::Initializing(InitStep::Reset));
    assert_eq!(
        coin_acceptor_task(&mut task, CoinInput::Reply(Ok(vec![]))),
        transact(0x01, vec![])
    );
    assert_eq!(
        coin_acceptor_task(&mut task, CoinInput::Reply(Ok(setup_reply(2)))),
        transact(0x02, vec![])
    );
    assert_eq!(task.setup.scaling_factor, 5);
    assert_eq!(
        coin_acceptor_task(&mut task, CoinInput::Reply(Ok(vec![0; 18]))),
        transact(0x04, vec![0, 0, 0, 0])
    );
    assert_eq!(task.state, CoinState::Initializing(InitStep::Disable));
    assert_eq!(coin_acceptor_task(&mut task, CoinInput::Reply(Ok(vec![]))), sleep(100));
    assert_eq!(task.state, CoinState::Ready);
}

#[test]
fn level_three_acceptor_is_asked_for_its_identification() {
    let mut task = CoinAcceptorTask::new();
    let _ = coin_acceptor_task(&mut task, CoinInput::Woke);
    let _ = coin_acceptor_task(&mut task, CoinInput::Reply(Ok(vec![])));
    let _ = coin_acceptor_task(&mut task, CoinInput::Reply(Ok(setup_reply(3))));
    assert_eq!(
        coin_acceptor_task(&mut task, CoinInput::Reply(Ok(vec![0; 18]))),
        transact(0x07, vec![0x00])
    );
    assert_eq!(task.state, CoinState::Initializing(InitStep::Identification));
    assert_eq!(
        coin_acceptor_task(&mut task, CoinInput::Reply(Ok(vec![0; 33]))),
        transact(0x04, vec![0, 0, 0, 0])
    );
}

#[test]
fn try_init_refuses_a_short_setup() {
    let mut task = CoinAcceptorTask::new();
    let out = coin_acceptor_try_init(&mut task, InitStep::Setup, Ok(vec![1, 2, 3]));
    assert_eq!(out, sleep(10_000));
    assert_eq!(task.state, CoinState::Absent);
    let out = coin_acceptor_try_init(&mut task, InitStep::Reset, Err(BusError::NoReply));
    assert_eq!(out, sleep(10_000));
}

#[test]
fn ready_acceptor_is_polled_and_its_events_published() {
    let mut task = ready_task(2);
    assert_eq!(coin_acceptor_task(&mut task, CoinInput::Woke), transact(0x03, vec![]));
    assert_eq!(task.state, CoinState::Polling);
    let out = coin_acceptor_task(&mut task, CoinInput::Reply(Ok(vec![0x42, 0x09, 0x01])));
    assert_eq!(
        out,
        CoinOutput {
            publish: vec![
                Publication {
                    seq: 0,
                    event: CoinEvent::Inserted(CoinInserted {
                        value: 20,
                        routing: CoinRouting::CashBox,
                    }),
                },
                Publication { seq: 1, event: CoinEvent::Status(CoinAcceptorEvent::EscrowPressed) },
            ],
            action: CoinAction::Sleep { ms: 100 },
        }
    );
    assert_eq!(task.state, CoinState::Ready);
}

#[test]
fn bus_error_drops_acceptor_for_ten_seconds() {
    for error in [BusError::Timeout, BusError::ChecksumMismatch, BusError::NoReply] {
        let mut task = ready_task(2);
        let _ = coin_acceptor_task(&mut task, CoinInput::Woke);
        assert_eq!(coin_acceptor_task(&mut task, CoinInput::Reply(Err(error))), sleep(10_000));
        assert_eq!(task.state, CoinState::Absent);
        assert_eq!(coin_acceptor_task(&mut task, CoinInput::Woke), transact(0x00, vec![]));
    }
}

#[test]
fn enable_command_is_applied_before_the_next_poll() {
    let mut task = ready_task(2);
    set_coin_acceptor_enabled(&mut task, true);
    assert_eq!(task.pending, Some(CoinAcceptorDriverCommand::Enable));
    assert_eq!(
        coin_acceptor_task(&mut task, CoinInput::Woke),
        transact(0x04, vec![0xFF, 0xFF, 0xFF, 0xFF])
    );
    assert_eq!(task.pending, None);
    assert_eq!(task.state, CoinState::Commanding);
    assert_eq!(
        coin_acceptor_task(&mut task, CoinInput::Reply(Ok(vec![]))),
        transact(0x03, vec![])
    );
    let _ = coin_acceptor_task(&mut task, CoinInput::Reply(Ok(vec![])));
    set_coin_acceptor_enabled(&mut task, true);
    set_coin_acceptor_enabled(&mut task, false);
    assert_eq!(
        coin_acceptor_task(&mut task, CoinInput::Woke),
        transact(0x04, vec![0, 0, 0, 0])
    );
}

#[test]
fn unexpected_input_drops_acceptor() {
    let mut task = ready_task(2);
    assert_eq!(coin_acceptor_task(&mut task, CoinInput::Reply(Ok(vec![]))), sleep(10_000));
    assert_eq!(task.state, CoinState::Absent);
    let mut task = ready_task(2);
    let _ = coin_acceptor_task(&mut task, CoinInput::Woke);
    assert_eq!(coin_acceptor_task(&mut task, CoinInput::Woke), sleep(10_000));
}
