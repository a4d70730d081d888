use snackbot::cashless_device::{CashlessDeviceCommand, CashlessDeviceEvent};
use snackbot::coin_acceptor::{CoinAcceptorEvent, CoinInserted, CoinRouting};
use snackbot::dispenser::{DispenseError, DispenserAddress, VendCommand, VendError};
use snackbot::host::{
    forward_response, keypress_listener, App, AppAction, AppState, Event, Page, VmcCommand,
    VmcResponse,
};
use snackbot::motor_driver::MotorDriver;
use snackbot::stock_info::{get_stock_item, StockItem};

fn keys(app: &mut App, text: &str) -> Vec<AppAction> {
    let mut last = vec![];
    for key in text.chars() {
        last = app.handle_event(Event::Keypress(key));
    }
    last
}

fn cashless(command: CashlessDeviceCommand) -> AppAction {
    AppAction::Vmc(VmcCommand::CashlessCmd(command))
}

fn idle_screen() -> Vec<AppAction> {
    vec![AppAction::LcdIdle, AppAction::Show(Page::MakeSelection), AppAction::LcdIdle]
}

fn paying(row: char, col: char) -> App {
    let mut app = App::new();
    let _ = keys(&mut app, &format!("{}{}\n", row, col));
    assert_eq!(app.state, AppState::AwaitingPayment);
    app
}

#[test]
fn stock_items_are_found() {
    assert_eq!(
        get_stock_item('A', '0'),
        Some(StockItem {
            row: 'A',
            col: '0',
            name: String::from("Scampi Fries"),
            image_url: String::from("images/scampi.jpg"),
            price: 90,
        })
    );
    let expected = [
        ('A', '2', "Bacon Fries", "images/baconfries.jpg", 90),
        ('A', '4', "Crinklies", "images/crinklies.jpg", 100),
        ('A', '6', "Monster Munch", "images/monstermunch.jpg", 100),
        ('B', '0', "Tangy Cheese Doritos", "images/tangycheesedoritos.jpg", 100),
        ('B', '2', "Chilli Doritos", "images/chilliheatwavedoritos.jpg", 100),
        ('B', '4', "Soba Noodles", "./doritos.jpg", 150),
        ('B', '6', "Super Noodles", "./doritos.jpg", 130),
    ];
    for (row, col, name, image_url, price) in expected {
        let item = get_stock_item(row, col).unwrap();
        assert_eq!((item.row, item.col), (row, col));
        assert_eq!(item.name, name);
        assert_eq!(item.image_url, image_url);
        assert_eq!(item.price, price);
    }
}

#[test]
fn unstocked_addresses_have_no_item() {
    for (row, col) in [('A', '1'), ('C', '0'), ('E', '0'), ('F', '3'), ('G', '0'), ('a', '0'), ('B', '8')] {
        assert_eq!(get_stock_item(row, col), None);
    }
    let mut stocked = 0;
    for a in MotorDriver::valid_addresses() {
        if get_stock_item(a.row, a.col).is_some() {
            stocked += 1;
        }
    }
    assert_eq!(stocked, 8);
}

#[test]
fn key_values_map_to_keypad_characters() {
    assert_eq!(keypress_listener(0xff1b), Some('\x1B'));
    assert_eq!(keypress_listener(0xff0d), Some('\n'));
    assert_eq!(keypress_listener(0x61), Some('A'));
    assert_eq!(keypress_listener(0x68), Some('H'));
    assert_eq!(keypress_listener(0x69), None);
    assert_eq!(keypress_listener(0x30), Some('0'));
    assert_eq!(keypress_listener(0x39), Some('9'));
    assert_eq!(keypress_listener(0x41), None);
    assert_eq!(keypress_listener(0x20), None);
}

#[test]
fn controller_messages_become_events() {
    let coin = CoinInserted { value: 50, routing: CoinRouting::Tube };
    assert_eq!(forward_response(VmcResponse::CoinInsertedEvent(coin)), Some(Event::CoinInserted(50)));
    assert_eq!(
        forward_response(VmcResponse::CoinAcceptorEvent(CoinAcceptorEvent::EscrowPressed)),
        Some(Event::EscrowPressed)
    );
    assert_eq!(forward_response(VmcResponse::CoinAcceptorEvent(CoinAcceptorEvent::TubeJam)), None);
    assert_eq!(
        forward_response(VmcResponse::CashlessEvent(CashlessDeviceEvent::VendDenied)),
        Some(Event::CashlessEvent(CashlessDeviceEvent::VendDenied))
    );
    assert_eq!(forward_response(VmcResponse::DispenseSuccessEvent), Some(Event::VendSuccess));
    assert_eq!(forward_response(VmcResponse::DispenseFailedEvent), Some(Event::VendFailed));
    assert_eq!(forward_response(VmcResponse::VendResponse(Ok(()))), None);
    assert_eq!(forward_response(VmcResponse::VendResponse(Err(VendError::CommsFault))), None);
}

#[test]
fn selection_takes_a_row_and_a_column() {
    let mut app = App::new();
    assert_eq!(keys(&mut app, "A"), idle_screen());
    assert_eq!((app.row_selected, app.col_selected), (Some('A'), None));
    assert_eq!(app.state, AppState::Idle);
    let shown = keys(&mut app, "0");
    assert_eq!(app.state, AppState::AwaitingConfirmation);
    assert_eq!(
        shown,
        vec![
            AppAction::ConfirmItem { row: 'A', col: '0', price: 90 },
            AppAction::Show(Page::ConfirmItem),
        ]
    );
}

#[test]
fn second_key_of_a_kind_drops_the_other() {
    let mut app = App::new();
    let _ = keys(&mut app, "4");
    assert_eq!((app.row_selected, app.col_selected), (None, Some('4')));
    let _ = keys(&mut app, "6");
    assert_eq!((app.row_selected, app.col_selected), (None, Some('6')));
    let mut app = App::new();
    let _ = keys(&mut app, "AB");
    assert_eq!((app.row_selected, app.col_selected), (Some('B'), None));
    let _ = keys(&mut app, "\x1B");
    assert_eq!((app.row_selected, app.col_selected), (None, None));
    let _ = keys(&mut app, "\n");
    assert_eq!(app.state, AppState::Idle);
}

#[test]
fn unstocked_selection_asks_to_choose_again() {
    let mut app = App::new();
    let shown = keys(&mut app, "C1");
    assert_eq!(app.state, AppState::MakeAnotherSelection);
    assert_eq!((app.row_selected, app.col_selected), (None, None));
    assert_eq!(
        shown,
        vec![AppAction::Show(Page::MakeAnotherSelection), AppAction::ReturnToIdleAfter { seconds: 2 }]
    );
    assert_eq!(app.handle_event(Event::ChangeState(AppState::Idle)), idle_screen());
    assert_eq!(app.state, AppState::Idle);
}

#[test]
fn confirming_starts_the_transaction() {
    let mut app = App::new();
    let shown = keys(&mut app, "B4\n");
    assert_eq!(app.state, AppState::AwaitingPayment);
    assert_eq!(app.amount_due, 150);
    assert_eq!(
        shown,
        vec![
            cashless(CashlessDeviceCommand::StartTransaction(
                150,
                DispenserAddress { row: 'B', col: '4' }
            )),
            AppAction::LcdPay { balance_due: 150 },
            AppAction::Show(Page::MakePayment),
        ]
    );
}

#[test]
fn escape_at_confirmation_goes_back() {
    let mut app = App::new();
    let shown = keys(&mut app, "B4\x1B");
    assert_eq!(app.state, AppState::Idle);
    assert_eq!((app.row_selected, app.col_selected), (None, None));
    assert_eq!(shown, idle_screen());
    let mut app = App::new();
    let _ = keys(&mut app, "B4x");
    assert_eq!(app.state, AppState::AwaitingConfirmation);
}

#[test]
fn escrow_during_payment_cancels() {
    let mut app = paying('A', '0');
    let actions = app.handle_event(Event::EscrowPressed);
    assert_eq!(app.state, AppState::Idle);
    assert_eq!(app.amount_due, 0);
    assert_eq!((app.row_selected, app.col_selected), (None, None));
    let mut expected = vec![
        AppAction::Vmc(VmcCommand::SetCoinAcceptorEnabled(false)),
        cashless(CashlessDeviceCommand::CancelTransaction),
    ];
    expected.extend(idle_screen());
    assert_eq!(actions, expected);
}

#[test]
fn escape_during_payment_cancels() {
    let mut app = paying('A', '0');
    let actions = keys(&mut app, "\x1B");
    assert_eq!(app.state, AppState::Idle);
    assert_eq!(app.amount_due, 90);
    assert_eq!(actions[0], AppAction::Vmc(VmcCommand::SetCoinAcceptorEnabled(false)));
    assert_eq!(actions[1], cashless(CashlessDeviceCommand::CancelTransaction));
    let mut app = paying('A', '0');
    let actions = keys(&mut app, "7");
    assert_eq!(app.state, AppState::AwaitingPayment);
    assert_eq!(actions, vec![AppAction::LcdPay { balance_due: 90 }, AppAction::Show(Page::MakePayment)]);
}

#[test]
fn approval_of_the_amount_due_starts_the_vend() {
    let mut app = paying('B', '6');
    let actions = app.handle_event(Event::CashlessEvent(CashlessDeviceEvent::VendApproved(130)));
    assert_eq!(app.state, AppState::Vending);
    assert_eq!(
        actions,
        vec![AppAction::Vmc(VmcCommand::VendItem('B', '6')), AppAction::Show(Page::VendInProgress)]
    );
}

#[test]
fn approval_of_another_amount_is_cancelled() {
    let mut app = paying('B', '6');
    let actions = app.handle_event(Event::CashlessEvent(CashlessDeviceEvent::VendApproved(100)));
    assert_eq!(app.state, AppState::AwaitingPayment);
    assert_eq!(actions[0], cashless(CashlessDeviceCommand::CancelTransaction));
    let actions = app.handle_event(Event::CashlessEvent(CashlessDeviceEvent::VendDenied));
    assert_eq!(app.state, AppState::AwaitingPayment);
    assert_eq!(actions.len(), 2);
}

#[test]
fn vend_results_settle_with_the_reader() {
    let mut app = paying('A', '2');
    let _ = app.handle_event(Event::CashlessEvent(CashlessDeviceEvent::VendApproved(90)));
    let mut failed = app;
    let actions = app.handle_event(Event::VendSuccess);
    assert_eq!(app.state, AppState::VendSuccess);
    assert_eq!(
        actions,
        vec![
            cashless(CashlessDeviceCommand::VendSuccess(DispenserAddress { row: 'A', col: '2' })),
            AppAction::Show(Page::VendOk),
            AppAction::ReturnToIdleAfter { seconds: 2 },
        ]
    );
    let actions = failed.handle_event(Event::VendFailed);
    assert_eq!(failed.state, AppState::VendFailed);
    assert_eq!(
        actions,
        vec![
            cashless(CashlessDeviceCommand::VendFailed),
            AppAction::Show(Page::VendFailed),
            AppAction::ReturnToIdleAfter { seconds: 2 },
        ]
    );
}

#[test]
fn thirty_one_quiet_seconds_return_to_idle() {
    let mut app = paying('A', '0');
    for second in 0..30 {
        assert_eq!(app.seconds_since_last_event, second);
        assert_eq!(app.handle_event(Event::TimeoutPollEvent), vec![]);
        assert_eq!(app.state, AppState::AwaitingPayment);
    }
    assert_eq!(app.handle_event(Event::TimeoutPollEvent), idle_screen());
    assert_eq!(app.state, AppState::Idle);
    assert_eq!(app.seconds_since_last_event, 0);
}

#[test]
fn any_event_restarts_the_timeout() {
    let mut app = paying('A', '0');
    for _ in 0..20 {
        let _ = app.handle_event(Event::TimeoutPollEvent);
    }
    let _ = app.handle_event(Event::CoinInserted(10));
    assert_eq!(app.seconds_since_last_event, 0);
    assert_eq!(app.state, AppState::AwaitingPayment);
    assert_eq!(app.credit, 0);
}

#[test]
fn idle_ignores_the_clock_and_other_events() {
    let mut app = App::new();
    for _ in 0..40 {
        assert_eq!(app.handle_event(Event::TimeoutPollEvent), vec![]);
    }
    assert_eq!(app, App::new());
    assert_eq!(app.handle_event(Event::EscrowPressed), idle_screen());
    assert_eq!(app.handle_event(Event::VendSuccess), idle_screen());
    assert_eq!(app, App::new());
}

#[test]
fn host_commands_carry_vend_requests() {
    let request = VendCommand { row: b'A', col: b'0', price: 90 };
    assert_eq!(request.address(), DispenserAddress { row: 'A', col: '0' });
    assert_ne!(VmcCommand::Vend(request), VmcCommand::ForceDispense(request));
    assert_ne!(VmcCommand::Vend(request), VmcCommand::ItemAvailable(request));
}

#[test]
fn dispenser_errors_keep_their_name_as_vend_errors() {
    let pairs = [
        (DispenseError::MotorNotPresent, VendError::MotorNotPresent),
        (DispenseError::MotorNotHome, VendError::MotorNotHome),
        (DispenseError::MotorStuckHome, VendError::MotorStuckHome),
        (DispenseError::MotorStuckNotHome, VendError::MotorStuckNotHome),
        (DispenseError::OneOrNoCansLeft, VendError::OneOrNoCansLeft),
        (DispenseError::NoDropDetected, VendError::NoDropDetected),
        (DispenseError::InvalidAddress, VendError::InvalidAddress),
    ];
    for (from, to) in pairs {
        assert_eq!(VendError::from(from), to);
    }
}

#[test]
fn coherence_needs_a_selection_and_enough_due() {
    let app = App::new();
    assert!(app.is_wf());
    assert!(!App { state: AppState::Vending, ..app }.is_wf());
    assert!(App { state: AppState::Vending, row_selected: Some('A'), col_selected: Some('0'), ..app }
        .is_wf());
    let paying = paying('B', '4');
    assert!(paying.is_wf());
    assert!(App { credit: 150, ..paying }.is_wf());
    assert!(!App { credit: 151, ..paying }.is_wf());
    assert!(App { credit: 151, state: AppState::Idle, ..paying }.is_wf());
    assert!(App { seconds_since_last_event: 40_000, ..paying }.is_wf());
}

#[test]
fn events_are_accepted_where_they_can_be_taken() {
    let app = App::new();
    assert!(app.accepts_event(Event::ChangeState(AppState::Idle)));
    assert!(app.accepts_event(Event::ChangeState(AppState::VendFailed)));
    assert!(!app.accepts_event(Event::ChangeState(AppState::AwaitingPayment)));
    assert!(app.accepts_event(Event::TimeoutPollEvent));
    assert!(app.accepts_event(Event::Keypress('\n')));
    let mut confirming = App::new();
    let _ = keys(&mut confirming, "B4");
    assert!(confirming.accepts_event(Event::Keypress('\n')));
    assert!(App { credit: 150, ..confirming }.accepts_event(Event::Keypress('\n')));
    assert!(!App { credit: 151, ..confirming }.accepts_event(Event::Keypress('\n')));
    assert!(App { credit: 151, ..confirming }.accepts_event(Event::Keypress('\x1B')));
    let late = App { seconds_since_last_event: u16::MAX, ..confirming };
    assert!(!late.accepts_event(Event::TimeoutPollEvent));
    assert!(late.accepts_event(Event::EscrowPressed));
    assert!(App { seconds_since_last_event: u16::MAX - 1, ..confirming }
        .accepts_event(Event::TimeoutPollEvent));
}

#[test]
fn credit_is_taken_off_the_balance() {
    let mut app = paying('B', '4');
    app.credit = 50;
    let actions = app.handle_event(Event::CoinInserted(0));
    assert_eq!(
        actions,
        vec![AppAction::LcdPay { balance_due: 100 }, AppAction::Show(Page::MakePayment)]
    );
}
