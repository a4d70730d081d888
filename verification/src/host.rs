//! The host application: what the customer sees and what the controller is
//! asked, as one state machine over key presses, payment events and
//! vend results.
//!
//! The windows, the display and the link to the controller are not driven
//! from here. Each event yields the actions to perform, in order.

use vstd::prelude::*;
use crate::cashless_device::{CashlessDeviceCommand, CashlessDeviceEvent};
use crate::coin_acceptor::{CoinAcceptorEvent, CoinInserted};
use crate::dispenser::{DispenserAddress, VendCommand, VendError};
use crate::stock_info::{get_stock_item, stock_price};

verus! {

/// The seconds without an event after which the application goes back to idle.
pub const APP_TIMEOUT_SECONDS: u16 = 30;

/// The seconds for which a result, or the request to choose again, is shown.
pub const NOTICE_SECONDS: u32 = 2;

/// The escape key: the red cross of the keypad.
pub const KEY_ESCAPE: char = '\x1B';

/// The return key: the green tick of the keypad.
pub const KEY_RETURN: char = '\n';

/// What the application asks of the controller.
#[derive(Clone, Copy, Debug, PartialEq, Eq, Structural)]
pub enum VmcCommand {
    ItemAvailable(VendCommand),
    Vend(VendCommand),
    ForceDispense(VendCommand),
    /// Dispense the item at this row and column.
    VendItem(char, char),
    SetCoinAcceptorEnabled(bool),
    CashlessCmd(CashlessDeviceCommand),
}

/// What the controller tells the application.
#[derive(Clone, Copy, Debug, PartialEq, Eq)]
pub enum VmcResponse {
    VendResponse(Result<(), VendError>),
    CoinInsertedEvent(CoinInserted),
    CoinAcceptorEvent(CoinAcceptorEvent),
    CashlessEvent(CashlessDeviceEvent),
    DispenseSuccessEvent,
    DispenseFailedEvent,
}

/// Where the application stands.
#[derive(Clone, Copy, Debug, PartialEq, Eq, Structural)]
pub enum AppState {
    Idle,
    MakeAnotherSelection,
    AwaitingConfirmation,
    AwaitingPayment,
    Vending,
    VendSuccess,
    VendFailed,
}

/// What the application reacts to.
#[derive(Clone, Copy, Debug, PartialEq, Eq, Structural)]
pub enum Event {
    Keypress(char),
    EscrowPressed,
    CoinInserted(u16),
    /// One second has passed.
    TimeoutPollEvent,
    ChangeState(AppState),
    CashlessEvent(CashlessDeviceEvent),
    VendSuccess,
    VendFailed,
}

/// A page of the window.
#[derive(Clone, Copy, Debug, PartialEq, Eq, Structural)]
pub enum Page {
    MakeSelection,
    ConfirmItem,
    MakePayment,
    MakeAnotherSelection,
    VendInProgress,
    VendOk,
    VendFailed,
}

/// One thing for the application to do.
#[derive(Clone, Copy, Debug, PartialEq, Eq, Structural)]
pub enum AppAction {
    /// Send this command to the controller.
    Vmc(VmcCommand),
    /// Put the idle message on the display.
    LcdIdle,
    /// Put the request to pay on the display, with this balance in pence.
    LcdPay { balance_due: u16 },
    /// Fill the confirmation page with the item at this address.
    ConfirmItem { row: char, col: char, price: u16 },
    /// Bring this page to the front.
    Show(Page),
    /// Send `ChangeState(Idle)` after this many seconds.
    ReturnToIdleAfter { seconds: u32 },
}

/// The application.
#[derive(Clone, Copy, Debug, PartialEq, Eq, Structural)]
pub struct App {
    pub state: AppState,
    pub credit: u16,
    pub amount_due: u16,
    pub row_selected: Option<char>,
    pub col_selected: Option<char>,
    pub seconds_since_last_event: u16,
}

/// Whether a key names a row: an ASCII letter.
pub open spec fn is_row_key(key: char) -> bool {
    ('A' as u32 <= key as u32 <= 'Z' as u32) || ('a' as u32 <= key as u32 <= 'z' as u32)
}

/// Whether a key names a column: an ASCII digit.
pub open spec fn is_col_key(key: char) -> bool {
    '0' as u32 <= key as u32 <= '9' as u32
}

/// Whether a state speaks of a selected item.
pub open spec fn needs_selection(state: AppState) -> bool {
    state == AppState::AwaitingConfirmation || state == AppState::AwaitingPayment || state
        == AppState::Vending
}

/// The key that was chosen, or a blank where none was.
pub open spec fn chosen(key: Option<char>) -> char {
    match key {
        Some(c) => c,
        None => ' ',
    }
}

/// The selection after a key was pressed in the idle state.
///
/// A letter selects a row and a digit a column; pressing one of a kind again
/// drops the other. Escape drops both.
pub open spec fn select(row: Option<char>, col: Option<char>, key: char) -> (
    Option<char>,
    Option<char>,
) {
    if is_row_key(key) {
        (
            Some(key),
            if row is Some {
                None
            } else {
                col
            },
        )
    } else if is_col_key(key) {
        (
            if col is Some {
                None
            } else {
                row
            },
            Some(key),
        )
    } else if key == KEY_ESCAPE {
        (None, None)
    } else {
        (row, col)
    }
}

/// The application after an event, before the window is brought up to date,
/// and the commands for the controller.
pub open spec fn react(app: App, event: Event) -> (App, Seq<AppAction>)
    recommends
        app.wf(),
{
    let cancel = AppAction::Vmc(VmcCommand::CashlessCmd(CashlessDeviceCommand::CancelTransaction));
    let coins_off = AppAction::Vmc(VmcCommand::SetCoinAcceptorEnabled(false));
    let quiet = App { seconds_since_last_event: 0, ..app };
    let dropped = App { row_selected: None, col_selected: None, state: AppState::Idle, ..quiet };
    let row = chosen(app.row_selected);
    let col = chosen(app.col_selected);
    match (app.state, event) {
        (AppState::Idle, Event::Keypress(key)) => {
            let (row, col) = select(app.row_selected, app.col_selected, key);
            (
                App {
                    row_selected: row,
                    col_selected: col,
                    state: if row is Some && col is Some {
                        AppState::AwaitingConfirmation
                    } else {
                        AppState::Idle
                    },
                    ..quiet
                },
                Seq::empty(),
            )
        },
        (AppState::AwaitingConfirmation, Event::Keypress(key)) => {
            if key == KEY_RETURN {
                let due = match stock_price(row, col) {
                    Some(price) => price,
                    None => app.amount_due,
                };
                (
                    App { state: AppState::AwaitingPayment, amount_due: due, ..quiet },
                    seq![
                        AppAction::Vmc(
                            VmcCommand::CashlessCmd(
                                CashlessDeviceCommand::StartTransaction(
                                    due,
                                    DispenserAddress { row, col },
                                ),
                            ),
                        ),
                    ],
                )
            } else if key == KEY_ESCAPE {
                (dropped, Seq::empty())
            } else {
                (quiet, Seq::empty())
            }
        },
        (AppState::AwaitingPayment, Event::Keypress(key)) => {
            if key == KEY_ESCAPE {
                (dropped, seq![coins_off, cancel])
            } else {
                (quiet, Seq::empty())
            }
        },
        (AppState::AwaitingPayment, Event::EscrowPressed) => (
            App { amount_due: 0, ..dropped },
            seq![coins_off, cancel],
        ),
        (
            AppState::AwaitingPayment,
            Event::CashlessEvent(CashlessDeviceEvent::VendApproved(amount)),
        ) => {
            if amount == app.amount_due {
                (
                    App { state: AppState::Vending, ..quiet },
                    seq![AppAction::Vmc(VmcCommand::VendItem(row, col))],
                )
            } else {
                (quiet, seq![cancel])
            }
        },
        (AppState::Vending, Event::VendSuccess) => (
            App { state: AppState::VendSuccess, ..quiet },
            seq![
                AppAction::Vmc(
                    VmcCommand::CashlessCmd(
                        CashlessDeviceCommand::VendSuccess(DispenserAddress { row, col }),
                    ),
                ),
            ],
        ),
        (AppState::Vending, Event::VendFailed) => (
            App { state: AppState::VendFailed, ..quiet },
            seq![AppAction::Vmc(VmcCommand::CashlessCmd(CashlessDeviceCommand::VendFailed))],
        ),
        _ => (quiet, Seq::empty()),
    }
}

/// The notice that is shown for two seconds.
pub open spec fn notice(page: Page) -> Seq<AppAction> {
    seq![AppAction::Show(page), AppAction::ReturnToIdleAfter { seconds: NOTICE_SECONDS }]
}

/// The application once the window is up to date, and what it takes to
/// bring it there.
///
/// A selection that the catalogue does not have is dropped, and the
/// customer is asked to choose again.
pub open spec fn update(app: App) -> (App, Seq<AppAction>)
    recommends
        app.wf(),
{
    let row = chosen(app.row_selected);
    let col = chosen(app.col_selected);
    let balance_due = (app.amount_due - app.credit) as u16;
    match app.state {
        AppState::Idle => (
            app,
            seq![AppAction::LcdIdle, AppAction::Show(Page::MakeSelection), AppAction::LcdIdle],
        ),
        AppState::AwaitingConfirmation => match stock_price(row, col) {
            Some(price) => (
                app,
                seq![AppAction::ConfirmItem { row, col, price }, AppAction::Show(Page::ConfirmItem)],
            ),
            None => (
                App {
                    row_selected: None,
                    col_selected: None,
                    state: AppState::MakeAnotherSelection,
                    ..app
                },
                notice(Page::MakeAnotherSelection),
            ),
        },
        AppState::AwaitingPayment => (
            app,
            seq![AppAction::LcdPay { balance_due }, AppAction::Show(Page::MakePayment)],
        ),
        AppState::MakeAnotherSelection => (app, notice(Page::MakeAnotherSelection)),
        AppState::Vending => (app, seq![AppAction::Show(Page::VendInProgress)]),
        AppState::VendSuccess => (app, notice(Page::VendOk)),
        AppState::VendFailed => (app, notice(Page::VendFailed)),
    }
}

/// One event of the application.
///
/// A second that passes counts towards the timeout, which takes every state
/// but idle back to idle after thirty of them. A change of state is taken as
/// it comes. Every other event resets the count, is reacted to as the state
/// says, and the window is brought up to date.
pub open spec fn app_step(app: App, event: Event) -> (App, Seq<AppAction>)
    recommends
        app.wf(),
{
    match event {
        Event::TimeoutPollEvent => {
            if app.state == AppState::Idle {
                (app, Seq::empty())
            } else if app.seconds_since_last_event == APP_TIMEOUT_SECONDS {
                update(App { state: AppState::Idle, seconds_since_last_event: 0, ..app })
            } else {
                (
                    App {
                        seconds_since_last_event: (app.seconds_since_last_event + 1) as u16,
                        ..app
                    },
                    Seq::empty(),
                )
            }
        },
        Event::ChangeState(state) => update(App { state, ..app }),
        _ => {
            let (reacted, commands) = react(app, event);
            let (shown, display) = update(reacted);
            (shown, commands + display)
        },
    }
}

/// The event that a message of the controller becomes, if any.
pub open spec fn event_of(response: VmcResponse) -> Option<Event> {
    match response {
        VmcResponse::CoinInsertedEvent(coin) => Some(Event::CoinInserted(coin.value)),
        VmcResponse::CoinAcceptorEvent(CoinAcceptorEvent::EscrowPressed) => Some(
            Event::EscrowPressed,
        ),
        VmcResponse::CashlessEvent(e) => Some(Event::CashlessEvent(e)),
        VmcResponse::DispenseSuccessEvent => Some(Event::VendSuccess),
        VmcResponse::DispenseFailedEvent => Some(Event::VendFailed),
        _ => None,
    }
}

/// The character that a key of the keyboard stands for, by its key value:
/// escape, return, the letters a to h as capitals, and the digits; none for
/// any other key.
pub open spec fn key_char(keyval: u32) -> Option<char> {
    if keyval == 0xff1b {
        Some(KEY_ESCAPE)
    } else if keyval == 0xff0d {
        Some(KEY_RETURN)
    } else if 0x61 <= keyval <= 0x68 {
        Some((keyval - 0x20) as char)
    } else if 0x30 <= keyval <= 0x39 {
        Some(keyval as char)
    } else {
        None
    }
}

/// The character that a key of the keyboard stands for.
pub fn keypress_listener(keyval: u32) -> (key: Option<char>)
    ensures
        key == key_char(keyval),
{
    if keyval == 0xff1b {
        Some(KEY_ESCAPE)
    } else if keyval == 0xff0d {
        Some(KEY_RETURN)
    } else if 0x61 <= keyval && keyval <= 0x68 {
        Some(((keyval - 0x20) as u8) as char)
    } else if 0x30 <= keyval && keyval <= 0x39 {
        Some((keyval as u8) as char)
    } else {
        None
    }
}

/// The event that a message of the controller becomes, if any.
pub fn forward_response(response: VmcResponse) -> (event: Option<Event>)
    ensures
        event == event_of(response),
{
    match response {
        VmcResponse::CoinInsertedEvent(coin) => Some(Event::CoinInserted(coin.value)),
        VmcResponse::CoinAcceptorEvent(CoinAcceptorEvent::EscrowPressed) => Some(
            Event::EscrowPressed,
        ),
        VmcResponse::CashlessEvent(e) => Some(Event::CashlessEvent(e)),
        VmcResponse::DispenseSuccessEvent => Some(Event::VendSuccess),
        VmcResponse::DispenseFailedEvent => Some(Event::VendFailed),
        _ => None,
    }
}

impl App {
    /// The application is coherent: a state that speaks of an item has one
    /// selected, and while a payment is awaited the credit does not exceed
    /// what is due.
    pub open spec fn wf(self) -> bool {
        &&& needs_selection(self.state) ==> self.row_selected is Some && self.col_selected is Some
        &&& self.state == AppState::AwaitingPayment ==> self.credit <= self.amount_due
    }

    /// What is due once the selection is confirmed: the price of the item,
    /// or what was due before where the catalogue does not have it.
    pub open spec fn due_on_confirm(self) -> u16 {
        match stock_price(chosen(self.row_selected), chosen(self.col_selected)) {
            Some(price) => price,
            None => self.amount_due,
        }
    }

    /// Whether the application can take an event as it stands.
    ///
    /// A change of state has to lead to a coherent application. The
    /// confirmation of a selection has to leave no more credit than is due.
    /// A second that is counted has to fit the counter.
    pub open spec fn accepts(self, event: Event) -> bool {
        match event {
            Event::ChangeState(state) => (App { state, ..self }).wf(),
            Event::Keypress(key) => self.state == AppState::AwaitingConfirmation && key
                == KEY_RETURN ==> self.credit <= self.due_on_confirm(),
            Event::TimeoutPollEvent => self.state != AppState::Idle
                && self.seconds_since_last_event != APP_TIMEOUT_SECONDS
                ==> self.seconds_since_last_event < u16::MAX,
            _ => true,
        }
    }

    /// Whether the application is coherent.
    pub fn is_wf(&self) -> (coherent: bool)
        ensures
            coherent == self.wf(),
    {
        let needs = self.state == AppState::AwaitingConfirmation || self.state
            == AppState::AwaitingPayment || self.state == AppState::Vending;
        let selected = self.row_selected.is_some() && self.col_selected.is_some();
        (!needs || selected) && (self.state != AppState::AwaitingPayment || self.credit
            <= self.amount_due)
    }

    /// Whether the application can take an event as it stands.
    pub fn accepts_event(&self, event: Event) -> (accepted: bool)
        ensures
            accepted == self.accepts(event),
    {
        match event {
            Event::ChangeState(state) => {
                let changed = App { state, ..*self };
                changed.is_wf()
            },
            Event::Keypress(key) => {
                if self.state == AppState::AwaitingConfirmation && key == KEY_RETURN {
                    let row = match self.row_selected {
                        Some(row) => row,
                        None => ' ',
                    };
                    let col = match self.col_selected {
                        Some(col) => col,
                        None => ' ',
                    };
                    let due = match get_stock_item(row, col) {
                        Some(item) => item.price,
                        None => self.amount_due,
                    };
                    self.credit <= due
                } else {
                    true
                }
            },
            Event::TimeoutPollEvent => self.state == AppState::Idle
                || self.seconds_since_last_event == APP_TIMEOUT_SECONDS
                || self.seconds_since_last_event < u16::MAX,
            _ => true,
        }
    }

    /// The application as it starts: idle, nothing selected, nothing due.
    pub fn new() -> (app: App)
        ensures
            app.wf(),
            app == (App {
                state: AppState::Idle,
                credit: 0,
                amount_due: 0,
                row_selected: None,
                col_selected: None,
                seconds_since_last_event: 0,
            }),
    {
        App {
            state: AppState::Idle,
            credit: 0,
            amount_due: 0,
            row_selected: None,
            col_selected: None,
            seconds_since_last_event: 0,
        }
    }

    /// Brings the window up to date with the state.
    pub fn update_ui(&mut self) -> (actions: Vec<AppAction>)
        requires
            old(self).wf(),
        ensures
            final(self).wf(),
            (*final(self), actions@) == update(*old(self)),
    {
        let mut actions: Vec<AppAction> = Vec::new();
        self.push_update(&mut actions);
        proof {
            assert(actions@ =~= update(*old(self)).1);
        }
        actions
    }

    fn push_update(&mut self, actions: &mut Vec<AppAction>)
        requires
            old(self).wf(),
        ensures
            final(self).wf(),
            *final(self) == update(*old(self)).0,
            final(actions)@ == old(actions)@ + update(*old(self)).1,
    {
        let ghost before = actions@;
        match self.state {
            AppState::Idle => {
                actions.push(AppAction::LcdIdle);
                actions.push(AppAction::Show(Page::MakeSelection));
                actions.push(AppAction::LcdIdle);
            },
            AppState::AwaitingConfirmation => {
                let (row, col) = match (self.row_selected, self.col_selected) {
                    (Some(row), Some(col)) => (row, col),
                    _ => (' ', ' '),
                };
                match get_stock_item(row, col) {
                    Some(item) => {
                        actions.push(AppAction::ConfirmItem { row, col, price: item.price });
                        actions.push(AppAction::Show(Page::ConfirmItem));
                    },
                    None => {
                        self.row_selected = None;
                        self.col_selected = None;
                        self.state = AppState::MakeAnotherSelection;
                        actions.push(AppAction::Show(Page::MakeAnotherSelection));
                        actions.push(AppAction::ReturnToIdleAfter { seconds: NOTICE_SECONDS });
                    },
                }
            },
            AppState::AwaitingPayment => {
                actions.push(AppAction::LcdPay { balance_due: self.amount_due - self.credit });
                actions.push(AppAction::Show(Page::MakePayment));
            },
            AppState::MakeAnotherSelection => {
                actions.push(AppAction::Show(Page::MakeAnotherSelection));
                actions.push(AppAction::ReturnToIdleAfter { seconds: NOTICE_SECONDS });
            },
            AppState::Vending => {
                actions.push(AppAction::Show(Page::VendInProgress));
            },
            AppState::VendSuccess => {
                actions.push(AppAction::Show(Page::VendOk));
                actions.push(AppAction::ReturnToIdleAfter { seconds: NOTICE_SECONDS });
            },
            AppState::VendFailed => {
                actions.push(AppAction::Show(Page::VendFailed));
                actions.push(AppAction::ReturnToIdleAfter { seconds: NOTICE_SECONDS });
            },
        }
        proof {
            assert(actions@ =~= before + update(*old(self)).1);
        }
    }

    fn react(&mut self, event: Event) -> (commands: Vec<AppAction>)
        requires
            old(self).wf(),
            old(self).accepts(event),
            !(event is TimeoutPollEvent),
            !(event is ChangeState),
        ensures
            final(self).wf(),
            (*final(self), commands@) == react(*old(self), event),
    {
        let mut commands: Vec<AppAction> = Vec::new();
        let cancel = AppAction::Vmc(
            VmcCommand::CashlessCmd(CashlessDeviceCommand::CancelTransaction),
        );
        let coins_off = AppAction::Vmc(VmcCommand::SetCoinAcceptorEnabled(false));
        self.seconds_since_last_event = 0;
        let (row, col) = match (self.row_selected, self.col_selected) {
            (Some(row), Some(col)) => (row, col),
            _ => (' ', ' '),
        };
        match (self.state, event) {
            (AppState::Idle, Event::Keypress(key)) => {
                let code = key as u32;
                if (65 <= code && code <= 90) || (97 <= code && code <= 122) {
                    if self.row_selected.is_some() {
                        self.col_selected = None;
                    }
                    self.row_selected = Some(key);
                } else if 48 <= code && code <= 57 {
                    if self.col_selected.is_some() {
                        self.row_selected = None;
                    }
                    self.col_selected = Some(key);
                } else if key == KEY_ESCAPE {
                    self.row_selected = None;
                    self.col_selected = None;
                }
                if self.row_selected.is_some() && self.col_selected.is_some() {
                    self.state = AppState::AwaitingConfirmation;
                }
            },
            (AppState::AwaitingConfirmation, Event::Keypress(key)) => {
                if key == KEY_RETURN {
                    self.state = AppState::AwaitingPayment;
                    match get_stock_item(row, col) {
                        Some(item) => {
                            self.amount_due = item.price;
                        },
                        None => {},
                    }
                    commands.push(
                        AppAction::Vmc(
                            VmcCommand::CashlessCmd(
                                CashlessDeviceCommand::StartTransaction(
                                    self.amount_due,
                                    DispenserAddress { row, col },
                                ),
                            ),
                        ),
                    );
                } else if key == KEY_ESCAPE {
                    self.row_selected = None;
                    self.col_selected = None;
                    self.state = AppState::Idle;
                }
            },
            (AppState::AwaitingPayment, Event::Keypress(key)) => {
                if key == KEY_ESCAPE {
                    self.row_selected = None;
                    self.col_selected = None;
                    self.state = AppState::Idle;
                    commands.push(coins_off);
                    commands.push(cancel);
                }
            },
            (AppState::AwaitingPayment, Event::EscrowPressed) => {
                self.row_selected = None;
                self.col_selected = None;
                self.state = AppState::Idle;
                self.amount_due = 0;
                commands.push(coins_off);
                commands.push(cancel);
            },
            (
                AppState::AwaitingPayment,
                Event::CashlessEvent(CashlessDeviceEvent::VendApproved(amount)),
            ) => {
                if amount == self.amount_due {
                    commands.push(AppAction::Vmc(VmcCommand::VendItem(row, col)));
                    self.state = AppState::Vending;
                } else {
                    commands.push(cancel);
                }
            },
            (AppState::Vending, Event::VendSuccess) => {
                commands.push(
                    AppAction::Vmc(
                        VmcCommand::CashlessCmd(
                            CashlessDeviceCommand::VendSuccess(DispenserAddress { row, col }),
                        ),
                    ),
                );
                self.state = AppState::VendSuccess;
            },
            (AppState::Vending, Event::VendFailed) => {
                commands.push(
                    AppAction::Vmc(VmcCommand::CashlessCmd(CashlessDeviceCommand::VendFailed)),
                );
                self.state = AppState::VendFailed;
            },
            _ => {},
        }
        proof {
            assert(commands@ =~= react(*old(self), event).1);
        }
        commands
    }

    /// Takes one event and returns what to do, in order: first the commands
    /// for the controller, then what brings the window up to date.
    pub fn handle_event(&mut self, event: Event) -> (actions: Vec<AppAction>)
        requires
            old(self).wf(),
            old(self).accepts(event),
        ensures
            final(self).wf(),
            (*final(self), actions@) == app_step(*old(self), event),
    {
        match event {
            Event::TimeoutPollEvent => {
                if self.state == AppState::Idle {
                    Vec::new()
                } else if self.seconds_since_last_event == APP_TIMEOUT_SECONDS {
                    self.state = AppState::Idle;
                    self.seconds_since_last_event = 0;
                    self.update_ui()
                } else {
                    self.seconds_since_last_event = self.seconds_since_last_event + 1;
                    Vec::new()
                }
            },
            Event::ChangeState(state) => {
                self.state = state;
                self.update_ui()
            },
            _ => {
                let mut actions = self.react(event);
                self.push_update(&mut actions);
                actions
            },
        }
    }
}

/// The application comes back to idle: thirty-one seconds without an event
/// take every state to `Idle`, and every notice sends the change back to
/// idle two seconds after it is shown.
pub proof fn lemma_timeout_returns_to_idle(app: App)
    requires
        app.wf(),
        app.seconds_since_last_event == APP_TIMEOUT_SECONDS,
    ensures
        app_step(app, Event::TimeoutPollEvent).0.state == AppState::Idle,
        app_step(app, Event::ChangeState(AppState::Idle)).0.state == AppState::Idle,
{
}

/// The escrow lever withdraws a pending payment: the selection is dropped,
/// nothing is due any more, the application is idle, and the controller is
/// told to stop taking coins and to cancel the transaction of the reader.
pub proof fn lemma_escrow_cancels_payment(app: App)
    requires
        app.wf(),
        app.state == AppState::AwaitingPayment,
    ensures
        ({
            let (next, actions) = app_step(app, Event::EscrowPressed);
            &&& next.state == AppState::Idle
            &&& next.amount_due == 0
            &&& next.row_selected is None && next.col_selected is None
            &&& actions.len() >= 2
            &&& actions[0] == AppAction::Vmc(VmcCommand::SetCoinAcceptorEnabled(false))
            &&& actions[1] == AppAction::Vmc(
                VmcCommand::CashlessCmd(CashlessDeviceCommand::CancelTransaction),
            )
        }),
{
}

/// Whether an action asks the controller to dispense an item.
pub open spec fn asks_to_vend(action: AppAction) -> bool {
    action matches AppAction::Vmc(VmcCommand::VendItem(_, _))
}

/// Whether the application awaits the payment and the event is the
/// reader's approval of exactly what is due.
pub open spec fn approves_amount_due(app: App, event: Event) -> bool {
    app.state == AppState::AwaitingPayment && event == Event::CashlessEvent(
        CashlessDeviceEvent::VendApproved(app.amount_due),
    )
}

proof fn lemma_update_never_vends(app: App)
    ensures
        forall|i: int| 0 <= i < update(app).1.len() ==> !asks_to_vend(#[trigger] update(app).1[i]),
{
}

proof fn lemma_react_vends_on_approval(app: App, event: Event)
    requires
        app.wf(),
    ensures
        approves_amount_due(app, event) ==> react(app, event).1 == seq![
            AppAction::Vmc(VmcCommand::VendItem(chosen(app.row_selected), chosen(app.col_selected))),
        ] && react(app, event).0.state == AppState::Vending,
        !approves_amount_due(app, event) ==> forall|i: int|
            0 <= i < react(app, event).1.len() ==> !asks_to_vend(#[trigger] react(app, event).1[i]),
{
}

/// An item is dispensed only for an approval of exactly what is due: the
/// application asks the controller to vend if and only if it awaits the
/// payment and the reader approves the amount due, and then it asks for the
/// item that is selected.
pub proof fn lemma_vend_needs_exact_approval(app: App, event: Event)
    requires
        app.wf(),
    ensures
        ({
            let actions = app_step(app, event).1;
            &&& (exists|i: int| 0 <= i < actions.len() && asks_to_vend(#[trigger] actions[i]))
                <==> approves_amount_due(app, event)
            &&& approves_amount_due(app, event) ==> actions[0] == AppAction::Vmc(
                VmcCommand::VendItem(app.row_selected->0, app.col_selected->0),
            ) && app_step(app, event).0.state == AppState::Vending
        }),
{
    let actions = app_step(app, event).1;
    lemma_react_vends_on_approval(app, event);
    match event {
        Event::TimeoutPollEvent => {
            lemma_update_never_vends(
                App { state: AppState::Idle, seconds_since_last_event: 0, ..app },
            );
        },
        Event::ChangeState(state) => {
            lemma_update_never_vends(App { state, ..app });
        },
        _ => {
            let (reacted, commands) = react(app, event);
            let display = update(reacted).1;
            lemma_update_never_vends(reacted);
            assert(actions == commands + display);
            if approves_amount_due(app, event) {
                assert(actions[0] == commands[0]);
                assert(asks_to_vend(actions[0]));
            } else {
                assert forall|i: int| 0 <= i < actions.len() implies !asks_to_vend(
                    #[trigger] actions[i],
                ) by {
                    if i < commands.len() {
                        assert(actions[i] == commands[i]);
                    } else {
                        assert(actions[i] == display[i - commands.len()]);
                    }
                }
            }
        },
    }
}

} // verus!
