//! Control logic of a snack-and-drink vending machine.
//!
//! The crate holds the decisions of the machine: how a dispenser address
//! maps onto the latch matrix, how a dispense cycle is sequenced against the
//! motor-home sensor, how Multi-Drop Bus frames are built and checked, how
//! the coin acceptor and the cashless reader are driven, how a vend is
//! orchestrated, when the compressor runs, and what the host application,
//! the keypad and the display do with their inputs.
//!
//! Nothing here touches a pin, a serial line or a clock. The state
//! machines hand out actions as plain values; the program around them
//! performs each action and reports back what happened. What holds of
//! every run of a machine is proved in the `*_laws` modules and beside
//! the functions that the laws speak of.

pub mod dispenser;
pub mod matrix;
pub mod motor_driver;
pub mod dispense_laws;
pub mod mdb;
pub mod coin_acceptor;
pub mod cashless_device;
pub mod cashless_task;
pub mod cashless_laws;
pub mod vend;
pub mod chiller;
pub mod stock_info;
pub mod host;
pub mod lcd;
pub mod keypad;
pub mod client;
