//! Driver logic for the Azoteq IQS5xx (TPS65) trackpad controller.
//!
//! The crate holds everything the driver decides: how register writes are
//! framed on the I2C bus, how the 44-byte report block is decoded, which
//! gesture a report stands for, the order of the power-up sequence, the
//! ready-pin wait with its timeout, the retrying device state machine and the
//! processor that turns trackpad events into mouse reports, and the BLE
//! advertising data by which the two halves of the keyboard find each other.
//! The bus, the pins, the radio and the clock are driven by the caller, who
//! feeds the results back in.

pub mod registers;
pub mod bytes;
pub mod report;
pub mod event;
pub mod config;
pub mod driver;
pub mod run;
pub mod rmk_support;
pub mod adv;

pub use config::Iqs5xxConfig;
pub use driver::{Error, Iqs5xx};
pub use event::Event;
pub use report::{Report, Touch};
