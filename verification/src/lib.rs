//! A half-duplex RS-485 transceiver behind a serial port and a direction pin.
//!
//! The transceiver sends while its direction pin is high and receives while it
//! is low. [`adapter::Max485`] owns the serial port and the pin.
//! [`protocol`] decides, call by call, what a write or a read does to the two
//! of them, and [`trace`] states what every write and every read comes to.
//! [`error::Error`] is the one error type for both collaborators.

pub mod adapter;
pub mod error;
pub mod protocol;
pub mod trace;

pub use adapter::Max485;
pub use error::Error;
