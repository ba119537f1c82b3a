//! Register-level driver for a TCA9554(A) 8-bit I/O expander on a two-wire
//! addressed bus.
//!
//! The driver is generic over a [`transport::Transport`]: a collaborator that
//! carries out single addressed bus exchanges and reports their outcome. Every
//! operation of [`driver::Tca9554`] is specified against the sequence of
//! exchanges it performs, and [`sim::SimBus`] is a verified in-memory
//! transport that answers reads from the history of writes, the way a
//! well-functioning chip does.

pub mod address;
pub mod chip;
pub mod driver;
pub mod registers;
pub mod sim;
pub mod transport;

pub use address::Address;
pub use driver::Tca9554;
pub use sim::SimBus;
pub use sim::SimError;
pub use registers::Register;
pub use transport::Transaction;
pub use transport::Transport;
