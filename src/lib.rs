//! Register-level model of a two-wire (I2C-compatible) serial controller.
//!
//! `registers` holds the byte-wide registers and their bit fields; `device`
//! holds the transaction state machine that interprets guest register
//! accesses and tells its host which bus and interrupt actions to perform.
pub mod registers;
pub mod device;
