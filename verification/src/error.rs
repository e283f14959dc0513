//! Error values shared between the daemon and its clients.

use vstd::prelude::*;

verus! {

/// Everything that can go wrong between receiving a command and answering it.
///
/// `Config`, `NotUSB` and `UnknownPort` arise while the daemon starts up and
/// identifies its serial ports.  `InvalidVecSize`, `InvalidVecSizeFrame` and
/// `InvalidColNumber` are payload-validation failures detected before a
/// command reaches the device codec.  `Handler` wraps any failure while a
/// command is executed.
#[derive(Debug, Clone)]
pub enum Error {
    /// The configuration file could not be read or parsed; carries the cause.
    Config(String),
    /// The named port exists but is not a USB device.
    NotUSB(String),
    /// The named port cannot be classified at all.
    UnknownPort(String),
    /// A payload had the wrong length; carries which side and the required
    /// length.
    InvalidVecSize(String, usize),
    /// A render frame had the wrong length; carries which side, the length
    /// found, and the index of the offending frame.
    InvalidVecSizeFrame(String, usize, usize),
    /// A stage-column command named a column outside `0..=8`.
    InvalidColNumber(u8),
    /// A command failed while being executed; carries a description.
    Handler(String),
}

} // verus!
