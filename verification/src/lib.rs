//! Verified core of a daemon that drives one or two Framework 16 LED-matrix
//! modules over a serial link.
//!
//! The crate contains the logic of the daemon and of its command-line client:
//! the binary wire protocol spoken to the matrix firmware, validation of
//! inter-process commands, the dispatcher that maps each command to device
//! calls and animation lifecycle changes, and the cooperative-cancellation
//! state for background animations.  All device and socket I/O is left to the
//! surrounding program: the functions here turn commands into fully specified
//! plans (byte-exact device requests, animation starts, warnings, responses)
//! that the unverified shell merely carries out.

pub mod args;
pub mod config;
pub mod error;
pub mod handler;
pub mod image;
pub mod ipc;
pub mod matrix;
pub mod version;
