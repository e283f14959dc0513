//! The daemon's startup configuration: up to two matrix endpoints.

use vstd::prelude::*;

verus! {

/// Connection parameters for one matrix endpoint: the serial port name,
/// its baud rate, and the initial value of the tracked `sleeping` flag.
#[derive(Debug)]
pub struct Matrix {
    pub port: String,
    pub baudrate: usize,
    pub sleeping: bool,
}

/// The daemon's configuration.  Either side may be absent; a side absent
/// here stays unconfigured for the daemon's whole lifetime.
#[derive(Debug)]
pub struct Config {
    pub left_matrix: Option<Matrix>,
    pub right_matrix: Option<Matrix>,
}

/// A configuration rejected at startup.
#[derive(Debug)]
pub enum ConfigError {
    /// Neither endpoint is present; the daemon has nothing to drive.
    MissingMatrix,
}

impl Config {
    /// Accepts the configuration exactly when at least one endpoint is
    /// present.
    pub fn check(&self) -> (res: Result<(), ConfigError>)
        ensures
            res is Ok <==> (self.left_matrix is Some || self.right_matrix is Some),
            res is Err ==> res matches Err(ConfigError::MissingMatrix),
    {
        let missing_left = self.left_matrix.is_none();
        let missing_right = self.right_matrix.is_none();
        if missing_left && missing_right {
            Err(ConfigError::MissingMatrix)
        } else {
            Ok(())
        }
    }
}

} // verus!
