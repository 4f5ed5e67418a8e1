//! The part of the configuration that is decided by the arguments alone.
//!
//! The database half of the configuration is read from environment
//! variables and carries the connection secret, so it lives with the
//! surrounding application.

use vstd::prelude::*;
use vstd::string::StringExecFns;
use crate::supermarket::{get_supermarket_type, spec_get_supermarket_type, Supermarket};

verus! {

/// The application-level configuration.
#[derive(Debug)]
pub struct ApplicationConfig {
    /// The supermarket we are targeting to get price information for.
    pub supermarket: Supermarket,
}

/// Failures to assemble the configuration.
#[derive(Debug)]
pub enum ConfigError {
    /// The variable that was missing when trying to load it.
    LoadVariable { variable: String },
    InvalidOption {
        /// The invalid option the user passed.
        option: String,
    },
}

impl ConfigError {
    /// A human-readable description of the failure.
    pub fn message(&self) -> (r: String)
        ensures
            self matches ConfigError::LoadVariable { variable } ==> r@
                == "Failed to load environment variable '"@ + variable@ + "'"@,
            self matches ConfigError::InvalidOption { option } ==> r@ == "Invalid option '"@
                + option@ + "'"@,
    {
        match self {
            ConfigError::LoadVariable { variable } => {
                let mut s = String::from_str("Failed to load environment variable '");
                s.append(variable.as_str());
                s.append("'");
                s
            },
            ConfigError::InvalidOption { option } => {
                let mut s = String::from_str("Invalid option '");
                s.append(option.as_str());
                s.append("'");
                s
            },
        }
    }
}

impl ApplicationConfig {
    /// Reads the application configuration from the arguments passed to
    /// the application.
    ///
    /// # Errors
    /// Errors if the user provides an invalid `--supermarket` option.
    pub fn read_from_env(args: &[String]) -> (r: Result<Self, ConfigError>)
        ensures
            spec_get_supermarket_type(args@) matches Ok(s) ==> (r matches Ok(c) && c.supermarket
                == s),
            spec_get_supermarket_type(args@) is Err ==> (r matches Err(
                ConfigError::InvalidOption { option },
            ) && option@ == "--supermarket"@),
    {
        match get_supermarket_type(args) {
            Ok(supermarket) => Ok(Self { supermarket }),
            Err(_) => Err(
                ConfigError::InvalidOption { option: String::from_str("--supermarket") },
            ),
        }
    }
}

} // verus!
