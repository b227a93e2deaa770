//! Errors of reading a configuration file.

use vstd::prelude::*;

verus! {

/// Why a configuration file could not be read.
#[derive(Debug, Clone, Copy, PartialEq, Eq, Structural)]
pub enum ConfigError {
    /// The file could not be read at all (it is missing, for instance).
    IO,
    /// The contents are not a valid document.
    ParseError,
    /// The document is valid but a field has the wrong shape.
    DecodeError,
}

impl ConfigError {
    /// A sentence that describes the error.
    pub fn description(&self) -> (r: &'static str)
        ensures
            r@ == config_error_description(*self),
    {
        match self {
            ConfigError::IO => "Unable to read the raw contents of a configuration file.",
            ConfigError::ParseError => "Error parsing contents of configuration file.",
            ConfigError::DecodeError => "Unable to decode raw contents into configuration.",
        }
    }
}

/// The description of each error.
pub open spec fn config_error_description(e: ConfigError) -> Seq<char> {
    match e {
        ConfigError::IO => "Unable to read the raw contents of a configuration file."@,
        ConfigError::ParseError => "Error parsing contents of configuration file."@,
        ConfigError::DecodeError => "Unable to decode raw contents into configuration."@,
    }
}

} // verus!
