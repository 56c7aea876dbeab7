use vstd::prelude::*;
use crate::sampler::Config;

verus! {

/// The buffer size used when none is given.
pub const DEFAULT_BUFFER_SIZE: usize = 4096;

/// The number of reads per stage used when none is given.
pub const DEFAULT_ITERATION_COUNT: usize = 1;

/// Where the bytes to measure come from.
#[derive(Clone, Copy, Debug, PartialEq, Eq, Structural)]
pub enum SourceKind {
    /// Standard input.
    Stdin,
    /// The one connection accepted on a listening TCP socket.
    Tcp,
}

/// A setting that cannot be used.
#[derive(Clone, Copy, Debug, PartialEq, Eq, Structural)]
pub enum ConfigError {
    /// An address was given without a port.
    PortMissing,
    /// The buffer size is zero.
    EmptyBuffer,
    /// The number of reads per stage is zero.
    NoIterations,
}

impl ConfigError {
    /// The message shown for this error.
    pub fn message(&self) -> &'static str {
        match self {
            ConfigError::PortMissing => "A port must be specified alongside an address.",
            ConfigError::EmptyBuffer => "Buffer size must be at least 1.",
            ConfigError::NoIterations => "Iterations must be at least 1.",
        }
    }
}

/// Picks the source from whether an address and a port were given: a port
/// (with or without an address) means TCP, neither means standard input, and
/// an address alone is an error.
pub fn select_source(address_given: bool, port_given: bool) -> (r: Result<SourceKind, ConfigError>)
    ensures
        r == (if port_given {
            Ok(SourceKind::Tcp)
        } else if address_given {
            Err(ConfigError::PortMissing)
        } else {
            Ok(SourceKind::Stdin)
        }),
{
    if address_given || port_given {
        if !port_given {
            Err(ConfigError::PortMissing)
        } else {
            Ok(SourceKind::Tcp)
        }
    } else {
        Ok(SourceKind::Stdin)
    }
}

impl Config {
    /// The settings of a run, each number taking its default where it is not
    /// given; zero is refused for either.
    pub fn checked(buffer_size: Option<usize>, iterations: Option<usize>, passthrough: bool) -> (r:
        Result<Config, ConfigError>)
        ensures
            ({
                let b = match buffer_size {
                    Some(b) => b,
                    None => DEFAULT_BUFFER_SIZE,
                };
                let i = match iterations {
                    Some(i) => i,
                    None => DEFAULT_ITERATION_COUNT,
                };
                r == (if b == 0 {
                    Err(ConfigError::EmptyBuffer)
                } else if i == 0 {
                    Err(ConfigError::NoIterations)
                } else {
                    Ok(Config { buffer_size: b, iterations: i, passthrough })
                })
            }),
            r matches Ok(c) ==> c.wf(),
    {
        let b = match buffer_size {
            Some(b) => b,
            None => DEFAULT_BUFFER_SIZE,
        };
        let i = match iterations {
            Some(i) => i,
            None => DEFAULT_ITERATION_COUNT,
        };
        if b == 0 {
            Err(ConfigError::EmptyBuffer)
        } else if i == 0 {
            Err(ConfigError::NoIterations)
        } else {
            Ok(Config { buffer_size: b, iterations: i, passthrough })
        }
    }
}

} // verus!
