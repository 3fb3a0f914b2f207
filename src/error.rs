use vstd::prelude::*;

verus! {

/// Everything that can go wrong in the library and around it.
#[derive(Debug, PartialEq, Eq)]
pub enum Error {
    /// A path that does not exist.
    BadPath(Vec<u8>),
    /// An I/O failure, with its description.
    IOError(String),
    /// A command or a value that does not parse.
    BadParse,
    /// A scale was built without its ceiling.
    MaxBrightnessRequired,
    /// The power state of a display could not be read.
    NoBacklightStatus,
    /// A configuration that cannot be used, with the reason.
    BadConfiguration(&'static str),
    /// No configuration file was found.
    NoConfigFile,
    /// A command that is accepted but has no behaviour yet.
    NotImplemented,
}

} // verus!
