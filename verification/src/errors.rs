//! Errors that configuration can raise before a scan starts.

use vstd::prelude::*;

verus! {

/// A configuration input was rejected; the scan never starts.
#[derive(Clone, Copy, Debug, PartialEq, Eq, Structural)]
pub enum ConfigError {
    /// The offset string is not a non-negative integer with an optional
    /// `s`/`m`/`h`/`d` suffix, or the scaled value does not fit in `u64`.
    BadOffset,
    /// The pattern text is not a valid regular expression.
    BadPattern,
    /// The time attribute is none of `atime`, `mtime`, `ctime`.
    UnknownAttribute,
    /// A sink identifier is outside the recognized set.
    UnknownSink,
}

impl ConfigError {
    /// A short diagnostic name for the error.
    pub fn describe(&self) -> (r: &'static str)
        ensures
            *self == ConfigError::BadOffset ==> r@ == "bad time offset"@,
            *self == ConfigError::BadPattern ==> r@ == "bad regular expression"@,
            *self == ConfigError::UnknownAttribute ==> r@ == "unknown time attribute"@,
            *self == ConfigError::UnknownSink ==> r@ == "unknown output target"@,
    {
        match self {
            ConfigError::BadOffset => "bad time offset",
            ConfigError::BadPattern => "bad regular expression",
            ConfigError::UnknownAttribute => "unknown time attribute",
            ConfigError::UnknownSink => "unknown output target",
        }
    }
}

} // verus!
