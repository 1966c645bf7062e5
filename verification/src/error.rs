//! The crate's failure taxonomy.  Every fallible operation returns one
//! of these; nothing here is fatal to the process.

use vstd::prelude::*;

verus! {

/// A typed failure returned to the caller.
#[derive(Debug, Clone, Copy, PartialEq, Eq, Structural)]
pub enum Error {
    /// A name or catalog code is too long for the engine's fixed-size
    /// text fields, or contains an embedded terminator byte.
    InvalidString,
    /// An ephemeris lookup was attempted while no provider is registered.
    EphemNotLoaded,
    /// The numeric engine reported a nonzero status; the code is passed
    /// through opaquely, never reinterpreted.
    LowerLevel(i32),
    /// An ephemeris source failed to open or validate.
    ProviderLoad,
    /// A specific ephemeris query failed (body or time out of range).
    Lookup,
    /// The external catalog service could not be reached.
    Network,
    /// The external catalog service's response could not be understood.
    Parse,
}

impl Error {
    /// A short human-readable description of the failure.
    pub fn describe(&self) -> (m: &'static str)
        ensures
            m@.len() > 0,
    {
        proof {
            reveal_strlit("name or catalog code too long or not null-free");
            reveal_strlit("no ephemeris provider registered");
            reveal_strlit("numeric engine returned a nonzero status");
            reveal_strlit("ephemeris source failed to open or validate");
            reveal_strlit("ephemeris query failed");
            reveal_strlit("catalog service could not be reached");
            reveal_strlit("catalog response could not be understood");
        }
        match self {
            Error::InvalidString => "name or catalog code too long or not null-free",
            Error::EphemNotLoaded => "no ephemeris provider registered",
            Error::LowerLevel(_) => "numeric engine returned a nonzero status",
            Error::ProviderLoad => "ephemeris source failed to open or validate",
            Error::Lookup => "ephemeris query failed",
            Error::Network => "catalog service could not be reached",
            Error::Parse => "catalog response could not be understood",
        }
    }
}

} // verus!
