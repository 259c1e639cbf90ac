//! What can go wrong between the host and a guest module.

use vstd::prelude::*;

verus! {

/// A guest call that failed or answered with a value of the wrong shape.
#[derive(Debug, Clone, PartialEq, Eq)]
pub enum CallError {
    /// The guest reported a failure, with its message.
    Guest(String),
    /// The guest kept asking for another simulation step past the cap.
    ChainTooLong,
    /// A texture ramp held a glyph string with no character.
    EmptyGlyph,
    /// A grid whose rows differ in length.
    RaggedGrid,
    /// A grid pulled while loading whose size differs from the grid the
    /// module was set up with.
    GridSize,
    /// An update intent without one of its four boolean flags.
    BadIntent,
}

/// Why loading a module failed. Any failure while a load's calls are
/// answered is a load failure, and leaves no module loaded.
#[derive(Debug, PartialEq, Eq)]
pub enum LoadError {
    /// The module could not be read or run, had no `Simulation.setup`, or a
    /// call made while loading failed; with the reason.
    Guest(String),
    /// A value pulled while loading had the wrong shape.
    Reply(CallError),
}

/// The host was asked for something its current state does not allow.
#[derive(Debug, Clone, Copy, PartialEq, Eq, Structural)]
pub enum StateError {
    /// No module is loaded, nor queued to be loaded.
    NotLoaded,
    /// A guest call is in flight and has not been answered.
    Busy,
    /// A reply came while no guest call was in flight.
    NoCallPending,
    /// A reply that does not answer the call in flight.
    UnexpectedReply,
    /// The module index names no known module.
    NoSuchModule,
    /// The scheduler was woken by something it did not ask for.
    OutOfTurn,
}

#[derive(Debug, PartialEq, Eq)]
pub enum HostError {
    Load(LoadError),
    Call(CallError),
    State(StateError),
}

/// The error of a result, if any.
pub open spec fn error_of<T>(r: Result<T, HostError>) -> Option<HostError> {
    match r {
        Ok(_) => None,
        Err(e) => Some(e),
    }
}

} // verus!
