//! The errors of the worker.

use vstd::prelude::*;

verus! {

/// What can go wrong between a caller and the worker that hosts its engine.
#[derive(Debug, Clone, PartialEq, Eq)]
pub enum Error {
    /// The engine could not be constructed, or its thread ended before it said so.
    Init(String),
    /// A reply did not have the shape that the request calls for.
    Protocol(String),
    /// The other end of a channel is gone.
    Channel(String),
    /// The engine failed to carry out a request.
    Engine(String),
    /// The worker's thread ended abnormally.
    Panic(String),
}

/// The text that an error carries.
pub open spec fn message_of(e: Error) -> Seq<char> {
    match e {
        Error::Init(m) => m@,
        Error::Protocol(m) => m@,
        Error::Channel(m) => m@,
        Error::Engine(m) => m@,
        Error::Panic(m) => m@,
    }
}

impl Error {
    /// The text that this error carries.
    pub fn message(&self) -> (r: &String)
        ensures
            r@ == message_of(*self),
    {
        match self {
            Error::Init(m) => m,
            Error::Protocol(m) => m,
            Error::Channel(m) => m,
            Error::Engine(m) => m,
            Error::Panic(m) => m,
        }
    }

    /// The text that this error carries, given up by value.
    pub fn into_message(self) -> (r: String)
        ensures
            r@ == message_of(self),
    {
        match self {
            Error::Init(m) => m,
            Error::Protocol(m) => m,
            Error::Channel(m) => m,
            Error::Engine(m) => m,
            Error::Panic(m) => m,
        }
    }
}

} // verus!
