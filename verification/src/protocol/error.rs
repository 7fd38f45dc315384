//! Why a request is not a command.

use vstd::prelude::*;

verus! {

/// The ways in which interpreting a request fails.
#[derive(Debug, PartialEq)]
pub enum RedisCommandError {
    /// A required argument is missing or is not a string token, or a list of
    /// pairs has an odd length.
    ArgNumber,
    /// The request is empty, or its first token is not a bulk string.
    InvalidCommand,
    /// The command name is none of the known ones; the name is carried along.
    NotSupported(String),
    /// Bytes that had to be text are not valid UTF-8.
    BadString,
    /// Text that had to be a number is not a base-10 unsigned integer that
    /// fits in 64 bits.
    IntParse,
    /// The duration leads to a deadline that cannot be represented.
    TimeOverflow,
}

/// The mathematical value of a [`RedisCommandError`].
pub enum Failure {
    ArgNumber,
    InvalidCommand,
    NotSupported(Seq<char>),
    BadString,
    IntParse,
    TimeOverflow,
}

impl View for RedisCommandError {
    type V = Failure;

    open spec fn view(&self) -> Failure {
        match self {
            RedisCommandError::ArgNumber => Failure::ArgNumber,
            RedisCommandError::InvalidCommand => Failure::InvalidCommand,
            RedisCommandError::NotSupported(name) => Failure::NotSupported(name@),
            RedisCommandError::BadString => Failure::BadString,
            RedisCommandError::IntParse => Failure::IntParse,
            RedisCommandError::TimeOverflow => Failure::TimeOverflow,
        }
    }
}

} // verus!
