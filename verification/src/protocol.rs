//! The token tree of a decoded request.

use vstd::prelude::*;

pub mod error;

verus! {

/// One decoded protocol value. The byte slices borrow from the request buffer.
#[derive(Debug, PartialEq)]
pub enum Resp<'a> {
    /// A simple string.
    String(&'a [u8]),
    /// An error reply.
    Error(&'a [u8]),
    /// An integer reply.
    Integer(i64),
    /// A bulk string: arbitrary bytes.
    BulkString(&'a [u8]),
    /// A nested sequence of values.
    Array(Vec<Resp<'a>>),
    /// The null value.
    Nil,
}

/// The mathematical value of a [`Resp`]: the same tree, over sequences.
pub enum Token {
    String(Seq<u8>),
    Error(Seq<u8>),
    Integer(int),
    BulkString(Seq<u8>),
    Array(Seq<Token>),
    Nil,
}

impl Token {
    /// The bytes of a token that can stand as an argument: those of a simple
    /// string or of a bulk string. No other token has any.
    pub open spec fn text(self) -> Option<Seq<u8>> {
        match self {
            Token::String(bytes) => Some(bytes),
            Token::BulkString(bytes) => Some(bytes),
            _ => None,
        }
    }
}

impl<'a> DeepView for Resp<'a> {
    type V = Token;

    open spec fn deep_view(&self) -> Token
        decreases self,
    {
        match self {
            Resp::String(bytes) => Token::String(bytes@),
            Resp::Error(bytes) => Token::Error(bytes@),
            Resp::Integer(n) => Token::Integer(*n as int),
            Resp::BulkString(bytes) => Token::BulkString(bytes@),
            Resp::Array(items) => Token::Array(
                Seq::new(
                    items@.len(),
                    |i: int|
                        if 0 <= i < items@.len() {
                            items@[i].deep_view()
                        } else {
                            Token::Nil
                        },
                ),
            ),
            Resp::Nil => Token::Nil,
        }
    }
}

} // verus!
