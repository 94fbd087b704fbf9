//! A simplified legacy Bitcoin-style transaction: its data types, a fluent
//! builder, a fixed-width little-endian header decoder, a partial serializer,
//! and a mapping from command-line words to a command.
use vstd::prelude::*;

pub mod encoding;
pub mod transaction;
pub mod cli;

pub use cli::{parse_cli_args, CliCommand};

pub use transaction::{
    BitcoinSerialize, LegacyTransaction, LegacyTransactionBuilder, OutPoint, TxInput, TxOutput,
};

verus! {

/// The ways an operation of this library can fail.
#[derive(Debug)]
pub enum BitcoinError {
    /// A byte buffer too short to hold a transaction header.
    InvalidTransaction,
    /// A malformed script; reserved, nothing raises it yet.
    InvalidScript,
    /// An unacceptable amount; reserved, nothing raises it yet.
    InvalidAmount,
    /// Command-line words that do not form a command, with a description.
    ParseError(String),
}

/// A pair of coordinates of one type.
#[derive(Debug, Clone, PartialEq)]
pub struct Point<T> {
    pub x: T,
    pub y: T,
}

impl<T> Point<T> {
    /// A point holding `x` and `y` unchanged.
    pub fn new(x: T, y: T) -> (p: Self)
        ensures
            p.x == x,
            p.y == y,
    {
        Self { x, y }
    }
}

} // verus!
