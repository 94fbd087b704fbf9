//! The legacy transaction, its parts, its builder, its header decoder and its
//! serializer.
use vstd::prelude::*;

use crate::encoding::{
    i32_le_bytes, le_bytes_i32, le_bytes_u32, le_u32_value, read_i32_le, read_u32_le,
    twos_complement_32, u32_le_bytes,
};
use crate::BitcoinError;

verus! {

/// The length in bytes of the fixed header that decoding reads.
pub const HEADER_LEN: usize = 16;

/// A reference to one output of an earlier transaction.
#[derive(Debug, Clone)]
pub struct OutPoint {
    pub txid: [u8; 32],
    pub vout: u32,
}

/// A transaction input: what it spends and how it unlocks it.
#[derive(Debug, Clone)]
pub struct TxInput {
    pub previous_output: OutPoint,
    pub script_sig: Vec<u8>,
    pub sequence: u32,
}

/// A transaction output: an amount in satoshi and its locking script.
#[derive(Debug, Clone)]
pub struct TxOutput {
    pub value: u64,
    pub script_pubkey: Vec<u8>,
}

/// A legacy transaction.
#[derive(Debug, Clone)]
pub struct LegacyTransaction {
    pub version: i32,
    pub inputs: Vec<TxInput>,
    pub outputs: Vec<TxOutput>,
    pub lock_time: u32,
}

/// Staging area for a [`LegacyTransaction`], filled by chained calls.
pub struct LegacyTransactionBuilder {
    pub version: i32,
    pub inputs: Vec<TxInput>,
    pub outputs: Vec<TxOutput>,
    pub lock_time: u32,
}

impl LegacyTransactionBuilder {
    /// Whether the builder is in its starting state: version 1, no inputs,
    /// no outputs, lock time 0.
    pub open spec fn is_initial(&self) -> bool {
        &&& self.version == 1
        &&& self.inputs@.len() == 0
        &&& self.outputs@.len() == 0
        &&& self.lock_time == 0
    }
}

impl Default for LegacyTransactionBuilder {
    fn default() -> (b: Self)
        ensures
            b.is_initial(),
    {
        Self { version: 1, inputs: Vec::new(), outputs: Vec::new(), lock_time: 0 }
    }
}

impl LegacyTransactionBuilder {
    /// A builder in its starting state, as `default` gives it.
    pub fn new() -> (b: Self)
        ensures
            b.is_initial(),
    {
        Self::default()
    }

    /// The builder with its version set to `version`, all else kept.
    pub fn version(self, version: i32) -> (b: Self)
        ensures
            b.version == version,
            b.inputs == self.inputs,
            b.outputs == self.outputs,
            b.lock_time == self.lock_time,
    {
        let mut b = self;
        b.version = version;
        b
    }

    /// The builder with `input` appended to its inputs, all else kept.
    pub fn add_input(self, input: TxInput) -> (b: Self)
        ensures
            b.version == self.version,
            b.inputs@ == self.inputs@.push(input),
            b.outputs == self.outputs,
            b.lock_time == self.lock_time,
    {
        let mut b = self;
        b.inputs.push(input);
        b
    }

    /// The builder with `output` appended to its outputs, all else kept.
    pub fn add_output(self, output: TxOutput) -> (b: Self)
        ensures
            b.version == self.version,
            b.inputs == self.inputs,
            b.outputs@ == self.outputs@.push(output),
            b.lock_time == self.lock_time,
    {
        let mut b = self;
        b.outputs.push(output);
        b
    }

    /// The builder with its lock time set to `lock_time`, all else kept.
    pub fn lock_time(self, lock_time: u32) -> (b: Self)
        ensures
            b.version == self.version,
            b.inputs == self.inputs,
            b.outputs == self.outputs,
            b.lock_time == lock_time,
    {
        let mut b = self;
        b.lock_time = lock_time;
        b
    }

    /// The transaction holding exactly the builder's fields.
    pub fn build(self) -> (tx: LegacyTransaction)
        ensures
            tx.version == self.version,
            tx.inputs == self.inputs,
            tx.outputs == self.outputs,
            tx.lock_time == self.lock_time,
    {
        LegacyTransaction {
            version: self.version,
            inputs: self.inputs,
            outputs: self.outputs,
            lock_time: self.lock_time,
        }
    }
}

/// Types that have a byte encoding.
pub trait BitcoinSerialize {
    /// The bytes that `serialize` produces.
    spec fn serialized(&self) -> Seq<u8>;

    /// The byte encoding of `self`.
    fn serialize(&self) -> (r: Vec<u8>)
        ensures
            r@ == self.serialized(),
    ;
}

impl LegacyTransaction {
    /// A builder in its starting state.
    pub fn builder() -> (b: LegacyTransactionBuilder)
        ensures
            b.is_initial(),
    {
        LegacyTransactionBuilder::default()
    }

    /// The version stored in the first four bytes of `data`.
    pub open spec fn header_version(data: Seq<u8>) -> int {
        twos_complement_32(le_u32_value(data, 0))
    }

    /// The lock time stored in bytes 12 to 15 of `data`.
    pub open spec fn header_lock_time(data: Seq<u8>) -> int {
        le_u32_value(data, 12)
    }
}

impl<'a> TryFrom<&'a [u8]> for LegacyTransaction {
    type Error = BitcoinError;

    /// Reads the fixed header of `data`: version, declared input count,
    /// declared output count and lock time, each four bytes little-endian.
    /// The declared counts only size the reserved room of the input and
    /// output lists, which stay empty; bytes after the header are ignored.
    fn try_from(data: &'a [u8]) -> (r: Result<LegacyTransaction, BitcoinError>)
        ensures
            r is Ok <==> data@.len() >= HEADER_LEN,
            r is Err ==> r->Err_0 == BitcoinError::InvalidTransaction,
            r matches Ok(tx) ==> {
                &&& tx.version == Self::header_version(data@)
                &&& tx.lock_time == Self::header_lock_time(data@)
                &&& tx.inputs@.len() == 0
                &&& tx.outputs@.len() == 0
            },
    {
        if data.len() < HEADER_LEN {
            return Err(BitcoinError::InvalidTransaction);
        }
        let version = read_i32_le(data, 0);
        let inputs_count = read_u32_le(data, 4);
        let outputs_count = read_u32_le(data, 8);
        let lock_time = read_u32_le(data, 12);
        let inputs: Vec<TxInput> = Vec::with_capacity(inputs_count as usize);
        let outputs: Vec<TxOutput> = Vec::with_capacity(outputs_count as usize);
        Ok(LegacyTransaction { version, inputs, outputs, lock_time })
    }
}

impl BitcoinSerialize for LegacyTransaction {
    /// The version, then the lock time, each four bytes little-endian; the
    /// inputs and outputs are not encoded.
    open spec fn serialized(&self) -> Seq<u8> {
        le_bytes_i32(self.version) + le_bytes_u32(self.lock_time)
    }

    fn serialize(&self) -> (r: Vec<u8>) {
        let mut data = i32_le_bytes(self.version);
        let mut tail = u32_le_bytes(self.lock_time);
        data.append(&mut tail);
        data
    }
}

/// A transaction's encoding is eight bytes long, whatever its inputs and
/// outputs.
pub proof fn lemma_serialized_len(tx: LegacyTransaction)
    ensures
        tx.serialized().len() == 8,
{
}

// A decoded transaction's lists differ from any spec-level value in their
// reserved room, so no spec function can equal the result: it is described by
// the `ensures` of `try_from` above, and this impl declares no spec of its own.
impl<'a> vstd::std_specs::convert::TryFromSpecImpl<&'a [u8]> for LegacyTransaction {
    open spec fn obeys_try_from_spec() -> bool {
        false
    }

    open spec fn try_from_spec(data: &'a [u8]) -> Result<LegacyTransaction, BitcoinError> {
        Err(BitcoinError::InvalidTransaction)
    }
}

} // verus!
