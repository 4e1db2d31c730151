//! Legacy transaction records and the fluent builder that assembles them.
//!
//! The records are passive values: every constructor stores its arguments
//! verbatim and performs no validation. A `LegacyTransaction` is produced
//! either by [`LegacyTransactionBuilder::build`] or by a successful decode
//! from bytes.

use vstd::prelude::*;

verus! {

/// A reference to a prior transaction output: a 32-byte transaction id
/// and an output index.
#[derive(Debug, Clone)]
pub struct OutPoint {
    pub txid: [u8; 32],
    pub vout: u32,
}

impl OutPoint {
    /// Stores both fields verbatim.
    pub fn new(txid: [u8; 32], vout: u32) -> (r: Self)
        ensures
            r.txid == txid,
            r.vout == vout,
    {
        OutPoint { txid, vout }
    }
}

/// A spender's reference to an [`OutPoint`], with an unlocking script and
/// a sequence number.
#[derive(Debug, Clone)]
pub struct TxInput {
    pub previous_output: OutPoint,
    pub script_sig: Vec<u8>,
    pub sequence: u32,
}

impl TxInput {
    /// Stores all three fields verbatim.
    pub fn new(previous_output: OutPoint, script_sig: Vec<u8>, sequence: u32) -> (r: Self)
        ensures
            r.previous_output == previous_output,
            r.script_sig == script_sig,
            r.sequence == sequence,
    {
        TxInput { previous_output, script_sig, sequence }
    }
}

/// A recipient's amount in satoshis plus a locking script.
#[derive(Debug, Clone)]
pub struct TxOutput {
    pub value: u64,
    pub script_pubkey: Vec<u8>,
}

impl TxOutput {
    /// Stores both fields verbatim.
    pub fn new(value: u64, script_pubkey: Vec<u8>) -> (r: Self)
        ensures
            r.value == value,
            r.script_pubkey == script_pubkey,
    {
        TxOutput { value, script_pubkey }
    }
}

/// An assembled legacy transaction. Inputs and outputs keep their
/// insertion order; both collections may be empty.
#[derive(Debug, Clone)]
pub struct LegacyTransaction {
    pub version: i32,
    pub inputs: Vec<TxInput>,
    pub outputs: Vec<TxOutput>,
    pub lock_time: u32,
}

impl LegacyTransaction {
    /// A fresh builder in its default state.
    pub fn builder() -> (r: LegacyTransactionBuilder)
        ensures
            r.is_default(),
    {
        LegacyTransactionBuilder::new()
    }
}

/// A mutable staging record for a [`LegacyTransaction`]. Each operation
/// consumes the builder and returns it updated; `build` moves the
/// accumulated fields into the finished transaction.
pub struct LegacyTransactionBuilder {
    pub version: i32,
    pub inputs: Vec<TxInput>,
    pub outputs: Vec<TxOutput>,
    pub lock_time: u32,
}

impl LegacyTransactionBuilder {
    /// The documented default state: `version = 1`, no inputs, no
    /// outputs, `lock_time = 0`.
    pub open spec fn is_default(self) -> bool {
        &&& self.version == 1
        &&& self.inputs@ == Seq::<TxInput>::empty()
        &&& self.outputs@ == Seq::<TxOutput>::empty()
        &&& self.lock_time == 0
    }

    /// Equivalent to `default`.
    pub fn new() -> (r: Self)
        ensures
            r.is_default(),
    {
        Self::default()
    }

    /// Sets the version field; the last write wins.
    pub fn version(self, version: i32) -> (r: Self)
        ensures
            r.version == version,
            r.inputs == self.inputs,
            r.outputs == self.outputs,
            r.lock_time == self.lock_time,
    {
        let mut b = self;
        b.version = version;
        b
    }

    /// Appends `input` to the input sequence; insertion order is the
    /// order in the final transaction.
    pub fn add_input(self, input: TxInput) -> (r: Self)
        ensures
            r.version == self.version,
            r.inputs@ == self.inputs@.push(input),
            r.outputs == self.outputs,
            r.lock_time == self.lock_time,
    {
        let mut b = self;
        b.inputs.push(input);
        b
    }

    /// Appends `output` to the output sequence; insertion order is the
    /// order in the final transaction.
    pub fn add_output(self, output: TxOutput) -> (r: Self)
        ensures
            r.version == self.version,
            r.inputs == self.inputs,
            r.outputs@ == self.outputs@.push(output),
            r.lock_time == self.lock_time,
    {
        let mut b = self;
        b.outputs.push(output);
        b
    }

    /// Sets the lock_time field; the last write wins.
    pub fn lock_time(self, lock_time: u32) -> (r: Self)
        ensures
            r.version == self.version,
            r.inputs == self.inputs,
            r.outputs == self.outputs,
            r.lock_time == lock_time,
    {
        let mut b = self;
        b.lock_time = lock_time;
        b
    }

    /// Consumes the builder and returns the assembled transaction; the
    /// transaction carries exactly the accumulated fields. Never fails.
    pub fn build(self) -> (r: LegacyTransaction)
        ensures
            r.version == self.version,
            r.inputs == self.inputs,
            r.outputs == self.outputs,
            r.lock_time == self.lock_time,
    {
        LegacyTransaction {
            version: self.version,
            inputs: self.inputs,
            outputs: self.outputs,
            lock_time: self.lock_time,
        }
    }
}

impl Default for LegacyTransactionBuilder {
    /// The default state documented on [`LegacyTransactionBuilder::is_default`].
    fn default() -> (r: Self)
        ensures
            r.is_default(),
    {
        LegacyTransactionBuilder {
            version: 1,
            inputs: Vec::new(),
            outputs: Vec::new(),
            lock_time: 0,
        }
    }
}

} // verus!
