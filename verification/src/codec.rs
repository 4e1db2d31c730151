//! The simplified binary codec for [`LegacyTransaction`].
//!
//! The two halves are deliberately *not* inverses. The encoder writes
//! exactly 8 bytes: the version and the lock time, each 4 bytes
//! little-endian; inputs and outputs are not serialized. The decoder
//! demands at least 10 bytes and reads a richer fixed-width layout:
//! version (4 bytes), an input count and an output count (1 byte each),
//! then the lock time (4 bytes); the counted inputs and outputs are
//! produced as default records, and trailing bytes are ignored.

use crate::errors::BitcoinError;
use crate::transaction::LegacyTransaction;
use crate::transaction::OutPoint;
use crate::transaction::TxInput;
use crate::transaction::TxOutput;
use vstd::prelude::*;

verus! {

/// The unsigned 32-bit value of four bytes in little-endian order.
pub open spec fn le_bytes_to_u32(b0: u8, b1: u8, b2: u8, b3: u8) -> u32 {
    (b0 as int + b1 as int * 0x100 + b2 as int * 0x10000 + b3 as int * 0x1000000) as u32
}

/// The signed 32-bit value of four bytes in little-endian order,
/// read as two's complement.
pub open spec fn le_bytes_to_i32(b0: u8, b1: u8, b2: u8, b3: u8) -> i32 {
    let u = le_bytes_to_u32(b0, b1, b2, b3) as int;
    if u < 0x8000_0000 {
        u as i32
    } else {
        (u - 0x1_0000_0000) as i32
    }
}

/// The four little-endian bytes of an unsigned 32-bit value.
pub open spec fn u32_le_bytes(x: u32) -> Seq<u8> {
    seq![
        (x as int % 0x100) as u8,
        (x as int / 0x100 % 0x100) as u8,
        (x as int / 0x10000 % 0x100) as u8,
        (x as int / 0x1000000 % 0x100) as u8,
    ]
}

/// The two's-complement bit pattern of a signed 32-bit value.
pub open spec fn i32_bits(x: i32) -> u32 {
    if x >= 0 {
        x as u32
    } else {
        (x + 0x1_0000_0000) as u32
    }
}

/// What the encoder produces: the version then the lock time, each four
/// bytes little-endian, eight bytes in all. Inputs and outputs do not
/// take part.
pub open spec fn serialized_bytes(t: LegacyTransaction) -> Seq<u8> {
    u32_le_bytes(i32_bits(t.version)) + u32_le_bytes(t.lock_time)
}

/// The input record the decoder produces for each counted input: an
/// all-zero 32-byte txid, output index 0, an empty unlocking script, and
/// sequence number `0xFFFF_FFFF`.
pub open spec fn is_default_input(inp: TxInput) -> bool {
    &&& forall|j: int| 0 <= j < 32 ==> #[trigger] inp.previous_output.txid@[j] == 0u8
    &&& inp.previous_output.vout == 0
    &&& inp.script_sig@ == Seq::<u8>::empty()
    &&& inp.sequence == 0xFFFF_FFFFu32
}

/// The output record the decoder produces for each counted output: a
/// zero amount and an empty locking script.
pub open spec fn is_default_output(out: TxOutput) -> bool {
    &&& out.value == 0
    &&& out.script_pubkey@ == Seq::<u8>::empty()
}

/// What a successful decode of `data` returns: the version read
/// little-endian at offset 0, `data[4]` default inputs, `data[5]`
/// default outputs, and the lock time read little-endian at offset 6.
pub open spec fn decoded_from(data: Seq<u8>, t: LegacyTransaction) -> bool {
    &&& t.version == le_bytes_to_i32(data[0], data[1], data[2], data[3])
    &&& t.inputs@.len() == data[4] as int
    &&& forall|i: int| 0 <= i < t.inputs@.len() ==> is_default_input(#[trigger] t.inputs@[i])
    &&& t.outputs@.len() == data[5] as int
    &&& forall|i: int| 0 <= i < t.outputs@.len() ==> is_default_output(#[trigger] t.outputs@[i])
    &&& t.lock_time == le_bytes_to_u32(data[6], data[7], data[8], data[9])
}

/// Encoding to the simplified wire format.
pub trait BitcoinSerialize {
    /// The byte sequence the encoder produces.
    spec fn serialized(&self) -> Seq<u8>;

    /// Encodes `self`; the result is exactly [`BitcoinSerialize::serialized`].
    fn serialize(&self) -> (r: Vec<u8>)
        ensures
            r@ == self.serialized(),
    ;
}

impl BitcoinSerialize for LegacyTransaction {
    open spec fn serialized(&self) -> Seq<u8> {
        serialized_bytes(*self)
    }

    fn serialize(&self) -> (r: Vec<u8>) {
        let vbits: u32 = if self.version >= 0 {
            self.version as u32
        } else {
            (self.version as i64 + 0x1_0000_0000i64) as u32
        };
        let mut bytes: Vec<u8> = Vec::new();
        bytes.push((vbits % 0x100) as u8);
        bytes.push((vbits / 0x100 % 0x100) as u8);
        bytes.push((vbits / 0x10000 % 0x100) as u8);
        bytes.push((vbits / 0x1000000 % 0x100) as u8);
        bytes.push((self.lock_time % 0x100) as u8);
        bytes.push((self.lock_time / 0x100 % 0x100) as u8);
        bytes.push((self.lock_time / 0x10000 % 0x100) as u8);
        bytes.push((self.lock_time / 0x1000000 % 0x100) as u8);
        proof {
            assert(bytes@ =~= serialized_bytes(*self));
        }
        bytes
    }
}

impl LegacyTransaction {
    /// Decodes a transaction from bytes. Fails with
    /// [`BitcoinError::InvalidTransaction`] exactly when `data` is
    /// shorter than 10 bytes; on any longer input it succeeds and reads
    /// the fixed-width layout at offsets 0, 4, 5 and 6, ignoring
    /// everything from offset 10 on.
    pub fn try_from(data: &[u8]) -> (r: Result<LegacyTransaction, BitcoinError>)
        ensures
            data@.len() < 10 ==> (r matches Err(e) && e is InvalidTransaction),
            data@.len() >= 10 ==> (r matches Ok(t) && decoded_from(data@, t)),
    {
        if data.len() < 10 {
            return Err(BitcoinError::InvalidTransaction);
        }

        let u: u32 = data[0] as u32 + data[1] as u32 * 0x100 + data[2] as u32 * 0x10000
            + data[3] as u32 * 0x1000000;
        let version: i32 = if u < 0x8000_0000 {
            u as i32
        } else {
            (u as i64 - 0x1_0000_0000i64) as i32
        };

        let input_count = data[4] as usize;
        let mut inputs: Vec<TxInput> = Vec::new();
        let mut i: usize = 0;
        while i < input_count
            invariant
                i <= input_count,
                inputs@.len() == i,
                forall|k: int| 0 <= k < i ==> is_default_input(#[trigger] inputs@[k]),
            decreases input_count - i,
        {
            inputs.push(
                TxInput {
                    previous_output: OutPoint { txid: [0u8; 32], vout: 0 },
                    script_sig: Vec::new(),
                    sequence: 0xFFFF_FFFF,
                },
            );
            i += 1;
        }

        let output_count = data[5] as usize;
        let mut outputs: Vec<TxOutput> = Vec::new();
        let mut j: usize = 0;
        while j < output_count
            invariant
                j <= output_count,
                outputs@.len() == j,
                forall|k: int| 0 <= k < j ==> is_default_output(#[trigger] outputs@[k]),
            decreases output_count - j,
        {
            outputs.push(TxOutput { value: 0, script_pubkey: Vec::new() });
            j += 1;
        }

        let lock_time: u32 = data[6] as u32 + data[7] as u32 * 0x100 + data[8] as u32 * 0x10000
            + data[9] as u32 * 0x1000000;

        Ok(LegacyTransaction { version, inputs, outputs, lock_time })
    }
}

/// The encoder is a function of the version and the lock time alone, and
/// always yields eight bytes: two transactions agreeing on those fields
/// serialize identically, whatever their inputs and outputs.
pub proof fn lemma_serialize_deterministic(a: LegacyTransaction, b: LegacyTransaction)
    requires
        a.version == b.version,
        a.lock_time == b.lock_time,
    ensures
        serialized_bytes(a) == serialized_bytes(b),
        serialized_bytes(a).len() == 8,
{
}

/// Encode and decode are not inverses: the encoder's output is eight
/// bytes, two short of what the decoder demands, so decoding an encoded
/// transaction always fails.
pub proof fn lemma_encoded_never_decodes(t: LegacyTransaction)
    ensures
        serialized_bytes(t).len() < 10,
{
}

} // verus!
