//! The instruction payload: one tag byte, then the operation's arguments.

use vstd::prelude::*;
use vstd::arithmetic::div_mod::{
    lemma_div_denominator, lemma_fundamental_div_mod, lemma_fundamental_div_mod_converse,
};
use crate::error::DispatchError;

verus! {

/// Tag byte of the genesis operation.
pub const TAG_INITIALIZE: u8 = 0;

/// Tag byte of the transfer operation.
pub const TAG_TRANSFER: u8 = 1;

/// Length of the shortest payload that holds a transfer: the tag and eight
/// bytes of amount.
pub const TRANSFER_PAYLOAD_LEN: usize = 9;

/// The operation a payload selects.
#[derive(Clone, Copy, Debug, PartialEq, Eq, Structural)]
pub enum Operation {
    /// Mint the whole supply once and give up the right to mint.
    InitializeAndLock,
    /// Move units from one token account to another.
    Transfer,
}

/// The number that eight bytes spell in little-endian order.
pub open spec fn le_u64(bytes: Seq<u8>) -> int
    recommends
        bytes.len() == 8,
{
    bytes[0] + bytes[1] * 0x100 + bytes[2] * 0x1_0000 + bytes[3] * 0x100_0000 + bytes[4]
        * 0x1_0000_0000 + bytes[5] * 0x100_0000_0000 + bytes[6] * 0x1_0000_0000_0000 + bytes[7]
        * 0x100_0000_0000_0000
}

/// The eight bytes that spell a number in little-endian order.
pub open spec fn le_bytes(value: u64) -> Seq<u8> {
    seq![
        (value % 0x100) as u8,
        (value / 0x100 % 0x100) as u8,
        (value / 0x1_0000 % 0x100) as u8,
        (value / 0x100_0000 % 0x100) as u8,
        (value / 0x1_0000_0000 % 0x100) as u8,
        (value / 0x100_0000_0000 % 0x100) as u8,
        (value / 0x1_0000_0000_0000 % 0x100) as u8,
        (value / 0x100_0000_0000_0000 % 0x100) as u8,
    ]
}

/// Reading back the bytes of a number gives the number.
pub proof fn lemma_le_round_trip(value: u64)
    ensures
        le_bytes(value).len() == 8,
        le_u64(le_bytes(value)) == value,
{
    let v: int = value as int;
    lemma_div_denominator(v, 0x100, 0x100);
    lemma_div_denominator(v, 0x1_0000, 0x100);
    lemma_div_denominator(v, 0x100_0000, 0x100);
    lemma_div_denominator(v, 0x1_0000_0000, 0x100);
    lemma_div_denominator(v, 0x100_0000_0000, 0x100);
    lemma_div_denominator(v, 0x1_0000_0000_0000, 0x100);
    lemma_fundamental_div_mod(v, 0x100);
    lemma_fundamental_div_mod(v / 0x100, 0x100);
    lemma_fundamental_div_mod(v / 0x1_0000, 0x100);
    lemma_fundamental_div_mod(v / 0x100_0000, 0x100);
    lemma_fundamental_div_mod(v / 0x1_0000_0000, 0x100);
    lemma_fundamental_div_mod(v / 0x100_0000_0000, 0x100);
    lemma_fundamental_div_mod(v / 0x1_0000_0000_0000, 0x100);
    assert(v / 0x100_0000_0000_0000 < 0x100);
}

/// Spelling out the number that eight bytes hold gives the bytes.
pub proof fn lemma_le_bytes_of_value(bytes: Seq<u8>)
    requires
        bytes.len() == 8,
    ensures
        0 <= le_u64(bytes) <= u64::MAX,
        le_bytes(le_u64(bytes) as u64) == bytes,
{
    let v: int = le_u64(bytes);
    let k7: int = bytes[7] as int;
    let k6: int = bytes[6] + 0x100 * k7;
    let k5: int = bytes[5] + 0x100 * k6;
    let k4: int = bytes[4] + 0x100 * k5;
    let k3: int = bytes[3] + 0x100 * k4;
    let k2: int = bytes[2] + 0x100 * k3;
    let k1: int = bytes[1] + 0x100 * k2;
    assert(v == bytes[0] + 0x100 * k1);
    lemma_fundamental_div_mod_converse(v, 0x100, k1, bytes[0] as int);
    lemma_fundamental_div_mod_converse(k1, 0x100, k2, bytes[1] as int);
    lemma_fundamental_div_mod_converse(k2, 0x100, k3, bytes[2] as int);
    lemma_fundamental_div_mod_converse(k3, 0x100, k4, bytes[3] as int);
    lemma_fundamental_div_mod_converse(k4, 0x100, k5, bytes[4] as int);
    lemma_fundamental_div_mod_converse(k5, 0x100, k6, bytes[5] as int);
    lemma_fundamental_div_mod_converse(k6, 0x100, k7, bytes[6] as int);
    lemma_div_denominator(v, 0x100, 0x100);
    lemma_div_denominator(v, 0x1_0000, 0x100);
    lemma_div_denominator(v, 0x100_0000, 0x100);
    lemma_div_denominator(v, 0x1_0000_0000, 0x100);
    lemma_div_denominator(v, 0x100_0000_0000, 0x100);
    lemma_div_denominator(v, 0x1_0000_0000_0000, 0x100);
    assert(k7 % 0x100 == bytes[7]);
    assert(le_bytes(v as u64) =~= bytes);
}

/// The operation that the first byte of a payload selects.
pub open spec fn operation_of(payload: Seq<u8>) -> Result<Operation, DispatchError> {
    if payload.len() == 0 {
        Err(DispatchError::InvalidInstructionData)
    } else if payload[0] == TAG_INITIALIZE {
        Ok(Operation::InitializeAndLock)
    } else if payload[0] == TAG_TRANSFER {
        Ok(Operation::Transfer)
    } else {
        Err(DispatchError::InvalidInstructionData)
    }
}

/// The amount that a transfer payload carries in bytes 1 to 8.
pub open spec fn amount_of(payload: Seq<u8>) -> Result<u64, DispatchError> {
    if payload.len() < 9 {
        Err(DispatchError::InvalidInstructionData)
    } else {
        Ok(le_u64(payload.subrange(1, 9)) as u64)
    }
}

/// Reads the operation tag. An empty payload and an unknown tag are both
/// invalid instruction data.
pub fn decode_operation(payload: &[u8]) -> (r: Result<Operation, DispatchError>)
    ensures
        r == operation_of(payload@),
{
    if payload.len() == 0 {
        return Err(DispatchError::InvalidInstructionData);
    }
    let tag: u8 = payload[0];
    if tag == TAG_INITIALIZE {
        Ok(Operation::InitializeAndLock)
    } else if tag == TAG_TRANSFER {
        Ok(Operation::Transfer)
    } else {
        Err(DispatchError::InvalidInstructionData)
    }
}

/// Reads the transfer amount. Bytes behind the ninth are ignored; a payload
/// of fewer than nine bytes is invalid instruction data.
pub fn decode_amount(payload: &[u8]) -> (r: Result<u64, DispatchError>)
    ensures
        r == amount_of(payload@),
{
    if payload.len() < TRANSFER_PAYLOAD_LEN {
        return Err(DispatchError::InvalidInstructionData);
    }
    let b0: u64 = payload[1] as u64;
    let b1: u64 = payload[2] as u64;
    let b2: u64 = payload[3] as u64;
    let b3: u64 = payload[4] as u64;
    let b4: u64 = payload[5] as u64;
    let b5: u64 = payload[6] as u64;
    let b6: u64 = payload[7] as u64;
    let b7: u64 = payload[8] as u64;
    let amount: u64 = b0 + b1 * 0x100 + b2 * 0x1_0000 + b3 * 0x100_0000 + b4 * 0x1_0000_0000 + b5
        * 0x100_0000_0000 + b6 * 0x1_0000_0000_0000 + b7 * 0x100_0000_0000_0000;
    Ok(amount)
}

} // verus!
