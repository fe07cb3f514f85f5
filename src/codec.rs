//! The byte layouts of the stored record and of instructions.
//!
//! A record is `sender(32) | receiver(32) | flow_rate | static_balance | start_time`,
//! each integer in eight little-endian bytes: 88 bytes in all. Bytes that are all
//! zero are read as a slot that was never written, so they hold no record; the
//! one record whose bytes are all zero (zero keys, rate, balance and start time)
//! therefore cannot be read back.
//!
//! An instruction is a tag byte: `0` followed by `flow_rate` and `initial_balance`
//! in eight little-endian bytes each, or `1` alone.

use crate::state::{Pubkey, StreamConfig, StreamError, StreamInstruction};
use vstd::bytes::{
    lemma_auto_spec_u64_to_from_le_bytes, spec_u64_from_le_bytes, spec_u64_to_le_bytes,
    u64_from_le_bytes, u64_to_le_bytes,
};
use vstd::prelude::*;

verus! {

/// The size of a stored record in bytes.
pub const RECORD_LEN: usize = 88;

pub open spec fn encode_key(k: Pubkey) -> Seq<u8> {
    k.bytes@
}

/// The two's-complement bits of `v`.
pub open spec fn i64_bits(v: i64) -> u64 {
    if v >= 0 {
        v as u64
    } else {
        (v + 0x1_0000_0000_0000_0000) as u64
    }
}

/// The signed value of the two's-complement bits `u`.
pub open spec fn i64_of_bits(u: u64) -> i64 {
    if u <= i64::MAX {
        u as i64
    } else {
        (u - 0x1_0000_0000_0000_0000) as i64
    }
}

pub open spec fn encode_i64(v: i64) -> Seq<u8> {
    spec_u64_to_le_bytes(i64_bits(v))
}

/// The 88 bytes that store `c`.
pub open spec fn encode_record(c: StreamConfig) -> Seq<u8> {
    encode_key(c.sender) + encode_key(c.receiver) + encode_i64(c.flow_rate)
        + spec_u64_to_le_bytes(c.static_balance) + encode_i64(c.start_time)
}

pub open spec fn is_blank(s: Seq<u8>) -> bool {
    forall|i: int| 0 <= i < s.len() ==> s[i] == 0
}

/// Bytes that a record was written as: the right length, and not a blank slot.
pub open spec fn is_record_bytes(s: Seq<u8>) -> bool {
    s.len() == RECORD_LEN && !is_blank(s)
}

/// The bytes of an instruction.
pub open spec fn encode_instruction(i: StreamInstruction) -> Seq<u8> {
    match i {
        StreamInstruction::Initialize { flow_rate, initial_balance } => seq![0u8] + encode_i64(
            flow_rate,
        ) + spec_u64_to_le_bytes(initial_balance),
        StreamInstruction::Terminate => seq![1u8],
    }
}

/// Bytes that decode to an instruction: a known tag with exactly its payload.
pub open spec fn is_instruction_bytes(s: Seq<u8>) -> bool {
    ||| (s.len() == 17 && s[0] == 0)
    ||| (s.len() == 1 && s[0] == 1)
}

/// The record that bytes were written from (unique: see `lemma_record_injective`).
pub open spec fn decoded_record(s: Seq<u8>) -> StreamConfig {
    choose|c: StreamConfig| encode_record(c) == s
}

/// The instruction that bytes were written from.
pub open spec fn decoded_instruction(s: Seq<u8>) -> StreamInstruction {
    choose|i: StreamInstruction| encode_instruction(i) == s
}

proof fn lemma_i64_bits(v: i64)
    ensures
        i64_of_bits(i64_bits(v)) == v,
        encode_i64(v).len() == 8,
{
    lemma_auto_spec_u64_to_from_le_bytes();
}

proof fn lemma_i64_from_bits(s: Seq<u8>)
    requires
        s.len() == 8,
    ensures
        encode_i64(i64_of_bits(spec_u64_from_le_bytes(s))) == s,
{
    lemma_auto_spec_u64_to_from_le_bytes();
}

fn to_bits(v: i64) -> (r: u64)
    ensures
        r == i64_bits(v),
{
    if v >= 0 {
        v as u64
    } else {
        ((v + 1 + 9223372036854775807) as u64) + 9223372036854775808
    }
}

fn from_bits(u: u64) -> (r: i64)
    ensures
        r == i64_of_bits(u),
{
    if u <= 9223372036854775807 {
        u as i64
    } else {
        (u - 9223372036854775808) as i64 - 9223372036854775807 - 1
    }
}

/// A record is stored in exactly `RECORD_LEN` bytes.
pub proof fn lemma_record_len(c: StreamConfig)
    ensures
        encode_record(c).len() == RECORD_LEN,
{
    lemma_auto_spec_u64_to_from_le_bytes();
}

/// Distinct records are stored as distinct bytes, so decoding what a record was
/// written as gives that record back.
pub proof fn lemma_record_injective(a: StreamConfig, b: StreamConfig)
    requires
        encode_record(a) == encode_record(b),
    ensures
        a == b,
{
    lemma_auto_spec_u64_to_from_le_bytes();
    let s = encode_record(a);
    assert(a.sender.bytes@ =~= s.subrange(0, 32));
    assert(b.sender.bytes@ =~= s.subrange(0, 32));
    assert(a.receiver.bytes@ =~= s.subrange(32, 64));
    assert(b.receiver.bytes@ =~= s.subrange(32, 64));
    assert(encode_i64(a.flow_rate) =~= s.subrange(64, 72));
    assert(encode_i64(b.flow_rate) =~= s.subrange(64, 72));
    assert(spec_u64_to_le_bytes(a.static_balance) =~= s.subrange(72, 80));
    assert(spec_u64_to_le_bytes(b.static_balance) =~= s.subrange(72, 80));
    assert(encode_i64(a.start_time) =~= s.subrange(80, 88));
    assert(encode_i64(b.start_time) =~= s.subrange(80, 88));
    lemma_i64_bits(a.flow_rate);
    lemma_i64_bits(b.flow_rate);
    lemma_i64_bits(a.start_time);
    lemma_i64_bits(b.start_time);
    crate::state::lemma_pubkey_eq(a.sender, b.sender);
    crate::state::lemma_pubkey_eq(a.receiver, b.receiver);
}

/// Distinct instructions are written as distinct bytes, and every instruction is
/// written as bytes that decode.
pub proof fn lemma_instruction_round_trip(a: StreamInstruction, b: StreamInstruction)
    ensures
        is_instruction_bytes(encode_instruction(a)),
        encode_instruction(a) == encode_instruction(b) ==> a == b,
{
    lemma_auto_spec_u64_to_from_le_bytes();
    match a {
        StreamInstruction::Initialize { flow_rate, initial_balance } => {
            lemma_i64_bits(flow_rate);
        },
        StreamInstruction::Terminate => {},
    }
    if encode_instruction(a) == encode_instruction(b) {
        let s = encode_instruction(a);
        match (a, b) {
            (
                StreamInstruction::Initialize { flow_rate: fa, initial_balance: ba },
                StreamInstruction::Initialize { flow_rate: fb, initial_balance: bb },
            ) => {
                assert(encode_i64(fa) =~= s.subrange(1, 9));
                assert(encode_i64(fb) =~= s.subrange(1, 9));
                assert(spec_u64_to_le_bytes(ba) =~= s.subrange(9, 17));
                assert(spec_u64_to_le_bytes(bb) =~= s.subrange(9, 17));
                lemma_i64_bits(fa);
                lemma_i64_bits(fb);
            },
            (StreamInstruction::Initialize { flow_rate, .. }, StreamInstruction::Terminate) => {
                lemma_i64_bits(flow_rate);
            },
            (StreamInstruction::Terminate, StreamInstruction::Initialize { flow_rate, .. }) => {
                lemma_i64_bits(flow_rate);
            },
            _ => {},
        }
    }
}

/// Decoding the bytes of a record gives that record back, and decoding the
/// bytes of an instruction gives that instruction back.
pub proof fn lemma_round_trip(c: StreamConfig, i: StreamInstruction)
    ensures
        decoded_record(encode_record(c)) == c,
        decoded_instruction(encode_instruction(i)) == i,
{
    lemma_record_injective(c, decoded_record(encode_record(c)));
    lemma_instruction_round_trip(i, decoded_instruction(encode_instruction(i)));
}

fn read_key(data: &[u8], at: usize) -> (r: Pubkey)
    requires
        at + 32 <= data@.len(),
    ensures
        r.bytes@ == data@.subrange(at as int, at + 32),
{
    let n = data.len();
    let mut bytes = [0u8; 32];
    let mut i: usize = 0;
    while i < 32
        invariant
            0 <= i <= 32,
            at + 32 <= n,
            n == data@.len(),
            bytes@.len() == 32,
            forall|j: int| 0 <= j < i ==> bytes@[j] == data@[at + j],
        decreases 32 - i,
    {
        bytes.set(i, data[at + i]);
        i = i + 1;
    }
    assert(bytes@ =~= data@.subrange(at as int, at + 32));
    Pubkey { bytes }
}

fn read_u64(data: &[u8], at: usize) -> (r: u64)
    requires
        at + 8 <= data@.len() <= usize::MAX,
    ensures
        spec_u64_to_le_bytes(r) == data@.subrange(at as int, at + 8),
{
    let part = vstd::slice::slice_subrange(data, at, at + 8);
    let r = u64_from_le_bytes(part);
    proof {
        lemma_auto_spec_u64_to_from_le_bytes();
    }
    r
}

fn read_i64(data: &[u8], at: usize) -> (r: i64)
    requires
        at + 8 <= data@.len() <= usize::MAX,
    ensures
        encode_i64(r) == data@.subrange(at as int, at + 8),
{
    let part = vstd::slice::slice_subrange(data, at, at + 8);
    let u = u64_from_le_bytes(part);
    proof {
        lemma_i64_from_bits(part@);
    }
    from_bits(u)
}

fn write_key(out: &mut Vec<u8>, k: &Pubkey)
    ensures
        final(out)@ == old(out)@ + encode_key(*k),
{
    let mut i: usize = 0;
    while i < 32
        invariant
            0 <= i <= 32,
            k.bytes@.len() == 32,
            out@ == old(out)@ + k.bytes@.subrange(0, i as int),
        decreases 32 - i,
    {
        out.push(k.bytes[i]);
        assert(k.bytes@.subrange(0, i + 1) =~= k.bytes@.subrange(0, i as int).push(k.bytes@[i as int]));
        i = i + 1;
    }
    assert(k.bytes@.subrange(0, 32) =~= k.bytes@);
}

fn write_u64(out: &mut Vec<u8>, v: u64)
    ensures
        final(out)@ == old(out)@ + spec_u64_to_le_bytes(v),
{
    let mut b = u64_to_le_bytes(v);
    out.append(&mut b);
}

fn is_blank_slice(data: &[u8]) -> (r: bool)
    ensures
        r == is_blank(data@),
{
    let mut i: usize = 0;
    while i < data.len()
        invariant
            0 <= i <= data@.len(),
            forall|j: int| 0 <= j < i ==> data@[j] == 0,
        decreases data@.len() - i,
    {
        if data[i] != 0 {
            return false;
        }
        i = i + 1;
    }
    true
}

impl StreamConfig {
    /// Reads a record from the bytes of a stream slot. Fails with `MalformedRecord`
    /// on bytes of another length and on a blank slot.
    pub fn try_from_slice(data: &[u8]) -> (r: Result<StreamConfig, StreamError>)
        ensures
            r.is_ok() == is_record_bytes(data@),
            r matches Ok(c) ==> encode_record(c) == data@,
            r matches Err(e) ==> e == StreamError::MalformedRecord,
    {
        let n = data.len();
    if n != RECORD_LEN || is_blank_slice(data) {
            return Err(StreamError::MalformedRecord);
        }
        let sender = read_key(data, 0);
        let receiver = read_key(data, 32);
        let flow_rate = read_i64(data, 64);
        let static_balance = read_u64(data, 72);
        let start_time = read_i64(data, 80);
        let c = StreamConfig { sender, receiver, flow_rate, static_balance, start_time };
        assert(encode_record(c) =~= data@);
        Ok(c)
    }

    /// The bytes that store this record.
    pub fn to_bytes(&self) -> (r: Vec<u8>)
        ensures
            r@ == encode_record(*self),
            r@.len() == RECORD_LEN,
    {
        let mut out: Vec<u8> = Vec::new();
        write_key(&mut out, &self.sender);
        write_key(&mut out, &self.receiver);
        write_u64(&mut out, to_bits(self.flow_rate));
        write_u64(&mut out, self.static_balance);
        write_u64(&mut out, to_bits(self.start_time));
        proof {
            lemma_record_len(*self);
            assert(out@ =~= encode_record(*self));
        }
        out
    }
}

impl StreamInstruction {
    /// Reads an instruction. Fails with `MalformedInstruction` on an unknown tag,
    /// a short payload or bytes left over.
    pub fn try_from_slice(data: &[u8]) -> (r: Result<StreamInstruction, StreamError>)
        ensures
            r.is_ok() == is_instruction_bytes(data@),
            r matches Ok(i) ==> encode_instruction(i) == data@,
            r matches Err(e) ==> e == StreamError::MalformedInstruction,
    {
        let n = data.len();
        if n == 17 && data[0] == 0 {
            let flow_rate = read_i64(data, 1);
            let initial_balance = read_u64(data, 9);
            let i = StreamInstruction::Initialize { flow_rate, initial_balance };
            assert(encode_instruction(i) =~= data@);
            Ok(i)
        } else if n == 1 && data[0] == 1 {
            assert(encode_instruction(StreamInstruction::Terminate) =~= data@);
            Ok(StreamInstruction::Terminate)
        } else {
            Err(StreamError::MalformedInstruction)
        }
    }

    /// Appends the bytes of this instruction to `out`.
    pub fn serialize(&self, out: &mut Vec<u8>)
        ensures
            final(out)@ == old(out)@ + encode_instruction(*self),
    {
        match self {
            StreamInstruction::Initialize { flow_rate, initial_balance } => {
                let ghost start = out@;
                out.push(0u8);
                write_u64(out, to_bits(*flow_rate));
                write_u64(out, *initial_balance);
                assert(out@ =~= start + encode_instruction(*self));
            },
            StreamInstruction::Terminate => {
                let ghost start = out@;
                out.push(1u8);
                assert(out@ =~= start + encode_instruction(*self));
            },
        }
    }
}

} // verus!
