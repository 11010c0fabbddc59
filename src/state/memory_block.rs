//! The memory record and its fixed 80-byte layout on the ledger:
//! an 8-byte type tag, the owner, the data hash and the timestamp as a
//! little-endian two's-complement 64-bit integer.
use anchor_lang::solana_program::hash::hash;
use vstd::prelude::*;
use vstd::string::StringSliceAdditionalSpecFns;

verus! {

/// A stored memory record: who wrote it, the hash of the remembered data, and
/// the host's Unix time when it was written. Never changed once written.
#[derive(Clone, Copy, Debug)]
pub struct MemoryBlock {
    pub owner: [u8; 32],
    pub data_hash: [u8; 32],
    pub timestamp: i64,
}

/// The SHA-256 digest of `data`.
pub uninterp spec fn sha256_of(data: Seq<u8>) -> Seq<u8>;

/// Relies on `solana_program::hash::hash`: the SHA-256 digest of its input,
/// 32 bytes.
#[verifier::external_body]
fn sha256(data: &[u8]) -> (r: [u8; 32])
    ensures
        r@ == sha256_of(data@),
{
    hash(data).to_bytes()
}

/// The name from which a record's type tag is hashed.
pub const ACCOUNT_NAME: &'static str = "account:MemoryBlock";

/// The type tag: the first eight bytes of the digest of the account name.
pub open spec fn record_tag() -> Seq<u8> {
    sha256_of(ACCOUNT_NAME.spec_bytes()).subrange(0, 8)
}

/// The eight little-endian bytes of `u`.
pub open spec fn u64_le(u: u64) -> Seq<u8> {
    seq![
        (u & 0xff) as u8,
        ((u >> 8u64) & 0xff) as u8,
        ((u >> 16u64) & 0xff) as u8,
        ((u >> 24u64) & 0xff) as u8,
        ((u >> 32u64) & 0xff) as u8,
        ((u >> 40u64) & 0xff) as u8,
        ((u >> 48u64) & 0xff) as u8,
        ((u >> 56u64) & 0xff) as u8,
    ]
}

/// The integer whose little-endian bytes are the first eight of `s`.
pub open spec fn u64_of_le(s: Seq<u8>) -> u64 {
    (s[0] as u64) | ((s[1] as u64) << 8u64) | ((s[2] as u64) << 16u64) | ((s[3] as u64) << 24u64) | ((
    s[4] as u64) << 32u64) | ((s[5] as u64) << 40u64) | ((s[6] as u64) << 48u64) | ((s[7] as u64) << 56u64)
}

/// The two's-complement bits of `t`.
pub open spec fn i64_bits(t: i64) -> u64 {
    if t >= 0 {
        t as u64
    } else {
        (t + 0x1_0000_0000_0000_0000) as u64
    }
}

/// The signed integer whose two's-complement bits are `u`.
pub open spec fn i64_of_bits(u: u64) -> i64 {
    if u < 0x8000_0000_0000_0000 {
        u as i64
    } else {
        (u - 0x1_0000_0000_0000_0000) as i64
    }
}

/// The 80 bytes that hold `b` on the ledger.
pub open spec fn layout(b: MemoryBlock) -> Seq<u8> {
    record_tag() + b.owner@ + b.data_hash@ + u64_le(i64_bits(b.timestamp))
}

/// Whether `data` starts with a record's tag and is long enough to hold one.
pub open spec fn holds_record(data: Seq<u8>) -> bool {
    data.len() >= 80 && data.subrange(0, 8) == record_tag()
}

/// Whether `b` is the record that `data` holds; bytes past the 80th are
/// ignored.
pub open spec fn decodes_to(data: Seq<u8>, b: MemoryBlock) -> bool {
    &&& b.owner@ == data.subrange(8, 40)
    &&& b.data_hash@ == data.subrange(40, 72)
    &&& b.timestamp == i64_of_bits(u64_of_le(data.subrange(72, 80)))
}

proof fn lemma_u64_le_round_trip(u: u64)
    ensures
        u64_of_le(u64_le(u)) == u,
{
    assert(((u & 0xff) as u8) as u64 | ((((u >> 8u64) & 0xff) as u8) as u64) << 8u64 | ((((u >> 16u64)
        & 0xff) as u8) as u64) << 16u64 | ((((u >> 24u64) & 0xff) as u8) as u64) << 24u64 | ((((u
        >> 32u64) & 0xff) as u8) as u64) << 32u64 | ((((u >> 40u64) & 0xff) as u8) as u64) << 40u64
        | ((((u >> 48u64) & 0xff) as u8) as u64) << 48u64 | ((((u >> 56u64) & 0xff) as u8) as u64)
        << 56u64 == u) by (bit_vector);
}

/// A record read back from its layout is the record written, whatever
/// follows the 80 bytes (the digest behind the tag being 32 bytes long).
pub proof fn lemma_layout_round_trip(b: MemoryBlock, rest: Seq<u8>)
    requires
        sha256_of(ACCOUNT_NAME.spec_bytes()).len() == 32,
    ensures
        holds_record(layout(b) + rest),
        decodes_to(layout(b) + rest, b),
{
    let data = layout(b) + rest;
    lemma_u64_le_round_trip(i64_bits(b.timestamp));
    assert(data.subrange(0, 8) =~= record_tag());
    assert(data.subrange(8, 40) =~= b.owner@);
    assert(data.subrange(40, 72) =~= b.data_hash@);
    assert(data.subrange(72, 80) =~= u64_le(i64_bits(b.timestamp)));
}

fn i64_to_bits(t: i64) -> (r: u64)
    ensures
        r == i64_bits(t),
{
    if t >= 0 {
        t as u64
    } else {
        let m: i64 = -(t + 1);
        u64::MAX - (m as u64)
    }
}

fn bits_to_i64(u: u64) -> (r: i64)
    ensures
        r == i64_of_bits(u),
{
    if u < 0x8000_0000_0000_0000 {
        u as i64
    } else {
        let m: u64 = u64::MAX - u;
        -(m as i64) - 1
    }
}

fn push_key(out: &mut Vec<u8>, key: &[u8; 32])
    ensures
        final(out)@ == old(out)@ + key@,
{
    let ghost start = out@;
    let mut i: usize = 0;
    while i < 32
        invariant
            i <= 32,
            key@.len() == 32,
            out@ == start + key@.subrange(0, i as int),
        decreases 32 - i,
    {
        out.push(key[i]);
        i = i + 1;
        assert(out@ =~= start + key@.subrange(0, i as int));
    }
    assert(key@.subrange(0, 32) =~= key@);
}

fn read_key(data: &[u8], start: usize) -> (r: [u8; 32])
    requires
        start + 32 <= data@.len(),
    ensures
        r@ == data@.subrange(start as int, start + 32),
{
    let n: usize = data.len();
    let mut key = [0u8; 32];
    let mut i: usize = 0;
    while i < 32
        invariant
            i <= 32,
            n == data@.len(),
            start + 32 <= data@.len(),
            key@.len() == 32,
            forall|j: int| 0 <= j < i ==> key@[j] == data@[start + j],
        decreases 32 - i,
    {
        key[i] = data[start + i];
        i = i + 1;
    }
    assert(key@ =~= data@.subrange(start as int, start + 32));
    key
}

impl MemoryBlock {
    /// Bytes that a record takes on the ledger: an 8-byte type tag, the
    /// owner, the hash and the timestamp.
    pub const LEN: usize = 8 + 32 + 32 + 8;

    /// The type tag that opens a record's bytes.
    pub fn tag() -> (r: [u8; 8])
        ensures
            r@ == record_tag(),
    {
        let digest = sha256(ACCOUNT_NAME.as_bytes());
        let mut r = [0u8; 8];
        let mut i: usize = 0;
        while i < 8
            invariant
                i <= 8,
                digest@.len() == 32,
                r@.len() == 8,
                digest@ == sha256_of(ACCOUNT_NAME.spec_bytes()),
                forall|j: int| 0 <= j < i ==> r@[j] == digest@[j],
            decreases 8 - i,
        {
            r[i] = digest[i];
            i = i + 1;
        }
        assert(r@ =~= record_tag());
        r
    }

    /// The record's bytes on the ledger.
    pub fn to_account_data(&self) -> (r: Vec<u8>)
        ensures
            r@ == layout(*self),
    {
        let tag = MemoryBlock::tag();
        let mut out: Vec<u8> = Vec::new();
        let mut i: usize = 0;
        while i < 8
            invariant
                i <= 8,
                tag@.len() == 8,
                out@ == tag@.subrange(0, i as int),
            decreases 8 - i,
        {
            out.push(tag[i]);
            i = i + 1;
            assert(out@ =~= tag@.subrange(0, i as int));
        }
        assert(tag@.subrange(0, 8) =~= tag@);
        push_key(&mut out, &self.owner);
        push_key(&mut out, &self.data_hash);
        let u = i64_to_bits(self.timestamp);
        out.push((u & 0xff) as u8);
        out.push(((u >> 8u64) & 0xff) as u8);
        out.push(((u >> 16u64) & 0xff) as u8);
        out.push(((u >> 24u64) & 0xff) as u8);
        out.push(((u >> 32u64) & 0xff) as u8);
        out.push(((u >> 40u64) & 0xff) as u8);
        out.push(((u >> 48u64) & 0xff) as u8);
        out.push(((u >> 56u64) & 0xff) as u8);
        assert(out@ =~= layout(*self));
        out
    }

    /// Reads a record from its bytes: `None` when they are too short or do
    /// not open with the record's tag.
    pub fn from_account_data(data: &[u8]) -> (r: Option<MemoryBlock>)
        ensures
            r is Some <==> holds_record(data@),
            r matches Some(b) ==> decodes_to(data@, b),
    {
        if data.len() < 80 {
            return None;
        }
        let tag = MemoryBlock::tag();
        let mut i: usize = 0;
        while i < 8
            invariant
                i <= 8,
                data@.len() >= 80,
                tag@ == record_tag(),
                tag@.len() == 8,
                forall|j: int| 0 <= j < i ==> data@[j] == tag@[j],
            decreases 8 - i,
        {
            if data[i] != tag[i] {
                assert(data@.subrange(0, 8)[i as int] != record_tag()[i as int]);
                return None;
            }
            i = i + 1;
        }
        assert(data@.subrange(0, 8) =~= record_tag());
        let owner = read_key(data, 8);
        let data_hash = read_key(data, 40);
        let u: u64 = (data[72] as u64) | ((data[73] as u64) << 8u64) | ((data[74] as u64) << 16u64) | ((
        data[75] as u64) << 24u64) | ((data[76] as u64) << 32u64) | ((data[77] as u64) << 40u64) | ((
        data[78] as u64) << 48u64) | ((data[79] as u64) << 56u64);
        let timestamp = bits_to_i64(u);
        assert(u == u64_of_le(data@.subrange(72, 80)));
        Some(MemoryBlock { owner, data_hash, timestamp })
    }
}

} // verus!
