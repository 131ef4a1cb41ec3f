//! The persisted agreement record and its fixed-size byte layout.
use vstd::prelude::*;

verus! {

/// Length of an account identity (a public key), in bytes.
pub const KEY_LEN: usize = 32;

/// Length of the encoded record, without any platform-specific tag.
pub const RECORD_LEN: usize = 107;

/// Offset of the `is_active` byte in the encoded record.
pub const ACTIVE_OFFSET: usize = 105;

/// Offset of the `is_invested` byte in the encoded record.
pub const INVESTED_OFFSET: usize = 106;

/// An opaque account identity: the 32 bytes of a public key.
#[derive(Debug, Clone, Copy, PartialEq, Eq)]
pub struct AccountKey {
    pub bytes: [u8; 32],
}

/// The state of one investment agreement between an investor and a startup.
#[derive(Debug, Clone, Copy, PartialEq, Eq)]
pub struct InvestmentContract {
    pub investor: AccountKey,
    pub startup: AccountKey,
    pub principal_amount: u64,
    pub investor_return_percent: u8,
    pub duration_days: u64,
    pub start_time: i64,
    pub total_revenue: u64,
    pub total_distributed: u64,
    pub is_active: bool,
    pub is_invested: bool,
}

/// Why a byte string is not an encoded record.
#[derive(Debug, Clone, Copy, PartialEq, Eq, Structural)]
pub enum RecordError {
    /// The input is not exactly `RECORD_LEN` bytes long.
    WrongLength,
    /// A flag byte is neither 0 nor 1.
    InvalidFlag,
}

impl InvestmentContract {
    /// Size of the encoded record: the widths of its fields, in order.
    pub const LEN: usize = 32 + 32 + 8 + 1 + 8 + 8 + 8 + 8 + 1 + 1;

    /// The invariants every committed agreement satisfies.
    pub open spec fn wf(&self) -> bool {
        &&& self.principal_amount > 0
        &&& self.duration_days > 0
        &&& self.investor_return_percent <= 100
        &&& self.total_distributed <= self.total_revenue
    }
}

/// The eight little-endian bytes of `v`.
pub open spec fn le_u64(v: u64) -> Seq<u8> {
    seq![
        v as u8,
        (v >> 8u64) as u8,
        (v >> 16u64) as u8,
        (v >> 24u64) as u8,
        (v >> 32u64) as u8,
        (v >> 40u64) as u8,
        (v >> 48u64) as u8,
        (v >> 56u64) as u8,
    ]
}

/// The `u64` whose little-endian bytes are `b0`, ..., `b7`.
pub open spec fn u64_of_le_bytes(b0: u8, b1: u8, b2: u8, b3: u8, b4: u8, b5: u8, b6: u8, b7: u8) -> u64 {
    (b0 as u64) | ((b1 as u64) << 8u64) | ((b2 as u64) << 16u64) | ((b3 as u64) << 24u64) | ((
    b4 as u64) << 32u64) | ((b5 as u64) << 40u64) | ((b6 as u64) << 48u64) | ((b7 as u64)
        << 56u64)
}

/// The `u64` stored little-endian in `s[off..off + 8]`.
pub open spec fn u64_at(s: Seq<u8>, off: int) -> u64 {
    u64_of_le_bytes(
        s[off],
        s[off + 1],
        s[off + 2],
        s[off + 3],
        s[off + 4],
        s[off + 5],
        s[off + 6],
        s[off + 7],
    )
}

/// A flag as a byte.
pub open spec fn flag_byte(b: bool) -> u8 {
    if b {
        1
    } else {
        0
    }
}

/// Whether a byte encodes a flag.
pub open spec fn is_flag_byte(x: u8) -> bool {
    x == 0 || x == 1
}

/// The encoded record: the fields in declaration order, integers
/// little-endian, the start time in two's complement, flags as 0 or 1.
pub open spec fn record_bytes(c: InvestmentContract) -> Seq<u8> {
    c.investor.bytes@ + c.startup.bytes@ + le_u64(c.principal_amount) + seq![
        c.investor_return_percent,
    ] + le_u64(c.duration_days) + le_u64(c.start_time as u64) + le_u64(c.total_revenue)
        + le_u64(c.total_distributed) + seq![flag_byte(c.is_active), flag_byte(c.is_invested)]
}

/// The record that a byte string encodes, or why it encodes none.
pub open spec fn record_from_bytes(b: Seq<u8>) -> Result<InvestmentContract, RecordError> {
    if b.len() != RECORD_LEN {
        Err(RecordError::WrongLength)
    } else if !is_flag_byte(b[ACTIVE_OFFSET as int]) || !is_flag_byte(b[INVESTED_OFFSET as int]) {
        Err(RecordError::InvalidFlag)
    } else {
        Ok(choose|c: InvestmentContract| record_bytes(c) == b)
    }
}

proof fn lemma_u64_round_trip(v: u64)
    ensures
        u64_at(le_u64(v), 0) == v,
{
    let b = le_u64(v);
    assert(b[0] == v as u8 && b[1] == (v >> 8u64) as u8 && b[2] == (v >> 16u64) as u8 && b[3] == (v
        >> 24u64) as u8 && b[4] == (v >> 32u64) as u8 && b[5] == (v >> 40u64) as u8 && b[6] == (v
        >> 48u64) as u8 && b[7] == (v >> 56u64) as u8);
    assert(u64_of_le_bytes(
        v as u8,
        (v >> 8u64) as u8,
        (v >> 16u64) as u8,
        (v >> 24u64) as u8,
        (v >> 32u64) as u8,
        (v >> 40u64) as u8,
        (v >> 48u64) as u8,
        (v >> 56u64) as u8,
    ) == v) by (bit_vector);
}

proof fn lemma_bytes_round_trip(s: Seq<u8>, off: int)
    requires
        0 <= off,
        off + 8 <= s.len(),
    ensures
        le_u64(u64_at(s, off)) == s.subrange(off, off + 8),
{
    let b0 = s[off];
    let b1 = s[off + 1];
    let b2 = s[off + 2];
    let b3 = s[off + 3];
    let b4 = s[off + 4];
    let b5 = s[off + 5];
    let b6 = s[off + 6];
    let b7 = s[off + 7];
    let v = u64_of_le_bytes(b0, b1, b2, b3, b4, b5, b6, b7);
    assert(v as u8 == b0 && (v >> 8u64) as u8 == b1 && (v >> 16u64) as u8 == b2 && (v >> 24u64) as u8
        == b3 && (v >> 32u64) as u8 == b4 && (v >> 40u64) as u8 == b5 && (v >> 48u64) as u8 == b6
        && (v >> 56u64) as u8 == b7) by (bit_vector)
        requires
            v == u64_of_le_bytes(b0, b1, b2, b3, b4, b5, b6, b7),
    ;
    assert(le_u64(v) =~= s.subrange(off, off + 8));
}

proof fn lemma_u64_in(s: Seq<u8>, off: int, v: u64)
    requires
        0 <= off,
        off + 8 <= s.len(),
        s.subrange(off, off + 8) == le_u64(v),
    ensures
        u64_at(s, off) == v,
{
    lemma_u64_round_trip(v);
    let t = s.subrange(off, off + 8);
    assert(t[0] == s[off] && t[1] == s[off + 1] && t[2] == s[off + 2] && t[3] == s[off + 3] && t[4]
        == s[off + 4] && t[5] == s[off + 5] && t[6] == s[off + 6] && t[7] == s[off + 7]);
}

proof fn lemma_i64_bits(x: i64, u: u64)
    ensures
        (x as u64) as i64 == x,
        (u as i64) as u64 == u,
{
    assert((x as u64) as i64 == x) by (bit_vector);
    assert((u as i64) as u64 == u) by (bit_vector);
}

/// Where each field lies in the encoded record.
proof fn lemma_record_pieces(c: InvestmentContract)
    ensures
        record_bytes(c).len() == RECORD_LEN,
        record_bytes(c).subrange(0, 32) == c.investor.bytes@,
        record_bytes(c).subrange(32, 64) == c.startup.bytes@,
        record_bytes(c).subrange(64, 72) == le_u64(c.principal_amount),
        record_bytes(c)[72] == c.investor_return_percent,
        record_bytes(c).subrange(73, 81) == le_u64(c.duration_days),
        record_bytes(c).subrange(81, 89) == le_u64(c.start_time as u64),
        record_bytes(c).subrange(89, 97) == le_u64(c.total_revenue),
        record_bytes(c).subrange(97, 105) == le_u64(c.total_distributed),
        record_bytes(c)[ACTIVE_OFFSET as int] == flag_byte(c.is_active),
        record_bytes(c)[INVESTED_OFFSET as int] == flag_byte(c.is_invested),
{
    let b = record_bytes(c);
    assert(b.subrange(0, 32) =~= c.investor.bytes@);
    assert(b.subrange(32, 64) =~= c.startup.bytes@);
    assert(b.subrange(64, 72) =~= le_u64(c.principal_amount));
    assert(b.subrange(73, 81) =~= le_u64(c.duration_days));
    assert(b.subrange(81, 89) =~= le_u64(c.start_time as u64));
    assert(b.subrange(89, 97) =~= le_u64(c.total_revenue));
    assert(b.subrange(97, 105) =~= le_u64(c.total_distributed));
}

/// Two records with the same encoding are the same record.
proof fn lemma_record_bytes_injective(c: InvestmentContract, d: InvestmentContract)
    requires
        record_bytes(c) == record_bytes(d),
    ensures
        c == d,
{
    let b = record_bytes(c);
    lemma_record_pieces(c);
    lemma_record_pieces(d);
    assert(c.investor.bytes =~= d.investor.bytes) by {
        assert forall|i: int| 0 <= i < 32 implies c.investor.bytes[i] == d.investor.bytes[i] by {
            assert(c.investor.bytes@[i] == b.subrange(0, 32)[i]);
        }
    }
    assert(c.startup.bytes =~= d.startup.bytes) by {
        assert forall|i: int| 0 <= i < 32 implies c.startup.bytes[i] == d.startup.bytes[i] by {
            assert(c.startup.bytes@[i] == b.subrange(32, 64)[i]);
        }
    }
    lemma_u64_in(b, 64, c.principal_amount);
    lemma_u64_in(b, 64, d.principal_amount);
    lemma_u64_in(b, 73, c.duration_days);
    lemma_u64_in(b, 73, d.duration_days);
    lemma_u64_in(b, 81, c.start_time as u64);
    lemma_u64_in(b, 81, d.start_time as u64);
    lemma_u64_in(b, 89, c.total_revenue);
    lemma_u64_in(b, 89, d.total_revenue);
    lemma_u64_in(b, 97, c.total_distributed);
    lemma_u64_in(b, 97, d.total_distributed);
    lemma_i64_bits(c.start_time, 0);
    lemma_i64_bits(d.start_time, 0);
}

/// Encoding a record and decoding the bytes gives back every field exactly.
pub proof fn lemma_record_round_trip(c: InvestmentContract)
    ensures
        record_from_bytes(record_bytes(c)) == Ok::<InvestmentContract, RecordError>(c),
{
    let b = record_bytes(c);
    lemma_record_pieces(c);
    let d = choose|d: InvestmentContract| record_bytes(d) == b;
    lemma_record_bytes_injective(c, d);
}

fn push_key(out: &mut Vec<u8>, key: &AccountKey)
    ensures
        final(out)@ == old(out)@ + key.bytes@,
{
    let ghost start = out@;
    let mut i: usize = 0;
    while i < KEY_LEN
        invariant
            i <= KEY_LEN,
            out@ == start + key.bytes@.subrange(0, i as int),
        decreases KEY_LEN - i,
    {
        out.push(key.bytes[i]);
        i = i + 1;
        assert(out@ =~= start + key.bytes@.subrange(0, i as int));
    }
    assert(key.bytes@.subrange(0, 32) =~= key.bytes@);
}

fn push_u64(out: &mut Vec<u8>, v: u64)
    ensures
        final(out)@ == old(out)@ + le_u64(v),
{
    let ghost start = out@;
    out.push(v as u8);
    out.push((v >> 8u64) as u8);
    out.push((v >> 16u64) as u8);
    out.push((v >> 24u64) as u8);
    out.push((v >> 32u64) as u8);
    out.push((v >> 40u64) as u8);
    out.push((v >> 48u64) as u8);
    out.push((v >> 56u64) as u8);
    assert(out@ =~= start + le_u64(v));
}

fn flag_to_byte(b: bool) -> (r: u8)
    ensures
        r == flag_byte(b),
{
    if b {
        1
    } else {
        0
    }
}

fn key_at(b: &[u8], off: usize) -> (k: AccountKey)
    requires
        off + KEY_LEN <= b@.len(),
    ensures
        k.bytes@ == b@.subrange(off as int, off + KEY_LEN),
{
    let n = b.len();
    let mut bytes: [u8; 32] = [0u8; 32];
    let mut i: usize = 0;
    while i < KEY_LEN
        invariant
            i <= KEY_LEN,
            off + KEY_LEN <= b@.len(),
            n == b@.len(),
            forall|j: int| 0 <= j < i ==> bytes@[j] == b@[off + j],
        decreases KEY_LEN - i,
    {
        bytes[i] = b[off + i];
        i = i + 1;
    }
    assert(bytes@ =~= b@.subrange(off as int, off + KEY_LEN));
    AccountKey { bytes }
}

fn read_u64(b: &[u8], off: usize) -> (v: u64)
    requires
        off + 8 <= b@.len(),
    ensures
        v == u64_at(b@, off as int),
{
    (b[off] as u64) | ((b[off + 1] as u64) << 8u64) | ((b[off + 2] as u64) << 16u64) | ((b[off
        + 3] as u64) << 24u64) | ((b[off + 4] as u64) << 32u64) | ((b[off + 5] as u64) << 40u64)
        | ((b[off + 6] as u64) << 48u64) | ((b[off + 7] as u64) << 56u64)
}

impl InvestmentContract {
    /// Encodes the record in its fixed layout of `RECORD_LEN` bytes.
    pub fn to_bytes(&self) -> (r: Vec<u8>)
        ensures
            r@ == record_bytes(*self),
            r@.len() == RECORD_LEN,
    {
        let mut out: Vec<u8> = Vec::new();
        push_key(&mut out, &self.investor);
        push_key(&mut out, &self.startup);
        push_u64(&mut out, self.principal_amount);
        out.push(self.investor_return_percent);
        push_u64(&mut out, self.duration_days);
        push_u64(&mut out, self.start_time as u64);
        push_u64(&mut out, self.total_revenue);
        push_u64(&mut out, self.total_distributed);
        out.push(flag_to_byte(self.is_active));
        out.push(flag_to_byte(self.is_invested));
        assert(out@ =~= record_bytes(*self));
        proof {
            lemma_record_pieces(*self);
        }
        out
    }

    /// Decodes a record from exactly `RECORD_LEN` bytes.
    pub fn from_bytes(b: &[u8]) -> (r: Result<InvestmentContract, RecordError>)
        ensures
            r == record_from_bytes(b@),
    {
        if b.len() != RECORD_LEN {
            return Err(RecordError::WrongLength);
        }
        let active = b[ACTIVE_OFFSET];
        let invested = b[INVESTED_OFFSET];
        if (active != 0 && active != 1) || (invested != 0 && invested != 1) {
            return Err(RecordError::InvalidFlag);
        }
        let c = InvestmentContract {
            investor: key_at(b, 0),
            startup: key_at(b, 32),
            principal_amount: read_u64(b, 64),
            investor_return_percent: b[72],
            duration_days: read_u64(b, 73),
            start_time: read_u64(b, 81) as i64,
            total_revenue: read_u64(b, 89),
            total_distributed: read_u64(b, 97),
            is_active: active == 1,
            is_invested: invested == 1,
        };
        proof {
            let s = b@;
            lemma_bytes_round_trip(s, 64);
            lemma_bytes_round_trip(s, 73);
            lemma_bytes_round_trip(s, 81);
            lemma_bytes_round_trip(s, 89);
            lemma_bytes_round_trip(s, 97);
            lemma_i64_bits(0, u64_at(s, 81));
            assert(s =~= s.subrange(0, 32) + s.subrange(32, 64) + s.subrange(64, 72) + seq![s[72]]
                + s.subrange(73, 81) + s.subrange(81, 89) + s.subrange(89, 97) + s.subrange(97, 105)
                + seq![s[105], s[106]]);
            assert(record_bytes(c) =~= s);
            let d = choose|d: InvestmentContract| record_bytes(d) == s;
            lemma_record_bytes_injective(c, d);
        }
        Ok(c)
    }
}

} // verus!
