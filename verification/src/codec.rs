//! The byte layout of persistent values.
//!
//! Records are laid out field after field, integers in little-endian order,
//! an enum as one tag byte followed by the fields of its variant, an optional
//! value as a tag byte of 0 or 1 followed by the value when present.
//!
//! For each kind of field there is an encoding (`enc_*`), a reading of one
//! such field off the front of a sequence (`take_*`, which also says what is
//! left), two lemmas that state that the two undo each other, and an
//! executable reader and writer proved against them.

use vstd::prelude::*;
use vstd::bytes::{
    lemma_auto_spec_u32_to_from_le_bytes, lemma_auto_spec_u64_to_from_le_bytes,
    spec_u32_from_le_bytes, spec_u32_to_le_bytes, spec_u64_from_le_bytes, spec_u64_to_le_bytes,
    u32_from_le_bytes, u32_to_le_bytes, u64_from_le_bytes, u64_to_le_bytes,
};
use crate::pubkey::Pubkey;

verus! {

/// What an executable reader returns for what the specification reads: the
/// same value, and the position at which the rest starts.
pub open spec fn read_matches<T>(
    r: Option<(T, usize)>,
    expected: Option<(T, Seq<u8>)>,
    data: Seq<u8>,
) -> bool {
    match (r, expected) {
        (Some((got, at)), Some((v, rest))) => got == v && at <= data.len() && rest == data.skip(
            at as int,
        ),
        (None, None) => true,
        _ => false,
    }
}

/// What is left after a successful reading.
pub open spec fn rest_of<T>(taken: Option<(T, Seq<u8>)>) -> Seq<u8> {
    match taken {
        Some((_, rest)) => rest,
        None => Seq::empty(),
    }
}

/// The eight bytes of a signed 64-bit integer: those of its two's
/// complement.
pub open spec fn spec_i64_to_le_bytes(v: i64) -> Seq<u8> {
    spec_u64_to_le_bytes(v as u64)
}

/// The encoding of a byte: itself.
pub open spec fn enc_u8(v: u8) -> Seq<u8> {
    seq![v]
}

/// The encoding of a 32-bit integer: its four bytes, lowest first.
pub open spec fn enc_u32(v: u32) -> Seq<u8> {
    spec_u32_to_le_bytes(v)
}

/// The encoding of a 64-bit integer: its eight bytes, lowest first.
pub open spec fn enc_u64(v: u64) -> Seq<u8> {
    spec_u64_to_le_bytes(v)
}

/// The encoding of a signed 64-bit integer.
pub open spec fn enc_i64(v: i64) -> Seq<u8> {
    spec_i64_to_le_bytes(v)
}

/// The value of a successful reading.
pub open spec fn value_of<T>(taken: Option<(T, Seq<u8>)>) -> T {
    match taken {
        Some((v, _)) => v,
        None => arbitrary(),
    }
}

/// The encoding of an address: its 32 bytes.
pub open spec fn enc_pubkey(v: Pubkey) -> Seq<u8> {
    v@
}

/// The encoding of an optional address.
pub open spec fn enc_option_pubkey(v: Option<Pubkey>) -> Seq<u8> {
    match v {
        None => seq![0u8],
        Some(p) => seq![1u8] + p@,
    }
}

/// Reads one byte.
pub open spec fn take_u8(s: Seq<u8>) -> Option<(u8, Seq<u8>)> {
    if s.len() >= 1 {
        Some((s[0], s.skip(1)))
    } else {
        None
    }
}

/// Reads a 32-bit integer.
pub open spec fn take_u32(s: Seq<u8>) -> Option<(u32, Seq<u8>)> {
    if s.len() >= 4 {
        Some((spec_u32_from_le_bytes(s.take(4)), s.skip(4)))
    } else {
        None
    }
}

/// Reads a 64-bit integer.
pub open spec fn take_u64(s: Seq<u8>) -> Option<(u64, Seq<u8>)> {
    if s.len() >= 8 {
        Some((spec_u64_from_le_bytes(s.take(8)), s.skip(8)))
    } else {
        None
    }
}

/// Reads a signed 64-bit integer.
pub open spec fn take_i64(s: Seq<u8>) -> Option<(i64, Seq<u8>)> {
    if s.len() >= 8 {
        Some((spec_u64_from_le_bytes(s.take(8)) as i64, s.skip(8)))
    } else {
        None
    }
}

/// Reads an address.
pub open spec fn take_pubkey(s: Seq<u8>) -> Option<(Pubkey, Seq<u8>)> {
    if s.len() >= 32 {
        Some((Pubkey::spec_from_bytes(s.take(32)), s.skip(32)))
    } else {
        None
    }
}

/// Reads an optional address. A tag other than 0 or 1 is malformed.
pub open spec fn take_option_pubkey(s: Seq<u8>) -> Option<(Option<Pubkey>, Seq<u8>)> {
    match take_u8(s) {
        Some((tag, rest)) => if tag == 0 {
            Some((None, rest))
        } else if tag == 1 {
            match take_pubkey(rest) {
                Some((p, after)) => Some((Some(p), after)),
                None => None,
            }
        } else {
            None
        },
        None => None,
    }
}

/// A sequence is its first `n` items followed by the others.
pub proof fn lemma_split(s: Seq<u8>, n: int)
    requires
        0 <= n <= s.len(),
    ensures
        s == s.take(n) + s.skip(n),
{
    assert(s =~= s.take(n) + s.skip(n));
}

/// The front and the rest of a concatenation.
pub proof fn lemma_front(e: Seq<u8>, rest: Seq<u8>)
    ensures
        (e + rest).take(e.len() as int) == e,
        (e + rest).skip(e.len() as int) == rest,
{
    assert((e + rest).take(e.len() as int) =~= e);
    assert((e + rest).skip(e.len() as int) =~= rest);
}

/// Concatenation is associative.
pub proof fn lemma_concat_assoc(a: Seq<u8>, b: Seq<u8>, c: Seq<u8>)
    ensures
        (a + b) + c == a + (b + c),
{
    assert((a + b) + c =~= a + (b + c));
}

/// Skipping twice is skipping once.
pub proof fn lemma_skip_skip(s: Seq<u8>, a: int, b: int)
    requires
        0 <= a,
        0 <= b,
        a + b <= s.len(),
    ensures
        s.skip(a).skip(b) == s.skip(a + b),
        s.skip(a).take(b) == s.subrange(a, a + b),
{
    assert(s.skip(a).skip(b) =~= s.skip(a + b));
    assert(s.skip(a).take(b) =~= s.subrange(a, a + b));
}

/// Reading a byte off its encoding, whatever follows it, gives it back.
pub proof fn lemma_take_u8_of_encoding(v: u8, rest: Seq<u8>)
    ensures
        take_u8(enc_u8(v) + rest) == Some((v, rest)),
{
    lemma_front(seq![v], rest);
}

/// What was read as a byte is, byte for byte, its encoding.
pub proof fn lemma_take_u8_encodes(s: Seq<u8>)
    ensures
        take_u8(s) matches Some((v, rest)) ==> s == enc_u8(v) + rest,
{
    if s.len() >= 1 {
        assert(s =~= seq![s[0]] + s.skip(1));
    }
}

/// Reading a 32-bit integer off its encoding, whatever follows it, gives it back.
pub proof fn lemma_take_u32_of_encoding(v: u32, rest: Seq<u8>)
    ensures
        take_u32(enc_u32(v) + rest) == Some((v, rest)),
{
    lemma_auto_spec_u32_to_from_le_bytes();
    lemma_front(spec_u32_to_le_bytes(v), rest);
}

/// What was read as a 32-bit integer is, byte for byte, its encoding.
pub proof fn lemma_take_u32_encodes(s: Seq<u8>)
    ensures
        take_u32(s) matches Some((v, rest)) ==> s == enc_u32(v) + rest,
{
    if s.len() >= 4 {
        lemma_auto_spec_u32_to_from_le_bytes();
        assert(s.take(4).len() == 4);
        lemma_split(s, 4);
    }
}

/// Reading a 64-bit integer off its encoding, whatever follows it, gives it back.
pub proof fn lemma_take_u64_of_encoding(v: u64, rest: Seq<u8>)
    ensures
        take_u64(enc_u64(v) + rest) == Some((v, rest)),
{
    lemma_auto_spec_u64_to_from_le_bytes();
    lemma_front(spec_u64_to_le_bytes(v), rest);
}

/// What was read as a 64-bit integer is, byte for byte, its encoding.
pub proof fn lemma_take_u64_encodes(s: Seq<u8>)
    ensures
        take_u64(s) matches Some((v, rest)) ==> s == enc_u64(v) + rest,
{
    if s.len() >= 8 {
        lemma_auto_spec_u64_to_from_le_bytes();
        assert(s.take(8).len() == 8);
        lemma_split(s, 8);
    }
}

/// A signed integer and its two's complement determine each other.
pub proof fn lemma_i64_u64_roundtrip(v: i64, u: u64)
    ensures
        ((v as u64) as i64) == v,
        ((u as i64) as u64) == u,
{
    assert(((v as u64) as i64) == v) by (bit_vector);
    assert(((u as i64) as u64) == u) by (bit_vector);
}

/// Reading a signed 64-bit integer off its encoding, whatever follows it, gives it back.
pub proof fn lemma_take_i64_of_encoding(v: i64, rest: Seq<u8>)
    ensures
        take_i64(enc_i64(v) + rest) == Some((v, rest)),
{
    lemma_auto_spec_u64_to_from_le_bytes();
    lemma_front(spec_u64_to_le_bytes(v as u64), rest);
    lemma_i64_u64_roundtrip(v, 0);
}

/// What was read as a signed 64-bit integer is, byte for byte, its encoding.
pub proof fn lemma_take_i64_encodes(s: Seq<u8>)
    ensures
        take_i64(s) matches Some((v, rest)) ==> s == enc_i64(v) + rest,
{
    if s.len() >= 8 {
        lemma_auto_spec_u64_to_from_le_bytes();
        assert(s.take(8).len() == 8);
        lemma_split(s, 8);
        lemma_i64_u64_roundtrip(0, spec_u64_from_le_bytes(s.take(8)));
    }
}

/// Reading an address off its encoding, whatever follows it, gives it back.
pub proof fn lemma_take_pubkey_of_encoding(v: Pubkey, rest: Seq<u8>)
    ensures
        take_pubkey(enc_pubkey(v) + rest) == Some((v, rest)),
{
    lemma_front(v@, rest);
    Pubkey::lemma_spec_from_bytes(v@);
    Pubkey::lemma_eq_by_view(Pubkey::spec_from_bytes(v@), v);
}

/// What was read as an address is, byte for byte, its encoding.
pub proof fn lemma_take_pubkey_encodes(s: Seq<u8>)
    ensures
        take_pubkey(s) matches Some((v, rest)) ==> s == enc_pubkey(v) + rest,
{
    if s.len() >= 32 {
        Pubkey::lemma_spec_from_bytes(s.take(32));
        lemma_split(s, 32);
    }
}

/// Reading an optional address off its encoding, whatever follows it, gives it back.
pub proof fn lemma_take_option_pubkey_of_encoding(v: Option<Pubkey>, rest: Seq<u8>)
    ensures
        take_option_pubkey(enc_option_pubkey(v) + rest) == Some((v, rest)),
{
    match v {
        None => {
            lemma_take_u8_of_encoding(0u8, rest);
        },
        Some(p) => {
            lemma_concat_assoc(seq![1u8], p@, rest);
            lemma_take_u8_of_encoding(1u8, p@ + rest);
            lemma_take_pubkey_of_encoding(p, rest);
        },
    }
}

/// What was read as an optional address is, byte for byte, its encoding.
pub proof fn lemma_take_option_pubkey_encodes(s: Seq<u8>)
    ensures
        take_option_pubkey(s) matches Some((v, rest)) ==> s == enc_option_pubkey(v) + rest,
{
    lemma_take_u8_encodes(s);
    if let Some((tag, rest)) = take_u8(s) {
        if tag == 1 {
            lemma_take_pubkey_encodes(rest);
            if let Some((p, after)) = take_pubkey(rest) {
                lemma_concat_assoc(seq![1u8], p@, after);
            }
        }
    }
}

/// Reads one byte at `pos`.
pub fn read_u8(data: &[u8], pos: usize) -> (r: Option<(u8, usize)>)
    requires
        pos <= data@.len(),
    ensures
        read_matches(r, take_u8(data@.skip(pos as int)), data@),
{
    if data.len() - pos < 1 {
        return None;
    }
    proof {
        lemma_skip_skip(data@, pos as int, 1);
    }
    Some((data[pos], pos + 1))
}

/// Reads a 32-bit integer at `pos`.
pub fn read_u32(data: &[u8], pos: usize) -> (r: Option<(u32, usize)>)
    requires
        pos <= data@.len(),
    ensures
        read_matches(r, take_u32(data@.skip(pos as int)), data@),
{
    if data.len() - pos < 4 {
        return None;
    }
    proof {
        lemma_skip_skip(data@, pos as int, 4);
    }
    Some((u32_from_le_bytes(&data[pos..pos + 4]), pos + 4))
}

/// Reads a 64-bit integer at `pos`.
pub fn read_u64(data: &[u8], pos: usize) -> (r: Option<(u64, usize)>)
    requires
        pos <= data@.len(),
    ensures
        read_matches(r, take_u64(data@.skip(pos as int)), data@),
{
    if data.len() - pos < 8 {
        return None;
    }
    proof {
        lemma_skip_skip(data@, pos as int, 8);
    }
    Some((u64_from_le_bytes(&data[pos..pos + 8]), pos + 8))
}

/// Reads a signed 64-bit integer at `pos`.
pub fn read_i64(data: &[u8], pos: usize) -> (r: Option<(i64, usize)>)
    requires
        pos <= data@.len(),
    ensures
        read_matches(r, take_i64(data@.skip(pos as int)), data@),
{
    if data.len() - pos < 8 {
        return None;
    }
    proof {
        lemma_skip_skip(data@, pos as int, 8);
    }
    let raw = u64_from_le_bytes(&data[pos..pos + 8]);
    Some((#[verifier::truncate] (raw as i64), pos + 8))
}

/// Reads an address at `pos`.
pub fn read_pubkey(data: &[u8], pos: usize) -> (r: Option<(Pubkey, usize)>)
    requires
        pos <= data@.len(),
    ensures
        read_matches(r, take_pubkey(data@.skip(pos as int)), data@),
{
    if data.len() - pos < 32 {
        return None;
    }
    proof {
        lemma_skip_skip(data@, pos as int, 32);
    }
    match Pubkey::try_from_slice(&data[pos..pos + 32]) {
        Some(p) => {
            proof {
                Pubkey::lemma_spec_from_bytes(data@.skip(pos as int).take(32));
                Pubkey::lemma_eq_by_view(
                    p,
                    Pubkey::spec_from_bytes(data@.skip(pos as int).take(32)),
                );
            }
            Some((p, pos + 32))
        },
        None => None,
    }
}

/// Reads an optional address at `pos`.
pub fn read_option_pubkey(data: &[u8], pos: usize) -> (r: Option<(Option<Pubkey>, usize)>)
    requires
        pos <= data@.len(),
    ensures
        read_matches(r, take_option_pubkey(data@.skip(pos as int)), data@),
{
    match read_u8(data, pos) {
        Some((tag, next)) => {
            if tag == 0 {
                Some((None, next))
            } else if tag == 1 {
                match read_pubkey(data, next) {
                    Some((p, after)) => Some((Some(p), after)),
                    None => None,
                }
            } else {
                None
            }
        },
        None => None,
    }
}

/// Appends one byte.
pub fn write_u8(out: &mut Vec<u8>, v: u8)
    ensures
        final(out)@ == old(out)@ + enc_u8(v),
{
    out.push(v);
    assert(out@ =~= old(out)@ + seq![v]);
}

/// Appends a 32-bit integer.
pub fn write_u32(out: &mut Vec<u8>, v: u32)
    ensures
        final(out)@ == old(out)@ + enc_u32(v),
{
    let mut bytes = u32_to_le_bytes(v);
    out.append(&mut bytes);
}

/// Appends a 64-bit integer.
pub fn write_u64(out: &mut Vec<u8>, v: u64)
    ensures
        final(out)@ == old(out)@ + enc_u64(v),
{
    let mut bytes = u64_to_le_bytes(v);
    out.append(&mut bytes);
}

/// Appends a signed 64-bit integer.
pub fn write_i64(out: &mut Vec<u8>, v: i64)
    ensures
        final(out)@ == old(out)@ + enc_i64(v),
{
    let mut bytes = u64_to_le_bytes(#[verifier::truncate] (v as u64));
    out.append(&mut bytes);
}

/// Appends an address.
pub fn write_pubkey(out: &mut Vec<u8>, v: &Pubkey)
    ensures
        final(out)@ == old(out)@ + enc_pubkey(*v),
{
    let mut bytes = v.to_vec();
    out.append(&mut bytes);
}

/// Appends an optional address.
pub fn write_option_pubkey(out: &mut Vec<u8>, v: &Option<Pubkey>)
    ensures
        final(out)@ == old(out)@ + enc_option_pubkey(*v),
{
    match v {
        None => {
            write_u8(out, 0);
        },
        Some(p) => {
            write_u8(out, 1);
            write_pubkey(out, p);
            proof {
                lemma_concat_assoc(old(out)@, seq![1u8], p@);
            }
        },
    }
}

} // verus!
