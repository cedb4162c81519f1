//! Wire codec: fixed-shape binary encodings for call inputs and reply
//! payloads.
//!
//! Integers travel as little-endian bytes, byte strings as a compact-encoded
//! length followed by the bytes, optional values and results behind a leading
//! tag byte, and error codes as their index in the closed taxonomy. Decoding
//! is all-or-nothing: a payload is accepted only when it is exactly one valid
//! encoding of the expected shape.

use crate::errors::RCErrorCode;
use vstd::prelude::*;

verus! {

/// Little-endian four-byte encoding of a 32-bit identifier.
pub open spec fn enc_u32(x: u32) -> Seq<u8> {
    seq![
        (x & 0xff) as u8,
        ((x >> 8) & 0xff) as u8,
        ((x >> 16) & 0xff) as u8,
        ((x >> 24) & 0xff) as u8,
    ]
}

/// The 32-bit value a four-byte little-endian sequence stands for.
pub open spec fn dec_u32(s: Seq<u8>) -> u32
    recommends
        s.len() == 4,
{
    (s[0] as u32) | ((s[1] as u32) << 8) | ((s[2] as u32) << 16) | ((s[3] as u32) << 24)
}

/// Compact length encoding: one byte below 2^6, two below 2^14, four below
/// 2^30, and a marker byte followed by the full four little-endian bytes
/// otherwise. The two low bits of the first byte select the mode.
pub open spec fn enc_compact_u32(n: u32) -> Seq<u8> {
    if n < 64 {
        seq![((n << 2) & 0xff) as u8]
    } else if n < 16384 {
        seq![(((n << 2) | 1) & 0xff) as u8, ((((n << 2) | 1) >> 8) & 0xff) as u8]
    } else if n < 1073741824 {
        enc_u32((n << 2) | 2)
    } else {
        seq![3u8] + enc_u32(n)
    }
}

/// A byte string travels as its compact-encoded length followed by the bytes.
pub open spec fn enc_bytes(s: Seq<u8>) -> Seq<u8>
    recommends
        s.len() <= 0xffff_ffff,
{
    enc_compact_u32(s.len() as u32) + s
}

/// A flag travels as a single byte, `0` or `1`.
pub open spec fn enc_bool(b: bool) -> Seq<u8> {
    seq![if b { 1u8 } else { 0u8 }]
}

pub open spec fn is_bool_encoding(s: Seq<u8>) -> bool {
    s.len() == 1 && s[0] <= 1
}

pub open spec fn dec_bool(s: Seq<u8>) -> bool
    recommends
        is_bool_encoding(s),
{
    s[0] == 1
}

/// An optional identifier travels as tag byte `0` (absent) or tag byte `1`
/// followed by the four-byte identifier.
pub open spec fn enc_option_u32(o: Option<u32>) -> Seq<u8> {
    match o {
        None => seq![0u8],
        Some(x) => seq![1u8] + enc_u32(x),
    }
}

pub open spec fn is_option_u32_encoding(s: Seq<u8>) -> bool {
    ||| (s.len() == 1 && s[0] == 0)
    ||| (s.len() == 5 && s[0] == 1)
}

pub open spec fn dec_option_u32(s: Seq<u8>) -> Option<u32>
    recommends
        is_option_u32_encoding(s),
{
    if s[0] == 0 {
        None
    } else {
        Some(dec_u32(s.subrange(1, 5)))
    }
}

/// A result without payload travels as nothing at all: success is carried by
/// the status word alone.
pub open spec fn is_unit_encoding(s: Seq<u8>) -> bool {
    s.len() == 0
}

/// An error code travels as its index in the closed taxonomy.
pub open spec fn enc_error_code(e: RCErrorCode) -> Seq<u8> {
    match e {
        RCErrorCode::Failed => seq![0u8],
        RCErrorCode::CollectionNotCreated => seq![1u8],
        RCErrorCode::CollectionAlreadyCreated => seq![2u8],
    }
}

/// A tag outside the closed taxonomy means the wire format evolved without
/// the adapter's error set: decoding must treat it as fatal, never coerce it.
pub open spec fn is_error_code_tag(t: u8) -> bool {
    t <= 2
}

pub open spec fn dec_error_code(t: u8) -> RCErrorCode
    recommends
        is_error_code_tag(t),
{
    if t == 0 {
        RCErrorCode::Failed
    } else if t == 1 {
        RCErrorCode::CollectionNotCreated
    } else {
        RCErrorCode::CollectionAlreadyCreated
    }
}

/// An identifier-or-error result travels as tag byte `0` followed by the
/// identifier, or tag byte `1` followed by the error-code index.
pub open spec fn enc_id_result(v: Result<u32, RCErrorCode>) -> Seq<u8> {
    match v {
        Ok(x) => seq![0u8] + enc_u32(x),
        Err(e) => seq![1u8] + enc_error_code(e),
    }
}

pub open spec fn is_id_result_encoding(s: Seq<u8>) -> bool {
    ||| (s.len() == 5 && s[0] == 0)
    ||| (s.len() == 2 && s[0] == 1 && is_error_code_tag(s[1]))
}

pub open spec fn dec_id_result(s: Seq<u8>) -> Result<u32, RCErrorCode>
    recommends
        is_id_result_encoding(s),
{
    if s[0] == 0 {
        Ok(dec_u32(s.subrange(1, 5)))
    } else {
        Err(dec_error_code(s[1]))
    }
}

/// The four little-endian bytes of a 32-bit identifier.
pub fn u32_le_bytes(x: u32) -> (r: Vec<u8>)
    ensures
        r@ == enc_u32(x),
{
    let mut out: Vec<u8> = Vec::new();
    out.push((x & 0xff) as u8);
    out.push(((x >> 8) & 0xff) as u8);
    out.push(((x >> 16) & 0xff) as u8);
    out.push(((x >> 24) & 0xff) as u8);
    proof {
        assert(out@ =~= enc_u32(x));
    }
    out
}

/// The compact encoding of a length or count.
pub fn compact_u32_bytes(n: u32) -> (r: Vec<u8>)
    ensures
        r@ == enc_compact_u32(n),
{
    let mut out: Vec<u8> = Vec::new();
    if n < 64 {
        out.push(((n << 2u32) & 0xff) as u8);
        proof {
            assert(out@ =~= enc_compact_u32(n));
        }
    } else if n < 16384 {
        let v: u32 = (n << 2u32) | 1;
        out.push((v & 0xff) as u8);
        out.push(((v >> 8u32) & 0xff) as u8);
        proof {
            assert(out@ =~= enc_compact_u32(n));
        }
    } else if n < 1073741824 {
        let mut tail = u32_le_bytes((n << 2u32) | 2);
        out.append(&mut tail);
        proof {
            assert(out@ =~= enc_compact_u32(n));
        }
    } else {
        out.push(3u8);
        let mut tail = u32_le_bytes(n);
        out.append(&mut tail);
        proof {
            assert(out@ =~= enc_compact_u32(n));
        }
    }
    out
}

/// Append every byte of `src` to `out`.
pub fn push_all(out: &mut Vec<u8>, src: &Vec<u8>)
    ensures
        final(out)@ == old(out)@ + src@,
{
    let mut i: usize = 0;
    while i < src.len()
        invariant
            i <= src.len(),
            out@ == old(out)@ + src@.subrange(0, i as int),
        decreases src.len() - i,
    {
        out.push(src[i]);
        proof {
            assert(src@.subrange(0, i as int).push(src@[i as int]) =~= src@.subrange(
                0,
                i as int + 1,
            ));
        }
        i += 1;
    }
    proof {
        assert(src@.subrange(0, src@.len() as int) =~= src@);
    }
}

/// Append the length-prefixed encoding of a byte string.
pub fn push_byte_string(out: &mut Vec<u8>, src: &Vec<u8>)
    requires
        src@.len() <= 0xffff_ffff,
    ensures
        final(out)@ == old(out)@ + enc_bytes(src@),
{
    let len32: u32 = src.len() as u32;
    let prefix = compact_u32_bytes(len32);
    push_all(out, &prefix);
    push_all(out, src);
    proof {
        assert(old(out)@ + enc_compact_u32(len32) + src@ =~= old(out)@ + enc_bytes(src@));
    }
}

/// Decode a reply payload that carries a flag.
pub fn decode_bool(payload: &Vec<u8>) -> (r: Option<bool>)
    ensures
        is_bool_encoding(payload@) ==> r == Some(dec_bool(payload@)),
        !is_bool_encoding(payload@) ==> r is None,
{
    if payload.len() == 1 {
        let b = payload[0];
        if b == 0 {
            Some(false)
        } else if b == 1 {
            Some(true)
        } else {
            None
        }
    } else {
        None
    }
}

/// Decode a reply payload that carries a bare 32-bit identifier.
pub fn decode_u32(payload: &Vec<u8>) -> (r: Option<u32>)
    ensures
        payload@.len() == 4 ==> r == Some(dec_u32(payload@)),
        payload@.len() != 4 ==> r is None,
{
    if payload.len() == 4 {
        let x: u32 = (payload[0] as u32) | ((payload[1] as u32) << 8u32) | ((payload[2] as u32)
            << 16u32) | ((payload[3] as u32) << 24u32);
        Some(x)
    } else {
        None
    }
}

/// Decode a reply payload that carries an optional 32-bit identifier.
pub fn decode_option_u32(payload: &Vec<u8>) -> (r: Option<Option<u32>>)
    ensures
        is_option_u32_encoding(payload@) ==> r == Some(dec_option_u32(payload@)),
        !is_option_u32_encoding(payload@) ==> r is None,
{
    if payload.len() == 1 && payload[0] == 0 {
        Some(None)
    } else if payload.len() == 5 && payload[0] == 1 {
        let x: u32 = (payload[1] as u32) | ((payload[2] as u32) << 8u32) | ((payload[3] as u32)
            << 16u32) | ((payload[4] as u32) << 24u32);
        proof {
            let t = payload@.subrange(1, 5);
            assert(t[0] == payload@[1] && t[1] == payload@[2] && t[2] == payload@[3] && t[3]
                == payload@[4]);
        }
        Some(Some(x))
    } else {
        None
    }
}

/// Decode a reply payload that carries an identifier-or-error result. A tag
/// outside the closed taxonomy is rejected, never coerced.
pub fn decode_id_result(payload: &Vec<u8>) -> (r: Option<Result<u32, RCErrorCode>>)
    ensures
        is_id_result_encoding(payload@) ==> r == Some(dec_id_result(payload@)),
        !is_id_result_encoding(payload@) ==> r is None,
{
    if payload.len() == 5 && payload[0] == 0 {
        let x: u32 = (payload[1] as u32) | ((payload[2] as u32) << 8u32) | ((payload[3] as u32)
            << 16u32) | ((payload[4] as u32) << 24u32);
        proof {
            let t = payload@.subrange(1, 5);
            assert(t[0] == payload@[1] && t[1] == payload@[2] && t[2] == payload@[3] && t[3]
                == payload@[4]);
        }
        Some(Ok(x))
    } else if payload.len() == 2 && payload[0] == 1 {
        let t = payload[1];
        if t == 0 {
            Some(Err(RCErrorCode::Failed))
        } else if t == 1 {
            Some(Err(RCErrorCode::CollectionNotCreated))
        } else if t == 2 {
            Some(Err(RCErrorCode::CollectionAlreadyCreated))
        } else {
            None
        }
    } else {
        None
    }
}

/// Law: decoding undoes encoding for identifiers.
pub proof fn lemma_u32_round_trip(x: u32)
    ensures
        dec_u32(enc_u32(x)) == x,
{
    let s = enc_u32(x);
    assert(s[0] == (x & 0xff) as u8);
    assert(s[1] == ((x >> 8) & 0xff) as u8);
    assert(s[2] == ((x >> 16) & 0xff) as u8);
    assert(s[3] == ((x >> 24) & 0xff) as u8);
    assert((((x & 0xff) as u8) as u32) | (((((x >> 8) & 0xff) as u8) as u32) << 8) | (((((x >> 16)
        & 0xff) as u8) as u32) << 16) | (((((x >> 24) & 0xff) as u8) as u32) << 24) == x)
        by (bit_vector);
}

/// Law: a four-byte sequence is exactly the encoding of the identifier it
/// decodes to — the wire form of an identifier is canonical.
pub proof fn lemma_enc_of_dec_identity(t: Seq<u8>)
    requires
        t.len() == 4,
    ensures
        enc_u32(dec_u32(t)) == t,
{
    let b0 = t[0];
    let b1 = t[1];
    let b2 = t[2];
    let b3 = t[3];
    assert((((b0 as u32) | ((b1 as u32) << 8) | ((b2 as u32) << 16) | ((b3 as u32) << 24)) & 0xff)
        as u8 == b0) by (bit_vector);
    assert(((((b0 as u32) | ((b1 as u32) << 8) | ((b2 as u32) << 16) | ((b3 as u32) << 24)) >> 8)
        & 0xff) as u8 == b1) by (bit_vector);
    assert(((((b0 as u32) | ((b1 as u32) << 8) | ((b2 as u32) << 16) | ((b3 as u32) << 24)) >> 16)
        & 0xff) as u8 == b2) by (bit_vector);
    assert(((((b0 as u32) | ((b1 as u32) << 8) | ((b2 as u32) << 16) | ((b3 as u32) << 24)) >> 24)
        & 0xff) as u8 == b3) by (bit_vector);
    assert(enc_u32(dec_u32(t)) =~= t);
}

/// Law: decoding undoes encoding for flags.
pub proof fn lemma_bool_round_trip(b: bool)
    ensures
        is_bool_encoding(enc_bool(b)),
        dec_bool(enc_bool(b)) == b,
{
}

/// Law: decoding undoes encoding for optional identifiers.
pub proof fn lemma_option_u32_round_trip(o: Option<u32>)
    ensures
        is_option_u32_encoding(enc_option_u32(o)),
        dec_option_u32(enc_option_u32(o)) == o,
{
    match o {
        None => {},
        Some(x) => {
            let s = enc_option_u32(o);
            assert(s.subrange(1, 5) =~= enc_u32(x));
            lemma_u32_round_trip(x);
        },
    }
}

/// Law: decoding undoes encoding for identifier-or-error results.
pub proof fn lemma_id_result_round_trip(v: Result<u32, RCErrorCode>)
    ensures
        is_id_result_encoding(enc_id_result(v)),
        dec_id_result(enc_id_result(v)) == v,
{
    match v {
        Ok(x) => {
            let s = enc_id_result(v);
            assert(s.subrange(1, 5) =~= enc_u32(x));
            lemma_u32_round_trip(x);
        },
        Err(_) => {},
    }
}

} // verus!
