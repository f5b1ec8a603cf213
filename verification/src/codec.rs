//! Byte-level primitives of the record codec.
//!
//! Every record is laid out as a concatenation of fields. A `u64` field
//! occupies exactly eight bytes, little endian. A string field is the
//! length of its UTF-8 encoding as a `u64` followed by the UTF-8 bytes
//! themselves. Readers consume a prefix of the byte sequence and hand the
//! rest back, so record decoders can chain them.

use vstd::prelude::*;
use vstd::bytes::*;
use vstd::utf8::*;

verus! {

/// The encoding of a single `u64` field: eight bytes, little endian.
pub open spec fn spec_enc_u64(x: u64) -> Seq<u8> {
    spec_u64_to_le_bytes(x)
}

/// The encoding of a single string field: the length of the UTF-8 encoding,
/// then the UTF-8 bytes.
pub open spec fn spec_enc_str(s: Seq<char>) -> Seq<u8> {
    spec_u64_to_le_bytes(encode_utf8(s).len() as u64) + encode_utf8(s)
}

/// Consume a `u64` field from the front of `b`; the rest is handed back.
pub open spec fn spec_read_u64(b: Seq<u8>) -> Option<(u64, Seq<u8>)> {
    if b.len() >= 8 {
        Some((spec_u64_from_le_bytes(b.take(8)), b.skip(8)))
    } else {
        None
    }
}

/// Consume a string field from the front of `b`; the rest is handed back.
/// Fails if the advertised length overruns `b` or the bytes are not UTF-8.
pub open spec fn spec_read_str(b: Seq<u8>) -> Option<(Seq<char>, Seq<u8>)> {
    match spec_read_u64(b) {
        Some((n, rest)) => if n <= rest.len() && valid_utf8(rest.take(n as int)) {
            Some((decode_utf8(rest.take(n as int)), rest.skip(n as int)))
        } else {
            None
        },
        None => None,
    }
}

/// Reading a `u64` field off its own encoding yields the value back and
/// leaves exactly the trailing bytes.
pub proof fn lemma_read_u64_enc(x: u64, rest: Seq<u8>)
    ensures
        spec_read_u64(spec_enc_u64(x) + rest) == Some((x, rest)),
{
    lemma_auto_spec_u64_to_from_le_bytes();
    assert((spec_enc_u64(x) + rest).take(8) =~= spec_enc_u64(x));
    assert((spec_enc_u64(x) + rest).skip(8) =~= rest);
}

/// Reading a string field off its own encoding yields the characters back
/// and leaves exactly the trailing bytes.
pub proof fn lemma_read_str_enc(s: Seq<char>, rest: Seq<u8>)
    requires
        encode_utf8(s).len() <= u64::MAX,
    ensures
        spec_read_str(spec_enc_str(s) + rest) == Some((s, rest)),
{
    let eb = encode_utf8(s);
    let n: u64 = eb.len() as u64;
    assert(spec_enc_str(s) + rest =~= spec_enc_u64(n) + (eb + rest));
    lemma_read_u64_enc(n, eb + rest);
    assert((eb + rest).take(n as int) =~= eb);
    assert((eb + rest).skip(n as int) =~= rest);
    encode_utf8_valid_utf8(s);
    encode_utf8_decode_utf8(s);
}

/// Relies on `String::from_utf8`: it returns `Ok` exactly when the bytes
/// are valid UTF-8, and the returned string's UTF-8 encoding is those bytes.
#[verifier::external_body]
fn utf8_to_string(v: Vec<u8>) -> (r: Option<String>)
    ensures
        r is Some <==> valid_utf8(v@),
        r matches Some(s) ==> encode_utf8(s@) == v@,
{
    String::from_utf8(v).ok()
}

/// Append the encoding of a `u64` field.
pub fn write_u64(out: &mut Vec<u8>, x: u64)
    ensures
        final(out)@ == old(out)@ + spec_enc_u64(x),
{
    let mut b = u64_to_le_bytes(x);
    out.append(&mut b);
}

/// Append the encoding of a string field.
pub fn write_str(out: &mut Vec<u8>, s: &str)
    ensures
        final(out)@ == old(out)@ + spec_enc_str(s@),
{
    let mut b = s.as_bytes_vec();
    let n = b.len();
    write_u64(out, n as u64);
    out.append(&mut b);
}

/// Read a `u64` field at byte offset `pos`; on success the new offset is
/// returned alongside the value.
pub fn read_u64(v: &Vec<u8>, pos: usize) -> (r: Option<(u64, usize)>)
    requires
        pos <= v@.len(),
    ensures
        (match r {
            Some(t) => t.1 == pos + 8 && t.1 <= v@.len() && spec_read_u64(v@.skip(pos as int))
                == Some((t.0, v@.skip(t.1 as int))),
            None => spec_read_u64(v@.skip(pos as int)) is None,
        }),
{
    if v.len() - pos >= 8 {
        let s = vstd::slice::slice_subrange(v.as_slice(), pos, pos + 8);
        let x = u64_from_le_bytes(s);
        proof {
            assert(v@.skip(pos as int).take(8) =~= v@.subrange(pos as int, pos as int + 8));
            assert(v@.skip(pos as int).skip(8) =~= v@.skip(pos as int + 8));
        }
        Some((x, pos + 8))
    } else {
        None
    }
}

/// Read a string field at byte offset `pos`; on success the new offset is
/// returned alongside the decoded string.
pub fn read_str(v: &Vec<u8>, pos: usize) -> (r: Option<(String, usize)>)
    requires
        pos <= v@.len(),
    ensures
        (match r {
            Some(t) => pos < t.1 <= v@.len() && spec_read_str(v@.skip(pos as int)) == Some(
                (t.0@, v@.skip(t.1 as int)),
            ),
            None => spec_read_str(v@.skip(pos as int)) is None,
        }),
{
    let (n, p1) = match read_u64(v, pos) {
        Some(t) => t,
        None => {
            return None;
        },
    };
    let ghost rest = v@.skip(p1 as int);
    let rem = v.len() - p1;
    if n > rem as u64 {
        return None;
    }
    let nb = n as usize;
    let s = vstd::slice::slice_subrange(v.as_slice(), p1, p1 + nb);
    let sub = vstd::slice::slice_to_vec(s);
    proof {
        assert(sub@ =~= rest.take(n as int));
        assert(rest.skip(n as int) =~= v@.skip(p1 as int + nb as int));
    }
    match utf8_to_string(sub) {
        Some(st) => {
            proof {
                encode_utf8_decode_utf8(st@);
            }
            Some((st, p1 + nb))
        },
        None => None,
    }
}

} // verus!
