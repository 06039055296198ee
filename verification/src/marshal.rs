//! String marshalling across the foreign boundary.
//!
//! Host to foreign: a host string is encoded as a NUL-terminated byte
//! buffer. The foreign calling convention cannot represent a NUL byte inside
//! the payload, so encoding fails with an [`EncodingError`] on such input —
//! before any foreign call is made, since encoding itself performs none.
//!
//! Foreign to host: a foreign-owned buffer is read up to its first NUL byte
//! and decoded into a host string, replacing invalid byte sequences rather
//! than rejecting them, so this direction always succeeds. The caller still
//! owns the foreign buffer's disposal obligation; see [`crate::UniqueOwner`].

use vstd::prelude::*;
use vstd::assert_by_contradiction;
use vstd::string::StrSliceExecFns;
use vstd::utf8::char_is_scalar;
use vstd::utf8::char_u32_cast;
use vstd::utf8::decode_utf8;
use vstd::utf8::encode_scalar;
use vstd::utf8::encode_utf8;
use vstd::utf8::encode_utf8_decode_utf8;
use vstd::utf8::encode_utf8_valid_utf8;
use vstd::utf8::has_width_1_encoding;
use vstd::utf8::valid_utf8;

verus! {

/// A host string could not be represented in the foreign calling
/// convention's string encoding.
#[derive(Clone, Copy, Debug, PartialEq, Eq, Structural)]
pub struct EncodingError {
    /// Byte offset, within the string's UTF-8 encoding, of the first NUL
    /// byte — the byte the foreign convention cannot carry.
    pub position: usize,
}

/// The bytes of `bytes` that precede its first NUL byte; all of `bytes` if
/// no NUL occurs. This is the portion of a NUL-terminated foreign buffer
/// that carries the string's payload.
pub open spec fn cstr_prefix(bytes: Seq<u8>) -> Seq<u8>
    decreases bytes.len(),
{
    if bytes.len() == 0 {
        bytes
    } else if bytes[0] == 0 {
        Seq::empty()
    } else {
        seq![bytes[0]] + cstr_prefix(bytes.drop_first())
    }
}

/// `cstr_prefix` returns exactly the bytes before the first NUL: if the
/// first `stop` bytes are NUL-free and `stop` is the buffer's end or a NUL
/// position, the prefix is the first `stop` bytes.
pub proof fn lemma_cstr_prefix_take(bytes: Seq<u8>, stop: int)
    requires
        0 <= stop <= bytes.len(),
        forall|j: int| 0 <= j < stop ==> bytes[j] != 0,
        stop == bytes.len() || bytes[stop] == 0,
    ensures
        cstr_prefix(bytes) == bytes.take(stop),
    decreases stop,
{
    if stop == 0 {
        if bytes.len() == 0 {
            assert(cstr_prefix(bytes) =~= bytes.take(0));
        } else {
            assert(bytes[0] == 0);
            assert(cstr_prefix(bytes) =~= bytes.take(0));
        }
    } else {
        assert(bytes[0] != 0);
        let rest = bytes.drop_first();
        assert(forall|j: int| 0 <= j < stop - 1 ==> rest[j] != 0);
        lemma_cstr_prefix_take(rest, stop - 1);
        assert(cstr_prefix(bytes) =~= bytes.take(stop)) by {
            assert(cstr_prefix(bytes) == seq![bytes[0]] + rest.take(stop - 1));
        }
    }
}

/// A character's one-byte UTF-8 encoding is the character's own scalar
/// value, and every byte of a multi-byte encoding has its top bit set, so a
/// NUL byte occurs in a character's encoding exactly for the NUL character.
proof fn lemma_scalar_encoding_nul(c: char)
    ensures
        c == '\0' ==> encode_scalar(c as u32) =~= seq![0u8],
        c != '\0' ==> (forall|j: int|
            0 <= j < encode_scalar(c as u32).len() ==> #[trigger] encode_scalar(c as u32)[j]
                != 0),
{
    char_is_scalar(c);
    let v = c as u32;
    char_u32_cast(c, v);
    assert('\0' as u32 == 0);
    if c == '\0' {
        assert((0u32 & 0x7F) as u8 == 0) by (bit_vector);
        assert(encode_scalar(v) =~= seq![0u8]);
    } else {
        assert(v != 0) by {
            if v == 0 {
                char_u32_cast('\0', 0);
            }
        }
        if has_width_1_encoding(v) {
            assert((v & 0x7F) as u8 != 0) by (bit_vector)
                requires
                    1 <= v <= 0x7F,
            ;
        } else {
            assert((0xC0u8 | (((v >> 6) & 0x1F) as u8)) != 0) by (bit_vector);
            assert((0xE0u8 | (((v >> 12) & 0x0F) as u8)) != 0) by (bit_vector);
            assert((0xF0u8 | (((v >> 18) & 0x7) as u8)) != 0) by (bit_vector);
            assert((0x80u8 | ((v & 0x3F) as u8)) != 0) by (bit_vector);
            assert((0x80u8 | (((v >> 6) & 0x3F) as u8)) != 0) by (bit_vector);
            assert((0x80u8 | (((v >> 12) & 0x3F) as u8)) != 0) by (bit_vector);
        }
    }
}

/// A string's UTF-8 encoding is free of NUL bytes exactly when the string is
/// free of the NUL character.
pub proof fn lemma_encoding_nul_free(s: Seq<char>)
    ensures
        (forall|j: int| 0 <= j < encode_utf8(s).len() ==> encode_utf8(s)[j] != 0)
            <==> !s.contains('\0'),
    decreases s.len(),
{
    if s.len() == 0 {
        assert(!s.contains('\0'));
    } else {
        let head = s[0];
        let rest = s.drop_first();
        let head_bytes = encode_scalar(head as u32);
        let rest_bytes = encode_utf8(rest);
        lemma_scalar_encoding_nul(head);
        lemma_encoding_nul_free(rest);
        assert(encode_utf8(s) == head_bytes + rest_bytes);
        assert(s.contains('\0') <==> head == '\0' || rest.contains('\0')) by {
            if s.contains('\0') && head != '\0' {
                let i = choose|i: int| 0 <= i < s.len() && s[i] == '\0';
                assert(rest[i - 1] == '\0');
                assert(rest.contains('\0'));
            }
            if rest.contains('\0') {
                let i = choose|i: int| 0 <= i < rest.len() && rest[i] == '\0';
                assert(s[i + 1] == '\0');
                assert(s.contains('\0'));
            }
        }
        if head == '\0' {
            assert(encode_utf8(s)[0] == 0);
        } else if rest.contains('\0') {
            assert(exists|j: int| 0 <= j < rest_bytes.len() && rest_bytes[j] == 0);
            let j = choose|j: int| 0 <= j < rest_bytes.len() && rest_bytes[j] == 0;
            assert(encode_utf8(s)[head_bytes.len() + j] == 0);
        } else {
            assert forall|j: int| 0 <= j < encode_utf8(s).len() implies encode_utf8(s)[j]
                != 0 by {
                if j < head_bytes.len() {
                    assert(encode_utf8(s)[j] == head_bytes[j]);
                } else {
                    assert(encode_utf8(s)[j] == rest_bytes[j - head_bytes.len()]);
                }
            }
        }
    }
}

/// Encodes a host string for a foreign call: its UTF-8 bytes followed by a
/// single NUL terminator. Fails, without reaching any foreign call, exactly
/// when the string contains an embedded NUL, and reports the first NUL
/// byte's offset in the encoding.
pub fn encode_host_string(s: &str) -> (r: Result<Vec<u8>, EncodingError>)
    ensures
        (r matches Ok(buffer) ==> buffer@ == encode_utf8(s@).push(0)
            && (forall|j: int| 0 <= j < encode_utf8(s@).len() ==> encode_utf8(s@)[j] != 0)),
        (r matches Err(e) ==> e.position < encode_utf8(s@).len()
            && encode_utf8(s@)[e.position as int] == 0
            && (forall|j: int| 0 <= j < e.position ==> encode_utf8(s@)[j] != 0)),
        (r matches Err(_) <==> s@.contains('\0')),
{
    proof {
        lemma_encoding_nul_free(s@);
    }
    let mut buffer = s.as_bytes_vec();
    let length = buffer.len();
    let mut i: usize = 0;
    while i < length
        invariant
            buffer@ == encode_utf8(s@),
            length == buffer@.len(),
            i <= length,
            forall|j: int| 0 <= j < i ==> buffer@[j] != 0,
        decreases length - i,
    {
        if buffer[i] == 0 {
            proof {
                lemma_encoding_nul_free(s@);
                assert(encode_utf8(s@)[i as int] == 0);
                assert_by_contradiction!(s@.contains('\0'), {
                    assert(encode_utf8(s@)[i as int] != 0);
                });
            }
            return Err(EncodingError { position: i });
        }
        i = i + 1;
    }
    buffer.push(0);
    Ok(buffer)
}

/// A name for what `String::from_utf8_lossy` returns: the characters of
/// `bytes` with every invalid byte sequence replaced. A function of the
/// bytes alone.
pub uninterp spec fn lossy_decode_of(bytes: Seq<u8>) -> Seq<char>;

/// Relies on `String::from_utf8_lossy`: its result depends only on the
/// bytes, and its documentation promises that valid UTF-8 input is converted
/// unchanged, i.e. to exactly the characters the bytes encode.
#[verifier::external_body]
fn lossy_decode(bytes: &Vec<u8>) -> (s: String)
    ensures
        s@ == lossy_decode_of(bytes@),
        valid_utf8(bytes@) ==> s@ == decode_utf8(bytes@),
{
    String::from_utf8_lossy(bytes.as_slice()).into_owned()
}

/// Decodes a foreign string buffer into a host string: the bytes before the
/// buffer's first NUL terminator are decoded, best-effort, with invalid
/// sequences replaced rather than rejected. Always succeeds. The foreign
/// buffer itself is not touched here — the caller copies it out and remains
/// responsible for requesting its disposal.
pub fn decode_foreign_string(bytes: &Vec<u8>) -> (s: String)
    ensures
        s@ == lossy_decode_of(cstr_prefix(bytes@)),
        valid_utf8(cstr_prefix(bytes@)) ==> s@ == decode_utf8(cstr_prefix(bytes@)),
{
    let length = bytes.len();
    let mut payload: Vec<u8> = Vec::new();
    let mut i: usize = 0;
    while i < length && bytes[i] != 0
        invariant
            length == bytes@.len(),
            i <= length,
            payload@ == bytes@.take(i as int),
            forall|j: int| 0 <= j < i ==> bytes@[j] != 0,
        decreases length - i,
    {
        payload.push(bytes[i]);
        assert(payload@ =~= bytes@.take(i + 1));
        i = i + 1;
    }
    proof {
        lemma_cstr_prefix_take(bytes@, i as int);
    }
    lossy_decode(&payload)
}

/// Law: the string round trip is the identity. For a host string containing
/// no NUL character, encoding appends exactly one terminator, the terminated
/// buffer's payload is exactly the original encoding, and decoding that
/// payload recovers the original characters unchanged.
pub proof fn lemma_string_round_trip(s: Seq<char>)
    requires
        !s.contains('\0'),
    ensures
        cstr_prefix(encode_utf8(s).push(0)) == encode_utf8(s),
        valid_utf8(cstr_prefix(encode_utf8(s).push(0))),
        decode_utf8(cstr_prefix(encode_utf8(s).push(0))) == s,
{
    lemma_encoding_nul_free(s);
    let encoded = encode_utf8(s);
    let terminated = encoded.push(0);
    lemma_cstr_prefix_take(terminated, encoded.len() as int);
    assert(terminated.take(encoded.len() as int) =~= encoded);
    encode_utf8_valid_utf8(s);
    encode_utf8_decode_utf8(s);
}

} // verus!
