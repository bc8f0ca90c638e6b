//! Marshaling between host strings and the engine's nul-terminated buffers.
use std::borrow::Cow;
use vstd::prelude::*;
use vstd::string::StringSliceAdditionalSpecFns;
use vstd::utf8::{
    char_u32_cast, decode_utf8, encode_scalar, encode_utf8, encode_utf8_decode_utf8, encode_utf8_valid_utf8,
    valid_utf8,
};

use crate::error::EmbeddedNul;

verus! {

/// No byte of `b` is the terminator.
pub open spec fn nul_free(b: Seq<u8>) -> bool {
    forall|i: int| 0 <= i < b.len() ==> b[i] != 0
}

/// The bytes a C reader sees in a buffer: everything before the first nul,
/// or the whole buffer where it holds none.
pub open spec fn c_text(b: Seq<u8>) -> Seq<u8>
    decreases b.len(),
{
    if b.len() == 0 || b[0] == 0 {
        Seq::empty()
    } else {
        seq![b[0]] + c_text(b.drop_first())
    }
}

proof fn lemma_marked_byte_nonzero(y: u8)
    by (bit_vector)
    ensures
        0x80u8 | y != 0,
        0xC0u8 | y != 0,
        0xE0u8 | y != 0,
        0xF0u8 | y != 0,
{
}

proof fn lemma_ascii_byte(c: u32)
    by (bit_vector)
    requires
        c <= 0x7F,
    ensures
        ((c & 0x7F) as u8 == 0) <==> c == 0,
{
}

/// One character's encoding holds a nul exactly when the character is nul.
proof fn lemma_scalar_nul_free(c: char)
    ensures
        nul_free(encode_scalar(c as u32)) <==> c != '\0',
{
    let v = c as u32;
    char_u32_cast(c, v);
    lemma_marked_byte_nonzero(((v >> 6) & 0x1F) as u8);
    lemma_marked_byte_nonzero(((v >> 12) & 0x0F) as u8);
    lemma_marked_byte_nonzero(((v >> 18) & 0x7) as u8);
    lemma_marked_byte_nonzero((v & 0x3F) as u8);
    lemma_marked_byte_nonzero(((v >> 6) & 0x3F) as u8);
    lemma_marked_byte_nonzero(((v >> 12) & 0x3F) as u8);
    if v <= 0x7F {
        lemma_ascii_byte(v);
    }
    if c == '\0' {
        assert(encode_scalar(c as u32)[0] == 0);
    }
}

/// A string's encoding holds a nul byte exactly when the string holds the
/// nul character: no other character encodes to a zero byte.
pub proof fn lemma_nul_byte_iff_nul_char(s: Seq<char>)
    ensures
        nul_free(encode_utf8(s)) <==> !s.contains('\0'),
    decreases s.len(),
{
    if s.len() > 0 {
        let head = encode_scalar(s[0] as u32);
        let tail = encode_utf8(s.drop_first());
        lemma_scalar_nul_free(s[0]);
        lemma_nul_byte_iff_nul_char(s.drop_first());
        assert(encode_utf8(s) == head + tail);
        if nul_free(head) && nul_free(tail) {
            assert forall|i: int| 0 <= i < (head + tail).len() implies (head + tail)[i] != 0 by {
                if i >= head.len() {
                    assert((head + tail)[i] == tail[i - head.len()]);
                }
            }
        }
        if !nul_free(tail) {
            let i = choose|i: int| 0 <= i < tail.len() && tail[i] == 0;
            assert((head + tail)[head.len() + i] == 0);
        }
        if !nul_free(head) {
            let i = choose|i: int| 0 <= i < head.len() && head[i] == 0;
            assert((head + tail)[i] == 0);
        }
        if s.contains('\0') {
            let k = choose|k: int| 0 <= k < s.len() && s[k] == '\0';
            if k > 0 {
                assert(s.drop_first()[k - 1] == '\0');
            }
        }
        if s.drop_first().contains('\0') {
            let k = choose|k: int| 0 <= k < s.drop_first().len() && s.drop_first()[k] == '\0';
            assert(s[k + 1] == '\0');
        }
    }
}

/// A C reader of a nul-free sequence with its terminator sees the sequence.
pub proof fn lemma_c_text_of_terminated(b: Seq<u8>)
    requires
        nul_free(b),
    ensures
        c_text(b.push(0)) == b,
    decreases b.len(),
{
    if b.len() > 0 {
        assert(b.push(0).drop_first() =~= b.drop_first().push(0));
        lemma_c_text_of_terminated(b.drop_first());
        assert(seq![b[0]] + b.drop_first() =~= b);
    } else {
        assert(b.push(0)[0] == 0);
    }
}

/// A string whose encoding holds no nul survives the trip to the engine and
/// back: a C reader of its terminated buffer sees exactly its encoding, which
/// is valid UTF-8 and decodes to the same characters.
pub proof fn lemma_round_trip(s: Seq<char>)
    requires
        nul_free(encode_utf8(s)),
    ensures
        c_text(encode_utf8(s).push(0)) == encode_utf8(s),
        valid_utf8(c_text(encode_utf8(s).push(0))),
        decode_utf8(c_text(encode_utf8(s).push(0))) == s,
{
    lemma_c_text_of_terminated(encode_utf8(s));
    encode_utf8_valid_utf8(s);
    encode_utf8_decode_utf8(s);
}

/// What `String::from_utf8_lossy` makes of a byte sequence.
pub uninterp spec fn lossy_utf8(b: Seq<u8>) -> Seq<char>;

/// Relies on `String::from_utf8_lossy`: valid UTF-8 decodes to its own
/// characters; other input gets replacement characters, which is named only.
#[verifier::external_body]
fn decode_lossy<'a>(b: &'a [u8]) -> (r: Cow<'a, str>)
    ensures
        r@ == lossy_utf8(b@),
        valid_utf8(b@) ==> r@ == decode_utf8(b@),
{
    String::from_utf8_lossy(b)
}

/// Relies on `Cow::into_owned`: the owned string holds the same text.
#[verifier::external_body]
fn cow_into_string(c: Cow<'_, str>) -> (r: String)
    ensures
        r@ == c@,
{
    c.into_owned()
}

/// A host string in the engine's form: its UTF-8 bytes followed by one nul,
/// with no nul before it. The view is the bytes without the terminator.
pub struct NativeString {
    bytes: Vec<u8>,
}

impl View for NativeString {
    type V = Seq<u8>;

    closed spec fn view(&self) -> Seq<u8> {
        self.bytes@.drop_last()
    }
}

impl NativeString {
    #[verifier::type_invariant]
    spec fn inv(&self) -> bool {
        &&& self.bytes@.len() >= 1
        &&& self.bytes@.last() == 0
        &&& nul_free(self.bytes@.drop_last())
    }

    /// The buffer handed to the engine: the text bytes and the terminator,
    /// which is the only nul in it.
    pub fn as_bytes_with_nul(&self) -> (r: &[u8])
        ensures
            r@ == self@.push(0),
            nul_free(self@),
    {
        proof {
            use_type_invariant(self);
        }
        assert(self.bytes@ =~= self@.push(0));
        self.bytes.as_slice()
    }

    /// Number of text bytes, the terminator not counted.
    pub fn len(&self) -> (r: usize)
        ensures
            r == self@.len(),
    {
        proof {
            use_type_invariant(self);
        }
        self.bytes.len() - 1
    }
}

/// Encodes `s` for the engine. Fails where its UTF-8 encoding holds a nul,
/// naming the first one; such a string is never truncated.
pub fn to_cstr(s: &str) -> (r: Result<NativeString, EmbeddedNul>)
    ensures
        r is Ok <==> nul_free(s.spec_bytes()),
        r is Ok <==> !s@.contains('\0'),
        r matches Ok(c) ==> c@ == s.spec_bytes(),
        r matches Err(e) ==> e.position < s.spec_bytes().len()
            && s.spec_bytes()[e.position as int] == 0
            && nul_free(s.spec_bytes().take(e.position as int)),
{
    proof {
        lemma_nul_byte_iff_nul_char(s@);
    }
    let b = s.as_bytes();
    let mut out: Vec<u8> = Vec::new();
    let mut i: usize = 0;
    while i < b.len()
        invariant
            b@ == s.spec_bytes(),
            0 <= i <= b@.len(),
            out@ == b@.take(i as int),
            nul_free(out@),
        decreases b@.len() - i,
    {
        if b[i] == 0 {
            assert(s.spec_bytes()[i as int] == 0);
            proof {
                lemma_nul_byte_iff_nul_char(s@);
            }
            return Err(EmbeddedNul { position: i });
        }
        out.push(b[i]);
        i = i + 1;
        assert(out@ =~= b@.take(i as int));
    }
    assert(b@.take(i as int) =~= b@);
    out.push(0);
    assert(out@.drop_last() =~= b@);
    Ok(NativeString { bytes: out })
}

/// Length of the text a C reader sees in `b`.
fn c_text_len(b: &[u8]) -> (r: usize)
    ensures
        r <= b@.len(),
        b@.take(r as int) == c_text(b@),
{
    let mut i: usize = 0;
    assert(b@.skip(0) =~= b@);
    assert(b@.take(0) + c_text(b@) =~= c_text(b@));
    while i < b.len() && b[i] != 0
        invariant
            0 <= i <= b@.len(),
            c_text(b@) == b@.take(i as int) + c_text(b@.skip(i as int)),
        decreases b@.len() - i,
    {
        proof {
            let rest = b@.skip(i as int);
            assert(rest.drop_first() =~= b@.skip(i + 1));
            assert(b@.take(i + 1) =~= b@.take(i as int) + seq![b@[i as int]]);
            assert(c_text(rest) == seq![rest[0]] + c_text(rest.drop_first()));
            assert(b@.take(i as int) + (seq![b@[i as int]] + c_text(b@.skip(i + 1)))
                =~= b@.take(i + 1) + c_text(b@.skip(i + 1)));
        }
        i = i + 1;
    }
    proof {
        let rest = b@.skip(i as int);
        assert(rest.len() == 0 || rest[0] == 0);
        assert(b@.take(i as int) + c_text(rest) =~= b@.take(i as int));
    }
    i
}

/// Decodes a buffer from the engine into an owned string. `None` stands for
/// a null pointer; otherwise the bytes before the first nul are decoded,
/// invalid UTF-8 being replaced, never rejected.
pub fn from_cstr(p: Option<&[u8]>) -> (r: Option<String>)
    ensures
        r is Some <==> p is Some,
        p matches Some(b) ==> r.unwrap()@ == lossy_utf8(c_text(b@)),
        p matches Some(b) ==> (valid_utf8(c_text(b@)) ==> r.unwrap()@ == decode_utf8(c_text(b@))),
{
    match p {
        None => None,
        Some(b) => {
            let n = c_text_len(b);
            let text = decode_lossy(&b[0..n]);
            Some(cow_into_string(text))
        },
    }
}

/// As `from_cstr`, but the result may borrow the engine's buffer, and so is
/// valid only while that buffer is neither changed nor freed.
pub fn from_cstr_ref<'a>(p: Option<&'a [u8]>) -> (r: Option<Cow<'a, str>>)
    ensures
        r is Some <==> p is Some,
        p matches Some(b) ==> r.unwrap()@ == lossy_utf8(c_text(b@)),
        p matches Some(b) ==> (valid_utf8(c_text(b@)) ==> r.unwrap()@ == decode_utf8(c_text(b@))),
{
    match p {
        None => None,
        Some(b) => {
            let n = c_text_len(b);
            Some(decode_lossy(&b[0..n]))
        },
    }
}

} // verus!
