//! The greeting handed to the host, as a NUL-terminated byte buffer.
use vstd::prelude::*;
use vstd::utf8::{
    decode_utf8, encode_utf8, encode_utf8_decode_utf8, encode_utf8_valid_utf8, is_ascii_chars,
    is_ascii_chars_encode_utf8, valid_utf8,
};

verus! {

/// The greeting as the host decodes it: what the returned string holds.
pub open spec fn greeting_spec() -> Seq<char> {
    "this is string from rust!"@
}

/// A C string: at least one byte, the last one zero, no zero before it.
pub open spec fn is_c_string(b: Seq<u8>) -> bool {
    &&& b.len() > 0
    &&& b.last() == 0u8
    &&& forall|i: int| 0 <= i < b.len() - 1 ==> b[i] != 0u8
}

/// The content of a C string: every byte before the terminator.
pub open spec fn c_string_content(b: Seq<u8>) -> Seq<u8> {
    b.drop_last()
}

/// The buffer handed to the host: the greeting's UTF-8 bytes, then a zero.
pub open spec fn payload_spec() -> Seq<u8> {
    encode_utf8(greeting_spec()).push(0u8)
}

/// The greeting as text.
pub fn greeting() -> (r: &'static str)
    ensures
        r@ == greeting_spec(),
{
    "this is string from rust!"
}

/// The greeting is 25 ASCII characters, none of them NUL.
pub proof fn lemma_greeting_ascii()
    ensures
        greeting_spec().len() == 25,
        is_ascii_chars(greeting_spec()),
        forall|i: int| 0 <= i < greeting_spec().len() ==> greeting_spec()[i] != '\0',
{
    reveal_strlit("this is string from rust!");
}

/// The greeting's bytes are its characters, one byte each.
pub proof fn lemma_greeting_bytes()
    ensures
        encode_utf8(greeting_spec()) =~= Seq::new(25, |i: int| greeting_spec()[i] as u8),
        forall|i: int| 0 <= i < 25 ==> encode_utf8(greeting_spec())[i] != 0u8,
{
    lemma_greeting_ascii();
    is_ascii_chars_encode_utf8(greeting_spec());
    assert forall|i: int| 0 <= i < 25 implies encode_utf8(greeting_spec())[i] != 0u8 by {
        let c = greeting_spec()[i];
        assert(c != '\0');
        assert((c as u32) < 128);
    }
}

/// The payload is a C string of 26 bytes whose content is the greeting's
/// UTF-8 encoding.
pub proof fn lemma_payload_well_formed()
    ensures
        payload_spec().len() == 26,
        is_c_string(payload_spec()),
        c_string_content(payload_spec()) == encode_utf8(greeting_spec()),
{
    lemma_greeting_bytes();
    assert(c_string_content(payload_spec()) =~= encode_utf8(greeting_spec()));
}

/// The payload's content is valid UTF-8 and decodes to exactly the
/// greeting, without the terminator.
pub proof fn lemma_payload_decodes_to_greeting()
    ensures
        valid_utf8(c_string_content(payload_spec())),
        decode_utf8(c_string_content(payload_spec())) == greeting_spec(),
        decode_utf8(c_string_content(payload_spec())).len() == 25,
{
    lemma_payload_well_formed();
    lemma_greeting_ascii();
    encode_utf8_valid_utf8(greeting_spec());
    encode_utf8_decode_utf8(greeting_spec());
}

/// A fresh copy of the payload: the greeting's bytes and one zero byte.
pub fn payload() -> (r: Vec<u8>)
    ensures
        r@ == payload_spec(),
        is_c_string(r@),
{
    let mut v = vstd::slice::slice_to_vec(greeting().as_bytes());
    v.push(0u8);
    proof {
        lemma_payload_well_formed();
    }
    v
}

/// The content of `b` when it is a C string, else `None`.
pub fn decode_c_string(b: &[u8]) -> (r: Option<Vec<u8>>)
    ensures
        is_c_string(b@) <==> r is Some,
        r matches Some(c) ==> c@ == c_string_content(b@),
{
    let n = b.len();
    if n == 0 || b[n - 1] != 0u8 {
        return None;
    }
    let mut content: Vec<u8> = Vec::new();
    let mut i: usize = 0;
    while i < n - 1
        invariant
            n == b@.len(),
            n > 0,
            i <= n - 1,
            content@ == b@.subrange(0, i as int),
            forall|j: int| 0 <= j < i ==> b@[j] != 0u8,
        decreases n - 1 - i,
    {
        if b[i] == 0u8 {
            return None;
        }
        content.push(b[i]);
        i = i + 1;
        assert(content@ =~= b@.subrange(0, i as int));
    }
    assert(content@ =~= c_string_content(b@));
    Some(content)
}

} // verus!
