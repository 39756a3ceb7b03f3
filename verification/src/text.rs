//! Text fields: UTF-8 decoding and NUL padding.

use vstd::prelude::*;
use vstd::string::*;
use vstd::utf8::{
    decode_utf8, encode_utf8, encode_utf8_decode_utf8, encode_utf8_valid_utf8,
    is_ascii_chars, is_ascii_chars_encode_utf8, valid_utf8,
};

verus! {

/// The text that `bytes` encode, where they encode any.
pub open spec fn text_of(bytes: Seq<u8>) -> Option<Seq<char>> {
    if valid_utf8(bytes) {
        Some(decode_utf8(bytes))
    } else {
        None
    }
}

/// `s` without the NUL characters at its end.
pub open spec fn trim_nul(s: Seq<char>) -> Seq<char>
    decreases s.len(),
{
    if s.len() > 0 && s.last() == '\0' {
        trim_nul(s.drop_last())
    } else {
        s
    }
}

/// The text of a fixed-width field: what its bytes encode, without the
/// padding at the end.
pub open spec fn padded_text_of(bytes: Seq<u8>) -> Option<Seq<char>> {
    match text_of(bytes) {
        Some(s) => Some(trim_nul(s)),
        None => None,
    }
}

/// `n` NUL characters.
pub open spec fn nul_padding(n: nat) -> Seq<char> {
    Seq::new(n, |i: int| '\0')
}

/// Calls `String::from_utf8` and drops the error's detail. The standard
/// library documents that the call succeeds exactly on well-formed UTF-8 and
/// that the string then holds the characters which the bytes encode.
#[verifier::external_body]
fn string_from_utf8(bytes: Vec<u8>) -> (r: Option<String>)
    ensures
        r is Some <==> valid_utf8(bytes@),
        r is Some ==> r->Some_0@ == decode_utf8(bytes@),
{
    String::from_utf8(bytes).ok()
}

/// Decodes `bytes` as UTF-8 text.
pub fn decode_text(bytes: Vec<u8>) -> (r: Option<String>)
    ensures
        r is Some <==> text_of(bytes@) is Some,
        r is Some ==> r->Some_0@ == text_of(bytes@)->Some_0,
{
    string_from_utf8(bytes)
}

/// Copies `s` without the NUL characters at its end.
pub fn trim_trailing_nul(s: &str) -> (r: String)
    ensures
        r@ == trim_nul(s@),
{
    let mut k: usize = s.unicode_len();
    assert(s@.subrange(0, k as int) =~= s@);
    while k > 0 && s.get_char(k - 1) == '\0'
        invariant
            k <= s@.len(),
            trim_nul(s@) == trim_nul(s@.subrange(0, k as int)),
        decreases k,
    {
        proof {
            let head = s@.subrange(0, k as int);
            assert(head.last() == '\0');
            assert(head.drop_last() =~= s@.subrange(0, k - 1));
        }
        k -= 1;
    }
    assert(trim_nul(s@.subrange(0, k as int)) == s@.subrange(0, k as int));
    s.substring_char(0, k).to_owned()
}

/// Decodes the bytes of a fixed-width field and strips its padding.
pub fn decode_padded_text(bytes: Vec<u8>) -> (r: Option<String>)
    ensures
        r is Some <==> padded_text_of(bytes@) is Some,
        r is Some ==> r->Some_0@ == padded_text_of(bytes@)->Some_0,
{
    match decode_text(bytes) {
        Some(s) => Some(trim_trailing_nul(s.as_str())),
        None => None,
    }
}

/// Trimming leaves no NUL at the end and removes nothing else: the result
/// followed by some number of NULs is the input.
pub proof fn lemma_trim_nul_shape(s: Seq<char>)
    ensures
        trim_nul(s).len() <= s.len(),
        trim_nul(s).len() == 0 || trim_nul(s).last() != '\0',
        s == trim_nul(s) + nul_padding((s.len() - trim_nul(s).len()) as nat),
    decreases s.len(),
{
    if s.len() > 0 && s.last() == '\0' {
        let head = s.drop_last();
        lemma_trim_nul_shape(head);
        let t = trim_nul(head);
        let rest = nul_padding((head.len() - t.len()) as nat);
        assert(head == t + rest);
        assert(s =~= head.push('\0'));
        assert(s =~= t + nul_padding((s.len() - t.len()) as nat));
    } else {
        assert(s =~= s + nul_padding(0));
    }
}

/// Text that does not itself end in NUL comes back unchanged from under any
/// amount of NUL padding.
pub proof fn lemma_trim_nul_strips_padding(text: Seq<char>, pad: nat)
    requires
        text.len() == 0 || text.last() != '\0',
    ensures
        trim_nul(text + nul_padding(pad)) == text,
    decreases pad,
{
    let padded = text + nul_padding(pad);
    if pad == 0 {
        assert(padded =~= text);
    } else {
        assert(padded.last() == '\0');
        assert(padded.drop_last() =~= text + nul_padding((pad - 1) as nat));
        lemma_trim_nul_strips_padding(text, (pad - 1) as nat);
    }
}

/// The encoding of two texts in a row is the two encodings in a row.
pub proof fn lemma_encode_utf8_concat(a: Seq<char>, b: Seq<char>)
    ensures
        encode_utf8(a + b) == encode_utf8(a) + encode_utf8(b),
    decreases a.len(),
{
    if a.len() == 0 {
        assert(a + b =~= b);
        assert(encode_utf8(a) + encode_utf8(b) =~= encode_utf8(b));
    } else {
        lemma_encode_utf8_concat(a.drop_first(), b);
        assert((a + b).drop_first() =~= a.drop_first() + b);
        assert(encode_utf8(a + b) =~= encode_utf8(a) + encode_utf8(b));
    }
}

/// A fixed-width field that holds the encoding of a text, filled up with
/// zero bytes, decodes to exactly that text, provided the text does not
/// itself end in NUL.
pub proof fn lemma_padded_field_decodes_to_text(text: Seq<char>, pad: nat)
    requires
        text.len() == 0 || text.last() != '\0',
    ensures
        padded_text_of(encode_utf8(text) + Seq::new(pad, |i: int| 0u8)) == Some(text),
{
    let nuls = nul_padding(pad);
    let zeros = Seq::new(pad, |i: int| 0u8);
    assert(is_ascii_chars(nuls));
    is_ascii_chars_encode_utf8(nuls);
    assert(encode_utf8(nuls) =~= zeros);
    lemma_encode_utf8_concat(text, nuls);
    encode_utf8_valid_utf8(text + nuls);
    encode_utf8_decode_utf8(text + nuls);
    lemma_trim_nul_strips_padding(text, pad);
}

} // verus!
