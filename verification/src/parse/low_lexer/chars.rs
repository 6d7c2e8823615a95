use vstd::prelude::*;
use vstd::string::*;
use vstd::utf8::*;
use unicode_xid::UnicodeXID;

verus! {

/// Whether a character has the Unicode property `White_Space`.
pub uninterp spec fn white_space(c: char) -> bool;

/// Whether a character has the Unicode property `XID_Start`.
pub uninterp spec fn xid_start(c: char) -> bool;

/// Whether a character has the Unicode property `XID_Continue`.
pub uninterp spec fn xid_continue(c: char) -> bool;

/// `char::is_whitespace`: whether `c` has the property `White_Space`.
#[verifier::external_body]
pub(crate) fn is_whitespace(c: char) -> (r: bool)
    ensures
        r == white_space(c),
{
    c.is_whitespace()
}

/// `UnicodeXID::is_xid_start`: whether `c` has the property `XID_Start`.
#[verifier::external_body]
pub(crate) fn is_xid_start(c: char) -> (r: bool)
    ensures
        r == xid_start(c),
{
    UnicodeXID::is_xid_start(c)
}

/// `UnicodeXID::is_xid_continue`: whether `c` has the property
/// `XID_Continue`.
#[verifier::external_body]
pub(crate) fn is_xid_continue(c: char) -> (r: bool)
    ensures
        r == xid_continue(c),
{
    UnicodeXID::is_xid_continue(c)
}

/// The number of bytes of the UTF-8 encoding of `c`.
pub open spec fn spec_utf8_len(c: char) -> nat {
    if (c as u32) < 0x80 {
        1
    } else if (c as u32) < 0x800 {
        2
    } else if (c as u32) < 0x10000 {
        3
    } else {
        4
    }
}

/// The number of bytes of the UTF-8 encoding of the first `upto`
/// characters of `chars`.
pub open spec fn byte_len(chars: Seq<char>, upto: int) -> nat
    decreases upto,
{
    if upto <= 0 {
        0
    } else {
        byte_len(chars, upto - 1) + spec_utf8_len(chars[upto - 1])
    }
}

/// More characters have no fewer bytes.
pub proof fn lemma_byte_len_grows(chars: Seq<char>, a: int, b: int)
    requires
        a <= b,
    ensures
        byte_len(chars, a) <= byte_len(chars, b),
        a < b && 0 <= a ==> byte_len(chars, a) < byte_len(chars, b),
    decreases b - a,
{
    if a < b {
        lemma_byte_len_grows(chars, a, b - 1);
    }
}

/// The bytes of some characters depend on those characters alone.
pub proof fn lemma_byte_len_prefix(a: Seq<char>, b: Seq<char>, upto: int)
    requires
        upto <= a.len(),
        upto <= b.len(),
        forall|i: int| 0 <= i < upto ==> a[i] == b[i],
    ensures
        byte_len(a, upto) == byte_len(b, upto),
    decreases upto,
{
    if upto > 0 {
        lemma_byte_len_prefix(a, b, upto - 1);
    }
}

/// The bytes of some characters are those of the first and those of the
/// rest.
pub proof fn lemma_byte_len_front(chars: Seq<char>, upto: int)
    requires
        1 <= upto <= chars.len(),
    ensures
        byte_len(chars, upto) == spec_utf8_len(chars[0]) + byte_len(chars.drop_first(), upto - 1),
    decreases upto,
{
    let rest = chars.drop_first();
    if upto > 1 {
        lemma_byte_len_front(chars, upto - 1);
        assert(rest[upto - 2] == chars[upto - 1]);
        assert(byte_len(rest, upto - 1) == byte_len(rest, upto - 2) + spec_utf8_len(
            rest[upto - 2],
        ));
    } else {
        assert(byte_len(chars, 0) == 0);
        assert(byte_len(rest, 0) == 0);
        assert(byte_len(chars, 1) == byte_len(chars, 0) + spec_utf8_len(chars[0]));
    }
}

/// The UTF-8 encoding of a text has as many bytes as its characters have.
pub proof fn lemma_encoded_byte_len(chars: Seq<char>)
    ensures
        encode_utf8(chars).len() == byte_len(chars, chars.len() as int),
    decreases chars.len(),
{
    if chars.len() > 0 {
        lemma_encoded_byte_len(chars.drop_first());
        lemma_byte_len_front(chars, chars.len() as int);
        char_is_scalar(chars[0]);
        assert(encode_scalar(chars[0] as u32).len() == spec_utf8_len(chars[0]));
    }
}

pub fn utf8_len(c: char) -> (r: u32)
    ensures
        r == spec_utf8_len(c),
        1 <= r <= 4,
{
    let code = c as u32;
    if code < 0x80 {
        1
    } else if code < 0x800 {
        2
    } else if code < 0x10000 {
        3
    } else {
        4
    }
}

/// The value of `c` as a digit, where it is a decimal digit or a letter.
pub open spec fn digit_value(c: char) -> Option<int> {
    if '0' <= c <= '9' {
        Some(c as u32 - '0' as u32)
    } else if 'a' <= c <= 'z' {
        Some(c as u32 - 'a' as u32 + 10)
    } else if 'A' <= c <= 'Z' {
        Some(c as u32 - 'A' as u32 + 10)
    } else {
        None
    }
}

/// Whether `c` is a digit of the radix `radix`.
pub open spec fn spec_is_digit(c: char, radix: u32) -> bool {
    match digit_value(c) {
        Some(value) => value < radix,
        None => false,
    }
}

pub fn is_digit(c: char, radix: u32) -> (r: bool)
    ensures
        r == spec_is_digit(c, radix),
{
    let code = c as u32;
    if '0' <= c && c <= '9' {
        code - ('0' as u32) < radix
    } else if 'a' <= c && c <= 'z' {
        radix > 10 && code - ('a' as u32) < radix - 10
    } else if 'A' <= c && c <= 'Z' {
        radix > 10 && code - ('A' as u32) < radix - 10
    } else {
        false
    }
}

/// Whether a name can start with `c`: a letter, an underscore, or a
/// character outside ASCII with the property `XID_Start`.
pub open spec fn spec_is_id_start(c: char) -> bool {
    'a' <= c <= 'z' || 'A' <= c <= 'Z' || c == '_' || (c > '\x7f' && xid_start(c))
}

/// Whether a name can go on with `c`: a letter, a digit, an underscore, or
/// a character outside ASCII with the property `XID_Continue`.
pub open spec fn spec_is_id_continue(c: char) -> bool {
    'a' <= c <= 'z' || 'A' <= c <= 'Z' || '0' <= c <= '9' || c == '_' || (c > '\x7f'
        && xid_continue(c))
}

pub fn is_id_start(c: char) -> (r: bool)
    ensures
        r == spec_is_id_start(c),
{
    ('a' <= c && c <= 'z') || ('A' <= c && c <= 'Z') || c == '_' || (c > '\x7f' && is_xid_start(c))
}

pub fn is_id_continue(c: char) -> (r: bool)
    ensures
        r == spec_is_id_continue(c),
{
    ('a' <= c && c <= 'z') || ('A' <= c && c <= 'Z') || ('0' <= c && c <= '9') || c == '_' || (c
        > '\x7f' && is_xid_continue(c))
}

/// The characters of `s`.
pub fn chars_of(s: &str) -> (r: Vec<char>)
    ensures
        r@ == s@,
{
    let mut r: Vec<char> = Vec::new();
    for c in it: s.chars()
        invariant
            r@ == it.seq().take(it.index() as int),
            it.seq() == s@,
    {
        r.push(c);
        assert(r@ =~= it.seq().take(it.index() + 1));
    }
    assert(r@ =~= s@);
    r
}

} // verus!
