//! The 128-bit UUID of the `uuid` crate, as this library sees it: sixteen
//! bytes, a version-8 constructor, and a hyphenated textual form.
//!
//! The functions marked `external_body` call into `uuid`; Verus takes their
//! contracts on trust. Everything else here is proved.

use vstd::prelude::*;
use uuid::Uuid;

verus! {

/// `uuid::Uuid`, a value that Verus does not look into.
#[verifier::external_type_specification]
#[verifier::external_body]
pub struct ExUuid(uuid::Uuid);

/// `uuid::Error`, a value that Verus does not look into.
#[verifier::external_type_specification]
#[verifier::external_body]
pub struct ExUuidError(uuid::Error);

/// The sixteen bytes that a UUID holds: what `Uuid::as_bytes` returns.
pub uninterp spec fn uuid_bytes(u: Uuid) -> Seq<u8>;

/// What `Uuid::parse_str` returns for a text: the bytes of the UUID that it
/// read, or its error.
pub uninterp spec fn uuid_parse(text: Seq<char>) -> Result<Seq<u8>, uuid::Error>;

/// A text that was read as the given bytes.
pub open spec fn accepted(b: Seq<u8>) -> Result<Seq<u8>, uuid::Error> {
    Ok(b)
}

/// A text that was refused with the given error.
pub open spec fn rejected(e: uuid::Error) -> Result<Seq<u8>, uuid::Error> {
    Err(e)
}

/// The message of a `uuid::Error`: what its `Display` writes.
pub uninterp spec fn uuid_error_text(e: uuid::Error) -> Seq<char>;

/// The bytes of a version-8 UUID made from `b`: the high nibble of byte 6 is
/// set to 8 and the top two bits of byte 8 to `10`; nothing else changes.
pub open spec fn v8_normalized(b: Seq<u8>) -> Seq<u8> {
    b.update(6, (b[6] & 0x0f) | 0x80).update(8, (b[8] & 0x3f) | 0x80)
}

/// Whether sixteen bytes carry the marks of a version-8 UUID.
pub open spec fn is_version_8(b: Seq<u8>) -> bool {
    &&& b.len() == 16
    &&& b[6] >> 4 == 8
    &&& b[8] >> 6 == 2
}

/// The character of a hexadecimal digit, in lower case.
pub open spec fn hex_digit(n: u8) -> char {
    seq!['0', '1', '2', '3', '4', '5', '6', '7', '8', '9', 'a', 'b', 'c', 'd', 'e', 'f'][n as int]
}

/// The `j`-th hexadecimal digit of a byte string, high nibble first.
pub open spec fn nibble(b: Seq<u8>, j: int) -> u8 {
    if j % 2 == 0 {
        b[j / 2] >> 4
    } else {
        b[j / 2] & 0x0f
    }
}

/// Whether position `k` of the hyphenated form holds a hyphen.
pub open spec fn is_hyphen_position(k: int) -> bool {
    k == 8 || k == 13 || k == 18 || k == 23
}

/// The number of hyphens before position `k` of the hyphenated form.
pub open spec fn hyphens_before(k: int) -> int {
    if k < 8 {
        0
    } else if k < 13 {
        1
    } else if k < 18 {
        2
    } else if k < 23 {
        3
    } else {
        4
    }
}

/// The canonical text of sixteen bytes: 36 characters, lower-case hexadecimal
/// digits in groups of 8, 4, 4, 4 and 12, with a hyphen between the groups.
pub open spec fn hyphenated(b: Seq<u8>) -> Seq<char> {
    Seq::new(
        36,
        |k: int|
            if is_hyphen_position(k) {
                '-'
            } else {
                hex_digit(nibble(b, k - hyphens_before(k)))
            },
    )
}

/// Whether a text is the canonical text of some sixteen bytes.
pub open spec fn is_hyphenated(text: Seq<char>) -> bool {
    exists|b: Seq<u8>| b.len() == 16 && #[trigger] hyphenated(b) == text
}

/// The bytes that a text stands for. A canonical text stands for the bytes it
/// was made from; of any other text, the parser decides.
pub open spec fn uuid_text_value(text: Seq<char>) -> Result<Seq<u8>, uuid::Error> {
    if is_hyphenated(text) {
        accepted(choose|b: Seq<u8>| b.len() == 16 && #[trigger] hyphenated(b) == text)
    } else {
        uuid_parse(text)
    }
}

/// `Uuid::as_bytes`: the sixteen bytes of the UUID.
#[verifier::external_body]
pub(crate) fn uuid_as_bytes(u: &Uuid) -> (b: &[u8; 16])
    ensures
        b@ == uuid_bytes(*u),
{
    u.as_bytes()
}

/// `Uuid`'s `==`: whether two UUIDs hold the same sixteen bytes.
#[verifier::external_body]
pub(crate) fn uuid_eq(a: &Uuid, b: &Uuid) -> (r: bool)
    ensures
        r == (uuid_bytes(*a) == uuid_bytes(*b)),
{
    a == b
}

/// `Uuid::new_v8`: a UUID of the given bytes, but for the version nibble in
/// byte 6 and the variant bits in byte 8, which are overwritten.
#[verifier::external_body]
pub(crate) fn uuid_new_v8(bytes: [u8; 16]) -> (u: Uuid)
    ensures
        uuid_bytes(u) == v8_normalized(bytes@),
{
    Uuid::new_v8(bytes)
}

/// `Uuid::parse_str`: reads a UUID from text, as `uuid_parse` names it. The
/// canonical hyphenated text of any sixteen bytes is accepted and gives those
/// bytes back.
#[verifier::external_body]
fn uuid_parse_str(text: &str) -> (r: Result<Uuid, uuid::Error>)
    ensures
        r matches Ok(u) ==> uuid_parse(text@) == accepted(uuid_bytes(u)),
        r matches Err(e) ==> uuid_parse(text@) == rejected(e),
        forall|b: Seq<u8>|
            b.len() == 16 && #[trigger] hyphenated(b) == text@ ==> r is Ok && uuid_bytes(r->Ok_0)
                == b,
{
    Uuid::parse_str(text)
}

/// Reads a UUID from text.
pub(crate) fn parse_uuid(text: &str) -> (r: Result<Uuid, uuid::Error>)
    ensures
        r matches Ok(u) ==> uuid_text_value(text@) == accepted(uuid_bytes(u)),
        r matches Err(e) ==> uuid_text_value(text@) == rejected(e),
{
    uuid_parse_str(text)
}

/// `Uuid`'s `Display`: the canonical hyphenated lower-case text of its bytes.
#[verifier::external_body]
pub(crate) fn uuid_to_string(u: &Uuid) -> (s: String)
    ensures
        s@ == hyphenated(uuid_bytes(*u)),
{
    u.to_string()
}

/// `uuid::Error`'s `Display`: the message of a parse error.
#[verifier::external_body]
pub(crate) fn uuid_error_to_string(e: &uuid::Error) -> (s: String)
    ensures
        s@ == uuid_error_text(*e),
{
    e.to_string()
}

/// The first position of byte `i` in the hyphenated form.
spec fn digit_position(i: int) -> int {
    if i < 4 {
        2 * i
    } else if i < 6 {
        2 * i + 1
    } else if i < 8 {
        2 * i + 2
    } else if i < 10 {
        2 * i + 3
    } else {
        2 * i + 4
    }
}

proof fn lemma_nibbles(x: u8, y: u8)
    ensures
        x >> 4 < 16,
        x & 0x0f < 16,
        (x >> 4 == y >> 4 && x & 0x0f == y & 0x0f) ==> x == y,
{
    assert(x >> 4 < 16) by (bit_vector);
    assert(x & 0x0f < 16) by (bit_vector);
    assert((x >> 4 == y >> 4 && x & 0x0f == y & 0x0f) ==> x == y) by (bit_vector);
}

/// Byte `i` stands at `digit_position(i)` as two hexadecimal digits.
proof fn lemma_hyphenated_digits(b: Seq<u8>, i: int)
    requires
        0 <= i < 16,
    ensures
        hyphenated(b)[digit_position(i)] == hex_digit(b[i] >> 4),
        hyphenated(b)[digit_position(i) + 1] == hex_digit(b[i] & 0x0f),
{
    let k = digit_position(i);
    assert(k - hyphens_before(k) == 2 * i);
    assert(k + 1 - hyphens_before(k + 1) == 2 * i + 1);
}

/// The canonical text has 36 characters and no underscore among them.
pub proof fn lemma_hyphenated_shape(b: Seq<u8>)
    ensures
        hyphenated(b).len() == 36,
        !hyphenated(b).contains('_'),
{
    assert forall|k: int| 0 <= k < 36 implies hyphenated(b)[k] != '_' by {
        if !is_hyphen_position(k) {
            let j = k - hyphens_before(k);
            lemma_nibbles(b[j / 2], 0);
        }
    }
}

/// Different bytes have different canonical texts.
pub proof fn lemma_hyphenated_injective(a: Seq<u8>, b: Seq<u8>)
    requires
        a.len() == 16,
        b.len() == 16,
        hyphenated(a) == hyphenated(b),
    ensures
        a == b,
{
    assert forall|i: int| 0 <= i < 16 implies a[i] == b[i] by {
        lemma_hyphenated_digits(a, i);
        lemma_hyphenated_digits(b, i);
        lemma_nibbles(a[i], b[i]);
        lemma_nibbles(b[i], a[i]);
    }
}

/// A canonical text stands for the bytes it was made from.
pub proof fn lemma_text_value_of_hyphenated(b: Seq<u8>)
    requires
        b.len() == 16,
    ensures
        uuid_text_value(hyphenated(b)) == accepted(b),
{
    let text = hyphenated(b);
    let c = choose|c: Seq<u8>| c.len() == 16 && #[trigger] hyphenated(c) == text;
    lemma_hyphenated_injective(c, b);
}

/// Setting the version and variant marks makes a version-8 UUID and leaves
/// every byte but bytes 6 and 8 as it was.
pub proof fn lemma_v8_normalized(b: Seq<u8>)
    requires
        b.len() == 16,
    ensures
        is_version_8(v8_normalized(b)),
        forall|i: int| 0 <= i < 16 && i != 6 && i != 8 ==> v8_normalized(b)[i] == b[i],
{
    let x = b[6];
    let y = b[8];
    assert(((x & 0x0f) | 0x80) >> 4 == 8) by (bit_vector);
    assert(((y & 0x3f) | 0x80) >> 6 == 2) by (bit_vector);
}

} // verus!
