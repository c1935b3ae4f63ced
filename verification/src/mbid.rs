//! The identifier of a catalogued entity: a 128-bit value with one canonical
//! text, five groups of lowercase hexadecimal digits joined by hyphens.

use vstd::prelude::*;
use crate::hex::{
    character_and_digit, digit_and_character, digits_are_digits, digits_of,
    digits_spell_the_number, digits_value, hex_digit, hex_value, in_range, is_lower_hex,
    number_keeps_its_digits, thirty_two_digits_span_u128,
};

verus! {

/// `uuid::Uuid`, carried through as it is.
#[verifier::external_type_specification]
#[verifier::external_body]
pub struct ExUuid(uuid::Uuid);

/// `uuid::Error`, carried through as it is.
#[verifier::external_type_specification]
#[verifier::external_body]
pub struct ExUuidError(uuid::Error);

/// The 32 lowercase hexadecimal digits of a 128-bit value, most significant
/// first.
pub open spec fn simple_text(value: u128) -> Seq<char> {
    digits_of(value as nat, 32).map_values(|d: int| hex_digit(d))
}

/// Thirty-two characters set in groups of 8, 4, 4, 4 and 12 with a hyphen
/// between neighbours.
pub open spec fn hyphenate(digits: Seq<char>) -> Seq<char> {
    digits.subrange(0, 8) + seq!['-'] + digits.subrange(8, 12) + seq!['-'] + digits.subrange(
        12,
        16,
    ) + seq!['-'] + digits.subrange(16, 20) + seq!['-'] + digits.subrange(20, 32)
}

/// The canonical text of an identifier.
pub open spec fn hyphenated_text(value: u128) -> Seq<char> {
    hyphenate(simple_text(value))
}

/// Whether the text has 36 characters with hyphens after the 8th, 12th, 16th
/// and 20th of the others.
pub open spec fn has_hyphens(text: Seq<char>) -> bool {
    &&& text.len() == 36
    &&& text[8] == '-'
    &&& text[13] == '-'
    &&& text[18] == '-'
    &&& text[23] == '-'
}

/// The 32 characters of a hyphenated text that are not its hyphens.
pub open spec fn without_hyphens(text: Seq<char>) -> Seq<char> {
    text.subrange(0, 8) + text.subrange(9, 13) + text.subrange(14, 18) + text.subrange(19, 23)
        + text.subrange(24, 36)
}

/// Whether nine characters read `urn:uuid:`, letters in either case.
pub open spec fn is_urn_prefix(prefix: Seq<char>) -> bool {
    &&& prefix.len() == 9
    &&& (prefix[0] == 'u' || prefix[0] == 'U')
    &&& (prefix[1] == 'r' || prefix[1] == 'R')
    &&& (prefix[2] == 'n' || prefix[2] == 'N')
    &&& prefix[3] == ':'
    &&& (prefix[4] == 'u' || prefix[4] == 'U')
    &&& (prefix[5] == 'u' || prefix[5] == 'U')
    &&& (prefix[6] == 'i' || prefix[6] == 'I')
    &&& (prefix[7] == 'd' || prefix[7] == 'D')
    &&& prefix[8] == ':'
}

/// The 32 characters that have to be hexadecimal digits, for a text in one
/// of the four accepted shapes: 32 plain characters; 36 with hyphens; the
/// same in braces; the same behind `urn:uuid:`.
pub open spec fn digit_part(text: Seq<char>) -> Option<Seq<char>> {
    if text.len() == 32 {
        Some(text)
    } else if text.len() == 36 && has_hyphens(text) {
        Some(without_hyphens(text))
    } else if text.len() == 38 && text[0] == '{' && text[37] == '}' && has_hyphens(
        text.subrange(1, 37),
    ) {
        Some(without_hyphens(text.subrange(1, 37)))
    } else if text.len() == 45 && is_urn_prefix(text.subrange(0, 9)) && has_hyphens(
        text.subrange(9, 45),
    ) {
        Some(without_hyphens(text.subrange(9, 45)))
    } else {
        None
    }
}

/// Whether every character is a hexadecimal digit of either case.
pub open spec fn all_hex(digits: Seq<char>) -> bool {
    forall|i: int| 0 <= i < digits.len() ==> (#[trigger] hex_value(digits[i])) is Some
}

/// The values of a run of hexadecimal digits.
pub open spec fn hex_values(digits: Seq<char>) -> Seq<int> {
    digits.map_values(|c: char| hex_value(c).unwrap())
}

/// The value that a text denotes, if it is an identifier in any accepted
/// shape.
pub open spec fn parse_spec(text: Seq<char>) -> Option<u128> {
    match digit_part(text) {
        Some(digits) => if all_hex(digits) {
            Some(digits_value(hex_values(digits)) as u128)
        } else {
            None
        },
        None => None,
    }
}

/// Whether the text is in canonical form: hyphenated, every digit lowercase.
pub open spec fn is_canonical(text: Seq<char>) -> bool {
    &&& has_hyphens(text)
    &&& forall|i: int|
        0 <= i < 36 && i != 8 && i != 13 && i != 18 && i != 23 ==> is_lower_hex(
            #[trigger] text[i],
        )
}

/// Why a text is no identifier.
#[derive(Debug)]
pub struct MbidError {
    pub source: uuid::Error,
}

/// Parses an identifier with `uuid::Uuid::try_from` and takes its bits with
/// `Uuid::as_u128`. Trusted: the parser succeeds exactly on the four shapes
/// of [`digit_part`] with 32 hexadecimal digits of either case, and the value
/// is the one those digits spell, most significant first.
#[verifier::external_body]
fn uuid_parse(text: &str) -> (parsed: Result<u128, uuid::Error>)
    ensures
        parsed.is_ok() == parse_spec(text@).is_some(),
        parsed.is_ok() ==> parsed.unwrap() == parse_spec(text@).unwrap(),
{
    match uuid::Uuid::try_from(text) {
        Ok(id) => Ok(id.as_u128()),
        Err(error) => Err(error),
    }
}

/// Renders a value with `uuid::Uuid::from_u128` and the `Display` of
/// `Uuid::as_hyphenated`. Trusted: the text is the 32 lowercase hexadecimal
/// digits of the value, most significant first, in hyphenated groups.
#[verifier::external_body]
fn uuid_render(value: u128) -> (text: String)
    ensures
        text@ == hyphenated_text(value),
{
    uuid::Uuid::from_u128(value).as_hyphenated().to_string()
}

/// The 128 bits that `uuid::Uuid::as_u128` reads from a `Uuid`: its sixteen
/// bytes as one number, the first byte the most significant.
pub uninterp spec fn uuid_value(id: uuid::Uuid) -> u128;

/// Packs a value with `uuid::Uuid::from_u128`. Trusted: the `Uuid` holds the
/// bytes of the value, most significant first, so `Uuid::as_u128` reads the
/// same value back from it.
#[verifier::external_body]
fn uuid_from_bits(value: u128) -> (id: uuid::Uuid)
    ensures
        uuid_value(id) == value,
{
    uuid::Uuid::from_u128(value)
}

/// Unpacks a value with `uuid::Uuid::as_u128`. Trusted: the result depends
/// on the `Uuid` alone.
#[verifier::external_body]
fn uuid_bits(id: &uuid::Uuid) -> (value: u128)
    ensures
        value == uuid_value(*id),
{
    id.as_u128()
}

/// A validated identifier. It cannot be changed once made.
#[derive(Clone, Copy, Debug, PartialEq, Eq, Hash, Structural)]
pub struct Mbid {
    raw: u128,
}

impl View for Mbid {
    type V = u128;

    closed spec fn view(&self) -> u128 {
        self.raw
    }
}

impl Mbid {
    /// The identifier with the given 128 bits.
    pub fn from_u128(raw: u128) -> (id: Mbid)
        ensures
            id@ == raw,
    {
        Mbid { raw }
    }

    /// The 128 bits of the identifier.
    pub fn as_u128(&self) -> (raw: u128)
        ensures
            raw == self@,
    {
        self.raw
    }

    /// The identifier that holds the 128 bits of `uuid`.
    pub fn from(uuid: uuid::Uuid) -> (id: Mbid)
        ensures
            id@ == uuid_value(uuid),
    {
        Mbid { raw: uuid_bits(&uuid) }
    }

    /// The identifier as a `Uuid`: one that holds the identifier's 128 bits.
    pub fn as_uuid(&self) -> (uuid: uuid::Uuid)
        ensures
            uuid_value(uuid) == self@,
    {
        uuid_from_bits(self.raw)
    }

    /// Parses a text in any of the accepted shapes. It succeeds exactly when
    /// [`parse_spec`] gives a value, and the identifier then has that value.
    pub fn try_from(value: &str) -> (parsed: Result<Mbid, MbidError>)
        ensures
            parsed.is_ok() == parse_spec(value@).is_some(),
            parsed.is_ok() ==> parsed.unwrap()@ == parse_spec(value@).unwrap(),
    {
        match uuid_parse(value) {
            Ok(raw) => Ok(Mbid { raw }),
            Err(source) => Err(MbidError { source }),
        }
    }

    /// The same as [`Mbid::try_from`].
    pub fn from_str(s: &str) -> (parsed: Result<Mbid, MbidError>)
        ensures
            parsed.is_ok() == parse_spec(s@).is_some(),
            parsed.is_ok() ==> parsed.unwrap()@ == parse_spec(s@).unwrap(),
    {
        Mbid::try_from(s)
    }

    /// The canonical text of the identifier.
    pub fn to_string(&self) -> (text: String)
        ensures
            text@ == hyphenated_text(self@),
            is_canonical(text@),
            parse_spec(text@) == Some(self@),
    {
        proof {
            text_is_canonical(self.raw);
            text_parses_back(self.raw);
        }
        uuid_render(self.raw)
    }
}

/// Two identifiers with the same value are the same identifier.
pub proof fn same_value_same_identifier(a: Mbid, b: Mbid)
    requires
        a@ == b@,
    ensures
        a == b,
{
}

/// Hyphenating 32 characters and taking the hyphens out again changes
/// nothing.
pub proof fn hyphens_come_out(digits: Seq<char>)
    requires
        digits.len() == 32,
    ensures
        has_hyphens(hyphenate(digits)),
        without_hyphens(hyphenate(digits)) == digits,
        digit_part(hyphenate(digits)) == Some(digits),
{
    let text = hyphenate(digits);
    assert(text.len() == 36);
    assert(without_hyphens(text) =~= digits);
}

/// Taking the hyphens out of a hyphenated text and setting them again
/// changes nothing.
pub proof fn hyphens_go_back(text: Seq<char>)
    requires
        has_hyphens(text),
    ensures
        without_hyphens(text).len() == 32,
        hyphenate(without_hyphens(text)) == text,
{
    assert(hyphenate(without_hyphens(text)) =~= text);
}

/// The simple text of a value is 32 lowercase digits, and their values are
/// the digits of the value.
pub proof fn simple_text_is_digits(value: u128)
    ensures
        simple_text(value).len() == 32,
        forall|i: int| 0 <= i < 32 ==> is_lower_hex(#[trigger] simple_text(value)[i]),
        all_hex(simple_text(value)),
        hex_values(simple_text(value)) == digits_of(value as nat, 32),
{
    let digits = digits_of(value as nat, 32);
    let text = simple_text(value);
    digits_are_digits(value as nat, 32);
    assert forall|i: int| 0 <= i < 32 implies is_lower_hex(#[trigger] text[i]) && hex_value(
        text[i],
    ) == Some(digits[i]) by {
        digit_and_character(digits[i]);
    }
    assert(hex_values(text) =~= digits);
}

/// The canonical text of every value is in canonical form: it matches
/// `[0-9a-f]{8}-[0-9a-f]{4}-[0-9a-f]{4}-[0-9a-f]{4}-[0-9a-f]{12}`.
pub proof fn text_is_canonical(value: u128)
    ensures
        is_canonical(hyphenated_text(value)),
{
    let digits = simple_text(value);
    let text = hyphenated_text(value);
    simple_text_is_digits(value);
    hyphens_come_out(digits);
    assert forall|i: int|
        0 <= i < 36 && i != 8 && i != 13 && i != 18 && i != 23 implies is_lower_hex(
        #[trigger] text[i],
    ) by {
        if i < 8 {
            assert(text[i] == digits[i]);
        } else if i < 13 {
            assert(text[i] == digits[i - 1]);
        } else if i < 18 {
            assert(text[i] == digits[i - 2]);
        } else if i < 23 {
            assert(text[i] == digits[i - 3]);
        } else {
            assert(text[i] == digits[i - 4]);
        }
    }
}

/// Parsing the canonical text of a value gives the value back.
pub proof fn text_parses_back(value: u128)
    ensures
        parse_spec(hyphenated_text(value)) == Some(value),
{
    let digits = simple_text(value);
    simple_text_is_digits(value);
    hyphens_come_out(digits);
    thirty_two_digits_span_u128();
    digits_spell_the_number(value as nat, 32);
}

/// A text in canonical form is an identifier, and the canonical text of its
/// value is the text itself.
pub proof fn canonical_text_renders_back(text: Seq<char>)
    requires
        is_canonical(text),
    ensures
        parse_spec(text) is Some,
        hyphenated_text(parse_spec(text).unwrap()) == text,
{
    let digits = without_hyphens(text);
    hyphens_go_back(text);
    assert forall|i: int| 0 <= i < 32 implies is_lower_hex(#[trigger] digits[i]) by {
        if i < 8 {
            assert(digits[i] == text[i]);
        } else if i < 12 {
            assert(digits[i] == text[i + 1]);
        } else if i < 16 {
            assert(digits[i] == text[i + 2]);
        } else if i < 20 {
            assert(digits[i] == text[i + 3]);
        } else {
            assert(digits[i] == text[i + 4]);
        }
    }
    let values = hex_values(digits);
    assert forall|i: int| 0 <= i < 32 implies (#[trigger] hex_value(digits[i])) is Some && 0
        <= values[i] < 16 && hex_digit(values[i]) == digits[i] by {
        assert(is_lower_hex(digits[i]));
        character_and_digit(digits[i]);
    }
    assert(all_hex(digits));
    assert(in_range(values));
    number_keeps_its_digits(values);
    thirty_two_digits_span_u128();
    let value = digits_value(values) as u128;
    assert(value as nat == digits_value(values));
    assert(simple_text(value) =~= digits);
}

/// Different identifiers have different canonical texts.
pub proof fn distinct_values_distinct_texts(a: u128, b: u128)
    requires
        hyphenated_text(a) == hyphenated_text(b),
    ensures
        a == b,
{
    text_parses_back(a);
    text_parses_back(b);
}

/// Rendering what was parsed and parsing it again gives the same value:
/// for every text that is an identifier, in whatever shape, the canonical
/// text of its value parses to that value.
pub proof fn parse_render_parse(text: Seq<char>)
    requires
        parse_spec(text) is Some,
    ensures
        parse_spec(hyphenated_text(parse_spec(text).unwrap())) == parse_spec(text),
{
    text_parses_back(parse_spec(text).unwrap());
}

} // verus!
