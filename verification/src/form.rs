//! Request bodies: one form field, `key=value`.

use crate::error::TodoError;
use crate::ident::{parse_uuid, parsed_uuid};
use core::str::Utf8Error;
use vstd::prelude::*;
use vstd::string::StringSliceAdditionalSpecFns;
use vstd::utf8::{
    decode_utf8, encode_utf8_decode_utf8, encode_utf8_valid_utf8, is_char_boundary,
    is_char_boundary_iff_is_leading_byte, is_char_boundary_start_end_of_seq,
    is_leading_byte_width_1, length_of_first_scalar, pop_first_scalar, valid_utf8,
};

verus! {

/// The error of `core::str::from_utf8`. Nothing is read from it.
#[verifier::external_type_specification]
#[verifier::external_body]
pub struct ExUtf8Error(Utf8Error);

/// `core::str::from_utf8`: the bytes as text where they are valid UTF-8, an
/// error where they are not. Trusted: the text, where there is one, is made
/// of the very bytes given.
pub assume_specification[ core::str::from_utf8 ](bytes: &[u8]) -> (text: Result<&str, Utf8Error>)
    ensures
        text is Ok <==> valid_utf8(bytes@),
        text is Ok ==> text->Ok_0.spec_bytes() == bytes@,
;

/// The byte that parts a field's key from its value.
pub const EQUALS: u8 = 0x3d;

/// Whether `at` is the place of the first `=` in `s`.
pub open spec fn is_first_equals(s: Seq<u8>, at: int) -> bool {
    &&& 0 <= at < s.len()
    &&& s[at] == EQUALS
    &&& forall|j: int| 0 <= j < at ==> s[j] != EQUALS
}

/// The place of the first `=` in `s`; the length of `s` where it holds none.
pub open spec fn first_equals(s: Seq<u8>) -> int {
    if exists|at: int| is_first_equals(s, at) {
        choose|at: int| is_first_equals(s, at)
    } else {
        s.len() as int
    }
}

/// The bytes of the value of the form field `body`: what stands between the
/// first `=` and the next one, or the end. `None` where `body` holds no `=`.
pub open spec fn field_bytes(body: Seq<u8>) -> Option<Seq<u8>> {
    let at = first_equals(body);
    if at < body.len() {
        let rest = body.skip(at + 1);
        Some(rest.take(first_equals(rest)))
    } else {
        None
    }
}

/// The value of the form field `body` as text. `None` where `body` is not
/// valid UTF-8 or holds no `=`.
pub open spec fn field_text(body: Seq<u8>) -> Option<Seq<char>> {
    if valid_utf8(body) {
        match field_bytes(body) {
            Some(value) => Some(decode_utf8(value)),
            None => None,
        }
    } else {
        None
    }
}

/// The place of the first `=` in `bytes`, or their length.
fn find_equals(bytes: &[u8]) -> (at: usize)
    ensures
        at == first_equals(bytes@),
        at <= bytes@.len(),
        at < bytes@.len() ==> bytes@[at as int] == EQUALS,
{
    let mut i: usize = 0;
    while i < bytes.len()
        invariant
            i <= bytes@.len(),
            forall|j: int| 0 <= j < i ==> bytes@[j] != EQUALS,
        decreases bytes.len() - i,
    {
        if bytes[i] == EQUALS {
            assert(is_first_equals(bytes@, i as int));
            return i;
        }
        i += 1;
    }
    i
}

/// In valid UTF-8, a character begins at an ASCII byte, and the next one
/// right after it.
proof fn lemma_boundaries_around_ascii(bytes: Seq<u8>, at: int)
    requires
        valid_utf8(bytes),
        0 <= at < bytes.len(),
        is_leading_byte_width_1(bytes[at]),
    ensures
        is_char_boundary(bytes, at),
        is_char_boundary(bytes, at + 1),
    decreases bytes.len(),
{
    is_char_boundary_iff_is_leading_byte(bytes, at);
    reveal_with_fuel(is_char_boundary, 2);
    if at == 0 {
        assert(is_char_boundary(pop_first_scalar(bytes), 0));
    } else {
        let width = length_of_first_scalar(bytes);
        let rest = pop_first_scalar(bytes);
        assert(rest[at - width] == bytes[at]);
        lemma_boundaries_around_ascii(rest, at - width);
    }
}

/// The value of the form field in `body`, as text.
pub fn form_value(body: &[u8]) -> (value: Result<String, TodoError>)
    ensures
        match field_text(body@) {
            Some(text) => value is Ok && value->Ok_0@ == text,
            None => value == Err::<String, TodoError>(TodoError::BadRequest),
        },
{
    let text = match core::str::from_utf8(body) {
        Ok(text) => text,
        Err(_) => {
            return Err(TodoError::BadRequest);
        },
    };
    let at = find_equals(body);
    if at == body.len() {
        return Err(TodoError::BadRequest);
    }
    proof {
        lemma_boundaries_around_ascii(body@, at as int);
    }
    let (_, rest) = text.split_at(at + 1);
    let rest_bytes = rest.as_bytes();
    let end = find_equals(rest_bytes);
    proof {
        encode_utf8_valid_utf8(rest@);
        if end < rest_bytes@.len() {
            lemma_boundaries_around_ascii(rest_bytes@, end as int);
        } else {
            is_char_boundary_start_end_of_seq(rest_bytes@);
        }
    }
    let (value, _) = rest.split_at(end);
    proof {
        encode_utf8_decode_utf8(value@);
        assert(rest_bytes@ == body@.skip(at + 1));
        assert(value.spec_bytes() == rest_bytes@.take(end as int));
    }
    Ok(value.to_owned())
}

/// What the body of an add request asks for: the name of the new item, or
/// the reason why the request is refused.
pub open spec fn name_request(body: Seq<u8>) -> Result<Seq<char>, TodoError> {
    match field_text(body) {
        Some(text) => if text.len() == 0 {
            Err(TodoError::Validation)
        } else {
            Ok(text)
        },
        None => Err(TodoError::BadRequest),
    }
}

/// The identifier that a field's text stands for, given what the identifier
/// parser made of that text: an empty field is a validation error, a text
/// that the parser rejects a bad request.
pub open spec fn identifier_of(text: Seq<char>, parsed: Option<u128>) -> Result<u128, TodoError> {
    if text.len() == 0 {
        Err(TodoError::Validation)
    } else {
        match parsed {
            Some(id) => Ok(id),
            None => Err(TodoError::BadRequest),
        }
    }
}

/// What the body of a toggle or remove request asks for: the identifier of
/// the item, or the reason why the request is refused.
pub open spec fn id_request(body: Seq<u8>) -> Result<u128, TodoError> {
    match field_text(body) {
        Some(text) => identifier_of(text, parsed_uuid(text)),
        None => Err(TodoError::BadRequest),
    }
}

/// The name that the body of an add request gives.
pub fn parse_name(body: &[u8]) -> (name: Result<String, TodoError>)
    ensures
        match name_request(body@) {
            Ok(text) => name is Ok && name->Ok_0@ == text,
            Err(reason) => name == Err::<String, TodoError>(reason),
        },
{
    match form_value(body) {
        Ok(text) => if text.as_str().is_empty() {
            Err(TodoError::Validation)
        } else {
            Ok(text)
        },
        Err(reason) => Err(reason),
    }
}

/// The identifier that `text` stands for, where `parsed` is what the
/// identifier parser made of it.
pub fn identifier(text: &str, parsed: Option<u128>) -> (id: Result<u128, TodoError>)
    ensures
        id == identifier_of(text@, parsed),
{
    if text.is_empty() {
        Err(TodoError::Validation)
    } else {
        match parsed {
            Some(id) => Ok(id),
            None => Err(TodoError::BadRequest),
        }
    }
}

/// The identifier that the body of a toggle or remove request gives.
pub fn parse_id(body: &[u8]) -> (id: Result<u128, TodoError>)
    ensures
        id == id_request(body@),
{
    match form_value(body) {
        Ok(text) => identifier(text.as_str(), parse_uuid(text.as_str())),
        Err(reason) => Err(reason),
    }
}

/// A body that holds no `=` is a bad request, whatever it asks for.
pub proof fn lemma_body_without_equals_is_refused(body: Seq<u8>)
    requires
        forall|i: int| 0 <= i < body.len() ==> body[i] != EQUALS,
    ensures
        field_text(body) is None,
        name_request(body) == Err::<Seq<char>, TodoError>(TodoError::BadRequest),
        id_request(body) == Err::<u128, TodoError>(TodoError::BadRequest),
{
    assert(!exists|at: int| is_first_equals(body, at));
}

} // verus!
