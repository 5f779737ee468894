//! Identifiers: 128-bit values, drawn at random and written as UUIDs.

use vstd::prelude::*;
use crate::error::Error;
use uuid::Error as ParseFailure;

verus! {

/// `uuid::Error`: why a text is no identifier. It is carried from the parser
/// to its message, and nothing is known of what it holds.
#[verifier::external_type_specification]
#[verifier::external_body]
pub struct ExParseFailure(ParseFailure);

/// The hyphenated lower-case text of an identifier.
pub uninterp spec fn uuid_text(id: u128) -> Seq<char>;

/// The identifier that a text stands for, if it is the text of one.
pub uninterp spec fn uuid_parsed(text: Seq<char>) -> Option<u128>;

/// `uuid::Uuid::new_v4`, as a number. The value is random, so nothing is
/// claimed of it. The outside function stops the program when the system has
/// no random bytes to give.
#[verifier::external_body]
pub(crate) fn random_id() -> (id: u128) {
    uuid::Uuid::new_v4().as_u128()
}

/// `Uuid`'s `Display`, applied to `Uuid::from_u128(id)`: the result depends on
/// `id` alone and is called `uuid_text(id)`.
#[verifier::external_body]
pub(crate) fn format_id(id: u128) -> (text: String)
    ensures
        text@ == uuid_text(id),
{
    uuid::Uuid::from_u128(id).to_string()
}

/// `uuid::Uuid::parse_str`, with the identifier taken as a number by
/// `Uuid::as_u128`: it succeeds exactly on the texts that `uuid_parsed`
/// accepts, with that identifier.
#[verifier::external_body]
pub(crate) fn parse_uuid(text: &str) -> (parsed: Result<u128, ParseFailure>)
    ensures
        match parsed {
            Ok(id) => uuid_parsed(text@) == Some(id),
            Err(_) => uuid_parsed(text@).is_none(),
        },
{
    match uuid::Uuid::parse_str(text) {
        Ok(id) => Ok(id.as_u128()),
        Err(e) => Err(e),
    }
}

/// `uuid::Error`'s `Display`: the message of a parse failure. Nothing is
/// claimed of its wording.
#[verifier::external_body]
pub(crate) fn uuid_error_message(e: &ParseFailure) -> (message: String) {
    e.to_string()
}

/// What reading `text` as an identifier gives, once the parser has answered.
pub fn id_from_parse(parsed: Result<u128, ParseFailure>) -> (out: Result<u128, Error>)
    ensures
        match parsed {
            Ok(id) => out == Ok::<u128, Error>(id),
            Err(_) => out matches Err(Error::Validation(_)),
        },
{
    match parsed {
        Ok(id) => Ok(id),
        Err(e) => Err(Error::Validation(uuid_error_message(&e))),
    }
}

/// Reads an identifier from its text; a text that is none is a validation
/// error.
pub fn parse_id(text: &str) -> (out: Result<u128, Error>)
    ensures
        match uuid_parsed(text@) {
            Some(id) => out == Ok::<u128, Error>(id),
            None => out matches Err(Error::Validation(_)),
        },
{
    id_from_parse(parse_uuid(text))
}

} // verus!
