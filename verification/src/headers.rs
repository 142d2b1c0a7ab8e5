//! Reading the subject out of a raw header block.
//!
//! The parsing itself is `mailparse`'s. This module names what it returns and
//! decides what the watcher makes of it.

use vstd::prelude::*;
use vstd::string::StringExecFns;
use mailparse::MailHeader;
use mailparse::MailHeaderMap;
use mailparse::MailParseError;

verus! {

/// `mailparse::MailParseError`, carried through unread.
#[verifier::external_type_specification]
#[verifier::external_body]
pub struct ExMailParseError(MailParseError);

/// `mailparse::MailHeader`: one parsed header, carried from the parser to
/// the lookup unread.
#[verifier::external_type_specification]
#[verifier::external_body]
pub struct ExMailHeader<'a>(MailHeader<'a>);

/// The headers that `mailparse` finds in the header block `raw`, or `None`
/// where the block cannot be parsed.
pub uninterp spec fn parsed_headers(raw: Seq<u8>) -> Option<Seq<MailHeader<'static>>>;

/// The decoded value of the first of `headers` whose name is `key`, letter
/// case aside, as `mailparse` gives it, or `None` where there is none.
pub uninterp spec fn first_value(headers: Seq<MailHeader<'static>>, key: Seq<char>) -> Option<
    Seq<char>,
>;

/// The outcome of parsing a header block as plain values.
pub open spec fn parse_view(r: Result<Vec<MailHeader<'static>>, MailParseError>) -> Option<
    Seq<MailHeader<'static>>,
> {
    match r {
        Ok(headers) => Some(headers@),
        Err(_) => None,
    }
}

/// What `mailparse` finds in the header block `raw` under the header name
/// `key`: `None` where the block cannot be parsed, `Some(None)` where it has
/// no such header, else the decoded value of the first one.
pub open spec fn header_value(raw: Seq<u8>, key: Seq<char>) -> Option<Option<Seq<char>>> {
    match parsed_headers(raw) {
        Some(headers) => Some(first_value(headers, key)),
        None => None,
    }
}

/// Calls `mailparse::parse_headers` and keeps the headers of what it
/// returns.
///
/// Trusted: the outcome is a function of the bytes alone, and the contract
/// claims no more than that, by giving it the name [`parsed_headers`]. The
/// parser walks the bytes by index within their length and is not known to
/// panic on any input.
#[verifier::external_body]
fn parse_block<'a>(raw: &'a [u8]) -> (r: Result<Vec<MailHeader<'a>>, MailParseError>)
    ensures
        parse_view(r) == parsed_headers(raw@),
{
    match mailparse::parse_headers(raw) {
        Ok((headers, _)) => Ok(headers),
        Err(e) => Err(e),
    }
}

/// Calls `MailHeaderMap::get_first_value` on `headers`.
///
/// Trusted: the outcome is a function of the headers and the name alone,
/// and the contract claims no more than that, by giving it the name
/// [`first_value`]. The lookup compares names without regard to ASCII case
/// and decodes the value it finds; it is not known to panic on any input.
#[verifier::external_body]
fn lookup<'a>(headers: &Vec<MailHeader<'a>>, key: &str) -> (r: Option<String>)
    ensures
        crate::account::text_of(r) == first_value(headers@, key@),
{
    headers.get_first_value(key)
}

/// A header block that could not be parsed. The message it belongs to is
/// passed over; the others of its batch are not affected.
#[derive(Clone, Copy, Debug, PartialEq, Eq, Structural)]
pub struct HeaderParseError;

/// The subject shown for a message whose headers have none.
pub open spec fn no_subject() -> Seq<char> {
    "<no subject>"@
}

/// The subject given a lookup of the subject header: what was found, else
/// the placeholder.
pub open spec fn subject_or_placeholder(found: Option<Seq<char>>) -> Seq<char> {
    match found {
        Some(s) => s,
        None => no_subject(),
    }
}

/// The subject of the message with the header block `raw`, or `None` where
/// the block cannot be parsed.
pub open spec fn subject(raw: Seq<u8>) -> Option<Seq<char>> {
    match header_value(raw, "Subject"@) {
        Some(found) => Some(subject_or_placeholder(found)),
        None => None,
    }
}

/// Settles the subject once the header has been looked up: the value found,
/// or the placeholder where the message has no subject header.
pub fn subject_or_default(found: Option<String>) -> (s: String)
    ensures
        s@ == subject_or_placeholder(crate::account::text_of(found)),
{
    match found {
        Some(s) => s,
        None => String::from_str("<no subject>"),
    }
}

/// Reads the subject out of a raw header block. Fails exactly when the block
/// cannot be parsed; a block without a subject header gives the placeholder.
pub fn subject_of(raw: &[u8]) -> (r: Result<String, HeaderParseError>)
    ensures
        match r {
            Ok(s) => subject(raw@) == Some(s@),
            Err(_) => subject(raw@) is None,
        },
{
    match parse_block(raw) {
        Ok(headers) => Ok(subject_or_default(lookup(&headers, "Subject"))),
        Err(_) => Err(HeaderParseError),
    }
}

} // verus!
