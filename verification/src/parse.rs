//! Reading an `i24` from text and writing it as text.
use crate::int24::i24;
use crate::numeral::{decimal, parsed_i32};
use crate::spec::in_range;
use core::num::ParseIntError;
use core::str::FromStr;
use vstd::prelude::*;
use vstd::std_specs::convert::FromSpecImpl;
use vstd::string::StringExecFns;

verus! {

#[verifier::external_type_specification]
#[verifier::external_body]
pub struct ExParseIntError(ParseIntError);

/// Represents errors that can occur when reading an `i24` from text.
#[derive(Debug, PartialEq, Eq)]
pub enum ParseI24Error {
    /// The text is not a numeral, or its value does not fit in an `i32`;
    /// this wraps the error of the standard library's `i32` parser.
    ParseError(ParseIntError),
    /// The value fits in an `i32` but is out of the range of an `i24`,
    /// `-8,388,608 ..= 8,388,607`.
    OutOfRange,
}

impl From<ParseIntError> for ParseI24Error {
    fn from(err: ParseIntError) -> (r: ParseI24Error)
        ensures
            r == ParseI24Error::ParseError(err),
    {
        ParseI24Error::ParseError(err)
    }
}

impl FromSpecImpl<ParseIntError> for ParseI24Error {
    open spec fn obeys_from_spec() -> bool {
        true
    }

    open spec fn from_spec(v: ParseIntError) -> ParseI24Error {
        ParseI24Error::ParseError(v)
    }
}

/// The error that `i32::from_str_radix` gives for text `s` in radix `radix`.
pub uninterp spec fn i32_from_str_radix_error(s: Seq<char>, radix: int) -> ParseIntError;

/// The error that `i32::from_str` gives for text `s`.
pub uninterp spec fn i32_from_str_error(s: Seq<char>) -> ParseIntError;

/// The text that `Display` for `ParseIntError` writes for the error `e`.
pub uninterp spec fn parse_int_error_display(e: ParseIntError) -> Seq<char>;

/// Calls `i32::from_str_radix`. As its documentation says, it accepts an
/// optional `+` or `-` followed by at least one digit of the radix (`0-9`, then
/// `a-z` or `A-Z`), nothing else, and a value that an `i32` can hold; it panics
/// when the radix is not in `2 ..= 36`. The error it gives (whose
/// `IntErrorKind` tells empty text, invalid digit or overflow apart) depends on
/// the text and the radix alone, and is named `i32_from_str_radix_error`.
#[verifier::external_body]
fn i32_from_str_radix(src: &str, radix: u32) -> (r: Result<i32, ParseIntError>)
    requires
        2 <= radix <= 36,
    ensures
        r is Ok <==> parsed_i32(src@, radix as int) is Some,
        r is Ok ==> parsed_i32(src@, radix as int) == Some(r->Ok_0 as int),
        r is Err ==> r->Err_0 == i32_from_str_radix_error(src@, radix as int),
{
    i32::from_str_radix(src, radix)
}

/// Calls `i32::from_str`, which, as its documentation says, reads a decimal
/// numeral: an optional `+` or `-` followed by at least one digit, nothing else,
/// with a value that an `i32` can hold. The error it gives depends on the text
/// alone, and is named `i32_from_str_error`.
#[verifier::external_body]
fn i32_from_str(src: &str) -> (r: Result<i32, ParseIntError>)
    ensures
        r is Ok <==> parsed_i32(src@, 10) is Some,
        r is Ok ==> parsed_i32(src@, 10) == Some(r->Ok_0 as int),
        r is Err ==> r->Err_0 == i32_from_str_error(src@),
{
    <i32 as FromStr>::from_str(src)
}

/// Calls `i32::to_string`, which writes the value in decimal, with a `-` before
/// a negative value, as `Display` for `i32` is documented to do.
#[verifier::external_body]
fn i32_to_string(v: i32) -> (r: String)
    ensures
        r@ == decimal(v as int),
{
    v.to_string()
}

/// Calls `ParseIntError::to_string`, the text that its `Display` writes; it
/// depends on the error alone, and is named `parse_int_error_display`.
#[verifier::external_body]
fn parse_int_error_text(e: &ParseIntError) -> (r: String)
    ensures
        r@ == parse_int_error_display(*e),
{
    e.to_string()
}

/// The message of a parse error whose wrapped error writes `text`.
pub fn parse_error_message(text: &str) -> (r: String)
    ensures
        r@ == "Parse error: "@ + text@,
{
    let mut msg = <String as StringExecFns>::from_str("Parse error: ");
    msg.append(text);
    msg
}

impl ParseI24Error {
    /// The message of this error, as its `Display` writes it: "Parse error: "
    /// followed by the text of the wrapped error, or "Value out of range for i24".
    pub fn to_string(&self) -> (r: String)
        ensures
            self is OutOfRange ==> r@ == "Value out of range for i24"@,
            self matches ParseI24Error::ParseError(e) ==> r@ == "Parse error: "@
                + parse_int_error_display(*e),
    {
        match self {
            ParseI24Error::ParseError(e) => {
                let text = parse_int_error_text(e);
                parse_error_message(text.as_str())
            },
            ParseI24Error::OutOfRange => <String as StringExecFns>::from_str("Value out of range for i24"),
        }
    }
}

/// What reading an `i24` from `s` in the given radix gives: `Ok` for a numeral
/// whose value is in range, `OutOfRange` for one whose value fits in an `i32`
/// but not in an `i24`, and a parse error otherwise.
pub open spec fn parse_outcome_ok(s: Seq<char>, radix: int) -> bool {
    parsed_i32(s, radix) matches Some(n) && in_range(n)
}

/// Builds the result of reading an `i24` from what the `i32` parser gave.
pub fn from_i32_result(res: Result<i32, ParseIntError>) -> (r: Result<i24, ParseI24Error>)
    ensures
        res is Err ==> r == Err::<i24, ParseI24Error>(ParseI24Error::ParseError(res->Err_0)),
        res is Ok ==> (r is Ok <==> in_range(res->Ok_0 as int)),
        res is Ok && in_range(res->Ok_0 as int) ==> r->Ok_0@ == res->Ok_0,
        res is Ok && !in_range(res->Ok_0 as int) ==> r == Err::<i24, ParseI24Error>(
            ParseI24Error::OutOfRange,
        ),
{
    match res {
        Err(e) => Err(ParseI24Error::ParseError(e)),
        Ok(x) => match i24::from_i32(x) {
            Some(v) => Ok(v),
            None => Err(ParseI24Error::OutOfRange),
        },
    }
}

impl i24 {
    /// Reads an `i24` written in the given radix. The radix must be in `2 ..= 36`.
    pub fn from_str_radix(src: &str, radix: u32) -> (r: Result<i24, ParseI24Error>)
        requires
            2 <= radix <= 36,
        ensures
            r is Ok <==> parse_outcome_ok(src@, radix as int),
            r is Ok ==> parsed_i32(src@, radix as int) == Some(r->Ok_0@),
            r == Err::<i24, ParseI24Error>(ParseI24Error::OutOfRange) <==> (parsed_i32(
                src@,
                radix as int,
            ) matches Some(n) && !in_range(n)),
            r matches Err(ParseI24Error::ParseError(_)) <==> parsed_i32(src@, radix as int) is None,
            r matches Err(ParseI24Error::ParseError(e)) ==> e == i32_from_str_radix_error(
                src@,
                radix as int,
            ),
    {
        from_i32_result(i32_from_str_radix(src, radix))
    }

    /// Reads an `i24` written in decimal.
    pub fn from_str(src: &str) -> (r: Result<i24, ParseI24Error>)
        ensures
            r is Ok <==> parse_outcome_ok(src@, 10),
            r is Ok ==> parsed_i32(src@, 10) == Some(r->Ok_0@),
            r == Err::<i24, ParseI24Error>(ParseI24Error::OutOfRange) <==> (parsed_i32(
                src@,
                10,
            ) matches Some(n) && !in_range(n)),
            r matches Err(ParseI24Error::ParseError(_)) <==> parsed_i32(src@, 10) is None,
            r matches Err(ParseI24Error::ParseError(e)) ==> e == i32_from_str_error(src@),
    {
        from_i32_result(i32_from_str(src))
    }

    /// The decimal form of this value, as `Display` for `i32` writes it.
    pub fn to_string(&self) -> (r: String)
        ensures
            r@ == decimal(self@),
    {
        i32_to_string(self.to_i32())
    }
}

impl FromStr for i24 {
    type Err = ParseI24Error;

    /// Reads an `i24` written in decimal, as `i24::from_str` does.
    fn from_str(src: &str) -> (r: Result<i24, ParseI24Error>)
        ensures
            r is Ok <==> parse_outcome_ok(src@, 10),
            r is Ok ==> parsed_i32(src@, 10) == Some(r->Ok_0@),
            r == Err::<i24, ParseI24Error>(ParseI24Error::OutOfRange) <==> (parsed_i32(
                src@,
                10,
            ) matches Some(n) && !in_range(n)),
            r matches Err(ParseI24Error::ParseError(_)) <==> parsed_i32(src@, 10) is None,
            r matches Err(ParseI24Error::ParseError(e)) ==> e == i32_from_str_error(src@),
    {
        i24::from_str(src)
    }
}

} // verus!
