//! From the bytes of a header to the capture date.

use crate::date::{lemma_date_is_read, parse_date, CalendarDate, Date};
use crate::error::{Failure, FileParseError};
use crate::layout::{date_offset, has_layout, lemma_layout_is_scanned};
use crate::scanner::{scan, scan_header, DATE_LEN};
use std::convert::TryFrom;
use std::string::FromUtf8Error;
use vstd::prelude::*;
use vstd::utf8::{decode_utf8, encode_utf8, valid_utf8};

verus! {

/// `String::from_utf8`, taken on trust: it succeeds exactly on byte strings
/// that are valid UTF-8, and the string it then returns holds the
/// characters that those bytes encode.
pub assume_specification[ String::from_utf8 ](vec: Vec<u8>) -> (r: Result<String, FromUtf8Error>)
    ensures
        r is Ok <==> valid_utf8(vec@),
        r matches Ok(s) ==> s@ == decode_utf8(vec@),
;

/// The date that `bytes` spell, or why they spell none: bytes that are not
/// UTF-8 fail to decode, and a text without a date fails with that text.
pub open spec fn decode_date(bytes: Seq<u8>) -> Result<CalendarDate, Failure> {
    if !valid_utf8(bytes) {
        Err(Failure::Encoding)
    } else {
        match parse_date(decode_utf8(bytes)) {
            Some(date) => Ok(date),
            None => Err(Failure::DateFormat { text: decode_utf8(bytes) }),
        }
    }
}

/// The date that the header `h` holds, or why it holds none: the header is
/// walked to the date bytes, those are decoded as UTF-8, and the text is
/// read as a date.
pub open spec fn read_date(h: Seq<u8>) -> Result<CalendarDate, Failure> {
    match scan(h) {
        Err((marker, found)) => Err(Failure::Seek { marker, found }),
        Ok(bytes) => decode_date(bytes),
    }
}

/// Decodes `bytes` as UTF-8 and reads a date out of the text.
pub fn date_from_bytes(bytes: Vec<u8>) -> (r: Result<Date, FileParseError>)
    ensures
        match decode_date(bytes@) {
            Ok(date) => r matches Ok(d) && d@ == date,
            Err(failure) => r matches Err(e) && e@ == failure,
        },
{
    match String::from_utf8(bytes) {
        Ok(text) => Date::try_from(text),
        Err(e) => Err(FileParseError::from(e)),
    }
}

/// Reads the capture date out of the first bytes of an image file.
pub fn get_date_from_header(header: &[u8]) -> (r: Result<Date, FileParseError>)
    ensures
        match read_date(header@) {
            Ok(date) => r matches Ok(d) && d@ == date,
            Err(failure) => r matches Err(e) && e@ == failure,
        },
{
    match scan_header(header) {
        Ok(bytes) => date_from_bytes(bytes),
        Err(e) => Err(e),
    }
}

/// A header with the layout whose date bytes spell `year:month:day` holds
/// that date, whatever stands in front of the first `I` and behind the date.
pub proof fn lemma_layout_holds_date(h: Seq<u8>, i: int, j: int, k: int, date: CalendarDate)
    requires
        has_layout(h, i, j, k),
        date.well_formed(),
        h.subrange(date_offset(k), date_offset(k) + DATE_LEN) == encode_utf8(date.text()),
    ensures
        read_date(h) == Ok::<CalendarDate, Failure>(date),
{
    broadcast use vstd::utf8::encode_utf8_valid_utf8, vstd::utf8::encode_utf8_decode_utf8;

    lemma_layout_is_scanned(h, i, j, k);
    lemma_date_is_read(Seq::empty(), date, Seq::empty());
    assert(Seq::<char>::empty() + date.text() + Seq::<char>::empty() =~= date.text());
}

} // verus!
