//! The walk over an image header that finds the capture date.
//!
//! The walk does not parse the tag directory. It follows a fixed trail of
//! marker bytes: any prefix up to the first `I`, then `I` and `*` at once,
//! on to the next `%`, on to the next `H`, the eight bytes that close the
//! repeated block, a gap of seven bytes, and then the ten bytes of the date.

use crate::cursor::{after_bytes, after_delimiter, ScanCursor};
use crate::error::{Failure, FileParseError, Marker};
use vstd::prelude::*;

verus! {

/// The byte `I`: twice in a row it opens a little-endian header.
pub const BYTE_ORDER: u8 = 0x49;

/// The byte `*` that follows the byte-order mark.
pub const MAGIC: u8 = 0x2a;

/// The byte `%` that the walk passes before the repeated block.
pub const SEPARATOR: u8 = 0x25;

/// The byte `H` that opens each half of the repeated block.
pub const BLOCK_START: u8 = 0x48;

/// The number of bytes between the repeated block and the date.
pub const GAP: usize = 7;

/// The number of bytes taken as the date.
pub const DATE_LEN: usize = 10;

/// Where the date starts in `h`, or the step that turns `h` down together
/// with the bytes that step consumed.
pub open spec fn locate(h: Seq<u8>) -> Result<int, (Marker, Seq<u8>)> {
    let past_prefix = after_delimiter(h, 0, BYTE_ORDER);
    let past_order = after_delimiter(h, past_prefix, BYTE_ORDER);
    let past_magic = after_delimiter(h, past_order, MAGIC);
    let past_separator = after_delimiter(h, past_magic, SEPARATOR);
    let past_block = after_delimiter(h, past_separator, BLOCK_START);
    let past_tail = after_delimiter(h, past_block, BLOCK_START);
    let date_start = after_bytes(h, past_tail, GAP as int);
    let date_end = after_bytes(h, date_start, DATE_LEN as int);
    if h.subrange(past_prefix, past_order) != Marker::ByteOrder.bytes() {
        Err((Marker::ByteOrder, h.subrange(past_prefix, past_order)))
    } else if h.subrange(past_order, past_magic) != Marker::Magic.bytes() {
        Err((Marker::Magic, h.subrange(past_order, past_magic)))
    } else if h.subrange(past_block, past_tail) != Marker::Pattern.bytes() {
        Err((Marker::Pattern, h.subrange(past_block, past_tail)))
    } else if date_end - date_start != DATE_LEN {
        Err((Marker::DateField, h.subrange(date_start, date_end)))
    } else {
        Ok(date_start)
    }
}

/// The ten date bytes of `h`, or the step that turns `h` down together with
/// the bytes that step consumed.
pub open spec fn scan(h: Seq<u8>) -> Result<Seq<u8>, (Marker, Seq<u8>)> {
    match locate(h) {
        Ok(at) => Ok(h.subrange(at, at + DATE_LEN)),
        Err(mismatch) => Err(mismatch),
    }
}

/// Whether two byte strings are the same.
pub fn same_bytes(a: &[u8], b: &[u8]) -> (same: bool)
    ensures
        same == (a@ == b@),
{
    if a.len() != b.len() {
        return false;
    }
    let mut i: usize = 0;
    while i < a.len()
        invariant
            i <= a.len(),
            a.len() == b.len(),
            forall|j: int| 0 <= j < i ==> a@[j] == b@[j],
        decreases a.len() - i,
    {
        if a[i] != b[i] {
            return false;
        }
        i = i + 1;
    }
    assert(a@ =~= b@);
    true
}

/// Walks `header` along the marker trail and returns the ten bytes of the
/// date. A header that leaves the trail is turned down with the first step
/// that did not find its bytes and with what that step read instead.
pub fn scan_header(header: &[u8]) -> (r: Result<Vec<u8>, FileParseError>)
    ensures
        match scan(header@) {
            Ok(date) => r matches Ok(bytes) && bytes@ == date,
            Err((marker, found)) => r matches Err(e) && e@ == (Failure::Seek { marker, found }),
        },
        r matches Ok(bytes) ==> bytes@.len() == DATE_LEN,
{
    let mut cursor = ScanCursor::new(header);
    cursor.read_until(BYTE_ORDER);

    let found = cursor.read_until(BYTE_ORDER);
    if !same_bytes(found.as_slice(), Marker::ByteOrder.expected().as_slice()) {
        return Err(FileParseError::FileSeekError { marker: Marker::ByteOrder, found });
    }
    let found = cursor.read_until(MAGIC);
    if !same_bytes(found.as_slice(), Marker::Magic.expected().as_slice()) {
        return Err(FileParseError::FileSeekError { marker: Marker::Magic, found });
    }
    cursor.read_until(SEPARATOR);
    cursor.read_until(BLOCK_START);

    let found = cursor.read_until(BLOCK_START);
    if !same_bytes(found.as_slice(), Marker::Pattern.expected().as_slice()) {
        return Err(FileParseError::FileSeekError { marker: Marker::Pattern, found });
    }
    cursor.advance(GAP);

    let found = cursor.take(DATE_LEN);
    if found.len() != Marker::DateField.expected_len() {
        return Err(FileParseError::FileSeekError { marker: Marker::DateField, found });
    }
    Ok(found)
}

} // verus!
