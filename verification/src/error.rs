//! What can go wrong while a capture date is read out of a file.

use crate::render::{bytes_text, render_bytes};
use std::string::FromUtf8Error;
use vstd::prelude::*;
use vstd::std_specs::convert::FromSpecImpl;
use vstd::string::*;

verus! {

/// `std::io::Error`, carried through unopened.
#[verifier::external_type_specification]
#[verifier::external_body]
pub struct ExIoError(std::io::Error);

/// `std::string::FromUtf8Error`, carried through unopened.
#[verifier::external_type_specification]
#[verifier::external_body]
pub struct ExFromUtf8Error(std::string::FromUtf8Error);

/// The bytes that close the repeated block in front of the date.
pub open spec fn block_tail() -> Seq<u8> {
    seq![0x00u8, 0x00u8, 0x00u8, 0x01u8, 0x00u8, 0x00u8, 0x00u8, 0x48u8]
}

/// The steps of the header walk that can turn a header down.
#[derive(Debug, Clone, Copy, PartialEq, Eq, Structural)]
pub enum Marker {
    /// The second `I` of the byte-order mark.
    ByteOrder,
    /// The `*` that follows the byte-order mark.
    Magic,
    /// The second half of the repeated block in front of the date.
    Pattern,
    /// The ten bytes of the date itself.
    DateField,
}

impl Marker {
    /// How many bytes the step has to consume.
    pub open spec fn width(self) -> nat {
        match self {
            Marker::ByteOrder => 1,
            Marker::Magic => 1,
            Marker::Pattern => 8,
            Marker::DateField => 10,
        }
    }

    /// The bytes the step looks for; empty where any bytes will do.
    pub open spec fn bytes(self) -> Seq<u8> {
        match self {
            Marker::ByteOrder => seq![0x49u8],
            Marker::Magic => seq![0x2au8],
            Marker::Pattern => block_tail(),
            Marker::DateField => Seq::empty(),
        }
    }

    /// What the step looks for, in words.
    pub open spec fn description(self) -> Seq<char> {
        match self {
            Marker::ByteOrder => "1 byte 'I' (0x49)"@,
            Marker::Magic => "1 byte '*' (0x2a)"@,
            Marker::Pattern => "8 bytes matching "@ + bytes_text(block_tail()),
            Marker::DateField => "10 bytes of date"@,
        }
    }

    /// How many bytes the step has to consume.
    pub fn expected_len(&self) -> (n: usize)
        ensures
            n == self.width(),
    {
        match self {
            Marker::ByteOrder => 1,
            Marker::Magic => 1,
            Marker::Pattern => 8,
            Marker::DateField => 10,
        }
    }

    /// The bytes the step looks for; empty where any bytes will do.
    pub fn expected(&self) -> (v: Vec<u8>)
        ensures
            v@ == self.bytes(),
    {
        let mut v: Vec<u8> = Vec::new();
        match self {
            Marker::ByteOrder => {
                v.push(0x49u8);
            },
            Marker::Magic => {
                v.push(0x2au8);
            },
            Marker::Pattern => {
                v.push(0x00u8);
                v.push(0x00u8);
                v.push(0x00u8);
                v.push(0x01u8);
                v.push(0x00u8);
                v.push(0x00u8);
                v.push(0x00u8);
                v.push(0x48u8);
            },
            Marker::DateField => {},
        }
        assert(v@ =~= self.bytes());
        v
    }

    /// What the step looks for, in words.
    pub fn describe(&self) -> (text: String)
        ensures
            text@ == self.description(),
    {
        match self {
            Marker::ByteOrder => String::from_str("1 byte 'I' (0x49)"),
            Marker::Magic => String::from_str("1 byte '*' (0x2a)"),
            Marker::Pattern => {
                let tail = render_bytes(self.expected().as_slice());
                String::from_str("8 bytes matching ").concat(tail.as_str())
            },
            Marker::DateField => String::from_str("10 bytes of date"),
        }
    }
}

/// Why no date came out of a file.
#[derive(Debug)]
pub enum FileParseError {
    /// The file could not be opened or read.
    FileError(std::io::Error),
    /// The header does not have the expected layout: the step that turned
    /// it down, and the bytes that step consumed instead.
    FileSeekError { marker: Marker, found: Vec<u8> },
    /// The date text does not have three components; carries that text.
    DateParseError(String),
    /// The date bytes are not UTF-8.
    DateConvertError(FromUtf8Error),
}

/// What a contract says of a `FileParseError`.
pub enum Failure {
    File,
    Seek { marker: Marker, found: Seq<u8> },
    DateFormat { text: Seq<char> },
    Encoding,
}

impl View for FileParseError {
    type V = Failure;

    open spec fn view(&self) -> Failure {
        match self {
            FileParseError::FileError(_) => Failure::File,
            FileParseError::FileSeekError { marker, found } => Failure::Seek {
                marker: *marker,
                found: found@,
            },
            FileParseError::DateParseError(text) => Failure::DateFormat { text: text@ },
            FileParseError::DateConvertError(_) => Failure::Encoding,
        }
    }
}

/// What is said of a header that was turned down at `marker` with `found`.
pub open spec fn seek_text(marker: Marker, found: Seq<u8>) -> Seq<char> {
    "Did not find expected bytes in file while seeking to date. Expected "@
        + marker.description() + ", found: "@ + bytes_text(found)
}

impl Failure {
    /// The message for this failure. `detail` stands for what the error of
    /// the standard library inside says of itself, where there is one.
    pub open spec fn message(self, detail: Seq<char>) -> Seq<char> {
        match self {
            Failure::File => "An error occured operating on a file: "@ + detail,
            Failure::Seek { marker, found } => "Error seeking: "@ + seek_text(marker, found),
            Failure::DateFormat { text } =>
                "Error parsing date from file: Read something that is not a date: "@ + text,
            Failure::Encoding => "Error converting file date bytes to date string: "@ + detail,
        }
    }
}

impl FileParseError {
    /// The message for the user: it names what failed and, for a header
    /// that was turned down, the bytes that were expected and those found.
    pub fn message(&self) -> (text: String)
        ensures
            exists|detail: Seq<char>| text@ == self@.message(detail),
            self@ is Seek || self@ is DateFormat ==> text@ == self@.message(Seq::empty()),
    {
        match self {
            FileParseError::FileError(e) => {
                let detail = e.to_string();
                let text = String::from_str("An error occured operating on a file: ").concat(
                    detail.as_str(),
                );
                assert(text@ == self@.message(detail@));
                text
            },
            FileParseError::FileSeekError { marker, found } => {
                let mut text = String::from_str("Error seeking: ");
                text.append("Did not find expected bytes in file while seeking to date. Expected ");
                text.append(marker.describe().as_str());
                text.append(", found: ");
                text.append(render_bytes(found.as_slice()).as_str());
                assert(text@ =~= self@.message(Seq::empty()));
                text
            },
            FileParseError::DateParseError(input) => {
                let text = String::from_str(
                    "Error parsing date from file: Read something that is not a date: ",
                ).concat(input.as_str());
                assert(text@ == self@.message(Seq::empty()));
                text
            },
            FileParseError::DateConvertError(e) => {
                let detail = e.to_string();
                let text = String::from_str(
                    "Error converting file date bytes to date string: ",
                ).concat(detail.as_str());
                assert(text@ == self@.message(detail@));
                text
            },
        }
    }
}

impl From<std::io::Error> for FileParseError {
    fn from(err: std::io::Error) -> (e: FileParseError) {
        FileParseError::FileError(err)
    }
}

impl FromSpecImpl<std::io::Error> for FileParseError {
    open spec fn obeys_from_spec() -> bool {
        true
    }

    open spec fn from_spec(err: std::io::Error) -> FileParseError {
        FileParseError::FileError(err)
    }
}

impl From<FromUtf8Error> for FileParseError {
    fn from(err: FromUtf8Error) -> (e: FileParseError) {
        FileParseError::DateConvertError(err)
    }
}

impl FromSpecImpl<FromUtf8Error> for FileParseError {
    open spec fn obeys_from_spec() -> bool {
        true
    }

    open spec fn from_spec(err: FromUtf8Error) -> FileParseError {
        FileParseError::DateConvertError(err)
    }
}

} // verus!
