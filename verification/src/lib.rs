//! Verified core of a photo archiver: locating the capture date inside an
//! image header, parsing it, and computing where the file belongs.
//!
//! - [`scanner`] walks a header along a fixed trail of marker bytes to the
//!   ten bytes of the date, over a [`cursor`] that only moves forward;
//!   [`layout`] says which headers the walk accepts.
//! - [`date`] reads `YYYY:MM:DD` out of the decoded text, with the help of
//!   [`text`] and [`find`]; [`capture`] goes from header bytes to the date.
//! - [`destination`] computes `root/year/month/day/name`.
//! - [`renamer`] describes the two ways of moving a file, and [`session`]
//!   puts the steps of a run in order. Nothing here touches a file: the
//!   caller reads, creates and moves, and reports what came of it.
//! - [`error`] holds the errors, [`render`] writes bytes out for messages.

pub mod capture;
pub mod cursor;
pub mod date;
pub mod destination;
pub mod error;
pub mod find;
pub mod layout;
pub mod render;
pub mod renamer;
pub mod scanner;
pub mod session;
pub mod text;
