//! Where a file with a given capture date belongs in the archive.

use crate::capture::{get_date_from_header, read_date};
use crate::date::{CalendarDate, Date};
use crate::error::{Failure, FileParseError};
use vstd::prelude::*;
use vstd::string::*;

verus! {

/// The archive below the home directory `home`.
pub open spec fn archive_root_of(home: Seq<char>) -> Seq<char> {
    home + "/annex/photos"@
}

/// The directory for `date` below `root`: `root/year/month/day`.
pub open spec fn directory_of(root: Seq<char>, date: CalendarDate) -> Seq<char> {
    root + "/"@ + date.year + "/"@ + date.month + "/"@ + date.day
}

/// What a `Destination` stands for: the path of the file and the directory
/// that holds it.
pub struct DestinationPath {
    pub path: Seq<char>,
    pub parent: Seq<char>,
}

/// The place of the file `name` with the date `date` below `root`:
/// `root/year/month/day/name`, and the directory `root/year/month/day`.
pub open spec fn destination_of(
    root: Seq<char>,
    date: CalendarDate,
    name: Seq<char>,
) -> DestinationPath {
    DestinationPath {
        path: directory_of(root, date) + "/"@ + name,
        parent: directory_of(root, date),
    }
}

/// The place that the header `h` assigns to the file `name` in the archive
/// below `home`, or why it assigns none.
pub open spec fn planned_destination(h: Seq<u8>, home: Seq<char>, name: Seq<char>) -> Result<
    DestinationPath,
    Failure,
> {
    match read_date(h) {
        Ok(date) => Ok(destination_of(archive_root_of(home), date, name)),
        Err(failure) => Err(failure),
    }
}

/// A place in the archive: the path of a file and the directory that has to
/// exist before the file is moved there.
#[derive(Debug, PartialEq, Eq)]
pub struct Destination {
    path: String,
    parent: String,
}

impl View for Destination {
    type V = DestinationPath;

    closed spec fn view(&self) -> DestinationPath {
        DestinationPath { path: self.path@, parent: self.parent@ }
    }
}

impl Clone for Destination {
    fn clone(&self) -> (copy: Destination)
        ensures
            copy@ == self@,
    {
        Destination { path: self.path.clone(), parent: self.parent.clone() }
    }
}

impl Destination {
    /// The path of the file.
    pub fn path(&self) -> (path: &str)
        ensures
            path@ == self@.path,
    {
        self.path.as_str()
    }

    /// The directory that holds the file.
    pub fn parent(&self) -> (parent: &str)
        ensures
            parent@ == self@.parent,
    {
        self.parent.as_str()
    }
}

/// The archive below the home directory `home`: `home/annex/photos`.
pub fn archive_root(home: &str) -> (root: String)
    ensures
        root@ == archive_root_of(home@),
{
    String::from_str(home).concat("/annex/photos")
}

/// Computes where the file `name` with the capture date `date` belongs
/// below `root`. Nothing is looked up or created: the result depends on the
/// three arguments alone.
pub fn resolve(root: &str, date: &Date, name: &str) -> (destination: Destination)
    ensures
        destination@ == destination_of(root@, date@, name@),
{
    let mut parent = String::from_str(root);
    parent.append("/");
    parent.append(date.year());
    parent.append("/");
    parent.append(date.month());
    parent.append("/");
    parent.append(date.day());
    let mut path = parent.clone();
    path.append("/");
    path.append(name);
    Destination { path, parent }
}

/// Reads the capture date out of `header` and computes where the file
/// `name` belongs in the archive below the home directory `home`.
pub fn plan_destination(header: &[u8], home: &str, name: &str) -> (r: Result<
    Destination,
    FileParseError,
>)
    ensures
        match planned_destination(header@, home@, name@) {
            Ok(place) => r matches Ok(d) && d@ == place,
            Err(failure) => r matches Err(e) && e@ == failure,
        },
{
    match get_date_from_header(header) {
        Ok(date) => {
            let root = archive_root(home);
            Ok(resolve(root.as_str(), &date, name))
        },
        Err(e) => Err(e),
    }
}

/// Two runs of `resolve` on the same root, date and name end in the same
/// place: whatever one call may return, any other call returns too.
pub proof fn lemma_resolve_is_deterministic(
    root: &str,
    date: &Date,
    name: &str,
    first: Destination,
    second: Destination,
)
    requires
        call_ensures(resolve, (root, date, name), first),
        call_ensures(resolve, (root, date, name), second),
    ensures
        first@ == second@,
{
}

/// The path of a place is its directory, a separator, and the file's name;
/// the directory is the root followed by year, month and day.
pub proof fn lemma_destination_shape(root: Seq<char>, date: CalendarDate, name: Seq<char>)
    ensures
        destination_of(root, date, name).path == root + seq!['/'] + date.year + seq!['/']
            + date.month + seq!['/'] + date.day + seq!['/'] + name,
        destination_of(root, date, name).path == destination_of(root, date, name).parent + seq![
            '/',
        ] + name,
{
    reveal_strlit("/");
    assert("/"@ =~= seq!['/']);
}

} // verus!
