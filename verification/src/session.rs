//! One run of the archiver, as a dialogue: the session says what to do
//! next, the caller does it and reports back. All reading, creating and
//! moving is the caller's; all deciding is done here.

use crate::capture::{get_date_from_header, read_date};
use crate::date::{CalendarDate, Date};
use crate::destination::{
    archive_root, archive_root_of, destination_of, resolve, Destination, DestinationPath,
};
use crate::error::{Failure, FileParseError};
use crate::renamer::{
    conclude, get_renamer, selected, verdict, Outcome, Relocation, RelocationError, Renamer, Step,
};
use vstd::prelude::*;
use vstd::string::*;

verus! {

/// The number of bytes at the start of a file that make up its header.
pub const HEADER_LEN: usize = 1024;

/// Why a run ended without the file in its place.
#[derive(Debug)]
pub enum SortError {
    /// No date could be read out of the file.
    Date(FileParseError),
    /// The home directory is not known.
    Home,
    /// The directory for the file could not be created.
    Directory(std::io::Error),
    /// The move failed.
    Relocation(RelocationError),
    /// The report does not answer the request that was made last.
    OutOfTurn,
}

/// What a contract says of a `SortError`.
pub enum Fault {
    Date(Failure),
    Home,
    Directory,
    Relocation(RelocationError),
    OutOfTurn,
}

impl View for SortError {
    type V = Fault;

    open spec fn view(&self) -> Fault {
        match self {
            SortError::Date(e) => Fault::Date(e@),
            SortError::Home => Fault::Home,
            SortError::Directory(_) => Fault::Directory,
            SortError::Relocation(e) => Fault::Relocation(*e),
            SortError::OutOfTurn => Fault::OutOfTurn,
        }
    }
}

impl Fault {
    /// The part of the run that failed, in words.
    pub open spec fn context(self) -> Seq<char> {
        match self {
            Fault::Date(_) => "Error in reading date out of input file"@,
            Fault::Home => "$HOME env var not available"@,
            Fault::Directory => "Failed to create dest dir"@,
            Fault::Relocation(_) => "Failed to rename file"@,
            Fault::OutOfTurn => "Report out of turn"@,
        }
    }

    /// The message for this fault: the part of the run that failed and,
    /// behind a colon, the message of the error inside. `detail` stands for
    /// what an error of the standard library says of itself.
    pub open spec fn message(self, detail: Seq<char>) -> Seq<char> {
        match self {
            Fault::Date(failure) => self.context() + ": "@ + failure.message(detail),
            Fault::Home => self.context(),
            Fault::Directory => self.context() + ": "@ + detail,
            Fault::Relocation(e) => self.context() + ": "@ + e.text(detail),
            Fault::OutOfTurn => self.context(),
        }
    }
}

impl SortError {
    /// The part of the run that failed, in words.
    pub fn context(&self) -> (text: &'static str)
        ensures
            text@ == self@.context(),
    {
        match self {
            SortError::Date(_) => "Error in reading date out of input file",
            SortError::Home => "$HOME env var not available",
            SortError::Directory(_) => "Failed to create dest dir",
            SortError::Relocation(_) => "Failed to rename file",
            SortError::OutOfTurn => "Report out of turn",
        }
    }

    /// The message for the user.
    pub fn message(&self) -> (text: String)
        ensures
            exists|detail: Seq<char>| text@ == self@.message(detail),
    {
        let head = String::from_str(self.context());
        match self {
            SortError::Date(e) => {
                let inner = e.message();
                let ghost detail = choose|detail: Seq<char>| inner@ == e@.message(detail);
                let text = head.concat(": ").concat(inner.as_str());
                assert(text@ == self@.message(detail));
                text
            },
            SortError::Directory(e) => {
                let inner = e.to_string();
                let text = head.concat(": ").concat(inner.as_str());
                assert(text@ == self@.message(inner@));
                text
            },
            SortError::Relocation(e) => {
                let inner = e.message();
                let ghost detail = choose|detail: Seq<char>| inner@ == e.text(detail);
                let text = head.concat(": ").concat(inner.as_str());
                assert(text@ == self@.message(detail));
                text
            },
            SortError::Home => {
                assert(head@ == self@.message(Seq::empty()));
                head
            },
            SortError::OutOfTurn => {
                assert(head@ == self@.message(Seq::empty()));
                head
            },
        }
    }
}

/// What the session asks of its caller.
#[derive(Debug)]
pub enum Action {
    /// Read exactly the first `len` bytes of the file at `path`.
    ReadHeader { path: String, len: usize },
    /// Look up the home directory.
    FindHome,
    /// Create the directory `path` with all its parents.
    CreateDirectory { path: String },
    /// Carry out the step that moves the file.
    Relocate(Relocation),
    /// Stop: the run is over, with this result.
    Finish(Result<(), SortError>),
}

/// What an `Action` stands for.
pub enum Request {
    ReadHeader { path: Seq<char>, len: nat },
    FindHome,
    CreateDirectory { path: Seq<char> },
    Relocate(Step),
    Finish(Result<(), Fault>),
}

impl View for Action {
    type V = Request;

    open spec fn view(&self) -> Request {
        match self {
            Action::ReadHeader { path, len } => Request::ReadHeader { path: path@, len: *len as nat },
            Action::FindHome => Request::FindHome,
            Action::CreateDirectory { path } => Request::CreateDirectory { path: path@ },
            Action::Relocate(step) => Request::Relocate(step@),
            Action::Finish(result) => Request::Finish(
                match result {
                    Ok(_) => Ok(()),
                    Err(e) => Err(e@),
                },
            ),
        }
    }
}

/// What the caller reports back.
#[derive(Debug)]
pub enum Event {
    /// The header was read, or the file could not be opened or read.
    HeaderRead(Result<Vec<u8>, std::io::Error>),
    /// The home directory, if there is one.
    HomeFound(Option<String>),
    /// The directory exists now, or could not be created.
    DirectoryCreated(Result<(), std::io::Error>),
    /// What the step that moves the file came to.
    Moved(Outcome),
}

/// What an `Event` stands for.
pub enum Report {
    HeaderRead(Option<Seq<u8>>),
    HomeFound(Option<Seq<char>>),
    DirectoryCreated(bool),
    Moved(Outcome),
}

impl View for Event {
    type V = Report;

    open spec fn view(&self) -> Report {
        match self {
            Event::HeaderRead(Ok(bytes)) => Report::HeaderRead(Some(bytes@)),
            Event::HeaderRead(Err(_)) => Report::HeaderRead(None),
            Event::HomeFound(Some(home)) => Report::HomeFound(Some(home@)),
            Event::HomeFound(None) => Report::HomeFound(None),
            Event::DirectoryCreated(Ok(_)) => Report::DirectoryCreated(true),
            Event::DirectoryCreated(Err(_)) => Report::DirectoryCreated(false),
            Event::Moved(outcome) => Report::Moved(*outcome),
        }
    }
}

/// How far a run has come.
pub enum Phase {
    /// The header has been asked for.
    Reading,
    /// The date is known; the home directory has been asked for.
    Locating(CalendarDate),
    /// The place is known; its directory has been asked for.
    Creating(DestinationPath),
    /// The directory exists; the move has been asked for.
    Moving,
    /// The run is over.
    Finished,
}

/// What a `Session` stands for.
pub struct Run {
    pub source: Seq<char>,
    pub name: Seq<char>,
    pub renamer: Renamer,
    pub phase: Phase,
}

impl Run {
    /// The same run in another phase.
    pub open spec fn at(self, phase: Phase) -> Run {
        Run { phase, ..self }
    }

    /// The run over, with a failure.
    pub open spec fn fail(self, fault: Fault) -> (Run, Request) {
        (self.at(Phase::Finished), Request::Finish(Err(fault)))
    }
}

/// What the verdict on a move means for the run.
pub open spec fn closing(result: Result<(), RelocationError>) -> Result<(), Fault> {
    match result {
        Ok(_) => Ok(()),
        Err(e) => Err(Fault::Relocation(e)),
    }
}

/// The run before anything has happened, and its first request: the header
/// of the file.
pub open spec fn opening(source: Seq<char>, name: Seq<char>, arg: Option<Seq<char>>) -> (
    Run,
    Request,
) {
    (
        Run { source, name, renamer: selected(arg), phase: Phase::Reading },
        Request::ReadHeader { path: source, len: HEADER_LEN as nat },
    )
}

/// The run after `report`, and what it asks for next. Each phase takes the
/// report that answers its request: the date is read out of the header,
/// then the place is computed from the home directory, then the directory
/// is created, and only then the file is moved. A failure of any of these
/// ends the run, and so does a report that is out of turn.
pub open spec fn next(run: Run, report: Report) -> (Run, Request) {
    match (run.phase, report) {
        (Phase::Reading, Report::HeaderRead(Some(header))) => match read_date(header) {
            Ok(date) => (run.at(Phase::Locating(date)), Request::FindHome),
            Err(failure) => run.fail(Fault::Date(failure)),
        },
        (Phase::Reading, Report::HeaderRead(None)) => run.fail(Fault::Date(Failure::File)),
        (Phase::Locating(date), Report::HomeFound(Some(home))) => {
            let place = destination_of(archive_root_of(home), date, run.name);
            (run.at(Phase::Creating(place)), Request::CreateDirectory { path: place.parent })
        },
        (Phase::Locating(_), Report::HomeFound(None)) => run.fail(Fault::Home),
        (Phase::Creating(place), Report::DirectoryCreated(true)) => (
            run.at(Phase::Moving),
            Request::Relocate(run.renamer.step(run.source, place.path)),
        ),
        (Phase::Creating(_), Report::DirectoryCreated(false)) => run.fail(Fault::Directory),
        (Phase::Moving, Report::Moved(outcome)) => (
            run.at(Phase::Finished),
            Request::Finish(closing(verdict(outcome))),
        ),
        _ => run.fail(Fault::OutOfTurn),
    }
}

#[derive(Debug)]
enum Stage {
    Reading,
    Locating(Date),
    Creating(Destination),
    Moving,
    Finished,
}

/// One run of the archiver on one file.
#[derive(Debug)]
pub struct Session {
    source: String,
    name: String,
    renamer: Renamer,
    stage: Stage,
}

impl View for Session {
    type V = Run;

    closed spec fn view(&self) -> Run {
        Run {
            source: self.source@,
            name: self.name@,
            renamer: self.renamer,
            phase: match self.stage {
                Stage::Reading => Phase::Reading,
                Stage::Locating(date) => Phase::Locating(date@),
                Stage::Creating(place) => Phase::Creating(place@),
                Stage::Moving => Phase::Moving,
                Stage::Finished => Phase::Finished,
            },
        }
    }
}

impl Session {
    /// Starts a run on the file at `source`, whose name without its
    /// directories is `name`. `arg` selects the way the file is moved.
    pub fn new(source: String, name: String, arg: &Option<String>) -> (r: (Session, Action))
        ensures
            (r.0@, r.1@) == opening(
                source@,
                name@,
                match arg {
                    Some(text) => Some(text@),
                    None => None,
                },
            ),
    {
        let renamer = get_renamer(arg);
        let path = source.clone();
        (
            Session { source, name, renamer, stage: Stage::Reading },
            Action::ReadHeader { path, len: HEADER_LEN },
        )
    }

    /// Whether the run is over.
    pub fn is_finished(&self) -> (finished: bool)
        ensures
            finished == (self@.phase is Finished),
    {
        match self.stage {
            Stage::Finished => true,
            _ => false,
        }
    }

    /// Takes the report on the last request and says what to do next.
    pub fn step(self, event: Event) -> (r: (Session, Action))
        ensures
            (r.0@, r.1@) == next(self@, event@),
    {
        let Session { source, name, renamer, stage } = self;
        let (stage, action) = match (stage, event) {
            (Stage::Reading, Event::HeaderRead(Ok(header))) => {
                match get_date_from_header(header.as_slice()) {
                    Ok(date) => (Stage::Locating(date), Action::FindHome),
                    Err(e) => (Stage::Finished, Action::Finish(Err(SortError::Date(e)))),
                }
            },
            (Stage::Reading, Event::HeaderRead(Err(e))) => (
                Stage::Finished,
                Action::Finish(Err(SortError::Date(FileParseError::from(e)))),
            ),
            (Stage::Locating(date), Event::HomeFound(Some(home))) => {
                let root = archive_root(home.as_str());
                let place = resolve(root.as_str(), &date, name.as_str());
                let path = String::from_str(place.parent());
                (Stage::Creating(place), Action::CreateDirectory { path })
            },
            (Stage::Locating(_), Event::HomeFound(None)) => (
                Stage::Finished,
                Action::Finish(Err(SortError::Home)),
            ),
            (Stage::Creating(place), Event::DirectoryCreated(Ok(_))) => (
                Stage::Moving,
                Action::Relocate(renamer.rename(source.as_str(), place.path())),
            ),
            (Stage::Creating(_), Event::DirectoryCreated(Err(e))) => (
                Stage::Finished,
                Action::Finish(Err(SortError::Directory(e))),
            ),
            (Stage::Moving, Event::Moved(outcome)) => {
                let result = match conclude(outcome) {
                    Ok(_) => Ok(()),
                    Err(e) => Err(SortError::Relocation(e)),
                };
                (Stage::Finished, Action::Finish(result))
            },
            _ => (Stage::Finished, Action::Finish(Err(SortError::OutOfTurn))),
        };
        (Session { source, name, renamer, stage }, action)
    }
}

/// The file is moved last: a move is asked for only by a run that waits for
/// its directory, and only on the report that the directory exists. The
/// run then waits for the move alone.
pub proof fn lemma_move_follows_directory(run: Run, report: Report)
    requires
        next(run, report).1 is Relocate,
    ensures
        run.phase is Creating,
        report == Report::DirectoryCreated(true),
        next(run, report).0.phase is Moving,
{
}

/// A directory is asked for only once the date has been read and the home
/// directory is known, and it is the directory of the place that the date
/// assigns to the file.
pub proof fn lemma_directory_follows_date(run: Run, report: Report)
    requires
        next(run, report).1 is CreateDirectory,
    ensures
        run.phase matches Phase::Locating(date) && report matches Report::HomeFound(Some(home))
            && next(run, report).1 == (Request::CreateDirectory {
            path: destination_of(archive_root_of(home), date, run.name).parent,
        }),
{
}

/// A run is over exactly when it says so: the request to stop always comes
/// with the last phase, and every other request with an earlier one.
pub proof fn lemma_finish_is_final(run: Run, report: Report)
    ensures
        next(run, report).1 is Finish <==> next(run, report).0.phase is Finished,
        run.phase is Finished ==> next(run, report) == run.fail(Fault::OutOfTurn),
        next(run, report).0.source == run.source,
        next(run, report).0.name == run.name,
        next(run, report).0.renamer == run.renamer,
{
}

/// A header that holds no date ends the run at once: no directory is asked
/// for and no move.
pub proof fn lemma_bad_header_ends_run(
    source: Seq<char>,
    name: Seq<char>,
    arg: Option<Seq<char>>,
    header: Seq<u8>,
)
    requires
        read_date(header) is Err,
    ensures
        next(opening(source, name, arg).0, Report::HeaderRead(Some(header))).1
            == Request::Finish(Err(Fault::Date(read_date(header)->Err_0))),
{
}

/// A run in which every request succeeds: the header holds `date`, the home
/// directory is `home`, the directory is created. The directory asked for
/// is `home/annex/photos/year/month/day`, the move asked for takes the
/// source to the file's name in that directory, and the verdict on the move
/// is the result of the run.
pub proof fn lemma_run_in_order(
    source: Seq<char>,
    name: Seq<char>,
    arg: Option<Seq<char>>,
    header: Seq<u8>,
    date: CalendarDate,
    home: Seq<char>,
    outcome: Outcome,
)
    requires
        read_date(header) == Ok::<CalendarDate, Failure>(date),
    ensures
        ({
            let place = destination_of(archive_root_of(home), date, name);
            let (run0, request0) = opening(source, name, arg);
            let (run1, request1) = next(run0, Report::HeaderRead(Some(header)));
            let (run2, request2) = next(run1, Report::HomeFound(Some(home)));
            let (run3, request3) = next(run2, Report::DirectoryCreated(true));
            let (run4, request4) = next(run3, Report::Moved(outcome));
            &&& request0 == Request::ReadHeader { path: source, len: HEADER_LEN as nat }
            &&& request1 == Request::FindHome
            &&& request2 == Request::CreateDirectory { path: place.parent }
            &&& request3 == Request::Relocate(selected(arg).step(source, place.path))
            &&& request4 == Request::Finish(closing(verdict(outcome)))
            &&& run4.phase is Finished
        }),
{
}

} // verus!
