//! How a file gets to its place: the two ways of moving it, the choice
//! between them, and the verdict on what the move reported.

use vstd::prelude::*;
use vstd::string::*;

verus! {

/// Moves a file by renaming it.
#[derive(Debug, Clone, Copy, PartialEq, Eq, Structural)]
pub struct FileRenamer;

/// Moves a file through `git mv`, so that the repository records the move.
#[derive(Debug, Clone, Copy, PartialEq, Eq, Structural)]
pub struct GitRenamer;

/// The way a file is moved.
#[derive(Debug, Clone, Copy, PartialEq, Eq, Structural)]
pub enum Renamer {
    File(FileRenamer),
    Git(GitRenamer),
}

/// One step for the caller to carry out.
#[derive(Debug, PartialEq, Eq)]
pub enum Relocation {
    /// Rename `source` to `dest` in the file system.
    Rename { source: String, dest: String },
    /// Run `program` with `args` and wait for it to exit.
    Run { program: String, args: Vec<String> },
}

/// What a `Relocation` stands for.
pub enum Step {
    Rename { source: Seq<char>, dest: Seq<char> },
    Run { program: Seq<char>, args: Seq<Seq<char>> },
}

impl View for Relocation {
    type V = Step;

    open spec fn view(&self) -> Step {
        match self {
            Relocation::Rename { source, dest } => Step::Rename { source: source@, dest: dest@ },
            Relocation::Run { program, args } => Step::Run {
                program: program@,
                args: args@.map_values(|arg: String| arg@),
            },
        }
    }
}

/// What carrying out a `Relocation` came to.
#[derive(Debug)]
pub enum Outcome {
    /// The file was renamed.
    Renamed,
    /// The program ran and exited, with or without success.
    Exited { success: bool },
    /// The file system or the start of the program reported an error.
    Failed(std::io::Error),
}

/// Why a file did not get to its place.
#[derive(Debug)]
pub enum RelocationError {
    /// The file system or the start of the program reported an error.
    Io(std::io::Error),
    /// The program ran and reported failure by its exit status.
    CommandFailed,
}

impl RelocationError {
    /// The message for this error. `detail` stands for what the error of
    /// the standard library inside says of itself, where there is one.
    pub open spec fn text(self, detail: Seq<char>) -> Seq<char> {
        match self {
            RelocationError::Io(_) => detail,
            RelocationError::CommandFailed => "git mv failed"@,
        }
    }

    /// The message for the user.
    pub fn message(&self) -> (text: String)
        ensures
            exists|detail: Seq<char>| text@ == self.text(detail),
            *self is CommandFailed ==> text@ == self.text(Seq::empty()),
    {
        let text = match self {
            RelocationError::Io(e) => e.to_string(),
            RelocationError::CommandFailed => String::from_str("git mv failed"),
        };
        assert(text@ == self.text(text@));
        text
    }
}

/// The step by which a plain rename moves `source` to `dest`.
pub open spec fn file_step(source: Seq<char>, dest: Seq<char>) -> Step {
    Step::Rename { source, dest }
}

/// The step by which git moves `source` to `dest`: `git mv source dest`.
pub open spec fn git_step(source: Seq<char>, dest: Seq<char>) -> Step {
    Step::Run { program: "git"@, args: seq!["mv"@, source, dest] }
}

/// The way of moving that the argument `arg` selects: git for `git`, a
/// plain rename for anything else and where there is no argument.
pub open spec fn selected(arg: Option<Seq<char>>) -> Renamer {
    if arg == Some("git"@) {
        Renamer::Git(GitRenamer)
    } else {
        Renamer::File(FileRenamer)
    }
}

/// The verdict on an outcome: a rename that was done and a program that
/// exited with success are fine; a program that exited without success
/// failed, and an error is passed on.
pub open spec fn verdict(outcome: Outcome) -> Result<(), RelocationError> {
    match outcome {
        Outcome::Renamed => Ok(()),
        Outcome::Exited { success } => if success {
            Ok(())
        } else {
            Err(RelocationError::CommandFailed)
        },
        Outcome::Failed(e) => Err(RelocationError::Io(e)),
    }
}

impl FileRenamer {
    /// A renamer that renames.
    pub fn new() -> (renamer: Self)
        ensures
            renamer == FileRenamer,
    {
        FileRenamer
    }

    /// The step that moves `source` to `dest`.
    pub fn rename(&self, source: &str, dest: &str) -> (step: Relocation)
        ensures
            step@ == file_step(source@, dest@),
    {
        Relocation::Rename { source: String::from_str(source), dest: String::from_str(dest) }
    }
}

impl GitRenamer {
    /// A renamer that runs git.
    pub fn new() -> (renamer: Self)
        ensures
            renamer == GitRenamer,
    {
        GitRenamer
    }

    /// The step that moves `source` to `dest`.
    pub fn rename(&self, source: &str, dest: &str) -> (step: Relocation)
        ensures
            step@ == git_step(source@, dest@),
    {
        let mut args: Vec<String> = Vec::new();
        args.push(String::from_str("mv"));
        args.push(String::from_str(source));
        args.push(String::from_str(dest));
        assert(args@.map_values(|arg: String| arg@) =~= seq!["mv"@, source@, dest@]);
        Relocation::Run { program: String::from_str("git"), args }
    }
}

impl Renamer {
    /// The step that moves `source` to `dest` in this way.
    pub open spec fn step(self, source: Seq<char>, dest: Seq<char>) -> Step {
        match self {
            Renamer::File(_) => file_step(source, dest),
            Renamer::Git(_) => git_step(source, dest),
        }
    }

    /// The step that moves `source` to `dest`.
    pub fn rename(&self, source: &str, dest: &str) -> (step: Relocation)
        ensures
            step@ == self.step(source@, dest@),
    {
        match self {
            Renamer::File(renamer) => renamer.rename(source, dest),
            Renamer::Git(renamer) => renamer.rename(source, dest),
        }
    }
}

/// Selects the way of moving by the optional argument of the command line.
pub fn get_renamer(arg: &Option<String>) -> (renamer: Renamer)
    ensures
        renamer == selected(
            match arg {
                Some(name) => Some(name@),
                None => None,
            },
        ),
{
    match arg {
        Some(name) => {
            let git = String::from_str("git");
            if *name == git {
                Renamer::Git(GitRenamer::new())
            } else {
                Renamer::File(FileRenamer::new())
            }
        },
        None => Renamer::File(FileRenamer::new()),
    }
}

/// Turns what a step reported into the result of the move.
pub fn conclude(outcome: Outcome) -> (r: Result<(), RelocationError>)
    ensures
        r == verdict(outcome),
{
    match outcome {
        Outcome::Renamed => Ok(()),
        Outcome::Exited { success } => if success {
            Ok(())
        } else {
            Err(RelocationError::CommandFailed)
        },
        Outcome::Failed(e) => Err(RelocationError::Io(e)),
    }
}

} // verus!
