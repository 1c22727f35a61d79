use photosort::renamer::{
    conclude, get_renamer, FileRenamer, GitRenamer, Outcome, Relocation, RelocationError, Renamer,
};

#[test]
fn renamer_for_git_argument_is_git() {
    assert_eq!(get_renamer(&Some("git".to_string())), Renamer::Git(GitRenamer::new()));
}

#[test]
fn renamer_for_other_argument_is_plain() {
    assert_eq!(get_renamer(&Some("file".to_string())), Renamer::File(FileRenamer::new()));
    assert_eq!(get_renamer(&Some("Git".to_string())), Renamer::File(FileRenamer::new()));
    assert_eq!(get_renamer(&Some("git ".to_string())), Renamer::File(FileRenamer::new()));
    assert_eq!(get_renamer(&Some("gi".to_string())), Renamer::File(FileRenamer::new()));
    assert_eq!(get_renamer(&Some(String::new())), Renamer::File(FileRenamer::new()));
}

#[test]
fn renamer_without_argument_is_plain() {
    assert_eq!(get_renamer(&None), Renamer::File(FileRenamer::new()));
}

#[test]
fn plain_renamer_renames() {
    let step = FileRenamer::new().rename("a.jpg", "/p/2020/02/01/a.jpg");
    assert_eq!(
        step,
        Relocation::Rename { source: "a.jpg".to_string(), dest: "/p/2020/02/01/a.jpg".to_string() }
    );
    assert_eq!(Renamer::File(FileRenamer::new()).rename("a.jpg", "/p/2020/02/01/a.jpg"), step);
}

#[test]
fn git_renamer_runs_git_mv() {
    let step = GitRenamer::new().rename("a.jpg", "/p/2020/02/01/a.jpg");
    assert_eq!(
        step,
        Relocation::Run {
            program: "git".to_string(),
            args: vec!["mv".to_string(), "a.jpg".to_string(), "/p/2020/02/01/a.jpg".to_string()],
        }
    );
    assert_eq!(Renamer::Git(GitRenamer::new()).rename("a.jpg", "/p/2020/02/01/a.jpg"), step);
}

#[test]
fn done_rename_and_successful_exit_are_fine() {
    assert!(matches!(conclude(Outcome::Renamed), Ok(())));
    assert!(matches!(conclude(Outcome::Exited { success: true }), Ok(())));
}

#[test]
fn failing_git_is_a_relocation_error() {
    let renamer = get_renamer(&Some("git".to_string()));
    let step = renamer.rename("a.jpg", "/home/ann/annex/photos/2020/02/01/a.jpg");
    assert!(matches!(step, Relocation::Run { .. }));
    assert!(matches!(
        conclude(Outcome::Exited { success: false }),
        Err(RelocationError::CommandFailed)
    ));
}

#[test]
fn io_error_of_the_move_is_passed_on() {
    let e = std::io::Error::new(std::io::ErrorKind::NotFound, "no git");
    match conclude(Outcome::Failed(e)) {
        Err(RelocationError::Io(inner)) => assert_eq!(inner.kind(), std::io::ErrorKind::NotFound),
        other => panic!("expected an io error, got {:?}", other),
    }
}
