use local_agent::edit_file::{EditFile, EditStep, FileEditOutcome, Params, PatchStep};
use local_agent::read_file::FileReader;
use local_agent::ErrorKind;

fn request(path: &str, old_str: &str, new_str: &str) -> local_agent::edit_file::FileEditRequest {
    Params {
        path: path.to_string(),
        old_str: old_str.to_string(),
        new_str: new_str.to_string(),
    }
    .into_request()
}

#[test]
fn create_fresh_file_writes_new_text_verbatim() {
    let req = request("notes/todo.txt", "", "X");
    match EditFile::begin(&req, false) {
        EditStep::CreateTarget { make_dirs, contents } => {
            assert!(make_dirs);
            assert_eq!(contents, "X");
        }
        _ => panic!("expected the create path"),
    }
}

#[test]
fn create_in_current_directory_needs_no_parent() {
    let req = request("todo.txt", "", "hello");
    match EditFile::begin(&req, false) {
        EditStep::CreateTarget { make_dirs, contents } => {
            assert!(!make_dirs);
            assert_eq!(contents, "hello");
        }
        _ => panic!("expected the create path"),
    }
}

#[test]
fn existing_target_is_read_first() {
    let req = request("a.txt", "old", "new");
    assert!(matches!(EditFile::begin(&req, true), EditStep::ReadTarget));
}

#[test]
fn equal_texts_rejected_whether_or_not_target_exists() {
    let req = request("a.txt", "same", "same");
    assert!(matches!(
        EditFile::begin(&req, true),
        EditStep::Finished(FileEditOutcome::NoOpRejected(_))
    ));
    assert!(matches!(
        EditFile::begin(&req, false),
        EditStep::Finished(FileEditOutcome::NoOpRejected(_))
    ));
    let both_empty = request("a.txt", "", "");
    assert!(matches!(
        EditFile::begin(&both_empty, false),
        EditStep::Finished(FileEditOutcome::NoOpRejected(_))
    ));
}

#[test]
fn empty_path_rejected() {
    let req = request("", "a", "b");
    assert!(matches!(
        EditFile::begin(&req, false),
        EditStep::Finished(FileEditOutcome::NoOpRejected(_))
    ));
}

#[test]
fn patch_replaces_single_occurrence() {
    let req = request("a.txt", "world", "verus");
    match EditFile::patch(&req, "hello world!") {
        PatchStep::WriteTarget { contents } => assert_eq!(contents, "hello verus!"),
        _ => panic!("expected a write"),
    }
}

#[test]
fn patch_replaces_every_occurrence() {
    // The chosen policy: all occurrences are replaced, rather than failing
    // when the match is ambiguous.
    let req = request("a.txt", "a", "c");
    match EditFile::patch(&req, "aba") {
        PatchStep::WriteTarget { contents } => assert_eq!(contents, "cbc"),
        _ => panic!("expected a write"),
    }
}

#[test]
fn patch_missing_text_fails_not_found() {
    let req = request("a.txt", "absent", "x");
    match EditFile::patch(&req, "hello world") {
        PatchStep::Finished(FileEditOutcome::Failed(kind, reason)) => {
            assert_eq!(kind, ErrorKind::NotFound);
            assert_eq!(reason, "old_str was not found in the file");
        }
        _ => panic!("expected a not-found failure"),
    }
}

#[test]
fn patch_with_empty_search_interleaves_replacement() {
    let req = request("a.txt", "", "-");
    match EditFile::patch(&req, "ab") {
        PatchStep::WriteTarget { contents } => assert_eq!(contents, "-a-b-"),
        _ => panic!("expected a write"),
    }
}

#[test]
fn finish_reports_io_failures() {
    assert!(matches!(EditFile::finish_create(None), FileEditOutcome::Created));
    assert!(matches!(EditFile::finish_patch(None), FileEditOutcome::Patched));
    match EditFile::finish_create(Some("disk full".to_string())) {
        FileEditOutcome::Failed(kind, reason) => {
            assert_eq!(kind, ErrorKind::IOError);
            assert_eq!(reason, "disk full");
        }
        _ => panic!("expected an i/o failure"),
    }
    assert!(matches!(
        EditFile::finish_patch(Some("disk full".to_string())),
        FileEditOutcome::Failed(ErrorKind::IOError, _)
    ));
}

#[test]
fn create_then_read_round_trips() {
    let req = request("fresh.txt", "", "hello");
    let written = match EditFile::begin(&req, false) {
        EditStep::CreateTarget { contents, .. } => contents,
        _ => panic!("expected the create path"),
    };
    assert_eq!(written, "hello");
    assert_eq!(FileReader::outcome(true, written), Ok("hello".to_string()));
}

#[test]
fn tool_identity() {
    assert_eq!(EditFile::name(), "edit_file");
    assert!(EditFile::description().contains("Replaces 'old_str' with 'new_str'"));
}
