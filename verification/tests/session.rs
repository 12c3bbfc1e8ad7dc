use pdf_shell::session::{LoadResult, ParseOutcome, SessionState};

#[test]
fn a_new_session_is_empty() {
    let s = SessionState::new(11);
    assert_eq!(s.handle, 11);
    assert_eq!(s.doc, None);
}

#[test]
fn a_parsed_document_moves_the_empty_session_to_loaded() {
    let mut s = SessionState::new(11);
    let r = s.load(ParseOutcome::Parsed(7));
    assert_eq!(r, LoadResult::Loaded(None));
    assert_eq!(s.doc, Some(7));
    assert_eq!(s.handle, 11);
}

#[test]
fn a_second_load_replaces_the_document_and_returns_the_old_token() {
    let mut s = SessionState::new(11);
    let first = s.load(ParseOutcome::Parsed(1));
    let second = s.load(ParseOutcome::Parsed(2));
    assert_eq!(first, LoadResult::Loaded(None));
    assert_eq!(second, LoadResult::Loaded(Some(1)));
    assert_eq!(s.doc, Some(2));
    assert_eq!(s.handle, 11);
}

#[test]
fn a_missing_file_leaves_the_loaded_document_untouched() {
    let mut s = SessionState::new(11);
    s.load(ParseOutcome::Parsed(3));
    let r = s.load(ParseOutcome::NotFound);
    assert_eq!(r, LoadResult::NotFound);
    assert_eq!(s.doc, Some(3));
    assert_eq!(s.handle, 11);
}

#[test]
fn a_missing_file_on_an_empty_session_reports_not_found() {
    let mut s = SessionState::new(11);
    let r = s.load(ParseOutcome::NotFound);
    assert_eq!(r, LoadResult::NotFound);
    assert_eq!(s.doc, None);
}

#[test]
fn parse_failures_leave_the_session_unchanged() {
    let mut s = SessionState::new(11);
    s.load(ParseOutcome::Parsed(9));
    assert_eq!(s.load(ParseOutcome::ParseFailed), LoadResult::ParseFailed);
    assert_eq!(
        s.load(ParseOutcome::UnsupportedFormat),
        LoadResult::UnsupportedFormat
    );
    assert_eq!(s.doc, Some(9));
    assert_eq!(s.handle, 11);
}
