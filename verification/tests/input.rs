use qb::input::{CommandLine, EditRequest, InputType};

fn line(text: &str) -> CommandLine {
    CommandLine::new(InputType::Query, text.to_string())
}

#[test]
fn new_line_holds_text_with_cursor_at_end() {
    let l = line("query ");
    assert_eq!(l.value(), "query ");
    assert_eq!(l.kind(), InputType::Query);
    assert_eq!(l.line().cursor(), 6);
    let l = CommandLine::new(InputType::Exec, "añ→".to_string());
    assert_eq!(l.line().cursor(), 3);
    assert_eq!(l.kind(), InputType::Exec);
}

#[test]
fn insert_char_goes_where_the_cursor_stands() {
    let mut l = line("ac");
    l.handle(EditRequest::GoToPrevChar);
    l.handle(EditRequest::InsertChar('b'));
    assert_eq!(l.value(), "abc");
    assert_eq!(l.line().cursor(), 2);
    l.handle(EditRequest::GoToEnd);
    l.handle(EditRequest::InsertChar('d'));
    assert_eq!(l.value(), "abcd");
    assert_eq!(l.line().cursor(), 4);
    l.handle(EditRequest::GoToStart);
    l.handle(EditRequest::InsertChar('→'));
    assert_eq!(l.value(), "→abcd");
    assert_eq!(l.line().cursor(), 1);
}

#[test]
fn each_request_reaches_the_line_buffer() {
    let mut l = line("one two three");
    l.handle(EditRequest::GoToPrevWord);
    assert_eq!(l.line().cursor(), 8);
    l.handle(EditRequest::GoToPrevChar);
    assert_eq!(l.line().cursor(), 7);
    l.handle(EditRequest::GoToNextChar);
    assert_eq!(l.line().cursor(), 8);
    l.handle(EditRequest::GoToStart);
    assert_eq!(l.line().cursor(), 0);
    l.handle(EditRequest::GoToNextWord);
    assert_eq!(l.line().cursor(), 4);
    l.handle(EditRequest::DeleteNextWord);
    assert_eq!(l.value(), "one three");
    l.handle(EditRequest::DeletePrevWord);
    assert_eq!(l.value(), "three");
    l.handle(EditRequest::DeleteNextChar);
    assert_eq!(l.value(), "hree");
    l.handle(EditRequest::GoToEnd);
    assert_eq!(l.line().cursor(), 4);
    l.handle(EditRequest::DeletePrevChar);
    assert_eq!(l.value(), "hre");
    l.handle(EditRequest::GoToPrevChar);
    l.handle(EditRequest::DeleteTillEnd);
    assert_eq!(l.value(), "hr");
    l.handle(EditRequest::DeleteLine);
    assert_eq!(l.value(), "");
    assert_eq!(l.line().cursor(), 0);
    assert_eq!(l.kind(), InputType::Query);
}

#[test]
fn requests_at_the_ends_do_nothing() {
    let mut l = line("");
    l.handle(EditRequest::DeletePrevChar);
    l.handle(EditRequest::DeleteNextChar);
    l.handle(EditRequest::GoToPrevChar);
    l.handle(EditRequest::GoToNextChar);
    l.handle(EditRequest::DeletePrevWord);
    l.handle(EditRequest::DeleteNextWord);
    l.handle(EditRequest::DeleteLine);
    l.handle(EditRequest::DeleteTillEnd);
    assert_eq!(l.value(), "");
    assert_eq!(l.line().cursor(), 0);
}
