//! The command line while it is being typed: the kind of command it was
//! opened for and the line buffer, which `tui_input` edits.

use vstd::prelude::*;
use vstd::string::StringExecFns;
pub use crate::error::ConvertError;

verus! {

/// The kind of a command.
#[derive(Clone, Copy, Debug, PartialEq, Eq, Structural)]
pub enum InputType {
    /// A statement that is executed for its effect.
    Exec,
    /// A query whose result is shown in a new tab.
    Query,
}

/// The kind that a keyword names, if it names one. Keywords are matched
/// exactly and with case.
pub open spec fn kind_named(word: Seq<char>) -> Option<InputType> {
    if word == "exec"@ {
        Some(InputType::Exec)
    } else if word == "query"@ {
        Some(InputType::Query)
    } else {
        None
    }
}

impl InputType {
    /// The keyword of this kind.
    pub open spec fn keyword(&self) -> Seq<char> {
        match self {
            InputType::Exec => "exec"@,
            InputType::Query => "query"@,
        }
    }

    /// The keyword of this kind.
    pub fn to_string(&self) -> (word: String)
        ensures
            word@ == self.keyword(),
    {
        match self {
            InputType::Exec => String::from_str("exec"),
            InputType::Query => String::from_str("query"),
        }
    }

    /// The kind that `value` names, or the word itself as an error.
    pub fn try_from(value: &str) -> (kind: Result<InputType, ConvertError>)
        ensures
            match kind {
                Ok(kind) => kind_named(value@) == Some(kind),
                Err(ConvertError::InputTypeError(word)) => kind_named(value@) is None && word@
                    == value@,
                Err(ConvertError::ConvertError) => false,
            },
    {
        let word = String::from_str(value);
        if word == String::from_str("exec") {
            Ok(InputType::Exec)
        } else if word == String::from_str("query") {
            Ok(InputType::Query)
        } else {
            Err(ConvertError::InputTypeError(word))
        }
    }
}

/// A request to edit the line or to move its cursor.
#[derive(Clone, Copy, Debug, PartialEq, Eq)]
pub enum EditRequest {
    InsertChar(char),
    GoToPrevChar,
    GoToNextChar,
    GoToPrevWord,
    GoToNextWord,
    GoToStart,
    GoToEnd,
    DeletePrevChar,
    DeleteNextChar,
    DeletePrevWord,
    DeleteNextWord,
    DeleteLine,
    DeleteTillEnd,
}

/// `tui_input::Input`, the line buffer: a text and a cursor in it. What it
/// holds is spoken of through `line_text` and `line_cursor`.
#[verifier::external_type_specification]
#[verifier::external_body]
pub struct ExLine(tui_input::Input);

/// The characters that a line buffer holds.
pub uninterp spec fn line_text(line: tui_input::Input) -> Seq<char>;

/// The position of a line buffer's cursor, counted in characters.
pub uninterp spec fn line_cursor(line: tui_input::Input) -> nat;

/// The text and the cursor of a line buffer after it has handled a request.
pub uninterp spec fn line_after(text: Seq<char>, cursor: nat, request: EditRequest) -> (
    Seq<char>,
    nat,
);

/// `tui_input::Input::new`: the buffer holds the given text, and its cursor
/// stands behind the last character.
pub assume_specification[ tui_input::Input::new ](value: String) -> (line: tui_input::Input)
    ensures
        line_text(line) == value@,
        line_cursor(line) == value@.len(),
;

/// `tui_input::Input::value`: the text that the buffer holds.
pub assume_specification[ tui_input::Input::value ](line: &tui_input::Input) -> (text: &str)
    ensures
        text@ == line_text(*line),
;

/// `tui_input::Input::cursor`: the position of the cursor, in characters.
pub assume_specification[ tui_input::Input::cursor ](line: &tui_input::Input) -> (cursor: usize)
    ensures
        cursor == line_cursor(*line),
;

/// `tui_input::Input::handle`, for a buffer whose cursor stands within its
/// text: the call returns, and text and cursor after the request depend on
/// text and cursor before it and on the request alone. The cursor stays
/// within the text, and an inserted character goes where the cursor stood,
/// which then moves behind it.
#[verifier::external_body]
fn handle_request(line: &mut tui_input::Input, request: EditRequest)
    requires
        line_cursor(*old(line)) <= line_text(*old(line)).len(),
    ensures
        (line_text(*final(line)), line_cursor(*final(line))) == line_after(
            line_text(*old(line)),
            line_cursor(*old(line)),
            request,
        ),
        line_cursor(*final(line)) <= line_text(*final(line)).len(),
        request matches EditRequest::InsertChar(c) ==> line_text(*final(line)) == line_text(
            *old(line),
        ).insert(line_cursor(*old(line)) as int, c) && line_cursor(*final(line)) == line_cursor(
            *old(line),
        ) + 1,
    no_unwind
{
    line.handle(match request {
        EditRequest::InsertChar(c) => tui_input::InputRequest::InsertChar(c),
        EditRequest::GoToPrevChar => tui_input::InputRequest::GoToPrevChar,
        EditRequest::GoToNextChar => tui_input::InputRequest::GoToNextChar,
        EditRequest::GoToPrevWord => tui_input::InputRequest::GoToPrevWord,
        EditRequest::GoToNextWord => tui_input::InputRequest::GoToNextWord,
        EditRequest::GoToStart => tui_input::InputRequest::GoToStart,
        EditRequest::GoToEnd => tui_input::InputRequest::GoToEnd,
        EditRequest::DeletePrevChar => tui_input::InputRequest::DeletePrevChar,
        EditRequest::DeleteNextChar => tui_input::InputRequest::DeleteNextChar,
        EditRequest::DeletePrevWord => tui_input::InputRequest::DeletePrevWord,
        EditRequest::DeleteNextWord => tui_input::InputRequest::DeleteNextWord,
        EditRequest::DeleteLine => tui_input::InputRequest::DeleteLine,
        EditRequest::DeleteTillEnd => tui_input::InputRequest::DeleteTillEnd,
    });
}

/// What a command line holds.
pub ghost struct LineView {
    /// The text typed so far.
    pub text: Seq<char>,
    /// The position of the cursor in the text, counted in characters.
    pub cursor: nat,
    /// The kind of command that the line was opened for.
    pub kind: InputType,
}

impl LineView {
    /// The line after `tui_input` has handled `request`.
    pub open spec fn edited(self, request: EditRequest) -> LineView {
        LineView {
            text: line_after(self.text, self.cursor, request).0,
            cursor: line_after(self.text, self.cursor, request).1,
            kind: self.kind,
        }
    }
}

/// The command line being typed.
pub struct CommandLine {
    input: tui_input::Input,
    kind: InputType,
}

impl View for CommandLine {
    type V = LineView;

    closed spec fn view(&self) -> LineView {
        LineView { text: line_text(self.input), cursor: line_cursor(self.input), kind: self.kind }
    }
}

impl CommandLine {
    #[verifier::type_invariant]
    spec fn cursor_within_text(&self) -> bool {
        line_cursor(self.input) <= line_text(self.input).len()
    }

    /// A command line of the given kind that starts out with `value`, the
    /// cursor behind it.
    pub fn new(kind: InputType, value: String) -> (input: CommandLine)
        ensures
            input@ == (LineView { text: value@, cursor: value@.len(), kind }),
    {
        CommandLine { input: tui_input::Input::new(value), kind }
    }

    /// Hands an edit request to the line buffer. An inserted character goes
    /// where the cursor stood, which then moves behind it; what any other
    /// request does to text and cursor is up to `tui_input`.
    pub fn handle(&mut self, event: EditRequest)
        ensures
            final(self)@ == old(self)@.edited(event),
            final(self)@.cursor <= final(self)@.text.len(),
            event matches EditRequest::InsertChar(c) ==> final(self)@.text == old(
                self,
            )@.text.insert(old(self)@.cursor as int, c) && final(self)@.cursor == old(self)@.cursor
                + 1,
    {
        proof {
            use_type_invariant(&*self);
        }
        handle_request(&mut self.input, event);
    }

    /// The text typed so far.
    pub fn value(&self) -> (text: &str)
        ensures
            text@ == self@.text,
    {
        self.input.value()
    }

    /// The kind of command that the line was opened for.
    pub fn kind(&self) -> (kind: InputType)
        ensures
            kind == self@.kind,
    {
        self.kind
    }

    /// The line buffer, for drawing it.
    pub fn line(&self) -> (line: &tui_input::Input)
        ensures
            line_text(*line) == self@.text,
            line_cursor(*line) == self@.cursor,
    {
        &self.input
    }
}

} // verus!
