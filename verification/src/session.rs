//! The session: the tabs, the active tab, the mode, the command line and the
//! last error, and what each key and each answer of the data source does to
//! them.
//!
//! The session never talks to the data source itself. Where it needs rows it
//! hands out a `Request`; whoever runs the session performs it and hands the
//! outcome back as a `Reply`, to `Qb::resume`, which says what is asked for
//! next.

use vstd::prelude::*;
use vstd::string::StringExecFns;
use crate::command::{command_args, command_fault, command_kind, parse_command};
use crate::config::{Config, InputAction, MainAction, MainActionView, Mode, ZoomAction};
use crate::error::DataSourceError;
use crate::input::{CommandLine, EditRequest, InputType, LineView};
use crate::keys::{KeyBind, KeyCode, SHIFT};
use crate::rows::{rectangular, DbTable, ResultSet, TableOp, TableView, Value};

verus! {

/// What the session asks of whoever runs it.
#[derive(Debug, PartialEq, Eq)]
pub enum Request {
    /// Nothing.
    Nothing,
    /// End the session.
    Quit,
    /// Tab `index` has no rows yet: run `query` and hand the outcome back as
    /// `Reply::Loaded`, together with the key that asked, if a key did.
    Load { index: usize, query: String },
    /// Run `query` for tab `index` again and hand the outcome back as
    /// `Reply::Loaded`.
    Reload { index: usize, query: String },
    /// Run the query and hand the outcome back as `Reply::Queried`.
    Query(String),
    /// Execute the statement and hand the outcome back as `Reply::Executed`.
    Exec(String),
}

/// A `Request` with its text as a sequence of characters.
pub ghost enum RequestView {
    Nothing,
    Quit,
    Load { index: nat, query: Seq<char> },
    Reload { index: nat, query: Seq<char> },
    Query(Seq<char>),
    Exec(Seq<char>),
}

impl View for Request {
    type V = RequestView;

    open spec fn view(&self) -> RequestView {
        match self {
            Request::Nothing => RequestView::Nothing,
            Request::Quit => RequestView::Quit,
            Request::Load { index, query } => RequestView::Load {
                index: *index as nat,
                query: query@,
            },
            Request::Reload { index, query } => RequestView::Reload {
                index: *index as nat,
                query: query@,
            },
            Request::Query(query) => RequestView::Query(query@),
            Request::Exec(statement) => RequestView::Exec(statement@),
        }
    }
}

/// What the data source answered to a request.
#[derive(Debug)]
pub enum Reply {
    /// The outcome of the query of a `Request::Load` or `Request::Reload` for
    /// tab `index`.
    Loaded { index: usize, result: Result<ResultSet, DataSourceError> },
    /// The outcome of the query of a `Request::Query`.
    Queried { query: String, result: Result<ResultSet, DataSourceError> },
    /// The outcome of the statement of a `Request::Exec`.
    Executed { outcome: Result<(), DataSourceError> },
}

/// The query that fetches all rows and columns of a table.
pub open spec fn select_all(title: Seq<char>) -> Seq<char> {
    "SELECT * FROM "@ + title
}

/// What is wrong with an answer in which a row does not hold one value for
/// each column.
pub open spec fn ragged_fault() -> Seq<char> {
    "Malformed result: a row does not match the columns"@
}

/// The title of a tab that shows the result of a typed query.
pub open spec fn custom_title() -> Seq<char> {
    "custom search"@
}

/// The character that a key types into the command line when nothing else
/// is bound to it: that of the key of a character that is no control
/// character, with no modifier but shift.
pub open spec fn types_char(key: KeyBind) -> Option<char> {
    match key.key {
        KeyCode::Char(c) => if key.modifiers & !SHIFT == 0 && !is_control(c) {
            Some(c)
        } else {
            None
        },
        _ => None,
    }
}

/// Whether `c` is a control character.
pub open spec fn is_control(c: char) -> bool {
    (c as u32) < 0x20 || 0x7f <= (c as u32) < 0xa0
}

/// The state of a session.
#[verifier::ext_equal]
pub ghost struct SessionView {
    /// The titles of the tabs.
    pub titles: Seq<Seq<char>>,
    /// The table of each tab, where it has been fetched.
    pub tables: Seq<Option<TableView>>,
    /// The active tab.
    pub index: nat,
    /// The mode.
    pub mode: Mode,
    /// The command line, while one is typed.
    pub input: Option<LineView>,
    /// What went wrong last.
    pub last_err: Option<Seq<char>>,
}

impl SessionView {
    /// There is a tab, each tab has a title, the active tab is one of them,
    /// every fetched table is valid, and there is a command line exactly
    /// while the mode is `Input`.
    pub open spec fn wf(self) -> bool {
        &&& self.titles.len() == self.tables.len()
        &&& self.index < self.tables.len()
        &&& forall|i: int|
            0 <= i < self.tables.len() ==> (#[trigger] self.tables[i] matches Some(table)
                ==> table.wf())
        &&& self.mode == Mode::Input <==> self.input is Some
    }

    /// A session over tabs with the given titles, none of them fetched, the
    /// first one active.
    pub open spec fn start(titles: Seq<Seq<char>>) -> SessionView {
        SessionView {
            titles,
            tables: Seq::new(titles.len(), |i: int| None),
            index: 0,
            mode: Mode::Main,
            input: None,
            last_err: None,
        }
    }

    /// The table of the active tab, where it has been fetched.
    pub open spec fn active(self) -> Option<TableView> {
        self.tables[self.index as int]
    }

    /// The request to fetch tab `index`.
    pub open spec fn load(self, index: nat) -> RequestView {
        RequestView::Load { index, query: select_all(self.titles[index as int]) }
    }

    /// The request to fetch the active tab again.
    pub open spec fn reload(self) -> RequestView {
        RequestView::Reload { index: self.index, query: select_all(self.titles[self.index as int]) }
    }

    /// The request to fetch the active tab, where it has not been fetched.
    pub open spec fn pending(self) -> RequestView {
        if self.active() is Some {
            RequestView::Nothing
        } else {
            self.load(self.index)
        }
    }

    /// The session with the next tab active, the first one after the last.
    pub open spec fn next(self) -> SessionView {
        SessionView {
            index: if self.index + 1 < self.tables.len() {
                self.index + 1
            } else {
                0
            },
            ..self
        }
    }

    /// The session with the previous tab active, the last one before the
    /// first.
    pub open spec fn prev(self) -> SessionView {
        SessionView {
            index: if self.index > 0 {
                (self.index - 1) as nat
            } else {
                (self.tables.len() - 1) as nat
            },
            ..self
        }
    }

    /// The session with the last tab active.
    pub open spec fn tab_last(self) -> SessionView {
        SessionView { index: (self.tables.len() - 1) as nat, ..self }
    }

    /// The session with tab `i` active, where there is such a tab.
    pub open spec fn set(self, i: nat) -> SessionView {
        if i < self.tables.len() {
            SessionView { index: i, ..self }
        } else {
            self
        }
    }

    /// Making tab `index` the active one: done where its table has been
    /// fetched, and asked for where it has not.
    pub open spec fn activate(self, index: nat) -> (SessionView, RequestView) {
        if index >= self.tables.len() {
            (self, RequestView::Nothing)
        } else if self.tables[index as int] is Some {
            (SessionView { index, ..self }, RequestView::Nothing)
        } else {
            (self, self.load(index))
        }
    }

    /// The session with `table` in place of the active table.
    pub open spec fn with_active(self, table: TableView) -> SessionView {
        SessionView { tables: self.tables.update(self.index as int, Some(table)), ..self }
    }

    /// The session with the fresh result of the table's own query as the
    /// table of tab `index`.
    pub open spec fn populate_table(self, index: nat, scheme: Seq<String>, entries: Seq<Vec<Value>>) -> SessionView {
        SessionView {
            tables: self.tables.update(
                index as int,
                Some(TableView::fresh(select_all(self.titles[index as int]), scheme, entries)),
            ),
            ..self
        }
    }

    /// The session with one more tab, which shows the result of `query` and
    /// is the active one.
    pub open spec fn custom_seach(self, query: Seq<char>, scheme: Seq<String>, entries: Seq<Vec<Value>>) -> SessionView {
        SessionView {
            titles: self.titles.push(custom_title()),
            tables: self.tables.push(Some(TableView::fresh(query, scheme, entries))),
            index: self.tables.len(),
            ..self
        }
    }

    /// The session with `message` as what went wrong last.
    pub open spec fn fail(self, message: Seq<char>) -> SessionView {
        SessionView { last_err: Some(message), ..self }
    }

    /// The session with a command line of the given kind opened on `text`.
    pub open spec fn open_input(self, kind: InputType, text: Seq<char>) -> SessionView {
        SessionView {
            input: Some(LineView { text, cursor: text.len(), kind }),
            mode: Mode::Input,
            last_err: None,
            ..self
        }
    }

    /// The session back in `Main` mode, without a command line.
    pub open spec fn close_input(self) -> SessionView {
        SessionView { input: None, mode: Mode::Main, ..self }
    }
}

/// What a step of browsing the active table does: the table takes the step,
/// or, where it has not been fetched, it is asked for.
pub open spec fn browse(s: SessionView, op: TableOp) -> (SessionView, RequestView) {
    match s.active() {
        Some(table) => (s.with_active(table.apply(op)), RequestView::Nothing),
        None => (s, s.load(s.index)),
    }
}

/// What the action that enters `Zoom` mode does: the mode changes where a
/// row is selected.
pub open spec fn enter_zoom(s: SessionView) -> (SessionView, RequestView) {
    match s.active() {
        Some(table) => if table.selected is Some {
            (SessionView { mode: Mode::Zoom, ..s }, RequestView::Nothing)
        } else {
            (s, RequestView::Nothing)
        },
        None => (s, s.load(s.index)),
    }
}

/// What the action that opens the command line for a query does: the line
/// starts out with the keyword, a space and the query of the active table.
pub open spec fn input_current(s: SessionView, keyword: Seq<char>) -> (SessionView, RequestView) {
    match s.active() {
        Some(table) => (
            s.open_input(InputType::Query, keyword + seq![' '] + table.search),
            RequestView::Nothing,
        ),
        None => (s, s.load(s.index)),
    }
}

/// What an action of `Main` mode does. In any other mode it does nothing.
pub open spec fn main_step(s: SessionView, action: MainActionView) -> (SessionView, RequestView) {
    if s.mode != Mode::Main {
        (s, RequestView::Nothing)
    } else {
        main_action(s, action)
    }
}

/// What an action of `Main` mode does in that mode.
pub open spec fn main_action(s: SessionView, action: MainActionView) -> (SessionView, RequestView) {
    match action {
        MainActionView::Next => browse(s, TableOp::Next),
        MainActionView::Prev => browse(s, TableOp::Prev),
        MainActionView::Hnext => browse(s, TableOp::Hnext),
        MainActionView::Hprev => browse(s, TableOp::Hprev),
        MainActionView::First => browse(s, TableOp::First),
        MainActionView::Last => browse(s, TableOp::Last),
        MainActionView::Tnext => (s.next(), RequestView::Nothing),
        MainActionView::Tprev => (s.prev(), RequestView::Nothing),
        MainActionView::Reload => (s, s.reload()),
        MainActionView::Zoom => enter_zoom(s),
        MainActionView::InputCurrent(keyword) => input_current(s, keyword),
        MainActionView::Input(text) => (s.open_input(InputType::Exec, text), RequestView::Nothing),
        MainActionView::Quit => (s, RequestView::Quit),
        MainActionView::Search => (s, RequestView::Nothing),
    }
}

/// What an action of `Zoom` mode does. In any other mode it does nothing.
pub open spec fn zoom_step(s: SessionView, action: ZoomAction) -> (SessionView, RequestView) {
    if s.mode != Mode::Zoom {
        (s, RequestView::Nothing)
    } else {
        zoom_action(s, action)
    }
}

/// What an action of `Zoom` mode does in that mode.
pub open spec fn zoom_action(s: SessionView, action: ZoomAction) -> (SessionView, RequestView) {
    match action {
        ZoomAction::Back => (SessionView { mode: Mode::Main, ..s }, RequestView::Nothing),
        ZoomAction::ZoomIn => browse(s, TableOp::ZoomIn),
        ZoomAction::ZoomOut => browse(s, TableOp::ZoomOut),
        ZoomAction::Next => browse(s, TableOp::ZoomNext),
        ZoomAction::Prev => browse(s, TableOp::ZoomPrev),
    }
}

/// What submitting the command line does: the line is parsed and closed; a
/// line that parses asks for its statement or query to be run, and one that
/// does not leaves its fault as the last error.
pub open spec fn submit(s: SessionView) -> (SessionView, RequestView) {
    match s.input {
        Some(line) => match command_kind(line.text) {
            Some(InputType::Exec) => (s.close_input(), RequestView::Exec(command_args(line.text))),
            Some(InputType::Query) => (
                s.close_input(),
                RequestView::Query(command_args(line.text)),
            ),
            None => (s.close_input().fail(command_fault(line.text)), RequestView::Nothing),
        },
        None => (s, RequestView::Nothing),
    }
}

/// What an edit request does: the command line handles it.
pub open spec fn edit(s: SessionView, request: EditRequest) -> SessionView {
    match s.input {
        Some(line) => SessionView { input: Some(line.edited(request)), ..s },
        None => s,
    }
}

/// What an action of `Input` mode does. In any other mode it does nothing.
pub open spec fn input_step(s: SessionView, action: InputAction) -> (SessionView, RequestView) {
    if s.mode != Mode::Input {
        (s, RequestView::Nothing)
    } else {
        input_action(s, action)
    }
}

/// What an action of `Input` mode does in that mode.
pub open spec fn input_action(s: SessionView, action: InputAction) -> (SessionView, RequestView) {
    match action {
        InputAction::Leave => (s.close_input(), RequestView::Nothing),
        InputAction::Enter => submit(s),
        _ => match action.request() {
            Some(request) => (edit(s, request), RequestView::Nothing),
            None => (s, RequestView::Nothing),
        },
    }
}

/// What a key does that the keymap of `Input` mode does not bind.
pub open spec fn type_key(s: SessionView, key: KeyBind) -> SessionView {
    match types_char(key) {
        Some(c) => edit(s, EditRequest::InsertChar(c)),
        None => s,
    }
}

/// What a key does: what the keymap of the mode binds it to; a key that is
/// not bound does nothing, but in `Input` mode, where it may type its
/// character.
pub open spec fn step(
    s: SessionView,
    main: Map<KeyBind, MainActionView>,
    zoom: Map<KeyBind, ZoomAction>,
    input: Map<KeyBind, InputAction>,
    key: KeyBind,
) -> (SessionView, RequestView) {
    let bound = key.normalized();
    match s.mode {
        Mode::Main => if main.dom().contains(bound) {
            main_step(s, main[bound])
        } else {
            (s, RequestView::Nothing)
        },
        Mode::Zoom => if zoom.dom().contains(bound) {
            zoom_step(s, zoom[bound])
        } else {
            (s, RequestView::Nothing)
        },
        Mode::Input => if input.dom().contains(bound) {
            input_step(s, input[bound])
        } else {
            (type_key(s, key), RequestView::Nothing)
        },
        Mode::Visual => (s, RequestView::Nothing),
    }
}

/// Whether an answer brings the rows of a tab of the session: rows for a tab
/// that there is, each with one value for each column.
pub open spec fn brings_table(s: SessionView, reply: Reply) -> bool {
    reply matches Reply::Loaded { index, result: Ok(rows) } && rows.rectangular() && index
        < s.tables.len()
}

/// What an answer of the data source does: fetched rows become the table of
/// their tab, the result of a typed query becomes a new tab, which is made
/// the active one, and a failure becomes the last error and changes nothing
/// else. Rows that do not hold one value for each column are a failure.
pub open spec fn answered(s: SessionView, reply: Reply) -> SessionView {
    match reply {
        Reply::Loaded { index, result } => match result {
            Ok(rows) => if !rows.rectangular() {
                s.fail(ragged_fault())
            } else if index < s.tables.len() {
                s.populate_table(index as nat, rows.scheme@, rows.entries@)
            } else {
                s
            },
            Err(error) => s.fail(error.message@),
        },
        Reply::Queried { query, result } => match result {
            Ok(rows) => if !rows.rectangular() {
                s.fail(ragged_fault())
            } else {
                s.custom_seach(query@, rows.scheme@, rows.entries@)
            },
            Err(error) => s.fail(error.message@),
        },
        Reply::Executed { outcome } => match outcome {
            Ok(_) => s,
            Err(error) => s.fail(error.message@),
        },
    }
}

/// What an answer of the data source does where the call that asked is to be
/// taken up again: the answer is taken in, and where it brought the rows of
/// a tab and a key was waiting for them, that key is dispatched again.
pub open spec fn resumed(
    s: SessionView,
    main: Map<KeyBind, MainActionView>,
    zoom: Map<KeyBind, ZoomAction>,
    input: Map<KeyBind, InputAction>,
    key: Option<KeyBind>,
    reply: Reply,
) -> (SessionView, RequestView) {
    match key {
        Some(key) => if brings_table(s, reply) {
            step(answered(s, reply), main, zoom, input, key)
        } else {
            (answered(s, reply), RequestView::Nothing)
        },
        None => (answered(s, reply), RequestView::Nothing),
    }
}

/// The texts of some strings.
pub open spec fn texts(strings: Seq<String>) -> Seq<Seq<char>> {
    Seq::new(strings.len(), |i: int| strings[i]@)
}

/// The views of some tables.
pub open spec fn table_views(tables: Seq<Option<DbTable>>) -> Seq<Option<TableView>> {
    Seq::new(
        tables.len(),
        |i: int|
            match tables[i] {
                Some(table) => Some(table@),
                None => None,
            },
    )
}

/// The session controller.
pub struct Qb {
    titles: Vec<String>,
    tables: Vec<Option<DbTable>>,
    index: usize,
    mode: Mode,
    input: Option<CommandLine>,
    last_err: Option<String>,
}

impl View for Qb {
    type V = SessionView;

    closed spec fn view(&self) -> SessionView {
        SessionView {
            titles: texts(self.titles@),
            tables: table_views(self.tables@),
            index: self.index as nat,
            mode: self.mode,
            input: match self.input {
                Some(line) => Some(line@),
                None => None,
            },
            last_err: match self.last_err {
                Some(message) => Some(message@),
                None => None,
            },
        }
    }
}

impl Qb {
    /// The session is in a valid state.
    pub open spec fn wf(&self) -> bool {
        self@.wf()
    }

    /// A session over the tables with the given names. None of them is
    /// fetched yet; the first one is active.
    pub fn new(titles: Vec<String>) -> (qb: Qb)
        requires
            titles.len() > 0,
        ensures
            qb.wf(),
            qb@ == SessionView::start(texts(titles@)),
    {
        let mut tables: Vec<Option<DbTable>> = Vec::new();
        let mut i: usize = 0;
        while i < titles.len()
            invariant
                i <= titles.len(),
                tables.len() == i,
                forall|j: int| 0 <= j < i ==> tables[j] is None,
            decreases titles.len() - i,
        {
            tables.push(None);
            i = i + 1;
        }
        let qb = Qb { titles, tables, index: 0, mode: Mode::Main, input: None, last_err: None };
        proof {
            assert(qb@.tables =~= SessionView::start(texts(titles@)).tables);
        }
        qb
    }

    /// Makes the next tab the active one, the first one after the last.
    pub fn next(&mut self)
        requires
            old(self).wf(),
        ensures
            final(self).wf(),
            final(self)@ == old(self)@.next(),
    {
        proof {
            self.lemma_lengths();
            lemma_next_tab_is_mod(self@);
        }
        self.index = (self.index + 1) % self.titles.len();
    }

    /// Makes the previous tab the active one, the last one before the first.
    pub fn prev(&mut self)
        requires
            old(self).wf(),
        ensures
            final(self).wf(),
            final(self)@ == old(self)@.prev(),
    {
        if self.index > 0 {
            self.index -= 1;
        } else {
            self.index = self.titles.len() - 1;
        }
    }

    /// Makes the last tab the active one.
    pub fn tab_last(&mut self)
        requires
            old(self).wf(),
        ensures
            final(self).wf(),
            final(self)@ == old(self)@.tab_last(),
    {
        self.index = self.titles.len() - 1;
    }

    /// Makes tab `i` the active one. Does nothing where there is no such tab.
    pub fn set(&mut self, i: usize)
        requires
            old(self).wf(),
        ensures
            final(self).wf(),
            final(self)@ == old(self)@.set(i as nat),
    {
        if i < self.titles.len() {
            self.index = i;
        }
    }

    /// The first tab with the given title, or the number of tabs where none
    /// has it.
    pub fn title_index(self, title: String) -> (i: usize)
        ensures
            i <= self@.titles.len(),
            i < self@.titles.len() ==> self@.titles[i as int] == title@,
            forall|j: int| 0 <= j < i ==> self@.titles[j] != title@,
    {
        let mut i: usize = 0;
        while i < self.titles.len()
            invariant
                i <= self.titles.len(),
                forall|j: int| 0 <= j < i ==> self.titles[j]@ != title@,
            decreases self.titles.len() - i,
        {
            if self.titles[i] == title {
                return i;
            }
            i += 1;
        }
        i
    }

    /// The request to fetch the rows of tab `index`.
    fn load(&self, index: usize) -> (request: Request)
        requires
            self.wf(),
            index < self@.tables.len(),
        ensures
            request@ == self@.load(index as nat),
    {
        proof {
            self.lemma_lengths();
        }
        Request::Load {
            index,
            query: String::from_str("SELECT * FROM ").concat(self.titles[index].as_str()),
        }
    }

    /// The request to fetch the rows of the active tab again.
    pub fn reload(&self) -> (request: Request)
        requires
            self.wf(),
        ensures
            request@ == self@.reload(),
    {
        proof {
            self.lemma_lengths();
        }
        Request::Reload {
            index: self.index,
            query: String::from_str("SELECT * FROM ").concat(self.titles[self.index].as_str()),
        }
    }

    /// The request to fetch the rows of the active tab, where it has none
    /// yet.
    pub fn pending(&self) -> (request: Request)
        requires
            self.wf(),
        ensures
            request@ == self@.pending(),
    {
        proof {
            self.lemma_lengths();
        }
        if self.tables[self.index].is_some() {
            Request::Nothing
        } else {
            self.load(self.index)
        }
    }

    /// Makes tab `index` the active one where its table has been fetched,
    /// and asks for the table where it has not. Does nothing where there is
    /// no such tab.
    pub fn activate(&mut self, index: usize) -> (request: Request)
        requires
            old(self).wf(),
        ensures
            final(self).wf(),
            (final(self)@, request@) == old(self)@.activate(index as nat),
    {
        proof {
            self.lemma_lengths();
        }
        if index >= self.tables.len() {
            Request::Nothing
        } else if self.tables[index].is_some() {
            self.index = index;
            Request::Nothing
        } else {
            self.load(index)
        }
    }

    /// Gives tab `index` the fresh result of its own query as its table.
    pub fn populate_table(&mut self, index: usize, scheme: Vec<String>, entries: Vec<Vec<Value>>)
        requires
            old(self).wf(),
            index < old(self)@.tables.len(),
            rectangular(scheme@, entries@),
        ensures
            final(self).wf(),
            final(self)@ == old(self)@.populate_table(index as nat, scheme@, entries@),
    {
        proof {
            self.lemma_lengths();
        }
        let query = String::from_str("SELECT * FROM ").concat(self.titles[index].as_str());
        let table = DbTable::new(query, scheme, entries);
        self.tables[index] = Some(table);
        proof {
            assert(self@.tables =~= old(self)@.populate_table(
                index as nat,
                scheme@,
                entries@,
            ).tables);
        }
    }

    /// Adds a tab that shows the result of `query`, and makes it the active
    /// one.
    pub fn custom_seach(&mut self, query: &str, scheme: Vec<String>, entries: Vec<Vec<Value>>)
        requires
            old(self).wf(),
            rectangular(scheme@, entries@),
        ensures
            final(self).wf(),
            final(self)@ == old(self)@.custom_seach(query@, scheme@, entries@),
    {
        proof {
            self.lemma_lengths();
        }
        let table = DbTable::new(String::from_str(query), scheme, entries);
        self.tables.push(Some(table));
        self.titles.push(String::from_str("custom search"));
        self.index = self.titles.len() - 1;
        proof {
            let after = old(self)@.custom_seach(query@, scheme@, entries@);
            assert(self@.tables =~= after.tables);
            assert(self@.titles =~= after.titles);
        }
    }

    /// Records what went wrong.
    pub fn fail(&mut self, message: String)
        requires
            old(self).wf(),
        ensures
            final(self).wf(),
            final(self)@ == old(self)@.fail(message@),
    {
        self.last_err = Some(message);
    }

    /// Takes in an answer of the data source: fetched rows become the table
    /// of their tab, the result of a typed query becomes a new tab, which is
    /// made the active one, and a failure becomes the last error and changes
    /// nothing else. Rows that do not hold one value for each column are a
    /// failure.
    pub fn resolve(&mut self, reply: Reply)
        requires
            old(self).wf(),
        ensures
            final(self).wf(),
            final(self)@ == answered(old(self)@, reply),
    {
        proof {
            self.lemma_lengths();
        }
        match reply {
            Reply::Loaded { index, result } => match result {
                Ok(rows) => if !rows.is_rectangular() {
                    self.fail(String::from_str("Malformed result: a row does not match the columns"));
                } else if index < self.tables.len() {
                    self.populate_table(index, rows.scheme, rows.entries);
                },
                Err(error) => self.fail(error.message),
            },
            Reply::Queried { query, result } => match result {
                Ok(rows) => if !rows.is_rectangular() {
                    self.fail(String::from_str("Malformed result: a row does not match the columns"));
                } else {
                    self.custom_seach(query.as_str(), rows.scheme, rows.entries);
                },
                Err(error) => self.fail(error.message),
            },
            Reply::Executed { outcome } => match outcome {
                Ok(_) => {},
                Err(error) => self.fail(error.message),
            },
        }
    }

    /// Takes a step of browsing the active table, or asks for the table
    /// where it has not been fetched.
    pub fn browse(&mut self, op: TableOp) -> (request: Request)
        requires
            old(self).wf(),
        ensures
            final(self).wf(),
            (final(self)@, request@) == browse(old(self)@, op),
    {
        proof {
            self.lemma_lengths();
        }
        if self.tables[self.index].is_none() {
            return self.load(self.index);
        }
        match &mut self.tables[self.index] {
            Some(table) => table.apply(op),
            None => {},
        }
        proof {
            let table = old(self)@.active()->0;
            assert(self@.tables =~= old(self)@.with_active(table.apply(op)).tables);
        }
        Request::Nothing
    }

    /// Opens a command line of the given kind on `text` and forgets the last
    /// error.
    fn open_input(&mut self, kind: InputType, text: String)
        requires
            old(self).wf(),
        ensures
            final(self).wf(),
            final(self)@ == old(self)@.open_input(kind, text@),
    {
        self.input = Some(CommandLine::new(kind, text));
        self.mode = Mode::Input;
        self.last_err = None;
    }

    /// Closes the command line and goes back to `Main` mode.
    fn close_input(&mut self)
        requires
            old(self).wf(),
        ensures
            final(self).wf(),
            final(self)@ == old(self)@.close_input(),
    {
        self.input = None;
        self.mode = Mode::Main;
    }

    /// Does what an action of `Main` mode asks for.
    pub fn main_action(&mut self, action: &MainAction) -> (request: Request)
        requires
            old(self).wf(),
        ensures
            final(self).wf(),
            (final(self)@, request@) == main_step(old(self)@, action@),
    {
        proof {
            self.lemma_lengths();
        }
        if self.mode != Mode::Main {
            return Request::Nothing;
        }
        match action {
            MainAction::Next => self.browse(TableOp::Next),
            MainAction::Prev => self.browse(TableOp::Prev),
            MainAction::Hnext => self.browse(TableOp::Hnext),
            MainAction::Hprev => self.browse(TableOp::Hprev),
            MainAction::First => self.browse(TableOp::First),
            MainAction::Last => self.browse(TableOp::Last),
            MainAction::Tnext => {
                self.next();
                Request::Nothing
            },
            MainAction::Tprev => {
                self.prev();
                Request::Nothing
            },
            MainAction::Reload => self.reload(),
            MainAction::Zoom => {
                match &self.tables[self.index] {
                    Some(table) => {
                        if table.selected().is_some() {
                            self.mode = Mode::Zoom;
                        }
                        Request::Nothing
                    },
                    None => self.load(self.index),
                }
            },
            MainAction::InputCurrent(keyword) => {
                match &self.tables[self.index] {
                    Some(table) => {
                        let text = keyword.clone().concat(" ").concat(table.search().as_str());
                        proof {
                            reveal_strlit(" ");
                            assert(" "@ =~= seq![' ']);
                        }
                        self.open_input(InputType::Query, text);
                        Request::Nothing
                    },
                    None => self.load(self.index),
                }
            },
            MainAction::Input(text) => {
                self.open_input(InputType::Exec, text.clone());
                Request::Nothing
            },
            MainAction::Quit => Request::Quit,
            MainAction::Search => Request::Nothing,
        }
    }

    /// Does what an action of `Zoom` mode asks for.
    pub fn zoom_action(&mut self, action: ZoomAction) -> (request: Request)
        requires
            old(self).wf(),
        ensures
            final(self).wf(),
            (final(self)@, request@) == zoom_step(old(self)@, action),
    {
        if self.mode != Mode::Zoom {
            return Request::Nothing;
        }
        match action {
            ZoomAction::Back => {
                self.mode = Mode::Main;
                Request::Nothing
            },
            ZoomAction::ZoomIn => self.browse(TableOp::ZoomIn),
            ZoomAction::ZoomOut => self.browse(TableOp::ZoomOut),
            ZoomAction::Next => self.browse(TableOp::ZoomNext),
            ZoomAction::Prev => self.browse(TableOp::ZoomPrev),
        }
    }

    /// Hands an edit request to the command line, if there is one.
    pub fn edit(&mut self, request: EditRequest)
        requires
            old(self).wf(),
        ensures
            final(self).wf(),
            final(self)@ == edit(old(self)@, request),
    {
        match &mut self.input {
            Some(line) => line.handle(request),
            None => {},
        }
    }

    /// Submits the command line: the line is parsed and closed. A line that
    /// parses asks for its statement or query to be run; one that does not
    /// leaves its fault as the last error.
    pub fn submit(&mut self) -> (request: Request)
        requires
            old(self).wf(),
        ensures
            final(self).wf(),
            (final(self)@, request@) == submit(old(self)@),
    {
        let parsed = match &self.input {
            Some(line) => parse_command(line.value()),
            None => {
                return Request::Nothing;
            },
        };
        self.close_input();
        match parsed {
            Ok((InputType::Exec, args)) => Request::Exec(args),
            Ok((InputType::Query, args)) => Request::Query(args),
            Err(error) => {
                self.fail(error.to_string());
                Request::Nothing
            },
        }
    }

    /// Does what an action of `Input` mode asks for.
    pub fn input_action(&mut self, action: InputAction) -> (request: Request)
        requires
            old(self).wf(),
        ensures
            final(self).wf(),
            (final(self)@, request@) == input_step(old(self)@, action),
    {
        if self.mode != Mode::Input {
            return Request::Nothing;
        }
        match action {
            InputAction::Leave => {
                self.close_input();
                Request::Nothing
            },
            InputAction::Enter => self.submit(),
            _ => {
                match action.to_request() {
                    Ok(request) => self.edit(request),
                    Err(_) => {},
                }
                Request::Nothing
            },
        }
    }

    /// Types the character of a key into the command line, where the key has
    /// one to type.
    pub fn type_key(&mut self, key: KeyBind)
        requires
            old(self).wf(),
        ensures
            final(self).wf(),
            final(self)@ == type_key(old(self)@, key),
    {
        match key.key {
            KeyCode::Char(c) => {
                let code = c as u32;
                let control = code < 0x20 || (0x7f <= code && code < 0xa0);
                if key.modifiers & !SHIFT == 0 && !control {
                    self.edit(EditRequest::InsertChar(c));
                }
            },
            _ => {},
        }
    }

    /// Does what `key` is bound to in the keymap of the mode. A key that is
    /// not bound does nothing, but in `Input` mode, where it may type its
    /// character.
    pub fn dispatch(&mut self, cfg: &Config, key: KeyBind) -> (request: Request)
        requires
            old(self).wf(),
        ensures
            final(self).wf(),
            (final(self)@, request@) == step(
                old(self)@,
                cfg.main@,
                cfg.zoom@,
                cfg.input@,
                key,
            ),
    {
        match self.mode {
            Mode::Main => match cfg.main.get(&key) {
                Some(action) => self.main_action(action),
                None => Request::Nothing,
            },
            Mode::Zoom => match cfg.zoom.get(&key) {
                Some(action) => self.zoom_action(*action),
                None => Request::Nothing,
            },
            Mode::Input => match cfg.input.get(&key) {
                Some(action) => self.input_action(*action),
                None => {
                    self.type_key(key);
                    Request::Nothing
                },
            },
            Mode::Visual => Request::Nothing,
        }
    }

    /// Takes in an answer of the data source and takes up the call that
    /// asked: where the answer brought the rows of a tab and `key` was
    /// waiting for them, `key` is dispatched again; otherwise nothing more
    /// is asked for.
    pub fn resume(&mut self, cfg: &Config, key: Option<KeyBind>, reply: Reply) -> (request:
        Request)
        requires
            old(self).wf(),
        ensures
            final(self).wf(),
            (final(self)@, request@) == resumed(
                old(self)@,
                cfg.main@,
                cfg.zoom@,
                cfg.input@,
                key,
                reply,
            ),
    {
        proof {
            self.lemma_lengths();
        }
        let brought = match &reply {
            Reply::Loaded { index, result } => match result {
                Ok(rows) => rows.is_rectangular() && *index < self.tables.len(),
                Err(_) => false,
            },
            _ => false,
        };
        self.resolve(reply);
        match key {
            Some(key) => if brought {
                self.dispatch(cfg, key)
            } else {
                Request::Nothing
            },
            None => Request::Nothing,
        }
    }

    /// The table of the active tab, where it has been fetched.
    pub fn selected(&self) -> (table: Option<&DbTable>)
        requires
            self.wf(),
        ensures
            match table {
                Some(table) => self@.active() == Some(table@) && table.wf(),
                None => self@.active() is None,
            },
    {
        proof {
            self.lemma_lengths();
        }
        self.tables[self.index].as_ref()
    }

    /// The table of the active tab, where it has been fetched, to browse it.
    /// What is done to the table is done to the session, and nothing else
    /// of the session changes.
    pub fn mutselected(&mut self) -> (table: Option<&mut DbTable>)
        requires
            old(self).wf(),
        ensures
            table is None ==> old(self)@.active() is None && final(self)@ =~= old(self)@,
            table matches Some(table) ==> old(self)@.active() == Some(table@),
            table matches Some(table) ==> final(self)@.tables =~= old(self)@.tables.update(
                old(self)@.index as int,
                Some(final(table)@),
            ),
            table matches Some(table) ==> final(self)@ =~= (SessionView {
                tables: final(self)@.tables,
                ..old(self)@
            }),
    {
        proof {
            self.lemma_lengths();
        }
        self.tables[self.index].as_mut()
    }

    /// The titles of the tabs.
    pub fn titles(&self) -> (titles: &Vec<String>)
        ensures
            texts(titles@) == self@.titles,
    {
        &self.titles
    }

    /// The active tab.
    pub fn index(&self) -> (index: usize)
        ensures
            index == self@.index,
    {
        self.index
    }

    /// The mode.
    pub fn mode(&self) -> (mode: Mode)
        ensures
            mode == self@.mode,
    {
        self.mode
    }

    /// The command line, while one is typed.
    pub fn input(&self) -> (input: Option<&CommandLine>)
        ensures
            match input {
                Some(line) => self@.input == Some(line@),
                None => self@.input is None,
            },
    {
        self.input.as_ref()
    }

    /// What went wrong last.
    pub fn last_err(&self) -> (message: Option<&String>)
        ensures
            match message {
                Some(message) => self@.last_err == Some(message@),
                None => self@.last_err is None,
            },
    {
        self.last_err.as_ref()
    }

    /// Whether the cursor of the terminal is to be shown: while the command
    /// line is typed.
    pub fn cursor_visible(&self) -> (visible: bool)
        ensures
            visible == (self@.mode == Mode::Input),
    {
        self.mode == Mode::Input
    }

    /// The view has as many titles and tables as the session holds.
    proof fn lemma_lengths(&self)
        ensures
            self@.titles.len() == self.titles.len(),
            self@.tables.len() == self.tables.len(),
            self@.index == self.index,
    {
    }
}

/// Making a tab active whose table has been fetched asks for nothing, and
/// doing it a second time changes nothing: the table is not fetched again.
pub proof fn lemma_activate_fetched(s: SessionView, index: nat)
    requires
        index < s.tables.len(),
        s.tables[index as int] is Some,
    ensures
        s.activate(index) == (SessionView { index, ..s }, RequestView::Nothing),
        s.activate(index).0.activate(index) == (s.activate(index).0, RequestView::Nothing),
{
}

/// Once the answer to the request for a tab has come in with rows, making
/// that tab active asks for nothing.
pub proof fn lemma_activate_after_load(s: SessionView, index: usize, rows: ResultSet)
    requires
        index < s.tables.len(),
        rows.rectangular(),
    ensures
        answered(s, Reply::Loaded { index, result: Ok(rows) }).activate(index as nat).1
            == RequestView::Nothing,
{
}

/// No key takes a fetched table away or adds a tab.
pub proof fn lemma_step_keeps_tables(
    s: SessionView,
    main: Map<KeyBind, MainActionView>,
    zoom: Map<KeyBind, ZoomAction>,
    input: Map<KeyBind, InputAction>,
    key: KeyBind,
    tab: int,
)
    requires
        s.wf(),
        0 <= tab < s.tables.len(),
    ensures
        step(s, main, zoom, input, key).0.titles == s.titles,
        step(s, main, zoom, input, key).0.tables.len() == s.tables.len(),
        s.tables[tab] is Some ==> step(s, main, zoom, input, key).0.tables[tab] is Some,
{
}

/// No answer of the data source takes a fetched table or a tab away.
pub proof fn lemma_answer_keeps_tables(s: SessionView, reply: Reply, tab: int)
    requires
        s.wf(),
        0 <= tab < s.tables.len(),
    ensures
        answered(s, reply).tables.len() >= s.tables.len(),
        s.tables[tab] is Some ==> answered(s, reply).tables[tab] is Some,
{
}

/// A key asks for the rows of a tab only where that tab is the active one
/// and has not been fetched.
pub proof fn lemma_load_only_unfetched(
    s: SessionView,
    main: Map<KeyBind, MainActionView>,
    zoom: Map<KeyBind, ZoomAction>,
    input: Map<KeyBind, InputAction>,
    key: KeyBind,
)
    requires
        s.wf(),
    ensures
        step(s, main, zoom, input, key).1 is Load ==> s.active() is None && step(
            s,
            main,
            zoom,
            input,
            key,
        ) == (s, s.load(s.index)),
{
}

/// Once the rows of the active tab have come in, the key that waited for
/// them asks for no rows of a tab again.
pub proof fn lemma_resumed_asks_for_no_load(
    s: SessionView,
    main: Map<KeyBind, MainActionView>,
    zoom: Map<KeyBind, ZoomAction>,
    input: Map<KeyBind, InputAction>,
    key: KeyBind,
    reply: Reply,
)
    requires
        s.wf(),
        brings_table(s, reply),
        reply matches Reply::Loaded { index, .. } && index == s.index,
    ensures
        !(resumed(s, main, zoom, input, Some(key), reply).1 is Load),
{
    let after = answered(s, reply);
    assert(after.wf());
    lemma_load_only_unfetched(after, main, zoom, input, key);
}

/// Going to the next tab as often as there are tabs leads back to the tab
/// that was active.
pub proof fn lemma_next_tab_cycle(s: SessionView)
    requires
        s.wf(),
    ensures
        next_by(s, s.tables.len()) == s,
{
    lemma_next_tab_steps(s, s.tables.len());
}

/// The session after going to the next tab `steps` times.
pub open spec fn next_by(s: SessionView, steps: nat) -> SessionView
    decreases steps,
{
    if steps == 0 {
        s
    } else {
        next_by(s, (steps - 1) as nat).next()
    }
}

/// Where `steps` steps to the next tab lead, for no more steps than tabs.
proof fn lemma_next_tab_steps(s: SessionView, steps: nat)
    requires
        s.wf(),
        steps <= s.tables.len(),
    ensures
        next_by(s, steps) == (SessionView {
            index: if s.index + steps < s.tables.len() {
                s.index + steps
            } else {
                (s.index + steps - s.tables.len()) as nat
            },
            ..s
        }),
    decreases steps,
{
    if steps > 0 {
        lemma_next_tab_steps(s, (steps - 1) as nat);
    }
}

/// The next tab is the one whose index is the remainder of the next index
/// by the number of tabs.
pub proof fn lemma_next_tab_is_mod(s: SessionView)
    requires
        s.wf(),
    ensures
        s.next().index == (s.index + 1) as int % (s.tables.len() as int),
{
    let count = s.tables.len();
    if s.index + 1 < count {
        vstd::arithmetic::div_mod::lemma_small_mod((s.index + 1) as nat, count);
    } else {
        vstd::arithmetic::div_mod::lemma_mod_self_0(count as int);
    }
}

} // verus!
