//! Modes, the actions of each mode, and the keymaps that bind keys to them.

use vstd::prelude::*;
use vstd::string::StringExecFns;
use crate::error::ConvertError;
use crate::input::EditRequest;
use crate::keys::{KeyBind, KeyCode, CONTROL, NONE};

verus! {

/// What a key can do while a table is browsed.
#[derive(Debug, PartialEq, Eq)]
pub enum MainAction {
    /// Select the next row.
    Next,
    /// Select the previous row.
    Prev,
    /// Show the columns further right.
    Hnext,
    /// Show the columns further left.
    Hprev,
    /// Go to the next tab.
    Tnext,
    /// Go to the previous tab.
    Tprev,
    /// Select the first row.
    First,
    /// Select the last row.
    Last,
    /// Zoom into the selected row.
    Zoom,
    /// Open the command line for a query, filled with this keyword and the
    /// query that the active table shows.
    InputCurrent(String),
    /// Open the command line for a statement, filled with this text.
    Input(String),
    /// Leave the program.
    Quit,
    /// Reserved.
    Search,
    /// Fetch the active table again.
    Reload,
}

/// A `MainAction` with its text as a sequence of characters.
pub ghost enum MainActionView {
    Next,
    Prev,
    Hnext,
    Hprev,
    Tnext,
    Tprev,
    First,
    Last,
    Zoom,
    InputCurrent(Seq<char>),
    Input(Seq<char>),
    Quit,
    Search,
    Reload,
}

impl View for MainAction {
    type V = MainActionView;

    open spec fn view(&self) -> MainActionView {
        match self {
            MainAction::Next => MainActionView::Next,
            MainAction::Prev => MainActionView::Prev,
            MainAction::Hnext => MainActionView::Hnext,
            MainAction::Hprev => MainActionView::Hprev,
            MainAction::Tnext => MainActionView::Tnext,
            MainAction::Tprev => MainActionView::Tprev,
            MainAction::First => MainActionView::First,
            MainAction::Last => MainActionView::Last,
            MainAction::Zoom => MainActionView::Zoom,
            MainAction::InputCurrent(keyword) => MainActionView::InputCurrent(keyword@),
            MainAction::Input(text) => MainActionView::Input(text@),
            MainAction::Quit => MainActionView::Quit,
            MainAction::Search => MainActionView::Search,
            MainAction::Reload => MainActionView::Reload,
        }
    }
}

/// What a key can do while a row is zoomed.
#[derive(Clone, Copy, Debug, PartialEq, Eq, Structural)]
pub enum ZoomAction {
    /// Leave the zoomed view.
    Back,
    /// Show one field less.
    ZoomIn,
    /// Show one field more.
    ZoomOut,
    /// Move to the next field.
    Next,
    /// Move to the previous field.
    Prev,
}

impl View for ZoomAction {
    type V = ZoomAction;

    open spec fn view(&self) -> ZoomAction {
        *self
    }
}

/// What a key can do while the command line is typed.
#[derive(Clone, Copy, Debug, PartialEq, Eq, Structural)]
pub enum InputAction {
    GoToPrevChar,
    GoToNextChar,
    GoToPrevWord,
    GoToNextWord,
    GoToStart,
    GoToEnd,
    DeletePrevChar,
    DeleteNextChar,
    DeletePrevWord,
    DeleteNextWord,
    DeleteLine,
    DeleteTillEnd,
    /// Submit the line.
    Enter,
    /// Give the line up.
    Leave,
}

impl View for InputAction {
    type V = InputAction;

    open spec fn view(&self) -> InputAction {
        *self
    }
}

impl InputAction {
    /// The edit request that this action stands for; `Enter` and `Leave`
    /// stand for none.
    pub open spec fn request(&self) -> Option<EditRequest> {
        match self {
            InputAction::GoToPrevChar => Some(EditRequest::GoToPrevChar),
            InputAction::GoToNextChar => Some(EditRequest::GoToNextChar),
            InputAction::GoToPrevWord => Some(EditRequest::GoToPrevWord),
            InputAction::GoToNextWord => Some(EditRequest::GoToNextWord),
            InputAction::GoToStart => Some(EditRequest::GoToStart),
            InputAction::GoToEnd => Some(EditRequest::GoToEnd),
            InputAction::DeletePrevChar => Some(EditRequest::DeletePrevChar),
            InputAction::DeleteNextChar => Some(EditRequest::DeleteNextChar),
            InputAction::DeletePrevWord => Some(EditRequest::DeletePrevWord),
            InputAction::DeleteNextWord => Some(EditRequest::DeleteNextWord),
            InputAction::DeleteLine => Some(EditRequest::DeleteLine),
            InputAction::DeleteTillEnd => Some(EditRequest::DeleteTillEnd),
            InputAction::Enter => None,
            InputAction::Leave => None,
        }
    }

    /// The edit request that this action stands for, or a `ConvertError` for
    /// `Enter` and `Leave`.
    pub fn to_request(&self) -> (request: Result<EditRequest, ConvertError>)
        ensures
            match request {
                Ok(request) => self.request() == Some(request),
                Err(error) => self.request() is None && error is ConvertError,
            },
    {
        match self {
            InputAction::GoToPrevChar => Ok(EditRequest::GoToPrevChar),
            InputAction::GoToNextChar => Ok(EditRequest::GoToNextChar),
            InputAction::GoToPrevWord => Ok(EditRequest::GoToPrevWord),
            InputAction::GoToNextWord => Ok(EditRequest::GoToNextWord),
            InputAction::GoToStart => Ok(EditRequest::GoToStart),
            InputAction::GoToEnd => Ok(EditRequest::GoToEnd),
            InputAction::DeletePrevChar => Ok(EditRequest::DeletePrevChar),
            InputAction::DeleteNextChar => Ok(EditRequest::DeleteNextChar),
            InputAction::DeletePrevWord => Ok(EditRequest::DeletePrevWord),
            InputAction::DeleteNextWord => Ok(EditRequest::DeleteNextWord),
            InputAction::DeleteLine => Ok(EditRequest::DeleteLine),
            InputAction::DeleteTillEnd => Ok(EditRequest::DeleteTillEnd),
            InputAction::Enter => Err(ConvertError::ConvertError),
            InputAction::Leave => Err(ConvertError::ConvertError),
        }
    }
}

/// The interaction context that decides what a key means.
#[derive(Clone, Copy, Debug, PartialEq, Eq, Hash, Structural)]
pub enum Mode {
    /// A table is browsed.
    Main,
    /// A row is zoomed.
    Zoom,
    /// The command line is typed.
    Input,
    /// Reserved; no key does anything.
    Visual,
}

impl Mode {
    /// The name of the mode.
    pub open spec fn name(&self) -> Seq<char> {
        match self {
            Mode::Main => "Main"@,
            Mode::Zoom => "Zoom"@,
            Mode::Input => "Input"@,
            Mode::Visual => "Visual"@,
        }
    }

    /// The name of the mode.
    pub fn to_string(&self) -> (name: String)
        ensures
            name@ == self.name(),
    {
        match self {
            Mode::Main => String::from_str("Main"),
            Mode::Zoom => String::from_str("Zoom"),
            Mode::Input => String::from_str("Input"),
            Mode::Visual => String::from_str("Visual"),
        }
    }
}

/// The map `base` with a list of bindings put over it: each binding maps the
/// normalized form of its key to its action, in place of what the key was
/// bound to before.
pub open spec fn overridden<A: View>(
    base: Map<KeyBind, A::V>,
    bindings: Seq<(KeyBind, A)>,
) -> Map<KeyBind, A::V>
    decreases bindings.len(),
{
    if bindings.len() == 0 {
        base
    } else {
        overridden(base, bindings.drop_last()).insert(
            bindings.last().0.normalized(),
            bindings.last().1@,
        )
    }
}

/// The map that a list of bindings stands for.
pub open spec fn bound_by<A: View>(bindings: Seq<(KeyBind, A)>) -> Map<KeyBind, A::V> {
    overridden(Map::empty(), bindings)
}

/// A key that no binding after position `from` matches is bound as the
/// bindings before `from` bind it.
proof fn lemma_unmatched_tail<A: View>(bindings: Seq<(KeyBind, A)>, from: int, key: KeyBind)
    requires
        0 <= from <= bindings.len(),
        forall|j: int| from <= j < bindings.len() ==> bindings[j].0.normalized() != key,
    ensures
        bound_by(bindings).dom().contains(key) == bound_by(bindings.take(from)).dom().contains(
            key,
        ),
        bound_by(bindings).dom().contains(key) ==> bound_by(bindings)[key] == bound_by(
            bindings.take(from),
        )[key],
    decreases bindings.len() - from,
{
    if from == bindings.len() {
        assert(bindings.take(from) =~= bindings);
    } else {
        lemma_unmatched_tail(bindings.drop_last(), from, key);
        assert(bindings.drop_last().take(from) =~= bindings.take(from));
    }
}

/// Putting one list of bindings over a map and then another is putting the
/// two lists, one after the other, over it.
proof fn lemma_overridden_twice<A: View>(
    base: Map<KeyBind, A::V>,
    first: Seq<(KeyBind, A)>,
    second: Seq<(KeyBind, A)>,
)
    ensures
        overridden(overridden(base, first), second) == overridden(base, first + second),
    decreases second.len(),
{
    if second.len() == 0 {
        assert(first + second =~= first);
    } else {
        lemma_overridden_twice(base, first, second.drop_last());
        assert((first + second).drop_last() =~= first + second.drop_last());
    }
}

/// Bindings put over a map leave every key alone that none of them names.
pub proof fn lemma_overridden_keeps_others<A: View>(
    base: Map<KeyBind, A::V>,
    bindings: Seq<(KeyBind, A)>,
    key: KeyBind,
)
    requires
        forall|j: int| 0 <= j < bindings.len() ==> !(#[trigger] bindings[j]).0.same_key(key),
    ensures
        overridden(base, bindings).dom().contains(key.normalized()) == base.dom().contains(
            key.normalized(),
        ),
        base.dom().contains(key.normalized()) ==> overridden(base, bindings)[key.normalized()]
            == base[key.normalized()],
    decreases bindings.len(),
{
    if bindings.len() > 0 {
        let last = bindings.last();
        assert(!last.0.same_key(key));
        crate::keys::lemma_normalized_twice(key);
        assert forall|j: int| 0 <= j < bindings.drop_last().len() implies !(
        #[trigger] bindings.drop_last()[j]).0.same_key(key) by {
            assert(bindings.drop_last()[j] == bindings[j]);
        }
        lemma_overridden_keeps_others(base, bindings.drop_last(), key);
    }
}

/// Of the bindings put over a map, the last one that names a key decides
/// what the key is bound to.
pub proof fn lemma_overridden_last_wins<A: View>(
    base: Map<KeyBind, A::V>,
    bindings: Seq<(KeyBind, A)>,
    at: int,
)
    requires
        0 <= at < bindings.len(),
        forall|j: int| at < j < bindings.len() ==> !(#[trigger] bindings[j]).0.same_key(bindings[at].0),
    ensures
        overridden(base, bindings).dom().contains(bindings[at].0.normalized()),
        overridden(base, bindings)[bindings[at].0.normalized()] == bindings[at].1@,
    decreases bindings.len(),
{
    crate::keys::lemma_normalized_twice(bindings[at].0);
    if at < bindings.len() - 1 {
        let last = bindings.last();
        assert(!last.0.same_key(bindings[at].0));
        assert forall|j: int| at < j < bindings.drop_last().len() implies !(
        #[trigger] bindings.drop_last()[j]).0.same_key(bindings.drop_last()[at].0) by {
            assert(bindings.drop_last()[j] == bindings[j]);
        }
        lemma_overridden_last_wins(base, bindings.drop_last(), at);
    }
}

/// The keys of one mode and what each of them does.
pub struct Keymap<A> {
    bindings: Vec<(KeyBind, A)>,
}

impl<A: View> View for Keymap<A> {
    type V = Map<KeyBind, A::V>;

    closed spec fn view(&self) -> Map<KeyBind, A::V> {
        bound_by(self.bindings@)
    }
}

impl<A: View> Keymap<A> {
    /// What `key` is bound to, if it is bound.
    pub open spec fn action(&self, key: KeyBind) -> Option<A::V> {
        if self@.dom().contains(key.normalized()) {
            Some(self@[key.normalized()])
        } else {
            None
        }
    }

    /// A keymap that binds no key.
    pub fn new() -> (keymap: Keymap<A>)
        ensures
            keymap@ == Map::<KeyBind, A::V>::empty(),
    {
        Keymap { bindings: Vec::new() }
    }

    /// Binds `key` to `action`, in place of what it was bound to before.
    pub fn insert(&mut self, key: KeyBind, action: A)
        ensures
            final(self)@ == old(self)@.insert(key.normalized(), action@),
    {
        self.bindings.push((key, action));
        proof {
            assert(self.bindings@.drop_last() =~= old(self).bindings@);
        }
    }

    /// Puts the given bindings, in their order, over those of the keymap:
    /// each of them binds its key in place of what it was bound to before,
    /// and every other key stays bound as it was.
    pub fn extend(&mut self, bindings: Vec<(KeyBind, A)>)
        ensures
            final(self)@ == overridden(old(self)@, bindings@),
    {
        let mut bindings = bindings;
        proof {
            lemma_overridden_twice(Map::empty(), self.bindings@, bindings@);
        }
        self.bindings.append(&mut bindings);
    }

    /// The action that `key` is bound to, if it is bound.
    pub fn get(&self, key: &KeyBind) -> (action: Option<&A>)
        ensures
            match action {
                Some(action) => self.action(*key) == Some(action@),
                None => self.action(*key) is None,
            },
    {
        let wanted = key.normalize_case();
        let mut at: usize = self.bindings.len();
        proof {
            assert(self.bindings@.take(at as int) =~= self.bindings@);
        }
        while at > 0
            invariant
                at <= self.bindings.len(),
                wanted == key.normalized(),
                forall|j: int| at <= j < self.bindings.len() ==> self.bindings[j].0.normalized() != wanted,
            decreases at,
        {
            at = at - 1;
            if self.bindings[at].0.normalize_case() == wanted {
                proof {
                    lemma_unmatched_tail(self.bindings@, at + 1, wanted);
                    assert(self.bindings@.take(at + 1).drop_last() =~= self.bindings@.take(
                        at as int,
                    ));
                }
                return Some(&self.bindings[at].1);
            }
        }
        proof {
            lemma_unmatched_tail(self.bindings@, 0, wanted);
        }
        None
    }

    /// The bindings in the order in which they were made.
    pub fn bindings(&self) -> (bindings: &Vec<(KeyBind, A)>)
        ensures
            bound_by(bindings@) == self@,
    {
        &self.bindings
    }
}

/// The keymaps of the three modes in which keys do something.
pub struct Config {
    pub main: Keymap<MainAction>,
    pub zoom: Keymap<ZoomAction>,
    pub input: Keymap<InputAction>,
}

/// `keymap` with the press of `key` with `modifiers` bound to `action`.
pub open spec fn with<V>(keymap: Map<KeyBind, V>, key: KeyCode, modifiers: u8, action: V) -> Map<
    KeyBind,
    V,
> {
    keymap.insert(KeyBind::press(key, modifiers).normalized(), action)
}

/// The built-in keys for browsing a table.
pub open spec fn default_main() -> Map<KeyBind, MainActionView> {
    let m = Map::<KeyBind, MainActionView>::empty();
    let m = with(m, KeyCode::Up, NONE, MainActionView::Prev);
    let m = with(m, KeyCode::Char('k'), NONE, MainActionView::Prev);
    let m = with(m, KeyCode::Down, NONE, MainActionView::Next);
    let m = with(m, KeyCode::Char('j'), NONE, MainActionView::Next);
    let m = with(m, KeyCode::Left, NONE, MainActionView::Hprev);
    let m = with(m, KeyCode::Char('h'), NONE, MainActionView::Hprev);
    let m = with(m, KeyCode::Right, NONE, MainActionView::Hnext);
    let m = with(m, KeyCode::Char('l'), NONE, MainActionView::Hnext);
    let m = with(m, KeyCode::Home, NONE, MainActionView::First);
    let m = with(m, KeyCode::Char('g'), NONE, MainActionView::First);
    let m = with(m, KeyCode::End, NONE, MainActionView::Last);
    let m = with(m, KeyCode::Char('G'), NONE, MainActionView::Last);
    let m = with(m, KeyCode::Char('n'), CONTROL, MainActionView::Tnext);
    let m = with(m, KeyCode::Char('p'), CONTROL, MainActionView::Tprev);
    let m = with(m, KeyCode::Char('q'), NONE, MainActionView::Quit);
    let m = with(m, KeyCode::Char('r'), NONE, MainActionView::Reload);
    let m = with(m, KeyCode::Char('z'), NONE, MainActionView::Zoom);
    let m = with(m, KeyCode::Char('i'), NONE, MainActionView::InputCurrent("query"@));
    let m = with(m, KeyCode::Char('e'), NONE, MainActionView::Input("exec "@));
    m
}

/// The built-in keys of the zoomed view.
pub open spec fn default_zoom() -> Map<KeyBind, ZoomAction> {
    let m = Map::<KeyBind, ZoomAction>::empty();
    let m = with(m, KeyCode::Esc, NONE, ZoomAction::Back);
    let m = with(m, KeyCode::Char('q'), NONE, ZoomAction::Back);
    let m = with(m, KeyCode::Char('+'), NONE, ZoomAction::ZoomIn);
    let m = with(m, KeyCode::Char('-'), NONE, ZoomAction::ZoomOut);
    let m = with(m, KeyCode::Left, NONE, ZoomAction::Prev);
    let m = with(m, KeyCode::Char('h'), NONE, ZoomAction::Prev);
    let m = with(m, KeyCode::Right, NONE, ZoomAction::Next);
    let m = with(m, KeyCode::Char('l'), NONE, ZoomAction::Next);
    m
}

/// The built-in keys of the command line.
pub open spec fn default_input() -> Map<KeyBind, InputAction> {
    let m = Map::<KeyBind, InputAction>::empty();
    let m = with(m, KeyCode::Esc, NONE, InputAction::Leave);
    let m = with(m, KeyCode::Enter, NONE, InputAction::Enter);
    let m = with(m, KeyCode::Backspace, NONE, InputAction::DeletePrevChar);
    let m = with(m, KeyCode::Delete, NONE, InputAction::DeleteNextChar);
    let m = with(m, KeyCode::Left, NONE, InputAction::GoToPrevChar);
    let m = with(m, KeyCode::Right, NONE, InputAction::GoToNextChar);
    let m = with(m, KeyCode::Char('a'), CONTROL, InputAction::GoToStart);
    let m = with(m, KeyCode::Char('e'), CONTROL, InputAction::GoToEnd);
    let m = with(m, KeyCode::Char('w'), CONTROL, InputAction::DeletePrevWord);
    m
}

fn default_main_keys() -> (main: Keymap<MainAction>)
    ensures
        main@ == default_main(),
{
    let mut main = Keymap::new();
    main.insert(KeyBind::new(KeyCode::Up, NONE), MainAction::Prev);
    main.insert(KeyBind::new(KeyCode::Char('k'), NONE), MainAction::Prev);
    main.insert(KeyBind::new(KeyCode::Down, NONE), MainAction::Next);
    main.insert(KeyBind::new(KeyCode::Char('j'), NONE), MainAction::Next);
    main.insert(KeyBind::new(KeyCode::Left, NONE), MainAction::Hprev);
    main.insert(KeyBind::new(KeyCode::Char('h'), NONE), MainAction::Hprev);
    main.insert(KeyBind::new(KeyCode::Right, NONE), MainAction::Hnext);
    main.insert(KeyBind::new(KeyCode::Char('l'), NONE), MainAction::Hnext);
    main.insert(KeyBind::new(KeyCode::Home, NONE), MainAction::First);
    main.insert(KeyBind::new(KeyCode::Char('g'), NONE), MainAction::First);
    main.insert(KeyBind::new(KeyCode::End, NONE), MainAction::Last);
    main.insert(KeyBind::new(KeyCode::Char('G'), NONE), MainAction::Last);
    main.insert(KeyBind::new(KeyCode::Char('n'), CONTROL), MainAction::Tnext);
    main.insert(KeyBind::new(KeyCode::Char('p'), CONTROL), MainAction::Tprev);
    main.insert(KeyBind::new(KeyCode::Char('q'), NONE), MainAction::Quit);
    main.insert(KeyBind::new(KeyCode::Char('r'), NONE), MainAction::Reload);
    main.insert(KeyBind::new(KeyCode::Char('z'), NONE), MainAction::Zoom);
    main.insert(
        KeyBind::new(KeyCode::Char('i'), NONE),
        MainAction::InputCurrent(String::from_str("query")),
    );
    main.insert(KeyBind::new(KeyCode::Char('e'), NONE), MainAction::Input(String::from_str("exec ")));
    main
}

fn default_zoom_keys() -> (zoom: Keymap<ZoomAction>)
    ensures
        zoom@ == default_zoom(),
{
    let mut zoom = Keymap::new();
    zoom.insert(KeyBind::new(KeyCode::Esc, NONE), ZoomAction::Back);
    zoom.insert(KeyBind::new(KeyCode::Char('q'), NONE), ZoomAction::Back);
    zoom.insert(KeyBind::new(KeyCode::Char('+'), NONE), ZoomAction::ZoomIn);
    zoom.insert(KeyBind::new(KeyCode::Char('-'), NONE), ZoomAction::ZoomOut);
    zoom.insert(KeyBind::new(KeyCode::Left, NONE), ZoomAction::Prev);
    zoom.insert(KeyBind::new(KeyCode::Char('h'), NONE), ZoomAction::Prev);
    zoom.insert(KeyBind::new(KeyCode::Right, NONE), ZoomAction::Next);
    zoom.insert(KeyBind::new(KeyCode::Char('l'), NONE), ZoomAction::Next);
    zoom
}

fn default_input_keys() -> (input: Keymap<InputAction>)
    ensures
        input@ == default_input(),
{
    let mut input = Keymap::new();
    input.insert(KeyBind::new(KeyCode::Esc, NONE), InputAction::Leave);
    input.insert(KeyBind::new(KeyCode::Enter, NONE), InputAction::Enter);
    input.insert(KeyBind::new(KeyCode::Backspace, NONE), InputAction::DeletePrevChar);
    input.insert(KeyBind::new(KeyCode::Delete, NONE), InputAction::DeleteNextChar);
    input.insert(KeyBind::new(KeyCode::Left, NONE), InputAction::GoToPrevChar);
    input.insert(KeyBind::new(KeyCode::Right, NONE), InputAction::GoToNextChar);
    input.insert(KeyBind::new(KeyCode::Char('a'), CONTROL), InputAction::GoToStart);
    input.insert(KeyBind::new(KeyCode::Char('e'), CONTROL), InputAction::GoToEnd);
    input.insert(KeyBind::new(KeyCode::Char('w'), CONTROL), InputAction::DeletePrevWord);
    input
}

impl Default for Config {
    /// The built-in keymaps.
    fn default() -> (config: Config)
        ensures
            config.main@ == default_main(),
            config.zoom@ == default_zoom(),
            config.input@ == default_input(),
    {
        Config { main: default_main_keys(), zoom: default_zoom_keys(), input: default_input_keys() }
    }
}

} // verus!
