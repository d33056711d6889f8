//! One result set and the state of browsing it: the selected row, the window
//! of visible columns and the zoomed view.

use vstd::prelude::*;
use crate::window::{last_offset, slid_left, slid_right, slide_left, slide_right};
use crate::zoom::{zoomed_in, Zoom, ZoomView};

verus! {

/// A scalar value of a result set.
#[derive(Clone, Debug, PartialEq, Eq)]
pub enum Value {
    Null,
    Integer(i64),
    /// A real number, held as the 64 bits of its binary representation.
    Real(u64),
    Text(String),
    Blob(Vec<u8>),
}

/// What the data source gives for a query: the column names and the rows.
#[derive(Clone, Debug)]
pub struct ResultSet {
    pub scheme: Vec<String>,
    pub entries: Vec<Vec<Value>>,
}

/// Every row holds one value for each column.
pub open spec fn rectangular(scheme: Seq<String>, entries: Seq<Vec<Value>>) -> bool {
    forall|i: int| 0 <= i < entries.len() ==> (#[trigger] entries[i]).len() == scheme.len()
}

impl ResultSet {
    /// Every row holds one value for each column.
    pub open spec fn rectangular(&self) -> bool {
        rectangular(self.scheme@, self.entries@)
    }

    /// Whether every row holds one value for each column.
    pub fn is_rectangular(&self) -> (rectangular: bool)
        ensures
            rectangular == self.rectangular(),
    {
        let mut at: usize = 0;
        while at < self.entries.len()
            invariant
                at <= self.entries.len(),
                forall|i: int| 0 <= i < at ==> (#[trigger] self.entries[i]).len() == self.scheme.len(),
            decreases self.entries.len() - at,
        {
            if self.entries[at].len() != self.scheme.len() {
                return false;
            }
            at = at + 1;
        }
        true
    }
}

/// A step of browsing a table.
#[derive(Clone, Copy, Debug, PartialEq, Eq, Structural)]
pub enum TableOp {
    Next,
    Prev,
    First,
    Last,
    Hnext,
    Hprev,
    ZoomIn,
    ZoomOut,
    ZoomNext,
    ZoomPrev,
}

/// The widest window of columns that a table shows.
pub const MAX_COLUMNS: usize = 5;

/// The number of fields that the zoomed view shows at first, where the row
/// has that many.
pub const ZOOM_FIELDS: usize = 5;

/// The row selected after a step forward among `rows` rows: the next row,
/// or the first one after the last.
pub open spec fn next_row(selected: Option<nat>, rows: nat) -> Option<nat> {
    if rows == 0 {
        selected
    } else {
        match selected {
            Some(row) => if row + 1 >= rows {
                Some(0)
            } else {
                Some(row + 1)
            },
            None => Some(0),
        }
    }
}

/// The row selected after a step back among `rows` rows: the previous row,
/// or the last one before the first.
pub open spec fn prev_row(selected: Option<nat>, rows: nat) -> Option<nat> {
    if rows == 0 {
        selected
    } else {
        match selected {
            Some(row) => if row == 0 {
                Some((rows - 1) as nat)
            } else {
                Some((row - 1) as nat)
            },
            None => Some(0),
        }
    }
}

/// The row selected after `steps` steps forward.
pub open spec fn next_row_by(selected: Option<nat>, rows: nat, steps: nat) -> Option<nat>
    decreases steps,
{
    if steps == 0 {
        selected
    } else {
        next_row(next_row_by(selected, rows, (steps - 1) as nat), rows)
    }
}

/// The row selected after `steps` steps back.
pub open spec fn prev_row_by(selected: Option<nat>, rows: nat, steps: nat) -> Option<nat>
    decreases steps,
{
    if steps == 0 {
        selected
    } else {
        prev_row(prev_row_by(selected, rows, (steps - 1) as nat), rows)
    }
}

/// What a table holds and shows.
pub ghost struct TableView {
    /// The query that gave the result set.
    pub search: Seq<char>,
    /// The column names.
    pub scheme: Seq<String>,
    /// The rows.
    pub entries: Seq<Vec<Value>>,
    /// The selected row.
    pub selected: Option<nat>,
    /// The first visible column.
    pub hstate: nat,
    /// The number of visible columns.
    pub hwidth: nat,
    /// The zoomed view.
    pub zoom: ZoomView,
}

impl TableView {
    /// The view of the result of `search` before any browsing: the first row
    /// is selected if there is one, the window of at most `MAX_COLUMNS`
    /// columns starts at the first column, and the zoomed view shows up to
    /// `ZOOM_FIELDS` fields from the first on.
    pub open spec fn fresh(search: Seq<char>, scheme: Seq<String>, entries: Seq<Vec<Value>>) -> TableView {
        TableView {
            search,
            scheme,
            entries,
            selected: if entries.len() == 0 {
                None
            } else {
                Some(0nat)
            },
            hstate: 0,
            hwidth: if scheme.len() < MAX_COLUMNS {
                scheme.len()
            } else {
                MAX_COLUMNS as nat
            },
            zoom: ZoomView {
                height_procent: 70,
                width_procent: 100,
                zoom_width: if scheme.len() == 0 {
                    1
                } else if scheme.len() < ZOOM_FIELDS {
                    scheme.len()
                } else {
                    ZOOM_FIELDS as nat
                },
                hstate: 0,
            },
        }
    }

    /// The number of columns.
    pub open spec fn hlen(self) -> nat {
        self.scheme.len()
    }

    /// The view after a step of browsing.
    pub open spec fn apply(self, op: TableOp) -> TableView {
        match op {
            TableOp::Next => self.next(),
            TableOp::Prev => self.prev(),
            TableOp::First => self.first(),
            TableOp::Last => self.last(),
            TableOp::Hnext => self.hnext(),
            TableOp::Hprev => self.hprev(),
            TableOp::ZoomIn => self.zoom_in(),
            TableOp::ZoomOut => self.zoom_out(),
            TableOp::ZoomNext => self.zoom_next(),
            TableOp::ZoomPrev => self.zoom_prev(),
        }
    }

    /// The view after a step to the next row.
    pub open spec fn next(self) -> TableView {
        TableView { selected: next_row(self.selected, self.entries.len()), ..self }
    }

    /// The view after a step to the previous row.
    pub open spec fn prev(self) -> TableView {
        TableView { selected: prev_row(self.selected, self.entries.len()), ..self }
    }

    /// The view with row `i` selected, where there is such a row.
    pub open spec fn set(self, i: nat) -> TableView {
        TableView {
            selected: if i < self.entries.len() {
                Some(i)
            } else {
                self.selected
            },
            ..self
        }
    }

    /// The view with the first row selected, where there is a row.
    pub open spec fn first(self) -> TableView {
        self.set(0)
    }

    /// The view with the last row selected, where there is a row.
    pub open spec fn last(self) -> TableView {
        if self.entries.len() > 0 {
            self.set((self.entries.len() - 1) as nat)
        } else {
            self
        }
    }

    /// The view with the window one column further right.
    pub open spec fn hnext(self) -> TableView {
        TableView { hstate: slid_right(self.hstate, self.hwidth, self.hlen()), ..self }
    }

    /// The view with the window one column further left.
    pub open spec fn hprev(self) -> TableView {
        TableView { hstate: slid_left(self.hstate), ..self }
    }

    /// The view with one field less in the zoomed view.
    pub open spec fn zoom_in(self) -> TableView {
        TableView {
            zoom: ZoomView { zoom_width: zoomed_in(self.zoom.zoom_width), ..self.zoom },
            ..self
        }
    }

    /// The view with one field more in the zoomed view.
    pub open spec fn zoom_out(self) -> TableView {
        TableView { zoom: self.zoom.zoom_out(self.hlen()), ..self }
    }

    /// The view with the zoomed view moved to the next field.
    pub open spec fn zoom_next(self) -> TableView {
        TableView {
            zoom: ZoomView {
                hstate: slid_right(self.zoom.hstate, self.zoom.zoom_width, self.hlen()),
                ..self.zoom
            },
            ..self
        }
    }

    /// The view with the zoomed view moved to the previous field.
    pub open spec fn zoom_prev(self) -> TableView {
        TableView { zoom: ZoomView { hstate: slid_left(self.zoom.hstate), ..self.zoom }, ..self }
    }

    /// Every row holds one value for each column; the selection points at a
    /// row, and at none only where there is none; the window is as wide as
    /// the columns allow and lies within them; the zoomed view shows at
    /// least one field and no more than there are, and ends within the row.
    pub open spec fn wf(self) -> bool {
        &&& rectangular(self.scheme, self.entries)
        &&& match self.selected {
            Some(row) => row < self.entries.len(),
            None => self.entries.len() == 0,
        }
        &&& self.hwidth == if self.hlen() < MAX_COLUMNS {
            self.hlen()
        } else {
            MAX_COLUMNS as nat
        }
        &&& self.hstate <= last_offset(self.hwidth, self.hlen())
        &&& self.hlen() >= 1 ==> self.zoom.count_in_range(self.hlen())
        &&& self.zoom.offset_in_range(self.hlen())
    }
}

/// A result set with the state of browsing it.
#[derive(Debug)]
pub struct DbTable {
    search: String,
    scheme: Vec<String>,
    selected: Option<usize>,
    entries: Vec<Vec<Value>>,
    hstate: usize,
    hwidth: usize,
    zoom: Zoom,
}

impl View for DbTable {
    type V = TableView;

    closed spec fn view(&self) -> TableView {
        TableView {
            search: self.search@,
            scheme: self.scheme@,
            entries: self.entries@,
            selected: match self.selected {
                Some(row) => Some(row as nat),
                None => None,
            },
            hstate: self.hstate as nat,
            hwidth: self.hwidth as nat,
            zoom: self.zoom@,
        }
    }
}

impl DbTable {
    /// The table is in a valid state.
    pub open spec fn wf(&self) -> bool {
        self@.wf()
    }

    #[verifier::type_invariant]
    spec fn valid(&self) -> bool {
        self.wf()
    }

    /// A table over the result of `search`: the first row is selected if
    /// there is one, the window starts at the first column, and the zoomed
    /// view starts at the first field.
    pub fn new(search: String, scheme: Vec<String>, entries: Vec<Vec<Value>>) -> (table: DbTable)
        requires
            rectangular(scheme@, entries@),
        ensures
            table.wf(),
            table@ == TableView::fresh(search@, scheme@, entries@),
    {
        let len = scheme.len();
        let selected = if entries.len() == 0 {
            None
        } else {
            Some(0)
        };
        let hwidth = if len < MAX_COLUMNS {
            len
        } else {
            MAX_COLUMNS
        };
        let fields = if len == 0 {
            1
        } else if len < ZOOM_FIELDS {
            len
        } else {
            ZOOM_FIELDS
        };
        DbTable {
            search,
            scheme,
            selected,
            entries,
            hstate: 0,
            hwidth,
            zoom: Zoom::new(100, 70, fields),
        }
    }

    /// Selects the next row, or the first one after the last. Does nothing
    /// where there are no rows.
    pub fn next(&mut self)
        ensures
            final(self).wf(),
            final(self)@ == old(self)@.next(),
    {
        proof {
            use_type_invariant(&*self);
        }
        if self.entries.len() == 0 {
            return ;
        }
        let row = match self.selected {
            Some(row) => if row >= self.entries.len() - 1 {
                0
            } else {
                row + 1
            },
            None => 0,
        };
        self.selected = Some(row);
    }

    /// Selects the previous row, or the last one before the first. Does
    /// nothing where there are no rows.
    pub fn prev(&mut self)
        ensures
            final(self).wf(),
            final(self)@ == old(self)@.prev(),
    {
        proof {
            use_type_invariant(&*self);
        }
        if self.entries.len() == 0 {
            return ;
        }
        let row = match self.selected {
            Some(row) => if row == 0 {
                self.entries.len() - 1
            } else {
                row - 1
            },
            None => 0,
        };
        self.selected = Some(row);
    }

    /// Selects row `i`. Does nothing where there is no such row.
    pub fn set(&mut self, i: usize)
        ensures
            final(self).wf(),
            final(self)@ == old(self)@.set(i as nat),
    {
        proof {
            use_type_invariant(&*self);
        }
        if i < self.entries.len() {
            self.selected = Some(i);
        }
    }

    /// Selects the first row. Does nothing where there are no rows.
    pub fn first(&mut self)
        ensures
            final(self).wf(),
            final(self)@ == old(self)@.first(),
    {
        proof {
            use_type_invariant(&*self);
        }
        self.set(0);
    }

    /// Reserved: changes nothing.
    pub fn grep(&mut self)
        ensures
            *final(self) == *old(self),
    {
    }

    /// Selects the last row. Does nothing where there are no rows.
    pub fn last(&mut self)
        ensures
            final(self).wf(),
            final(self)@ == old(self)@.last(),
    {
        proof {
            use_type_invariant(&*self);
        }
        if self.entries.len() > 0 {
            self.set(self.entries.len() - 1);
        }
    }

    /// Shows the columns one further to the right; stops where the last
    /// column is in view.
    pub fn hnext(&mut self)
        ensures
            final(self).wf(),
            final(self)@ == old(self)@.hnext(),
    {
        proof {
            use_type_invariant(&*self);
        }
        self.hstate = slide_right(self.hstate, self.hwidth, self.scheme.len());
    }

    /// Shows the columns one further to the left; stops at the first column.
    pub fn hprev(&mut self)
        ensures
            final(self).wf(),
            final(self)@ == old(self)@.hprev(),
    {
        proof {
            use_type_invariant(&*self);
        }
        self.hstate = slide_left(self.hstate);
    }

    /// Shows one field less in the zoomed view, down to a single field.
    pub fn zoom_in(&mut self)
        ensures
            final(self).wf(),
            final(self)@ == old(self)@.zoom_in(),
    {
        proof {
            use_type_invariant(&*self);
        }
        let mut zoom = self.zoom;
        zoom.zoom_in();
        self.zoom = zoom;
    }

    /// Shows one field more in the zoomed view, up to all fields of the row.
    pub fn zoom_out(&mut self)
        ensures
            final(self).wf(),
            final(self)@ == old(self)@.zoom_out(),
    {
        proof {
            use_type_invariant(&*self);
        }
        let mut zoom = self.zoom;
        zoom.zoom_out(self.scheme.len());
        self.zoom = zoom;
    }

    /// Moves the zoomed view to the next field; stops where the last field
    /// is in view.
    pub fn zoom_next(&mut self)
        ensures
            final(self).wf(),
            final(self)@ == old(self)@.zoom_next(),
    {
        proof {
            use_type_invariant(&*self);
        }
        let mut zoom = self.zoom;
        zoom.next(self.scheme.len());
        self.zoom = zoom;
    }

    /// Moves the zoomed view to the previous field; stops at the first.
    pub fn zoom_prev(&mut self)
        ensures
            final(self).wf(),
            final(self)@ == old(self)@.zoom_prev(),
    {
        proof {
            use_type_invariant(&*self);
        }
        let mut zoom = self.zoom;
        zoom.prev();
        self.zoom = zoom;
    }

    /// Takes a step of browsing.
    pub fn apply(&mut self, op: TableOp)
        ensures
            final(self).wf(),
            final(self)@ == old(self)@.apply(op),
    {
        proof {
            use_type_invariant(&*self);
        }
        match op {
            TableOp::Next => self.next(),
            TableOp::Prev => self.prev(),
            TableOp::First => self.first(),
            TableOp::Last => self.last(),
            TableOp::Hnext => self.hnext(),
            TableOp::Hprev => self.hprev(),
            TableOp::ZoomIn => self.zoom_in(),
            TableOp::ZoomOut => self.zoom_out(),
            TableOp::ZoomNext => self.zoom_next(),
            TableOp::ZoomPrev => self.zoom_prev(),
        }
    }

    /// The query that gave the result set.
    pub fn search(&self) -> (search: &String)
        ensures
            search@ == self@.search,
    {
        &self.search
    }

    /// The column names.
    pub fn scheme(&self) -> (scheme: &Vec<String>)
        ensures
            scheme@ == self@.scheme,
    {
        &self.scheme
    }

    /// The rows.
    pub fn entries(&self) -> (entries: &Vec<Vec<Value>>)
        ensures
            entries@ == self@.entries,
    {
        &self.entries
    }

    /// The selected row.
    pub fn selected(&self) -> (selected: Option<usize>)
        ensures
            match selected {
                Some(row) => self@.selected == Some(row as nat),
                None => self@.selected is None,
            },
    {
        self.selected
    }

    /// The first visible column.
    pub fn hstate(&self) -> (hstate: usize)
        ensures
            hstate == self@.hstate,
    {
        self.hstate
    }

    /// The number of columns.
    pub fn hlen(&self) -> (hlen: usize)
        ensures
            hlen == self@.hlen(),
    {
        self.scheme.len()
    }

    /// The number of visible columns.
    pub fn hwidth(&self) -> (hwidth: usize)
        ensures
            hwidth == self@.hwidth,
    {
        self.hwidth
    }

    /// The zoomed view.
    pub fn zoom(&self) -> (zoom: &Zoom)
        ensures
            zoom@ == self@.zoom,
    {
        &self.zoom
    }
}

/// Stepping forward from a selected row as often as there are rows selects
/// that row again.
pub proof fn lemma_next_cycle(row: nat, rows: nat)
    requires
        row < rows,
    ensures
        next_row_by(Some(row), rows, rows) == Some(row),
{
    lemma_next_steps(row, rows, rows);
}

/// Stepping back from a selected row as often as there are rows selects that
/// row again.
pub proof fn lemma_prev_cycle(row: nat, rows: nat)
    requires
        row < rows,
    ensures
        prev_row_by(Some(row), rows, rows) == Some(row),
{
    lemma_prev_steps(row, rows, rows);
}

/// A step back undoes a step forward, and a step forward undoes a step back.
pub proof fn lemma_next_prev_inverse(row: nat, rows: nat)
    requires
        row < rows,
    ensures
        prev_row(next_row(Some(row), rows), rows) == Some(row),
        next_row(prev_row(Some(row), rows), rows) == Some(row),
{
}

/// Where `steps` steps forward from `row` lead, for no more steps than rows.
proof fn lemma_next_steps(row: nat, rows: nat, steps: nat)
    requires
        row < rows,
        steps <= rows,
    ensures
        next_row_by(Some(row), rows, steps) == Some(
            if row + steps < rows {
                row + steps
            } else {
                (row + steps - rows) as nat
            },
        ),
    decreases steps,
{
    if steps > 0 {
        lemma_next_steps(row, rows, (steps - 1) as nat);
    }
}

/// Where `steps` steps back from `row` lead, for no more steps than rows.
proof fn lemma_prev_steps(row: nat, rows: nat, steps: nat)
    requires
        row < rows,
        steps <= rows,
    ensures
        prev_row_by(Some(row), rows, steps) == Some(
            if steps <= row {
                (row - steps) as nat
            } else {
                (row + rows - steps) as nat
            },
        ),
    decreases steps,
{
    if steps > 0 {
        lemma_prev_steps(row, rows, (steps - 1) as nat);
    }
}

} // verus!
