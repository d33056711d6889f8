//! The zoomed view of one row: how many of its fields are shown at once and
//! which field comes first.

use vstd::prelude::*;
use crate::window::{last_offset, slid_left, slid_right, slide_left, slide_right};

verus! {

/// State of the zoomed view.
///
/// The view shows `visible_fields` fields of the selected row, starting at
/// `field_offset`, in a popup that takes the given percentages of the screen.
/// The number of fields of the row is not stored here; the operations that
/// need it take it as an argument.
#[derive(Clone, Copy, Debug)]
pub struct Zoom {
    height_procent: u16,
    width_procent: u16,
    zoom_width: usize,
    hstate: usize,
}

/// The number of visible fields after zooming in.
pub open spec fn zoomed_in(visible: nat) -> nat {
    if visible > 1 {
        (visible - 1) as nat
    } else {
        1
    }
}

/// The number of visible fields after zooming out on a row of `fields` fields.
pub open spec fn zoomed_out(visible: nat, fields: nat) -> nat {
    if visible + 1 <= fields {
        visible + 1
    } else {
        fields
    }
}

/// One step of zooming.
pub enum ZoomStep {
    In,
    Out,
}

/// The number of visible fields after a sequence of zoom steps.
pub open spec fn zoomed_by(visible: nat, fields: nat, steps: Seq<ZoomStep>) -> nat
    decreases steps.len(),
{
    if steps.len() == 0 {
        visible
    } else {
        let before = zoomed_by(visible, fields, steps.drop_last());
        match steps.last() {
            ZoomStep::In => zoomed_in(before),
            ZoomStep::Out => zoomed_out(before, fields),
        }
    }
}

/// What the zoomed view shows.
pub ghost struct ZoomView {
    /// Share of the screen height taken by the popup, in percent.
    pub height_procent: u16,
    /// Share of the screen width taken by the popup, in percent.
    pub width_procent: u16,
    /// Number of fields shown at once.
    pub zoom_width: nat,
    /// Index of the first field shown.
    pub hstate: nat,
}

impl ZoomView {
    /// The view shows at least one field and no more than the row has.
    pub open spec fn count_in_range(self, fields: nat) -> bool {
        1 <= self.zoom_width <= fields
    }

    /// The visible fields end within the row.
    pub open spec fn offset_in_range(self, fields: nat) -> bool {
        self.hstate <= last_offset(self.zoom_width, fields)
    }

    /// The view with one field more, on a row of `fields` fields. Where the
    /// wider view would end past the row, it moves back to end with it.
    pub open spec fn zoom_out(self, fields: nat) -> ZoomView {
        let width = zoomed_out(self.zoom_width, fields);
        ZoomView {
            zoom_width: width,
            hstate: if self.hstate <= last_offset(width, fields) {
                self.hstate
            } else {
                last_offset(width, fields)
            },
            ..self
        }
    }
}

impl View for Zoom {
    type V = ZoomView;

    closed spec fn view(&self) -> ZoomView {
        ZoomView {
            height_procent: self.height_procent,
            width_procent: self.width_procent,
            zoom_width: self.zoom_width as nat,
            hstate: self.hstate as nat,
        }
    }
}

impl Zoom {
    /// A zoomed view that starts at the first field.
    pub fn new(width: u16, height: u16, zoom_width: usize) -> (zoom: Zoom)
        ensures
            zoom@ == (ZoomView {
                height_procent: height,
                width_procent: width,
                zoom_width: zoom_width as nat,
                hstate: 0,
            }),
    {
        Zoom { height_procent: height, width_procent: width, zoom_width, hstate: 0 }
    }

    /// Shows one field more, up to `max`, the number of fields of the row.
    /// Where the wider view would end past the row, it moves back to end
    /// with it.
    pub fn zoom_out(&mut self, max: usize)
        ensures
            final(self)@ == old(self)@.zoom_out(max as nat),
            final(self)@.offset_in_range(max as nat),
            old(self)@.count_in_range(max as nat) ==> final(self)@.count_in_range(max as nat),
    {
        if self.zoom_width < max {
            self.zoom_width = self.zoom_width + 1;
        } else {
            self.zoom_width = max;
        }
        let last: usize = if max >= self.zoom_width {
            max - self.zoom_width
        } else {
            0
        };
        if self.hstate > last {
            self.hstate = last;
        }
    }

    /// Shows one field less, down to a single field.
    pub fn zoom_in(&mut self)
        ensures
            final(self)@ == (ZoomView {
                zoom_width: zoomed_in(old(self)@.zoom_width),
                ..old(self)@
            }),
            forall|fields: nat|
                old(self)@.count_in_range(fields) ==> #[trigger] final(self)@.count_in_range(
                    fields,
                ),
    {
        if self.zoom_width > 1 {
            self.zoom_width = self.zoom_width - 1;
        } else {
            self.zoom_width = 1;
        }
    }

    /// Moves to the next field of a row of `max` fields; stops where the last
    /// field comes into view.
    pub fn next(&mut self, max: usize)
        ensures
            final(self)@ == (ZoomView {
                hstate: slid_right(old(self)@.hstate, old(self)@.zoom_width, max as nat),
                ..old(self)@
            }),
            final(self)@.offset_in_range(max as nat),
    {
        self.hstate = slide_right(self.hstate, self.zoom_width, max);
    }

    /// Moves to the previous field; stops at the first.
    pub fn prev(&mut self)
        ensures
            final(self)@ == (ZoomView { hstate: slid_left(old(self)@.hstate), ..old(self)@ }),
            forall|fields: nat|
                old(self)@.offset_in_range(fields) ==> #[trigger] final(self)@.offset_in_range(
                    fields,
                ),
    {
        self.hstate = slide_left(self.hstate);
    }

    /// Number of fields shown at once.
    pub fn zoom_width(&self) -> (width: usize)
        ensures
            width == self@.zoom_width,
    {
        self.zoom_width
    }

    /// Index of the first field shown.
    pub fn hstate(&self) -> (offset: usize)
        ensures
            offset == self@.hstate,
    {
        self.hstate
    }

    /// Share of the screen width taken by the popup, in percent.
    pub fn width_procent(&self) -> (percent: u16)
        ensures
            percent == self@.width_procent,
    {
        self.width_procent
    }

    /// Share of the screen height taken by the popup, in percent.
    pub fn height_procent(&self) -> (percent: u16)
        ensures
            percent == self@.height_procent,
    {
        self.height_procent
    }
}

/// Whatever sequence of zoom steps is taken on a row of `fields` fields, a
/// view that showed between one and `fields` fields still does.
pub proof fn lemma_zoom_stays_in_range(visible: nat, fields: nat, steps: Seq<ZoomStep>)
    requires
        1 <= visible <= fields,
    ensures
        1 <= zoomed_by(visible, fields, steps) <= fields,
    decreases steps.len(),
{
    if steps.len() > 0 {
        lemma_zoom_stays_in_range(visible, fields, steps.drop_last());
    }
}

} // verus!
