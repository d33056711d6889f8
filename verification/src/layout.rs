//! What drawing a table needs computed: the height of a row, the share of
//! each column, the margins of the zoomed popup and the wrapping of a text.

use vstd::prelude::*;
use crate::command::chars_of;
use crate::rows::Value;

verus! {

/// The number of line feeds in a text.
pub open spec fn line_feeds(text: Seq<char>) -> nat
    decreases text.len(),
{
    if text.len() == 0 {
        0
    } else {
        line_feeds(text.drop_last()) + if text.last() == '\n' {
            1nat
        } else {
            0nat
        }
    }
}

/// The number of line feeds in what a value shows: those of a text, and none
/// for any other value.
pub open spec fn value_line_feeds(value: Value) -> nat {
    match value {
        Value::Text(text) => line_feeds(text@),
        _ => 0,
    }
}

/// The largest number of line feeds that a value of the row shows.
pub open spec fn most_line_feeds(row: Seq<Value>) -> nat
    decreases row.len(),
{
    if row.len() == 0 {
        0
    } else {
        let before = most_line_feeds(row.drop_last());
        let last = value_line_feeds(row.last());
        if last > before {
            last
        } else {
            before
        }
    }
}

/// The text with a line feed after every `len` characters.
pub open spec fn wrapped(text: Seq<char>, len: nat) -> Seq<char>
    decreases text.len(),
{
    if text.len() == 0 {
        Seq::empty()
    } else {
        let before = wrapped(text.drop_last(), len).push(text.last());
        if text.len() % len == 0 {
            before.push('\n')
        } else {
            before
        }
    }
}

/// The number of line feeds in `text`.
pub fn count_line_feeds(text: &str) -> (count: usize)
    ensures
        count == line_feeds(text@),
{
    let chars = chars_of(text);
    let mut count: usize = 0;
    let mut at: usize = 0;
    while at < chars.len()
        invariant
            at <= chars.len(),
            count <= at,
            count == line_feeds(chars@.take(at as int)),
        decreases chars.len() - at,
    {
        proof {
            assert(chars@.take(at + 1).drop_last() =~= chars@.take(at as int));
        }
        if chars[at] == '\n' {
            count = count + 1;
        }
        at = at + 1;
    }
    proof {
        assert(chars@.take(at as int) =~= chars@);
    }
    count
}

/// The number of lines that a row takes: one more than the largest number
/// of line feeds that one of its values shows, as far as that can be counted.
pub fn row_height(row: &Vec<Value>) -> (height: usize)
    ensures
        height == if most_line_feeds(row@) < usize::MAX {
            most_line_feeds(row@) + 1
        } else {
            usize::MAX as nat
        },
{
    let mut most: usize = 0;
    let mut at: usize = 0;
    while at < row.len()
        invariant
            at <= row.len(),
            most == most_line_feeds(row@.take(at as int)),
        decreases row.len() - at,
    {
        proof {
            assert(row@.take(at + 1).drop_last() =~= row@.take(at as int));
        }
        let feeds = match &row[at] {
            Value::Text(text) => count_line_feeds(text.as_str()),
            _ => 0,
        };
        if feeds > most {
            most = feeds;
        }
        at = at + 1;
    }
    proof {
        assert(row@.take(at as int) =~= row@);
    }
    if most < usize::MAX {
        most + 1
    } else {
        most
    }
}

/// The share of the width that each of `columns` columns gets, in percent.
pub fn percent_each(columns: usize) -> (percent: u16)
    requires
        columns > 0,
    ensures
        percent == 100int / (columns as int),
{
    if columns > 100 {
        proof {
            vstd::arithmetic::div_mod::lemma_basic_div(100, columns as int);
        }
        0
    } else {
        (100 / columns) as u16
    }
}

/// The margin on either side of a popup that takes `percent` percent of the
/// screen.
pub fn margin(percent: u16) -> (margin: u16)
    requires
        percent <= 100,
    ensures
        margin == (100 - percent) / 2,
{
    (100 - percent) / 2
}

/// The text with a line feed after every `len` characters, so that it fits
/// into a cell that is `len` characters wide.
pub fn wrap(text: &str, len: u16) -> (lines: String)
    requires
        len > 0,
    ensures
        lines@ == wrapped(text@, len as nat),
{
    let chars = chars_of(text);
    let mut lines = String::new();
    let mut at: usize = 0;
    while at < chars.len()
        invariant
            at <= chars.len(),
            len > 0,
            lines@ == wrapped(chars@.take(at as int), len as nat),
        decreases chars.len() - at,
    {
        proof {
            assert(chars@.take(at + 1).drop_last() =~= chars@.take(at as int));
        }
        lines.push(chars[at]);
        at = at + 1;
        if at % (len as usize) == 0 {
            lines.push('\n');
        }
    }
    proof {
        assert(chars@.take(at as int) =~= chars@);
    }
    lines
}

/// Wrapping adds one line feed for every full run of `len` characters.
pub proof fn lemma_wrapped_len(text: Seq<char>, len: nat)
    requires
        len > 0,
    ensures
        wrapped(text, len).len() == text.len() + text.len() / len,
    decreases text.len(),
{
    if text.len() > 0 {
        lemma_wrapped_len(text.drop_last(), len);
        let n = text.len() as int;
        let d = len as int;
        if n % d == 0 {
            assert((n - 1) / d == n / d - 1) by (nonlinear_arith)
                requires
                    n % d == 0,
                    n > 0,
                    d > 0,
            ;
        } else {
            assert((n - 1) / d == n / d) by (nonlinear_arith)
                requires
                    n % d != 0,
                    n > 0,
                    d > 0,
            ;
        }
    }
}

} // verus!
