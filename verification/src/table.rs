//! The tabular view model: column layout and cell extraction.
//!
//! Each column descriptor carries a field tag, its current width, and
//! an optional pending resize offset. A resize-begin event stores the
//! offset; one commit event folds every pending offset into its width
//! in a single step and clears them all. Widths never go below zero.
//! Cell extraction is a pure function from a column tag and a row to a
//! display value; an absent optional field yields [`CellValue::Missing`]
//! for the presentation layer to render as its placeholder token.

use vstd::prelude::*;

use crate::decimal::Decimal;
use crate::watch::WatchItem;

verus! {

/// A two-dimensional scroll position of one table pane.
#[derive(Clone, Copy, Debug, PartialEq, Eq, Structural)]
pub struct ScrollOffset {
    pub x: i64,
    pub y: i64,
}

impl ScrollOffset {
    /// The origin, where every pane starts.
    pub fn zero() -> (o: ScrollOffset)
        ensures
            o == (ScrollOffset { x: 0, y: 0 }),
    {
        ScrollOffset { x: 0, y: 0 }
    }
}

/// Which field of a row a column shows.
#[derive(Clone, Copy, Debug, PartialEq, Eq, Structural)]
pub enum ColumnKind {
    Symbol,
    Price,
    LastUpdate,
    Error,
}

/// One column of the watch table.
#[derive(Clone, Copy, Debug, PartialEq, Eq)]
pub struct WatchlistColumn {
    pub kind: ColumnKind,
    pub width: i64,
    pub resize_offset: Option<i64>,
}

/// The width a column starts with.
pub open spec fn default_width(kind: ColumnKind) -> i64 {
    match kind {
        ColumnKind::Symbol => 100,
        ColumnKind::Price => 100,
        ColumnKind::LastUpdate => 100,
        ColumnKind::Error => 100,
    }
}

/// A width sum clipped into the representable non-negative range.
pub open spec fn clamp_width(w: int) -> int {
    if w < 0 {
        0
    } else if w > i64::MAX {
        i64::MAX as int
    } else {
        w
    }
}

/// The column after a commit: a pending offset is folded into the
/// width and cleared; a column with nothing pending is untouched.
pub open spec fn committed(c: WatchlistColumn) -> WatchlistColumn {
    match c.resize_offset {
        Some(off) => WatchlistColumn {
            kind: c.kind,
            width: clamp_width(c.width + off) as i64,
            resize_offset: None,
        },
        None => c,
    }
}

/// The whole column set after one commit event.
pub open spec fn commit_model(cols: Seq<WatchlistColumn>) -> Seq<WatchlistColumn> {
    cols.map_values(|c: WatchlistColumn| committed(c))
}

/// No column has a resize in flight.
pub open spec fn no_pending(cols: Seq<WatchlistColumn>) -> bool {
    forall|k: int| 0 <= k < cols.len() ==> (#[trigger] cols[k]).resize_offset is None
}

/// Every column width is non-negative.
pub open spec fn widths_nonneg(cols: Seq<WatchlistColumn>) -> bool {
    forall|k: int| 0 <= k < cols.len() ==> (#[trigger] cols[k]).width >= 0
}

/// The column set after a resize-begin event: the addressed column
/// stores the offset, every other column is untouched, and an index
/// out of range changes nothing.
pub open spec fn resize_begun(
    before: Seq<WatchlistColumn>,
    after: Seq<WatchlistColumn>,
    index: int,
    offset: i64,
) -> bool {
    if 0 <= index < before.len() {
        after == before.update(
            index,
            WatchlistColumn {
                kind: before[index].kind,
                width: before[index].width,
                resize_offset: Some(offset),
            },
        )
    } else {
        after == before
    }
}

/// A commit commits everything there is to commit: afterwards no
/// column has a resize pending.
pub proof fn lemma_commit_clears_pending(cols: Seq<WatchlistColumn>)
    ensures
        no_pending(commit_model(cols)),
{
}

/// With nothing pending a commit is the identity on the column set,
/// so committing twice with nothing pending leaves all widths
/// unchanged.
pub proof fn lemma_commit_no_pending_identity(cols: Seq<WatchlistColumn>)
    requires
        no_pending(cols),
    ensures
        commit_model(cols) == cols,
{
    assert(commit_model(cols) =~= cols);
}

/// Commits are idempotent: a second commit event never changes the
/// column set again, whatever was pending before the first.
pub proof fn lemma_commit_idempotent(cols: Seq<WatchlistColumn>)
    ensures
        commit_model(commit_model(cols)) == commit_model(cols),
{
    lemma_commit_clears_pending(cols);
    lemma_commit_no_pending_identity(commit_model(cols));
}

/// A commit keeps widths non-negative.
pub proof fn lemma_commit_widths_nonneg(cols: Seq<WatchlistColumn>)
    requires
        widths_nonneg(cols),
    ensures
        widths_nonneg(commit_model(cols)),
{
}

impl WatchlistColumn {
    /// A fresh column for one field, at its default width.
    pub fn new(kind: ColumnKind) -> (c: WatchlistColumn)
        ensures
            c == (WatchlistColumn { kind, width: default_width(kind), resize_offset: None }),
    {
        let width: i64 = match kind {
            ColumnKind::Symbol => 100,
            ColumnKind::Price => 100,
            ColumnKind::LastUpdate => 100,
            ColumnKind::Error => 100,
        };
        WatchlistColumn { kind, width, resize_offset: None }
    }

    /// The current width.
    pub fn width(&self) -> (w: i64)
        ensures
            w == self.width,
    {
        self.width
    }

    /// The resize offset in flight, if any.
    pub fn resize_offset(&self) -> (o: Option<i64>)
        ensures
            o == self.resize_offset,
    {
        self.resize_offset
    }
}

/// Store a pending resize offset on one column; an index out of range
/// is ignored, as the event may race a layout change.
pub fn begin_resize(columns: &mut Vec<WatchlistColumn>, index: usize, offset: i64)
    ensures
        resize_begun(old(columns)@, final(columns)@, index as int, offset),
{
    if index < columns.len() {
        let col = columns[index];
        columns.set(
            index,
            WatchlistColumn { kind: col.kind, width: col.width, resize_offset: Some(offset) },
        );
        proof {
            assert(final(columns)@ =~= old(columns)@.update(
                index as int,
                WatchlistColumn {
                    kind: old(columns)@[index as int].kind,
                    width: old(columns)@[index as int].width,
                    resize_offset: Some(offset),
                },
            ));
        }
    }
}

/// Commit every pending resize offset in one atomic step.
#[verifier::loop_isolation(false)]
pub fn commit_resizes(columns: &mut Vec<WatchlistColumn>)
    ensures
        final(columns)@ == commit_model(old(columns)@),
{
    let mut i: usize = 0;
    while i < columns.len()
        invariant
            0 <= i <= columns@.len(),
            columns@.len() == old(columns)@.len(),
            forall|k: int| 0 <= k < i ==> columns@[k] == committed(#[trigger] old(columns)@[k]),
            forall|k: int| i <= k < columns@.len() ==> columns@[k] == old(columns)@[k],
        decreases columns@.len() - i,
    {
        let col = columns[i];
        match col.resize_offset {
            Some(off) => {
                let width = match col.width.checked_add(off) {
                    Some(w) => if w < 0 {
                        0
                    } else {
                        w
                    },
                    None => if off > 0 {
                        i64::MAX
                    } else {
                        0
                    },
                };
                columns.set(
                    i,
                    WatchlistColumn { kind: col.kind, width, resize_offset: None },
                );
            },
            None => {},
        }
        i = i + 1;
    }
    proof {
        assert(final(columns)@ =~= commit_model(old(columns)@));
    }
}

/// One display value of the table: what a cell shows before the
/// presentation layer formats it.
#[derive(Clone, Debug, PartialEq, Eq)]
pub enum CellValue {
    /// A textual field.
    Text(String),
    /// A numeric field.
    Num(Decimal),
    /// A capture timestamp in milliseconds since the Unix epoch.
    Time(i64),
    /// An absent optional field; rendered as the deployment's
    /// placeholder token.
    Missing,
}

/// Extract the display value of one cell from its row: a pure function
/// of the column tag and the row.
pub fn cell_value(kind: ColumnKind, row: &WatchItem) -> (c: CellValue)
    ensures
        match kind {
            ColumnKind::Symbol => c matches CellValue::Text(s) && s@ == row.symbol@,
            ColumnKind::Price => match row.price {
                Some(p) => c == CellValue::Num(p),
                None => c is Missing,
            },
            ColumnKind::LastUpdate => match row.last_update {
                Some(t) => c == CellValue::Time(t),
                None => c is Missing,
            },
            ColumnKind::Error => match row.error {
                Some(m) => c matches CellValue::Text(s) && s@ == m@,
                None => c is Missing,
            },
        },
{
    match kind {
        ColumnKind::Symbol => CellValue::Text(row.symbol.clone()),
        ColumnKind::Price => match row.price {
            Some(p) => CellValue::Num(p),
            None => CellValue::Missing,
        },
        ColumnKind::LastUpdate => match row.last_update {
            Some(t) => CellValue::Time(t),
            None => CellValue::Missing,
        },
        ColumnKind::Error => match &row.error {
            Some(m) => CellValue::Text(m.clone()),
            None => CellValue::Missing,
        },
    }
}

/// The header caption of a column.
pub open spec fn header_label_spec(kind: ColumnKind) -> Seq<char> {
    match kind {
        ColumnKind::Symbol => "SYMBOL"@,
        ColumnKind::Price => "PRICE"@,
        ColumnKind::LastUpdate => "L.TIME"@,
        ColumnKind::Error => "ERROR"@,
    }
}

/// Render the header caption of a column.
pub fn header_label(kind: ColumnKind) -> (r: String)
    ensures
        r@ == header_label_spec(kind),
{
    match kind {
        ColumnKind::Symbol => "SYMBOL".to_owned(),
        ColumnKind::Price => "PRICE".to_owned(),
        ColumnKind::LastUpdate => "L.TIME".to_owned(),
        ColumnKind::Error => "ERROR".to_owned(),
    }
}

} // verus!
