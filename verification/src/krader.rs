//! The application state and its single update entry point.
//!
//! All mutations of the watch list, the order book, and the table
//! layout are serialized through [`Krader::update`]: the presentation
//! layer hands in one event at a time and performs the returned
//! follow-up action (issue a fetch, mirror a scroll). No state is
//! mutated anywhere else, so readers between updates always see a
//! consistent view.

use vstd::prelude::*;

use crate::aggregate::BatchResult;
use crate::book::{book_failure_applied, book_success_applied, OrderBook, RawBook};
use crate::fetch::FetchError;
use crate::table::{
    begin_resize, commit_model, commit_resizes, default_width, lemma_commit_widths_nonneg,
    resize_begun, widths_nonneg, ColumnKind, ScrollOffset, WatchlistColumn,
};
use crate::watch::{batch_failure_applied, batch_success_applied, WatchState};

verus! {

/// One inbound event: a user interaction from the presentation layer,
/// a scheduler trigger, or a completed fetch cycle.
#[derive(Debug)]
pub enum Message {
    /// The body pane scrolled; header and footer must follow.
    SyncHeader(ScrollOffset),
    /// A column resize began or moved, with its current offset.
    Resizing(usize, i64),
    /// A resize gesture ended; commit every pending offset.
    Resized,
    /// The price refresh trigger: start a new batch fetch.
    FetchData,
    /// The order-book refresh trigger: start a new depth fetch.
    FetchBook,
    /// A price batch completed.
    DataFetched(BatchResult),
    /// An order-book fetch completed.
    BookFetched(Result<RawBook, FetchError>),
}

/// The follow-up effect the caller must perform after an update.
#[derive(Debug)]
pub enum Action {
    /// Nothing to do.
    Idle,
    /// Scroll the header and footer panes to this offset.
    ScrollTo(ScrollOffset),
    /// Launch one price fetch per tracked symbol and deliver
    /// [`Message::DataFetched`].
    FetchPrices,
    /// Launch one order-book fetch and deliver
    /// [`Message::BookFetched`].
    FetchBook,
}

/// The column set a fresh application starts with.
pub open spec fn initial_columns() -> Seq<WatchlistColumn> {
    seq![
        WatchlistColumn {
            kind: ColumnKind::Symbol,
            width: default_width(ColumnKind::Symbol),
            resize_offset: None,
        },
        WatchlistColumn {
            kind: ColumnKind::Price,
            width: default_width(ColumnKind::Price),
            resize_offset: None,
        },
        WatchlistColumn {
            kind: ColumnKind::LastUpdate,
            width: default_width(ColumnKind::LastUpdate),
            resize_offset: None,
        },
        WatchlistColumn {
            kind: ColumnKind::Error,
            width: default_width(ColumnKind::Error),
            resize_offset: None,
        },
    ]
}

/// The owned application state: column layout, watch list, order book,
/// and the three pane scroll offsets.
pub struct Krader {
    pub columns: Vec<WatchlistColumn>,
    pub watch_list: WatchState,
    pub order_book: OrderBook,
    pub header: ScrollOffset,
    pub body: ScrollOffset,
    pub footer: ScrollOffset,
    pub resize_columns_enabled: bool,
    pub footer_enabled: bool,
    pub min_width_enabled: bool,
}

/// The display toggles are untouched.
pub open spec fn same_flags(a: Krader, b: Krader) -> bool {
    &&& a.resize_columns_enabled == b.resize_columns_enabled
    &&& a.footer_enabled == b.footer_enabled
    &&& a.min_width_enabled == b.min_width_enabled
}

/// The three pane offsets are untouched.
pub open spec fn same_scroll(a: Krader, b: Krader) -> bool {
    &&& a.header == b.header
    &&& a.body == b.body
    &&& a.footer == b.footer
}

impl Krader {
    /// Well-formedness: no column width is ever negative.
    pub open spec fn wf(&self) -> bool {
        widths_nonneg(self.columns@)
    }

    /// A fresh application: default columns, empty watch list and
    /// book, panes at the origin — and a first price fetch to perform.
    pub fn new() -> (r: (Krader, Action))
        ensures
            r.0.columns@ == initial_columns(),
            r.0.watch_list.items@.len() == 0,
            r.0.order_book.pair@.len() == 0,
            r.0.order_book.bids@.len() == 0,
            r.0.order_book.asks@.len() == 0,
            r.0.order_book.last_error is None,
            r.0.header == (ScrollOffset { x: 0, y: 0 }),
            r.0.body == (ScrollOffset { x: 0, y: 0 }),
            r.0.footer == (ScrollOffset { x: 0, y: 0 }),
            r.0.resize_columns_enabled,
            r.0.footer_enabled,
            r.0.min_width_enabled,
            r.0.wf(),
            r.1 is FetchPrices,
    {
        let mut columns: Vec<WatchlistColumn> = Vec::new();
        columns.push(WatchlistColumn::new(ColumnKind::Symbol));
        columns.push(WatchlistColumn::new(ColumnKind::Price));
        columns.push(WatchlistColumn::new(ColumnKind::LastUpdate));
        columns.push(WatchlistColumn::new(ColumnKind::Error));
        proof {
            assert(columns@ =~= initial_columns());
        }
        let state = Krader {
            columns,
            watch_list: WatchState::new(),
            order_book: OrderBook::new(String::new()),
            header: ScrollOffset::zero(),
            body: ScrollOffset::zero(),
            footer: ScrollOffset::zero(),
            resize_columns_enabled: true,
            footer_enabled: true,
            min_width_enabled: true,
        };
        (state, Action::FetchPrices)
    }

    /// Apply one event and say what to do next.
    ///
    /// Every mutation of the application state happens here, one
    /// event at a time; each arm of the contract pins down both the
    /// state change and the returned action.
    pub fn update(&mut self, message: Message) -> (a: Action)
        ensures
            old(self).wf() ==> final(self).wf(),
            match message {
                Message::SyncHeader(off) => {
                    &&& final(self).header == off
                    &&& final(self).body == off
                    &&& final(self).footer == off
                    &&& final(self).columns == old(self).columns
                    &&& final(self).watch_list == old(self).watch_list
                    &&& final(self).order_book == old(self).order_book
                    &&& same_flags(*old(self), *final(self))
                    &&& a == Action::ScrollTo(off)
                },
                Message::Resizing(index, offset) => {
                    &&& resize_begun(
                        old(self).columns@,
                        final(self).columns@,
                        index as int,
                        offset,
                    )
                    &&& final(self).watch_list == old(self).watch_list
                    &&& final(self).order_book == old(self).order_book
                    &&& same_scroll(*old(self), *final(self))
                    &&& same_flags(*old(self), *final(self))
                    &&& a is Idle
                },
                Message::Resized => {
                    &&& final(self).columns@ == commit_model(old(self).columns@)
                    &&& final(self).watch_list == old(self).watch_list
                    &&& final(self).order_book == old(self).order_book
                    &&& same_scroll(*old(self), *final(self))
                    &&& same_flags(*old(self), *final(self))
                    &&& a is Idle
                },
                Message::FetchData => {
                    &&& *final(self) == *old(self)
                    &&& a is FetchPrices
                },
                Message::FetchBook => {
                    &&& *final(self) == *old(self)
                    &&& a is FetchBook
                },
                Message::DataFetched(batch) => {
                    &&& match batch {
                        BatchResult::Success(pairs) => exists|t: i64|
                            batch_success_applied(final(self).watch_list.items@, pairs@, t),
                        BatchResult::Failure(e) => batch_failure_applied(
                            old(self).watch_list.items@,
                            final(self).watch_list.items@,
                            e,
                        ),
                    }
                    &&& final(self).columns == old(self).columns
                    &&& final(self).order_book == old(self).order_book
                    &&& same_scroll(*old(self), *final(self))
                    &&& same_flags(*old(self), *final(self))
                    &&& a is Idle
                },
                Message::BookFetched(result) => {
                    &&& match result {
                        Ok(raw) => book_success_applied(
                            final(self).order_book,
                            raw.pair@,
                            raw.bids@,
                            raw.asks@,
                        ),
                        Err(e) => book_failure_applied(
                            old(self).order_book,
                            final(self).order_book,
                            e,
                        ),
                    }
                    &&& final(self).columns == old(self).columns
                    &&& final(self).watch_list == old(self).watch_list
                    &&& same_scroll(*old(self), *final(self))
                    &&& same_flags(*old(self), *final(self))
                    &&& a is Idle
                },
            },
    {
        match message {
            Message::SyncHeader(off) => {
                self.header = off;
                self.body = off;
                self.footer = off;
                Action::ScrollTo(off)
            },
            Message::Resizing(index, offset) => {
                begin_resize(&mut self.columns, index, offset);
                proof {
                    if old(self).wf() && 0 <= index < old(self).columns@.len() {
                        assert forall|k: int|
                            0 <= k < self.columns@.len() implies (#[trigger] self.columns@[k]).width
                            >= 0 by {
                            if k != index {
                                assert(self.columns@[k] == old(self).columns@[k]);
                            }
                        }
                    }
                }
                Action::Idle
            },
            Message::Resized => {
                commit_resizes(&mut self.columns);
                proof {
                    if old(self).wf() {
                        lemma_commit_widths_nonneg(old(self).columns@);
                    }
                }
                Action::Idle
            },
            Message::FetchData => Action::FetchPrices,
            Message::FetchBook => Action::FetchBook,
            Message::DataFetched(batch) => {
                self.watch_list.apply_now(batch);
                Action::Idle
            },
            Message::BookFetched(result) => {
                self.order_book.apply(result);
                Action::Idle
            },
        }
    }
}

} // verus!
