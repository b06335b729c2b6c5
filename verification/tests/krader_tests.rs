use krader::aggregate::{all_or_nothing, BatchResult};
use krader::book::RawBook;
use krader::fetch::price_outcome;
use krader::krader::{Action, Krader, Message};
use krader::sched::Scheduler;
use krader::table::{cell_value, header_label, CellValue, ColumnKind, ScrollOffset};
use krader::Decimal;
use krader::FetchError;

fn dec(mantissa: u64, scale: u32) -> Decimal {
    Decimal { negative: false, mantissa, scale }
}

#[test]
fn fresh_state_has_default_columns_and_fetches() {
    let (state, action) = Krader::new();
    assert_eq!(state.columns.len(), 4);
    for col in &state.columns {
        assert_eq!(col.width(), 100);
        assert_eq!(col.resize_offset(), None);
    }
    assert!(state.watch_list.items.is_empty());
    assert!(state.order_book.bids.is_empty());
    assert!(matches!(action, Action::FetchPrices));
}

#[test]
fn body_scroll_is_mirrored_to_header_and_footer() {
    let (mut state, _) = Krader::new();
    let offset = ScrollOffset { x: 37, y: 5 };
    let action = state.update(Message::SyncHeader(offset));
    assert_eq!(state.body, offset);
    assert_eq!(state.header, offset);
    assert_eq!(state.footer, offset);
    assert_eq!(state.header, state.body);
    assert_eq!(state.footer, state.body);
    assert!(matches!(action, Action::ScrollTo(o) if o == offset));
}

#[test]
fn resize_commit_folds_offset_into_width() {
    let (mut state, _) = Krader::new();
    state.update(Message::Resizing(1, 25));
    assert_eq!(state.columns[1].resize_offset(), Some(25));
    assert_eq!(state.columns[1].width(), 100);
    state.update(Message::Resized);
    assert_eq!(state.columns[1].width(), 125);
    assert_eq!(state.columns[1].resize_offset(), None);
    for (i, col) in state.columns.iter().enumerate() {
        if i != 1 {
            assert_eq!(col.width(), 100);
        }
    }
}

#[test]
fn commit_with_nothing_pending_changes_no_width() {
    let (mut state, _) = Krader::new();
    state.update(Message::Resizing(0, 10));
    state.update(Message::Resized);
    let widths: Vec<i64> = state.columns.iter().map(|c| c.width()).collect();
    state.update(Message::Resized);
    let again: Vec<i64> = state.columns.iter().map(|c| c.width()).collect();
    assert_eq!(widths, again);
    state.update(Message::Resized);
    let third: Vec<i64> = state.columns.iter().map(|c| c.width()).collect();
    assert_eq!(widths, third);
}

#[test]
fn resize_commits_every_pending_column_at_once() {
    let (mut state, _) = Krader::new();
    state.update(Message::Resizing(0, 10));
    state.update(Message::Resizing(2, -30));
    state.update(Message::Resized);
    assert_eq!(state.columns[0].width(), 110);
    assert_eq!(state.columns[1].width(), 100);
    assert_eq!(state.columns[2].width(), 70);
    assert_eq!(state.columns[3].width(), 100);
}

#[test]
fn width_never_goes_below_zero() {
    let (mut state, _) = Krader::new();
    state.update(Message::Resizing(0, -150));
    state.update(Message::Resized);
    assert_eq!(state.columns[0].width(), 0);
}

#[test]
fn out_of_range_resize_is_ignored() {
    let (mut state, _) = Krader::new();
    state.update(Message::Resizing(99, 25));
    state.update(Message::Resized);
    for col in &state.columns {
        assert_eq!(col.width(), 100);
        assert_eq!(col.resize_offset(), None);
    }
}

#[test]
fn refresh_trigger_requests_a_fetch() {
    let (mut state, _) = Krader::new();
    assert!(matches!(state.update(Message::FetchData), Action::FetchPrices));
    assert!(matches!(state.update(Message::FetchBook), Action::FetchBook));
}

#[test]
fn fetched_batch_end_to_end() {
    let (mut state, _) = Krader::new();
    let targets = vec!["A".to_string(), "B".to_string()];
    let outcomes = vec![
        price_outcome(Some("10.0".to_string())),
        price_outcome(Some("20.0".to_string())),
    ];
    let batch = all_or_nothing(&targets, outcomes);
    state.update(Message::DataFetched(batch));
    assert_eq!(state.watch_list.items.len(), 2);
    assert_eq!(state.watch_list.items[0].symbol, "A".to_string());
    assert_eq!(state.watch_list.items[0].price, Some(dec(100, 1)));
    assert!(state.watch_list.items[0].last_update.is_some());
    assert_eq!(state.watch_list.items[0].error, None);
    assert_eq!(state.watch_list.items[1].symbol, "B".to_string());
    assert_eq!(state.watch_list.items[1].price, Some(dec(200, 1)));
    assert!(state.watch_list.items[1].last_update.is_some());
    assert_eq!(state.watch_list.items[1].error, None);
    assert_eq!(
        state.watch_list.items[0].last_update,
        state.watch_list.items[1].last_update
    );
}

#[test]
fn failed_batch_end_to_end_broadcasts_message() {
    let (mut state, _) = Krader::new();
    let targets = vec!["A".to_string(), "B".to_string()];
    let good = vec![
        price_outcome(Some("10.0".to_string())),
        price_outcome(Some("20.0".to_string())),
    ];
    state.update(Message::DataFetched(all_or_nothing(&targets, good)));
    let bad = vec![
        price_outcome(Some("10.5".to_string())),
        Err(FetchError::Transport("B is down".to_string())),
    ];
    state.update(Message::DataFetched(all_or_nothing(&targets, bad)));
    assert_eq!(state.watch_list.items.len(), 2);
    for item in &state.watch_list.items {
        assert_eq!(item.error, Some("HTTP request failed: B is down".to_string()));
    }
    assert_eq!(state.watch_list.items[0].price, Some(dec(100, 1)));
    assert_eq!(state.watch_list.items[1].price, Some(dec(200, 1)));
}

#[test]
fn book_fetch_through_update() {
    let (mut state, _) = Krader::new();
    let fetched = RawBook {
        pair: "PI_XBTUSD".to_string(),
        bids: vec![("100.5".to_string(), "2".to_string())],
        asks: vec![("101.0".to_string(), "5".to_string())],
    };
    state.update(Message::BookFetched(Ok(fetched)));
    assert_eq!(state.order_book.pair, "PI_XBTUSD".to_string());
    assert_eq!(state.order_book.bids.len(), 1);
    assert_eq!(state.order_book.asks.len(), 1);
    state.update(Message::BookFetched(Err(FetchError::MissingField)));
    assert_eq!(state.order_book.bids.len(), 1);
    assert_eq!(
        state.order_book.last_error,
        Some("Price field missing in response".to_string())
    );
}

#[test]
fn cell_values_follow_the_row() {
    let (mut state, _) = Krader::new();
    let targets = vec!["A".to_string()];
    let outcomes = vec![price_outcome(Some("10.0".to_string()))];
    state.update(Message::DataFetched(all_or_nothing(&targets, outcomes)));
    let row = &state.watch_list.items[0];
    assert_eq!(cell_value(ColumnKind::Symbol, row), CellValue::Text("A".to_string()));
    assert_eq!(cell_value(ColumnKind::Price, row), CellValue::Num(dec(100, 1)));
    assert!(matches!(cell_value(ColumnKind::LastUpdate, row), CellValue::Time(_)));
    assert_eq!(cell_value(ColumnKind::Error, row), CellValue::Missing);
}

#[test]
fn header_labels() {
    assert_eq!(header_label(ColumnKind::Symbol), "SYMBOL".to_string());
    assert_eq!(header_label(ColumnKind::Price), "PRICE".to_string());
    assert_eq!(header_label(ColumnKind::LastUpdate), "L.TIME".to_string());
    assert_eq!(header_label(ColumnKind::Error), "ERROR".to_string());
}

#[test]
fn scheduler_fires_only_after_its_period() {
    let mut s = Scheduler::new(5000, 1_000_000);
    assert!(!s.poll(1_000_100));
    assert!(!s.poll(1_004_999));
    assert!(s.poll(1_005_000));
    assert!(!s.poll(1_009_999));
    assert!(s.poll(1_010_000));
}

#[test]
fn independent_schedulers_do_not_interfere() {
    let mut prices = Scheduler::new(5000, 0);
    let mut book = Scheduler::new(1000, 0);
    assert!(book.poll(1000));
    assert!(!prices.poll(1000));
    assert!(book.poll(2000));
    assert!(!prices.poll(2000));
    assert!(prices.poll(5000));
}
