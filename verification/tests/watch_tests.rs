use krader::aggregate::{BatchResult, FetchedPrice};
use krader::fetch::price_outcome;
use krader::watch::WatchState;
use krader::Decimal;
use krader::FetchError;

fn dec(mantissa: u64, scale: u32) -> Decimal {
    Decimal { negative: false, mantissa, scale }
}

fn success_batch(pairs: &[(&str, Decimal)]) -> BatchResult {
    BatchResult::Success(
        pairs
            .iter()
            .map(|(s, p)| FetchedPrice { symbol: s.to_string(), price: *p })
            .collect(),
    )
}

#[test]
fn successful_batch_replaces_items() {
    let mut state = WatchState::new();
    state.apply(success_batch(&[("A", dec(100, 1)), ("B", dec(200, 1))]), 1111);
    assert_eq!(state.items.len(), 2);
    assert_eq!(state.items[0].symbol, "A".to_string());
    assert_eq!(state.items[0].price, Some(dec(100, 1)));
    assert_eq!(state.items[0].last_update, Some(1111));
    assert_eq!(state.items[0].error, None);
    assert_eq!(state.items[1].symbol, "B".to_string());
    assert_eq!(state.items[1].price, Some(dec(200, 1)));
    assert_eq!(state.items[1].last_update, Some(1111));
    assert_eq!(state.items[1].error, None);
}

#[test]
fn failed_batch_broadcasts_error_and_keeps_data() {
    let mut state = WatchState::new();
    state.apply(success_batch(&[("A", dec(100, 1)), ("B", dec(200, 1))]), 1111);
    state.apply(
        BatchResult::Failure(FetchError::Transport("connection reset".to_string())),
        2222,
    );
    assert_eq!(state.items.len(), 2);
    for item in &state.items {
        assert_eq!(
            item.error,
            Some("HTTP request failed: connection reset".to_string())
        );
        assert_eq!(item.last_update, Some(1111));
    }
    assert_eq!(state.items[0].price, Some(dec(100, 1)));
    assert_eq!(state.items[1].price, Some(dec(200, 1)));
}

#[test]
fn next_success_clears_previous_error() {
    let mut state = WatchState::new();
    state.apply(BatchResult::Failure(FetchError::MissingField), 1);
    state.apply(success_batch(&[("A", dec(5, 0))]), 2);
    assert_eq!(state.items.len(), 1);
    assert_eq!(state.items[0].error, None);
    assert_eq!(state.items[0].last_update, Some(2));
}

#[test]
fn configured_symbols_start_empty() {
    let symbols = vec!["A".to_string(), "B".to_string()];
    let state = WatchState::with_symbols(&symbols);
    assert_eq!(state.items.len(), 2);
    for (item, symbol) in state.items.iter().zip(symbols.iter()) {
        assert_eq!(&item.symbol, symbol);
        assert_eq!(item.price, None);
        assert_eq!(item.last_update, None);
        assert_eq!(item.error, None);
    }
}

#[test]
fn raw_field_classification_is_distinct() {
    match price_outcome(None) {
        Err(FetchError::MissingField) => {},
        _ => panic!("absent field must be MissingField"),
    }
    match price_outcome(Some("10.0".to_string())) {
        Ok(d) => assert_eq!(d, dec(100, 1)),
        _ => panic!("a decimal literal must parse"),
    }
    match price_outcome(Some("ten".to_string())) {
        Err(FetchError::NumericParse(t)) => assert_eq!(t, "ten".to_string()),
        _ => panic!("a malformed literal must be NumericParse"),
    }
}

#[test]
fn fetch_error_messages() {
    assert_eq!(
        FetchError::Transport("boom".to_string()).message(),
        "HTTP request failed: boom".to_string()
    );
    assert_eq!(
        FetchError::Decode("eof".to_string()).message(),
        "Failed to parse JSON: eof".to_string()
    );
    assert_eq!(
        FetchError::MissingField.message(),
        "Price field missing in response".to_string()
    );
    assert_eq!(
        FetchError::NumericParse("x".to_string()).message(),
        "Failed to parse price string: x".to_string()
    );
}
