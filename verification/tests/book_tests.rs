use krader::book::{parse_levels, Level, OrderBook, RawBook};
use krader::Decimal;
use krader::FetchError;

fn dec(negative: bool, mantissa: u64, scale: u32) -> Decimal {
    Decimal { negative, mantissa, scale }
}

fn raw(pairs: &[(&str, &str)]) -> Vec<(String, String)> {
    pairs.iter().map(|(p, s)| (p.to_string(), s.to_string())).collect()
}

#[test]
fn drops_unparseable_middle_entry() {
    let bids = raw(&[("100.5", "2"), ("bad", "1"), ("99.0", "3")]);
    let parsed = parse_levels(&bids);
    assert_eq!(
        parsed,
        vec![
            Level { price: dec(false, 1005, 1), size: dec(false, 2, 0) },
            Level { price: dec(false, 990, 1), size: dec(false, 3, 0) },
        ]
    );
    let as_f64: Vec<(f64, f64)> = parsed
        .iter()
        .map(|l| {
            (
                l.price.mantissa as f64 / 10f64.powi(l.price.scale as i32),
                l.size.mantissa as f64 / 10f64.powi(l.size.scale as i32),
            )
        })
        .collect();
    assert_eq!(as_f64, vec![(100.5, 2.0), (99.0, 3.0)]);
}

#[test]
fn drops_entry_with_unparseable_size() {
    let side = raw(&[("1.5", "x"), ("2.5", "4")]);
    let parsed = parse_levels(&side);
    assert_eq!(parsed, vec![Level { price: dec(false, 25, 1), size: dec(false, 4, 0) }]);
}

#[test]
fn keeps_feed_order() {
    let side = raw(&[("3", "1"), ("1", "1"), ("2", "1")]);
    let parsed = parse_levels(&side);
    let prices: Vec<u64> = parsed.iter().map(|l| l.price.mantissa).collect();
    assert_eq!(prices, vec![3, 1, 2]);
}

#[test]
fn successful_fetch_replaces_book_wholesale() {
    let mut book = OrderBook::new("PI_XBTUSD".to_string());
    book.apply(Err(FetchError::MissingField));
    let fetched = RawBook {
        pair: "PI_ETHUSD".to_string(),
        bids: raw(&[("100.5", "2")]),
        asks: raw(&[("101.0", "5"), ("?", "1")]),
    };
    book.apply(Ok(fetched));
    assert_eq!(book.pair, "PI_ETHUSD".to_string());
    assert_eq!(book.bids, vec![Level { price: dec(false, 1005, 1), size: dec(false, 2, 0) }]);
    assert_eq!(book.asks, vec![Level { price: dec(false, 1010, 1), size: dec(false, 5, 0) }]);
    assert_eq!(book.last_error, None);
}

#[test]
fn failed_fetch_keeps_stale_book() {
    let mut book = OrderBook::new("PI_XBTUSD".to_string());
    let fetched = RawBook {
        pair: "PI_XBTUSD".to_string(),
        bids: raw(&[("100.5", "2")]),
        asks: raw(&[("101.0", "5")]),
    };
    book.apply(Ok(fetched));
    let bids_before = book.bids.clone();
    let asks_before = book.asks.clone();
    book.apply(Err(FetchError::Transport("connection reset".to_string())));
    assert_eq!(book.pair, "PI_XBTUSD".to_string());
    assert_eq!(book.bids, bids_before);
    assert_eq!(book.asks, asks_before);
    assert_eq!(
        book.last_error,
        Some("HTTP request failed: connection reset".to_string())
    );
}
