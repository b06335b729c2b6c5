use krader::aggregate::{all_or_nothing, BatchResult};
use krader::Decimal;
use krader::FetchError;

fn dec(mantissa: u64, scale: u32) -> Decimal {
    Decimal { negative: false, mantissa, scale }
}

fn targets(names: &[&str]) -> Vec<String> {
    names.iter().map(|n| n.to_string()).collect()
}

#[test]
fn all_successes_keep_target_order() {
    let t = targets(&["A", "B", "C"]);
    let outcomes = vec![Ok(dec(100, 1)), Ok(dec(200, 1)), Ok(dec(300, 1))];
    match all_or_nothing(&t, outcomes) {
        BatchResult::Success(pairs) => {
            let symbols: Vec<String> = pairs.iter().map(|p| p.symbol.clone()).collect();
            assert_eq!(symbols, vec!["A", "B", "C"]);
            assert_eq!(pairs[0].price, dec(100, 1));
            assert_eq!(pairs[1].price, dec(200, 1));
            assert_eq!(pairs[2].price, dec(300, 1));
        },
        BatchResult::Failure(_) => panic!("batch should succeed"),
    }
}

#[test]
fn one_failure_fails_whole_batch() {
    let t = targets(&["A", "B"]);
    let outcomes = vec![Ok(dec(100, 1)), Err(FetchError::MissingField)];
    match all_or_nothing(&t, outcomes) {
        BatchResult::Success(_) => panic!("batch should fail"),
        BatchResult::Failure(e) => {
            assert_eq!(e.message(), "Price field missing in response".to_string());
        },
    }
}

#[test]
fn first_failure_is_the_representative() {
    let t = targets(&["A", "B", "C"]);
    let outcomes = vec![
        Ok(dec(100, 1)),
        Err(FetchError::Transport("timeout".to_string())),
        Err(FetchError::MissingField),
    ];
    match all_or_nothing(&t, outcomes) {
        BatchResult::Success(_) => panic!("batch should fail"),
        BatchResult::Failure(e) => {
            assert_eq!(e.message(), "HTTP request failed: timeout".to_string());
        },
    }
}

#[test]
fn empty_batch_succeeds_with_no_pairs() {
    let t: Vec<String> = Vec::new();
    let outcomes: Vec<Result<Decimal, FetchError>> = Vec::new();
    match all_or_nothing(&t, outcomes) {
        BatchResult::Success(pairs) => assert!(pairs.is_empty()),
        BatchResult::Failure(_) => panic!("empty batch should succeed"),
    }
}
