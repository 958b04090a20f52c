use once_watch::model::apply_set;

#[test]
fn a_write_on_an_empty_cell_stores_its_value() {
    assert_eq!(apply_set(None, 5u8), (Some(5u8), Ok(())));
}

#[test]
fn a_write_on_a_populated_cell_is_rejected_with_its_own_payload() {
    assert_eq!(apply_set(Some(7u8), 5u8), (Some(7u8), Err(5u8)));
}

#[test]
fn two_concurrent_writers_linearize_to_one_winner() {
    let (after_a, first) = apply_set(None, 'a');
    let (after_ab, second) = apply_set(after_a, 'b');
    assert_eq!(first, Ok(()));
    assert_eq!(second, Err('b'));
    assert_eq!(after_ab, Some('a'));

    let (after_b, first) = apply_set(None, 'b');
    let (after_ba, second) = apply_set(after_b, 'a');
    assert_eq!(first, Ok(()));
    assert_eq!(second, Err('a'));
    assert_eq!(after_ba, Some('b'));
}

#[test]
fn in_a_chain_of_distinct_writers_only_the_first_succeeds() {
    let payloads: Vec<u32> = vec![3, 1, 4, 9, 5];
    let mut state: Option<u32> = None;
    let mut outcomes: Vec<Result<(), u32>> = Vec::new();
    for p in payloads.iter() {
        let (next, outcome) = apply_set(state, *p);
        state = next;
        outcomes.push(outcome);
    }
    assert_eq!(state, Some(3));
    assert_eq!(outcomes, vec![Ok(()), Err(1), Err(4), Err(9), Err(5)]);
}
