use once_watch::GetStep;
use once_watch::OnceWatch;

#[test]
fn try_get_before_set_is_absent() {
    let cell: OnceWatch<u8> = OnceWatch::new();
    assert_eq!(cell.try_get(), None);
    assert_eq!(cell.try_get(), None);
}

#[test]
fn default_is_an_empty_cell() {
    let cell: OnceWatch<u8> = Default::default();
    assert_eq!(cell.try_get(), None);
    assert_eq!(cell.set(1), Ok(()));
    assert_eq!(cell.try_get(), Some(&1));
}

#[test]
fn set_then_try_get_returns_value_forever() {
    let cell: OnceWatch<u8> = OnceWatch::new();
    assert_eq!(cell.set(7), Ok(()));
    assert_eq!(cell.try_get(), Some(&7));
    assert_eq!(cell.try_get(), Some(&7));
    assert_eq!(cell.try_get(), Some(&7));
}

#[test]
fn first_set_wins_and_second_is_rejected_with_own_payload() {
    let cell: OnceWatch<u32> = OnceWatch::new();
    assert_eq!(cell.set(1), Ok(()));
    assert_eq!(cell.set(2), Err(2));
    assert_eq!(cell.try_get(), Some(&1));
}

#[test]
fn rejected_set_hands_back_the_exact_value() {
    let cell: OnceWatch<String> = OnceWatch::new();
    assert_eq!(cell.set(String::from("first")), Ok(()));
    assert_eq!(cell.set(String::from("second")), Err(String::from("second")));
    assert_eq!(cell.try_get(), Some(&String::from("first")));
}

#[test]
fn get_after_set_returns_without_suspending() {
    let cell: OnceWatch<u8> = OnceWatch::new();
    assert_eq!(cell.set(42), Ok(()));
    assert_eq!(*cell.get(), 42);
    assert_eq!(*cell.get(), 42);
}

#[test]
fn get_step_is_pending_before_set_and_ready_after() {
    let cell: OnceWatch<u8> = OnceWatch::new();
    assert!(matches!(cell.get_step(), GetStep::Pending(_)));
    assert_eq!(cell.set(3), Ok(()));
    match cell.get_step() {
        GetStep::Ready(v) => assert_eq!(*v, 3),
        GetStep::Pending(_) => panic!("slot was populated"),
    }
}

#[test]
fn pubsub_sequence() {
    let cell: OnceWatch<u8> = OnceWatch::new();
    let secret: u8 = 200;

    for _ in 0..16 {
        assert!(cell.try_get().is_none());
        assert!(matches!(cell.get_step(), GetStep::Pending(_)));
    }

    assert_eq!(cell.set(secret), Ok(()));
    assert_eq!(cell.set(secret), Err(secret));

    for _ in 0..16 {
        assert_eq!(*cell.get(), secret);
    }
    for _ in 0..16 {
        assert_eq!(cell.try_get(), Some(&secret));
        assert_eq!(*cell.get(), secret);
    }
}

#[test]
fn two_writers_exactly_one_succeeds_in_either_order() {
    let first: OnceWatch<u8> = OnceWatch::new();
    assert_eq!(first.set(10), Ok(()));
    assert_eq!(first.set(20), Err(20));
    assert_eq!(first.try_get(), Some(&10));

    let second: OnceWatch<u8> = OnceWatch::new();
    assert_eq!(second.set(20), Ok(()));
    assert_eq!(second.set(10), Err(10));
    assert_eq!(second.try_get(), Some(&20));
}
