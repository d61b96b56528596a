use process_stream::cancel::{CancelState, CancelToken};

#[test]
fn a_new_latch_is_armed() {
    let token = CancelToken::new();
    assert_eq!(token.state(), CancelState::Armed);
    assert!(!token.is_fired());
}

#[test]
fn only_the_first_fire_is_delivered() {
    let mut token = CancelToken::new();
    assert!(token.fire());
    assert_eq!(token.state(), CancelState::Fired);
    assert!(token.is_fired());
    assert!(!token.fire());
    assert!(!token.fire());
    assert_eq!(token.state(), CancelState::Fired);
}

#[test]
fn firing_twice_leaves_what_firing_once_left() {
    let mut once = CancelToken::new();
    once.fire();
    let mut twice = CancelToken::new();
    twice.fire();
    twice.fire();
    assert_eq!(once, twice);
}

#[test]
fn a_closed_latch_delivers_nothing() {
    let mut token = CancelToken::new();
    token.close();
    assert_eq!(token.state(), CancelState::Closed);
    assert!(!token.fire());
    assert_eq!(token.state(), CancelState::Closed);
    assert!(!token.is_fired());
}

#[test]
fn closing_ends_a_pending_request() {
    let mut token = CancelToken::new();
    assert!(token.fire());
    token.close();
    assert_eq!(token.state(), CancelState::Closed);
    assert!(!token.fire());
}

#[test]
fn copies_of_a_latch_are_apart() {
    let mut first = CancelToken::new();
    let second = first;
    assert!(first.fire());
    assert_eq!(second.state(), CancelState::Armed);
}
