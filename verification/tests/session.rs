use tdjson::session::{Action, Event, Misuse, Session, MAX_SENDERS};

#[test]
fn new_session_has_one_holder() {
    let session = Session::new();
    assert_eq!(session.holders(), 1);
    assert!(!session.is_destroyed());
}

#[test]
fn dropping_the_undivided_handle_destroys() {
    let mut session = Session::new();
    assert_eq!(session.apply(Event::DropClient), Ok(Action::Destroy));
    assert!(session.is_destroyed());
    assert_eq!(session.holders(), 0);
}

#[test]
fn split_leaves_two_holders_and_destroys_nothing() {
    let mut session = Session::new();
    assert_eq!(session.apply(Event::Split), Ok(Action::Keep));
    assert_eq!(session.holders(), 2);
    assert!(!session.is_destroyed());
}

#[test]
fn split_happens_once() {
    let mut session = Session::new();
    session.apply(Event::Split).unwrap();
    assert_eq!(session.apply(Event::Split), Err(Misuse::NoClient));
    assert_eq!(session.holders(), 2);
}

#[test]
fn undivided_handle_is_gone_after_split() {
    let mut session = Session::new();
    session.apply(Event::Split).unwrap();
    assert_eq!(session.apply(Event::DropClient), Err(Misuse::NoClient));
    assert_eq!(session.holders(), 2);
}

#[test]
fn no_sender_or_receiver_before_split() {
    let mut session = Session::new();
    assert_eq!(session.apply(Event::CloneSender), Err(Misuse::NoSender));
    assert_eq!(session.apply(Event::DropSender), Err(Misuse::NoSender));
    assert_eq!(session.apply(Event::DropReceiver), Err(Misuse::NoReceiver));
    assert_eq!(session.holders(), 1);
}

#[test]
fn sender_last_to_go_destroys() {
    let mut session = Session::new();
    session.apply(Event::Split).unwrap();
    assert_eq!(session.apply(Event::DropReceiver), Ok(Action::Keep));
    assert_eq!(session.apply(Event::DropSender), Ok(Action::Destroy));
    assert!(session.is_destroyed());
}

#[test]
fn receiver_last_to_go_destroys() {
    let mut session = Session::new();
    session.apply(Event::Split).unwrap();
    assert_eq!(session.apply(Event::DropSender), Ok(Action::Keep));
    assert_eq!(session.apply(Event::DropReceiver), Ok(Action::Destroy));
    assert!(session.is_destroyed());
}

#[test]
fn receiver_is_dropped_once() {
    let mut session = Session::new();
    session.apply(Event::Split).unwrap();
    session.apply(Event::DropReceiver).unwrap();
    assert_eq!(session.apply(Event::DropReceiver), Err(Misuse::NoReceiver));
    assert_eq!(session.holders(), 1);
}

#[test]
fn sender_cannot_be_duplicated_once_all_are_gone() {
    let mut session = Session::new();
    session.apply(Event::Split).unwrap();
    session.apply(Event::DropSender).unwrap();
    assert_eq!(session.apply(Event::CloneSender), Err(Misuse::NoSender));
    assert_eq!(session.holders(), 1);
}

#[test]
fn nothing_happens_to_a_destroyed_session() {
    let mut session = Session::new();
    session.apply(Event::DropClient).unwrap();
    assert_eq!(session.apply(Event::Split), Err(Misuse::NoClient));
    assert_eq!(session.apply(Event::CloneSender), Err(Misuse::NoSender));
    assert_eq!(session.apply(Event::DropSender), Err(Misuse::NoSender));
    assert_eq!(session.apply(Event::DropReceiver), Err(Misuse::NoReceiver));
    assert_eq!(session.apply(Event::DropClient), Err(Misuse::NoClient));
    assert!(session.is_destroyed());
}

#[test]
fn many_clones_one_destroy_after_the_last_drop() {
    let clones: u128 = 8;
    let mut session = Session::new();
    session.apply(Event::Split).unwrap();
    for _ in 0..clones {
        assert_eq!(session.apply(Event::CloneSender), Ok(Action::Keep));
    }
    assert_eq!(session.holders(), clones + 2);
    let mut destroys = 0;
    for _ in 0..clones {
        if session.apply(Event::DropSender) == Ok(Action::Destroy) {
            destroys += 1;
        }
    }
    assert_eq!(session.holders(), 2);
    if session.apply(Event::DropReceiver) == Ok(Action::Destroy) {
        destroys += 1;
    }
    assert_eq!(destroys, 0);
    assert_eq!(session.apply(Event::DropSender), Ok(Action::Destroy));
    assert_eq!(session.holders(), 0);
    assert_eq!(session.apply(Event::DropSender), Err(Misuse::NoSender));
}

#[test]
fn interleaved_clones_and_drops_destroy_once() {
    let course = [
        Event::Split,
        Event::CloneSender,
        Event::DropSender,
        Event::CloneSender,
        Event::CloneSender,
        Event::DropReceiver,
        Event::DropSender,
        Event::DropReceiver,
        Event::DropSender,
        Event::DropSender,
        Event::DropSender,
        Event::CloneSender,
        Event::DropClient,
    ];
    let mut session = Session::new();
    let mut destroyed_at = Vec::new();
    for (at, event) in course.iter().enumerate() {
        if session.apply(*event) == Ok(Action::Destroy) {
            destroyed_at.push(at);
        }
    }
    assert_eq!(destroyed_at, vec![9]);
    assert!(session.is_destroyed());
}

#[test]
fn sender_limit_is_the_largest_count() {
    assert_eq!(MAX_SENDERS, u64::MAX);
}

#[test]
fn account_with_given_holders() {
    let session = Session::with_holders(false, 3, true).unwrap();
    assert_eq!(session.holders(), 4);
    let session = Session::with_holders(true, 0, false).unwrap();
    assert_eq!(session.holders(), 1);
    let session = Session::with_holders(false, 0, false).unwrap();
    assert!(session.is_destroyed());
}

#[test]
fn undivided_handle_stands_alone() {
    assert!(Session::with_holders(true, 1, false).is_none());
    assert!(Session::with_holders(true, 0, true).is_none());
    assert!(Session::with_holders(true, 2, true).is_none());
}

#[test]
fn sender_beyond_the_limit_is_refused() {
    let mut session = Session::with_holders(false, MAX_SENDERS - 1, true).unwrap();
    assert_eq!(session.apply(Event::CloneSender), Ok(Action::Keep));
    assert_eq!(session.holders(), u128::from(MAX_SENDERS) + 1);
    assert_eq!(session.apply(Event::CloneSender), Err(Misuse::TooManySenders));
    assert_eq!(session.holders(), u128::from(MAX_SENDERS) + 1);
    assert_eq!(session.apply(Event::DropSender), Ok(Action::Keep));
    assert_eq!(session.apply(Event::CloneSender), Ok(Action::Keep));
}
