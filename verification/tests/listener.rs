use http_server::server::listener::{
    bind_address, step, ListenerAction, ListenerEvent, ListenerState,
};

#[test]
fn address_and_port() {
    assert_eq!(bind_address("127.0.0.1", 4221), "127.0.0.1:4221");
    assert_eq!(bind_address("localhost", 0), "localhost:0");
    assert_eq!(bind_address("", 65535), ":65535");
    assert_eq!(bind_address("::1", 80), "::1:80");
}

#[test]
fn binding_starts_the_listener() {
    assert_eq!(
        step(ListenerState::Starting, ListenerEvent::Bound),
        (ListenerState::Accepting, ListenerAction::Announce)
    );
}

#[test]
fn failed_bind_is_fatal() {
    assert_eq!(
        step(ListenerState::Starting, ListenerEvent::BindFailed),
        (ListenerState::Stopped, ListenerAction::Halt)
    );
    for event in [
        ListenerEvent::Bound,
        ListenerEvent::BindFailed,
        ListenerEvent::Accepted,
        ListenerEvent::AcceptFailed,
    ] {
        assert_eq!(
            step(ListenerState::Stopped, event),
            (ListenerState::Stopped, ListenerAction::Ignore)
        );
    }
}

#[test]
fn accepted_connection_is_served() {
    assert_eq!(
        step(ListenerState::Accepting, ListenerEvent::Accepted),
        (ListenerState::Accepting, ListenerAction::Serve)
    );
}

#[test]
fn failed_accept_does_not_stop_the_listener() {
    assert_eq!(
        step(ListenerState::Accepting, ListenerEvent::AcceptFailed),
        (ListenerState::Accepting, ListenerAction::Report)
    );
    let mut state = ListenerState::Starting;
    let mut served = 0;
    for event in [
        ListenerEvent::Bound,
        ListenerEvent::Accepted,
        ListenerEvent::AcceptFailed,
        ListenerEvent::AcceptFailed,
        ListenerEvent::Accepted,
    ] {
        let (next, action) = step(state, event);
        if action == ListenerAction::Serve {
            served += 1;
        }
        state = next;
    }
    assert_eq!(state, ListenerState::Accepting);
    assert_eq!(served, 2);
}

#[test]
fn events_out_of_place_are_ignored() {
    assert_eq!(
        step(ListenerState::Starting, ListenerEvent::Accepted),
        (ListenerState::Starting, ListenerAction::Ignore)
    );
    assert_eq!(
        step(ListenerState::Starting, ListenerEvent::AcceptFailed),
        (ListenerState::Starting, ListenerAction::Ignore)
    );
    assert_eq!(
        step(ListenerState::Accepting, ListenerEvent::Bound),
        (ListenerState::Accepting, ListenerAction::Ignore)
    );
    assert_eq!(
        step(ListenerState::Accepting, ListenerEvent::BindFailed),
        (ListenerState::Accepting, ListenerAction::Ignore)
    );
}
