use portapi::supervisor::{
    is_portapi_reachable, Action, Event, Phase, Status, Step, Supervisor, POLL_INTERVAL_SECS,
    PORTAPI_ENDPOINT, PORTAPI_STATUS_EVENT, RETRY_INTERVAL_SECS,
};

#[test]
fn constants_of_the_supervisor() {
    assert_eq!(PORTAPI_STATUS_EVENT, "portapi::status");
    assert_eq!(PORTAPI_ENDPOINT, "ws://127.0.0.1:817/api/database/v1");
    assert_eq!(POLL_INTERVAL_SECS, 1);
    assert_eq!(RETRY_INTERVAL_SECS, 2);
    assert_eq!(Status::Connected.as_str(), "connected");
    assert_eq!(Status::Disconnected.as_str(), "disconnected");
}

#[test]
fn supervisor_starts_disconnected() {
    let supervisor = Supervisor::new();
    assert_eq!(supervisor.phase(), Phase::Disconnected);
    assert!(!supervisor.is_reachable());
    assert!(!is_portapi_reachable(&supervisor));
}

#[test]
fn supervisor_connects_and_polls() {
    let mut supervisor = Supervisor::new();
    assert_eq!(
        supervisor.step(Event::Woke),
        Some(Step { notify: None, action: Action::Connect })
    );
    assert_eq!(supervisor.phase(), Phase::Connecting);
    assert!(!is_portapi_reachable(&supervisor));
    assert_eq!(
        supervisor.step(Event::ConnectSucceeded),
        Some(Step { notify: Some(Status::Connected), action: Action::Poll })
    );
    assert!(is_portapi_reachable(&supervisor));
    assert_eq!(
        supervisor.step(Event::Polled { closed: false }),
        Some(Step { notify: None, action: Action::Sleep(1) })
    );
    assert_eq!(
        supervisor.step(Event::Woke),
        Some(Step { notify: None, action: Action::Poll })
    );
    assert_eq!(supervisor.phase(), Phase::Connected);
    assert!(is_portapi_reachable(&supervisor));
}

#[test]
fn supervisor_retries_after_a_failed_attempt() {
    let mut supervisor = Supervisor::new();
    supervisor.step(Event::Woke);
    for _ in 0..3 {
        assert_eq!(
            supervisor.step(Event::ConnectFailed),
            Some(Step { notify: Some(Status::Disconnected), action: Action::Sleep(2) })
        );
        assert_eq!(supervisor.phase(), Phase::Disconnected);
        assert!(!is_portapi_reachable(&supervisor));
        assert_eq!(
            supervisor.step(Event::Woke),
            Some(Step { notify: None, action: Action::Connect })
        );
    }
}

#[test]
fn supervisor_announces_a_lost_connection_once() {
    let mut supervisor = Supervisor::new();
    supervisor.step(Event::Woke);
    supervisor.step(Event::ConnectSucceeded);
    assert_eq!(
        supervisor.step(Event::Polled { closed: true }),
        Some(Step { notify: Some(Status::Disconnected), action: Action::Sleep(2) })
    );
    assert_eq!(supervisor.phase(), Phase::Disconnected);
    assert!(!is_portapi_reachable(&supervisor));
    supervisor.step(Event::Woke);
    supervisor.step(Event::ConnectSucceeded);
    let mut announced = 0;
    let mut event = Event::Polled { closed: true };
    loop {
        let step = supervisor.step(event).expect("the event belongs to the phase");
        if step.notify == Some(Status::Disconnected) {
            announced += 1;
        }
        assert_ne!(step.notify, Some(Status::Connected));
        match step.action {
            Action::Connect => break,
            Action::Sleep(_) => event = Event::Woke,
            Action::Poll => panic!("a lost connection is not looked at"),
        }
    }
    assert_eq!(announced, 1);
    assert_eq!(supervisor.phase(), Phase::Connecting);
    assert!(!is_portapi_reachable(&supervisor));
}

#[test]
fn supervisor_passes_over_events_out_of_turn() {
    let mut supervisor = Supervisor::new();
    for event in [
        Event::ConnectSucceeded,
        Event::ConnectFailed,
        Event::Polled { closed: true },
        Event::Polled { closed: false },
    ] {
        assert_eq!(supervisor.step(event), None);
        assert_eq!(supervisor.phase(), Phase::Disconnected);
    }
    supervisor.step(Event::Woke);
    for event in [Event::Woke, Event::Polled { closed: true }, Event::Polled { closed: false }] {
        assert_eq!(supervisor.step(event), None);
        assert_eq!(supervisor.phase(), Phase::Connecting);
    }
    supervisor.step(Event::ConnectSucceeded);
    for event in [Event::ConnectSucceeded, Event::ConnectFailed] {
        assert_eq!(supervisor.step(event), None);
        assert_eq!(supervisor.phase(), Phase::Connected);
    }
}
