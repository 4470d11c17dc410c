use watchy_rs::network::{LinkStatus, NetAction, NetEvent, NetState, NetworkLifecycle, UnexpectedEvent};

fn connecting() -> NetworkLifecycle {
    let mut n = NetworkLifecycle::new();
    assert_eq!(n.step(NetEvent::Demand(true)), Ok(NetAction::StartRadio));
    assert_eq!(n.status().state, NetState::Starting);
    assert_eq!(n.step(NetEvent::RadioStarted), Ok(NetAction::Connect));
    assert_eq!(n.status().state, NetState::Connecting);
    n
}

#[test]
fn four_failures_with_threshold_three_shut_down() {
    let mut n = connecting();
    for failures in 1..=3u8 {
        assert_eq!(n.step(NetEvent::ConnectFailed), Ok(NetAction::Backoff));
        assert_eq!(n.status().failures, failures);
        assert_eq!(n.step(NetEvent::BackoffElapsed), Ok(NetAction::Connect));
    }
    assert_eq!(n.step(NetEvent::ConnectFailed), Ok(NetAction::GiveUp));
    assert_eq!(
        n.status(),
        LinkStatus { state: NetState::Stopped, failures: 0, demand: false }
    );
}

#[test]
fn success_clears_failures() {
    let mut n = connecting();
    assert_eq!(n.step(NetEvent::ConnectFailed), Ok(NetAction::Backoff));
    assert_eq!(n.step(NetEvent::BackoffElapsed), Ok(NetAction::Connect));
    assert_eq!(n.step(NetEvent::ConnectSucceeded), Ok(NetAction::Idle));
    assert_eq!(
        n.status(),
        LinkStatus { state: NetState::Connected, failures: 0, demand: true }
    );
}

#[test]
fn lost_link_with_demand_reconnects_after_backoff() {
    let mut n = connecting();
    assert_eq!(n.step(NetEvent::ConnectSucceeded), Ok(NetAction::Idle));
    assert_eq!(n.step(NetEvent::LinkLost), Ok(NetAction::Backoff));
    assert_eq!(n.status().state, NetState::Connecting);
    assert_eq!(n.step(NetEvent::BackoffElapsed), Ok(NetAction::Connect));
}

#[test]
fn withdrawn_demand_powers_down() {
    let mut n = connecting();
    assert_eq!(n.step(NetEvent::ConnectSucceeded), Ok(NetAction::Idle));
    assert_eq!(n.step(NetEvent::Demand(false)), Ok(NetAction::PowerDown));
    assert_eq!(n.status().state, NetState::Disconnecting);
    assert_eq!(n.step(NetEvent::RadioStopped), Ok(NetAction::Idle));
    assert_eq!(
        n.status(),
        LinkStatus { state: NetState::Stopped, failures: 0, demand: false }
    );
}

#[test]
fn demand_raised_while_stopping_restarts() {
    let mut n = connecting();
    assert_eq!(n.step(NetEvent::Demand(false)), Ok(NetAction::PowerDown));
    assert_eq!(n.step(NetEvent::Demand(true)), Ok(NetAction::Idle));
    assert_eq!(n.step(NetEvent::RadioStopped), Ok(NetAction::StartRadio));
    assert_eq!(n.status().state, NetState::Starting);
}

#[test]
fn impossible_event_is_reported() {
    let mut n = NetworkLifecycle::new();
    assert_eq!(
        n.step(NetEvent::ConnectSucceeded),
        Err(UnexpectedEvent { state: NetState::Stopped, event: NetEvent::ConnectSucceeded })
    );
    assert_eq!(n.status().state, NetState::Stopped);
}
