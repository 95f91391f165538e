use oracle::devices::{DeviceChange, Publication, ServiceStatus};
use oracle::monitor::{
    answer, CancelToken, Monitor, MonitorAction, MonitorEvent, Phase, CONFIRM_ATTEMPTS,
    CONFIRM_PAUSE_SECS, PING_DEADLINE_SECS, REST_SECS,
};
use oracle::time::Timestamp;

#[test]
fn token_starts_unset_and_stays_set() {
    let token = CancelToken::new();
    assert!(!token.cancelled());
    token.cancel();
    assert!(token.cancelled());
    token.cancel();
    assert!(token.cancelled());
}

#[test]
fn clones_of_a_token_share_the_flag() {
    let token = CancelToken::new();
    let other = token.clone();
    let unrelated = CancelToken::new();
    other.cancel();
    assert!(token.cancelled());
    assert!(other.cancelled());
    assert!(!unrelated.cancelled());
}

#[test]
fn timing_constants() {
    assert_eq!(PING_DEADLINE_SECS, 1);
    assert_eq!(CONFIRM_PAUSE_SECS, 1);
    assert_eq!(CONFIRM_ATTEMPTS, 10);
    assert_eq!(REST_SECS, 10);
}

#[test]
fn monitor_begins_with_a_ping() {
    let monitor = Monitor::new(None);
    assert_eq!(monitor.phase, Phase::Probing);
    assert_eq!(monitor.action(), MonitorAction::Ping);
}

#[test]
fn reply_to_the_first_ping_of_an_unknown_device_is_published_as_up() {
    let mut monitor = Monitor::new(None);
    let action = monitor.step(MonitorEvent::Replied, false);
    assert_eq!(action, MonitorAction::Publish { old: None, candidate: ServiceStatus::Up });
    let since = Timestamp::new(100, 0);
    let action = monitor.step(MonitorEvent::Recorded(Some((ServiceStatus::Up, since))), false);
    assert_eq!(action, MonitorAction::Sleep(REST_SECS));
    assert_eq!(monitor.status, Some((ServiceStatus::Up, since)));
    assert_eq!(monitor.step(MonitorEvent::Slept, false), MonitorAction::Ping);
    assert_eq!(monitor.phase, Phase::Probing);
}

#[test]
fn down_is_published_after_ten_lost_confirmations() {
    let mut monitor = Monitor::new(None);
    let mut pings = 1;
    let mut action = monitor.step(MonitorEvent::TimedOut, false);
    loop {
        match action {
            MonitorAction::Sleep(secs) => {
                assert_eq!(secs, CONFIRM_PAUSE_SECS);
                action = monitor.step(MonitorEvent::Slept, false);
            }
            MonitorAction::Ping => {
                pings += 1;
                action = monitor.step(MonitorEvent::TimedOut, false);
            }
            other => {
                assert_eq!(
                    other,
                    MonitorAction::Publish { old: None, candidate: ServiceStatus::Down }
                );
                break;
            }
        }
    }
    assert_eq!(pings, 11);
    let since = Timestamp::new(21, 0);
    let action = monitor.step(MonitorEvent::Recorded(Some((ServiceStatus::Down, since))), false);
    assert_eq!(action, MonitorAction::Sleep(REST_SECS));
    assert_eq!(monitor.status, Some((ServiceStatus::Down, since)));
}

#[test]
fn nine_lost_confirmations_are_not_enough() {
    let mut monitor = Monitor::new(None);
    monitor.step(MonitorEvent::TimedOut, false);
    for lost in 0..9u8 {
        assert_eq!(monitor.phase, Phase::Pausing { lost });
        assert_eq!(monitor.step(MonitorEvent::Slept, false), MonitorAction::Ping);
        assert_eq!(monitor.phase, Phase::Confirming { lost });
        assert_eq!(
            monitor.step(MonitorEvent::TimedOut, false),
            MonitorAction::Sleep(CONFIRM_PAUSE_SECS)
        );
    }
    assert_eq!(monitor.phase, Phase::Pausing { lost: 9 });
    assert_eq!(monitor.step(MonitorEvent::Slept, false), MonitorAction::Ping);
    assert_eq!(
        monitor.step(MonitorEvent::TimedOut, false),
        MonitorAction::Publish { old: None, candidate: ServiceStatus::Down }
    );
}

#[test]
fn transient_loss_of_a_device_that_is_up_publishes_nothing() {
    let up = Some((ServiceStatus::Up, Timestamp::new(1, 0)));
    let mut monitor = Monitor::new(up);
    let mut action = monitor.step(MonitorEvent::TimedOut, false);
    for _ in 0..4 {
        assert_eq!(action, MonitorAction::Sleep(CONFIRM_PAUSE_SECS));
        assert_eq!(monitor.step(MonitorEvent::Slept, false), MonitorAction::Ping);
        action = monitor.step(MonitorEvent::TimedOut, false);
    }
    assert_eq!(action, MonitorAction::Sleep(CONFIRM_PAUSE_SECS));
    assert_eq!(monitor.step(MonitorEvent::Slept, false), MonitorAction::Ping);
    let action = monitor.step(MonitorEvent::Replied, false);
    assert_eq!(action, MonitorAction::Sleep(REST_SECS));
    assert_eq!(monitor.phase, Phase::Resting);
    assert_eq!(monitor.status, up);
}

#[test]
fn reply_of_a_device_that_was_down_is_published_as_up() {
    let down = Some((ServiceStatus::Down, Timestamp::new(1, 0)));
    let mut monitor = Monitor::new(down);
    assert_eq!(
        monitor.step(MonitorEvent::Replied, false),
        MonitorAction::Publish { old: down, candidate: ServiceStatus::Up }
    );
}

#[test]
fn loss_of_a_device_that_is_down_publishes_nothing() {
    let down = Some((ServiceStatus::Down, Timestamp::new(1, 0)));
    let mut monitor = Monitor::new(down);
    let mut action = monitor.step(MonitorEvent::TimedOut, false);
    while monitor.phase != Phase::Resting {
        action = match action {
            MonitorAction::Sleep(_) => monitor.step(MonitorEvent::Slept, false),
            MonitorAction::Ping => monitor.step(MonitorEvent::TimedOut, false),
            other => panic!("unexpected {:?}", other),
        };
    }
    assert_eq!(action, MonitorAction::Sleep(REST_SECS));
    assert_eq!(monitor.status, down);
}

#[test]
fn cancelled_monitor_stops_when_its_cycle_concludes() {
    let mut monitor = Monitor::new(None);
    assert_eq!(monitor.step(MonitorEvent::Replied, true), MonitorAction::Stop);
    assert_eq!(monitor.phase, Phase::Stopped);
    assert_eq!(monitor.step(MonitorEvent::Slept, false), MonitorAction::Stop);
    assert_eq!(monitor.step(MonitorEvent::Replied, false), MonitorAction::Stop);
}

#[test]
fn cancellation_is_not_looked_at_in_the_middle_of_a_confirmation() {
    let mut monitor = Monitor::new(None);
    assert_eq!(
        monitor.step(MonitorEvent::TimedOut, true),
        MonitorAction::Sleep(CONFIRM_PAUSE_SECS)
    );
    assert_eq!(monitor.step(MonitorEvent::Slept, true), MonitorAction::Ping);
    assert_eq!(monitor.step(MonitorEvent::Replied, true), MonitorAction::Stop);
}

#[test]
fn monitor_that_the_registry_rejects_stops() {
    let mut monitor = Monitor::new(None);
    monitor.step(MonitorEvent::Replied, false);
    assert_eq!(monitor.step(MonitorEvent::Rejected, false), MonitorAction::Stop);
    assert_eq!(monitor.status, None);
}

#[test]
fn event_that_is_not_waited_for_changes_nothing() {
    let mut monitor = Monitor::new(None);
    assert_eq!(monitor.step(MonitorEvent::Slept, false), MonitorAction::Ping);
    assert_eq!(monitor.step(MonitorEvent::Rejected, false), MonitorAction::Ping);
    assert_eq!(monitor, Monitor::new(None));
    monitor.step(MonitorEvent::TimedOut, false);
    assert_eq!(
        monitor.step(MonitorEvent::Replied, false),
        MonitorAction::Sleep(CONFIRM_PAUSE_SECS)
    );
    assert_eq!(monitor.phase, Phase::Pausing { lost: 0 });
}

#[test]
fn token_keeps_its_number() {
    assert_eq!(CancelToken::new().number(), 0);
    let token = CancelToken::numbered(41);
    assert!(!token.cancelled());
    let copy = token.clone();
    token.cancel();
    assert_eq!(token.number(), 41);
    assert_eq!(copy.number(), 41);
    assert!(copy.cancelled());
}

#[test]
fn monitor_is_told_what_the_registry_answered() {
    let up = Some((ServiceStatus::Up, Timestamp::new(3, 0)));
    let change = DeviceChange::IPv4Status { device: 1, old: None, new: up };
    assert_eq!(answer(&Publication::Changed(change)), MonitorEvent::Recorded(up));
    assert_eq!(answer(&Publication::Unchanged(up)), MonitorEvent::Recorded(up));
    assert_eq!(answer(&Publication::Unchanged(None)), MonitorEvent::Recorded(None));
    assert_eq!(answer(&Publication::Cancelled), MonitorEvent::Rejected);
}
