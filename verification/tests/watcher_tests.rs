use sentineld::config::Config;
use sentineld::watcher::{ChangeKind, ConfigWatcher, WatchAction, WatchEvent, WatchPhase, RECEIVE_TIMEOUT_SECS, RELOAD_DEBOUNCE_NANOS};

const SEC: u64 = 1_000_000_000;

fn custom(port: u16) -> Config {
    let mut c = Config::default();
    c.port = port;
    c
}

fn listening_watcher(at: u64) -> ConfigWatcher {
    let mut w = ConfigWatcher::new(custom(7000));
    assert_eq!(w.pending_action(), WatchAction::Watch);
    let out = w.step(WatchEvent::Watched(true), at);
    assert_eq!(out.action, WatchAction::Receive);
    assert!(!out.publish && !out.count_error);
    w
}

#[test]
fn timings() {
    assert_eq!(RELOAD_DEBOUNCE_NANOS, 5 * SEC);
    assert_eq!(RECEIVE_TIMEOUT_SECS, 200);
}

#[test]
fn change_after_quiet_period_reloads() {
    let mut w = listening_watcher(0);
    let out = w.step(WatchEvent::Changed(ChangeKind::Modify), 6 * SEC);
    assert_eq!(out.action, WatchAction::Reload);
    let out = w.step(WatchEvent::Reloaded(Some(custom(7100))), 6 * SEC + 1);
    assert!(out.publish);
    assert!(!out.count_error);
    assert_eq!(out.action, WatchAction::Receive);
    assert_eq!(w.config.port, 7100);
}

#[test]
fn failed_reload_keeps_previous_config_and_counts_error() {
    let mut w = listening_watcher(0);
    let out = w.step(WatchEvent::Changed(ChangeKind::Create), 10 * SEC);
    assert_eq!(out.action, WatchAction::Reload);
    let out = w.step(WatchEvent::Reloaded(None), 10 * SEC);
    assert!(!out.publish);
    assert!(out.count_error);
    assert_eq!(out.action, WatchAction::Receive);
    assert_eq!(w.config.port, 7000);
    assert_eq!(w.phase, WatchPhase::Listening);
}

#[test]
fn changes_within_five_seconds_are_ignored() {
    let mut w = listening_watcher(SEC);
    // Exactly five seconds is not more than five seconds.
    let out = w.step(WatchEvent::Changed(ChangeKind::Modify), 6 * SEC);
    assert_eq!(out.action, WatchAction::Receive);
    let out = w.step(WatchEvent::Changed(ChangeKind::Modify), 6 * SEC + 1);
    assert_eq!(out.action, WatchAction::Reload);
    w.step(WatchEvent::Reloaded(Some(custom(1))), 6 * SEC + 2);
    // The quiet period restarts at the reload.
    let out = w.step(WatchEvent::Changed(ChangeKind::Modify), 8 * SEC);
    assert_eq!(out.action, WatchAction::Receive);
}

#[test]
fn other_notifications_are_ignored() {
    let mut w = listening_watcher(0);
    let out = w.step(WatchEvent::Changed(ChangeKind::Other), 100 * SEC);
    assert_eq!(out.action, WatchAction::Receive);
    let out = w.step(WatchEvent::NotifyFailed, 100 * SEC);
    assert_eq!(out.action, WatchAction::Receive);
    let out = w.step(WatchEvent::TimedOut, 300 * SEC);
    assert_eq!(out.action, WatchAction::Receive);
    assert!(!out.publish && !out.count_error);
}

#[test]
fn shutdown_and_disconnect_stop() {
    let mut w = listening_watcher(0);
    assert_eq!(w.step(WatchEvent::Cancelled, 1).action, WatchAction::Stop);
    let out = w.step(WatchEvent::Changed(ChangeKind::Modify), 100 * SEC);
    assert_eq!(out.action, WatchAction::Stop);
    assert!(!out.publish && !out.count_error);

    let mut w = listening_watcher(0);
    assert_eq!(w.step(WatchEvent::Disconnected, 1).action, WatchAction::Stop);
    assert_eq!(w.phase, WatchPhase::Stopped);
}

#[test]
fn missing_file_is_created_with_default_config() {
    let mut w = ConfigWatcher::new(custom(7000));
    assert_eq!(w.step(WatchEvent::Watched(false), 0).action, WatchAction::CreateFile);
    assert_eq!(w.step(WatchEvent::FileCreated(true), 0).action, WatchAction::WriteDefault);
    let out = w.step(WatchEvent::DefaultWritten(true), 0);
    assert!(out.publish);
    assert_eq!(out.action, WatchAction::Watch);
    assert_eq!(w.config.port, 9100);
    assert_eq!(w.config.host, "0.0.0.0");
    let out = w.step(WatchEvent::Watched(true), 3 * SEC);
    assert_eq!(out.action, WatchAction::Receive);
    assert_eq!(w.last_reload, 3 * SEC);
}

#[test]
fn startup_failures_count_error_and_stop() {
    let mut w = ConfigWatcher::new(custom(7000));
    w.step(WatchEvent::Watched(false), 0);
    let out = w.step(WatchEvent::FileCreated(false), 0);
    assert!(out.count_error);
    assert_eq!(out.action, WatchAction::Stop);

    let mut w = ConfigWatcher::new(custom(7000));
    w.step(WatchEvent::Watched(false), 0);
    w.step(WatchEvent::FileCreated(true), 0);
    let out = w.step(WatchEvent::DefaultWritten(false), 0);
    assert!(out.count_error && !out.publish);
    assert_eq!(out.action, WatchAction::Stop);
    assert_eq!(w.config.port, 7000);

    let mut w = ConfigWatcher::new(custom(7000));
    w.step(WatchEvent::Watched(false), 0);
    w.step(WatchEvent::FileCreated(true), 0);
    w.step(WatchEvent::DefaultWritten(true), 0);
    let out = w.step(WatchEvent::Watched(false), 0);
    assert!(out.count_error);
    assert_eq!(out.action, WatchAction::Stop);
}

#[test]
fn unexpected_events_change_nothing() {
    let mut w = ConfigWatcher::new(custom(7000));
    let out = w.step(WatchEvent::Reloaded(Some(custom(1))), 5);
    assert_eq!(out.action, WatchAction::Watch);
    assert!(!out.publish && !out.count_error);
    assert_eq!(w.config.port, 7000);
    assert_eq!(w.phase, WatchPhase::Starting);
}
