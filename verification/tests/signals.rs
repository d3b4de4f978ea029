//! The change signal.

use thinwire_core::signal::{change_channel, next_revision, shows_change};

#[test]
fn notify_sets_has_changed_until_seen() {
    let (notifier, mut signal) = change_channel();
    assert!(!signal.has_changed());
    notifier.notify();
    notifier.notify();
    assert!(signal.has_changed());
    assert_eq!(signal.mark_seen(), 2);
    assert!(!signal.has_changed());
}

#[test]
fn late_subscriber_starts_clean() {
    let (notifier, _first) = change_channel();
    notifier.notify();
    let late = notifier.subscribe();
    assert!(!late.has_changed());
}

#[test]
fn a_signal_without_a_core_is_unchanged() {
    let (notifier, signal) = change_channel();
    drop(notifier);
    assert!(!signal.has_changed());
}

#[test]
fn the_revision_starts_over() {
    assert_eq!(next_revision(0), 1);
    assert_eq!(next_revision(u64::MAX), 0);
}

#[test]
fn a_channel_without_senders_shows_no_change() {
    assert!(shows_change(Some(true)));
    assert!(!shows_change(Some(false)));
    assert!(!shows_change(None));
    let (notifier, signal) = change_channel();
    notifier.notify();
    drop(notifier);
    assert!(!signal.has_changed());
}

#[test]
fn a_subscriber_hears_its_own_channel_only() {
    let (first, _signal) = change_channel();
    let (second, _other) = change_channel();
    let mut heard = first.subscribe();
    second.notify();
    assert!(!heard.has_changed());
    first.notify();
    assert!(heard.has_changed());
    assert_eq!(heard.mark_seen(), 1);
    first.notify();
    assert!(heard.has_changed(), "it stays in its channel");
}
