//! Desktop notification rules and the notification thread's decisions.

use thinwire_core::keyed::KeySet;
use thinwire_core::notifier::{Backend, BackendError, NotifierLoop, Shown};
use thinwire_core::notify::{
    HIDDEN_PREVIEW, Notification, Notifications, NotifyCommand, NotifyContext, NotifyKey,
    PREVIEW_CHARS, QUEUE_LIMIT, STALE_AFTER_SECS, SkipReason, decide,
};
use thinwire_core::protocol::{Arrival, ChatMessage, Conversation, Delivery, ProtocolId};

const NOW: i64 = 1_800_000_000;

fn chat(protocol: ProtocolId, id: &str) -> Conversation {
    Conversation {
        protocol,
        id: id.into(),
        title: "Ada".into(),
        participant: "Ada".into(),
        preview: String::new(),
        unread: 1,
        order: 1,
        last_at: NOW,
        is_group: false,
        writable: true,
        muted: false,
        placeholder: false,
    }
}

fn message(protocol: ProtocolId, chat: &str, body: &str) -> ChatMessage {
    ChatMessage {
        protocol,
        conversation_id: chat.into(),
        id: format!("{chat}:1"),
        sender: "Bob".into(),
        body: body.into(),
        outbound: false,
        delivery: Delivery::Sent,
        sent_at: NOW,
        arrival: Arrival::Live,
    }
}

fn ctx<'a>(viewed: Option<(ProtocolId, &'a str)>, focused: bool) -> NotifyContext<'a> {
    NotifyContext {
        enabled: true,
        preview: true,
        window_focused: focused,
        viewed,
        has_session: true,
        now: NOW,
    }
}

fn sessions(of: &[ProtocolId]) -> KeySet<ProtocolId> {
    let mut set = KeySet::new();
    for protocol in of {
        set.insert(*protocol);
    }
    set
}

const ALL: [ProtocolId; 5] = [
    ProtocolId::Telegram,
    ProtocolId::Slack,
    ProtocolId::WhatsApp,
    ProtocolId::Discord,
    ProtocolId::Signal,
];

#[test]
fn the_rules_decide_for_every_protocol() {
    for protocol in [ProtocolId::Telegram, ProtocolId::Slack, ProtocolId::Discord] {
        let row = chat(protocol, "c:1");
        let live = message(protocol, "c:1", "hi");
        let other = Some((protocol, "c:2"));
        let here = Some((protocol, "c:1"));

        assert_eq!(decide(&live, Some(&row), &ctx(other, true)), Ok(()));
        assert_eq!(
            decide(&live, Some(&row), &ctx(here, false)),
            Ok(()),
            "unfocused"
        );
        assert_eq!(
            decide(&live, Some(&row), &ctx(None, true)),
            Ok(()),
            "form over thread"
        );
        assert_eq!(
            decide(&live, Some(&row), &ctx(here, true)),
            Err(SkipReason::Viewed)
        );
        let disabled = NotifyContext {
            enabled: false,
            ..ctx(other, true)
        };
        assert_eq!(
            decide(&live, Some(&row), &disabled),
            Err(SkipReason::Disabled)
        );
        let history = ChatMessage {
            arrival: Arrival::History,
            ..live.clone()
        };
        assert_eq!(
            decide(&history, Some(&row), &ctx(other, true)),
            Err(SkipReason::History)
        );
        let own = ChatMessage {
            outbound: true,
            ..live.clone()
        };
        assert_eq!(
            decide(&own, Some(&row), &ctx(other, true)),
            Err(SkipReason::Outbound),
            "own message, also from another device"
        );
        let muted = Conversation {
            muted: true,
            ..row.clone()
        };
        assert_eq!(
            decide(&live, Some(&muted), &ctx(other, true)),
            Err(SkipReason::Muted)
        );
        assert_eq!(
            decide(&live, None, &ctx(other, true)),
            Err(SkipReason::UnknownChat)
        );
        let no_session = NotifyContext {
            has_session: false,
            ..ctx(other, true)
        };
        assert_eq!(
            decide(&live, Some(&row), &no_session),
            Err(SkipReason::NoSession)
        );
        let stale = ChatMessage {
            sent_at: NOW - STALE_AFTER_SECS - 1,
            ..live.clone()
        };
        assert_eq!(
            decide(&stale, Some(&row), &ctx(other, true)),
            Err(SkipReason::Stale)
        );
        let edge = ChatMessage {
            sent_at: NOW - STALE_AFTER_SECS,
            ..live.clone()
        };
        assert_eq!(decide(&edge, Some(&row), &ctx(other, true)), Ok(()));
        let unknown_time = ChatMessage { sent_at: 0, ..live };
        assert_eq!(decide(&unknown_time, Some(&row), &ctx(other, true)), Ok(()));
    }
}

#[test]
fn one_notification_per_chat_with_a_count_and_dismiss_on_view() {
    let mut notes = Notifications::new();
    notes.set_focus(false);
    let row = chat(ProtocolId::Telegram, "telegram:1");
    let group = Conversation {
        id: "telegram:2".into(),
        title: "Team".into(),
        is_group: true,
        ..row.clone()
    };
    for body in ["one", "two", "three"] {
        notes
            .on_message(
                &message(ProtocolId::Telegram, "telegram:1", body),
                Some(&row),
                &ctx(None, false),
            )
            .expect("notifies");
    }
    notes
        .on_message(
            &message(ProtocolId::Telegram, "telegram:2", "hi team"),
            Some(&group),
            &ctx(None, false),
        )
        .expect("notifies");
    let shown = notes.take();
    assert_eq!(shown.len(), 2, "one per chat");
    let NotifyCommand::Show(first) = &shown[0] else {
        panic!("show")
    };
    assert_eq!(first.count, 3);
    assert_eq!(first.body(), "three (3 new)");
    assert_eq!(first.sender, None, "a private chat names no sender");
    let NotifyCommand::Show(team) = &shown[1] else {
        panic!("show")
    };
    assert_eq!(team.body(), "Bob: hi team");

    // Focus with the chat open dismisses it.
    notes.sync(Some((ProtocolId::Telegram, "telegram:1")), &sessions(&ALL));
    assert!(notes.take() == vec![]);
    notes.set_focus(true);
    notes.sync(Some((ProtocolId::Telegram, "telegram:1")), &sessions(&ALL));
    let key = NotifyKey {
        protocol: ProtocolId::Telegram,
        conversation_id: "telegram:1".into(),
    };
    assert!(notes.take() == vec![NotifyCommand::Dismiss(key)]);
    // The session ends: its notifications go.
    notes.sync(None, &sessions(&ALL[1..]));
    assert_eq!(notes.take().len(), 1);
}

#[test]
fn hidden_preview_limits_and_close() {
    let mut notes = Notifications::new();
    let group = Conversation {
        is_group: true,
        ..chat(ProtocolId::Slack, "slack:1")
    };
    let hidden = NotifyContext {
        preview: false,
        ..ctx(None, false)
    };
    notes
        .on_message(
            &message(ProtocolId::Slack, "slack:1", "secret"),
            Some(&group),
            &hidden,
        )
        .expect("notifies");
    let NotifyCommand::Show(shown) = &notes.take()[0] else {
        panic!("show")
    };
    assert_eq!(shown.preview, HIDDEN_PREVIEW);
    assert_eq!(shown.sender, None, "no sender name either");
    assert!(!shown.debug_text().contains("secret"));
    assert!(
        !shown.debug_text().contains("Ada"),
        "Debug hides the title"
    );

    let long = "x".repeat(PREVIEW_CHARS * 2);
    notes
        .on_message(
            &message(ProtocolId::Slack, "slack:1", &long),
            Some(&group),
            &ctx(None, false),
        )
        .expect("notifies");
    let NotifyCommand::Show(shown) = &notes.take()[0] else {
        panic!("show")
    };
    assert_eq!(shown.preview.chars().count(), PREVIEW_CHARS);

    for n in 0..(QUEUE_LIMIT * 2) {
        let id = format!("slack:{n}");
        let row = chat(ProtocolId::Slack, &id);
        notes
            .on_message(
                &message(ProtocolId::Slack, &id, "hi"),
                Some(&row),
                &ctx(None, false),
            )
            .expect("notifies");
    }
    assert_eq!(notes.take().len(), QUEUE_LIMIT, "no unbounded queue");

    notes.close();
    let row = chat(ProtocolId::Slack, "slack:1");
    assert!(
        notes
            .on_message(
                &message(ProtocolId::Slack, "slack:1", "hi"),
                Some(&row),
                &ctx(None, false)
            )
            .is_err()
    );
    assert!(notes.take().is_empty(), "nothing after Shutdown");
}

#[test]
fn nothing_is_dismissed_after_close() {
    let mut notes = Notifications::new();
    for id in ["telegram:1", "telegram:2"] {
        let row = chat(ProtocolId::Telegram, id);
        notes
            .on_message(
                &message(ProtocolId::Telegram, id, "hi"),
                Some(&row),
                &ctx(None, false),
            )
            .expect("notifies");
    }
    notes.take();
    notes.close();
    notes.dismiss(&key("telegram:1"));
    assert!(notes.take().is_empty(), "dismiss");
    notes.sync(Some((ProtocolId::Telegram, "telegram:2")), &sessions(&ALL));
    notes.sync(None, &sessions(&[]));
    assert!(notes.take().is_empty(), "sync");
}

#[test]
fn ended_sessions_dismiss_by_the_order_of_their_ids() {
    let mut notes = Notifications::new();
    for id in ["c:3", "c:1", "c:2"] {
        let row = chat(ProtocolId::Slack, id);
        notes
            .on_message(&message(ProtocolId::Slack, id, "hi"), Some(&row), &ctx(None, false))
            .expect("notifies");
    }
    notes.take();
    notes.sync(None, &sessions(&[]));
    let ids: Vec<String> = notes
        .take()
        .into_iter()
        .map(|command| match command {
            NotifyCommand::Dismiss(key) => key.conversation_id,
            NotifyCommand::Show(_) => panic!("dismiss"),
        })
        .collect();
    assert_eq!(ids, vec!["c:1", "c:2", "c:3"]);
    notes.sync(None, &sessions(&[]));
    assert!(notes.take().is_empty(), "each one goes once");
}

#[derive(Debug, PartialEq, Eq)]
enum Seen {
    Show(NotifyKey, u32),
    Dismiss(NotifyKey),
}

struct Fake {
    seen: Vec<Seen>,
    fail_on_show: bool,
}

impl Backend for Fake {
    fn show(&mut self, notification: &Notification) -> Result<(), BackendError> {
        if self.fail_on_show {
            return Err(BackendError("no notification server"));
        }
        self.seen
            .push(Seen::Show(notification.key.clone(), notification.count));
        Ok(())
    }

    fn dismiss(&mut self, key: &NotifyKey) -> Result<(), BackendError> {
        self.seen.push(Seen::Dismiss(key.clone()));
        Ok(())
    }
}

/// One turn of the notification thread.
fn turn(
    notifier: &mut NotifierLoop,
    backend: &mut Fake,
    command: &NotifyCommand,
) -> Option<Result<(), BackendError>> {
    let result = match notifier.due(command)? {
        NotifyCommand::Show(notification) => backend.show(notification),
        NotifyCommand::Dismiss(key) => backend.dismiss(key),
    };
    notifier.ended(result);
    Some(result)
}

fn key(id: &str) -> NotifyKey {
    NotifyKey {
        protocol: ProtocolId::Telegram,
        conversation_id: id.into(),
    }
}

fn note(id: &str, count: u32) -> NotifyCommand {
    NotifyCommand::Show(Notification {
        key: key(id),
        title: "Ada".into(),
        sender: None,
        preview: "hi".into(),
        count,
    })
}

#[test]
fn the_thread_runs_commands_in_order_and_reports_clicks() {
    let mut fake = Fake {
        seen: Vec::new(),
        fail_on_show: false,
    };
    let mut notifier = NotifierLoop::new();
    for command in [
        note("telegram:1", 1),
        note("telegram:1", 2),
        NotifyCommand::Dismiss(key("telegram:1")),
    ] {
        assert!(turn(&mut notifier, &mut fake, &command) == Some(Ok(())));
    }
    assert_eq!(
        fake.seen,
        vec![
            Seen::Show(key("telegram:1"), 1),
            Seen::Show(key("telegram:1"), 2),
            Seen::Dismiss(key("telegram:1")),
        ]
    );

    let mut shown = Shown::new();
    assert_eq!(shown.replaced(&key("telegram:1")), None);
    assert!(shown.shown(&key("telegram:1"), 7), "a click waiter starts");
    assert_eq!(shown.replaced(&key("telegram:1")), Some(7));
    assert!(!shown.shown(&key("telegram:1"), 7), "its waiter stays");
    assert_eq!(shown.clicked("default", 7), Some(key("telegram:1")));
    assert_eq!(shown.clicked("other", 7), None);
    assert_eq!(shown.clicked("default", 8), None);
    shown.waiter_ended(7);
    assert!(shown.shown(&key("telegram:1"), 7));
    assert_eq!(shown.dismissed(&key("telegram:1")), Some(7));
    assert_eq!(shown.dismissed(&key("telegram:1")), None);
    assert_eq!(shown.clicked("default", 7), None);
}

#[test]
fn a_failing_backend_turns_off_after_one_error() {
    let mut fake = Fake {
        seen: Vec::new(),
        fail_on_show: true,
    };
    let mut notifier = NotifierLoop::new();
    assert!(
        turn(&mut notifier, &mut fake, &note("telegram:1", 1))
            == Some(Err(BackendError("no notification server")))
    );
    assert!(
        turn(
            &mut notifier,
            &mut fake,
            &NotifyCommand::Dismiss(key("telegram:1"))
        )
        .is_none()
    );
    assert!(
        fake.seen.is_empty(),
        "no dismiss after the backend turned off"
    );
}

#[test]
fn no_log_line_holds_notification_text() {
    let notification = Notification {
        key: key("telegram:1"),
        title: "title-fixture".into(),
        sender: Some("sender-fixture".into()),
        preview: "preview-fixture".into(),
        count: 2,
    };
    let line = notification.debug_text();
    for field in ["title", "body", "preview", "sender"] {
        assert!(!line.contains(field), "{line}");
    }
    assert_eq!(
        line,
        "Notification { key: NotifyKey { protocol: Telegram, \
         conversation_id: \"telegram:1\" }, count: 2, text: \"<redacted>\" }"
    );
    assert_eq!(notification.body(), "sender-fixture: preview-fixture (2 new)");
}
