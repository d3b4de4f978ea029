//! The state of the shell: inbox, sends, login, and pairing.

use thinwire_core::protocol::{
    AccountState, AdapterCommand, AdapterEvent, AdapterStatus, Arrival, Build, ChatMessage,
    Conversation, Delivery, ProtocolId, RedactedPairingSecret, TelegramApiSource,
    TelegramAuthError, TelegramAuthPhase, TelegramAuthStep, TelegramCodeVia, WhatsAppPhoneVault,
};
use thinwire_core::secrets::{AttachPhase, SecretKey, SecretStore};
use thinwire_core::sends::SEND_TIMEOUT;
use thinwire_core::state::{
    AuthKey, AuthScreen, CenterView, InboxFilter, InboxState, KEYCHAIN_OPENING,
    KEYCHAIN_SLOW_AFTER, KEYCHAIN_WAITING, LOADING_CHATS_STATUS, LOADING_OLDER_STATUS, Mark,
    OLDER_RETRY_DELAY, OLDER_RETRY_MAX, OlderState, RESUME_CONNECTING, SENDING_STATUS,
    SESSION_ENDED_NOTICE, SignalScreen, Snapshot, ThreadState, UserError, WhatsAppScreen,
    auth_user_error, older_wait,
};

/// A time for calls that need one, in milliseconds.
const NOW: u64 = 1_000_000;

trait Clocked {
    fn apply_now(&mut self, event: AdapterEvent);
}

impl Clocked for Snapshot {
    fn apply_now(&mut self, event: AdapterEvent) {
        self.apply(event, NOW);
    }
}

fn chrome(protocol: ProtocolId) -> bool {
    thinwire_core::state::protocol_chrome_enabled(protocol, Build::default())
}

fn whatsapp_shell() -> Snapshot {
    let build = Build { whatsapp_web: true, ..Build::default() };
    Snapshot::with_build(build, TelegramApiSource::empty())
}

fn signal_shell() -> Snapshot {
    let build = Build { signal_local: true, ..Build::default() };
    Snapshot::with_build(build, TelegramApiSource::empty())
}

fn ready_attach(store: &mut SecretStore, pairs: &[(SecretKey, &str)]) {
    let pairs: Vec<(SecretKey, String)> =
        pairs.iter().map(|(key, value)| (*key, (*value).to_string())).collect();
    let _ = store.finish_ready(&pairs, None);
}

fn submit_and_apply(
    snapshot: &mut Snapshot,
    store: &mut SecretStore,
    phase: TelegramAuthPhase,
) {
    snapshot.advance_telegram(store);
    snapshot.apply_now(AdapterEvent::TelegramAuth { phase });
}

fn seed_override(store: &mut SecretStore) {
    store.set(SecretKey::ApiId, "11111").expect("id");
    store.set(SecretKey::ApiHash, "hash-value").expect("hash");
}

fn complete_telegram(snapshot: &mut Snapshot, store: &mut SecretStore) {
    seed_override(store);
    snapshot.open_telegram(store);
    snapshot.apply_now(AdapterEvent::TelegramAuth {
        phase: TelegramAuthPhase::NeedPhone,
    });
    assert_eq!(snapshot.auth, AuthScreen::TelegramPhone);
    snapshot.telegram_phone = "+15551234567".into();
    submit_and_apply(snapshot, store, TelegramAuthPhase::NeedCode);
    assert_eq!(snapshot.auth, AuthScreen::TelegramCode);
    snapshot.telegram_code = "12345".into();
    submit_and_apply(snapshot, store, TelegramAuthPhase::NeedTwoFactor);
    assert_eq!(snapshot.auth, AuthScreen::Telegram2fa);
    snapshot.telegram_2fa = "2fa-secret".into();
    submit_and_apply(snapshot, store, TelegramAuthPhase::Ready);
    assert_eq!(snapshot.auth, AuthScreen::Idle);
    assert!(snapshot.telegram_ready());
}

fn telegram_chat(id: i64, title: &str, order: i64) -> Conversation {
    Conversation {
        protocol: ProtocolId::Telegram,
        id: format!("telegram:{id}"),
        title: title.into(),
        participant: title.into(),
        preview: String::new(),
        unread: 0,
        order,
        last_at: 0,
        is_group: false,
        writable: true,
        placeholder: false,
        muted: false,
    }
}
fn link_telegram(snapshot: &mut Snapshot) {
    snapshot.telegram_authorized = true;
    if let Some(row) = snapshot
        .accounts
        .iter_mut()
        .find(|row| row.caps.id == ProtocolId::Telegram)
    {
        row.state = AccountState::Linked;
    }
}

fn ready_with_chats(store: &mut SecretStore) -> Snapshot {
    let mut snapshot = Snapshot::new();
    complete_telegram(&mut snapshot, store);
    snapshot.apply_now(AdapterEvent::ConversationUpsert {
        conversation: telegram_chat(1, "Ada", 10),
    });
    snapshot.apply_now(AdapterEvent::ConversationUpsert {
        conversation: telegram_chat(2, "Bob", 5),
    });
    snapshot.take_commands();
    snapshot
}

fn auth_steps(snapshot: &mut Snapshot) -> Vec<TelegramAuthStep> {
    snapshot
        .take_commands()
        .into_iter()
        .filter_map(|command| match command {
            AdapterCommand::TelegramAuth { step, epoch: _ } => Some(step),
            _ => None,
        })
        .collect()
}


fn resume_commands(snapshot: &mut Snapshot) -> usize {
    snapshot
        .take_commands()
        .iter()
        .filter(|command| {
            matches!(
                command,
                AdapterCommand::TelegramAuth {
                    step: TelegramAuthStep::ApiCredentials,
                    epoch: 0
                }
            )
        })
        .count()
}

#[test]
fn saved_session_resumes_once_without_first_run() {
    let mut store = SecretStore::memory();
    seed_override(&mut store);
    store
        .set(SecretKey::Session, "tdlib-ready")
        .expect("marker");
    let mut snapshot = Snapshot::new();
    snapshot.try_resume(&mut store, true);
    snapshot.try_resume(&mut store, true);
    assert_eq!(
        snapshot.center_view(),
        CenterView::Resuming { connecting: true }
    );
    assert_eq!(snapshot.status_text, RESUME_CONNECTING);
    assert_eq!(snapshot.auth, AuthScreen::Idle);
    let commands = snapshot.take_commands();
    assert_eq!(commands.len(), 1, "{commands:?}");
    assert!(matches!(
        commands[0],
        AdapterCommand::TelegramAuth {
            step: TelegramAuthStep::ApiCredentials,
            epoch: 0
        }
    ));
    let debug = format!("{commands:?}");
    assert!(!debug.contains("11111"));
    assert!(!debug.contains("hash-value"));
    assert!(!debug.contains("tdlib-ready"));

    snapshot.apply_now(AdapterEvent::TelegramAuth {
        phase: TelegramAuthPhase::Ready,
    });
    assert_eq!(snapshot.center_view(), CenterView::Thread);
    assert!(snapshot.has_primary_account());
    assert_eq!(snapshot.auth, AuthScreen::Idle);
    assert_eq!(snapshot.auth_notice, None);
}

#[test]
fn no_saved_session_keeps_first_run() {
    let mut store = SecretStore::memory();
    seed_override(&mut store);
    let mut snapshot = Snapshot::new();
    snapshot.try_resume(&mut store, true);
    assert_eq!(snapshot.center_view(), CenterView::FirstRun);
    assert_eq!(resume_commands(&mut snapshot), 0);
}

#[test]
fn saved_session_without_api_credentials_or_tdlib_keeps_first_run() {
    let mut store = SecretStore::memory();
    store
        .set(SecretKey::Session, "tdlib-ready")
        .expect("marker");
    let mut snapshot = Snapshot::with_api_source(TelegramApiSource::empty());
    snapshot.try_resume(&mut store, true);
    assert_eq!(snapshot.center_view(), CenterView::FirstRun);
    assert_eq!(resume_commands(&mut snapshot), 0);

    seed_override(&mut store);
    let mut feature_off = Snapshot::new();
    feature_off.try_resume(&mut store, false);
    assert_eq!(feature_off.center_view(), CenterView::FirstRun);
    assert_eq!(resume_commands(&mut feature_off), 0);
}

#[test]
fn resume_waits_for_the_keychain_read_then_arms() {
    let mut store = SecretStore::blank(AttachPhase::Detached);
    let mut snapshot = Snapshot::new();
    snapshot.try_resume(&mut store, true);
    assert_eq!(resume_commands(&mut snapshot), 0);
    assert_ne!(snapshot.center_view(), CenterView::Thread);
    ready_attach(&mut store, &[
        (SecretKey::ApiId, "11111"),
        (SecretKey::ApiHash, "hash-value"),
        (SecretKey::Session, "tdlib-ready"),
    ]);
    snapshot.try_resume(&mut store, true);
    assert_eq!(resume_commands(&mut snapshot), 1);
    assert_eq!(
        snapshot.center_view(),
        CenterView::Resuming { connecting: true }
    );
}

#[test]
fn ended_session_shows_the_phone_step_with_a_notice() {
    let mut store = SecretStore::memory();
    seed_override(&mut store);
    store
        .set(SecretKey::Session, "tdlib-ready")
        .expect("marker");
    let mut snapshot = Snapshot::new();
    snapshot.try_resume(&mut store, true);
    snapshot.apply_now(AdapterEvent::TelegramAuth {
        phase: TelegramAuthPhase::NeedPhone,
    });
    assert_eq!(snapshot.center_view(), CenterView::Auth);
    assert_eq!(snapshot.auth, AuthScreen::TelegramPhone);
    assert_eq!(snapshot.auth_notice.as_deref(), Some(SESSION_ENDED_NOTICE));
    assert_eq!(snapshot.status_text, SESSION_ENDED_NOTICE);

    snapshot.telegram_phone = "+15551234567".into();
    submit_and_apply(&mut snapshot, &mut store, TelegramAuthPhase::NeedCode);
    assert_eq!(snapshot.auth_notice, None);
}

#[test]
fn resume_error_falls_back_to_first_run() {
    let mut store = SecretStore::memory();
    seed_override(&mut store);
    store
        .set(SecretKey::Session, "tdlib-ready")
        .expect("marker");
    let mut snapshot = Snapshot::new();
    snapshot.try_resume(&mut store, true);
    snapshot.apply_now(AdapterEvent::Status {
        protocol: ProtocolId::Telegram,
        status: AdapterStatus::Error,
        detail: "TDLib worker is not running. Cancel and try again.".into(),
    });
    assert_eq!(snapshot.center_view(), CenterView::FirstRun);
    snapshot.try_resume(&mut store, true);
    assert_eq!(resume_commands(&mut snapshot), 1, "only the first try");
}

fn telegram_text(chat: i64, id: i64, body: &str) -> ChatMessage {
    ChatMessage {
        protocol: ProtocolId::Telegram,
        conversation_id: format!("telegram:{chat}"),
        id: format!("telegram:{chat}:{id}"),
        sender: "Ada".into(),
        body: body.into(),
        outbound: false,
        delivery: Delivery::Sent,
        sent_at: 0,
        arrival: Arrival::History,
    }
}

#[test]
fn inbox_state_covers_loading_rows_empty_and_no_match() {
    let mut store = SecretStore::memory();
    let mut snapshot = Snapshot::new();
    assert_eq!(snapshot.inbox_state(), InboxState::Empty);
    complete_telegram(&mut snapshot, &mut store);
    assert_eq!(snapshot.inbox_state(), InboxState::Loading);
    snapshot.apply_now(AdapterEvent::ChatListLoaded {
        protocol: ProtocolId::Telegram,
    });
    assert_eq!(snapshot.inbox_state(), InboxState::Empty);

    snapshot.apply_now(AdapterEvent::ConversationUpsert {
        conversation: telegram_chat(1, "Ada", 10),
    });
    assert_eq!(snapshot.inbox_state(), InboxState::Rows);
    snapshot.search = "zzz".into();
    assert_eq!(snapshot.inbox_state(), InboxState::NoMatch);
    snapshot.search = "ad".into();
    assert_eq!(snapshot.inbox_state(), InboxState::Rows);

    snapshot.refresh_visible();
    snapshot.apply_now(AdapterEvent::ConversationRemoved {
        protocol: ProtocolId::Telegram,
        id: "telegram:1".into(),
    });
    assert_eq!(snapshot.inbox_state(), InboxState::Loading);
    snapshot.apply_now(AdapterEvent::Status {
        protocol: ProtocolId::Telegram,
        status: AdapterStatus::Error,
        detail: "Could not load Telegram chats (TDLib 500).".into(),
    });
    assert_eq!(snapshot.inbox_state(), InboxState::Empty);
}

#[test]
fn thread_state_covers_loading_rows_and_empty() {
    let mut store = SecretStore::memory();
    let mut snapshot = Snapshot::new();
    complete_telegram(&mut snapshot, &mut store);
    assert_eq!(snapshot.thread_state(), ThreadState::NoSelection);
    snapshot.apply_now(AdapterEvent::ConversationUpsert {
        conversation: telegram_chat(1, "Ada", 10),
    });
    snapshot.apply_now(AdapterEvent::ConversationUpsert {
        conversation: telegram_chat(2, "Bob", 5),
    });
    assert_eq!(
        snapshot.selected_conversation.as_deref(),
        Some("telegram:1")
    );
    assert_eq!(snapshot.thread_state(), ThreadState::Loading);
    snapshot.apply_now(AdapterEvent::HistoryLoaded {
        protocol: ProtocolId::Telegram,
        conversation_id: "telegram:1".into(),
    });
    assert_eq!(snapshot.thread_state(), ThreadState::Empty);

    snapshot.select_conversation("telegram:2".into());
    assert_eq!(snapshot.thread_state(), ThreadState::Loading);
    snapshot.apply_now(AdapterEvent::MessageReceived {
        message: telegram_text(2, 7, "hi"),
    });
    assert_eq!(snapshot.thread_state(), ThreadState::Rows);
}

#[test]
fn selected_row_requests_scroll_only_when_it_moves() {
    let mut store = SecretStore::memory();
    let mut snapshot = Snapshot::new();
    complete_telegram(&mut snapshot, &mut store);
    snapshot.apply_now(AdapterEvent::ConversationUpsert {
        conversation: telegram_chat(1, "Ada", 10),
    });
    snapshot.apply_now(AdapterEvent::ConversationUpsert {
        conversation: telegram_chat(2, "Bob", 5),
    });
    snapshot.select_conversation("telegram:2".into());
    assert!(!snapshot.take_scroll_to_selected());

    snapshot.apply_now(AdapterEvent::ConversationUpsert {
        conversation: telegram_chat(1, "Ada", 11),
    });
    assert!(
        !snapshot.take_scroll_to_selected(),
        "selected row did not move"
    );

    snapshot.apply_now(AdapterEvent::ConversationUpsert {
        conversation: telegram_chat(3, "Cy", 99),
    });
    assert!(snapshot.take_scroll_to_selected());
    assert!(!snapshot.take_scroll_to_selected(), "one request per move");
}

#[test]
fn a_resort_scrolls_the_highlighted_row_only_when_it_moves() {
    let mut store = SecretStore::memory();
    let mut snapshot = Snapshot::new();
    complete_telegram(&mut snapshot, &mut store);
    snapshot.apply_now(AdapterEvent::ConversationUpsert {
        conversation: telegram_chat(1, "Ada", 10),
    });
    snapshot.apply_now(AdapterEvent::ConversationUpsert {
        conversation: telegram_chat(2, "Bob", 5),
    });
    snapshot.move_inbox_selection(1);
    assert_eq!(snapshot.focused_row.as_deref(), Some("telegram:2"));
    assert!(snapshot.take_scroll_to_focused());

    snapshot.apply_now(AdapterEvent::ConversationUpsert {
        conversation: telegram_chat(1, "Ada", 11),
    });
    assert!(
        !snapshot.wants_scroll_to_focused(),
        "the highlighted row did not move"
    );

    snapshot.apply_now(AdapterEvent::ConversationUpsert {
        conversation: telegram_chat(3, "Cy", 7),
    });
    assert!(snapshot.take_scroll_to_focused());
    assert!(!snapshot.wants_scroll_to_focused(), "one request per move");
}

#[test]
fn a_search_scrolls_the_highlight_when_its_visible_place_changes() {
    let mut store = SecretStore::memory();
    let mut snapshot = Snapshot::new();
    complete_telegram(&mut snapshot, &mut store);
    snapshot.apply_now(AdapterEvent::ConversationUpsert {
        conversation: telegram_chat(1, "Ada", 30),
    });
    snapshot.apply_now(AdapterEvent::ConversationUpsert {
        conversation: telegram_chat(2, "Bob", 20),
    });
    snapshot.apply_now(AdapterEvent::ConversationUpsert {
        conversation: telegram_chat(3, "Cara", 10),
    });
    snapshot.set_search("a".into());
    snapshot.move_inbox_selection(1);
    assert_eq!(snapshot.focused_row.as_deref(), Some("telegram:3"));
    assert_eq!(visible_place(&snapshot, "telegram:3"), Some(1));
    assert!(snapshot.take_scroll_to_focused());

    snapshot.apply_now(AdapterEvent::ConversationUpsert {
        conversation: telegram_chat(2, "Bea", 20),
    });
    assert_eq!(
        visible_place(&snapshot, "telegram:3"),
        Some(2),
        "Bea joins the filtered list above Cara"
    );
    assert!(snapshot.take_scroll_to_focused());
}

#[test]
fn a_highlight_scrolls_only_when_its_place_changes() {
    let mut store = SecretStore::memory();
    let mut snapshot = Snapshot::new();
    complete_telegram(&mut snapshot, &mut store);
    snapshot.apply_now(AdapterEvent::ConversationUpsert {
        conversation: telegram_chat(1, "Ada", 30),
    });
    snapshot.apply_now(AdapterEvent::ConversationUpsert {
        conversation: telegram_chat(2, "Bob", 20),
    });
    snapshot.apply_now(AdapterEvent::ConversationUpsert {
        conversation: telegram_chat(3, "Cara", 10),
    });
    snapshot.move_inbox_selection(-1);
    assert_eq!(snapshot.focused_row.as_deref(), Some("telegram:1"));
    assert!(snapshot.take_scroll_to_focused());

    snapshot.apply_now(AdapterEvent::ConversationUpsert {
        conversation: telegram_chat(4, "Dee", 1),
    });
    assert!(
        !snapshot.wants_scroll_to_focused(),
        "a row below the highlight does not scroll"
    );

    snapshot.apply_now(AdapterEvent::ConversationUpsert {
        conversation: telegram_chat(1, "Ada", 5),
    });
    assert!(
        snapshot.take_scroll_to_focused(),
        "a resort that moves the highlight scrolls"
    );

    snapshot.set_search("Ada".into());
    assert!(snapshot.take_scroll_to_focused());
    snapshot.set_search(String::new());
    assert_eq!(snapshot.focused_row.as_deref(), Some("telegram:1"));
    assert!(
        snapshot.take_scroll_to_focused(),
        "clearing a search scrolls the highlight"
    );
}

fn visible_place(snapshot: &Snapshot, id: &str) -> Option<usize> {
    snapshot
        .visible_conversations()
        .iter()
        .position(|row| row.id == id)
}

fn outgoing(chat: i64, id: i64, body: &str, delivery: Delivery) -> ChatMessage {
    ChatMessage {
        protocol: ProtocolId::Telegram,
        conversation_id: format!("telegram:{chat}"),
        id: format!("telegram:{chat}:{id}"),
        sender: "you".into(),
        body: body.into(),
        outbound: true,
        delivery,
        sent_at: 0,
        arrival: Arrival::History,
    }
}

fn older_requests(snapshot: &mut Snapshot) -> Vec<String> {
    snapshot
        .take_commands()
        .into_iter()
        .filter_map(|command| match command {
            AdapterCommand::LoadOlderMessages {
                before_message_id, ..
            } => Some(before_message_id),
            _ => None,
        })
        .collect()
}

fn older_loaded(chat: i64, before: i64, more: bool) -> AdapterEvent {
    AdapterEvent::OlderHistoryLoaded {
        protocol: ProtocolId::Telegram,
        conversation_id: format!("telegram:{chat}"),
        before_message_id: format!("telegram:{chat}:{before}"),
        more,
        note: None,
    }
}
fn chat_with_recent_page(store: &mut SecretStore) -> Snapshot {
    let mut snapshot = ready_with_chats(store);
    assert_eq!(
        snapshot.selected_conversation.as_deref(),
        Some("telegram:1")
    );
    for id in [51, 50] {
        snapshot.apply_now(AdapterEvent::MessageReceived {
            message: outgoing(1, id, "recent", Delivery::Sent),
        });
    }
    snapshot.apply_now(AdapterEvent::HistoryLoaded {
        protocol: ProtocolId::Telegram,
        conversation_id: "telegram:1".into(),
    });
    snapshot.take_commands();
    snapshot
}

#[test]
fn unread_total_skips_muted_chats_and_protocols_without_a_session() {
    let mut store = SecretStore::memory();
    let mut snapshot = ready_with_chats(&mut store);
    let chat = |id: i64, unread: u32, muted: bool| Conversation {
        unread,
        muted,
        ..telegram_chat(id, "Chat", 10 - id)
    };
    for row in [chat(1, 3, false), chat(2, 4, true), chat(3, 5, false)] {
        snapshot.apply_now(AdapterEvent::ConversationUpsert { conversation: row });
    }
    assert_eq!(snapshot.unread_total(), 8, "the muted chat does not count");
    assert!(
        snapshot
            .conversation(ProtocolId::Telegram, "telegram:2")
            .is_some_and(|row| row.muted)
    );
    snapshot.apply_now(AdapterEvent::Account {
        protocol: ProtocolId::Telegram,
        state: AccountState::Unlinked,
    });
    assert_eq!(snapshot.unread_total(), 0, "no session, no count");
}

#[test]
fn older_pages_merge_above_and_stop_at_the_start_of_the_chat() {
    let mut store = SecretStore::memory();
    let mut snapshot = chat_with_recent_page(&mut store);
    assert_eq!(snapshot.older_state(), OlderState::Idle);

    snapshot.load_older(NOW);
    assert_eq!(older_requests(&mut snapshot), vec!["telegram:1:50"]);
    assert_eq!(snapshot.older_state(), OlderState::Loading);
    snapshot.load_older(NOW);
    assert!(
        older_requests(&mut snapshot).is_empty(),
        "one request at a time"
    );
    for id in [42, 40] {
        snapshot.apply_now(AdapterEvent::MessageReceived {
            message: outgoing(1, id, "older", Delivery::Sent),
        });
    }
    snapshot.apply_now(older_loaded(1, 50, true));
    let ids: Vec<&str> = snapshot
        .selected_messages()
        .iter()
        .map(|row| row.id.as_str())
        .collect();
    assert_eq!(
        ids,
        [
            "telegram:1:40",
            "telegram:1:42",
            "telegram:1:50",
            "telegram:1:51"
        ]
    );
    assert_eq!(snapshot.older_state(), OlderState::Idle);

    snapshot.load_older(NOW);
    assert_eq!(older_requests(&mut snapshot), vec!["telegram:1:40"]);
    snapshot.apply_now(older_loaded(1, 40, false));
    assert_eq!(snapshot.older_state(), OlderState::StartOfChat);
    snapshot.load_older(NOW);
    assert!(
        older_requests(&mut snapshot).is_empty(),
        "no request after the start"
    );
    snapshot.select_conversation("telegram:2".into());
    snapshot.apply_now(AdapterEvent::MessageReceived {
        message: outgoing(2, 9, "bob", Delivery::Sent),
    });
    snapshot.apply_now(AdapterEvent::HistoryLoaded {
        protocol: ProtocolId::Telegram,
        conversation_id: "telegram:2".into(),
    });
    snapshot.take_commands();
    assert_eq!(snapshot.older_state(), OlderState::Idle);
    snapshot.load_older(NOW);
    assert_eq!(older_requests(&mut snapshot), vec!["telegram:2:9"]);
}

#[test]
fn an_older_request_that_brought_nothing_waits_before_the_same_anchor() {
    let mut store = SecretStore::memory();
    let mut snapshot = chat_with_recent_page(&mut store);
    let start = NOW;
    snapshot.load_older(start);
    assert_eq!(older_requests(&mut snapshot), vec!["telegram:1:50"]);
    snapshot.apply_now(older_loaded(1, 50, true));
    assert_eq!(snapshot.older_state(), OlderState::Idle);

    let ended = NOW;
    snapshot.load_older(ended);
    snapshot.load_older(ended + OLDER_RETRY_DELAY / 2);
    assert!(
        older_requests(&mut snapshot).is_empty(),
        "no loop on the same anchor"
    );
    snapshot.load_older(ended + OLDER_RETRY_DELAY);
    assert_eq!(
        older_requests(&mut snapshot),
        vec!["telegram:1:50"],
        "after the delay, one more try"
    );
    snapshot.apply_now(AdapterEvent::MessageReceived {
        message: outgoing(1, 40, "older", Delivery::Sent),
    });
    snapshot.apply_now(older_loaded(1, 50, true));
    snapshot.load_older(NOW);
    assert_eq!(older_requests(&mut snapshot), vec!["telegram:1:40"]);
}

#[test]
fn a_short_thread_asks_again_after_the_wait_and_backs_off() {
    let mut store = SecretStore::memory();
    let mut snapshot = chat_with_recent_page(&mut store);
    snapshot.load_older(NOW);
    assert_eq!(older_requests(&mut snapshot).len(), 1);
    snapshot.apply_now(older_loaded(1, 50, true));
    let ended = NOW;
    assert!(!snapshot.older_can_ask(NOW), "no ask during the wait");
    snapshot.load_older(ended + OLDER_RETRY_DELAY / 2);
    assert!(older_requests(&mut snapshot).is_empty());
    snapshot.load_older(ended + OLDER_RETRY_DELAY);
    assert_eq!(older_requests(&mut snapshot), vec!["telegram:1:50"]);
    snapshot.load_older(ended + OLDER_RETRY_DELAY);
    assert!(older_requests(&mut snapshot).is_empty(), "one at a time");
    snapshot.apply_now(older_loaded(1, 50, true));
    let again = NOW;
    snapshot.load_older(again + OLDER_RETRY_DELAY);
    assert!(older_requests(&mut snapshot).is_empty());
    snapshot.load_older(again + OLDER_RETRY_DELAY * 2);
    assert_eq!(older_requests(&mut snapshot).len(), 1);
    assert_eq!(older_wait(1), OLDER_RETRY_DELAY);
    assert_eq!(older_wait(30), OLDER_RETRY_MAX, "capped");
    snapshot.apply_now(older_loaded(1, 50, false));
    assert!(!snapshot.older_can_ask(NOW));
    snapshot.load_older(again + OLDER_RETRY_MAX * 2);
    assert!(older_requests(&mut snapshot).is_empty());
}

#[test]
fn no_older_request_before_the_first_page_or_after_a_failure_stops_it() {
    let mut store = SecretStore::memory();
    let mut snapshot = ready_with_chats(&mut store);
    snapshot.take_commands();
    snapshot.apply_now(AdapterEvent::MessageReceived {
        message: outgoing(1, 50, "recent", Delivery::Sent),
    });
    snapshot.load_older(NOW);
    assert!(older_requests(&mut snapshot).is_empty());

    let mut snapshot = chat_with_recent_page(&mut store);
    snapshot.load_older(NOW);
    assert_eq!(older_requests(&mut snapshot).len(), 1);
    snapshot.apply_now(AdapterEvent::Status {
        protocol: ProtocolId::Telegram,
        status: AdapterStatus::Error,
        detail: "history failed".into(),
    });
    assert_eq!(snapshot.older_state(), OlderState::Idle);
    snapshot.load_older(NOW);
    snapshot.apply_now(older_loaded(1, 50, false));
    assert_eq!(snapshot.older_state(), OlderState::StartOfChat);
    snapshot.apply_now(AdapterEvent::ConversationRemoved {
        protocol: ProtocolId::Telegram,
        id: "telegram:1".into(),
    });
    assert!(!snapshot
            .older_at_start
            .contains(&"telegram:1".to_string()));
}

fn send_texts(snapshot: &mut Snapshot) -> Vec<String> {
    snapshot
        .take_commands()
        .into_iter()
        .filter_map(|command| match command {
            AdapterCommand::SendText { body, .. } => Some(body),
            _ => None,
        })
        .collect()
}

#[test]
fn enter_sends_and_shift_enter_keeps_the_line() {
    let mut store = SecretStore::memory();
    let mut snapshot = ready_with_chats(&mut store);
    snapshot.compose = "line one".into();
    assert!(
        !snapshot.compose_enter(true, NOW),
        "Shift+Enter goes to the text field"
    );
    assert_eq!(snapshot.compose, "line one");
    assert!(send_texts(&mut snapshot).is_empty());

    snapshot.compose = "line one\nline two".into();
    assert!(snapshot.compose_enter(false, NOW));
    assert_eq!(send_texts(&mut snapshot), vec!["line one\nline two"]);
    snapshot.apply_now(AdapterEvent::MessageReceived {
        message: outgoing(1, 100, "line one\nline two", Delivery::Pending),
    });
    accept(&mut snapshot, "telegram:1");
    assert!(
        snapshot.compose.is_empty(),
        "cleared once the send is accepted"
    );

    snapshot.compose = "   ".into();
    assert!(!snapshot.can_send());
    assert!(
        snapshot.compose_enter(false, NOW),
        "plain Enter never adds a line"
    );
    assert!(send_texts(&mut snapshot).is_empty());
    assert!(snapshot.error.is_none());
}

#[test]
fn arrow_moves_the_inbox_and_enter_opens_the_chat() {
    let mut store = SecretStore::memory();
    let mut snapshot = ready_with_chats(&mut store);
    assert_eq!(
        snapshot.selected_conversation.as_deref(),
        Some("telegram:1")
    );
    snapshot.compose = "draft for Ada".into();
    snapshot.move_inbox_selection(1);
    assert_eq!(
        snapshot.selected_conversation.as_deref(),
        Some("telegram:1"),
        "an arrow does not replace the open chat"
    );
    assert_eq!(snapshot.compose, "draft for Ada");
    assert_eq!(snapshot.focused_row.as_deref(), Some("telegram:2"));
    assert!(snapshot.take_scroll_to_focused());
    assert!(!snapshot.wants_focus_compose());
    assert!(
        snapshot.take_commands().is_empty(),
        "an arrow does not open the chat"
    );
    snapshot.move_inbox_selection(1);
    assert_eq!(snapshot.focused_row.as_deref(), Some("telegram:2"));
    assert!(
        !snapshot.wants_scroll_to_focused(),
        "the last row does not request another scroll"
    );
    snapshot.move_inbox_selection(-1);
    assert_eq!(snapshot.focused_row.as_deref(), Some("telegram:1"));
    assert!(snapshot.take_scroll_to_focused());
    assert_eq!(
        snapshot.selected_conversation.as_deref(),
        Some("telegram:1")
    );
    snapshot.select_conversation("telegram:2".into());
    assert!(snapshot.take_focus_compose());
    assert!(
        snapshot
            .take_commands()
            .iter()
            .any(|command| matches!(command, AdapterCommand::OpenChat { .. })),
        "Enter opens the highlighted chat"
    );
}

#[test]
fn a_hidden_highlight_is_cleared_and_enter_opens_nothing() {
    let mut store = SecretStore::memory();
    let mut snapshot = ready_with_chats(&mut store);
    snapshot.move_inbox_selection(1);
    assert_eq!(snapshot.focused_row.as_deref(), Some("telegram:2"));
    snapshot.set_search("Ada".into());
    assert!(
        snapshot.focused_row.is_none(),
        "the hidden row is not highlighted"
    );
    assert!(snapshot.visible_focused_row().is_none());
    assert_eq!(
        snapshot.selected_conversation.as_deref(),
        Some("telegram:1")
    );
    assert!(snapshot.take_commands().is_empty());

    snapshot.set_search(String::new());
    snapshot.move_inbox_selection(1);
    snapshot.set_search("Bob".into());
    assert_eq!(
        snapshot.visible_focused_row().as_deref(),
        Some("telegram:2"),
        "a row that still matches stays highlighted"
    );

    snapshot.apply_now(AdapterEvent::ConversationRemoved {
        protocol: ProtocolId::Telegram,
        id: "telegram:2".into(),
    });
    assert!(snapshot.focused_row.is_none());
    assert!(snapshot.visible_focused_row().is_none());
}

#[test]
fn picking_a_chat_focuses_compose_and_keeps_drafts_per_chat() {
    let mut store = SecretStore::memory();
    let mut snapshot = ready_with_chats(&mut store);
    assert_eq!(
        snapshot.selected_conversation.as_deref(),
        Some("telegram:1")
    );
    assert!(
        !snapshot.take_focus_compose(),
        "auto-select does not steal focus"
    );
    snapshot.compose = "draft for Ada".into();
    snapshot.select_conversation("telegram:2".into());
    assert!(snapshot.take_focus_compose());
    assert!(!snapshot.take_focus_compose());
    assert_eq!(snapshot.compose, "");
    snapshot.compose = "draft for Bob".into();
    snapshot.select_conversation("telegram:1".into());
    assert_eq!(snapshot.compose, "draft for Ada");
    snapshot.select_conversation("telegram:2".into());
    assert_eq!(snapshot.compose, "draft for Bob");
    assert!(
        send_texts(&mut snapshot).is_empty(),
        "switching never sends"
    );
}

#[test]
fn a_removed_chat_that_is_not_selected_loses_its_draft() {
    let mut store = SecretStore::memory();
    let mut snapshot = ready_with_chats(&mut store);
    snapshot.compose = "draft for Ada".into();
    snapshot.select_conversation("telegram:2".into());
    snapshot.compose = "draft for Bob".into();
    assert!(
        snapshot
            .drafts
            .contains_key(&(ProtocolId::Telegram, "telegram:1".into()))
    );

    snapshot.apply_now(AdapterEvent::ConversationRemoved {
        protocol: ProtocolId::Telegram,
        id: "telegram:1".into(),
    });
    assert!(
        !snapshot
            .drafts
            .contains_key(&(ProtocolId::Telegram, "telegram:1".into())),
        "draft gone"
    );
    assert_eq!(
        snapshot.selected_conversation.as_deref(),
        Some("telegram:2"),
        "the selection stays"
    );
    assert_eq!(snapshot.compose, "draft for Bob", "the open draft stays");
}

#[test]
fn pending_send_turns_sent_on_success() {
    let mut store = SecretStore::memory();
    let mut snapshot = ready_with_chats(&mut store);
    snapshot.apply_now(AdapterEvent::MessageReceived {
        message: outgoing(1, 100, "hi", Delivery::Pending),
    });
    assert_eq!(snapshot.selected_messages()[0].delivery, Delivery::Pending);
    snapshot.apply_now(AdapterEvent::MessageReplaced {
        protocol: ProtocolId::Telegram,
        conversation_id: "telegram:1".into(),
        old_id: "telegram:1:100".into(),
        message: outgoing(1, 200, "hi", Delivery::Sent),
    });
    let messages = snapshot.selected_messages();
    assert_eq!(messages.len(), 1);
    assert_eq!(messages[0].id, "telegram:1:200");
    assert_eq!(messages[0].delivery, Delivery::Sent);
    assert!(snapshot.error.is_none());
}

#[test]
fn failed_send_keeps_the_text_and_retry_queues_one_resend() {
    let mut store = SecretStore::memory();
    let mut snapshot = ready_with_chats(&mut store);
    snapshot.compose = "hi".into();
    snapshot.send_compose(NOW);
    assert_eq!(send_texts(&mut snapshot), vec!["hi"]);
    snapshot.apply_now(AdapterEvent::MessageReceived {
        message: outgoing(1, 100, "hi", Delivery::Pending),
    });
    accept(&mut snapshot, "telegram:1");
    assert!(snapshot.compose.is_empty());
    snapshot.apply_now(AdapterEvent::MessageReplaced {
        protocol: ProtocolId::Telegram,
        conversation_id: "telegram:1".into(),
        old_id: "telegram:1:100".into(),
        message: outgoing(1, 101, "hi", Delivery::Failed),
    });
    assert_eq!(snapshot.selected_messages()[0].delivery, Delivery::Failed);
    assert_eq!(snapshot.compose, "hi", "failed text goes back to compose");
    let error = snapshot.error.clone().expect("error block");
    assert_eq!(error.happened, "Message not sent.");

    snapshot.retry_send("telegram:1:101", NOW);
    snapshot.retry_send("telegram:1:101", NOW);
    let commands = snapshot.take_commands();
    assert_eq!(commands.len(), 1, "{commands:?}");
    assert!(matches!(
        &commands[0],
        AdapterCommand::ResendMessage { protocol: ProtocolId::Telegram, conversation_id, message_id, .. }
            if conversation_id == "telegram:1" && message_id == "telegram:1:101"
    ));
    assert_eq!(snapshot.selected_messages()[0].delivery, Delivery::Pending);
    assert!(
        snapshot.compose.is_empty(),
        "retry does not leave a copy to send twice"
    );

    snapshot.apply_now(AdapterEvent::MessageDelivery {
        protocol: ProtocolId::Telegram,
        conversation_id: "telegram:1".into(),
        message_id: "telegram:1:101".into(),
        delivery: Delivery::Failed,
    });
    assert_eq!(snapshot.selected_messages()[0].delivery, Delivery::Failed);
    assert_eq!(snapshot.compose, "hi");
}

#[test]
fn old_failed_rows_from_history_do_not_raise_an_error() {
    let mut store = SecretStore::memory();
    let mut snapshot = ready_with_chats(&mut store);
    snapshot.apply_now(AdapterEvent::MessageReceived {
        message: outgoing(1, 5, "old", Delivery::Failed),
    });
    assert!(snapshot.error.is_none());
    assert!(snapshot.compose.is_empty());
    snapshot.retry_send("telegram:1:5", NOW);
    assert_eq!(snapshot.take_commands().len(), 1);
}

#[test]
fn failure_in_another_chat_goes_to_that_chat_draft() {
    let mut store = SecretStore::memory();
    let mut snapshot = ready_with_chats(&mut store);
    snapshot.apply_now(AdapterEvent::MessageReceived {
        message: outgoing(2, 100, "for Bob", Delivery::Pending),
    });
    snapshot.apply_now(AdapterEvent::MessageReplaced {
        protocol: ProtocolId::Telegram,
        conversation_id: "telegram:2".into(),
        old_id: "telegram:2:100".into(),
        message: outgoing(2, 101, "for Bob", Delivery::Failed),
    });
    assert!(snapshot.compose.is_empty());
    snapshot.select_conversation("telegram:2".into());
    assert_eq!(snapshot.compose, "for Bob");
}

fn at_phone_step(store: &mut SecretStore) -> Snapshot {
    seed_override(store);
    let mut snapshot = Snapshot::new();
    snapshot.open_telegram(store);
    snapshot.apply_now(AdapterEvent::TelegramAuth {
        phase: TelegramAuthPhase::NeedPhone,
    });
    snapshot.take_commands();
    snapshot
}

#[test]
fn auth_error_table_gives_each_refusal_its_own_copy() {
    let cases = [
        (
            Some(TelegramAuthError::PhoneInvalid),
            "Check the number. Use + and the country code.",
        ),
        (Some(TelegramAuthError::CodeInvalid), "Type it again."),
        (
            Some(TelegramAuthError::CodeExpired),
            "Press Send a new code.",
        ),
        (Some(TelegramAuthError::PasswordInvalid), "Type it again."),
        (
            Some(TelegramAuthError::FloodWait { seconds: 30 }),
            "Wait 1 minute, then try again.",
        ),
        (
            Some(TelegramAuthError::FloodWait { seconds: 125 }),
            "Wait 3 minutes, then try again.",
        ),
        (
            Some(TelegramAuthError::Other { code: 406 }),
            "Correct the field, or press Cancel.",
        ),
        (None, "Correct the field, or press Cancel."),
    ];
    for (reason, next) in cases {
        let error = auth_user_error(reason);
        assert_eq!(error.next, next, "{reason:?}");
        for text in [&error.happened, &error.why, &error.next] {
            assert!(!text.contains("adapter"), "{text}");
            assert!(!text.contains("TDLib"), "{text}");
        }
    }
    assert_eq!(
        auth_user_error(Some(TelegramAuthError::CodeInvalid)).why,
        "The code is wrong."
    );
    assert_eq!(
        auth_user_error(Some(TelegramAuthError::CodeExpired)).why,
        "The code expired."
    );
    assert_eq!(
        auth_user_error(Some(TelegramAuthError::PasswordInvalid)).why,
        "The password is wrong."
    );
    assert!(
        auth_user_error(Some(TelegramAuthError::Other { code: 406 }))
            .why
            .contains("406")
    );
}

#[test]
fn rejected_step_shows_the_specific_error_then_clears() {
    let mut store = SecretStore::memory();
    let mut snapshot = at_phone_step(&mut store);
    snapshot.telegram_phone = "12".into();
    snapshot.auth_key(AuthKey::Enter, &mut store);
    snapshot.apply_now(AdapterEvent::TelegramAuthRejected {
        error: TelegramAuthError::PhoneInvalid,
    });
    snapshot.apply_now(AdapterEvent::TelegramAuth {
        phase: TelegramAuthPhase::Failed,
    });
    assert_eq!(snapshot.auth, AuthScreen::TelegramPhone);
    assert!(!snapshot.auth_busy);
    let error = snapshot.error.clone().expect("error");
    assert_eq!(error.next, "Check the number. Use + and the country code.");

    snapshot.telegram_phone = "+15551234567".into();
    snapshot.auth_key(AuthKey::Enter, &mut store);
    snapshot.apply_now(AdapterEvent::TelegramCodeSent {
        via: TelegramCodeVia::Sms,
    });
    snapshot.apply_now(AdapterEvent::TelegramAuth {
        phase: TelegramAuthPhase::NeedCode,
    });
    assert!(snapshot.error.is_none());
    assert_eq!(snapshot.auth_rejection, None);
    assert_eq!(snapshot.code_via, Some(TelegramCodeVia::Sms));

    snapshot.telegram_code = "11111".into();
    snapshot.auth_key(AuthKey::Enter, &mut store);
    snapshot.apply_now(AdapterEvent::TelegramAuth {
        phase: TelegramAuthPhase::Failed,
    });
    assert_eq!(
        snapshot.error.clone().expect("generic").why,
        "Telegram did not accept this step."
    );
}

#[test]
fn enter_on_each_step_queues_exactly_one_auth_step() {
    let mut store = SecretStore::memory();
    let mut snapshot = at_phone_step(&mut store);
    snapshot.telegram_phone = "+15551234567".into();
    snapshot.auth_key(AuthKey::Enter, &mut store);
    snapshot.auth_key(AuthKey::Enter, &mut store);
    assert_eq!(auth_steps(&mut snapshot), vec![TelegramAuthStep::Phone]);
    snapshot.apply_now(AdapterEvent::TelegramAuth {
        phase: TelegramAuthPhase::NeedCode,
    });
    snapshot.telegram_code = "12345".into();
    snapshot.auth_key(AuthKey::Enter, &mut store);
    snapshot.auth_key(AuthKey::Enter, &mut store);
    assert_eq!(auth_steps(&mut snapshot), vec![TelegramAuthStep::Code]);
    snapshot.apply_now(AdapterEvent::TelegramAuth {
        phase: TelegramAuthPhase::NeedTwoFactor,
    });
    snapshot.telegram_2fa = "2fa-secret".into();
    snapshot.auth_key(AuthKey::Enter, &mut store);
    snapshot.auth_key(AuthKey::Enter, &mut store);
    assert_eq!(auth_steps(&mut snapshot), vec![TelegramAuthStep::TwoFactor]);
}

#[test]
fn empty_two_step_password_cannot_submit() {
    let mut store = SecretStore::memory();
    let mut snapshot = at_phone_step(&mut store);
    snapshot.apply_now(AdapterEvent::TelegramAuth {
        phase: TelegramAuthPhase::NeedTwoFactor,
    });
    assert!(!snapshot.can_submit_auth());
    snapshot.auth_key(AuthKey::Enter, &mut store);
    snapshot.advance_telegram(&mut store);
    assert!(auth_steps(&mut snapshot).is_empty());
    assert!(!snapshot.auth_busy, "the screen does not hang in busy");
    snapshot.telegram_2fa = "x".into();
    assert!(snapshot.can_submit_auth());
}

#[test]
fn escape_cancels_and_change_number_goes_back_without_a_command() {
    let mut store = SecretStore::memory();
    let mut snapshot = at_phone_step(&mut store);
    snapshot.telegram_phone = "+15551234567".into();
    snapshot.auth_key(AuthKey::Enter, &mut store);
    snapshot.apply_now(AdapterEvent::TelegramAuth {
        phase: TelegramAuthPhase::NeedCode,
    });
    snapshot.take_commands();
    snapshot.telegram_code = "123".into();
    snapshot.change_number();
    assert_eq!(snapshot.auth, AuthScreen::TelegramPhone);
    assert!(snapshot.telegram_code.is_empty());
    assert!(snapshot.take_commands().is_empty());

    snapshot.auth_key(AuthKey::Escape, &mut store);
    assert_eq!(snapshot.auth, AuthScreen::Idle);
    assert!(snapshot.telegram_phone.is_empty());
}

#[test]
fn send_a_new_code_asks_telegram_to_resend_it() {
    let mut store = SecretStore::memory();
    let mut snapshot = at_phone_step(&mut store);
    snapshot.telegram_phone = "+15551234567".into();
    snapshot.auth_key(AuthKey::Enter, &mut store);
    snapshot.apply_now(AdapterEvent::TelegramAuth {
        phase: TelegramAuthPhase::NeedCode,
    });
    snapshot.take_commands();
    snapshot.apply_now(AdapterEvent::TelegramAuthRejected {
        error: TelegramAuthError::CodeExpired,
    });
    snapshot.apply_now(AdapterEvent::TelegramAuth {
        phase: TelegramAuthPhase::Failed,
    });
    snapshot.telegram_code = "11111".into();
    snapshot.resend_code();
    snapshot.resend_code();
    assert_eq!(
        auth_steps(&mut snapshot),
        vec![TelegramAuthStep::ResendCode],
        "resendAuthenticationCode, not a new phone submit"
    );
    assert_eq!(
        snapshot.auth,
        AuthScreen::TelegramCode,
        "the code step stays"
    );
    assert!(snapshot.telegram_code.is_empty());
    assert!(snapshot.auth_busy);
    snapshot.apply_now(AdapterEvent::TelegramCodeSent {
        via: TelegramCodeVia::Sms,
    });
    snapshot.apply_now(AdapterEvent::TelegramAuth {
        phase: TelegramAuthPhase::NeedCode,
    });
    assert!(!snapshot.auth_busy);
    assert_eq!(snapshot.code_via, Some(TelegramCodeVia::Sms));
}

#[test]
fn change_number_submits_the_new_phone_from_the_code_step() {
    let mut store = SecretStore::memory();
    let mut snapshot = at_phone_step(&mut store);
    snapshot.telegram_phone = "+15551234567".into();
    snapshot.auth_key(AuthKey::Enter, &mut store);
    snapshot.apply_now(AdapterEvent::TelegramAuth {
        phase: TelegramAuthPhase::NeedCode,
    });
    snapshot.take_commands();
    snapshot.change_number();
    assert_eq!(snapshot.auth, AuthScreen::TelegramPhone);
    snapshot.telegram_phone = "+15557654321".into();
    snapshot.auth_key(AuthKey::Enter, &mut store);
    assert_eq!(
        auth_steps(&mut snapshot),
        vec![TelegramAuthStep::Phone],
        "setAuthenticationPhoneNumber in WaitCode moves TDLib to the new number"
    );
    assert_eq!(
        store.get(SecretKey::Phone).expect("phone").as_deref(),
        Some("+15557654321")
    );
}

#[test]
fn enter_runs_the_main_button_on_each_center_screen() {
    let mut store = SecretStore::memory();
    seed_override(&mut store);
    let mut snapshot = Snapshot::new();
    assert_eq!(snapshot.center_view(), CenterView::FirstRun);
    snapshot.center_key(AuthKey::Enter, &mut store);
    assert_eq!(
        snapshot.auth,
        AuthScreen::TelegramConnecting,
        "Enter = Add Telegram"
    );
    assert_eq!(
        auth_steps(&mut snapshot),
        vec![TelegramAuthStep::ApiCredentials]
    );
    snapshot.apply_now(AdapterEvent::TelegramAuth {
        phase: TelegramAuthPhase::NeedPhone,
    });
    snapshot.telegram_phone = "+15551234567".into();
    snapshot.center_key(AuthKey::Enter, &mut store);
    assert_eq!(auth_steps(&mut snapshot), vec![TelegramAuthStep::Phone]);
    snapshot.center_key(AuthKey::Escape, &mut store);
    assert_eq!(snapshot.center_view(), CenterView::FirstRun);

    let mut missing = SecretStore::memory();
    let mut no_api = Snapshot::with_api_source(TelegramApiSource::empty());
    no_api.center_key(AuthKey::Enter, &mut missing);
    assert_eq!(no_api.auth, AuthScreen::NeedCredentials);
    no_api.center_key(AuthKey::Enter, &mut missing);
    assert_eq!(no_api.auth, AuthScreen::TelegramApi, "Enter = Advanced");

    let mut ready = ready_with_chats(&mut store);
    ready.compose = "hi".into();
    ready.center_key(AuthKey::Enter, &mut store);
    assert!(
        ready.take_commands().is_empty(),
        "compose owns Enter in the thread"
    );
}

#[test]
fn failed_client_setup_leaves_the_login_and_closes_the_client() {
    let mut store = SecretStore::memory();
    let mut snapshot = at_phone_step(&mut store);
    snapshot.apply_now(AdapterEvent::TelegramAuthRejected {
        error: TelegramAuthError::ClientSetup { code: 400 },
    });
    snapshot.apply_now(AdapterEvent::TelegramAuth {
        phase: TelegramAuthPhase::Failed,
    });
    assert_eq!(
        snapshot.auth,
        AuthScreen::Idle,
        "no phone step on a dead client"
    );
    assert!(!snapshot.auth_busy);
    let error = snapshot.error.clone().expect("error");
    assert_eq!(error.happened, "Telegram could not start.");
    assert!(error.why.contains("400"));
    assert!(snapshot.take_commands().iter().any(|command| matches!(
        command,
        AdapterCommand::Disconnect {
            protocol: ProtocolId::Telegram
        }
    )));
    assert_eq!(snapshot.center_view(), CenterView::FirstRun);
}

#[test]
fn data_reset_shows_its_notice_on_the_next_phone_step() {
    let mut store = SecretStore::memory();
    seed_override(&mut store);
    store
        .set(SecretKey::Session, "tdlib-ready")
        .expect("marker");
    let mut snapshot = Snapshot::new();
    snapshot.try_resume(&mut store, true);
    snapshot.apply_now(AdapterEvent::TelegramDataReset {
        moved_to: "tdlib.stale-1790000000".into(),
    });
    snapshot.apply_now(AdapterEvent::TelegramAuth {
        phase: TelegramAuthPhase::NeedPhone,
    });
    assert_eq!(snapshot.auth, AuthScreen::TelegramPhone);
    let notice = snapshot.auth_notice.clone().expect("notice");
    assert!(notice.contains("\"tdlib.stale-1790000000\""), "{notice}");
    assert!(notice.contains("kept"), "never deleted (R62)");
    assert!(!notice.contains('/'), "a name, not a path");
    snapshot.telegram_phone = "+15551234567".into();
    submit_and_apply(&mut snapshot, &mut store, TelegramAuthPhase::NeedCode);
    assert_eq!(snapshot.auth_notice, None, "shown once");
    snapshot.apply_now(AdapterEvent::TelegramAuth {
        phase: TelegramAuthPhase::NeedPhone,
    });
    assert_eq!(snapshot.auth_notice, None, "the folder name shows once");
}

#[test]
fn add_telegram_waits_for_the_keychain_read() {
    let mut store = SecretStore::blank(AttachPhase::Detached);
    let mut snapshot =
        Snapshot::with_api_source(TelegramApiSource::with_publisher("11111", "publisher-hash"));
    snapshot.open_telegram(&mut store);
    assert_eq!(snapshot.auth, AuthScreen::Idle);
    assert!(
        snapshot.take_commands().is_empty(),
        "no client before the key is known"
    );
    ready_attach(&mut store, &[]);
    snapshot.open_telegram(&mut store);
    assert_eq!(snapshot.auth, AuthScreen::TelegramConnecting);
}

#[test]
fn cancel_before_sign_in_still_closes_the_client() {
    let mut store = SecretStore::memory();
    let mut snapshot = at_phone_step(&mut store);
    assert!(snapshot.can_add_account());
    snapshot.cancel_auth(&mut store);
    assert!(snapshot.take_commands().iter().any(|command| matches!(
        command,
        AdapterCommand::Disconnect {
            protocol: ProtocolId::Telegram
        }
    )));
}

#[test]
fn default_chrome_is_telegram_only_when_spikes_are_off() {
    assert!(chrome(ProtocolId::Telegram));
    assert_eq!(
        chrome(ProtocolId::Slack),
        false
    );
    assert_eq!(
        chrome(ProtocolId::WhatsApp),
        false
    );
    assert_eq!(
        chrome(ProtocolId::Discord),
        false
    );
    assert_eq!(
        chrome(ProtocolId::Signal),
        false
    );
    let filters = InboxFilter::chrome_filters(Build::default());
    assert!(filters.contains(&InboxFilter::All));
    assert!(filters.contains(&InboxFilter::Telegram));
    assert_eq!(filters.len(), 2);
    assert!(
        !filters
            .iter()
            .any(|filter| filter.label() == "Experimental")
    );
    let snapshot = Snapshot::new();
    assert!(snapshot.shows_in_switcher(ProtocolId::Telegram));
    assert_eq!(
        snapshot.shows_in_switcher(ProtocolId::WhatsApp),
        false
    );
    assert_eq!(
        snapshot.shows_in_switcher(ProtocolId::Discord),
        false
    );
    assert_eq!(
        snapshot.shows_in_switcher(ProtocolId::Slack),
        false
    );
    assert_eq!(
        snapshot.shows_in_switcher(ProtocolId::Signal),
        false
    );
}

#[test]
fn linked_closes_the_signal_gate_without_cancelling_the_session() {
    let mut snapshot = signal_shell();
    snapshot.open_signal_notice();
    snapshot.acknowledge_signal_notice();
    snapshot.begin_signal_link();
    assert_eq!(snapshot.signal_screen, SignalScreen::Link);
    let _ = snapshot.take_commands();
    snapshot.apply_now(AdapterEvent::Account {
        protocol: ProtocolId::Signal,
        state: AccountState::Linked,
    });
    assert_eq!(snapshot.signal_screen, SignalScreen::Hidden);
    assert!(!snapshot.signal_gate_open());
    assert!(snapshot.signal_qr.is_none());
    assert_eq!(snapshot.selected_protocol, ProtocolId::Signal);
    assert!(
        snapshot
            .accounts
            .iter()
            .any(|row| row.caps.id == ProtocolId::Signal && row.linked())
    );
    assert!(
        !snapshot
            .take_commands()
            .contains(&AdapterCommand::SignalCancelLink)
    );
}

#[test]
fn a_failed_link_can_start_again() {
    let mut snapshot = signal_shell();
    snapshot.open_signal_notice();
    snapshot.acknowledge_signal_notice();
    snapshot.begin_signal_link();
    assert!(snapshot.signal_started);
    let _ = snapshot.take_commands();
    snapshot.apply_now(AdapterEvent::Status {
        protocol: ProtocolId::Signal,
        status: AdapterStatus::Error,
        detail: "Signal linking failed. No provisioning URL was logged.".into(),
    });
    snapshot.apply_now(AdapterEvent::Account {
        protocol: ProtocolId::Signal,
        state: AccountState::Unlinked,
    });
    assert!(!snapshot.signal_started);
    let error = snapshot.error.clone().expect("error");
    assert_eq!(error.happened, "Signal linking failed.");
    assert!(error.why.contains("No provisioning URL"));
    assert!(error.next.contains("Start linking again"));
}

#[test]
fn reviewing_the_notice_keeps_a_linked_session() {
    let mut snapshot = signal_shell();
    snapshot.open_signal_notice();
    snapshot.acknowledge_signal_notice();
    snapshot.begin_signal_link();
    let _ = snapshot.take_commands();
    snapshot.apply_now(AdapterEvent::Account {
        protocol: ProtocolId::Signal,
        state: AccountState::Linked,
    });
    snapshot.open_signal_notice();
    assert_eq!(snapshot.signal_screen, SignalScreen::Notice);
    assert!(
        !snapshot
            .take_commands()
            .contains(&AdapterCommand::SignalCancelLink)
    );
    snapshot.close_signal_gate();
    assert_eq!(snapshot.signal_screen, SignalScreen::Hidden);
    assert!(
        !snapshot
            .take_commands()
            .contains(&AdapterCommand::SignalCancelLink)
    );
    assert!(
        snapshot
            .accounts
            .iter()
            .any(|row| row.caps.id == ProtocolId::Signal && row.linked())
    );
}

#[test]
fn an_older_signal_qr_is_dropped() {
    let mut snapshot = signal_shell();
    snapshot.open_signal_notice();
    snapshot.acknowledge_signal_notice();
    snapshot.begin_signal_link();
    let AdapterCommand::SignalBeginLink { generation } = snapshot
        .take_commands()
        .into_iter()
        .find(|command| matches!(command, AdapterCommand::SignalBeginLink { .. }))
        .expect("begin")
    else {
        panic!("begin link");
    };
    snapshot.apply_now(AdapterEvent::SignalQr {
        code: RedactedPairingSecret::new("sgnl://old"),
        generation: generation.saturating_sub(1),
    });
    assert!(snapshot.signal_qr.is_none());
    snapshot.apply_now(AdapterEvent::SignalQr {
        code: RedactedPairingSecret::new("sgnl://current"),
        generation,
    });
    assert_eq!(snapshot.signal_qr.as_deref(), Some("sgnl://current"));
}

#[test]
fn first_run_without_credentials_does_not_open_api_screens() {
    let mut store = SecretStore::memory();
    let mut snapshot = Snapshot::with_api_source(TelegramApiSource::empty());
    snapshot.open_add_account(&mut store);
    assert_eq!(snapshot.auth, AuthScreen::NeedCredentials);
    assert!(snapshot.status_text.contains("Credentials missing"));
    assert!(!snapshot.status_text.contains("my.telegram.org"));
    snapshot.advance_telegram(&mut store);
    assert_eq!(snapshot.auth, AuthScreen::NeedCredentials);
    assert!(store.get(SecretKey::ApiId).expect("get").is_none());
}


#[test]
fn publisher_inject_skips_api_screens() {
    let mut store = SecretStore::memory();
    let mut snapshot =
        Snapshot::with_api_source(TelegramApiSource::with_publisher("11111", "publisher-hash"));
    snapshot.open_telegram(&mut store);
    assert_eq!(snapshot.auth, AuthScreen::TelegramConnecting);
    assert!(snapshot.auth_busy);
    assert!(!snapshot.telegram_ready());
    let commands = snapshot.take_commands();
    assert!(commands.iter().any(|c| matches!(
        c,
        AdapterCommand::TelegramAuth {
            step: TelegramAuthStep::ApiCredentials,
            epoch: 0
        }
    )));
    assert!(!format!("{commands:?}").contains("publisher-hash"));
}

#[test]
fn keychain_override_skips_api_screens() {
    let mut store = SecretStore::memory();
    seed_override(&mut store);
    let mut snapshot = Snapshot::new();
    snapshot.open_telegram(&mut store);
    assert_eq!(snapshot.auth, AuthScreen::TelegramConnecting);
    assert!(snapshot.has_api_credentials(&mut store));
}

#[test]
fn telegram_auth_waits_for_adapter_phase_events() {
    let mut store = SecretStore::memory();
    seed_override(&mut store);
    let mut snapshot = Snapshot::new();
    snapshot.open_telegram(&mut store);
    assert_eq!(snapshot.auth, AuthScreen::TelegramConnecting);
    assert!(snapshot.auth_busy);
    snapshot.apply_now(AdapterEvent::TelegramAuth {
        phase: TelegramAuthPhase::NeedPhone,
    });
    assert_eq!(snapshot.auth, AuthScreen::TelegramPhone);
    assert!(!snapshot.auth_busy);
    snapshot.telegram_phone = "+15551234567".into();
    snapshot.advance_telegram(&mut store);
    snapshot.apply_now(AdapterEvent::TelegramAuth {
        phase: TelegramAuthPhase::NeedCode,
    });
    assert_eq!(snapshot.auth, AuthScreen::TelegramCode);
    snapshot.telegram_code = "12345".into();
    snapshot.advance_telegram(&mut store);
    snapshot.apply_now(AdapterEvent::TelegramAuth {
        phase: TelegramAuthPhase::NeedTwoFactor,
    });
    assert_eq!(snapshot.auth, AuthScreen::Telegram2fa);
    assert!(!snapshot.telegram_ready());
}

#[test]
fn busy_submit_does_not_queue_a_second_command() {
    let mut store = SecretStore::memory();
    seed_override(&mut store);
    let mut snapshot = Snapshot::new();
    snapshot.open_telegram(&mut store);
    assert_eq!(snapshot.take_commands().len(), 1);
    snapshot.advance_telegram(&mut store);
    assert!(snapshot.take_commands().is_empty());
    assert!(snapshot.auth_busy);
}

#[test]
fn empty_override_fields_do_not_advance() {
    let mut store = SecretStore::memory();
    let mut snapshot = Snapshot::new();
    snapshot.open_api_override(&mut store);
    snapshot.advance_telegram(&mut store);
    assert_eq!(snapshot.auth, AuthScreen::TelegramApi);
    assert!(snapshot.error.is_some());
    assert!(store.get(SecretKey::ApiId).expect("get").is_none());
}

#[test]
fn cancel_always_returns_to_idle_and_clears_fields() {
    let mut store = SecretStore::memory();
    seed_override(&mut store);
    let mut snapshot = Snapshot::new();
    snapshot.open_telegram(&mut store);
    snapshot.apply_now(AdapterEvent::TelegramAuth {
        phase: TelegramAuthPhase::NeedPhone,
    });
    snapshot.telegram_phone = "+15551234567".into();
    snapshot.advance_telegram(&mut store);
    snapshot.cancel_auth(&mut store);
    assert_eq!(snapshot.auth, AuthScreen::Idle);
    assert!(snapshot.telegram_phone.is_empty());
    assert!(!snapshot.telegram_ready());
}

#[test]
fn telegram_flow_stores_secrets_and_lands_in_inbox() {
    let mut store = SecretStore::memory();
    let mut snapshot = Snapshot::new();
    let saved = || AdapterEvent::ConversationUpsert {
        conversation: Conversation {
            protocol: ProtocolId::Telegram,
            id: "telegram:saved".into(),
            title: "Saved Messages".into(),
            participant: "you".into(),
            preview: "secret-preview-should-not-match-search".into(),
            unread: 2,
            order: 0,
            last_at: 0,
            is_group: false,
            writable: true,
            placeholder: false,
            muted: false,
        },
    };
    snapshot.apply_now(saved());
    assert!(
        snapshot.conversations.is_empty(),
        "not kept"
    );
    assert!(snapshot.visible_conversations().is_empty());
    assert_eq!(snapshot.unread_for(ProtocolId::Telegram), 0);
    complete_telegram(&mut snapshot, &mut store);
    snapshot.apply_now(saved());
    assert!(snapshot.has_primary_account());
    assert_eq!(snapshot.selected_protocol, ProtocolId::Telegram);
    assert_eq!(
        snapshot.selected_conversation.as_deref(),
        Some("telegram:saved")
    );
    assert_eq!(snapshot.visible_conversations().len(), 1);
    assert_eq!(snapshot.unread_for(ProtocolId::Telegram), 2);
    assert_eq!(
        store.get(SecretKey::ApiId).expect("id").as_deref(),
        Some("11111")
    );
    assert_eq!(
        store.get(SecretKey::ApiHash).expect("hash").as_deref(),
        Some("hash-value")
    );
    assert_eq!(store.get(SecretKey::Session).expect("session"), None);
    assert_eq!(
        store.get(SecretKey::Phone).expect("phone").as_deref(),
        Some("+15551234567")
    );
    let commands = snapshot.take_commands();
    assert!(commands.iter().any(|c| matches!(
        c,
        AdapterCommand::TelegramAuth {
            step: TelegramAuthStep::ApiCredentials,
            epoch: 0
        }
    )));
    assert!(commands.iter().any(|c| matches!(
        c,
        AdapterCommand::TelegramAuth {
            step: TelegramAuthStep::TwoFactor,
            epoch: 0
        }
    )));
    assert!(!commands.iter().any(|c| matches!(
        c,
        AdapterCommand::TelegramAuth {
            step: TelegramAuthStep::Complete,
            epoch: 0
        }
    )));
    let debug = format!("{commands:?}");
    assert!(!debug.contains("11111"));
    assert!(!debug.contains("hash-value"));
    assert!(!debug.contains("+15551234567"));
    assert!(!debug.contains("12345"));
    assert!(!debug.contains("2fa-secret"));
    assert!(!snapshot.take_keychain_flush());
}

#[test]
fn unavailable_phase_does_not_link_a_live_account() {
    let mut store = SecretStore::memory();
    seed_override(&mut store);
    let mut snapshot = Snapshot::new();
    snapshot.open_telegram(&mut store);
    snapshot.apply_now(AdapterEvent::TelegramAuth {
        phase: TelegramAuthPhase::NeedPhone,
    });
    snapshot.telegram_phone = "+15551234567".into();
    submit_and_apply(&mut snapshot, &mut store, TelegramAuthPhase::NeedCode);
    snapshot.telegram_code = "12345".into();
    submit_and_apply(&mut snapshot, &mut store, TelegramAuthPhase::NeedTwoFactor);
    submit_and_apply(&mut snapshot, &mut store, TelegramAuthPhase::Unavailable);
    assert_eq!(snapshot.auth, AuthScreen::Idle);
    assert!(!snapshot.has_primary_account());
    assert!(!snapshot.telegram_ready());
    assert!(snapshot.status_text.contains("TDLib unavailable"));
}

#[test]
fn stub_banner_drops_only_on_ready() {
    let mut store = SecretStore::memory();
    let mut snapshot = Snapshot::new();
    assert!(!snapshot.telegram_ready());
    seed_override(&mut store);
    snapshot.open_telegram(&mut store);
    snapshot.apply_now(AdapterEvent::TelegramAuth {
        phase: TelegramAuthPhase::NeedPhone,
    });
    assert!(!snapshot.telegram_ready());
    snapshot.telegram_phone = "+15551234567".into();
    submit_and_apply(&mut snapshot, &mut store, TelegramAuthPhase::NeedCode);
    snapshot.telegram_code = "12345".into();
    submit_and_apply(&mut snapshot, &mut store, TelegramAuthPhase::NeedTwoFactor);
    assert!(!snapshot.telegram_ready());
    submit_and_apply(&mut snapshot, &mut store, TelegramAuthPhase::Ready);
    assert!(snapshot.telegram_ready());
}

#[test]
fn flush_secrets_event_requests_os_keychain_flush_without_values() {
    let mut snapshot = Snapshot::new();
    assert!(!snapshot.take_keychain_flush());
    snapshot.apply_now(AdapterEvent::FlushSecrets);
    assert!(snapshot.take_keychain_flush());
    assert!(!snapshot.take_keychain_flush());
    let debug = AdapterEvent::FlushSecrets.debug_text();
    assert!(debug.contains("FlushSecrets"));
    assert!(!debug.to_ascii_lowercase().contains("hash"));
    assert!(!debug.contains("db_key"));
}

#[test]
fn a_failed_keychain_read_blocks_sign_in_and_offers_try_again() {
    let mut store = SecretStore::blank(AttachPhase::Detached);
    store.finish_read_failed();
    let mut snapshot =
        Snapshot::with_api_source(TelegramApiSource::with_publisher("11111", "publisher-hash"));
    snapshot.poll_resume(&store, NOW);
    assert_eq!(snapshot.center_view(), CenterView::KeychainFailed);
    snapshot.open_telegram(&mut store);
    snapshot.open_add_account(&mut store);
    assert_eq!(snapshot.auth, AuthScreen::Idle);
    assert!(snapshot.take_commands().is_empty());
    assert!(snapshot.error.is_some());

    snapshot.center_key(AuthKey::Enter, &mut store);
    assert!(snapshot.take_keychain_retry(), "Enter = Try again");
    assert!(!snapshot.take_keychain_retry(), "one retry per press");
    ready_attach(&mut store, &[
        (SecretKey::ApiId, "11111"),
        (SecretKey::ApiHash, "hash-value"),
        (SecretKey::Session, "tdlib-ready"),
    ]);
    snapshot.try_resume(&mut store, true);
    if store.read_failed() {
        snapshot.marks.insert(Mark::KeychainFailed);
    } else {
        snapshot.marks.remove(&Mark::KeychainFailed);
    }
    assert_eq!(
        snapshot.center_view(),
        CenterView::Resuming { connecting: true }
    );
    assert_eq!(
        auth_steps(&mut snapshot),
        vec![TelegramAuthStep::ApiCredentials]
    );
}

#[test]
fn compose_text_stays_until_the_adapter_accepts_the_send() {
    let mut store = SecretStore::memory();
    let mut snapshot = ready_with_chats(&mut store);
    snapshot.compose = "hello".into();
    snapshot.send_compose(NOW);
    assert_eq!(send_texts(&mut snapshot), vec!["hello"]);
    assert_eq!(
        snapshot.compose, "hello",
        "not cleared before the pending row"
    );
    assert!(
        !snapshot.can_send(),
        "no second send while one is in flight"
    );
    snapshot.send_compose(NOW);
    assert!(send_texts(&mut snapshot).is_empty());

    snapshot.apply_now(AdapterEvent::MessageReceived {
        message: outgoing(1, 100, "hello", Delivery::Pending),
    });
    accept(&mut snapshot, "telegram:1");
    assert!(
        snapshot.compose.is_empty(),
        "the pending row means accepted"
    );
    assert!(snapshot.error.is_none());
}

#[test]
fn a_send_in_one_chat_does_not_block_send_in_another() {
    let mut store = SecretStore::memory();
    let mut snapshot = ready_with_chats(&mut store);
    snapshot.compose = "for Ada".into();
    snapshot.send_compose(NOW);
    assert!(!snapshot.can_send(), "chat 1 waits for its pending row");
    snapshot.select_conversation("telegram:2".into());
    snapshot.compose = "for Bob".into();
    assert!(snapshot.can_send(), "chat 2 is free");
    snapshot.send_compose(NOW);
    assert_eq!(send_texts(&mut snapshot), vec!["for Ada", "for Bob"]);

    snapshot.apply_now(AdapterEvent::MessageReceived {
        message: outgoing(1, 100, "for Ada", Delivery::Pending),
    });
    accept(&mut snapshot, "telegram:1");
    snapshot.select_conversation("telegram:1".into());
    assert!(
        snapshot.compose.is_empty(),
        "chat 1's draft cleared on accept"
    );
    snapshot.select_conversation("telegram:2".into());
    assert_eq!(snapshot.compose, "for Bob", "chat 2 still waits");
}

#[test]
fn an_immediate_send_error_keeps_the_text_and_shows_the_error() {
    let mut store = SecretStore::memory();
    let mut snapshot = ready_with_chats(&mut store);
    snapshot.compose = "hello".into();
    snapshot.send_compose(NOW);
    let request = sent_request(&mut snapshot);
    snapshot.apply_now(AdapterEvent::SendRejected {
        protocol: ProtocolId::Telegram,
        conversation_id: "telegram:1".into(),
        request: request + 100,
    });
    assert!(!snapshot.can_send(), "still pending");
    snapshot.apply_now(AdapterEvent::SendRejected {
        protocol: ProtocolId::Telegram,
        conversation_id: "telegram:1".into(),
        request,
    });
    assert_eq!(snapshot.compose, "hello", "no pending row: the text stays");
    let error = snapshot.error.clone().expect("error block");
    assert_eq!(error.happened, "Message not sent.");
    assert!(snapshot.can_send(), "the user can send it again");
}

#[test]
fn an_unrelated_telegram_error_keeps_the_send_pending() {
    let mut store = SecretStore::memory();
    let mut snapshot = ready_with_chats(&mut store);
    snapshot.compose = "hello".into();
    snapshot.send_compose(NOW);
    snapshot.take_commands();
    snapshot.apply_now(AdapterEvent::Status {
        protocol: ProtocolId::Telegram,
        status: AdapterStatus::Error,
        detail: "Could not load messages (TDLib 500).".into(),
    });
    assert!(
        snapshot.error.is_none(),
        "no \"Message not sent\" for a history error"
    );
    assert!(!snapshot.can_send(), "the send is still pending");
    snapshot.apply_now(AdapterEvent::MessageReceived {
        message: outgoing(1, 100, "hello", Delivery::Pending),
    });
    accept(&mut snapshot, "telegram:1");
    assert!(snapshot.compose.is_empty(), "then accepted as usual");
}
fn accept(snapshot: &mut Snapshot, chat: &str) {
    let request = snapshot
        .sends
        .request_of(ProtocolId::Telegram, chat)
        .expect("a send in flight");
    snapshot.apply_now(AdapterEvent::SendAccepted {
        protocol: ProtocolId::Telegram,
        conversation_id: chat.into(),
        request,
    });
}

#[test]
fn a_history_message_with_the_same_text_is_not_an_acceptance() {
    let mut store = SecretStore::memory();
    let mut snapshot = ready_with_chats(&mut store);
    snapshot.compose = "ok".into();
    snapshot.send_compose(NOW);
    let request = sent_request(&mut snapshot);
    snapshot.apply_now(AdapterEvent::MessageReceived {
        message: outgoing(1, 5, "ok", Delivery::Sent),
    });
    assert_eq!(snapshot.compose, "ok", "history does not accept the send");
    assert!(!snapshot.can_send(), "the real send is still in flight");
    snapshot.apply_now(AdapterEvent::SendRejected {
        protocol: ProtocolId::Telegram,
        conversation_id: "telegram:1".into(),
        request,
    });
    assert_eq!(snapshot.compose, "ok");
    assert_eq!(
        snapshot.error.clone().expect("error").happened,
        "Message not sent."
    );
}

fn sent_request(snapshot: &mut Snapshot) -> u64 {
    snapshot
        .take_commands()
        .into_iter()
        .find_map(|command| match command {
            AdapterCommand::SendText { request, .. } => Some(request),
            _ => None,
        })
        .expect("a SendText")
}

#[test]
fn a_new_phone_step_drops_a_stale_code_and_password() {
    let mut store = SecretStore::memory();
    let mut snapshot = at_phone_step(&mut store);
    snapshot.telegram_code = "12345".into();
    snapshot.telegram_2fa = "old-password".into();
    snapshot.apply_now(AdapterEvent::TelegramAuth {
        phase: TelegramAuthPhase::NeedPhone,
    });
    assert_eq!(snapshot.auth, AuthScreen::TelegramPhone);
    assert!(snapshot.telegram_code.is_empty(), "no stale code");
    assert!(snapshot.telegram_2fa.is_empty(), "no stale password");
}

#[test]
fn exit_waits_until_every_adapter_stopped() {
    let mut snapshot = Snapshot::new();
    assert!(!snapshot.all_stopped());
    snapshot.apply_now(AdapterEvent::Stopped {
        protocol: ProtocolId::Telegram,
    });
    assert!(
        !snapshot.all_stopped(),
        "Telegram alone is not enough"
    );
    for protocol in [
        ProtocolId::WhatsApp,
        ProtocolId::Discord,
        ProtocolId::Slack,
        ProtocolId::Signal,
    ] {
        snapshot.apply_now(AdapterEvent::Stopped { protocol });
    }
    assert!(snapshot.all_stopped());
}

#[test]
fn a_confirmed_missing_key_still_lets_sign_in_start() {
    let mut store = SecretStore::blank(AttachPhase::Detached);
    ready_attach(&mut store, &[]);
    let mut snapshot =
        Snapshot::with_api_source(TelegramApiSource::with_publisher("11111", "publisher-hash"));
    snapshot.poll_resume(&store, NOW);
    assert_ne!(snapshot.center_view(), CenterView::KeychainFailed);
    snapshot.open_telegram(&mut store);
    assert_eq!(snapshot.auth, AuthScreen::TelegramConnecting);
    assert_eq!(
        auth_steps(&mut snapshot),
        vec![TelegramAuthStep::ApiCredentials]
    );
}

#[test]
fn failed_phase_clears_busy_and_stays_on_the_current_form() {
    let mut store = SecretStore::memory();
    seed_override(&mut store);
    let mut snapshot = Snapshot::new();
    snapshot.open_telegram(&mut store);
    snapshot.apply_now(AdapterEvent::TelegramAuth {
        phase: TelegramAuthPhase::NeedPhone,
    });
    snapshot.telegram_phone = "+15551234567".into();
    snapshot.advance_telegram(&mut store);
    assert!(snapshot.auth_busy);
    snapshot.apply_now(AdapterEvent::TelegramAuth {
        phase: TelegramAuthPhase::Failed,
    });
    assert!(!snapshot.auth_busy);
    assert_eq!(snapshot.auth, AuthScreen::TelegramPhone);
    assert!(snapshot.error.is_some());
    assert!(!snapshot.telegram_ready());
}

#[test]
fn telegram_error_status_clears_auth_busy() {
    let mut store = SecretStore::memory();
    seed_override(&mut store);
    let mut snapshot = Snapshot::new();
    snapshot.open_telegram(&mut store);
    assert!(snapshot.auth_busy);
    snapshot.apply_now(AdapterEvent::Status {
        protocol: ProtocolId::Telegram,
        status: AdapterStatus::Error,
        detail: "telegram api_id must be a number".into(),
    });
    assert!(!snapshot.auth_busy);
    assert_eq!(snapshot.auth, AuthScreen::TelegramConnecting);
    assert!(!snapshot.status_text.contains("11111"));
}

#[test]
fn advanced_override_prefills_from_secret_store() {
    let mut store = SecretStore::memory();
    store.set(SecretKey::ApiId, "999").expect("set id");
    store
        .set(SecretKey::ApiHash, "stored-hash")
        .expect("set hash");
    let mut snapshot = Snapshot::new();
    snapshot.open_api_override(&mut store);
    assert_eq!(snapshot.auth, AuthScreen::TelegramApi);
    assert_eq!(snapshot.telegram_api_id, "999");
    assert_eq!(snapshot.telegram_api_hash, "stored-hash");
}

#[test]
fn adapter_status_jargon_does_not_clobber_chrome_status() {
    let mut snapshot = Snapshot::new();
    let before = snapshot.status_text.clone();
    snapshot.apply_now(AdapterEvent::Status {
        protocol: ProtocolId::Slack,
        status: AdapterStatus::Stubbed,
        detail:
            "Official Slack OAuth / workspace app (slack-morphism). Feature slack-oauth is off."
                .into(),
    });
    assert_eq!(snapshot.status_text, before);
    assert!(!snapshot.status_text.contains("slack-morphism"));
    snapshot.apply_now(AdapterEvent::Status {
        protocol: ProtocolId::Telegram,
        status: AdapterStatus::Connecting,
        detail: "tdlib-rs live client compiled; FFI and network I/O stay off the UI thread"
            .into(),
    });
    assert_eq!(snapshot.status_text, before);
    assert!(!snapshot.status_text.contains("tdlib-rs"));
    snapshot.apply_now(AdapterEvent::Status {
        protocol: ProtocolId::Telegram,
        status: AdapterStatus::Ready,
        detail: "Recent messages loaded.".into(),
    });
    assert_eq!(snapshot.status_text, "Recent messages loaded.");
    snapshot.apply_now(AdapterEvent::Status {
        protocol: ProtocolId::Telegram,
        status: AdapterStatus::Error,
        detail: "telegram api_id must be a number".into(),
    });
    assert_eq!(snapshot.status_text, "telegram api_id must be a number");
}

#[test]
fn filter_matches_supported_protocols_without_an_experimental_tab() {
    assert!(InboxFilter::Telegram.matches(ProtocolId::Telegram));
    assert!(!InboxFilter::Telegram.matches(ProtocolId::Slack));
    assert!(InboxFilter::Slack.matches(ProtocolId::Slack));
    assert!(InboxFilter::All.matches(ProtocolId::Discord));
    assert!(InboxFilter::All.matches(ProtocolId::WhatsApp));
    assert!(
        !InboxFilter::chrome_filters(Build::default())
            .iter()
            .any(|filter| filter.label() == "Experimental")
    );
}

fn discord_guild_placeholder() -> Conversation {
    Conversation {
        protocol: ProtocolId::Discord,
        id: "discord:guild-inbox:general".into(),
        title: "Bot inbox #general".into(),
        participant: "guild channel".into(),
        preview: "placeholder".into(),
        unread: 1,
        order: 0,
        last_at: 0,
        is_group: false,
        writable: true,
        placeholder: true,
        muted: false,
    }
}

fn discord_linked(snapshot: &Snapshot) -> bool {
    snapshot
        .accounts
        .iter()
        .find(|row| row.caps.id == ProtocolId::Discord)
        .expect("discord account")
        .linked()
}

#[test]
fn discord_missing_token_placeholder_stays_unlinked() {
    let mut snapshot = Snapshot::new();
    snapshot.apply_now(AdapterEvent::ConversationUpsert {
        conversation: discord_guild_placeholder(),
    });
    assert!(!discord_linked(&snapshot));
    snapshot.apply_now(AdapterEvent::Status {
        protocol: ProtocolId::Discord,
        status: AdapterStatus::Stubbed,
        detail: "Discord bot inbox placeholder. bot token is not in the OS keychain. Gateway is not started.".into(),
    });
    assert!(!discord_linked(&snapshot));
    snapshot.select_protocol(ProtocolId::Discord);
    assert!(snapshot.visible_conversations().is_empty());
    assert_eq!(snapshot.unread_for(ProtocolId::Discord), 0);
    assert!(!discord_linked(&snapshot));
}

#[test]
fn discord_links_only_when_a_bot_token_is_present() {
    let mut snapshot = Snapshot::new();
    snapshot.apply_now(AdapterEvent::Status {
        protocol: ProtocolId::Discord,
        status: AdapterStatus::Stubbed,
        detail: "Discord bot inbox placeholder. bot token is in the OS keychain. Gateway is not started.".into(),
    });
    assert!(
        !discord_linked(&snapshot),
        "a status never links (shell plan 1)"
    );
    snapshot.apply_now(AdapterEvent::Account {
        protocol: ProtocolId::Discord,
        state: AccountState::Linked,
    });
    snapshot.apply_now(AdapterEvent::ConversationUpsert {
        conversation: discord_guild_placeholder(),
    });
    assert!(discord_linked(&snapshot));
    if false {
        assert_eq!(
            snapshot.selected_protocol,
            ProtocolId::Discord,
            "first link"
        );
        assert_eq!(snapshot.visible_conversations().len(), 1);
        assert_eq!(snapshot.unread_for(ProtocolId::Discord), 1);
        assert_eq!(snapshot.center_view(), CenterView::Thread);
    } else {
        assert_eq!(snapshot.selected_protocol, ProtocolId::Telegram);
        assert!(snapshot.visible_conversations().is_empty());
    }
    snapshot.apply_now(AdapterEvent::Status {
        protocol: ProtocolId::Discord,
        status: AdapterStatus::Refused,
        detail: "Discord user-account tokens are refused.".into(),
    });
    assert!(discord_linked(&snapshot));
    snapshot.apply_now(AdapterEvent::Account {
        protocol: ProtocolId::Discord,
        state: AccountState::Unlinked,
    });
    assert!(!discord_linked(&snapshot));
    assert_eq!(snapshot.unread_for(ProtocolId::Discord), 0);
}

#[test]
fn discord_visibility_follows_the_compiled_bot_inbox() {
    let mut snapshot = Snapshot::new();
    assert!(!snapshot.telegram_authorized);
    assert!(!snapshot.telegram_ready());
    assert_eq!(
        snapshot.discord_inbox_visible(),
        false
    );
    assert_eq!(
        snapshot.account_surface_visible(ProtocolId::Discord),
        false
    );
    assert_eq!(
        snapshot.account_surface_visible(ProtocolId::WhatsApp),
        false
    );
    snapshot.apply_now(AdapterEvent::TelegramAuth {
        phase: TelegramAuthPhase::Ready,
    });
    snapshot.apply_now(AdapterEvent::MessageReceived {
        message: ChatMessage {
            protocol: ProtocolId::Telegram,
            conversation_id: "telegram:1".into(),
            id: "telegram:1:1".into(),
            sender: "worker".into(),
            body: "hello from telegram".into(),
            outbound: false,
            delivery: Delivery::Sent,
            sent_at: 0,
            arrival: Arrival::History,
        },
    });
    assert_eq!(
        snapshot.discord_inbox_visible(),
        false
    );
    snapshot.select_protocol(ProtocolId::Discord);
    if false {
        assert_eq!(snapshot.selected_protocol, ProtocolId::Discord);
    } else {
        assert_eq!(snapshot.selected_protocol, ProtocolId::Telegram);
    }
}

#[test]
fn off_feature_spikes_stay_out_of_the_switcher() {
    for filter in InboxFilter::chrome_filters(Build::default()) {
        let mut view = Snapshot::new();
        view.set_filter(filter);
        assert_eq!(
            view.shows_in_switcher(ProtocolId::WhatsApp),
            false && filter.matches(ProtocolId::WhatsApp)
        );
        assert_eq!(
            view.shows_in_switcher(ProtocolId::Discord),
            false && filter.matches(ProtocolId::Discord)
        );
        assert_eq!(
            view.shows_in_switcher(ProtocolId::Slack),
            false && filter.matches(ProtocolId::Slack)
        );
        assert_eq!(
            view.shows_in_switcher(ProtocolId::Signal),
            false && filter.matches(ProtocolId::Signal)
        );
        assert_eq!(
            view.shows_in_switcher(ProtocolId::Telegram),
            filter.matches(ProtocolId::Telegram)
        );
    }
    assert!(!InboxFilter::Telegram.shows_in_switcher(ProtocolId::Slack));
    assert!(!InboxFilter::Slack.shows_in_switcher(ProtocolId::Telegram));
}

#[test]
fn search_v1_matches_title_and_participant_only() {
    let mut snapshot = Snapshot::new();
    link_telegram(&mut snapshot);
    snapshot.apply_now(AdapterEvent::ConversationUpsert {
        conversation: Conversation {
            protocol: ProtocolId::Telegram,
            id: "telegram:saved".into(),
            title: "Saved Messages".into(),
            participant: "you".into(),
            preview: "secret-preview-should-not-match-search".into(),
            unread: 0,
            order: 0,
            last_at: 0,
            is_group: false,
            writable: true,
            placeholder: false,
            muted: false,
        },
    });
    snapshot
        .accounts
        .iter_mut()
        .find(|row| row.caps.id == ProtocolId::Telegram)
        .expect("telegram row")
        .state = AccountState::Linked;
    snapshot.search = "secret-preview-should-not-match-search".into();
    assert!(snapshot.visible_conversations().is_empty());
    snapshot.search = "you".into();
    assert_eq!(snapshot.visible_conversations().len(), 1);
    snapshot.search = "saved".into();
    assert_eq!(snapshot.visible_conversations().len(), 1);
}

#[test]
fn whatsapp_qr_event_does_not_mark_the_account_ready() {
    let mut snapshot = Snapshot::new();
    snapshot.apply_now(AdapterEvent::WhatsAppQr {
        code: RedactedPairingSecret::new("qr-do-not-log"),
        generation: 1,
    });
    let row = snapshot
        .accounts
        .iter()
        .find(|row| row.caps.id == ProtocolId::WhatsApp)
        .expect("whatsapp");
    assert_ne!(row.status, AdapterStatus::Ready);
    assert!(!row.linked());
    assert!(!snapshot.status_text.contains("qr-do-not-log"));
    assert!(snapshot.take_commands().is_empty());
    snapshot.select_protocol(ProtocolId::WhatsApp);
    assert!(
        !snapshot
            .take_commands()
            .iter()
            .any(|command| matches!(command, AdapterCommand::WhatsAppBeginLink { .. }))
    );
}

#[test]
fn whatsapp_pairing_does_not_require_a_linked_telegram() {
    let mut snapshot = whatsapp_shell();
    assert!(!snapshot.has_primary_account());
    assert!(!snapshot.telegram_ready());
    assert!(snapshot.whatsapp_pairing_available());
    snapshot.open_whatsapp_risk_gate();
    assert_eq!(snapshot.whatsapp_screen, WhatsAppScreen::RiskGate);
    assert!(snapshot.whatsapp_gate_open());
    assert!(snapshot.take_commands().is_empty());
}

#[test]
fn reopening_risk_gate_cancels_an_active_link() {
    let mut phone = WhatsAppPhoneVault::new();
    let mut snapshot = whatsapp_shell();
    snapshot.apply_now(AdapterEvent::TelegramAuth {
        phase: TelegramAuthPhase::Ready,
    });
    snapshot.open_whatsapp_risk_gate();
    snapshot.acknowledge_whatsapp_risk();
    snapshot.begin_whatsapp_link(&mut phone);
    assert!(snapshot.whatsapp_started);
    let _ = snapshot.take_commands();
    snapshot.open_whatsapp_risk_gate();
    assert_eq!(snapshot.whatsapp_screen, WhatsAppScreen::RiskGate);
    assert!(!snapshot.whatsapp_started);
    assert!(snapshot.whatsapp_qr.is_none());
    assert!(
        snapshot
            .take_commands()
            .contains(&AdapterCommand::WhatsAppCancelLink)
    );
}

#[test]
fn whatsapp_pair_ui_keeps_phone_off_the_command() {
    let mut phone = WhatsAppPhoneVault::new();
    let mut snapshot = whatsapp_shell();
    assert!(!snapshot.whatsapp_gate_open());
    snapshot.apply_now(AdapterEvent::TelegramAuth {
        phase: TelegramAuthPhase::Ready,
    });
    snapshot.select_protocol(ProtocolId::WhatsApp);
    assert_eq!(snapshot.whatsapp_screen, WhatsAppScreen::Hidden);
    snapshot.open_whatsapp_risk_gate();
    assert_eq!(snapshot.whatsapp_screen, WhatsAppScreen::RiskGate);
    assert!(snapshot.whatsapp_qr.is_none());
    snapshot.acknowledge_whatsapp_risk();
    assert_eq!(snapshot.whatsapp_screen, WhatsAppScreen::Pair);
    snapshot.whatsapp_phone = "+15559876".into();
    snapshot.begin_whatsapp_link(&mut phone);
    assert!(snapshot.whatsapp_phone.is_empty());
    assert_eq!(phone.phone().as_deref(), Some("+15559876"));
    let commands = snapshot.take_commands();
    let debug = format!("{commands:?}");
    assert!(!debug.contains("15559876"));
    assert!(commands.contains(&AdapterCommand::WhatsAppAcknowledgeRisk));
    assert!(
        commands
            .iter()
            .any(|command| matches!(command, AdapterCommand::WhatsAppBeginLink { .. }))
    );
    snapshot.apply_now(AdapterEvent::WhatsAppQr {
        code: RedactedPairingSecret::new("second-secret"),
        generation: 1,
    });
    assert_eq!(snapshot.whatsapp_qr.as_deref(), Some("second-secret"));
    assert!(!snapshot.status_text.contains("second-secret"));
    let row = snapshot
        .accounts
        .iter()
        .find(|row| row.caps.id == ProtocolId::WhatsApp)
        .expect("whatsapp");
    assert!(!row.linked());
    assert_ne!(row.status, AdapterStatus::Ready);
    snapshot.cancel_whatsapp_link(&mut phone);
    assert_eq!(snapshot.whatsapp_screen, WhatsAppScreen::Hidden);
    assert!(phone.phone().is_none());
    assert!(snapshot.whatsapp_qr.is_none());
}

#[test]
fn send_compose_queues_text_on_the_worker_without_a_local_stub() {
    let mut snapshot = Snapshot::new();
    link_telegram(&mut snapshot);
    snapshot.apply_now(AdapterEvent::ConversationUpsert {
        conversation: telegram_chat(42, "Ada", 1),
    });
    snapshot.selected_protocol = ProtocolId::Telegram;
    snapshot.selected_conversation = Some("telegram:42".into());
    snapshot.compose = " hello ".into();
    snapshot.send_compose(NOW);
    assert_eq!(
        snapshot.compose, " hello ",
        "kept until the adapter accepts it"
    );
    assert!(snapshot.selected_messages().is_empty());
    let commands = snapshot.take_commands();
    assert!(commands.iter().any(|command| matches!(
        command,
        AdapterCommand::SendText {
            protocol: ProtocolId::Telegram,
            conversation_id,
            body,
            ..
        } if conversation_id == "telegram:42" && body == "hello"
    )));
    let debug = format!("{commands:?}");
    assert!(debug.contains("hello"));
    assert!(!debug.contains("hash-value"));
}

#[test]
fn send_compose_refuses_before_telegram_is_ready() {
    let mut snapshot = Snapshot::new();
    snapshot.selected_conversation = Some("telegram:42".into());
    snapshot.compose = "hello".into();
    assert!(!snapshot.can_send());
    snapshot.send_compose(NOW);
    assert_eq!(snapshot.compose, "hello");
    assert!(snapshot.take_commands().is_empty());
    assert!(
        snapshot.error.is_none(),
        "Send is disabled, so no error block"
    );
    assert!(snapshot.selected_messages().is_empty());
}

#[test]
fn selecting_a_ready_chat_queues_history_and_sorts_by_order() {
    let mut snapshot = Snapshot::new();
    snapshot.telegram_authorized = true;
    snapshot
        .accounts
        .iter_mut()
        .find(|row| row.caps.id == ProtocolId::Telegram)
        .expect("telegram")
        .state = AccountState::Linked;
    snapshot.apply_now(AdapterEvent::ConversationUpsert {
        conversation: Conversation {
            protocol: ProtocolId::Telegram,
            id: "telegram:2".into(),
            title: "Older".into(),
            participant: "Older".into(),
            preview: "a".into(),
            unread: 0,
            order: 10,
            last_at: 0,
            is_group: false,
            writable: true,
            placeholder: false,
            muted: false,
        },
    });
    snapshot.apply_now(AdapterEvent::ConversationUpsert {
        conversation: Conversation {
            protocol: ProtocolId::Telegram,
            id: "telegram:9".into(),
            title: "Newer".into(),
            participant: "Newer".into(),
            preview: "b".into(),
            unread: 1,
            order: 90,
            last_at: 0,
            is_group: false,
            writable: true,
            placeholder: false,
            muted: false,
        },
    });
    let ids: Vec<_> = snapshot
        .visible_conversations()
        .iter()
        .map(|row| row.id.as_str())
        .collect();
    assert_eq!(ids, vec!["telegram:9", "telegram:2"]);
    assert_eq!(
        snapshot.selected_conversation.as_deref(),
        Some("telegram:2")
    );
    let commands = snapshot.take_commands();
    assert!(commands.iter().any(|command| matches!(
        command,
        AdapterCommand::OpenChat { conversation_id, .. } if conversation_id == "telegram:2"
    )));
    snapshot.select_conversation("telegram:9".into());
    let commands = snapshot.take_commands();
    assert!(commands.iter().any(|command| matches!(
        command,
        AdapterCommand::OpenChat { conversation_id, .. } if conversation_id == "telegram:9"
    )));
}

#[test]
fn messages_upsert_replace_and_body_edits_keep_sender() {
    let mut snapshot = Snapshot::new();
    link_telegram(&mut snapshot);
    snapshot.selected_protocol = ProtocolId::Telegram;
    snapshot.selected_conversation = Some("telegram:4".into());
    snapshot.apply_now(AdapterEvent::MessageReceived {
        message: ChatMessage {
            protocol: ProtocolId::Telegram,
            conversation_id: "telegram:4".into(),
            id: "telegram:4:2".into(),
            sender: "Ada".into(),
            body: "second".into(),
            outbound: false,
            delivery: Delivery::Sent,
            sent_at: 0,
            arrival: Arrival::History,
        },
    });
    snapshot.apply_now(AdapterEvent::MessageReceived {
        message: ChatMessage {
            protocol: ProtocolId::Telegram,
            conversation_id: "telegram:4".into(),
            id: "telegram:4:1".into(),
            sender: "Ada".into(),
            body: "first".into(),
            outbound: false,
            delivery: Delivery::Sent,
            sent_at: 0,
            arrival: Arrival::History,
        },
    });
    snapshot.apply_now(AdapterEvent::MessageReceived {
        message: ChatMessage {
            protocol: ProtocolId::Telegram,
            conversation_id: "telegram:4".into(),
            id: "telegram:4:2".into(),
            sender: "Ada".into(),
            body: "second-edited-via-upsert".into(),
            outbound: false,
            delivery: Delivery::Sent,
            sent_at: 0,
            arrival: Arrival::History,
        },
    });
    let bodies: Vec<_> = snapshot
        .selected_messages()
        .iter()
        .map(|message| message.body.as_str())
        .collect();
    assert_eq!(bodies, vec!["first", "second-edited-via-upsert"]);
    snapshot.apply_now(AdapterEvent::MessageReplaced {
        protocol: ProtocolId::Telegram,
        conversation_id: "telegram:4".into(),
        old_id: "telegram:4:1".into(),
        message: ChatMessage {
            protocol: ProtocolId::Telegram,
            conversation_id: "telegram:4".into(),
            id: "telegram:4:8".into(),
            sender: "you".into(),
            body: "sent".into(),
            outbound: true,
            delivery: Delivery::Sent,
            sent_at: 0,
            arrival: Arrival::History,
        },
    });
    snapshot.apply_now(AdapterEvent::MessageBody {
        protocol: ProtocolId::Telegram,
        conversation_id: "telegram:4".into(),
        message_id: "telegram:4:8".into(),
        body: "sent-edited".into(),
    });
    let messages = snapshot.selected_messages();
    assert!(messages.iter().all(|message| message.id != "telegram:4:1"));
    let edited = messages
        .iter()
        .find(|message| message.id == "telegram:4:8")
        .expect("replaced");
    assert_eq!(edited.body, "sent-edited");
    assert_eq!(edited.sender, "you");
    assert!(edited.outbound);
}

#[test]
fn deleted_message_ids_leave_the_thread() {
    let mut snapshot = Snapshot::new();
    link_telegram(&mut snapshot);
    snapshot.selected_protocol = ProtocolId::Telegram;
    snapshot.selected_conversation = Some("telegram:4".into());
    for (id, body) in [("telegram:4:1", "keep"), ("telegram:4:2", "drop")] {
        snapshot.apply_now(AdapterEvent::MessageReceived {
            message: ChatMessage {
                protocol: ProtocolId::Telegram,
                conversation_id: "telegram:4".into(),
                id: id.into(),
                sender: "Ada".into(),
                body: body.into(),
                outbound: false,
                delivery: Delivery::Sent,
                sent_at: 0,
                arrival: Arrival::History,
            },
        });
    }
    snapshot.apply_now(AdapterEvent::MessagesRemoved {
        protocol: ProtocolId::Telegram,
        conversation_id: "telegram:4".into(),
        message_ids: vec!["telegram:4:2".into()],
    });
    let bodies: Vec<_> = snapshot
        .selected_messages()
        .iter()
        .map(|message| message.body.as_str())
        .collect();
    assert_eq!(bodies, vec!["keep"]);
}

#[test]
fn removed_chat_drops_messages_and_refresh_reloads_when_ready() {
    let mut snapshot = Snapshot::new();
    snapshot.telegram_authorized = true;
    snapshot
        .accounts
        .iter_mut()
        .find(|row| row.caps.id == ProtocolId::Telegram)
        .expect("telegram")
        .state = AccountState::Linked;
    snapshot.apply_now(AdapterEvent::ConversationUpsert {
        conversation: Conversation {
            protocol: ProtocolId::Telegram,
            id: "telegram:3".into(),
            title: "Gone".into(),
            participant: "Gone".into(),
            preview: String::new(),
            unread: 2,
            order: 5,
            last_at: 0,
            is_group: false,
            writable: true,
            placeholder: false,
            muted: false,
        },
    });
    snapshot.apply_now(AdapterEvent::MessageReceived {
        message: ChatMessage {
            protocol: ProtocolId::Telegram,
            conversation_id: "telegram:3".into(),
            id: "telegram:3:1".into(),
            sender: "Ada".into(),
            body: "hi".into(),
            outbound: false,
            delivery: Delivery::Sent,
            sent_at: 0,
            arrival: Arrival::History,
        },
    });
    let _ = snapshot.take_commands();
    snapshot.apply_now(AdapterEvent::ConversationRemoved {
        protocol: ProtocolId::Telegram,
        id: "telegram:3".into(),
    });
    assert!(snapshot.visible_conversations().is_empty());
    assert!(snapshot.selected_messages().is_empty());
    snapshot.refresh_visible();
    assert!(snapshot.take_commands().iter().any(|command| matches!(
        command,
        AdapterCommand::LoadChats {
            protocol: ProtocolId::Telegram,
        }
    )));
}

#[test]
fn refresh_does_not_start_an_unlinked_slack_install() {
    let mut snapshot = Snapshot::new();
    snapshot.extra_visible.insert(ProtocolId::Slack);
    snapshot.refresh_visible();
    assert!(
        snapshot.take_commands().iter().all(|command| !matches!(
            command,
            AdapterCommand::Connect {
                protocol: ProtocolId::Slack,
            }
        )),
        "Refresh must not open the Slack install"
    );
}

#[test]
fn a_slow_keychain_read_asks_the_user_to_unlock() {
    let store = SecretStore::blank(AttachPhase::Detached);
    let mut snapshot = Snapshot::new();
    snapshot.poll_resume(&store, NOW);
    let started = snapshot.keychain_wait_started.expect("started");
    assert_eq!(snapshot.keychain_wait_text(started), KEYCHAIN_OPENING);
    assert_eq!(
        snapshot.keychain_wait_text(started + KEYCHAIN_SLOW_AFTER),
        KEYCHAIN_WAITING
    );
    snapshot.poll_resume(&store, NOW);
    assert_eq!(
        snapshot.keychain_wait_started,
        Some(started),
        "the clock starts once"
    );
}

#[test]
fn a_remote_logout_clears_the_inbox_and_asks_to_sign_in_again() {
    let mut store = SecretStore::memory();
    let mut snapshot = ready_with_chats(&mut store);
    snapshot.apply_now(AdapterEvent::MessageReceived {
        message: telegram_text(1, 7, "hi"),
    });
    snapshot.compose = "draft".into();
    assert!(!snapshot.can_add_account());

    snapshot.apply_now(AdapterEvent::TelegramSessionEnded);
    assert!(!snapshot.telegram_ready());
    assert!(!snapshot.has_primary_account());
    assert!(
        snapshot.visible_conversations().is_empty(),
        "the old inbox is gone"
    );
    assert!(snapshot.selected_messages().is_empty());
    assert!(snapshot.compose.is_empty());
    assert!(
        snapshot.drafts.is_empty(),
        "a remote logout drops every draft"
    );
    assert!(snapshot.can_add_account(), "Add account is back");
    assert_eq!(snapshot.status_text, SESSION_ENDED_NOTICE);
    assert_eq!(
        snapshot.center_view(),
        CenterView::Resuming { connecting: true }
    );
    assert_eq!(
        auth_steps(&mut snapshot),
        vec![TelegramAuthStep::ApiCredentials]
    );

    snapshot.apply_now(AdapterEvent::TelegramAuth {
        phase: TelegramAuthPhase::NeedPhone,
    });
    assert_eq!(snapshot.auth, AuthScreen::TelegramPhone);
    assert_eq!(snapshot.auth_notice.as_deref(), Some(SESSION_ENDED_NOTICE));

    snapshot.apply_now(AdapterEvent::TelegramSessionEnded);
    assert!(
        snapshot.take_commands().is_empty(),
        "a second end does nothing"
    );
}
#[test]
fn a_relink_after_telegram_logout_shows_an_empty_compose() {
    let mut store = SecretStore::memory();
    let mut snapshot = ready_with_chats(&mut store);
    snapshot.compose = "old account".into();
    snapshot.set_draft(ProtocolId::Telegram, "telegram:2", "other chat".into());
    snapshot.apply_now(AdapterEvent::TelegramSessionEnded);
    assert!(snapshot.drafts.is_empty());
    assert!(snapshot.compose.is_empty());

    snapshot.apply_now(AdapterEvent::TelegramAuth {
        phase: TelegramAuthPhase::Ready,
    });
    snapshot.apply_now(AdapterEvent::ConversationUpsert {
        conversation: telegram_chat(1, "Ada", 10),
    });
    snapshot.apply_now(AdapterEvent::ConversationUpsert {
        conversation: telegram_chat(2, "Bob", 5),
    });
    snapshot.select_conversation("telegram:1".into());
    assert!(snapshot.compose.is_empty());
    snapshot.select_conversation("telegram:2".into());
    assert!(snapshot.compose.is_empty());
}

#[test]
fn auth_steps_sees_a_step_with_any_epoch() {
    let mut snapshot = Snapshot::new();
    snapshot.pending.push(AdapterCommand::TelegramAuth {
        step: TelegramAuthStep::Phone,
        epoch: 3,
    });
    assert_eq!(
        auth_steps(&mut snapshot),
        vec![TelegramAuthStep::Phone],
        "a non-zero epoch must not vanish from the helper"
    );
    let mut store = SecretStore::memory();
    seed_override(&mut store);
    snapshot.open_telegram(&mut store);
    assert!(snapshot.take_commands().iter().any(|command| matches!(
        command,
        AdapterCommand::TelegramAuth {
            step: TelegramAuthStep::ApiCredentials,
            epoch: 0
        }
    )));
}

#[test]
fn inbox_events_queued_before_cancel_leave_no_rows() {
    let mut store = SecretStore::memory();
    let mut snapshot = Snapshot::new();
    seed_override(&mut store);
    snapshot.open_telegram(&mut store);
    snapshot.apply_now(AdapterEvent::TelegramAuth {
        phase: TelegramAuthPhase::NeedPhone,
    });
    snapshot.cancel_auth(&mut store);
    snapshot.apply_now(AdapterEvent::ConversationUpsert {
        conversation: telegram_chat(4, "Ada", 9),
    });
    snapshot.apply_now(AdapterEvent::MessageReceived {
        message: ChatMessage {
            protocol: ProtocolId::Telegram,
            conversation_id: "telegram:4".into(),
            id: "telegram:4:1".into(),
            sender: "Ada".into(),
            body: "from the cancelled account".into(),
            outbound: false,
            delivery: Delivery::Sent,
            sent_at: 0,
            arrival: Arrival::History,
        },
    });
    snapshot.apply_now(AdapterEvent::ChatListLoaded {
        protocol: ProtocolId::Telegram,
    });
    assert!(snapshot.conversations.is_empty());
    assert!(snapshot.messages.is_empty());
    complete_telegram(&mut snapshot, &mut store);
    assert!(snapshot.visible_conversations().is_empty());
    snapshot.apply_now(AdapterEvent::ConversationUpsert {
        conversation: telegram_chat(5, "Bob", 3),
    });
    assert_eq!(snapshot.visible_conversations().len(), 1);
}
#[test]
fn first_run_enter_uses_the_add_account_guard() {
    let mut store = SecretStore::memory();
    seed_override(&mut store);
    let mut snapshot = Snapshot::new();
    snapshot.telegram_authorized = true;
    assert_eq!(snapshot.center_view(), CenterView::FirstRun);
    assert!(!snapshot.can_add_account());
    snapshot.center_key(AuthKey::Enter, &mut store);
    assert_eq!(snapshot.auth, AuthScreen::Idle);
    assert!(snapshot.take_commands().is_empty());

    snapshot.telegram_authorized = false;
    snapshot.center_key(AuthKey::Enter, &mut store);
    assert_eq!(snapshot.auth, AuthScreen::TelegramConnecting);
}
#[test]
fn whatsapp_pairing_needs_the_risk_gate_in_order() {
    let mut phone = WhatsAppPhoneVault::new();
    let mut snapshot = whatsapp_shell();
    assert!(snapshot.whatsapp_pairing_available());
    snapshot.acknowledge_whatsapp_risk();
    assert_eq!(snapshot.whatsapp_screen, WhatsAppScreen::Hidden);
    snapshot.whatsapp_phone = "15550100".into();
    snapshot.begin_whatsapp_link(&mut phone);
    assert!(!snapshot.whatsapp_started);
    assert!(snapshot.take_commands().is_empty());
    snapshot.open_whatsapp_risk_gate();
    snapshot.begin_whatsapp_link(&mut phone);
    assert!(!snapshot.whatsapp_started);
    assert!(snapshot.take_commands().is_empty());
    snapshot.acknowledge_whatsapp_risk();
    assert_eq!(snapshot.whatsapp_screen, WhatsAppScreen::Pair);
    snapshot.begin_whatsapp_link(&mut phone);
    assert!(snapshot.whatsapp_started);
    assert!(matches!(
        snapshot.take_commands().as_slice(),
        [
            AdapterCommand::WhatsAppAcknowledgeRisk,
            AdapterCommand::WhatsAppBeginLink { .. }
        ]
    ));
    snapshot.cancel_whatsapp_link(&mut phone);
    snapshot.take_commands();
    snapshot.whatsapp_screen = WhatsAppScreen::Pair;
    snapshot.begin_whatsapp_link(&mut phone);
    assert!(!snapshot.whatsapp_started);
    assert!(snapshot.take_commands().is_empty());
}
#[test]
fn debug_prints_no_secret_and_no_user_text() {
    let mut store = SecretStore::memory();
    let mut snapshot = ready_with_chats(&mut store);
    snapshot.apply_now(AdapterEvent::MessageReceived {
        message: telegram_text(1, 7, "body-fixture-7c1"),
    });
    snapshot.telegram_api_id = "id-fixture-4410".into();
    snapshot.telegram_api_hash = "hash-fixture-9f3".into();
    snapshot.telegram_phone = "+15550100777".into();
    snapshot.telegram_code = "code-fixture-5521".into();
    snapshot.telegram_2fa = "password-fixture-8d2".into();
    snapshot.compose = "draft-fixture-3b7".into();
    snapshot.search = "search-fixture-6e5".into();
    snapshot.drafts.insert(
        (ProtocolId::Telegram, "telegram:2".into()),
        "other-draft-fixture-2a9".into(),
    );
    {
        snapshot.whatsapp_phone = "wa-phone-fixture-111".into();
        snapshot.whatsapp_qr = Some("qr-fixture-222".into());
        snapshot.whatsapp_pair_code = Some("pair-fixture-333".into());
    }
    let shown = format!("{:?}", snapshot.facts());
    for secret in [
        "id-fixture-4410",
        "hash-fixture-9f3",
        "5550100777",
        "code-fixture-5521",
        "password-fixture-8d2",
        "draft-fixture-3b7",
        "search-fixture-6e5",
        "other-draft-fixture-2a9",
        "body-fixture-7c1",
        "wa-phone-fixture-111",
        "qr-fixture-222",
        "pair-fixture-333",
    ] {
        assert!(!shown.contains(secret), "{secret} leaked: {shown}");
    }
    assert!(shown.contains("telegram_authorized: true"));
}
#[test]
fn closing_the_pair_screen_cancels_pairing() {
    let mut phone = WhatsAppPhoneVault::new();
    let mut snapshot = whatsapp_shell();
    snapshot.open_whatsapp_risk_gate();
    snapshot.acknowledge_whatsapp_risk();
    snapshot.whatsapp_phone = "15550100".into();
    snapshot.begin_whatsapp_link(&mut phone);
    assert!(snapshot.whatsapp_started);
    assert!(phone.phone().is_some());
    snapshot.take_commands();

    snapshot.close_whatsapp_gate(&mut phone);
    assert_eq!(snapshot.whatsapp_screen, WhatsAppScreen::Hidden);
    assert!(!snapshot.whatsapp_started);
    assert!(phone.phone().is_none(), "the phone vault is cleared");
    assert_eq!(
        snapshot.take_commands(),
        vec![AdapterCommand::WhatsAppCancelLink]
    );
    snapshot.whatsapp_screen = WhatsAppScreen::Pair;
    snapshot.begin_whatsapp_link(&mut phone);
    assert!(!snapshot.whatsapp_started);
    assert!(snapshot.take_commands().is_empty());
    snapshot.open_whatsapp_risk_gate();
    snapshot.take_commands();
    snapshot.close_whatsapp_gate(&mut phone);
    assert_eq!(snapshot.whatsapp_screen, WhatsAppScreen::Hidden);
    assert!(snapshot.take_commands().is_empty());
}
fn retry_failed_row(snapshot: &mut Snapshot) -> u64 {
    snapshot.apply_now(AdapterEvent::MessageReceived {
        message: outgoing(1, 101, "hi", Delivery::Failed),
    });
    snapshot.error = None;
    snapshot.retry_send("telegram:1:101", NOW);
    let commands = snapshot.take_commands();
    let request = commands
        .iter()
        .find_map(|command| match command {
            AdapterCommand::ResendMessage { request, .. } => Some(*request),
            _ => None,
        })
        .expect("a ResendMessage");
    assert_eq!(snapshot.selected_messages()[0].delivery, Delivery::Pending);
    request
}
#[test]
fn a_retry_stays_pending_until_its_own_answer() {
    let mut store = SecretStore::memory();
    let mut snapshot = ready_with_chats(&mut store);
    let request = retry_failed_row(&mut snapshot);
    for status in [AdapterStatus::Connecting, AdapterStatus::Ready] {
        snapshot.apply_now(AdapterEvent::Status {
            protocol: ProtocolId::Telegram,
            status,
            detail: "reconnect".into(),
        });
    }
    snapshot.compose = "next".into();
    assert!(!snapshot.can_send(), "the chat still has a retry in flight");
    snapshot.retry_send("telegram:1:101", NOW);
    assert!(snapshot.take_commands().is_empty(), "no second retry");
    assert_eq!(snapshot.selected_messages()[0].delivery, Delivery::Pending);

    snapshot.apply_now(AdapterEvent::SendAccepted {
        protocol: ProtocolId::Telegram,
        conversation_id: "telegram:1".into(),
        request,
    });
    assert!(snapshot.can_send(), "the retry ended");
}
#[test]
fn a_rejected_retry_fails_its_row_again() {
    let mut store = SecretStore::memory();
    let mut snapshot = ready_with_chats(&mut store);
    let request = retry_failed_row(&mut snapshot);
    snapshot.apply_now(AdapterEvent::SendRejected {
        protocol: ProtocolId::Telegram,
        conversation_id: "telegram:1".into(),
        request: request + 100,
    });
    assert_eq!(snapshot.selected_messages()[0].delivery, Delivery::Pending);
    assert!(snapshot.error.is_none());

    snapshot.apply_now(AdapterEvent::SendRejected {
        protocol: ProtocolId::Telegram,
        conversation_id: "telegram:1".into(),
        request,
    });
    assert_eq!(snapshot.selected_messages()[0].delivery, Delivery::Failed);
    assert_eq!(
        snapshot.error.as_ref().map(|error| error.happened.as_str()),
        Some("Message not sent.")
    );
}
fn shell_with(protocols: &[ProtocolId]) -> Snapshot {
    let mut snapshot = Snapshot::new();
    for protocol in protocols {
        snapshot.extra_visible.insert(*protocol);
    }
    snapshot
}

fn link(snapshot: &mut Snapshot, protocol: ProtocolId) {
    snapshot.apply_now(AdapterEvent::Account {
        protocol,
        state: AccountState::Linked,
    });
}

fn chat(protocol: ProtocolId, id: &str, writable: bool) -> Conversation {
    Conversation {
        protocol,
        id: id.into(),
        title: id.into(),
        participant: id.into(),
        preview: String::new(),
        unread: 0,
        order: 1,
        last_at: 0,
        is_group: false,
        writable,
        placeholder: false,
        muted: false,
    }
}

fn allow_send(snapshot: &mut Snapshot, protocol: ProtocolId) {
    let row = snapshot
        .accounts
        .iter_mut()
        .find(|row| row.caps.id == protocol)
        .expect("row");
    row.caps.sends_text = true;
}

#[test]
fn a_first_non_telegram_account_shows_its_inbox() {
    let mut snapshot = shell_with(&[ProtocolId::Slack]);
    assert_eq!(snapshot.center_view(), CenterView::FirstRun);
    link(&mut snapshot, ProtocolId::Slack);
    assert_eq!(
        snapshot.center_view(),
        CenterView::Thread,
        "no Telegram needed"
    );
    assert_eq!(snapshot.selected_protocol, ProtocolId::Slack);

    snapshot.apply_now(AdapterEvent::ConversationUpsert {
        conversation: chat(ProtocolId::Slack, "slack:C1", true),
    });
    assert_eq!(snapshot.selected_conversation.as_deref(), Some("slack:C1"));
    assert!(
        snapshot
            .take_commands()
            .contains(&AdapterCommand::OpenChat {
                protocol: ProtocolId::Slack,
                conversation_id: "slack:C1".into(),
            })
    );
    assert_eq!(snapshot.thread_state(), ThreadState::Loading);
    snapshot.apply_now(AdapterEvent::HistoryLoaded {
        protocol: ProtocolId::Slack,
        conversation_id: "slack:C1".into(),
    });
    assert_eq!(snapshot.thread_state(), ThreadState::Empty);

    snapshot.refresh_visible();
    assert!(
        snapshot
            .take_commands()
            .contains(&AdapterCommand::LoadChats {
                protocol: ProtocolId::Slack
            })
    );
    assert_eq!(snapshot.inbox_state(), InboxState::Rows);
}

#[test]
fn inbox_events_of_an_unlinked_protocol_are_dropped() {
    let mut snapshot = shell_with(&[ProtocolId::Slack]);
    snapshot.apply_now(AdapterEvent::ConversationUpsert {
        conversation: chat(ProtocolId::Slack, "slack:C1", true),
    });
    assert!(snapshot.conversations.is_empty());
}

#[test]
fn can_send_checks_the_protocol_and_the_chat() {
    let mut snapshot = shell_with(&[ProtocolId::Slack]);
    link(&mut snapshot, ProtocolId::Slack);
    snapshot.apply_now(AdapterEvent::ConversationUpsert {
        conversation: chat(ProtocolId::Slack, "slack:RO", false),
    });
    snapshot.apply_now(AdapterEvent::ConversationUpsert {
        conversation: chat(ProtocolId::Slack, "slack:RW", true),
    });
    snapshot.compose = "hi".into();
    snapshot.selected_conversation = Some("slack:RW".into());
    assert!(snapshot.can_send(), "a linked writable Slack channel");
    snapshot.selected_conversation = Some("slack:RO".into());
    assert!(!snapshot.can_send(), "a read-only channel");

    snapshot.selected_conversation = Some("slack:RW".into());
    snapshot.take_commands();
    snapshot.send_compose(NOW);
    assert!(snapshot.take_commands().iter().any(|command| matches!(
        command,
        AdapterCommand::SendText { protocol: ProtocolId::Slack, conversation_id, .. }
            if conversation_id == "slack:RW"
    )));
    assert!(!snapshot.can_send(), "one send in flight per chat");

    snapshot.apply_now(AdapterEvent::Account {
        protocol: ProtocolId::Slack,
        state: AccountState::Unlinked,
    });
    assert!(!snapshot.can_send(), "unlinked");
}

#[test]
fn send_answers_work_per_protocol() {
    let mut store = SecretStore::memory();
    let mut snapshot = ready_with_chats(&mut store);
    snapshot.extra_visible.insert(ProtocolId::Discord);
    link(&mut snapshot, ProtocolId::Discord);
    allow_send(&mut snapshot, ProtocolId::Discord);
    snapshot.apply_now(AdapterEvent::ConversationUpsert {
        conversation: chat(ProtocolId::Discord, "telegram:1", true),
    });
    snapshot.select_protocol(ProtocolId::Discord);
    snapshot.select_conversation("telegram:1".into());
    snapshot.compose = "to discord".into();
    snapshot.send_compose(NOW);
    let request = snapshot
        .sends
        .request_of(ProtocolId::Discord, "telegram:1")
        .expect("discord send");
    snapshot.apply_now(AdapterEvent::SendAccepted {
        protocol: ProtocolId::Telegram,
        conversation_id: "telegram:1".into(),
        request,
    });
    assert_eq!(snapshot.compose, "to discord");
    snapshot.apply_now(AdapterEvent::SendAccepted {
        protocol: ProtocolId::Discord,
        conversation_id: "telegram:1".into(),
        request,
    });
    assert!(snapshot.compose.is_empty(), "Discord accepted its own send");
}

#[test]
fn retry_works_for_any_linked_protocol() {
    let mut snapshot = shell_with(&[ProtocolId::Discord]);
    link(&mut snapshot, ProtocolId::Discord);
    snapshot.apply_now(AdapterEvent::ConversationUpsert {
        conversation: chat(ProtocolId::Discord, "discord:9", true),
    });
    snapshot.apply_now(AdapterEvent::MessageReceived {
        message: ChatMessage {
            protocol: ProtocolId::Discord,
            conversation_id: "discord:9".into(),
            id: "discord:9:1".into(),
            sender: "you".into(),
            body: "hi".into(),
            outbound: true,
            delivery: Delivery::Failed,
            sent_at: 1,
            arrival: Arrival::History,
        },
    });
    snapshot.take_commands();
    let already_sends = snapshot
        .accounts
        .iter()
        .any(|row| row.caps.id == ProtocolId::Discord && row.caps.sends_text);
    if !already_sends {
        snapshot.retry_send("discord:9:1", NOW);
        assert!(
            snapshot.take_commands().is_empty(),
            "Discord does not send text here"
        );
        allow_send(&mut snapshot, ProtocolId::Discord);
    }
    snapshot.retry_send("discord:9:1", NOW);
    assert!(snapshot.take_commands().iter().any(|command| matches!(
        command,
        AdapterCommand::ResendMessage { protocol: ProtocolId::Discord, message_id, .. }
            if message_id == "discord:9:1"
    )));
}
#[test]
fn retry_is_refused_in_a_read_only_chat() {
    let mut snapshot = shell_with(&[ProtocolId::Discord]);
    link(&mut snapshot, ProtocolId::Discord);
    allow_send(&mut snapshot, ProtocolId::Discord);
    snapshot.apply_now(AdapterEvent::ConversationUpsert {
        conversation: chat(ProtocolId::Discord, "discord:ro", false),
    });
    snapshot.apply_now(AdapterEvent::MessageReceived {
        message: ChatMessage {
            protocol: ProtocolId::Discord,
            conversation_id: "discord:ro".into(),
            id: "discord:ro:1".into(),
            sender: "you".into(),
            body: "hi".into(),
            outbound: true,
            delivery: Delivery::Failed,
            sent_at: 1,
            arrival: Arrival::History,
        },
    });
    snapshot.take_commands();
    snapshot.retry_send("discord:ro:1", NOW);
    assert!(snapshot.take_commands().is_empty());
    assert_eq!(snapshot.selected_messages()[0].delivery, Delivery::Failed);
}

#[test]
fn a_failed_command_keeps_the_inbox_and_the_send() {
    let mut snapshot = shell_with(&[ProtocolId::Slack]);
    link(&mut snapshot, ProtocolId::Slack);
    allow_send(&mut snapshot, ProtocolId::Slack);
    snapshot.apply_now(AdapterEvent::ConversationUpsert {
        conversation: chat(ProtocolId::Slack, "slack:C1", true),
    });
    snapshot.compose = "hi".into();
    snapshot.send_compose(NOW);
    snapshot.refresh_visible();
    assert_eq!(snapshot.thread_state(), ThreadState::Loading);

    snapshot.apply_now(AdapterEvent::CommandFailed {
        protocol: ProtocolId::Slack,
        conversation_id: Some("slack:C1".into()),
        detail: "rate limited".into(),
    });
    assert!(snapshot.protocol_linked(ProtocolId::Slack));
    assert_eq!(snapshot.visible_conversations().len(), 1);
    assert_eq!(snapshot.selected_conversation.as_deref(), Some("slack:C1"));
    assert_eq!(
        snapshot.thread_state(),
        ThreadState::Empty,
        "spinner stopped"
    );
    assert!(snapshot.error.is_some());
    assert!(
        snapshot.sends.in_flight(ProtocolId::Slack, "slack:C1"),
        "only SendRejected ends a send"
    );
}
#[test]
fn a_notice_is_a_note_and_never_ends_a_send() {
    let mut snapshot = shell_with(&[ProtocolId::Discord]);
    link(&mut snapshot, ProtocolId::Discord);
    allow_send(&mut snapshot, ProtocolId::Discord);
    snapshot.apply_now(AdapterEvent::ConversationUpsert {
        conversation: chat(ProtocolId::Discord, "discord:9", true),
    });
    snapshot.compose = "hi".into();
    snapshot.send_compose(NOW);
    snapshot.apply_now(AdapterEvent::Notice {
        protocol: ProtocolId::Discord,
        text: "The bot cannot read this channel.".into(),
    });
    assert!(snapshot.error.is_none());
    assert!(snapshot.sends.in_flight(ProtocolId::Discord, "discord:9"));
    assert_eq!(
        snapshot.notice(ProtocolId::Discord),
        Some("The bot cannot read this channel.")
    );
    assert_eq!(snapshot.notice(ProtocolId::Telegram), None);
}
#[test]
fn an_error_status_never_unlinks() {
    let mut store = SecretStore::memory();
    let mut snapshot = ready_with_chats(&mut store);
    snapshot.extra_visible.insert(ProtocolId::Slack);
    link(&mut snapshot, ProtocolId::Slack);
    snapshot.apply_now(AdapterEvent::ConversationUpsert {
        conversation: chat(ProtocolId::Slack, "slack:C1", true),
    });
    for protocol in [ProtocolId::Telegram, ProtocolId::Slack] {
        snapshot.apply_now(AdapterEvent::Status {
            protocol,
            status: AdapterStatus::Error,
            detail: "network down".into(),
        });
        assert!(snapshot.protocol_linked(protocol), "{protocol:?}");
    }
    assert_eq!(snapshot.center_view(), CenterView::Thread);
    assert_eq!(
        snapshot.visible_conversations().len(),
        2,
        "Telegram rows stay"
    );
}

#[test]
fn unlinking_one_protocol_drops_only_its_state() {
    let mut store = SecretStore::memory();
    let mut snapshot = ready_with_chats(&mut store);
    snapshot.extra_visible.insert(ProtocolId::Slack);
    link(&mut snapshot, ProtocolId::Slack);
    allow_send(&mut snapshot, ProtocolId::Slack);
    snapshot.apply_now(AdapterEvent::ConversationUpsert {
        conversation: chat(ProtocolId::Slack, "slack:C1", true),
    });
    snapshot.select_protocol(ProtocolId::Slack);
    snapshot.compose = "slack text".into();
    snapshot.send_compose(NOW);
    snapshot.apply_now(AdapterEvent::Account {
        protocol: ProtocolId::Slack,
        state: AccountState::Unlinked,
    });
    assert!(!snapshot.conversations.contains_key(&ProtocolId::Slack));
    assert!(!snapshot.sends.in_flight(ProtocolId::Slack, "slack:C1"));
    assert_eq!(
        snapshot.selected_protocol,
        ProtocolId::Telegram,
        "the next linked protocol takes the selection"
    );
    assert_eq!(snapshot.visible_conversations().len(), 2);
    assert!(snapshot.protocol_linked(ProtocolId::Telegram));
}

fn view_commands(snapshot: &mut Snapshot) -> Vec<(ProtocolId, Option<String>)> {
    snapshot.sync_viewed();
    snapshot
        .take_commands()
        .into_iter()
        .filter_map(|command| match command {
            AdapterCommand::ViewChat {
                protocol,
                conversation_id,
            } => Some((protocol, conversation_id)),
            _ => None,
        })
        .collect()
}

#[test]
fn view_chat_follows_the_selection_and_sends_only_changes() {
    let mut store = SecretStore::memory();
    let mut snapshot = ready_with_chats(&mut store);
    snapshot.extra_visible.insert(ProtocolId::Slack);
    assert_eq!(
        view_commands(&mut snapshot),
        vec![(ProtocolId::Telegram, Some("telegram:1".into()))]
    );
    assert!(
        view_commands(&mut snapshot).is_empty(),
        "no change, no command"
    );

    snapshot.select_conversation("telegram:2".into());
    assert_eq!(
        view_commands(&mut snapshot),
        vec![(ProtocolId::Telegram, Some("telegram:2".into()))]
    );
    snapshot.select_conversation("telegram:2".into());
    assert!(
        view_commands(&mut snapshot).is_empty(),
        "the same chat again"
    );

    link(&mut snapshot, ProtocolId::Slack);
    snapshot.apply_now(AdapterEvent::ConversationUpsert {
        conversation: chat(ProtocolId::Slack, "slack:C1", true),
    });
    snapshot.select_protocol(ProtocolId::Slack);
    assert_eq!(
        view_commands(&mut snapshot),
        vec![
            (ProtocolId::Telegram, None),
            (ProtocolId::Slack, Some("slack:C1".into()))
        ],
        "the old protocol hears None first"
    );

    snapshot.apply_now(AdapterEvent::ConversationRemoved {
        protocol: ProtocolId::Slack,
        id: "slack:C1".into(),
    });
    assert_eq!(
        view_commands(&mut snapshot),
        vec![(ProtocolId::Slack, None)]
    );
}

#[test]
fn view_chat_clears_on_session_end_and_under_a_login_form() {
    let mut store = SecretStore::memory();
    let mut snapshot = ready_with_chats(&mut store);
    view_commands(&mut snapshot);
    snapshot.auth = AuthScreen::TelegramApi;
    assert_eq!(
        view_commands(&mut snapshot),
        vec![(ProtocolId::Telegram, None)]
    );
    snapshot.auth = AuthScreen::Idle;
    assert_eq!(
        view_commands(&mut snapshot),
        vec![(ProtocolId::Telegram, Some("telegram:1".into()))]
    );
    snapshot.apply_now(AdapterEvent::TelegramSessionEnded);
    assert_eq!(
        view_commands(&mut snapshot),
        vec![(ProtocolId::Telegram, None)]
    );
}
#[test]
fn pairing_payloads_of_an_older_pairing_are_dropped() {

    let mut phone = WhatsAppPhoneVault::new();
    let mut snapshot = whatsapp_shell();
    let begin = |snapshot: &mut Snapshot, phone: &mut WhatsAppPhoneVault| {
        snapshot.open_whatsapp_risk_gate();
        snapshot.acknowledge_whatsapp_risk();
        snapshot.begin_whatsapp_link(phone);
        snapshot
            .take_commands()
            .into_iter()
            .find_map(|command| match command {
                AdapterCommand::WhatsAppBeginLink { generation } => Some(generation),
                _ => None,
            })
            .expect("begin")
    };
    let qr = |generation: u64, code: &str| AdapterEvent::WhatsAppQr {
        code: RedactedPairingSecret::new(code),
        generation,
    };
    let first = begin(&mut snapshot, &mut phone);
    snapshot.cancel_whatsapp_link(&mut phone);
    let second = begin(&mut snapshot, &mut phone);
    assert!(second > first, "the generation rises with each begin");

    snapshot.apply_now(qr(first, "old-qr"));
    assert_eq!(
        snapshot.whatsapp_qr, None,
        "a late payload of the cancelled pairing"
    );
    snapshot.apply_now(qr(second, "new-qr"));
    assert_eq!(snapshot.whatsapp_qr.as_deref(), Some("new-qr"));

    snapshot.cancel_whatsapp_link(&mut phone);
    snapshot.apply_now(AdapterEvent::WhatsAppPairCode {
        code: RedactedPairingSecret::new("late-code"),
        generation: second,
    });
    assert_eq!(snapshot.whatsapp_pair_code, None, "no pairing runs");
    assert!(!format!("{:?}", snapshot.facts()).contains("new-qr"));
}
#[test]
fn a_reconnect_keeps_the_session_and_applies_send_answers() {
    let mut snapshot = shell_with(&[ProtocolId::Slack]);
    link(&mut snapshot, ProtocolId::Slack);
    allow_send(&mut snapshot, ProtocolId::Slack);
    snapshot.apply_now(AdapterEvent::ConversationUpsert {
        conversation: chat(ProtocolId::Slack, "slack:C1", true),
    });
    snapshot.compose = "hi".into();
    snapshot.send_compose(NOW);
    let request = snapshot
        .sends
        .request_of(ProtocolId::Slack, "slack:C1")
        .expect("send");

    snapshot.apply_now(AdapterEvent::Account {
        protocol: ProtocolId::Slack,
        state: AccountState::Linking,
    });
    assert_eq!(snapshot.visible_conversations().len(), 1, "rows stay");
    assert_eq!(snapshot.center_view(), CenterView::Thread);
    snapshot.apply_now(AdapterEvent::SendAccepted {
        protocol: ProtocolId::Slack,
        conversation_id: "slack:C1".into(),
        request,
    });
    assert!(
        snapshot.compose.is_empty(),
        "the answer applied while Linking"
    );
    assert!(!snapshot.sends.in_flight(ProtocolId::Slack, "slack:C1"));
    snapshot.compose = "next".into();
    assert!(!snapshot.can_send(), "new sends wait for Linked");

    snapshot.apply_now(AdapterEvent::Account {
        protocol: ProtocolId::Slack,
        state: AccountState::Linked,
    });
    assert!(snapshot.can_send());
}
#[test]
fn unlinked_after_linking_ends_the_session() {
    let mut snapshot = shell_with(&[ProtocolId::Slack]);
    link(&mut snapshot, ProtocolId::Slack);
    allow_send(&mut snapshot, ProtocolId::Slack);
    snapshot.apply_now(AdapterEvent::ConversationUpsert {
        conversation: chat(ProtocolId::Slack, "slack:C1", true),
    });
    snapshot.compose = "hi".into();
    snapshot.send_compose(NOW);
    snapshot.apply_now(AdapterEvent::Account {
        protocol: ProtocolId::Slack,
        state: AccountState::Linking,
    });
    snapshot.apply_now(AdapterEvent::Account {
        protocol: ProtocolId::Slack,
        state: AccountState::Unlinked,
    });
    assert!(!snapshot.conversations.contains_key(&ProtocolId::Slack));
    assert!(!snapshot.sends.in_flight(ProtocolId::Slack, "slack:C1"));
    assert!(!snapshot.has_session(ProtocolId::Slack));
    snapshot.apply_now(AdapterEvent::Account {
        protocol: ProtocolId::Slack,
        state: AccountState::Linking,
    });
    snapshot.apply_now(AdapterEvent::ConversationUpsert {
        conversation: chat(ProtocolId::Slack, "slack:C2", true),
    });
    assert!(!snapshot.conversations.contains_key(&ProtocolId::Slack));
}
#[test]
fn a_rejected_send_keeps_its_text_after_unlink() {
    let mut snapshot = shell_with(&[ProtocolId::Discord]);
    link(&mut snapshot, ProtocolId::Discord);
    allow_send(&mut snapshot, ProtocolId::Discord);
    snapshot.apply_now(AdapterEvent::ConversationUpsert {
        conversation: chat(ProtocolId::Discord, "discord:1:2", true),
    });
    snapshot.selected_conversation = Some("discord:1:2".into());
    snapshot.compose = "keep me".into();
    snapshot.set_draft(ProtocolId::Discord, "discord:9:9", "other chat".into());
    snapshot.send_compose(NOW);
    let request = snapshot
        .take_commands()
        .into_iter()
        .find_map(|command| match command {
            AdapterCommand::SendText { request, .. } => Some(request),
            _ => None,
        })
        .expect("send");
    snapshot.apply_now(AdapterEvent::SendRejected {
        protocol: ProtocolId::Discord,
        conversation_id: "discord:1:2".into(),
        request,
    });
    snapshot.apply_now(AdapterEvent::Account {
        protocol: ProtocolId::Discord,
        state: AccountState::Unlinked,
    });
    assert_eq!(
        snapshot
            .drafts
            .get(&(ProtocolId::Discord, "discord:1:2".into()))
            .map(String::as_str),
        Some("keep me"),
    );
    assert!(
        !snapshot
            .drafts
            .contains_key(&(ProtocolId::Discord, "discord:9:9".into())),
        "only the rejected send stays"
    );
    link(&mut snapshot, ProtocolId::Discord);
    snapshot.apply_now(AdapterEvent::ConversationUpsert {
        conversation: chat(ProtocolId::Discord, "discord:1:2", true),
    });
    snapshot.select_conversation("discord:1:2".into());
    assert_eq!(snapshot.compose, "keep me");
}
#[test]
fn an_accepted_resend_drops_the_rejected_body() {
    let mut snapshot = shell_with(&[ProtocolId::Discord]);
    link(&mut snapshot, ProtocolId::Discord);
    allow_send(&mut snapshot, ProtocolId::Discord);
    snapshot.apply_now(AdapterEvent::ConversationUpsert {
        conversation: chat(ProtocolId::Discord, "discord:1:2", true),
    });
    snapshot.selected_conversation = Some("discord:1:2".into());
    snapshot.compose = "keep me".into();
    snapshot.send_compose(NOW);
    let request = snapshot
        .take_commands()
        .into_iter()
        .find_map(|command| match command {
            AdapterCommand::SendText { request, .. } => Some(request),
            _ => None,
        })
        .expect("send");
    snapshot.apply_now(AdapterEvent::SendRejected {
        protocol: ProtocolId::Discord,
        conversation_id: "discord:1:2".into(),
        request,
    });
    snapshot.send_compose(NOW);
    let again = snapshot
        .take_commands()
        .into_iter()
        .find_map(|command| match command {
            AdapterCommand::SendText { request, .. } => Some(request),
            _ => None,
        })
        .expect("resend");
    snapshot.apply_now(AdapterEvent::SendAccepted {
        protocol: ProtocolId::Discord,
        conversation_id: "discord:1:2".into(),
        request: again,
    });
    snapshot.apply_now(AdapterEvent::Account {
        protocol: ProtocolId::Discord,
        state: AccountState::Unlinked,
    });
    link(&mut snapshot, ProtocolId::Discord);
    snapshot.apply_now(AdapterEvent::ConversationUpsert {
        conversation: chat(ProtocolId::Discord, "discord:1:2", true),
    });
    snapshot.select_conversation("discord:1:2".into());
    assert!(snapshot.compose.is_empty());
}
#[test]
fn a_rejected_retry_keeps_the_row_text_after_unlink() {
    let mut snapshot = shell_with(&[ProtocolId::Discord]);
    link(&mut snapshot, ProtocolId::Discord);
    allow_send(&mut snapshot, ProtocolId::Discord);
    snapshot.apply_now(AdapterEvent::ConversationUpsert {
        conversation: chat(ProtocolId::Discord, "discord:1:2", true),
    });
    snapshot.selected_conversation = Some("discord:1:2".into());
    snapshot.apply_now(AdapterEvent::MessageReceived {
        message: ChatMessage {
            protocol: ProtocolId::Discord,
            conversation_id: "discord:1:2".into(),
            id: "discord:pending:2:1".into(),
            sender: "bot".into(),
            body: "keep me".into(),
            outbound: true,
            delivery: Delivery::Failed,
            sent_at: 1,
            arrival: Arrival::History,
        },
    });
    snapshot.retry_send("discord:pending:2:1", NOW);
    let request = snapshot
        .take_commands()
        .into_iter()
        .find_map(|command| match command {
            AdapterCommand::ResendMessage { request, .. } => Some(request),
            _ => None,
        })
        .expect("retry");
    snapshot.apply_now(AdapterEvent::SendRejected {
        protocol: ProtocolId::Discord,
        conversation_id: "discord:1:2".into(),
        request,
    });
    snapshot.apply_now(AdapterEvent::Account {
        protocol: ProtocolId::Discord,
        state: AccountState::Unlinked,
    });
    link(&mut snapshot, ProtocolId::Discord);
    snapshot.apply_now(AdapterEvent::ConversationUpsert {
        conversation: chat(ProtocolId::Discord, "discord:1:2", true),
    });
    snapshot.select_conversation("discord:1:2".into());
    assert_eq!(snapshot.compose, "keep me");
}
#[test]
fn a_rejected_compose_survives_a_retry_that_unlinks() {
    let mut snapshot = shell_with(&[ProtocolId::Discord]);
    link(&mut snapshot, ProtocolId::Discord);
    allow_send(&mut snapshot, ProtocolId::Discord);
    snapshot.apply_now(AdapterEvent::ConversationUpsert {
        conversation: chat(ProtocolId::Discord, "discord:1:2", true),
    });
    snapshot.selected_conversation = Some("discord:1:2".into());
    snapshot.compose = "A".into();
    snapshot.send_compose(NOW);
    let request = snapshot
        .take_commands()
        .into_iter()
        .find_map(|command| match command {
            AdapterCommand::SendText { request, .. } => Some(request),
            _ => None,
        })
        .expect("send");
    snapshot.apply_now(AdapterEvent::SendRejected {
        protocol: ProtocolId::Discord,
        conversation_id: "discord:1:2".into(),
        request,
    });
    assert_eq!(snapshot.compose, "A");
    snapshot.apply_now(AdapterEvent::MessageReceived {
        message: ChatMessage {
            protocol: ProtocolId::Discord,
            conversation_id: "discord:1:2".into(),
            id: "discord:row-b".into(),
            sender: "bot".into(),
            body: "B".into(),
            outbound: true,
            delivery: Delivery::Failed,
            sent_at: 1,
            arrival: Arrival::History,
        },
    });
    snapshot.retry_send("discord:row-b", NOW);
    let retry = snapshot
        .take_commands()
        .into_iter()
        .find_map(|command| match command {
            AdapterCommand::ResendMessage { request, .. } => Some(request),
            _ => None,
        })
        .expect("retry");
    snapshot.apply_now(AdapterEvent::SendRejected {
        protocol: ProtocolId::Discord,
        conversation_id: "discord:1:2".into(),
        request: retry,
    });
    snapshot.apply_now(AdapterEvent::Account {
        protocol: ProtocolId::Discord,
        state: AccountState::Unlinked,
    });
    link(&mut snapshot, ProtocolId::Discord);
    snapshot.apply_now(AdapterEvent::ConversationUpsert {
        conversation: chat(ProtocolId::Discord, "discord:1:2", true),
    });
    snapshot.select_conversation("discord:1:2".into());
    assert_eq!(snapshot.compose, "A");
}
#[test]
fn unlinking_one_protocol_keeps_another_protocols_draft() {
    let mut store = SecretStore::memory();
    let mut snapshot = ready_with_chats(&mut store);
    snapshot.extra_visible.insert(ProtocolId::Slack);
    link(&mut snapshot, ProtocolId::Slack);
    snapshot.apply_now(AdapterEvent::ConversationUpsert {
        conversation: chat(ProtocolId::Slack, "telegram:2", true),
    });
    snapshot.set_draft(ProtocolId::Telegram, "telegram:2", "telegram draft".into());
    snapshot.set_draft(ProtocolId::Slack, "telegram:2", "slack draft".into());
    snapshot.apply_now(AdapterEvent::Account {
        protocol: ProtocolId::Slack,
        state: AccountState::Unlinked,
    });
    snapshot.select_conversation("telegram:2".into());
    assert_eq!(snapshot.compose, "telegram draft", "no data loss");
}
#[test]
fn a_protocol_switch_parks_the_draft_under_the_old_protocol() {
    let mut store = SecretStore::memory();
    let mut snapshot = ready_with_chats(&mut store);
    snapshot.extra_visible.insert(ProtocolId::Slack);
    link(&mut snapshot, ProtocolId::Slack);
    snapshot.apply_now(AdapterEvent::ConversationUpsert {
        conversation: chat(ProtocolId::Slack, "slack:C1", true),
    });
    snapshot.select_protocol(ProtocolId::Telegram);
    snapshot.compose = "for telegram:1".into();
    snapshot.select_protocol(ProtocolId::Slack);
    assert!(snapshot.compose.is_empty());
    snapshot.select_protocol(ProtocolId::Telegram);
    assert_eq!(snapshot.compose, "for telegram:1");
}

fn open_chats(snapshot: &mut Snapshot) -> Vec<(ProtocolId, String)> {
    snapshot
        .take_commands()
        .into_iter()
        .filter_map(|command| match command {
            AdapterCommand::OpenChat {
                protocol,
                conversation_id,
            } => Some((protocol, conversation_id)),
            _ => None,
        })
        .collect()
}
#[test]
fn auto_select_skips_a_placeholder_row() {
    let mut snapshot = shell_with(&[ProtocolId::Discord]);
    link(&mut snapshot, ProtocolId::Discord);
    snapshot.apply_now(AdapterEvent::ConversationUpsert {
        conversation: discord_guild_placeholder(),
    });
    assert_eq!(snapshot.selected_conversation, None);
    assert!(
        open_chats(&mut snapshot).is_empty(),
        "no OpenChat for a placeholder"
    );
    snapshot.select_conversation("discord:guild-inbox:general".into());
    assert!(
        open_chats(&mut snapshot).is_empty(),
        "not on a click either"
    );

    snapshot.selected_conversation = None;
    snapshot.apply_now(AdapterEvent::ConversationUpsert {
        conversation: chat(ProtocolId::Discord, "discord:real", true),
    });
    assert_eq!(
        snapshot.selected_conversation.as_deref(),
        Some("discord:real")
    );
    assert_eq!(
        open_chats(&mut snapshot),
        vec![(ProtocolId::Discord, "discord:real".to_owned())]
    );
}
#[test]
fn telegram_ready_keeps_another_protocols_selection() {
    let mut store = SecretStore::memory();
    let mut snapshot = shell_with(&[ProtocolId::Slack]);
    link(&mut snapshot, ProtocolId::Slack);
    snapshot.apply_now(AdapterEvent::ConversationUpsert {
        conversation: chat(ProtocolId::Slack, "slack:C1", true),
    });
    assert_eq!(snapshot.selected_protocol, ProtocolId::Slack);
    complete_telegram(&mut snapshot, &mut store);
    assert!(snapshot.telegram_ready());
    assert_eq!(
        snapshot.selected_protocol,
        ProtocolId::Slack,
        "the user's choice stays"
    );
    assert_eq!(snapshot.selected_conversation.as_deref(), Some("slack:C1"));
    let mut fresh = shell_with(&[ProtocolId::Slack]);
    fresh.selected_protocol = ProtocolId::Slack;
    assert!(!fresh.has_session(ProtocolId::Slack));
    complete_telegram(&mut fresh, &mut store);
    assert_eq!(fresh.selected_protocol, ProtocolId::Telegram);
}
#[test]
fn linked_loads_a_chat_opened_while_linking() {
    let mut snapshot = shell_with(&[ProtocolId::Slack]);
    link(&mut snapshot, ProtocolId::Slack);
    snapshot.apply_now(AdapterEvent::ConversationUpsert {
        conversation: chat(ProtocolId::Slack, "slack:C1", true),
    });
    snapshot.apply_now(AdapterEvent::ConversationUpsert {
        conversation: chat(ProtocolId::Slack, "slack:C2", true),
    });
    snapshot.take_commands();
    snapshot.apply_now(AdapterEvent::Account {
        protocol: ProtocolId::Slack,
        state: AccountState::Linking,
    });
    snapshot.select_conversation("slack:C2".into());
    assert!(
        open_chats(&mut snapshot).is_empty(),
        "commands wait for Linked"
    );
    link(&mut snapshot, ProtocolId::Slack);
    assert_eq!(
        open_chats(&mut snapshot),
        vec![(ProtocolId::Slack, "slack:C2".to_owned())]
    );
}
#[test]
fn a_reconnect_does_not_reload_a_loaded_chat() {
    let mut snapshot = shell_with(&[ProtocolId::Slack]);
    link(&mut snapshot, ProtocolId::Slack);
    snapshot.apply_now(AdapterEvent::ConversationUpsert {
        conversation: chat(ProtocolId::Slack, "slack:C1", true),
    });
    assert_eq!(
        open_chats(&mut snapshot),
        vec![(ProtocolId::Slack, "slack:C1".to_owned())]
    );
    snapshot.apply_now(AdapterEvent::Account {
        protocol: ProtocolId::Slack,
        state: AccountState::Linking,
    });
    link(&mut snapshot, ProtocolId::Slack);
    assert!(open_chats(&mut snapshot).is_empty(), "no reload");
}
#[test]
fn a_placeholder_is_never_the_viewed_chat() {
    let mut snapshot = shell_with(&[ProtocolId::Discord]);
    link(&mut snapshot, ProtocolId::Discord);
    snapshot.apply_now(AdapterEvent::ConversationUpsert {
        conversation: discord_guild_placeholder(),
    });
    snapshot.select_conversation("discord:guild-inbox:general".into());
    snapshot.sync_viewed();
    assert!(
        !snapshot.take_commands().iter().any(|command| matches!(
            command,
            AdapterCommand::ViewChat {
                conversation_id: Some(_),
                ..
            }
        )),
        "no ViewChat for a placeholder"
    );
}
fn expired_send(snapshot: &mut Snapshot) -> u64 {
    snapshot.compose = "hello".into();
    snapshot.send_compose(NOW);
    let request = snapshot
        .sends
        .request_of(ProtocolId::Telegram, "telegram:1")
        .expect("send");
    assert!(!snapshot.can_send());
    snapshot.expire_sends(NOW + SEND_TIMEOUT);
    request
}

fn late_answer(snapshot: &mut Snapshot, request: u64, accepted: bool) {
    let conversation_id = "telegram:1".to_owned();
    let protocol = ProtocolId::Telegram;
    snapshot.apply_now(if accepted {
        AdapterEvent::SendAccepted {
            protocol,
            conversation_id,
            request,
        }
    } else {
        AdapterEvent::SendRejected {
            protocol,
            conversation_id,
            request,
        }
    });
}
#[test]
fn an_unanswered_send_unlocks_its_chat() {
    let mut store = SecretStore::memory();
    let mut snapshot = ready_with_chats(&mut store);
    expired_send(&mut snapshot);
    assert!(snapshot.can_send(), "the chat is unlocked");
    assert_eq!(snapshot.compose, "hello", "the text stays");
    assert_eq!(
        snapshot.error.as_ref().map(|error| error.why.as_str()),
        Some("Telegram did not answer in time.")
    );
}
#[test]
fn a_late_accept_clears_the_unchanged_text() {
    let mut store = SecretStore::memory();
    let mut snapshot = ready_with_chats(&mut store);
    let request = expired_send(&mut snapshot);
    late_answer(&mut snapshot, request, true);
    assert_eq!(snapshot.compose, "", "the sent text is cleared");
    assert!(snapshot.error.is_none(), "the timeout error goes");
}
#[test]
fn a_late_accept_keeps_edited_text() {
    let mut store = SecretStore::memory();
    let mut snapshot = ready_with_chats(&mut store);
    let request = expired_send(&mut snapshot);
    snapshot.compose = "hello again".into();
    late_answer(&mut snapshot, request, true);
    assert_eq!(snapshot.compose, "hello again");
}
#[test]
fn a_late_accept_clears_the_unchanged_draft_of_another_chat() {
    let mut store = SecretStore::memory();
    let mut snapshot = ready_with_chats(&mut store);
    let request = expired_send(&mut snapshot);
    let key = (ProtocolId::Telegram, "telegram:1".to_owned());
    snapshot.select_conversation("telegram:2".into());
    assert!(snapshot.drafts.contains_key(&key), "the text is a draft");
    late_answer(&mut snapshot, request, true);
    assert!(!snapshot.drafts.contains_key(&key));
}
#[test]
fn a_late_reject_changes_nothing() {
    let mut store = SecretStore::memory();
    let mut snapshot = ready_with_chats(&mut store);
    let request = expired_send(&mut snapshot);
    let error = snapshot.error.clone();
    late_answer(&mut snapshot, request, false);
    assert_eq!(snapshot.compose, "hello");
    assert_eq!(snapshot.error, error);
    assert!(snapshot.can_send());
    late_answer(&mut snapshot, request, true);
    assert_eq!(snapshot.compose, "hello");
}
#[test]
fn an_unanswered_retry_fails_its_row_again() {
    let mut store = SecretStore::memory();
    let mut snapshot = ready_with_chats(&mut store);
    retry_failed_row(&mut snapshot);
    snapshot.expire_sends(NOW + SEND_TIMEOUT);
    assert_eq!(snapshot.selected_messages()[0].delivery, Delivery::Failed);
    assert!(snapshot.error.is_some());
}
#[test]
fn a_late_retry_accept_marks_the_row_sent() {
    let mut store = SecretStore::memory();
    let mut snapshot = ready_with_chats(&mut store);
    let request = retry_failed_row(&mut snapshot);
    snapshot.expire_sends(NOW + SEND_TIMEOUT);
    assert_eq!(snapshot.selected_messages()[0].delivery, Delivery::Failed);
    late_answer(&mut snapshot, request, true);
    assert_eq!(snapshot.selected_messages()[0].delivery, Delivery::Sent);
    assert!(snapshot.error.is_none());
}

fn answer_in(snapshot: &mut Snapshot, chat: &str, request: u64, accepted: bool) {
    let conversation_id = chat.to_owned();
    let protocol = ProtocolId::Telegram;
    snapshot.apply_now(if accepted {
        AdapterEvent::SendAccepted {
            protocol,
            conversation_id,
            request,
        }
    } else {
        AdapterEvent::SendRejected {
            protocol,
            conversation_id,
            request,
        }
    });
}
#[test]
fn a_late_retry_accept_untracks_the_newer_retry() {
    let mut store = SecretStore::memory();
    let mut snapshot = ready_with_chats(&mut store);
    let first = retry_failed_row(&mut snapshot);
    snapshot.expire_sends(NOW + SEND_TIMEOUT);
    let second = retry_failed_row_again(&mut snapshot);
    assert_ne!(first, second);

    answer_in(&mut snapshot, "telegram:1", first, true);
    assert_eq!(snapshot.selected_messages()[0].delivery, Delivery::Sent);
    assert_eq!(
        snapshot
            .sends
            .request_of(ProtocolId::Telegram, "telegram:1"),
        None,
        "the newer retry is no longer tracked"
    );
    answer_in(&mut snapshot, "telegram:1", second, false);
    assert_eq!(snapshot.selected_messages()[0].delivery, Delivery::Sent);
    assert!(snapshot.error.is_none(), "no error for the old retry");
}
fn retry_failed_row_again(snapshot: &mut Snapshot) -> u64 {
    assert_eq!(snapshot.selected_messages()[0].delivery, Delivery::Failed);
    snapshot.error = None;
    snapshot.retry_send("telegram:1:101", NOW);
    snapshot
        .take_commands()
        .iter()
        .find_map(|command| match command {
            AdapterCommand::ResendMessage { request, .. } => Some(*request),
            _ => None,
        })
        .expect("a second ResendMessage")
}
fn two_expired_sends(snapshot: &mut Snapshot) -> (u64, u64) {
    snapshot.compose = "to ada".into();
    snapshot.send_compose(NOW);
    let ada = snapshot
        .sends
        .request_of(ProtocolId::Telegram, "telegram:1")
        .expect("send to Ada");
    snapshot.select_conversation("telegram:2".into());
    snapshot.compose = "to bob".into();
    snapshot.send_compose(NOW);
    let bob = snapshot
        .sends
        .request_of(ProtocolId::Telegram, "telegram:2")
        .expect("send to Bob");
    snapshot.expire_sends(NOW + SEND_TIMEOUT);
    (ada, bob)
}
#[test]
fn two_expired_sends_both_show() {
    let mut store = SecretStore::memory();
    let mut snapshot = ready_with_chats(&mut store);
    two_expired_sends(&mut snapshot);
    let error = snapshot.error.clone().expect("an error");
    assert_eq!(error.happened, "2 messages not sent.");
    assert!(error.why.contains("Ada (Telegram)"), "{error:?}");
    assert!(error.why.contains("Bob (Telegram)"), "{error:?}");
}
#[test]
fn a_late_accept_clears_only_its_own_timeout() {
    let mut store = SecretStore::memory();
    let mut snapshot = ready_with_chats(&mut store);
    let (ada, _bob) = two_expired_sends(&mut snapshot);
    answer_in(&mut snapshot, "telegram:1", ada, true);
    assert_eq!(
        snapshot.error,
        Some(UserError {
            happened: "Message not sent.".into(),
            why: "Telegram did not answer in time.".into(),
            next: "The text is still in the compose field. Send it again.".into(),
        }),
        "Bob's send still shows"
    );
}
#[test]
fn a_late_accept_keeps_another_error() {
    let mut store = SecretStore::memory();
    let mut snapshot = ready_with_chats(&mut store);
    let request = expired_send(&mut snapshot);
    snapshot.set_error(
        "Chat not loaded.",
        "Telegram did not answer in time.",
        "Try again.",
    );
    late_answer(&mut snapshot, request, true);
    assert_eq!(
        snapshot.error.as_ref().map(|error| error.happened.as_str()),
        Some("Chat not loaded."),
        "the same why text, but not the timeout error"
    );
}
#[test]
fn a_timeout_in_another_chat_names_its_draft() {
    let mut store = SecretStore::memory();
    let mut snapshot = ready_with_chats(&mut store);
    snapshot.compose = "hello".into();
    snapshot.send_compose(NOW);
    snapshot.select_conversation("telegram:2".into());
    snapshot.expire_sends(NOW + SEND_TIMEOUT);
    assert_eq!(
        snapshot.error.as_ref().map(|error| error.next.as_str()),
        Some("The text is in the draft of Ada. Send it again.")
    );
}
#[test]
fn a_running_load_line_wins_over_a_finished_ready_line() {
    let mut store = SecretStore::memory();
    let mut snapshot = ready_with_chats(&mut store);
    snapshot.extra_visible.insert(ProtocolId::Slack);
    snapshot.apply_now(AdapterEvent::ChatListLoaded {
        protocol: ProtocolId::Telegram,
    });
    snapshot.history_loading.clear();
    snapshot.apply_now(AdapterEvent::Status {
        protocol: ProtocolId::Telegram,
        status: AdapterStatus::Ready,
        detail: "Message sent.".into(),
    });
    assert!(snapshot.status_is_idle());
    assert_eq!(snapshot.status_line(), "Message sent.");

    link(&mut snapshot, ProtocolId::Slack);
    snapshot.chat_list_loading.insert(ProtocolId::Slack);
    snapshot.older_loading.insert((ProtocolId::Telegram, "telegram:1".into()));
    assert_eq!(
        snapshot.status_line(),
        LOADING_OLDER_STATUS,
        "selected first"
    );
    snapshot.older_loading.clear();
    assert!(snapshot.is_loading());
    assert!(!snapshot.status_is_idle());
    assert_eq!(snapshot.status_line(), "Slack: Loading chats…");

    snapshot.apply_now(AdapterEvent::ChatListLoaded {
        protocol: ProtocolId::Slack,
    });
    assert_eq!(snapshot.status_line(), "Message sent.", "idle again");
}
#[test]
fn each_protocol_has_its_own_loading_line() {
    let mut snapshot = shell_with(&[ProtocolId::Slack, ProtocolId::Discord]);
    link(&mut snapshot, ProtocolId::Slack);
    link(&mut snapshot, ProtocolId::Discord);
    allow_send(&mut snapshot, ProtocolId::Slack);
    snapshot.apply_now(AdapterEvent::ConversationUpsert {
        conversation: chat(ProtocolId::Slack, "slack:C1", true),
    });
    snapshot.chat_list_loading.insert(ProtocolId::Discord);
    snapshot.history_loading.clear();
    snapshot.select_protocol(ProtocolId::Slack);
    snapshot.history_loading.clear();
    snapshot.compose = "hi".into();
    snapshot.send_compose(NOW);
    assert_eq!(
        snapshot.loading_line(ProtocolId::Slack),
        Some(SENDING_STATUS)
    );
    assert_eq!(
        snapshot.loading_line(ProtocolId::Discord),
        Some(LOADING_CHATS_STATUS)
    );
    assert_eq!(
        snapshot.status_line(),
        SENDING_STATUS,
        "the selected protocol first"
    );
    snapshot.select_protocol(ProtocolId::Discord);
    assert_eq!(snapshot.status_line(), LOADING_CHATS_STATUS);
}

fn signal_row(id: &str) -> Conversation {
    Conversation {
        protocol: ProtocolId::Signal,
        id: id.into(),
        ..telegram_chat(9, "Cid", 7)
    }
}

fn signal_with_an_older_load() -> Snapshot {
    let mut snapshot = signal_shell();
    snapshot.apply_now(AdapterEvent::Account {
        protocol: ProtocolId::Signal,
        state: AccountState::Linked,
    });
    snapshot.apply_now(AdapterEvent::ConversationUpsert {
        conversation: signal_row("signal:1"),
    });
    snapshot.select_protocol(ProtocolId::Signal);
    snapshot.select_conversation("signal:1".into());
    snapshot.apply_now(AdapterEvent::HistoryLoaded {
        protocol: ProtocolId::Signal,
        conversation_id: "signal:1".into(),
    });
    snapshot.apply_now(AdapterEvent::ChatListLoaded {
        protocol: ProtocolId::Signal,
    });
    snapshot.apply_now(AdapterEvent::MessageReceived {
        message: ChatMessage {
            protocol: ProtocolId::Signal,
            conversation_id: "signal:1".into(),
            id: "signal:1:50".into(),
            sender: "Cid".into(),
            body: "hi".into(),
            outbound: false,
            delivery: Delivery::Sent,
            sent_at: 1,
            arrival: Arrival::History,
        },
    });
    snapshot.take_commands();
    snapshot.load_older(NOW);
    assert!(
        snapshot
            .take_commands()
            .iter()
            .any(|command| matches!(command, AdapterCommand::LoadOlderMessages { .. }))
    );
    snapshot
}

#[test]
fn an_older_load_shows_in_its_own_protocol() {
    let snapshot = signal_with_an_older_load();
    assert_eq!(
        snapshot.loading_line(ProtocolId::Signal),
        Some(LOADING_OLDER_STATUS)
    );
    assert_eq!(snapshot.loading_line(ProtocolId::Telegram), None);
}

#[test]
fn an_older_load_ends_with_its_session() {
    let mut snapshot = signal_with_an_older_load();
    snapshot.apply_now(AdapterEvent::Account {
        protocol: ProtocolId::Telegram,
        state: AccountState::Linking,
    });
    snapshot.apply_now(AdapterEvent::Account {
        protocol: ProtocolId::Telegram,
        state: AccountState::Unlinked,
    });
    assert_eq!(
        snapshot.loading_line(ProtocolId::Signal),
        Some(LOADING_OLDER_STATUS),
        "another session ended"
    );
    snapshot.apply_now(AdapterEvent::Account {
        protocol: ProtocolId::Signal,
        state: AccountState::Unlinked,
    });
    assert_eq!(snapshot.loading_line(ProtocolId::Signal), None);
}

fn signal_page(snapshot: &mut Snapshot, more: bool) {
    snapshot.apply_now(AdapterEvent::OlderHistoryLoaded {
        protocol: ProtocolId::Signal,
        conversation_id: "signal:1".into(),
        before_message_id: "signal:1:50".into(),
        more,
        note: None,
    });
}

#[test]
fn the_known_start_of_a_chat_goes_with_the_telegram_session_only() {
    let mut snapshot = signal_with_an_older_load();
    signal_page(&mut snapshot, false);
    assert_eq!(snapshot.older_state(), OlderState::StartOfChat);
    snapshot.apply_now(AdapterEvent::ConversationRemoved {
        protocol: ProtocolId::Signal,
        id: "signal:1".into(),
    });
    assert!(snapshot.older_at_start.contains(&"signal:1".to_string()));
    snapshot.apply_now(AdapterEvent::Account {
        protocol: ProtocolId::Signal,
        state: AccountState::Unlinked,
    });
    assert!(snapshot.older_at_start.contains(&"signal:1".to_string()));
    for state in [AccountState::Linking, AccountState::Unlinked] {
        snapshot.apply_now(AdapterEvent::Account {
            protocol: ProtocolId::Telegram,
            state,
        });
    }
    assert!(!snapshot.older_at_start.contains(&"signal:1".to_string()));
}

#[test]
fn a_waiting_anchor_goes_with_the_telegram_session_only() {
    let mut snapshot = signal_with_an_older_load();
    signal_page(&mut snapshot, true);
    assert!(!snapshot.older_can_ask(NOW), "nothing older came");
    snapshot.apply_now(AdapterEvent::Account {
        protocol: ProtocolId::Signal,
        state: AccountState::Unlinked,
    });
    assert!(snapshot.older_retry.contains_key(&"signal:1".to_string()));
    for state in [AccountState::Linking, AccountState::Unlinked] {
        snapshot.apply_now(AdapterEvent::Account {
            protocol: ProtocolId::Telegram,
            state,
        });
    }
    assert!(!snapshot.older_retry.contains_key(&"signal:1".to_string()));
}

#[test]
fn the_load_of_a_removed_signal_chat_runs_on() {
    let mut snapshot = signal_with_an_older_load();
    snapshot.apply_now(AdapterEvent::ConversationRemoved {
        protocol: ProtocolId::Signal,
        id: "signal:1".into(),
    });
    assert_eq!(
        snapshot.loading_line(ProtocolId::Signal),
        Some(LOADING_OLDER_STATUS)
    );
    signal_page(&mut snapshot, true);
    assert_eq!(snapshot.loading_line(ProtocolId::Signal), None);
}

#[test]
fn an_error_of_its_protocol_ends_an_older_load() {
    let mut snapshot = signal_with_an_older_load();
    snapshot.apply_now(AdapterEvent::Status {
        protocol: ProtocolId::Telegram,
        status: AdapterStatus::Error,
        detail: "no network".into(),
    });
    assert!(snapshot.loading_line(ProtocolId::Signal).is_some());
    snapshot.apply_now(AdapterEvent::Status {
        protocol: ProtocolId::Signal,
        status: AdapterStatus::Error,
        detail: "no network".into(),
    });
    assert_eq!(snapshot.loading_line(ProtocolId::Signal), None);
}

#[test]
fn a_late_accept_takes_its_unchanged_text_only() {
    let mut store = SecretStore::memory();
    let mut snapshot = ready_with_chats(&mut store);
    let (ada, bob) = two_expired_sends(&mut snapshot);
    snapshot.compose = "to bob, changed".into();
    answer_in(&mut snapshot, "telegram:1", ada, true);
    assert_eq!(
        snapshot.compose, "to bob, changed",
        "the text of another chat stays"
    );
    answer_in(&mut snapshot, "telegram:2", bob, true);
    assert_eq!(snapshot.compose, "to bob, changed", "a changed text stays");
    assert_eq!(snapshot.error, None, "the last timeout is settled");
    snapshot.select_conversation("telegram:1".into());
    assert_eq!(snapshot.compose, "", "the unchanged text is gone");
}

#[test]
fn a_pairing_needs_open_and_accept_with_no_cancel_since() {
    let mut snapshot = whatsapp_shell();
    let mut phone = WhatsAppPhoneVault::new();
    let begins = |snapshot: &mut Snapshot| {
        snapshot
            .take_commands()
            .into_iter()
            .filter_map(|command| match command {
                AdapterCommand::WhatsAppBeginLink { generation } => Some(generation),
                _ => None,
            })
            .collect::<Vec<u64>>()
    };
    snapshot.acknowledge_whatsapp_risk();
    snapshot.begin_whatsapp_link(&mut phone);
    assert!(begins(&mut snapshot).is_empty(), "nothing was asked");

    snapshot.open_whatsapp_risk_gate();
    snapshot.begin_whatsapp_link(&mut phone);
    assert!(begins(&mut snapshot).is_empty(), "nothing was accepted");

    snapshot.acknowledge_whatsapp_risk();
    assert!(snapshot.may_pair_whatsapp());
    snapshot.cancel_whatsapp_link(&mut phone);
    snapshot.begin_whatsapp_link(&mut phone);
    assert!(begins(&mut snapshot).is_empty(), "cancelled since");

    snapshot.open_whatsapp_risk_gate();
    snapshot.acknowledge_whatsapp_risk();
    snapshot.whatsapp_phone = " +15550100 ".into();
    snapshot.begin_whatsapp_link(&mut phone);
    let first = begins(&mut snapshot);
    assert_eq!(first.len(), 1);
    assert_eq!(snapshot.whatsapp_phone, "");
    snapshot.begin_whatsapp_link(&mut phone);
    assert!(begins(&mut snapshot).is_empty(), "it runs already");

    snapshot.open_whatsapp_risk_gate();
    snapshot.acknowledge_whatsapp_risk();
    snapshot.begin_whatsapp_link(&mut phone);
    assert!(begins(&mut snapshot)[0] > first[0], "a larger number");
}

#[test]
fn the_link_state_decides_the_session() {
    let mut store = SecretStore::memory();
    let mut snapshot = ready_with_chats(&mut store);
    snapshot.compose = "hello".into();
    assert!(snapshot.can_send());
    snapshot.apply_now(AdapterEvent::Account {
        protocol: ProtocolId::Telegram,
        state: AccountState::Linking,
    });
    assert!(snapshot.has_session(ProtocolId::Telegram));
    assert!(!snapshot.can_send(), "not before it is linked");
    assert_eq!(snapshot.compose, "hello");
    snapshot.apply_now(AdapterEvent::Account {
        protocol: ProtocolId::Telegram,
        state: AccountState::Linked,
    });
    assert!(snapshot.has_session(ProtocolId::Telegram));
    assert!(snapshot.can_send());
    snapshot.apply_now(AdapterEvent::Account {
        protocol: ProtocolId::Telegram,
        state: AccountState::Unlinked,
    });
    assert!(!snapshot.has_session(ProtocolId::Telegram));
    assert!(!snapshot.can_send());
}
