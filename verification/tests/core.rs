//! The core: intents, effects, and demo scenarios.

use thinwire_core::app_core::{
    CLOSING_STATUS, Core, CoreConfig, Effects, refreshed_secret_store_status,
    secret_store_status_text, watch_ends,
};
use thinwire_core::clock::{Clock, ViewNow};
use thinwire_core::demo::{self, Scenario};
use thinwire_core::intent::{
    AuthField, DiscordIntent, Intent, SlackIntent, TelegramIntent, WhatsAppIntent,
};
use thinwire_core::protocol::{
    AdapterCommand, AdapterEvent, Build, Conversation, Delivery, ProtocolId, TelegramApiSource,
    TelegramAuthPhase, TelegramAuthStep, catalog,
};
use thinwire_core::secret_text::SecretText;
use thinwire_core::secrets::{AttachPhase, Persistence, SecretKey, SecretStore};
use thinwire_core::settings::Settings;
use thinwire_core::signal::change_channel;
use thinwire_core::stage::answers;
use thinwire_core::state::{AuthKey, AuthScreen, CenterView, InboxFilter, OlderState};
use thinwire_core::theme::ThemeMode;

const NOW: u64 = 1_000_000;

fn core_of(build: Build) -> Core {
    let config = CoreConfig::new(Settings::in_memory()).with_memory_secrets();
    Core::new(config, false, build, TelegramApiSource::empty())
}

fn memory_core() -> Core {
    core_of(Build::default())
}

fn store_core(secrets: SecretStore) -> Core {
    let config = CoreConfig::new(Settings::in_memory());
    Core::with_store(config, secrets, Build::default(), TelegramApiSource::empty())
}

fn typed(text: &str) -> SecretText {
    SecretText::new(text)
}

fn select(id: &str) -> Intent {
    Intent::SelectConversation { id: id.into() }
}

fn draft(id: &str, text: &str) -> Intent {
    Intent::SetDraft {
        protocol: ProtocolId::Telegram,
        conversation_id: id.into(),
        text: typed(text),
    }
}

fn send(id: &str) -> Intent {
    Intent::SendDraft {
        protocol: ProtocolId::Telegram,
        conversation_id: id.into(),
    }
}

fn chat(id: &str, order: i64) -> Conversation {
    Conversation {
        protocol: ProtocolId::Telegram,
        id: id.into(),
        title: id.into(),
        participant: id.into(),
        preview: String::new(),
        unread: 0,
        order,
        last_at: 0,
        is_group: false,
        writable: true,
        muted: false,
        placeholder: false,
    }
}

/// Telegram signed in, with two chats.
fn ready_core() -> Core {
    let mut core = memory_core();
    let (applied, _) = core.pump(
        vec![
            AdapterEvent::TelegramAuth {
                phase: TelegramAuthPhase::Ready,
            },
            AdapterEvent::ConversationUpsert {
                conversation: chat("telegram:1", 10),
            },
            AdapterEvent::ConversationUpsert {
                conversation: chat("telegram:2", 5),
            },
        ],
        NOW,
    );
    assert!(applied);
    core
}

fn sends(effects: &Effects) -> Vec<String> {
    effects
        .commands
        .iter()
        .filter_map(|command| match command {
            AdapterCommand::SendText {
                conversation_id, ..
            } => Some(conversation_id.clone()),
            _ => None,
        })
        .collect()
}

#[test]
fn secret_store_status_stays_calm_across_backend_attach() {
    let current = secret_store_status_text("memory");
    assert_eq!(current, "Sign in with Telegram to get started.");
    assert_eq!(refreshed_secret_store_status(&current, "os-keychain"), None);
}

#[test]
fn secret_store_status_does_not_clobber_auth_copy() {
    assert_eq!(
        refreshed_secret_store_status("Telegram: enter a phone number.", "os-keychain"),
        None
    );
}

#[test]
fn keychain_retry_starts_a_fresh_watch() {
    let mut secrets = SecretStore::blank(AttachPhase::Detached);
    secrets.finish_read_failed();
    let mut core = store_core(secrets);
    assert!(core.secrets.read_failed());
    let effects = core.dispatch(Intent::RetryKeychain, NOW);
    assert!(effects.read_keychain, "a new read and a new watch");
    assert!(
        !core.secrets.read_failed(),
        "the phase leaves the failure before the watch"
    );
    let effects = core.dispatch(Intent::Refresh, NOW);
    assert!(!effects.read_keychain, "once per retry");
}

#[test]
fn dispatch_changes_the_view_and_fires_the_signal() {
    let mut core = memory_core();
    let (notifier, mut signal) = change_channel();
    signal.mark_seen();
    let effects = core.dispatch(Intent::SetSearch(typed("alice")), NOW);
    if effects.wake {
        notifier.notify();
    }
    assert!(signal.has_changed());
    assert_eq!(core.state.search, "alice");
    core.state.selected_conversation = Some("telegram:1".into());
    core.dispatch(draft("telegram:1", "hello"), NOW);
    assert_eq!(core.state.compose, "hello");
    core.dispatch(Intent::SetTheme(ThemeMode::Dark), NOW);
    assert_eq!(core.view_at(Clock::System).theme(), ThemeMode::Dark);
}

#[test]
fn typed_login_fields_stay_in_the_state_and_off_debug() {
    let mut core = memory_core();
    core.state.auth = AuthScreen::TelegramPhone;
    core.dispatch(
        Intent::Telegram(TelegramIntent::SetField(AuthField::Phone, typed("+15550100"))),
        NOW,
    );
    assert_eq!(core.state.telegram_phone, "+15550100");
    assert!(!format!("{:?}", core.state.facts()).contains("5550100"));
    let shown =
        Intent::Telegram(TelegramIntent::SetField(AuthField::Phone, typed("+15550100")))
            .debug_text();
    assert!(!shown.contains("5550100"));
}

#[test]
fn shutdown_reports_stopped_and_drops_later_commands() {
    let mut core = memory_core();
    core.dispatch(Intent::Shutdown, NOW);
    assert_eq!(core.state.status_text, CLOSING_STATUS);
    let effects = core.dispatch(Intent::Refresh, NOW);
    assert!(effects.commands.is_empty());
    assert_eq!(core.stop_verdict(NOW, NOW + 1), None);
    assert_eq!(core.stop_verdict(NOW, NOW), Some(false));
    let stopped = catalog()
        .into_iter()
        .map(|caps| AdapterEvent::Stopped { protocol: caps.id })
        .collect();
    core.pump(stopped, NOW);
    assert!(core.stopped());
    assert_eq!(core.stop_verdict(NOW, NOW), Some(true));
    assert!(core.closing);
}

#[test]
fn ready_attach_sets_the_backend_under_the_same_lock() {
    let mut store = SecretStore::blank(AttachPhase::Detached);
    let _ = store.finish_ready(
        &Vec::new(),
        Some(thinwire_core::secrets::OsBackend::KernelKeyring),
    );
    assert!(store.attach_settled());
    assert_eq!(store.persistence(), Persistence::UntilRestart);
}

#[test]
fn a_field_edit_after_cancel_is_dropped() {
    let mut core = memory_core();
    core.state.auth = AuthScreen::TelegramPhone;
    let edit =
        |text: &str| Intent::Telegram(TelegramIntent::SetField(AuthField::Phone, typed(text)));
    core.dispatch(edit("+1555"), NOW);
    assert_eq!(core.state.telegram_phone, "+1555");
    core.dispatch(Intent::Telegram(TelegramIntent::Cancel), NOW);
    core.dispatch(edit("+15550"), NOW);
    assert_eq!(core.state.auth, AuthScreen::Idle);
    assert!(core.state.telegram_phone.is_empty());
}

#[test]
fn closing_drops_commands_from_later_intents() {
    let mut core = memory_core();
    let effects = core.dispatch(Intent::Discord(DiscordIntent::Connect), NOW);
    assert_eq!(
        effects.commands,
        vec![AdapterCommand::Connect {
            protocol: ProtocolId::Discord
        }],
        "before close, a command reaches the host"
    );
    let effects = core.dispatch(Intent::Shutdown, NOW);
    let expected: Vec<AdapterCommand> = catalog()
        .into_iter()
        .map(|caps| AdapterCommand::Shutdown { protocol: caps.id })
        .collect();
    assert_eq!(effects.commands, expected, "one Shutdown per adapter");
    for intent in [
        Intent::Refresh,
        Intent::Slack(SlackIntent::Connect),
        Intent::Shutdown,
    ] {
        assert!(core.dispatch(intent, NOW).commands.is_empty());
    }
    let (_, effects) = core.pump(Vec::new(), NOW);
    assert!(
        effects.commands.is_empty(),
        "no command reaches the host while closing"
    );
}

#[test]
fn whatsapp_intents_without_the_gate_reach_no_adapter() {
    for on in [false, true] {
        let mut core = core_of(Build {
            whatsapp_web: on,
            ..Build::default()
        });
        for intent in [
            WhatsAppIntent::AcknowledgeRisk,
            WhatsAppIntent::SetPhone(typed("15550100")),
            WhatsAppIntent::BeginLink,
        ] {
            let effects = core.dispatch(Intent::WhatsApp(intent), NOW);
            assert!(
                effects.commands.is_empty(),
                "no pairing command without the risk screen"
            );
        }
        let mut got = Vec::new();
        for intent in [
            WhatsAppIntent::OpenRiskGate,
            WhatsAppIntent::AcknowledgeRisk,
            WhatsAppIntent::BeginLink,
        ] {
            got.extend(core.dispatch(Intent::WhatsApp(intent), NOW).commands);
        }
        if on {
            assert!(matches!(
                got.as_slice(),
                [
                    AdapterCommand::WhatsAppAcknowledgeRisk,
                    AdapterCommand::WhatsAppBeginLink { .. }
                ]
            ));
        } else {
            assert!(got.is_empty(), "part off: WhatsApp intents do nothing");
        }
    }
}

#[test]
fn cancel_drops_an_old_epoch_login_event_in_the_core() {
    let mut core = memory_core();
    let stamped = |epoch: u64, phase: TelegramAuthPhase| AdapterEvent::Login {
        epoch,
        event: Box::new(AdapterEvent::TelegramAuth { phase }),
    };
    // Queued by the old client before the user pressed Cancel.
    let queued = vec![stamped(0, TelegramAuthPhase::Ready)];
    core.dispatch(Intent::Telegram(TelegramIntent::Cancel), NOW);
    let (applied, _) = core.pump(queued, NOW);
    assert!(!applied);
    assert!(
        !core.state.telegram_authorized,
        "an old-epoch Ready must not sign in after Cancel"
    );
    // The next client runs under the bumped epoch: its events apply.
    core.pump(vec![stamped(1, TelegramAuthPhase::Ready)], NOW);
    assert!(core.state.telegram_authorized);
}

#[test]
fn a_login_step_names_its_client() {
    let mut core = memory_core();
    core.secrets.set(SecretKey::ApiId, "1").expect("id");
    core.secrets.set(SecretKey::ApiHash, "hash").expect("hash");
    core.dispatch(Intent::Telegram(TelegramIntent::Cancel), NOW);
    let effects = core.dispatch(Intent::Telegram(TelegramIntent::AddAccount), NOW);
    assert_eq!(
        effects.commands,
        vec![AdapterCommand::TelegramAuth {
            step: TelegramAuthStep::ApiCredentials,
            epoch: 1
        }]
    );
}

#[test]
fn a_same_frame_edit_and_select_keep_each_draft_in_its_chat() {
    let mut core = ready_core();
    core.dispatch(select("telegram:1"), NOW);
    // The same frame: click on chat 2, then the key typed in chat 1.
    core.dispatch(select("telegram:2"), NOW);
    core.dispatch(draft("telegram:1", "for Ada only"), NOW);
    assert_eq!(core.state.compose, "", "chat 2 gets no text from chat 1");
    core.dispatch(select("telegram:1"), NOW);
    assert_eq!(core.state.compose, "for Ada only", "chat 1 keeps its draft");
}

#[test]
fn a_send_for_another_chat_is_dropped() {
    let mut core = ready_core();
    core.dispatch(select("telegram:1"), NOW);
    core.dispatch(draft("telegram:1", "for Ada only"), NOW);
    core.dispatch(select("telegram:2"), NOW);
    let effects = core.dispatch(send("telegram:1"), NOW);
    assert!(
        sends(&effects).is_empty(),
        "no send after the selection moved"
    );
    // Back on chat 1, the same send goes to chat 1.
    core.dispatch(select("telegram:1"), NOW);
    let effects = core.dispatch(send("telegram:1"), NOW);
    assert_eq!(sends(&effects), vec!["telegram:1".to_owned()]);
    let effects = core.dispatch(send("telegram:1"), NOW);
    assert!(sends(&effects).is_empty(), "one send per chat");
}

#[test]
fn view_chat_goes_out_on_selection_and_not_after_shutdown() {
    let mut core = ready_core();
    let effects = core.dispatch(select("telegram:2"), NOW);
    let views: Vec<Option<String>> = effects
        .commands
        .into_iter()
        .filter_map(|command| match command {
            AdapterCommand::ViewChat {
                conversation_id, ..
            } => Some(conversation_id),
            _ => None,
        })
        .collect();
    assert_eq!(views, vec![Some("telegram:2".to_owned())]);
    core.dispatch(Intent::Shutdown, NOW);
    let effects = core.dispatch(select("telegram:1"), NOW);
    assert!(
        effects.commands.is_empty(),
        "no ViewChat while the clients close"
    );
}

#[test]
fn a_theme_change_writes_once() {
    let config = CoreConfig::load(Some("/config"), None);
    let mut core = Core::new(config, true, Build::default(), TelegramApiSource::empty());
    let effects = core.dispatch(Intent::SetTheme(ThemeMode::Light), NOW);
    let job = effects.persist.expect("write");
    let latest = job.epoch();
    let write = job.run(latest).expect("current");
    assert_eq!(write.path, "/config/thinwire/settings.toml");
    assert!(write.contents.contains("theme = light"));
    assert!(core.dispatch(Intent::Refresh, NOW).persist.is_none());
}

#[test]
fn discord_is_armed_once_a_token_is_in_memory() {
    let mut secrets = SecretStore::blank(AttachPhase::Detached);
    secrets.store_hydrated_discord_token(Ok(Some("fixture-bot-token".into())));
    secrets.signal_discord_hydrated();
    let build = Build {
        discord_bot: true,
        ..Build::default()
    };
    let config = CoreConfig::new(Settings::in_memory());
    let mut core = Core::with_store(config, secrets, build, TelegramApiSource::empty());
    let (_, effects) = core.pump(Vec::new(), NOW);
    assert_eq!(
        effects.commands,
        vec![AdapterCommand::Connect {
            protocol: ProtocolId::Discord
        }]
    );
}

#[test]
fn a_stored_override_flushes_the_keychain() {
    let mut core = store_core(SecretStore::blank(AttachPhase::Ready));
    core.dispatch(Intent::Telegram(TelegramIntent::OpenApiOverride), NOW);
    assert_eq!(core.state.auth, AuthScreen::TelegramApi);
    for (field, text) in [(AuthField::ApiId, "1"), (AuthField::ApiHash, "hash")] {
        core.dispatch(
            Intent::Telegram(TelegramIntent::SetField(field, typed(text))),
            NOW,
        );
    }
    let effects = core.dispatch(Intent::Telegram(TelegramIntent::Submit), NOW);
    assert!(effects.flush_keychain);
    assert!(core.view_at(Clock::System).has_api_credentials());
    assert!(!core.flush_keychain(), "one flush runs already");
}

#[test]
fn the_view_formats_from_its_clock() {
    let core = memory_core();
    let view = core.view_at(Clock::fixed_utc(demo::NOW));
    assert_eq!(
        view.now(1),
        ViewNow::Fixed {
            timestamp: demo::NOW,
            utc_offset_secs: 0
        }
    );
    assert_eq!(view.persistence(), Persistence::ThisSession);
    assert_eq!(view.state.center_view(), CenterView::FirstRun);
}

#[test]
fn every_scenario_has_a_unique_name() {
    let mut names: Vec<&str> = Scenario::ALL
        .iter()
        .map(|scenario| scenario.name())
        .collect();
    names.sort_unstable();
    names.dedup();
    assert_eq!(names.len(), Scenario::ALL.len());
    for scenario in Scenario::ALL {
        assert_eq!(Scenario::from_name(scenario.name()), Some(scenario));
    }
    assert_eq!(Scenario::from_name("no_such_screen"), None);
}

#[test]
fn every_scenario_has_an_adapter_per_protocol() {
    for scenario in Scenario::ALL {
        let setup = scenario.setup();
        let protocols: Vec<ProtocolId> =
            setup.scripts.iter().map(|script| script.protocol).collect();
        let all: Vec<ProtocolId> = catalog().iter().map(|caps| caps.id).collect();
        assert_eq!(protocols, all, "{}", scenario.name());
        assert_eq!(
            setup.keychain_failed,
            scenario == Scenario::KeychainTryAgain
        );
    }
    let several = Scenario::SeveralProtocols.setup();
    assert_eq!(several.visible, vec![ProtocolId::Slack]);
}

#[test]
fn the_long_chat_is_told_by_two_people() {
    let setup = Scenario::LongChat.setup();
    let chat = setup.scripts[0]
        .history
        .get(&demo::ADA.to_string())
        .expect("history");
    assert_eq!(chat.len(), demo::LONG_CHAT_MESSAGES);
    assert_eq!(chat[0].sender, "Ada");
    assert_eq!(chat[1].sender, "You");
    assert!(chat[1].outbound);
    assert_eq!(chat[0].id, "telegram:demo-ada:0");
    assert_eq!(chat[0].body, "Morning! Did the parcel arrive?");
    assert_eq!(
        chat[119].sent_at,
        demo::NOW - demo::HOUR - 20 * demo::MINUTE
    );
    let short = Scenario::LongChatStartOfChat.setup();
    assert_eq!(
        short.scripts[0]
            .history
            .get(&demo::ADA.to_string())
            .expect("history")
            .len(),
        demo::SHORT_HISTORY_MESSAGES
    );
    let slack = Scenario::SeveralProtocols.setup();
    let general = slack.scripts[1]
        .history
        .get(&demo::SLACK_GENERAL.to_string())
        .expect("history");
    assert_eq!(general[0].sender, "General");
    assert_eq!(general[0].protocol, ProtocolId::Slack);
}

fn build(scenario: Scenario) -> Core {
    scenario.build(Build::default(), NOW)
}

#[test]
fn a_demo_core_stops_every_adapter() {
    for scenario in [Scenario::FirstRun, Scenario::SeveralProtocols] {
        let mut core = build(scenario);
        let effects = core.dispatch(Intent::Shutdown, NOW);
        let scripts = scenario.setup().scripts;
        let events = answers(&scripts, &effects.commands);
        core.pump(events, NOW);
        assert!(core.stopped(), "{}: every adapter stops", scenario.name());
    }
}

#[test]
fn every_scenario_reaches_its_screen() {
    for scenario in Scenario::ALL {
        let core = build(scenario);
        let state = &core.state;
        let name = scenario.name();
        match scenario {
            Scenario::FirstRun => {
                assert!(!state.telegram_ready(), "{name}");
                assert!(state.visible_conversations().is_empty(), "{name}");
            }
            Scenario::KeychainTryAgain => {
                assert!(core.secrets.read_failed(), "{name}");
            }
            Scenario::EmptyInbox => {
                assert!(state.telegram_ready(), "{name}");
                assert!(state.visible_conversations().is_empty(), "{name}");
            }
            Scenario::LongChat | Scenario::SeveralProtocols => {
                assert_eq!(state.selected_messages().len(), demo::PAGE, "{name}");
            }
            Scenario::LongChatLoadingOlder => {
                assert_eq!(state.older_state(), OlderState::Loading, "{name}");
            }
            Scenario::LongChatStartOfChat => {
                assert_eq!(state.older_state(), OlderState::StartOfChat, "{name}");
                assert_eq!(
                    state.selected_messages().len(),
                    demo::SHORT_HISTORY_MESSAGES,
                    "{name}"
                );
            }
            Scenario::GroupChat => {
                assert_eq!(state.selected_messages().len(), 8, "{name}");
            }
            Scenario::FailedSend => {
                let last = state.selected_messages().last().expect("rows");
                assert_eq!(last.delivery, Delivery::Failed, "{name}");
                assert!(state.error.is_some(), "{name}");
            }
            Scenario::PendingSend => {
                let last = state.selected_messages().last().expect("rows");
                assert_eq!(last.delivery, Delivery::Pending, "{name}");
                assert!(!state.can_send(), "{name}: locked while it sends");
            }
            Scenario::LoginPhone => assert_eq!(state.auth, AuthScreen::TelegramPhone, "{name}"),
            Scenario::LoginCode => assert_eq!(state.auth, AuthScreen::TelegramCode, "{name}"),
            Scenario::Login2fa => assert_eq!(state.auth, AuthScreen::Telegram2fa, "{name}"),
            Scenario::LoginError => {
                assert_eq!(state.auth, AuthScreen::TelegramCode, "{name}");
                assert!(
                    state.error.is_some() || state.auth_rejection.is_some(),
                    "{name}"
                );
            }
            Scenario::StatusError => {
                assert!(state.status_line().contains("connection lost"), "{name}");
            }
            Scenario::StatusNotice => {
                assert!(state.notice(ProtocolId::Telegram).is_some(), "{name}");
            }
        }
        if scenario == Scenario::SeveralProtocols {
            assert!(state.shows_in_switcher(ProtocolId::Slack), "{name}");
        }
    }
}

#[test]
fn a_keychain_watch_ends_after_it_saw_the_end() {
    assert!(!watch_ends(false, true));
    assert!(watch_ends(true, true));
    assert!(watch_ends(false, false), "no core is left to wake");
}

#[test]
fn every_scenario_keeps_its_rows_in_order() {
    for scenario in Scenario::ALL {
        let core = build(scenario);
        let state = &core.state;
        let name = scenario.name();
        let mut protocols: Vec<ProtocolId> = state.accounts.iter().map(|row| row.caps.id).collect();
        protocols.dedup();
        assert_eq!(protocols.len(), catalog().len(), "{name}: one row per protocol");
        let chats = state.visible_conversations();
        for pair in chats.windows(2) {
            assert!(
                pair[0].order > pair[1].order
                    || (pair[0].order == pair[1].order && pair[0].id < pair[1].id),
                "{name}: the inbox is sorted and holds each chat once"
            );
        }
        for pair in state.selected_messages().windows(2) {
            assert!(pair[0].sent_at <= pair[1].sent_at, "{name}: the thread is sorted");
            assert_ne!(pair[0].id, pair[1].id, "{name}: each message once");
        }
    }
}

#[test]
fn a_sign_in_never_opens_on_the_api_form() {
    let mut core = memory_core();
    core.dispatch(Intent::Telegram(TelegramIntent::AddAccount), NOW);
    assert_eq!(core.state.auth, AuthScreen::NeedCredentials);
    let config = CoreConfig::new(Settings::in_memory()).with_memory_secrets();
    let api = TelegramApiSource::with_publisher("12345", "hash");
    let mut core = Core::new(config, false, Build::default(), api);
    core.dispatch(Intent::Telegram(TelegramIntent::AddAccount), NOW);
    assert_eq!(core.state.auth, AuthScreen::TelegramConnecting);
}

#[test]
fn debug_of_secret_intents_is_redacted() {
    let intents = [
        Intent::Telegram(TelegramIntent::SetField(
            AuthField::Code,
            SecretText::new("24680"),
        )),
        Intent::Telegram(TelegramIntent::SetField(
            AuthField::Password,
            SecretText::new("hunter2-fixture"),
        )),
        Intent::WhatsApp(WhatsAppIntent::SetPhone(SecretText::new("+15550100"))),
        Intent::SetDraft {
            protocol: ProtocolId::Telegram,
            conversation_id: "telegram:1".into(),
            text: SecretText::new("draft-fixture-3b7"),
        },
        Intent::SetSearch(SecretText::new("search-fixture-6e5")),
    ];
    for intent in intents {
        let shown = intent.debug_text();
        for secret in [
            "24680",
            "hunter2-fixture",
            "5550100",
            "draft-fixture-3b7",
            "search-fixture-6e5",
        ] {
            assert!(!shown.contains(secret), "{shown}");
        }
    }
}

#[test]
fn a_log_names_the_chat_of_an_action() {
    assert_eq!(
        draft("telegram:1", "text").debug_text(),
        "SetDraft { protocol: Telegram, conversation_id: \"telegram:1\", \
         text: SecretText(<redacted>) }"
    );
    assert_eq!(
        Intent::SelectProtocol(ProtocolId::Slack).debug_text(),
        "SelectProtocol(Slack)"
    );
}

#[test]
fn a_log_shows_what_an_action_chose() {
    let cases = [
        (Intent::MoveInbox { delta: -1 }, "MoveInbox { delta: -1 }"),
        (Intent::SetFilter(InboxFilter::All), "SetFilter(All)"),
        (Intent::Key(AuthKey::Escape), "Key(Escape)"),
        (Intent::SetTheme(ThemeMode::Dark), "SetTheme(Dark)"),
        (select("a \"b\""), "SelectConversation { id: \"a \\\"b\\\"\" }"),
        (
            Intent::Retry { message_id: "telegram:1:2".into() },
            "Retry { message_id: \"telegram:1:2\" }",
        ),
        (
            send("telegram:1"),
            "SendDraft { protocol: Telegram, conversation_id: \"telegram:1\" }",
        ),
    ];
    for (intent, shown) in cases {
        assert_eq!(intent.debug_text(), shown);
    }
    assert_eq!(select("x").named_id(), "x");
    assert_eq!(select("x").debug_with("<id>"), "SelectConversation { id: <id> }");
}

#[test]
fn every_dispatch_wakes_and_a_pump_does_not() {
    let mut core = memory_core();
    assert!(core.dispatch(Intent::Refresh, NOW).wake);
    assert!(!core.pump(Vec::new(), NOW).1.wake);
    let effects = core.dispatch(Intent::Shutdown, NOW);
    assert!(effects.wake);
    assert_eq!(effects.commands.len(), catalog().len());
    for intent in [
        Intent::Shutdown,
        Intent::Refresh,
        Intent::Slack(SlackIntent::Connect),
        Intent::Discord(DiscordIntent::Connect),
    ] {
        let effects = core.dispatch(intent, NOW);
        assert!(effects.wake, "it wakes while it closes");
        assert!(effects.commands.is_empty(), "nothing after Shutdown");
        assert!(core.pump(Vec::new(), NOW).1.commands.is_empty());
    }
}

#[test]
fn an_action_that_sends_nothing_needs_no_number() {
    let mut core = memory_core();
    core.state.sends.next = u64::MAX;
    assert!(core.has_number(&Intent::Refresh));
    assert!(core.has_number(&send("telegram:1")), "no chat is open");
    core.dispatch(send("telegram:1"), NOW);
    assert_eq!(core.state.sends.next, u64::MAX);
}
