//! What each user action, each event, and each hand-over of the core does.

use crate::app_core::{CoreModel, Effects, shutdowns};
use crate::intent::{AuthField, DiscordIntent, Intent, SlackIntent, TelegramIntent, WhatsAppIntent};
use crate::protocol::{AdapterEvent, Build, CommandModel, ProtocolId, Text, catalog_order};
use crate::secret_text::SecretText;
use crate::secrets::{AttachPhase, Hydrate, StoreModel};
use crate::settings::{SettingsModel, rendered};
use crate::state::model::SnapshotModel;
use crate::state::{AuthKey, InboxFilter, Mark};
use crate::theme::ThemeMode;
use vstd::prelude::*;
use vstd::string::*;

verus! {

/// Each action in the inbox changes the state by the rule of its name, and
/// nothing else of the core.
pub proof fn law_inbox_actions_do_what_they_name(
    core: CoreModel,
    protocol: ProtocolId,
    id: String,
    delta: i32,
    filter: InboxFilter,
    text: SecretText,
    now: u64,
)
    ensures
        core.handled(Intent::SelectProtocol(protocol), now) == (CoreModel {
            state: core.state.selecting_protocol(protocol),
            ..core
        }),
        core.handled(Intent::SelectConversation { id }, now) == (CoreModel {
            state: core.state.picking(id@),
            ..core
        }),
        core.handled(Intent::MoveInbox { delta }, now) == (CoreModel {
            state: core.state.moving(delta as int),
            ..core
        }),
        core.handled(Intent::FocusInbox { id }, now) == (CoreModel {
            state: core.state.focusing(id@),
            ..core
        }),
        core.handled(Intent::SetFilter(filter), now) == (CoreModel {
            state: core.state.filtering(filter),
            ..core
        }),
        core.handled(Intent::SetSearch(text), now) == (CoreModel {
            state: core.state.searching(text.value()),
            ..core
        }),
        core.handled(Intent::Refresh, now) == (CoreModel { state: core.state.refreshed(), ..core }),
        core.handled(Intent::DismissError, now) == (CoreModel {
            state: SnapshotModel { error: None, ..core.state },
            ..core
        }),
        core.handled(Intent::RetryKeychain, now) == (CoreModel {
            state: core.state.retrying_keychain(),
            ..core
        }),
        core.handled(Intent::Discord(DiscordIntent::Connect), now) == (CoreModel {
            state: core.state.connecting(ProtocolId::Discord),
            ..core
        }),
        core.handled(Intent::Slack(SlackIntent::Connect), now) == (CoreModel {
            state: core.state.connecting(ProtocolId::Slack),
            ..core
        }),
{
    reveal(CoreModel::handled);
    reveal(SnapshotModel::without_error);
}

/// Text and sends name their chat: typed text goes to the chat it names, and a
/// send or a page of older messages runs for the selected chat only.
pub proof fn law_chat_actions_name_their_chat(
    core: CoreModel,
    protocol: ProtocolId,
    conversation_id: String,
    text: SecretText,
    now: u64,
)
    ensures
        core.handled(Intent::SetDraft { protocol, conversation_id, text }, now) == (CoreModel {
            state: core.state.drafting((protocol, conversation_id@), text.value()),
            ..core
        }),
        core.handled(Intent::SendDraft { protocol, conversation_id }, now) == (CoreModel {
            state: if core.state.selected_protocol == protocol && core.state.selected_conversation
                == Some(conversation_id@) {
                core.state.sending(now)
            } else {
                core.state
            },
            ..core
        }),
        core.handled(Intent::LoadOlderMessages { protocol, conversation_id }, now) == (CoreModel {
            state: if core.state.selected_protocol == protocol && core.state.selected_conversation
                == Some(conversation_id@) {
                core.state.loading_older(now)
            } else {
                core.state
            },
            ..core
        }),
        core.handled(Intent::Retry { message_id: conversation_id }, now) == (CoreModel {
            state: core.state.retrying(conversation_id@, now),
            ..core
        }),
{
    reveal(CoreModel::handled);
}

/// A theme choice stands in the settings, waits to be written, and changes
/// nothing else.
pub proof fn law_theme_choice_stands_in_the_settings(core: CoreModel, theme: ThemeMode, now: u64)
    ensures
        ({
            let next = core.handled(Intent::SetTheme(theme), now);
            &&& next.settings.theme == theme
            &&& next.settings.path == core.settings.path
            &&& next.settings.epoch == core.settings.epoch
            &&& next.settings.in_memory == core.settings.in_memory
            &&& core.settings.theme != theme ==> next.settings.pending
            &&& core.settings.theme == theme ==> next.settings == core.settings
            &&& next == (CoreModel { settings: next.settings, ..core })
        }),
{
    reveal(CoreModel::handled);
}

/// Each login action changes the state, and the store where it writes, by the
/// rule of its name.
pub proof fn law_login_actions_do_what_they_name(
    core: CoreModel,
    field: AuthField,
    text: SecretText,
    key: AuthKey,
    now: u64,
)
    ensures
        core.handled(Intent::Key(key), now) == (CoreModel {
            state: core.state.screen_key(key, core.secrets),
            secrets: core.state.store_screen_key(key, core.secrets),
            ..core
        }),
        core.handled(Intent::Telegram(TelegramIntent::AddAccount), now) == (CoreModel {
            state: core.state.adding_account(core.secrets),
            secrets: core.state.store_adding_account(core.secrets),
            ..core
        }),
        core.handled(Intent::Telegram(TelegramIntent::OpenApiOverride), now) == (CoreModel {
            state: core.state.opening_override(core.secrets),
            ..core
        }),
        core.handled(Intent::Telegram(TelegramIntent::SetField(field, text)), now) == (CoreModel {
            state: core.state.with_field(field, text.value()),
            ..core
        }),
        core.handled(Intent::Telegram(TelegramIntent::Submit), now) == (CoreModel {
            state: core.state.advancing(),
            secrets: core.state.store_advancing(core.secrets),
            ..core
        }),
        core.handled(Intent::Telegram(TelegramIntent::ChangeNumber), now) == (CoreModel {
            state: core.state.changing_number(),
            ..core
        }),
        core.handled(Intent::Telegram(TelegramIntent::ResendCode), now) == (CoreModel {
            state: core.state.resending_code(),
            ..core
        }),
        ({
            let next = core.handled(Intent::Telegram(TelegramIntent::Cancel), now);
            &&& next == (CoreModel {
                state: core.state.cancelling(),
                secrets: next.secrets,
                ..core
            })
            &&& next.secrets == core.secrets.without_ephemeral()
        }),
{
    reveal(CoreModel::handled);
    reveal(CoreModel::telegram);
}

/// In a build with the WhatsApp part, each pairing action changes the state by
/// the rule of its name. A typed phone stands in its field as it was typed, and
/// leaves the core when the pairing is closed or cancelled. Without the part
/// nothing happens.
pub proof fn law_pairing_actions_do_what_they_name(
    core: CoreModel,
    text: SecretText,
    action: WhatsAppIntent,
    now: u64,
)
    ensures
        !core.state.build.whatsapp_web ==> core.handled(Intent::WhatsApp(action), now) == core,
        core.state.build.whatsapp_web ==> {
            &&& core.handled(Intent::WhatsApp(WhatsAppIntent::OpenRiskGate), now) == (CoreModel {
                state: core.state.opening_whatsapp_gate(),
                ..core
            })
            &&& core.handled(Intent::WhatsApp(WhatsAppIntent::AcknowledgeRisk), now) == (
            CoreModel { state: core.state.accepting_whatsapp_risk(), ..core })
            &&& core.handled(Intent::WhatsApp(WhatsAppIntent::SetPhone(text)), now) == (
            CoreModel {
                state: SnapshotModel { whatsapp_phone: text.value(), ..core.state },
                ..core
            })
            &&& core.handled(Intent::WhatsApp(WhatsAppIntent::BeginLink), now) == (CoreModel {
                state: core.state.pairing_whatsapp(),
                phone: core.state.phone_after_pairing(core.phone),
                ..core
            })
            &&& core.handled(Intent::WhatsApp(WhatsAppIntent::CloseGate), now) == (CoreModel {
                state: core.state.closing_whatsapp_gate(),
                phone: None,
                ..core
            })
            &&& core.handled(Intent::WhatsApp(WhatsAppIntent::CancelLink), now) == (CoreModel {
                state: core.state.cancelling_whatsapp(),
                phone: None,
                ..core
            })
        },
{
    reveal(CoreModel::handled);
    reveal(CoreModel::whatsapp);
}

/// A shutdown gives every protocol one command, says so in the status line, and
/// happens once.
pub proof fn law_shutdown_closes_every_protocol(core: CoreModel, protocol: ProtocolId, now: u64)
    ensures
        core.closing ==> core.handled(Intent::Shutdown, now) == core,
        !core.closing ==> {
            let next = core.handled(Intent::Shutdown, now);
            &&& next.closing
            &&& next.outbox.contains(CommandModel::Shutdown { protocol })
            &&& next.outbox.len() == core.outbox.len() + 5
            &&& next.outbox.take(core.outbox.len() as int) == core.outbox
            &&& next.state.status_text == "Closing…"@
            &&& next.settings == core.settings && next.secrets == core.secrets
            &&& next.login_epoch == core.login_epoch
        },
{
    reveal(CoreModel::handled);
    reveal(CoreModel::shutting_down);
    if !core.closing {
        crate::app_core::law_shutdown_reaches_every_adapter(core);
        let open = CoreModel { closing: true, ..core };
        crate::app_core::lemma_sent_all_frame(open, shutdowns());
        crate::app_core::lemma_plain_commands(open, shutdowns());
        crate::protocol::law_catalog_names_every_protocol(protocol);
        let order = catalog_order();
        let i = choose|i: int| 0 <= i < order.len() && order[i] == protocol;
        let next = core.shutting_down();
        assert(shutdowns()[i] == (CommandModel::Shutdown { protocol }));
        assert(next.outbox[core.outbox.len() + i] == shutdowns()[i]);
        assert(next.outbox.take(core.outbox.len() as int) =~= core.outbox);
    }
}

/// After an action the adapters are told which chat is on screen, and nothing
/// else follows it.
pub proof fn law_action_is_followed_by_the_viewed_chat(core: CoreModel, intent: Intent, now: u64)
    ensures
        core.dispatched(intent, now) == (CoreModel {
            state: core.handled(intent, now).state.syncing_viewed(),
            ..core.handled(intent, now)
        }),
{
}

/// An event of an adapter changes the state by the rule of its kind. A login
/// event does so only when it comes from the client that runs.
pub proof fn law_event_reaches_the_state(
    core: CoreModel,
    event: AdapterEvent,
    inner: AdapterEvent,
    epoch: u64,
    now: u64,
)
    requires
        !(event is Login),
    ensures
        core.accepting(event, now) == (CoreModel { state: core.state.applied(event, now), ..core }),
        epoch == core.login_epoch ==> core.accepting(
            AdapterEvent::Login { epoch, event: Box::new(inner) },
            now,
        ) == (CoreModel { state: core.state.applied(inner, now), ..core }),
        epoch != core.login_epoch ==> core.accepting(
            AdapterEvent::Login { epoch, event: Box::new(inner) },
            now,
        ) == core,
{
}

/// Events are taken one by one, from the first to the last.
pub proof fn law_events_come_in_order(
    core: CoreModel,
    first: Seq<AdapterEvent>,
    second: Seq<AdapterEvent>,
    now: u64,
)
    ensures
        core.accepting_all(Seq::empty(), now) == core,
        core.accepting_all(first + second, now) == core.accepting_all(first, now).accepting_all(
            second,
            now,
        ),
        second.len() == 1 ==> core.accepting_all(second, now) == core.accepting(second[0], now),
    decreases second.len(),
{
    reveal_with_fuel(CoreModel::accepting_all, 3);
    if second.len() == 0 {
        assert(first + second =~= first);
    } else {
        law_events_come_in_order(core, first, second.drop_last(), now);
        assert((first + second).drop_last() =~= first + second.drop_last());
        assert((first + second).last() == second.last());
        if second.len() == 1 {
            assert(second.drop_last() =~= Seq::empty());
        }
    }
}

/// A frame polls the keychain, lets late sends expire, and tells the adapters
/// which chat is on screen, in this order. It changes nothing but the state.
pub proof fn law_frame_checks_the_time(core: CoreModel, now: u64)
    ensures
        core.checked(now) == (CoreModel {
            state: core.state.polling(core.secrets, now).expiring(now).syncing_viewed(),
            ..core
        }),
{
    reveal(CoreModel::checked);
}

/// One command as it goes out: the command itself; a login step names the client
/// that runs. A Telegram disconnect ends that client, so the next step names
/// another one.
pub proof fn law_command_goes_out_as_it_is(core: CoreModel, command: CommandModel)
    ensures
        ({
            let next = core.sent(command);
            &&& next.outbox.len() == core.outbox.len() + 1
            &&& next.outbox.drop_last() == core.outbox
            &&& !(command is TelegramAuth) ==> next.outbox.last() == command
            &&& command is TelegramAuth ==> next.outbox.last() == (CommandModel::TelegramAuth {
                step: command->TelegramAuth_step,
                epoch: core.login_epoch,
            })
            &&& command == (CommandModel::Disconnect { protocol: ProtocolId::Telegram })
                ==> next.login_epoch != core.login_epoch
            &&& command == (CommandModel::Disconnect { protocol: ProtocolId::Telegram })
                && core.login_epoch < u64::MAX ==> next.login_epoch == core.login_epoch + 1
            &&& command != (CommandModel::Disconnect { protocol: ProtocolId::Telegram })
                ==> next.login_epoch == core.login_epoch
            &&& next == (CoreModel {
                outbox: next.outbox,
                login_epoch: next.login_epoch,
                ..core
            })
        }),
{
    assert(core.sent(command).outbox.drop_last() =~= core.outbox);
}

/// A command of this kind goes out under any client as it is.
pub open spec fn goes_out_plain(command: CommandModel) -> bool {
    !(command is TelegramAuth)
}

proof fn lemma_sent_in_order(core: CoreModel, commands: Seq<CommandModel>, i: int)
    ensures
        core.sent_all(commands).outbox.len() == core.outbox.len() + commands.len(),
        core.sent_all(commands).outbox.take(core.outbox.len() as int) == core.outbox,
        0 <= i < commands.len() && goes_out_plain(commands[i]) ==> core.sent_all(commands).outbox[
        core.outbox.len() + i] == commands[i],
        0 <= i < commands.len() && !goes_out_plain(commands[i]) ==> core.sent_all(commands).outbox[
        core.outbox.len() + i] is TelegramAuth && core.sent_all(commands).outbox[core.outbox.len()
            + i]->TelegramAuth_step == commands[i]->TelegramAuth_step,
    decreases commands.len(),
{
    if commands.len() == 0 {
        assert(core.outbox.take(core.outbox.len() as int) =~= core.outbox);
    } else {
        let front = commands.drop_last();
        lemma_sent_in_order(core, front, i);
        let before = core.sent_all(front).outbox;
        let after = core.sent_all(commands).outbox;
        assert(after.take(core.outbox.len() as int) =~= before.take(core.outbox.len() as int));
        if 0 <= i < front.len() {
            assert(after[core.outbox.len() + i] == before[core.outbox.len() + i]);
        }
    }
}

/// Every command that the state queued goes out once, in its order, behind what
/// waits already. Only the login steps get a client number on their way.
pub proof fn law_queued_commands_go_out_in_order(core: CoreModel, i: int)
    requires
        !core.closing,
    ensures
        ({
            let out = core.commands_out().outbox;
            let queued = core.state.pending;
            &&& out.len() == core.outbox.len() + queued.len()
            &&& out.take(core.outbox.len() as int) == core.outbox
            &&& 0 <= i < queued.len() && goes_out_plain(queued[i]) ==> out[core.outbox.len() + i]
                == queued[i]
            &&& 0 <= i < queued.len() && !goes_out_plain(queued[i]) ==> out[core.outbox.len() + i]
                is TelegramAuth && out[core.outbox.len() + i]->TelegramAuth_step
                == queued[i]->TelegramAuth_step
            &&& core.commands_out().state == (SnapshotModel {
                pending: Seq::empty(),
                ..core.state
            })
        }),
{
    reveal(CoreModel::commands_out);
    let quiet = core.with_state(SnapshotModel { pending: Seq::empty(), ..core.state });
    lemma_sent_in_order(quiet, core.state.pending, i);
    crate::app_core::lemma_commands_out_frame(core);
}

/// The keychain work that the state asked for is done once: a flush is asked of
/// the store, and Try again leaves a failed read.
pub proof fn law_keychain_work_is_handed_on(core: CoreModel)
    ensures
        ({
            let next = core.keychain_asked();
            let flush = core.state.marks.contains(Mark::KeychainFlush);
            let again = core.state.marks.contains(Mark::KeychainRetry);
            &&& !flush && !again ==> next.secrets == core.secrets
            &&& next.secrets.values == core.secrets.values
            &&& next.secrets.dirty == core.secrets.dirty
            &&& flush && core.secrets.phase == AttachPhase::Ready ==> next.secrets.flush_in_flight
            &&& flush && core.secrets.phase == AttachPhase::Ready && core.secrets.flush_in_flight
                ==> next.secrets.flush_pending
            &&& again && core.secrets.phase == AttachPhase::ReadFailed ==> next.secrets.phase
                == AttachPhase::Attaching
            &&& !(again && core.secrets.phase == AttachPhase::ReadFailed) ==> next.secrets.phase
                == core.secrets.phase
            &&& forall|mark: Mark|
                mark != Mark::KeychainFlush && mark != Mark::KeychainRetry
                    ==> #[trigger] next.state.marks.contains(mark) == core.state.marks.contains(
                    mark,
                )
        }),
{
    reveal(CoreModel::keychain_asked);
}

/// What a call hands out: every command that waits, a keychain write when one is
/// asked for and none runs, a keychain read when Try again asked for it, and the
/// settings when their theme changed and they live in a file.
pub proof fn law_effects_say_what_waits(core: CoreModel, effects: Effects)
    requires
        core.hands_out(effects),
    ensures
        effects.commands.deep_view() == core.commands_out().outbox,
        effects.flush_keychain <==> core.state.marks.contains(Mark::KeychainFlush)
            && core.secrets.phase == AttachPhase::Ready && !core.secrets.flush_in_flight,
        effects.read_keychain <==> core.state.marks.contains(Mark::KeychainRetry),
        effects.persist.is_some() <==> core.settings.owes_write(),
        effects.persist.is_some() ==> effects.persist.unwrap().path_of() == core.settings.path
            && effects.persist.unwrap().contents_of() == rendered(core.settings.theme),
{
}

/// A hand-over changes nothing that a user sees: the state keeps everything but
/// its queue and the keychain marks, and the settings keep their theme.
pub proof fn law_hand_over_keeps_the_view(core: CoreModel)
    ensures
        ({
            let next = core.flushed();
            &&& next.state == (SnapshotModel {
                pending: Seq::empty(),
                marks: next.state.marks,
                ..core.state
            })
            &&& next.settings.theme == core.settings.theme
            &&& next.settings.path == core.settings.path
            &&& next.closing == core.closing && next.phone == core.phone
            &&& next.secrets.values == core.secrets.values
            &&& next.secrets.discord_bot_token == core.secrets.discord_bot_token
            &&& next.secrets.slack == core.secrets.slack
        }),
{
    reveal(CoreModel::flushed);
    reveal(CoreModel::keychain_asked);
    crate::app_core::lemma_commands_out_frame(core);
    crate::app_core::lemma_keychain_asked_frame(core.commands_out());
}

/// A core starts open, with nothing queued and with the first status line. With
/// the Discord part a saved token connects at once; a token that is still to be
/// read is waited for.
pub proof fn law_core_starts_quiet(
    settings: SettingsModel,
    secrets: StoreModel,
    build: Build,
    api_source: Option<(Text, Text)>,
)
    ensures
        ({
            let core = CoreModel::started(settings, secrets, build, api_source);
            &&& !core.closing && core.phone.is_none() && core.login_epoch == 0
            &&& core.settings == settings
            &&& core.state.status_text == "Sign in with Telegram to get started."@
            &&& core.secrets.values == secrets.values
            &&& !build.discord_bot ==> core.outbox.len() == 0 && core.secrets == secrets
            &&& build.discord_bot && secrets.discord_hydrate == (Hydrate::Settled { notify: true })
                && secrets.discord_bot_token.is_some() ==> core.outbox == seq![
                CommandModel::Connect { protocol: ProtocolId::Discord },
            ]
            &&& build.discord_bot && secrets.discord_hydrate is Waiting ==> core.outbox.len() == 0
                && core.secrets.discord_hydrate == (Hydrate::Waiting { waiter: true })
            &&& secrets.discord_bot_token.is_none() ==> core.outbox.len() == 0
        }),
{
    assert(Seq::<CommandModel>::empty().push(
        CommandModel::Connect { protocol: ProtocolId::Discord },
    ) =~= seq![CommandModel::Connect { protocol: ProtocolId::Discord }]);
}

} // verus!
