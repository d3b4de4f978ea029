//! The core: the state, the secret store, the settings, and what goes to the
//! adapters. A frontend owns one [`Core`].
//!
//! Every method works on memory only and says in its [`Effects`] what a host
//! does next: commands for the adapters, keychain work, a settings write, and
//! whether the frontends are woken.
//! So a frontend thread never waits on protocol or OS work.

use crate::intent::{AuthField, DiscordIntent, Intent, SlackIntent, TelegramIntent, WhatsAppIntent};
use crate::protocol::{
    AdapterCommand, AdapterEvent, Build, ChatId, CommandModel, ProtocolId, TelegramApiSource, Text,
    WhatsAppPhoneVault, catalog_order,
};
use crate::secrets::{AttachPhase, FlushAction, SecretStore, StoreModel};
use crate::settings::{PersistJob, Settings, SettingsModel, rendered};
use crate::state::model::SnapshotModel;
use crate::state::soundness::{
    RiskStage, law_every_event_keeps_the_state_sound, law_every_inbox_action_keeps_the_state_sound,
    law_every_login_action_keeps_the_state_sound, law_every_pairing_action_keeps_the_state_sound,
    law_every_send_keeps_the_state_sound, law_launch_is_sound,
    law_other_changes_keep_the_state_sound, law_risk_is_asked_then_accepted,
};
use crate::state::{AuthKey, Mark, Snapshot};
use vstd::prelude::*;
use vstd::string::*;

verus! {

/// Status line while the clients close.
pub const CLOSING_STATUS: &'static str = "Closing…";

/// First status line. The keychain backend does not change it.
pub const SECRET_STORE_STATUS: &'static str = "Sign in with Telegram to get started.";

/// The first status line of the shell.
pub fn secret_store_status_text(backend: &str) -> (r: String)
    ensures
        r@ == SECRET_STORE_STATUS@,
{
    let _ = backend;
    SECRET_STORE_STATUS.to_owned()
}

/// A new first status line after the backend changed, while the first one
/// still shows. Other status lines stay.
pub fn refreshed_secret_store_status(current: &str, backend: &str) -> (r: Option<String>)
    ensures
        r.is_none(),
{
    if current.to_owned() != SECRET_STORE_STATUS.to_owned() {
        return None;
    }
    let next = secret_store_status_text(backend);
    if current.to_owned() != next {
        Some(next)
    } else {
        None
    }
}

/// Whether a keychain watch ends. It looks first and wakes the frontends then,
/// so the last wake comes after the watch saw the end. It also ends when there
/// is no core to wake.
pub fn watch_ends(finished: bool, woke: bool) -> (r: bool)
    ensures
        r == (finished || !woke),
{
    finished || !woke
}

/// What a core starts with.
pub struct CoreConfig {
    pub settings: Settings,
    pub memory_secrets: bool,
}

impl CoreConfig {
    /// Settings of the platform config dir. `contents` is what the settings
    /// file holds, or nothing when it is missing or unreadable.
    pub fn load(config_dir: Option<&str>, contents: Option<&str>) -> (r: Self)
        ensures
            r.settings@.path == crate::settings::below(
                match config_dir {
                    Some(dir) => dir@,
                    None => "."@,
                },
                crate::settings::SETTINGS_FILE@,
            ),
            r.settings@ == (SettingsModel {
                theme: crate::settings::theme_or_system(contents.deep_view()),
                path: r.settings@.path,
                pending: false,
                epoch: 0,
                in_memory: false,
            }),
            !r.memory_secrets,
    {
        CoreConfig::new(Settings::load(config_dir, contents))
    }

    /// Settings that the caller loaded.
    pub fn new(settings: Settings) -> (r: Self)
        ensures
            r == (CoreConfig { settings, memory_secrets: false }),
    {
        CoreConfig { settings, memory_secrets: false }
    }

    /// Keep every secret in memory. Nothing reaches the OS keychain.
    pub fn with_memory_secrets(self) -> (r: Self)
        ensures
            r == (CoreConfig { settings: self.settings, memory_secrets: true }),
    {
        CoreConfig { settings: self.settings, memory_secrets: true }
    }
}

/// What the host does after one call.
pub struct Effects {
    /// Commands for the adapters, in this order.
    pub commands: Vec<AdapterCommand>,
    /// Start a keychain write.
    pub flush_keychain: bool,
    /// Read the keychain again, and watch it until the read ends.
    pub read_keychain: bool,
    /// Write the settings file.
    pub persist: Option<PersistJob>,
    /// Wake the frontends: the view changed.
    pub wake: bool,
}

/// The core as the contracts see it.
pub struct CoreModel {
    pub state: SnapshotModel,
    pub settings: SettingsModel,
    pub secrets: StoreModel,
    /// The phone number of a WhatsApp pairing.
    pub phone: Option<Text>,
    /// The Telegram client that runs now. Events of older ones are dropped.
    pub login_epoch: u64,
    pub closing: bool,
    /// Commands that wait for the host.
    pub outbox: Seq<CommandModel>,
}

/// A command as it goes out under a login epoch: a login step names the
/// client it is for.
pub open spec fn stamped(command: CommandModel, epoch: u64) -> CommandModel {
    match command {
        CommandModel::TelegramAuth { step, .. } => CommandModel::TelegramAuth { step, epoch },
        _ => command,
    }
}

/// The login epoch after a command went out: a Telegram disconnect closes the
/// client, so the next one runs under the next epoch.
pub open spec fn epoch_after(command: CommandModel, epoch: u64) -> u64 {
    if command == (CommandModel::Disconnect { protocol: ProtocolId::Telegram }) {
        if epoch == u64::MAX {
            0
        } else {
            (epoch + 1) as u64
        }
    } else {
        epoch
    }
}

impl CoreModel {
    pub open spec fn with_state(self, state: SnapshotModel) -> CoreModel {
        CoreModel { state, ..self }
    }

    /// A command goes to the host.
    pub open spec fn sent(self, command: CommandModel) -> CoreModel {
        CoreModel {
            outbox: self.outbox.push(stamped(command, self.login_epoch)),
            login_epoch: epoch_after(command, self.login_epoch),
            ..self
        }
    }

    /// Commands go to the host, in order.
    pub open spec fn sent_all(self, commands: Seq<CommandModel>) -> CoreModel
        decreases commands.len(),
    {
        if commands.len() == 0 {
            self
        } else {
            self.sent_all(commands.drop_last()).sent(commands.last())
        }
    }

    /// The event as the state sees it. A login event of another client than
    /// the one that runs is dropped.
    pub open spec fn delivered(self, event: AdapterEvent) -> Option<AdapterEvent> {
        match event {
            AdapterEvent::Login { epoch, event } => if epoch == self.login_epoch {
                Some(*event)
            } else {
                None
            },
            _ => Some(event),
        }
    }

    /// An event came.
    pub open spec fn accepting(self, event: AdapterEvent, now: u64) -> CoreModel {
        match self.delivered(event) {
            Some(inner) => self.with_state(self.state.applied(inner, now)),
            None => self,
        }
    }

    /// Events came, in order.
    pub open spec fn accepting_all(self, events: Seq<AdapterEvent>, now: u64) -> CoreModel
        decreases events.len(),
    {
        if events.len() == 0 {
            self
        } else {
            self.accepting_all(events.drop_last(), now).accepting(events.last(), now)
        }
    }

    /// One of the events reaches the state.
    pub open spec fn some_delivered(self, events: Seq<AdapterEvent>) -> bool {
        exists|i: int| 0 <= i < events.len() && self.delivered(#[trigger] events[i]).is_some()
    }

    /// The time-based checks of one frame.
    #[verifier::opaque]
    pub open spec fn checked(self, now: u64) -> CoreModel {
        self.with_state(
            self.state.polling(self.secrets, now).expiring(now).syncing_viewed(),
        )
    }

    /// The clients close: each adapter gets one shutdown, once.
    #[verifier::opaque]
    pub open spec fn shutting_down(self) -> CoreModel {
        if self.closing {
            self
        } else {
            let next = CoreModel { closing: true, ..self }.sent_all(shutdowns());
            next.with_state(next.state.with_status(CLOSING_STATUS@))
        }
    }

    /// A Telegram action.
    #[verifier::opaque]
    pub open spec fn telegram(self, intent: TelegramIntent) -> CoreModel {
        match intent {
            TelegramIntent::AddAccount => CoreModel {
                state: self.state.adding_account(self.secrets),
                secrets: self.state.store_adding_account(self.secrets),
                ..self
            },
            TelegramIntent::OpenApiOverride => self.with_state(
                self.state.opening_override(self.secrets),
            ),
            TelegramIntent::SetField(field, text) => self.with_state(
                self.state.with_field(field, text.value()),
            ),
            TelegramIntent::Submit => CoreModel {
                state: self.state.advancing(),
                secrets: self.state.store_advancing(self.secrets),
                ..self
            },
            TelegramIntent::Cancel => CoreModel {
                state: self.state.cancelling(),
                secrets: self.secrets.without_ephemeral(),
                ..self
            },
            TelegramIntent::ChangeNumber => self.with_state(self.state.changing_number()),
            TelegramIntent::ResendCode => self.with_state(self.state.resending_code()),
        }
    }

    /// A WhatsApp action, in a build with the WhatsApp part.
    #[verifier::opaque]
    pub open spec fn whatsapp(self, intent: WhatsAppIntent) -> CoreModel {
        if !self.state.build.whatsapp_web {
            self
        } else {
            match intent {
                WhatsAppIntent::OpenRiskGate => self.with_state(self.state.opening_whatsapp_gate()),
                WhatsAppIntent::CloseGate => CoreModel {
                    state: self.state.closing_whatsapp_gate(),
                    phone: None,
                    ..self
                },
                WhatsAppIntent::AcknowledgeRisk => self.with_state(
                    self.state.accepting_whatsapp_risk(),
                ),
                WhatsAppIntent::SetPhone(text) => self.with_state(
                    SnapshotModel { whatsapp_phone: text.value(), ..self.state },
                ),
                WhatsAppIntent::BeginLink => CoreModel {
                    state: self.state.pairing_whatsapp(),
                    phone: self.state.phone_after_pairing(self.phone),
                    ..self
                },
                WhatsAppIntent::CancelLink => CoreModel {
                    state: self.state.cancelling_whatsapp(),
                    phone: None,
                    ..self
                },
            }
        }
    }

    /// A user action, before the checks that follow each one.
    #[verifier::opaque]
    pub open spec fn handled(self, intent: Intent, now: u64) -> CoreModel {
        match intent {
            Intent::SelectProtocol(protocol) => self.with_state(
                self.state.selecting_protocol(protocol),
            ),
            Intent::SelectConversation { id } => self.with_state(self.state.picking(id@)),
            Intent::MoveInbox { delta } => self.with_state(self.state.moving(delta as int)),
            Intent::FocusInbox { id } => self.with_state(self.state.focusing(id@)),
            Intent::SetFilter(filter) => self.with_state(self.state.filtering(filter)),
            Intent::SetSearch(text) => self.with_state(self.state.searching(text.value())),
            Intent::Refresh => self.with_state(self.state.refreshed()),
            Intent::DismissError => self.with_state(self.state.without_error()),
            Intent::Key(key) => CoreModel {
                state: self.state.screen_key(key, self.secrets),
                secrets: self.state.store_screen_key(key, self.secrets),
                ..self
            },
            Intent::SetDraft { protocol, conversation_id, text } => self.with_state(
                self.state.drafting((protocol, conversation_id@), text.value()),
            ),
            Intent::SendDraft { protocol, conversation_id } => if self.state.is_selected(
                (protocol, conversation_id@),
            ) {
                self.with_state(self.state.sending(now))
            } else {
                self
            },
            Intent::Retry { message_id } => self.with_state(
                self.state.retrying(message_id@, now),
            ),
            Intent::LoadOlderMessages { protocol, conversation_id } => if self.state.is_selected(
                (protocol, conversation_id@),
            ) {
                self.with_state(self.state.loading_older(now))
            } else {
                self
            },
            Intent::RetryKeychain => self.with_state(self.state.retrying_keychain()),
            Intent::SetTheme(theme) => CoreModel {
                settings: self.settings.with_theme(theme),
                ..self
            },
            Intent::Shutdown => self.shutting_down(),
            Intent::Telegram(action) => self.telegram(action),
            Intent::WhatsApp(action) => self.whatsapp(action),
            Intent::Discord(DiscordIntent::Connect) => self.with_state(
                self.state.connecting(ProtocolId::Discord),
            ),
            Intent::Slack(SlackIntent::Connect) => self.with_state(
                self.state.connecting(ProtocolId::Slack),
            ),
        }
    }

    /// The queued commands go out, unless the clients close: a click must not
    /// reach a protocol worker then.
    #[verifier::opaque]
    pub open spec fn commands_out(self) -> CoreModel {
        let quiet = self.with_state(SnapshotModel { pending: Seq::empty(), ..self.state });
        if self.closing {
            quiet
        } else {
            quiet.sent_all(self.state.pending)
        }
    }

    /// The keychain work that the state asked for is handed out.
    #[verifier::opaque]
    pub open spec fn keychain_asked(self) -> CoreModel {
        let asked = if self.state.marks.contains(Mark::KeychainFlush) {
            self.secrets.flush_asked()
        } else {
            self.secrets
        };
        CoreModel {
            state: self.state.unmarked(Mark::KeychainFlush).unmarked(Mark::KeychainRetry),
            secrets: if self.state.marks.contains(Mark::KeychainRetry) {
                asked.retried()
            } else {
                asked
            },
            ..self
        }
    }

    /// Everything that waits for the host is handed out.
    #[verifier::opaque]
    pub open spec fn flushed(self) -> CoreModel {
        CoreModel {
            outbox: Seq::empty(),
            settings: self.settings.taken(),
            ..self.commands_out().keychain_asked()
        }
    }

    /// The effects that hand out what waits in this state.
    pub open spec fn hands_out(self, effects: Effects) -> bool {
        &&& effects.commands.deep_view() == self.commands_out().outbox
        &&& effects.flush_keychain == (self.state.marks.contains(Mark::KeychainFlush)
            && self.secrets.starts_flush())
        &&& effects.read_keychain == self.state.marks.contains(Mark::KeychainRetry)
        &&& match effects.persist {
            Some(job) => self.settings.owes_write() && job.path_of() == self.settings.path
                && job.contents_of() == rendered(self.settings.theme) && job.epoch_of()
                == self.settings.next_epoch(),
            None => !self.settings.owes_write(),
        }
    }

    /// The send of this chat's draft, if one goes out, still gets a number.
    #[verifier::opaque]
    pub open spec fn has_number_for_draft(self, chat: ChatId) -> bool {
        self.state.is_selected(chat) && self.state.can_send() ==> self.state.sends.next < u64::MAX
    }

    /// The retry of this message, if one goes out, still gets a number.
    #[verifier::opaque]
    pub open spec fn has_number_for_retry(self, message_id: Text) -> bool {
        self.state.can_retry(message_id) ==> self.state.sends.next < u64::MAX
    }

    /// The WhatsApp pairing, if one starts, still gets a number.
    #[verifier::opaque]
    pub open spec fn has_number_for_pairing(self) -> bool {
        self.state.build.whatsapp_web && self.state.may_pair_whatsapp()
            ==> self.state.next_pairing_generation < u64::MAX
    }

    /// The send or the pairing of this action, if it starts one, still gets a
    /// number of its own.
    pub open spec fn has_number_for(self, intent: Intent) -> bool {
        match intent {
            Intent::SendDraft { protocol, conversation_id } => self.has_number_for_draft(
                (protocol, conversation_id@),
            ),
            Intent::Retry { message_id } => self.has_number_for_retry(message_id@),
            Intent::WhatsApp(WhatsAppIntent::BeginLink) => self.has_number_for_pairing(),
            _ => true,
        }
    }
}

/// One shutdown for each protocol of the catalog.
pub open spec fn shutdowns() -> Seq<CommandModel> {
    catalog_order().map_values(|protocol: ProtocolId| CommandModel::Shutdown { protocol })
}

/// The frontend-independent app core.
pub struct Core {
    pub state: Snapshot,
    pub settings: Settings,
    pub secrets: SecretStore,
    pub whatsapp_phone: WhatsAppPhoneVault,
    pub login_epoch: u64,
    pub closing: bool,
    pub outbox: Vec<AdapterCommand>,
}

impl View for Core {
    type V = CoreModel;

    open spec fn view(&self) -> CoreModel {
        CoreModel {
            state: self.state@,
            settings: self.settings@,
            secrets: self.secrets@,
            phone: self.whatsapp_phone.held(),
            login_epoch: self.login_epoch,
            closing: self.closing,
            outbox: self.outbox.deep_view(),
        }
    }
}

/// Commands that go out change the outbox and the login epoch only.
pub proof fn lemma_sent_all_frame(core: CoreModel, commands: Seq<CommandModel>)
    ensures
        core.sent_all(commands) == (CoreModel {
            outbox: core.sent_all(commands).outbox,
            login_epoch: core.sent_all(commands).login_epoch,
            ..core
        }),
    decreases commands.len(),
{
    if commands.len() > 0 {
        lemma_sent_all_frame(core, commands.drop_last());
    }
}

/// Queued commands that go out change the outbox, the login epoch, and the queue
/// only.
pub proof fn lemma_commands_out_frame(core: CoreModel)
    ensures
        core.commands_out() == (CoreModel {
            outbox: core.commands_out().outbox,
            login_epoch: core.commands_out().login_epoch,
            state: SnapshotModel { pending: Seq::empty(), ..core.state },
            ..core
        }),
{
    reveal(CoreModel::commands_out);
    let quiet = core.with_state(SnapshotModel { pending: Seq::empty(), ..core.state });
    lemma_sent_all_frame(quiet, core.state.pending);
}

/// Keychain work changes the marks and the secret store only.
pub proof fn lemma_keychain_asked_frame(core: CoreModel)
    ensures
        core.keychain_asked() == (CoreModel {
            state: core.keychain_asked().state,
            secrets: core.keychain_asked().secrets,
            ..core
        }),
{
    reveal(CoreModel::keychain_asked);
}

/// A command as it goes out under a login epoch.
fn stamp(command: AdapterCommand, epoch: u64) -> (r: AdapterCommand)
    ensures
        r.deep_view() == stamped(command.deep_view(), epoch),
{
    match command {
        AdapterCommand::TelegramAuth { step, .. } => AdapterCommand::TelegramAuth { step, epoch },
        other => other,
    }
}

/// The login epoch after a command went out.
fn next_epoch(command: &AdapterCommand, epoch: u64) -> (r: u64)
    ensures
        r == epoch_after(command.deep_view(), epoch),
{
    match command {
        AdapterCommand::Disconnect { protocol: ProtocolId::Telegram } => if epoch == u64::MAX {
            0
        } else {
            epoch + 1
        },
        _ => epoch,
    }
}

impl Core {
    /// A core for this build. `memory_requested`: the process environment asks for a
    /// store without the OS keychain. When the store is not settled, the host
    /// reads the keychain next.
    pub fn new(
        config: CoreConfig,
        memory_requested: bool,
        build: Build,
        api_source: TelegramApiSource,
    ) -> (r: Self)
        ensures
            r@ == CoreModel::started(
                config.settings@,
                StoreModel::blank(
                    if config.memory_secrets || memory_requested {
                        AttachPhase::MemoryOnly
                    } else {
                        AttachPhase::Detached
                    },
                ),
                build,
                api_source.pair(),
            ),
    {
        let secrets = if config.memory_secrets {
            SecretStore::memory()
        } else {
            SecretStore::for_ui(memory_requested)
        };
        Core::with_store(config, secrets, build, api_source)
    }

    /// A core over this secret store.
    pub fn with_store(
        config: CoreConfig,
        secrets: SecretStore,
        build: Build,
        api_source: TelegramApiSource,
    ) -> (r: Self)
        ensures
            r@ == CoreModel::started(config.settings@, secrets@, build, api_source.pair()),
    {
        let mut state = Snapshot::with_build(build, api_source);
        state.status_text = secret_store_status_text(secrets.backend_name());
        let mut core = Core {
            state,
            settings: config.settings,
            secrets,
            whatsapp_phone: WhatsAppPhoneVault::new(),
            login_epoch: 0,
            closing: false,
            outbox: Vec::new(),
        };
        proof {
            assert(core@.outbox =~= Seq::empty());
        }
        // Discord can start before the keychain read ends, so it is armed again
        // once a token is in memory.
        if build.discord_bot {
            if core.secrets.on_discord_token_hydrated() {
                core.send(AdapterCommand::Connect { protocol: ProtocolId::Discord });
            }
        }
        core
    }

    /// A command goes to the host.
    fn send(&mut self, command: AdapterCommand)
        ensures
            final(self)@ == old(self)@.sent(command.deep_view()),
    {
        let ghost model = command.deep_view();
        let ghost before = self.outbox.deep_view();
        let epoch: u64 = self.login_epoch;
        self.login_epoch = next_epoch(&command, epoch);
        self.outbox.push(stamp(command, epoch));
        proof {
            assert(self.outbox.deep_view() =~= before.push(stamped(model, epoch)));
        }
    }

    /// Commands go to the host, in order.
    fn send_all(&mut self, commands: Vec<AdapterCommand>)
        ensures
            final(self)@ == old(self)@.sent_all(commands.deep_view()),
    {
        let mut rest = commands;
        let ghost all = commands.deep_view();
        let ghost mut done: int = 0;
        proof {
            assert(all.take(0) =~= Seq::empty());
            assert(all.skip(0) =~= all);
        }
        while rest.len() > 0
            invariant
                0 <= done <= all.len(),
                rest.deep_view() == all.skip(done),
                self@ == old(self)@.sent_all(all.take(done)),
            decreases rest.len(),
        {
            let ghost left = rest@;
            let ghost models = rest.deep_view();
            proof {
                assert(models.len() == left.len());
                assert(forall|i: int| 0 <= i < left.len() ==> models[i] == left[i].deep_view());
            }
            let command = rest.remove(0);
            proof {
                assert(models[0] == left[0].deep_view());
                assert forall|i: int| 0 <= i < rest@.len() implies #[trigger] rest.deep_view()[i]
                    == all.skip(done + 1)[i] by {
                    assert(rest@[i] == left[i + 1]);
                    assert(models[i + 1] == left[i + 1].deep_view());
                    assert(models[i + 1] == all.skip(done)[i + 1]);
                }
                assert(rest.deep_view() =~= all.skip(done + 1));
                assert(all.take(done + 1).drop_last() =~= all.take(done));
                assert(all.take(done + 1).last() == command.deep_view());
                done = done + 1;
            }
            self.send(command);
        }
        proof {
            assert(rest.deep_view().len() == rest.len());
            assert(all.take(done) =~= all);
        }
    }

    /// The event as the state sees it. A login event of another client than
    /// the one that runs is dropped. The check runs here, on the thread that
    /// sends Cancel.
    fn deliver(&self, event: AdapterEvent) -> (r: Option<AdapterEvent>)
        ensures
            r == self@.delivered(event),
    {
        match event {
            AdapterEvent::Login { epoch, event } => if epoch == self.login_epoch {
                Some(*event)
            } else {
                None
            },
            other => Some(other),
        }
    }

    /// Apply one event of an adapter. False when it was dropped.
    pub fn accept(&mut self, event: AdapterEvent, now: u64) -> (applied: bool)
        ensures
            applied == old(self)@.delivered(event).is_some(),
            final(self)@ == old(self)@.accepting(event, now),
    {
        match self.deliver(event) {
            Some(inner) => {
                self.state.apply(inner, now);
                true
            },
            None => false,
        }
    }

    /// Apply the events that arrived. True when at least one reached the state.
    fn accept_all(&mut self, events: Vec<AdapterEvent>, now: u64) -> (applied: bool)
        ensures
            applied == old(self)@.some_delivered(events@),
            final(self)@ == old(self)@.accepting_all(events@, now),
    {
        let mut applied = false;
        let mut rest = events;
        let ghost all = events@;
        let ghost mut done: int = 0;
        let ghost start = self@;
        proof {
            assert(all.take(0) =~= Seq::empty());
            assert(all.skip(0) =~= all);
        }
        while rest.len() > 0
            invariant
                0 <= done <= all.len(),
                rest@ == all.skip(done),
                start == old(self)@,
                self@ == start.accepting_all(all.take(done), now),
                self@.login_epoch == start.login_epoch,
                applied == start.some_delivered(all.take(done)),
            decreases rest.len(),
        {
            let ghost before = all.take(done);
            let event = rest.remove(0);
            let ghost next = all.take(done + 1);
            proof {
                assert(event == all[done]);
                assert(rest@ =~= all.skip(done + 1));
                assert(next.drop_last() =~= before);
                assert(next.last() == event);
            }
            let ghost mid = self@;
            let reached = self.accept(event, now);
            proof {
                assert(mid.delivered(event) == start.delivered(event));
                if applied {
                    let i = choose|i: int|
                        0 <= i < before.len() && start.delivered(#[trigger] before[i]).is_some();
                    assert(next[i] == before[i]);
                } else if reached {
                    assert(next[done] == event);
                } else {
                    assert forall|i: int| 0 <= i < next.len() implies start.delivered(
                        #[trigger] next[i],
                    ).is_none() by {
                        if i < done {
                            assert(next[i] == before[i]);
                        } else {
                            assert(next[i] == event);
                        }
                    }
                }
                done = done + 1;
            }
            applied = applied || reached;
        }
        proof {
            assert(all.take(done) =~= all);
        }
        applied
    }

    /// Apply the adapter events that arrived and run the time-based checks.
    /// Returns whether an event reached the state, and what the host does next.
    pub fn pump(&mut self, events: Vec<AdapterEvent>, now: u64) -> (r: (bool, Effects))
        ensures
            r.0 == old(self)@.some_delivered(events@),
            !r.1.wake,
            final(self)@ == old(self)@.accepting_all(events@, now).checked(now).flushed(),
            old(self)@.accepting_all(events@, now).checked(now).hands_out(r.1),
    {
        let applied = self.accept_all(events, now);
        self.check(now);
        let effects = self.flush(false);
        (applied, effects)
    }

    /// The time-based checks of one frame.
    fn check(&mut self, now: u64)
        ensures
            final(self)@ == old(self)@.checked(now),
    {
        proof {
            reveal(CoreModel::checked);
        }
        let fresh = refreshed_secret_store_status(
            self.state.status_text.as_str(),
            self.secrets.backend_name(),
        );
        if let Some(text) = fresh {
            self.state.status_text = text;
        }
        self.state.poll_resume(&self.secrets, now);
        self.state.expire_sends(now);
        self.state.sync_viewed();
    }

    /// Whether the send or the pairing of this action, if it starts one, still
    /// gets a number of its own.
    pub fn has_number(&self, intent: &Intent) -> (r: bool)
        ensures
            r == self@.has_number_for(*intent),
    {
        proof {
            reveal(CoreModel::has_number_for_draft);
            reveal(CoreModel::has_number_for_retry);
            reveal(CoreModel::has_number_for_pairing);
        }
        match intent {
            Intent::SendDraft { protocol, conversation_id } => !(self.state.is_selected_chat(
                *protocol,
                conversation_id.as_str(),
            ) && self.state.can_send()) || self.state.sends.next < u64::MAX,
            Intent::Retry { message_id } => !self.state.can_retry(message_id.as_str())
                || self.state.sends.next < u64::MAX,
            Intent::WhatsApp(WhatsAppIntent::BeginLink) => !(self.state.build.whatsapp_web
                && self.state.may_pair_whatsapp()) || self.state.next_pairing_generation < u64::MAX,
            _ => true,
        }
    }

    /// Apply one user action. Returns what the host does next. It always wakes
    /// the frontends.
    pub fn dispatch(&mut self, intent: Intent, now: u64) -> (r: Effects)
        requires
            old(self)@.has_number_for(intent),
        ensures
            r.wake,
            final(self)@ == old(self)@.dispatched(intent, now).flushed(),
            old(self)@.dispatched(intent, now).hands_out(r),
    {
        self.handle(intent, now);
        self.state.sync_viewed();
        self.flush(true)
    }

    /// Apply one user action, before the checks that follow each one.
    #[verifier::rlimit(60)]
    fn handle(&mut self, intent: Intent, now: u64)
        requires
            old(self)@.has_number_for(intent),
        ensures
            final(self)@ == old(self)@.handled(intent, now),
    {
        proof {
            reveal(CoreModel::handled);
        }
        match intent {
            Intent::SelectProtocol(protocol) => self.state.select_protocol(protocol),
            Intent::SelectConversation { id } => self.state.select_conversation(id),
            Intent::MoveInbox { delta } => self.state.move_inbox_selection(delta),
            Intent::FocusInbox { id } => self.state.focus_inbox_row(id),
            Intent::SetFilter(filter) => self.state.set_filter(filter),
            Intent::SetSearch(text) => self.state.set_search(text.into_inner()),
            Intent::Refresh => self.state.refresh_visible(),
            Intent::DismissError => self.state.dismiss_error(),
            Intent::Key(key) => self.state.center_key(key, &mut self.secrets),
            Intent::SetDraft { protocol, conversation_id, text } => self.state.set_draft(
                protocol,
                conversation_id.as_str(),
                text.into_inner(),
            ),
            Intent::SendDraft { protocol, conversation_id } => self.send_draft(
                protocol,
                conversation_id.as_str(),
                now,
            ),
            Intent::Retry { message_id } => self.retry(message_id.as_str(), now),
            Intent::LoadOlderMessages { protocol, conversation_id } => {
                if self.state.is_selected_chat(protocol, conversation_id.as_str()) {
                    self.state.load_older(now);
                }
            },
            Intent::RetryKeychain => self.state.retry_keychain(),
            Intent::SetTheme(theme) => self.settings.set_theme(theme),
            Intent::Shutdown => self.shutdown(),
            Intent::Telegram(action) => self.telegram(action),
            Intent::WhatsApp(action) => self.whatsapp(action),
            Intent::Discord(DiscordIntent::Connect) => self.state.connect(
                ProtocolId::Discord,
            ),
            Intent::Slack(SlackIntent::Connect) => self.state.connect(
                ProtocolId::Slack,
            ),
        }
    }

    /// Send the draft of this chat, when it is the chat on screen.
    fn send_draft(&mut self, protocol: ProtocolId, chat: &str, now: u64)
        requires
            old(self)@.has_number_for_draft((protocol, chat@)),
        ensures
            final(self)@ == old(self)@.with_state(
                if old(self)@.state.is_selected((protocol, chat@)) {
                    old(self)@.state.sending(now)
                } else {
                    old(self)@.state
                },
            ),
    {
        proof {
            reveal(CoreModel::has_number_for_draft);
        }
        if self.state.is_selected_chat(protocol, chat) {
            self.state.send_compose(now);
        }
    }

    /// Retry this message.
    fn retry(&mut self, message_id: &str, now: u64)
        requires
            old(self)@.has_number_for_retry(message_id@),
        ensures
            final(self)@ == old(self)@.with_state(
                old(self)@.state.retrying(message_id@, now),
            ),
    {
        proof {
            reveal(CoreModel::has_number_for_retry);
        }
        self.state.retry_send(message_id, now);
    }

    /// Close every client. Each adapter answers with `Stopped`.
    pub fn shutdown(&mut self)
        ensures
            final(self)@ == old(self)@.shutting_down(),
    {
        proof {
            reveal(CoreModel::shutting_down);
        }
        if self.closing {
            return ;
        }
        self.closing = true;
        let mut all: Vec<AdapterCommand> = Vec::new();
        all.push(AdapterCommand::Shutdown { protocol: ProtocolId::Telegram });
        all.push(AdapterCommand::Shutdown { protocol: ProtocolId::Slack });
        all.push(AdapterCommand::Shutdown { protocol: ProtocolId::WhatsApp });
        all.push(AdapterCommand::Shutdown { protocol: ProtocolId::Discord });
        all.push(AdapterCommand::Shutdown { protocol: ProtocolId::Signal });
        proof {
            assert(all.deep_view() =~= shutdowns());
        }
        self.send_all(all);
        self.state.status_text = CLOSING_STATUS.to_owned();
    }

    /// A Telegram action.
    fn telegram(&mut self, intent: TelegramIntent)
        ensures
            final(self)@ == old(self)@.telegram(intent),
    {
        proof {
            reveal(CoreModel::telegram);
        }
        match intent {
            TelegramIntent::AddAccount => self.state.open_add_account(&mut self.secrets),
            TelegramIntent::OpenApiOverride => self.state.open_api_override(&self.secrets),
            TelegramIntent::SetField(field, text) => self.state.set_auth_field(
                field,
                text.into_inner(),
            ),
            TelegramIntent::Submit => self.state.advance_telegram(&mut self.secrets),
            TelegramIntent::Cancel => self.state.cancel_auth(&mut self.secrets),
            TelegramIntent::ChangeNumber => self.state.change_number(),
            TelegramIntent::ResendCode => self.state.resend_code(),
        }
    }

    /// A WhatsApp action. A build without the WhatsApp part has no screen for
    /// it, so nothing happens.
    fn whatsapp(&mut self, intent: WhatsAppIntent)
        requires
            old(self)@.has_number_for(Intent::WhatsApp(intent)),
        ensures
            final(self)@ == old(self)@.whatsapp(intent),
    {
        proof {
            reveal(CoreModel::whatsapp);
            reveal(CoreModel::has_number_for_pairing);
        }
        if !self.state.build.whatsapp_web {
            return ;
        }
        match intent {
            WhatsAppIntent::OpenRiskGate => self.state.open_whatsapp_risk_gate(),
            WhatsAppIntent::CloseGate => self.state.close_whatsapp_gate(&mut self.whatsapp_phone),
            WhatsAppIntent::AcknowledgeRisk => self.state.acknowledge_whatsapp_risk(),
            WhatsAppIntent::SetPhone(text) => {
                self.state.whatsapp_phone = text.into_inner();
            },
            WhatsAppIntent::BeginLink => self.state.begin_whatsapp_link(&mut self.whatsapp_phone),
            WhatsAppIntent::CancelLink => self.state.cancel_whatsapp_link(&mut self.whatsapp_phone),
        }
    }

    /// Send the queued commands, unless the clients close.
    fn send_queued(&mut self)
        ensures
            final(self)@ == old(self)@.commands_out(),
    {
        proof {
            reveal(CoreModel::commands_out);
        }
        let commands = self.state.take_commands();
        if !self.closing {
            self.send_all(commands);
        }
    }

    /// Hand out the keychain work: whether a write starts, and whether a read
    /// starts.
    fn ask_keychain(&mut self) -> (r: (bool, bool))
        ensures
            final(self)@ == old(self)@.keychain_asked(),
            r.0 == (old(self)@.state.marks.contains(Mark::KeychainFlush)
                && old(self)@.secrets.starts_flush()),
            r.1 == old(self)@.state.marks.contains(Mark::KeychainRetry),
    {
        proof {
            reveal(CoreModel::keychain_asked);
        }
        let mut write = false;
        if self.state.take_keychain_flush() {
            write = self.flush_keychain();
        }
        let read = self.state.take_keychain_retry();
        if read {
            // The phase leaves the failure first, so a new watch does not stop
            // at it.
            self.secrets.leave_read_failed();
        }
        (write, read)
    }

    /// Take the commands that wait for the host.
    fn take_outbox(&mut self) -> (r: Vec<AdapterCommand>)
        ensures
            r.deep_view() == old(self)@.outbox,
            final(self)@ == (CoreModel { outbox: Seq::empty(), ..old(self)@ }),
    {
        let mut commands: Vec<AdapterCommand> = Vec::new();
        std::mem::swap(&mut commands, &mut self.outbox);
        proof {
            assert(self.outbox.deep_view() =~= Seq::empty());
        }
        commands
    }

    /// Hand out everything that waits for the host.
    fn flush(&mut self, wake: bool) -> (r: Effects)
        ensures
            r.wake == wake,
            final(self)@ == old(self)@.flushed(),
            old(self)@.hands_out(r),
    {
        proof {
            reveal(CoreModel::flushed);
            lemma_commands_out_frame(self@);
            lemma_keychain_asked_frame(self@.commands_out());
        }
        self.send_queued();
        let (flush_keychain, read_keychain) = self.ask_keychain();
        let commands = self.take_outbox();
        let persist = self.settings.take_persist_job();
        Effects { commands, flush_keychain, read_keychain, persist, wake }
    }

    /// Ask for a keychain write. True when the host starts one.
    pub fn flush_keychain(&mut self) -> (start: bool)
        ensures
            start == old(self)@.secrets.starts_flush(),
            final(self)@ == (CoreModel {
                secrets: old(self)@.secrets.flush_asked(),
                ..old(self)@
            }),
    {
        match self.secrets.request_flush() {
            FlushAction::Spawn => true,
            _ => false,
        }
    }

    /// True once after the compose field should get the focus.
    pub fn take_focus_compose(&mut self) -> (r: bool)
        ensures
            r == old(self)@.state.marks.contains(Mark::FocusCompose),
            final(self)@ == old(self)@.with_state(old(self)@.state.unmarked(Mark::FocusCompose)),
    {
        self.state.take_focus_compose()
    }

    /// True once after the selected row moved: scroll it into view.
    pub fn take_scroll_to_selected(&mut self) -> (r: bool)
        ensures
            r == old(self)@.state.marks.contains(Mark::ScrollToSelected),
            final(self)@ == old(self)@.with_state(
                old(self)@.state.unmarked(Mark::ScrollToSelected),
            ),
    {
        self.state.take_scroll_to_selected()
    }

    /// True once after the keyboard highlight moved: scroll it into view.
    pub fn take_scroll_to_focused(&mut self) -> (r: bool)
        ensures
            r == old(self)@.state.marks.contains(Mark::ScrollToFocused),
            final(self)@ == old(self)@.with_state(
                old(self)@.state.unmarked(Mark::ScrollToFocused),
            ),
    {
        self.state.take_scroll_to_focused()
    }

    /// Every adapter answered the shutdown.
    pub fn stopped(&self) -> (r: bool)
        ensures
            r == self@.state.all_stopped(),
    {
        self.state.all_stopped()
    }

    /// Whether a wait for the clients ends now: `Some(true)` when all stopped,
    /// `Some(false)` when the time is over, `None` while it goes on.
    pub fn stop_verdict(&self, now: u64, deadline: u64) -> (r: Option<bool>)
        ensures
            r == (if self@.state.all_stopped() {
                Some(true)
            } else if now >= deadline {
                Some(false)
            } else {
                None
            }),
    {
        if self.stopped() {
            Some(true)
        } else if now >= deadline {
            Some(false)
        } else {
            None
        }
    }
}

impl CoreModel {
    /// The core at its start.
    pub open spec fn started(
        settings: SettingsModel,
        secrets: StoreModel,
        build: Build,
        api_source: Option<(Text, Text)>,
    ) -> CoreModel {
        let core = CoreModel {
            state: SnapshotModel::at_launch(build, api_source).with_status(SECRET_STORE_STATUS@),
            settings,
            secrets,
            phone: None,
            login_epoch: 0,
            closing: false,
            outbox: Seq::empty(),
        };
        if build.discord_bot {
            let waiting = CoreModel { secrets: secrets.discord_waited(), ..core };
            if secrets.discord_fires_now() {
                waiting.sent(CommandModel::Connect { protocol: ProtocolId::Discord })
            } else {
                waiting
            }
        } else {
            core
        }
    }

    /// A user action with the checks that follow each one.
    pub open spec fn dispatched(self, intent: Intent, now: u64) -> CoreModel {
        let next = self.handled(intent, now);
        next.with_state(next.state.syncing_viewed())
    }
}

/// While the clients close, no queued command reaches an adapter.
pub proof fn law_closing_core_sends_nothing(core: CoreModel)
    requires
        core.closing,
    ensures
        core.commands_out().outbox == core.outbox,
{
    reveal(CoreModel::commands_out);
}

proof fn lemma_closing_kept(core: CoreModel, intent: Intent, now: u64)
    requires
        core.closing,
    ensures
        core.handled(intent, now).closing,
        core.handled(intent, now).outbox == core.outbox,
{
    reveal(CoreModel::handled);
    reveal(CoreModel::shutting_down);
    reveal(CoreModel::telegram);
    reveal(CoreModel::whatsapp);
}

proof fn lemma_accepting_all_frame(core: CoreModel, events: Seq<AdapterEvent>, now: u64)
    ensures
        core.accepting_all(events, now) == core.with_state(
            core.accepting_all(events, now).state,
        ),
    decreases events.len(),
{
    if events.len() > 0 {
        lemma_accepting_all_frame(core, events.drop_last(), now);
    }
}

/// While the clients close, no action and no event sends a command, now or
/// later: nothing goes out, and the core stays closing with nothing waiting.
pub proof fn law_closing_core_stays_quiet(
    core: CoreModel,
    intent: Intent,
    events: Seq<AdapterEvent>,
    now: u64,
)
    requires
        core.closing,
        core.outbox.len() == 0,
    ensures
        core.dispatched(intent, now).commands_out().outbox.len() == 0,
        core.dispatched(intent, now).flushed().closing,
        core.dispatched(intent, now).flushed().outbox.len() == 0,
        core.accepting_all(events, now).checked(now).commands_out().outbox.len() == 0,
        core.accepting_all(events, now).checked(now).flushed().closing,
        core.accepting_all(events, now).checked(now).flushed().outbox.len() == 0,
{
    lemma_closing_kept(core, intent, now);
    lemma_accepting_all_frame(core, events, now);
    let done = core.dispatched(intent, now);
    let seen = core.accepting_all(events, now).checked(now);
    assert(seen.closing && seen.outbox == core.outbox) by {
        reveal(CoreModel::checked);
    }
    law_closing_core_sends_nothing(done);
    law_closing_core_sends_nothing(seen);
    lemma_commands_out_frame(done);
    lemma_commands_out_frame(seen);
    lemma_keychain_asked_frame(done.commands_out());
    lemma_keychain_asked_frame(seen.commands_out());
    reveal(CoreModel::flushed);
}

/// A shutdown goes out once: a second one changes nothing.
pub proof fn law_shutdown_goes_out_once(core: CoreModel)
    ensures
        core.shutting_down().shutting_down() == core.shutting_down(),
        core.shutting_down().closing,
{
    reveal(CoreModel::shutting_down);
    lemma_sent_all_frame(CoreModel { closing: true, ..core }, shutdowns());
}

/// A shutdown reaches every protocol of the catalog once, in its order, after
/// what waits already.
pub proof fn law_shutdown_reaches_every_adapter(core: CoreModel)
    requires
        !core.closing,
    ensures
        core.shutting_down().outbox == core.outbox + shutdowns(),
        shutdowns().len() == catalog_order().len(),
{
    reveal(CoreModel::shutting_down);
    let open = CoreModel { closing: true, ..core };
    lemma_plain_commands(open, shutdowns());
}

/// Shutdown commands go out as they are.
pub proof fn lemma_plain_commands(core: CoreModel, commands: Seq<CommandModel>)
    requires
        forall|i: int| 0 <= i < commands.len() ==> (#[trigger] commands[i]) is Shutdown,
    ensures
        core.sent_all(commands).outbox == core.outbox + commands,
        core.sent_all(commands).login_epoch == core.login_epoch,
    decreases commands.len(),
{
    if commands.len() > 0 {
        let front = commands.drop_last();
        assert forall|i: int| 0 <= i < front.len() implies (#[trigger] front[i]) is Shutdown by {
            assert(front[i] == commands[i]);
        }
        lemma_plain_commands(core, front);
        assert(commands[commands.len() - 1] is Shutdown);
        assert(core.outbox + commands =~= (core.outbox + front).push(commands.last()));
    } else {
        assert(core.outbox + commands =~= core.outbox);
    }
}

/// After a Telegram disconnect went out, a login event of the client before it
/// is dropped, and one of the next client is not.
pub proof fn law_old_client_signs_nobody_in(core: CoreModel, event: AdapterEvent)
    ensures
        core.sent(CommandModel::Disconnect { protocol: ProtocolId::Telegram }).delivered(
            AdapterEvent::Login { epoch: core.login_epoch, event: Box::new(event) },
        ) == None::<AdapterEvent>,
        core.sent(CommandModel::Disconnect { protocol: ProtocolId::Telegram }).delivered(
            AdapterEvent::Login {
                epoch: epoch_after(
                    CommandModel::Disconnect { protocol: ProtocolId::Telegram },
                    core.login_epoch,
                ),
                event: Box::new(event),
            },
        ) == Some(event),
{
}

/// A send that names another chat than the selected one is dropped.
pub proof fn law_send_for_another_chat_is_dropped(
    core: CoreModel,
    protocol: ProtocolId,
    conversation_id: String,
    now: u64,
)
    requires
        !core.state.is_selected((protocol, conversation_id@)),
    ensures
        core.handled(Intent::SendDraft { protocol, conversation_id }, now) == core,
        core.handled(Intent::LoadOlderMessages { protocol, conversation_id }, now) == core,
{
    reveal(CoreModel::handled);
}

/// Each thing goes out once: after a call handed out what waited, nothing
/// waits.
pub proof fn law_effects_go_out_once(core: CoreModel)
    ensures
        core.flushed().outbox.len() == 0,
        core.flushed().state.pending.len() == 0,
        !core.flushed().state.marks.contains(Mark::KeychainFlush),
        !core.flushed().state.marks.contains(Mark::KeychainRetry),
        !core.flushed().settings.owes_write(),
{
    reveal(CoreModel::flushed);
    reveal(CoreModel::keychain_asked);
    lemma_commands_out_frame(core);
}

/// Without the WhatsApp part, a WhatsApp action does nothing.
pub proof fn law_whatsapp_needs_its_part(core: CoreModel, intent: WhatsAppIntent)
    requires
        !core.state.build.whatsapp_web,
    ensures
        core.whatsapp(intent) == core,
{
    reveal(CoreModel::whatsapp);
}

/// A core at its start is sound.
pub proof fn law_core_starts_sound(
    settings: SettingsModel,
    secrets: StoreModel,
    build: Build,
    api_source: Option<(Text, Text)>,
)
    ensures
        CoreModel::started(settings, secrets, build, api_source).state.sound(),
        CoreModel::started(settings, secrets, build, api_source).state.risk_stage()
            == RiskStage::Closed,
{
    let launched = SnapshotModel::at_launch(build, api_source);
    law_launch_is_sound(build, api_source);
    law_other_changes_keep_the_state_sound(launched, launched.with_status(SECRET_STORE_STATUS@));
}

proof fn lemma_accepting_all_sound(core: CoreModel, events: Seq<AdapterEvent>, now: u64)
    requires
        core.state.sound(),
    ensures
        core.accepting_all(events, now).state.sound(),
        core.state.keeps_pairing(core.accepting_all(events, now).state),
    decreases events.len(),
{
    if events.len() > 0 {
        lemma_accepting_all_sound(core, events.drop_last(), now);
        let before = core.accepting_all(events.drop_last(), now);
        match before.delivered(events.last()) {
            Some(inner) => law_every_event_keeps_the_state_sound(before.state, inner, now),
            None => {},
        }
    }
}

proof fn lemma_flushed_sound(core: CoreModel)
    requires
        core.state.sound(),
    ensures
        core.flushed().state.sound(),
        core.state.keeps_pairing(core.flushed().state),
{
    reveal(CoreModel::flushed);
    reveal(CoreModel::keychain_asked);
    lemma_commands_out_frame(core);
    law_other_changes_keep_the_state_sound(core.state, core.flushed().state);
}

/// Every pump keeps a sound core sound, whatever events come. No event leads to
/// a WhatsApp pairing.
pub proof fn law_every_pump_keeps_the_core_sound(
    core: CoreModel,
    events: Seq<AdapterEvent>,
    now: u64,
)
    requires
        core.state.sound(),
    ensures
        core.accepting_all(events, now).checked(now).flushed().state.sound(),
        core.state.keeps_pairing(
            core.accepting_all(events, now).checked(now).flushed().state,
        ),
{
    let told = core.accepting_all(events, now);
    lemma_accepting_all_sound(core, events, now);
    reveal(CoreModel::checked);
    let none: Text = Seq::empty();
    let polled = told.state.polling(told.secrets, now);
    law_every_login_action_keeps_the_state_sound(
        told.state,
        told.secrets,
        AuthField::Phone,
        none,
        AuthKey::Enter,
        now,
    );
    lemma_inbox_actions_sound(polled, now);
    lemma_inbox_actions_sound(polled.expiring(now), now);
    lemma_flushed_sound(told.checked(now));
}

proof fn lemma_inbox_actions_sound(s: SnapshotModel, now: u64)
    requires
        s.sound(),
    ensures
        s.syncing_viewed().sound(),
        s.expiring(now).sound(),
        s.keeps_pairing(s.syncing_viewed()),
        s.keeps_pairing(s.expiring(now)),
{
    let none: Text = Seq::empty();
    law_every_inbox_action_keeps_the_state_sound(
        s,
        ProtocolId::Telegram,
        none,
        0,
        s.filter,
        none,
        (ProtocolId::Telegram, none),
        now,
    );
}

proof fn lemma_telegram_sound(core: CoreModel, intent: TelegramIntent)
    requires
        core.state.sound(),
    ensures
        core.telegram(intent).state.sound(),
        core.state.keeps_pairing(core.telegram(intent).state),
{
    reveal(CoreModel::telegram);
    let (field, text) = match intent {
        TelegramIntent::SetField(field, text) => (field, text.value()),
        _ => (AuthField::Phone, Seq::empty()),
    };
    law_every_login_action_keeps_the_state_sound(
        core.state,
        core.secrets,
        field,
        text,
        AuthKey::Enter,
        0,
    );
}

proof fn lemma_whatsapp_sound(core: CoreModel, intent: WhatsAppIntent)
    requires
        core.state.sound(),
    ensures
        core.whatsapp(intent).state.sound(),
        core.whatsapp(intent).state.risk_stage() == stage_after(
            core.state.risk_stage(),
            Intent::WhatsApp(intent),
            core.state.build,
        ),
        core.has_number_for(Intent::WhatsApp(intent)) ==> core.whatsapp(
            intent,
        ).state.next_pairing_generation >= core.state.next_pairing_generation,
{
    reveal(CoreModel::whatsapp);
    reveal(CoreModel::has_number_for_pairing);
    law_risk_is_asked_then_accepted(core.state);
    reveal(SnapshotModel::opening_whatsapp_gate);
    reveal(SnapshotModel::closing_whatsapp_gate);
    reveal(SnapshotModel::accepting_whatsapp_risk);
    reveal(SnapshotModel::pairing_whatsapp);
    reveal(SnapshotModel::cancelling_whatsapp);
    law_every_pairing_action_keeps_the_state_sound(core.state);
    if let WhatsAppIntent::SetPhone(text) = intent {
        law_other_changes_keep_the_state_sound(
            core.state,
            SnapshotModel { whatsapp_phone: text.value(), ..core.state },
        );
    }
}

proof fn lemma_handled_sound(core: CoreModel, intent: Intent, now: u64)
    requires
        core.state.sound(),
        core.has_number_for(intent),
    ensures
        core.handled(intent, now).state.sound(),
        core.handled(intent, now).state.risk_stage() == stage_after(
            core.state.risk_stage(),
            intent,
            core.state.build,
        ),
        core.handled(intent, now).state.next_pairing_generation
            >= core.state.next_pairing_generation,
{
    reveal(CoreModel::handled);
    reveal(CoreModel::has_number_for_draft);
    reveal(CoreModel::has_number_for_retry);
    let s = core.state;
    let none: Text = Seq::empty();
    let protocol = match intent {
        Intent::SelectProtocol(protocol) => protocol,
        Intent::Discord(_) => ProtocolId::Discord,
        Intent::Slack(_) => ProtocolId::Slack,
        _ => ProtocolId::Telegram,
    };
    let id = match intent {
        Intent::SelectConversation { id } => id@,
        Intent::FocusInbox { id } => id@,
        Intent::Retry { message_id } => message_id@,
        _ => none,
    };
    let delta: int = match intent {
        Intent::MoveInbox { delta } => delta as int,
        _ => 0,
    };
    let filter = match intent {
        Intent::SetFilter(filter) => filter,
        _ => s.filter,
    };
    let text = match intent {
        Intent::SetSearch(text) => text.value(),
        Intent::SetDraft { text, .. } => text.value(),
        _ => none,
    };
    let chat = match intent {
        Intent::SetDraft { protocol, conversation_id, .. } => (protocol, conversation_id@),
        _ => (ProtocolId::Telegram, none),
    };
    law_every_inbox_action_keeps_the_state_sound(s, protocol, id, delta, filter, text, chat, now);
    law_every_send_keeps_the_state_sound(s, id, now);
    match intent {
        Intent::Key(key) => law_every_login_action_keeps_the_state_sound(
            s,
            core.secrets,
            AuthField::Phone,
            none,
            key,
            now,
        ),
        Intent::RetryKeychain => law_every_login_action_keeps_the_state_sound(
            s,
            core.secrets,
            AuthField::Phone,
            none,
            AuthKey::Enter,
            now,
        ),
        Intent::Shutdown => {
            reveal(CoreModel::shutting_down);
            lemma_sent_all_frame(CoreModel { closing: true, ..core }, shutdowns());
            law_other_changes_keep_the_state_sound(s, s.with_status(CLOSING_STATUS@));
        },
        Intent::Telegram(action) => lemma_telegram_sound(core, action),
        Intent::WhatsApp(action) => lemma_whatsapp_sound(core, action),
        _ => {},
    }
}

/// How far the user is on the way to a WhatsApp pairing after one action.
/// Only the WhatsApp actions move it, and only in a build with that part.
pub open spec fn stage_after(stage: RiskStage, intent: Intent, build: Build) -> RiskStage {
    match intent {
        Intent::WhatsApp(action) => if !build.whatsapp_web {
            stage
        } else {
            match action {
                WhatsAppIntent::OpenRiskGate => RiskStage::Asked,
                WhatsAppIntent::CloseGate => RiskStage::Closed,
                WhatsAppIntent::CancelLink => RiskStage::Closed,
                WhatsAppIntent::AcknowledgeRisk => if stage == RiskStage::Asked {
                    RiskStage::Accepted
                } else {
                    stage
                },
                WhatsAppIntent::BeginLink => if stage == RiskStage::Accepted {
                    RiskStage::Closed
                } else {
                    stage
                },
                WhatsAppIntent::SetPhone(_) => stage,
            }
        },
        _ => stage,
    }
}

/// The way to a WhatsApp pairing is the order of the actions: it opens, the
/// user accepts, and nothing closed or cancelled it since. No other action
/// moves it, and the number of the next pairing never goes back.
pub proof fn law_only_open_and_accept_lead_to_a_pairing(core: CoreModel, intent: Intent, now: u64)
    requires
        core.state.sound(),
        core.has_number_for(intent),
    ensures
        core.dispatched(intent, now).flushed().state.risk_stage() == stage_after(
            core.state.risk_stage(),
            intent,
            core.state.build,
        ),
        core.dispatched(intent, now).flushed().state.next_pairing_generation
            >= core.state.next_pairing_generation,
{
    lemma_handled_sound(core, intent, now);
    lemma_inbox_actions_sound(core.handled(intent, now).state, now);
    lemma_flushed_sound(core.dispatched(intent, now));
}

/// Every user action keeps a sound core sound.
pub proof fn law_every_action_keeps_the_core_sound(core: CoreModel, intent: Intent, now: u64)
    requires
        core.state.sound(),
        core.has_number_for(intent),
    ensures
        core.dispatched(intent, now).flushed().state.sound(),
{
    lemma_handled_sound(core, intent, now);
    lemma_inbox_actions_sound(core.handled(intent, now).state, now);
    lemma_flushed_sound(core.dispatched(intent, now));
}

} // verus!
