//! The secret store: Telegram credentials and session material, the Discord
//! bot token, and the Slack install.
//!
//! The store works on memory only. A worker reads and writes the OS keychain
//! and hands the results in. Attach is an ordered state machine (`Detached`,
//! `Attaching`, then `Ready`, `MemoryOnly`, or `ReadFailed`). A failed read
//! never becomes `Ready`, so a missing database key is not assumed. Writes of
//! the shell mark their keys dirty, so a late hydrate cannot overwrite them. A
//! flush that is asked for before `Ready` waits for it, and flushes that
//! overlap run on one worker.

use crate::keyed::{Key, KeyMap, KeySet};
use crate::protocol::Text;
use crate::text::{law_trim_twice, trim, trimmed};
use vstd::prelude::*;
use vstd::string::*;

verus! {

/// `THINWIRE_KEYRING=memory` skips the OS keychain.
pub const KEYRING_ENV: &'static str = "THINWIRE_KEYRING";

/// The value of [`KEYRING_ENV`] that skips the OS keychain.
pub const KEYRING_MEMORY: &'static str = "memory";

/// Keychain account of the Discord bot token.
pub const DISCORD_SECRET_BOT_TOKEN: &'static str = "discord.bot_token";

/// Keychain service of every entry.
pub const SECRET_SERVICE: &'static str = "thinwire";

/// Folder of the Telegram data.
pub const TDLIB_FOLDER: &'static str = "tdlib";

/// Folder of the Telegram data when its key lives in the kernel keyring.
pub const TDLIB_KEYUTILS_FOLDER: &'static str = "tdlib-keyutils";

/// A Telegram secret.
#[derive(Debug, Clone, Copy, PartialEq, Eq, Hash, Structural)]
pub enum SecretKey {
    ApiId,
    ApiHash,
    Session,
    DbEncryption,
    Phone,
    Code,
    Password,
}

impl DeepView for SecretKey {
    type V = SecretKey;

    open spec fn deep_view(&self) -> SecretKey {
        *self
    }
}

impl Key for SecretKey {
    fn same(&self, other: &Self) -> (r: bool) {
        *self == *other
    }
}

/// The keys that the OS keychain keeps, in the order in which a flush writes them.
pub open spec fn persistent_keys() -> Seq<SecretKey> {
    seq![SecretKey::ApiId, SecretKey::ApiHash, SecretKey::Session, SecretKey::DbEncryption]
}

/// The keys that never leave memory.
pub open spec fn ephemeral_keys() -> Seq<SecretKey> {
    seq![SecretKey::Phone, SecretKey::Code, SecretKey::Password]
}

impl SecretKey {
    /// The keys that the OS keychain keeps.
    pub fn persistent() -> (r: Vec<SecretKey>)
        ensures
            r@ == persistent_keys(),
    {
        vec![SecretKey::ApiId, SecretKey::ApiHash, SecretKey::Session, SecretKey::DbEncryption]
    }

    /// The key may reach the OS keychain.
    pub fn persist_to_os(self) -> (r: bool)
        ensures
            r == persistent_keys().contains(self),
            r == !ephemeral_keys().contains(self),
    {
        proof {
            let all = persistent_keys();
            assert(all[0] == SecretKey::ApiId && all[1] == SecretKey::ApiHash && all[2]
                == SecretKey::Session && all[3] == SecretKey::DbEncryption);
            let none = ephemeral_keys();
            assert(none[0] == SecretKey::Phone && none[1] == SecretKey::Code && none[2]
                == SecretKey::Password);
        }
        match self {
            SecretKey::ApiId => true,
            SecretKey::ApiHash => true,
            SecretKey::Session => true,
            SecretKey::DbEncryption => true,
            SecretKey::Phone => false,
            SecretKey::Code => false,
            SecretKey::Password => false,
        }
    }

    /// The keychain account of this key.
    pub fn account(self) -> (r: &'static str)
        ensures
            r@ == account_of(self),
    {
        match self {
            SecretKey::ApiId => "telegram.api_id",
            SecretKey::ApiHash => "telegram.api_hash",
            SecretKey::Session => "telegram.session",
            SecretKey::DbEncryption => "telegram.db_encryption",
            SecretKey::Phone => "telegram.phone",
            SecretKey::Code => "telegram.code",
            SecretKey::Password => "telegram.password",
        }
    }
}

/// The keychain account of a key.
pub open spec fn account_of(key: SecretKey) -> Text {
    match key {
        SecretKey::ApiId => "telegram.api_id"@,
        SecretKey::ApiHash => "telegram.api_hash"@,
        SecretKey::Session => "telegram.session"@,
        SecretKey::DbEncryption => "telegram.db_encryption"@,
        SecretKey::Phone => "telegram.phone"@,
        SecretKey::Code => "telegram.code"@,
        SecretKey::Password => "telegram.password"@,
    }
}

/// A secret of the Slack workspace app.
#[derive(Debug, Clone, Copy, PartialEq, Eq, Hash, Structural)]
pub enum SlackSecretKey {
    BotToken,
    TeamId,
    AppId,
    ClientId,
    OAuthState,
}

impl DeepView for SlackSecretKey {
    type V = SlackSecretKey;

    open spec fn deep_view(&self) -> SlackSecretKey {
        *self
    }
}

impl Key for SlackSecretKey {
    fn same(&self, other: &Self) -> (r: bool) {
        *self == *other
    }
}

impl SlackSecretKey {
    /// The key may reach the OS keychain. The one-time install state may not.
    pub fn persist_to_os(self) -> (r: bool)
        ensures
            r == (self != SlackSecretKey::OAuthState),
    {
        match self {
            SlackSecretKey::OAuthState => false,
            _ => true,
        }
    }

    /// The keys that the OS keychain keeps.
    pub fn persistent() -> (r: Vec<SlackSecretKey>)
        ensures
            r@ == seq![
                SlackSecretKey::BotToken,
                SlackSecretKey::TeamId,
                SlackSecretKey::AppId,
                SlackSecretKey::ClientId,
            ],
    {
        vec![
            SlackSecretKey::BotToken,
            SlackSecretKey::TeamId,
            SlackSecretKey::AppId,
            SlackSecretKey::ClientId,
        ]
    }

    /// The keychain account of this key.
    pub fn account(self) -> (r: &'static str)
        ensures
            r@ == (match self {
                SlackSecretKey::BotToken => "slack.bot_token"@,
                SlackSecretKey::TeamId => "slack.team_id"@,
                SlackSecretKey::AppId => "slack.app_id"@,
                SlackSecretKey::ClientId => "slack.client_id"@,
                SlackSecretKey::OAuthState => "slack.oauth_state"@,
            }),
    {
        match self {
            SlackSecretKey::BotToken => "slack.bot_token",
            SlackSecretKey::TeamId => "slack.team_id",
            SlackSecretKey::AppId => "slack.app_id",
            SlackSecretKey::ClientId => "slack.client_id",
            SlackSecretKey::OAuthState => "slack.oauth_state",
        }
    }
}

/// A recoverable failure of the secret store. Its text never holds a secret.
#[derive(Debug, PartialEq, Eq)]
pub struct SecretError {
    pub message: String,
}

impl SecretError {
    pub fn new(message: &str) -> (r: Self)
        ensures
            r.message@ == message@,
    {
        SecretError { message: message.to_owned() }
    }

    /// The text of the failure.
    pub fn to_text(&self) -> (r: String)
        ensures
            r@ == self.message@,
    {
        self.message.clone()
    }
}

/// The OS store in use after attach.
#[derive(Debug, Clone, Copy, PartialEq, Eq, Structural)]
pub enum OsBackend {
    /// D-Bus Secret Service. Kept across restarts.
    SecretService,
    /// Kernel keyutils. Lost when the computer restarts.
    KernelKeyring,
    /// macOS Keychain or Windows Credential Manager.
    Native,
}

impl OsBackend {
    /// What the store holds is still there after the computer restarts.
    pub fn survives_restart(self) -> (r: bool)
        ensures
            r == (self != OsBackend::KernelKeyring),
    {
        match self {
            OsBackend::KernelKeyring => false,
            OsBackend::SecretService => true,
            OsBackend::Native => true,
        }
    }
}

/// The stores that Linux tries, in order: Secret Service, then the kernel
/// keyring. Memory is the last fallback.
pub fn linux_backends() -> (r: [OsBackend; 2])
    ensures
        r@ == seq![OsBackend::SecretService, OsBackend::KernelKeyring],
{
    [OsBackend::SecretService, OsBackend::KernelKeyring]
}

/// How long a sign-in lasts with the current store.
#[derive(Debug, Clone, Copy, PartialEq, Eq, Structural)]
pub enum Persistence {
    /// Attach has not finished.
    Loading,
    /// Kept across restarts.
    Saved,
    /// Kept until the computer restarts.
    UntilRestart,
    /// Kept for this app session only.
    ThisSession,
}

/// Where the attach of the OS keychain stands.
#[derive(Debug, Clone, Copy, PartialEq, Eq, Structural)]
pub enum AttachPhase {
    Detached,
    Attaching,
    Ready,
    MemoryOnly,
    /// The OS store opened, but reading an entry failed. The values are not
    /// known, so a missing key must not look like a lost key.
    ReadFailed,
}

/// Who waits for a token that attach may bring.
#[derive(Debug, Clone, Copy, PartialEq, Eq, Structural)]
pub enum Hydrate {
    /// Attach has not finished. `waiter`: a reconnect waits for the token.
    Waiting { waiter: bool },
    /// Attach finished, or this store never reads the OS keychain. `notify`:
    /// attach brought a token.
    Settled { notify: bool },
}

/// What a flush request leads to.
#[derive(Debug, Clone, Copy, PartialEq, Eq, Structural)]
pub enum FlushAction {
    /// Start a flush worker.
    Spawn,
    /// A running flush, or the end of attach, does it.
    Defer,
    /// Nothing is written: the store is memory-only.
    Ignore,
}

/// What a flush worker does after it wrote one snapshot.
#[derive(Debug, Clone, Copy, PartialEq, Eq, Structural)]
pub enum FlushNext {
    /// Take a new snapshot and write it.
    Again,
    /// The flush is done.
    Done,
    /// The flush ends with the failure of this write.
    Failed,
}

/// What the keychain worker does after one probe was stored.
#[derive(Debug, Clone, Copy, PartialEq, Eq, Structural)]
pub struct AfterProbe {
    /// Write the keychain now.
    pub flush: bool,
    /// Then tell the waiting reconnects that attach finished.
    pub signal: bool,
}

/// Everything that the store holds, with its texts as character sequences.
#[verifier::ext_equal]
pub struct StoreModel {
    pub values: Map<SecretKey, Text>,
    pub dirty: Set<SecretKey>,
    pub discord_bot_token: Option<Text>,
    pub discord_token_dirty: bool,
    pub slack: Map<SlackSecretKey, Text>,
    pub slack_dirty: Set<SlackSecretKey>,
    pub flush_pending: bool,
    pub flush_in_flight: bool,
    pub phase: AttachPhase,
    pub os_backend: Option<OsBackend>,
    pub discord_hydrate: Hydrate,
    pub slack_hydrate: Hydrate,
}

/// `map` with `key` at the trimmed `value`. A blank value removes the key.
pub open spec fn stored<K>(map: Map<K, Text>, key: K, value: Text) -> Map<K, Text> {
    if trim(value).len() == 0 {
        map.remove(key)
    } else {
        map.insert(key, trim(value))
    }
}

/// `map` after `pairs` were stored one by one, except the keys in `dirty`.
pub open spec fn hydrated<K>(map: Map<K, Text>, dirty: Set<K>, pairs: Seq<(K, Text)>) -> Map<
    K,
    Text,
>
    decreases pairs.len(),
{
    if pairs.len() == 0 {
        map
    } else {
        let before = hydrated(map, dirty, pairs.drop_last());
        if dirty.contains(pairs.last().0) {
            before
        } else {
            stored(before, pairs.last().0, pairs.last().1)
        }
    }
}

/// The trimmed token, or none when it is blank.
pub open spec fn token_of(value: Text) -> Option<Text> {
    if trim(value).len() == 0 {
        None
    } else {
        Some(trim(value))
    }
}

impl StoreModel {
    /// An empty store in this phase.
    pub open spec fn blank(phase: AttachPhase) -> StoreModel {
        let hydrate = if phase == AttachPhase::MemoryOnly {
            Hydrate::Settled { notify: false }
        } else {
            Hydrate::Waiting { waiter: false }
        };
        StoreModel {
            values: Map::empty(),
            dirty: Set::empty(),
            discord_bot_token: None,
            discord_token_dirty: false,
            slack: Map::empty(),
            slack_dirty: Set::empty(),
            flush_pending: false,
            flush_in_flight: false,
            phase,
            os_backend: None,
            discord_hydrate: hydrate,
            slack_hydrate: hydrate,
        }
    }

    /// The store of a demo: settled and empty, as after a keychain read.
    pub open spec fn demo_saved() -> StoreModel {
        StoreModel::blank(AttachPhase::Ready)
    }

    /// The store of a demo whose keychain read failed.
    pub open spec fn demo_read_failed() -> StoreModel {
        StoreModel::blank(AttachPhase::Detached).failed()
    }

    /// Attach finished: what was read is there, or nothing is to be read.
    pub open spec fn settled(self) -> bool {
        self.phase == AttachPhase::Ready || self.phase == AttachPhase::MemoryOnly
    }

    /// The value of one key.
    pub open spec fn value(self, key: SecretKey) -> Option<Text> {
        self.values.get(key)
    }

    /// The shell wrote one key.
    pub open spec fn set(self, key: SecretKey, value: Text) -> StoreModel {
        StoreModel {
            values: stored(self.values, key, value),
            dirty: self.dirty.insert(key),
            ..self
        }
    }

    /// The shell dropped what a login typed.
    pub open spec fn without_ephemeral(self) -> StoreModel {
        self.set(SecretKey::Phone, Seq::empty()).set(SecretKey::Code, Seq::empty()).set(
            SecretKey::Password,
            Seq::empty(),
        )
    }

    /// Both halves of the keychain's own Telegram API credentials are there.
    pub open spec fn has_api_override(self) -> bool {
        self.values.contains_key(SecretKey::ApiId) && self.values.contains_key(SecretKey::ApiHash)
    }

    /// A keychain read brought every entry.
    pub open spec fn ready(self, pairs: Seq<(SecretKey, Text)>, backend: Option<OsBackend>) -> StoreModel {
        StoreModel {
            os_backend: if backend.is_some() {
                backend
            } else {
                self.os_backend
            },
            values: hydrated(self.values, self.dirty, pairs),
            phase: AttachPhase::Ready,
            flush_pending: false,
            dirty: Set::empty(),
            flush_in_flight: self.flush_in_flight || self.owes_write(),
            ..self
        }
    }

    /// Something waits to be written to the keychain.
    pub open spec fn owes_write(self) -> bool {
        self.flush_pending || self.dirty != Set::<SecretKey>::empty() || self.discord_token_dirty
            || self.slack_dirty != Set::<SlackSecretKey>::empty()
    }

    /// A keychain read brought the Discord token, or none.
    pub open spec fn with_discord_token(self, value: Result<Option<Text>, Text>) -> StoreModel {
        match value {
            Ok(Some(raw)) if !self.discord_token_dirty => StoreModel {
                discord_bot_token: token_of(raw),
                ..self
            },
            _ => self,
        }
    }

    /// A keychain read brought the Slack install.
    pub open spec fn with_slack(self, pairs: Seq<(SlackSecretKey, Text)>) -> StoreModel {
        StoreModel { slack: hydrated(self.slack, self.slack_dirty, pairs), ..self }
    }

    /// A flush that is asked for now starts a worker.
    pub open spec fn starts_flush(self) -> bool {
        self.phase == AttachPhase::Ready && !self.flush_in_flight
    }

    /// The store after a flush was asked for. A running flush, or the end of
    /// attach, does a flush that cannot start now. A memory-only store never
    /// writes.
    pub open spec fn flush_asked(self) -> StoreModel {
        if self.phase == AttachPhase::MemoryOnly {
            self
        } else if self.starts_flush() {
            StoreModel { flush_in_flight: true, ..self }
        } else {
            StoreModel { flush_pending: true, ..self }
        }
    }

    /// How long a sign-in lasts.
    pub open spec fn lasts(self) -> Persistence {
        match self.phase {
            AttachPhase::MemoryOnly => Persistence::ThisSession,
            AttachPhase::Ready => if self.os_backend == Some(OsBackend::KernelKeyring) {
                Persistence::UntilRestart
            } else {
                Persistence::Saved
            },
            _ => Persistence::Loading,
        }
    }

    /// The store without the OS keychain.
    pub open spec fn memory_only(self) -> StoreModel {
        StoreModel {
            phase: AttachPhase::MemoryOnly,
            flush_pending: false,
            flush_in_flight: false,
            ..self
        }
    }

    /// The end of attach wakes a Discord reconnect that waits.
    pub open spec fn wakes_discord(self) -> bool {
        self.discord_hydrate == (Hydrate::Waiting { waiter: true })
            && self.discord_bot_token.is_some()
    }

    /// The store after the end of attach was told to Discord.
    pub open spec fn discord_told(self) -> StoreModel {
        match self.discord_hydrate {
            Hydrate::Waiting { .. } => StoreModel {
                discord_hydrate: Hydrate::Settled { notify: self.discord_bot_token.is_some() },
                ..self
            },
            Hydrate::Settled { .. } => self,
        }
    }

    /// The end of attach wakes a Slack reconnect that waits.
    pub open spec fn wakes_slack(self) -> bool {
        self.slack_hydrate == (Hydrate::Waiting { waiter: true }) && self.slack.contains_key(
            SlackSecretKey::BotToken,
        )
    }

    /// The store after the end of attach was told to Slack.
    pub open spec fn slack_told(self) -> StoreModel {
        match self.slack_hydrate {
            Hydrate::Waiting { .. } => StoreModel {
                slack_hydrate: Hydrate::Settled {
                    notify: self.slack.contains_key(SlackSecretKey::BotToken),
                },
                ..self
            },
            Hydrate::Settled { .. } => self,
        }
    }

    /// The store after Try again left a failed read.
    pub open spec fn retried(self) -> StoreModel {
        StoreModel {
            phase: if self.phase == AttachPhase::ReadFailed {
                AttachPhase::Attaching
            } else {
                self.phase
            },
            ..self
        }
    }

    /// A Discord reconnect that asks now runs at once.
    pub open spec fn discord_fires_now(self) -> bool {
        match self.discord_hydrate {
            Hydrate::Waiting { .. } => false,
            Hydrate::Settled { notify } => notify && self.discord_bot_token.is_some(),
        }
    }

    /// The store after a Discord reconnect asked for the token.
    pub open spec fn discord_waited(self) -> StoreModel {
        match self.discord_hydrate {
            Hydrate::Waiting { .. } => StoreModel {
                discord_hydrate: Hydrate::Waiting { waiter: true },
                ..self
            },
            Hydrate::Settled { .. } => self,
        }
    }

    /// The keychain could not be read.
    pub open spec fn failed(self) -> StoreModel {
        StoreModel { phase: AttachPhase::ReadFailed, ..self }
    }
}

/// Memory-first store.
pub struct SecretStore {
    pub values: KeyMap<SecretKey, String>,
    pub dirty: KeySet<SecretKey>,
    pub discord_bot_token: Option<String>,
    pub discord_token_dirty: bool,
    pub slack: KeyMap<SlackSecretKey, String>,
    pub slack_dirty: KeySet<SlackSecretKey>,
    pub flush_pending: bool,
    pub flush_in_flight: bool,
    pub phase: AttachPhase,
    pub os_backend: Option<OsBackend>,
    pub discord_hydrate: Hydrate,
    pub slack_hydrate: Hydrate,
}

impl View for SecretStore {
    type V = StoreModel;

    open spec fn view(&self) -> StoreModel {
        StoreModel {
            values: self.values.deep_view(),
            dirty: self.dirty.deep_view(),
            discord_bot_token: self.discord_bot_token.deep_view(),
            discord_token_dirty: self.discord_token_dirty,
            slack: self.slack.deep_view(),
            slack_dirty: self.slack_dirty.deep_view(),
            flush_pending: self.flush_pending,
            flush_in_flight: self.flush_in_flight,
            phase: self.phase,
            os_backend: self.os_backend,
            discord_hydrate: self.discord_hydrate,
            slack_hydrate: self.slack_hydrate,
        }
    }
}

/// The models of keychain pairs.
pub open spec fn pairs_of<K: Key>(pairs: Seq<(K, String)>) -> Seq<(K::V, Text)> {
    Seq::new(pairs.len(), |i: int| (pairs[i].0.deep_view(), pairs[i].1@))
}

/// The model of a keychain read of one token.
pub open spec fn token_read(value: Result<Option<String>, SecretError>) -> Result<
    Option<Text>,
    Text,
> {
    match value {
        Ok(Some(raw)) => Ok(Some(raw@)),
        Ok(None) => Ok(None),
        Err(error) => Err(error.message@),
    }
}

/// Store one value under its key, trimmed. A blank value removes the key.
fn store_value<K: Key>(map: &mut KeyMap<K, String>, key: K, value: &str)
    ensures
        final(map).deep_view() == stored(old(map).deep_view(), key.deep_view(), value@),
{
    let kept = trimmed(value);
    if kept.is_empty() {
        map.remove(&key);
    } else {
        map.insert(key, kept.to_owned());
    }
}

/// Store keychain pairs one by one, except the dirty keys.
fn hydrate_map<K: Key + Copy>(
    map: &mut KeyMap<K, String>,
    dirty: &KeySet<K>,
    pairs: &Vec<(K, String)>,
)
    ensures
        final(map).deep_view() == hydrated(
            old(map).deep_view(),
            dirty.deep_view(),
            pairs_of(pairs@),
        ),
{
    let ghost all = pairs_of(pairs@);
    let mut i: usize = 0;
    assert(all.take(0) =~= Seq::empty());
    while i < pairs.len()
        invariant
            i <= pairs.len(),
            all == pairs_of(pairs@),
            map.deep_view() == hydrated(
                old(map).deep_view(),
                dirty.deep_view(),
                all.take(i as int),
            ),
        decreases pairs.len() - i,
    {
        proof {
            let next = all.take(i + 1);
            assert(next.drop_last() =~= all.take(i as int));
            assert(next.last() == all[i as int]);
        }
        if !dirty.contains(&pairs[i].0) {
            store_value(map, pairs[i].0, pairs[i].1.as_str());
        }
        i = i + 1;
    }
    assert(all.take(i as int) =~= all);
}

impl SecretStore {
    /// An empty store in this phase.
    pub fn blank(phase: AttachPhase) -> (r: Self)
        ensures
            r@ == StoreModel::blank(phase),
    {
        let hydrate = match phase {
            AttachPhase::MemoryOnly => Hydrate::Settled { notify: false },
            _ => Hydrate::Waiting { waiter: false },
        };
        SecretStore {
            values: KeyMap::new(),
            dirty: KeySet::new(),
            discord_bot_token: None,
            discord_token_dirty: false,
            slack: KeyMap::new(),
            slack_dirty: KeySet::new(),
            flush_pending: false,
            flush_in_flight: false,
            phase,
            os_backend: None,
            discord_hydrate: hydrate,
            slack_hydrate: hydrate,
        }
    }

    /// A store that never reads or writes the OS keychain.
    pub fn memory() -> (r: Self)
        ensures
            r@ == StoreModel::blank(AttachPhase::MemoryOnly),
    {
        SecretStore::blank(AttachPhase::MemoryOnly)
    }

    /// The store of a demo: settled and empty, as after a keychain read.
    pub fn demo_saved() -> (r: Self)
        ensures
            r@ == StoreModel::demo_saved(),
    {
        SecretStore::blank(AttachPhase::Ready)
    }

    /// The store of a demo whose keychain read failed.
    pub fn demo_read_failed() -> (r: Self)
        ensures
            r@ == StoreModel::demo_read_failed(),
    {
        let mut store = SecretStore::blank(AttachPhase::Detached);
        store.finish_read_failed();
        store
    }

    /// A store for the shell. `memory_requested`: the user keeps secrets in
    /// memory; otherwise a worker attaches the OS keychain.
    pub fn for_ui(memory_requested: bool) -> (r: Self)
        ensures
            r@ == StoreModel::blank(
                if memory_requested {
                    AttachPhase::MemoryOnly
                } else {
                    AttachPhase::Detached
                },
            ),
    {
        if memory_requested {
            SecretStore::memory()
        } else {
            SecretStore::blank(AttachPhase::Detached)
        }
    }

    /// The name of the store in use.
    pub fn backend_name(&self) -> (r: &'static str)
        ensures
            r@ == (if self@.phase == AttachPhase::Ready {
                "os-keychain"@
            } else {
                "memory"@
            }),
    {
        match self.phase {
            AttachPhase::Ready => "os-keychain",
            _ => "memory",
        }
    }

    /// What a log may show: the backend, never a secret.
    pub fn debug_text(&self) -> (r: String)
        ensures
            r@ == "SecretStore { backend: \""@ + (if self@.phase == AttachPhase::Ready {
                "os-keychain"@
            } else {
                "memory"@
            }) + "\", secrets: \"<redacted>\" }"@,
    {
        let mut text = "SecretStore { backend: \"".to_owned();
        text.append(self.backend_name());
        text.append("\", secrets: \"<redacted>\" }");
        text
    }

    /// True once OS attach finished or the store is memory-only. Values read
    /// after this point include what the keychain held at launch.
    pub fn attach_settled(&self) -> (r: bool)
        ensures
            r == self@.settled(),
    {
        match self.phase {
            AttachPhase::Ready => true,
            AttachPhase::MemoryOnly => true,
            _ => false,
        }
    }

    /// The keychain opened, but a read failed. The shell offers Try again and
    /// does not start a sign-in.
    pub fn read_failed(&self) -> (r: bool)
        ensures
            r == (self@.phase == AttachPhase::ReadFailed),
    {
        self.phase == AttachPhase::ReadFailed
    }

    /// How long a sign-in lasts with the store in use.
    pub fn persistence(&self) -> (r: Persistence)
        ensures
            r == self@.lasts(),
    {
        match self.phase {
            AttachPhase::MemoryOnly => Persistence::ThisSession,
            AttachPhase::Ready => match self.os_backend {
                Some(backend) => if backend.survives_restart() {
                    Persistence::Saved
                } else {
                    Persistence::UntilRestart
                },
                None => Persistence::Saved,
            },
            _ => Persistence::Loading,
        }
    }

    /// The Telegram data can outlive this app session.
    pub fn persists(&self) -> (r: bool)
        ensures
            r == (self@.phase != AttachPhase::MemoryOnly),
    {
        match self.phase {
            AttachPhase::MemoryOnly => false,
            _ => true,
        }
    }

    /// The folder of the Telegram data. A kernel keyring has its own, so a
    /// lost key can never touch the session of another store.
    pub fn tdlib_folder_name(&self) -> (r: &'static str)
        ensures
            r@ == (if self@.os_backend == Some(OsBackend::KernelKeyring) {
                TDLIB_KEYUTILS_FOLDER@
            } else {
                TDLIB_FOLDER@
            }),
    {
        match self.os_backend {
            Some(OsBackend::KernelKeyring) => TDLIB_KEYUTILS_FOLDER,
            _ => TDLIB_FOLDER,
        }
    }

    /// Update the in-memory value and mark the key dirty, so a hydrate that
    /// finishes later cannot overwrite it. A blank value removes the key.
    pub fn set_secret(&mut self, key: SecretKey, value: &str)
        ensures
            final(self)@ == old(self)@.set(key, value@),
    {
        store_value(&mut self.values, key, value);
        self.dirty.insert(key);
    }

    /// [`Self::set_secret`] for callers that handle a store failure. Memory
    /// does not fail.
    pub fn set(&mut self, key: SecretKey, value: &str) -> (r: Result<(), SecretError>)
        ensures
            r.is_ok(),
            final(self)@ == old(self)@.set(key, value@),
    {
        self.set_secret(key, value);
        Ok(())
    }

    /// Remove the in-memory value and mark the key dirty.
    pub fn delete(&mut self, key: SecretKey) -> (r: Result<(), SecretError>)
        ensures
            r.is_ok(),
            final(self)@ == old(self)@.set(key, Seq::empty()),
    {
        proof {
            reveal_strlit("");
            assert(""@ =~= Seq::<char>::empty());
        }
        self.set(key, "")
    }

    /// Drop the phone number, the code, and the password of a login.
    pub fn clear_ephemeral(&mut self)
        ensures
            final(self)@ == old(self)@.without_ephemeral(),
    {
        proof {
            reveal_strlit("");
            assert(""@ =~= Seq::<char>::empty());
        }
        self.set_secret(SecretKey::Phone, "");
        self.set_secret(SecretKey::Code, "");
        self.set_secret(SecretKey::Password, "");
    }

    /// The in-memory value, for callers that handle a store failure. Memory
    /// does not fail.
    pub fn get(&self, key: SecretKey) -> (r: Result<Option<String>, SecretError>)
        ensures
            r matches Ok(value) && value.deep_view() == self@.value(key),
    {
        Ok(self.get_secret(key))
    }

    /// The in-memory value.
    pub fn get_secret(&self, key: SecretKey) -> (r: Option<String>)
        ensures
            r.deep_view() == self@.value(key),
    {
        match self.values.get(&key) {
            Some(value) => Some(value.clone()),
            None => None,
        }
    }

    /// The key has an in-memory value.
    pub fn holds(&self, key: SecretKey) -> (r: bool)
        ensures
            r == self@.values.contains_key(key),
    {
        self.values.contains_key(&key)
    }

    /// Update the in-memory Discord bot token. A blank value removes it.
    pub fn set_discord_bot_token(&mut self, value: &str) -> (r: Result<(), SecretError>)
        ensures
            r.is_ok(),
            final(self)@ == (StoreModel {
                discord_bot_token: token_of(value@),
                discord_token_dirty: true,
                ..old(self)@
            }),
    {
        let kept = trimmed(value);
        if kept.is_empty() {
            self.discord_bot_token = None;
        } else {
            self.discord_bot_token = Some(kept.to_owned());
        }
        self.discord_token_dirty = true;
        Ok(())
    }

    /// The in-memory Discord bot token, for callers that handle a store
    /// failure. Memory does not fail.
    pub fn discord_bot_token(&self) -> (r: Result<Option<String>, SecretError>)
        ensures
            r matches Ok(token) && token.deep_view() == self@.discord_bot_token,
    {
        Ok(self.bot_token())
    }

    /// The in-memory Discord bot token.
    pub fn bot_token(&self) -> (r: Option<String>)
        ensures
            r.deep_view() == self@.discord_bot_token,
    {
        match &self.discord_bot_token {
            Some(token) => Some(token.clone()),
            None => None,
        }
    }

    /// Update one in-memory value of the Slack install. A blank value removes
    /// it. A key that never reaches the keychain does not become dirty.
    pub fn set_slack(&mut self, key: SlackSecretKey, value: &str)
        ensures
            final(self)@ == (StoreModel {
                slack: stored(old(self)@.slack, key, value@),
                slack_dirty: if key == SlackSecretKey::OAuthState {
                    old(self)@.slack_dirty
                } else {
                    old(self)@.slack_dirty.insert(key)
                },
                ..old(self)@
            }),
    {
        store_value(&mut self.slack, key, value);
        if key.persist_to_os() {
            self.slack_dirty.insert(key);
        }
    }

    /// One in-memory value of the Slack install.
    pub fn slack_secret(&self, key: SlackSecretKey) -> (r: Option<String>)
        ensures
            r.deep_view() == self@.slack.get(key),
    {
        match self.slack.get(&key) {
            Some(value) => Some(value.clone()),
            None => None,
        }
    }

    /// A reconnect asks for the Discord token that attach may bring. True: the
    /// token is there, connect now. A memory-only store never says so.
    pub fn on_discord_token_hydrated(&mut self) -> (now: bool)
        ensures
            now == old(self)@.discord_fires_now(),
            final(self)@ == old(self)@.discord_waited(),
    {
        match self.discord_hydrate {
            Hydrate::Waiting { .. } => {
                self.discord_hydrate = Hydrate::Waiting { waiter: true };
                false
            },
            Hydrate::Settled { notify } => notify && self.discord_bot_token.is_some(),
        }
    }

    /// Attach finished. True: a reconnect waits and a Discord token is there.
    pub fn signal_discord_hydrated(&mut self) -> (now: bool)
        ensures
            now == old(self)@.wakes_discord(),
            final(self)@ == old(self)@.discord_told(),
    {
        match self.discord_hydrate {
            Hydrate::Waiting { waiter } => {
                let present = self.discord_bot_token.is_some();
                self.discord_hydrate = Hydrate::Settled { notify: present };
                waiter && present
            },
            Hydrate::Settled { .. } => false,
        }
    }

    /// A reconnect asks for the Slack token that attach may bring. True: the
    /// token is there, connect now. A memory-only store never says so.
    pub fn on_slack_token_hydrated(&mut self) -> (now: bool)
        ensures
            match old(self)@.slack_hydrate {
                Hydrate::Waiting { .. } => !now && final(self)@ == (StoreModel {
                    slack_hydrate: Hydrate::Waiting { waiter: true },
                    ..old(self)@
                }),
                Hydrate::Settled { notify } => now == (notify && old(self)@.slack.contains_key(
                    SlackSecretKey::BotToken,
                )) && final(self)@ == old(self)@,
            },
    {
        match self.slack_hydrate {
            Hydrate::Waiting { .. } => {
                self.slack_hydrate = Hydrate::Waiting { waiter: true };
                false
            },
            Hydrate::Settled { notify } => notify && self.slack.contains_key(
                &SlackSecretKey::BotToken,
            ),
        }
    }

    /// Attach finished. True: a reconnect waits and a Slack token is there.
    pub fn signal_slack_hydrated(&mut self) -> (now: bool)
        ensures
            now == old(self)@.wakes_slack(),
            final(self)@ == old(self)@.slack_told(),
    {
        match self.slack_hydrate {
            Hydrate::Waiting { waiter } => {
                let present = self.slack.contains_key(&SlackSecretKey::BotToken);
                self.slack_hydrate = Hydrate::Settled { notify: present };
                waiter && present
            },
            Hydrate::Settled { .. } => false,
        }
    }

    /// Try again after a failed read: the phase leaves `ReadFailed` before any
    /// worker runs, so a new keychain watch does not stop at the old failure.
    pub fn leave_read_failed(&mut self)
        ensures
            final(self)@ == old(self)@.retried(),
    {
        if self.phase == AttachPhase::ReadFailed {
            self.phase = AttachPhase::Attaching;
        }
    }

    /// Ask for a flush of the keychain.
    pub fn request_flush(&mut self) -> (r: FlushAction)
        ensures
            final(self)@ == old(self)@.flush_asked(),
            r == (if old(self)@.phase == AttachPhase::MemoryOnly {
                FlushAction::Ignore
            } else if old(self)@.starts_flush() {
                FlushAction::Spawn
            } else {
                FlushAction::Defer
            }),
    {
        match self.phase {
            AttachPhase::Ready => if self.flush_in_flight {
                self.flush_pending = true;
                FlushAction::Defer
            } else {
                self.flush_in_flight = true;
                FlushAction::Spawn
            },
            AttachPhase::MemoryOnly => FlushAction::Ignore,
            _ => {
                self.flush_pending = true;
                FlushAction::Defer
            },
        }
    }

    /// A worker starts to attach. False: attach settled before, nothing to do.
    pub fn begin_attach(&mut self) -> (go: bool)
        ensures
            go == !old(self)@.settled(),
            final(self)@ == (if old(self)@.settled() {
                old(self)@
            } else {
                StoreModel { phase: AttachPhase::Attaching, ..old(self)@ }
            }),
    {
        if self.attach_settled() {
            return false;
        }
        self.phase = AttachPhase::Attaching;
        true
    }

    /// The keychain could not be read: the keys are unknown, and the shell
    /// offers Try again.
    pub fn finish_read_failed(&mut self)
        ensures
            final(self)@ == old(self)@.failed(),
    {
        self.phase = AttachPhase::ReadFailed;
    }

    /// There is no usable OS keychain: secrets stay in memory this session.
    pub fn finish_memory_only(&mut self)
        ensures
            final(self)@ == old(self)@.memory_only(),
    {
        self.phase = AttachPhase::MemoryOnly;
        self.flush_pending = false;
        self.flush_in_flight = false;
    }

    /// Merge what the keychain held. Dirty keys of the shell win. Returns
    /// whether a deferred flush or a dirty write must reach the keychain.
    pub fn finish_ready(&mut self, os_values: &Vec<(SecretKey, String)>, backend: Option<OsBackend>) -> (flush:
        bool)
        ensures
            flush == old(self)@.owes_write(),
            final(self)@ == old(self)@.ready(pairs_of(os_values@), backend),
    {
        if backend.is_some() {
            self.os_backend = backend;
        }
        hydrate_map(&mut self.values, &self.dirty, os_values);
        self.phase = AttachPhase::Ready;
        let flush = self.flush_pending || !self.dirty.is_empty() || self.discord_token_dirty
            || !self.slack_dirty.is_empty();
        self.flush_pending = false;
        self.dirty.clear();
        if flush {
            self.flush_in_flight = true;
        }
        flush
    }

    /// Apply one probe of the Telegram keys. A read error drops what was read,
    /// also when it holds a session: a part of the keys must not become
    /// `Ready` with the database key missing.
    pub fn settle_after_probe(
        &mut self,
        backend: OsBackend,
        os_values: &Vec<(SecretKey, String)>,
        failed: bool,
    ) -> (flush: bool)
        ensures
            failed ==> !flush && final(self)@ == old(self)@.failed(),
            !failed ==> flush == old(self)@.owes_write() && final(self)@ == old(self)@.ready(
                pairs_of(os_values@),
                Some(backend),
            ),
    {
        if failed {
            self.finish_read_failed();
            return false;
        }
        self.finish_ready(os_values, Some(backend))
    }

    /// Take over the Discord token that the keychain held. A dirty token of
    /// the shell wins.
    pub fn store_hydrated_discord_token(&mut self, value: Result<Option<String>, SecretError>)
        ensures
            final(self)@ == old(self)@.with_discord_token(token_read(value)),
    {
        if self.discord_token_dirty {
            return ;
        }
        match value {
            Ok(Some(raw)) => {
                let kept = trimmed(raw.as_str());
                if kept.is_empty() {
                    self.discord_bot_token = None;
                } else {
                    self.discord_bot_token = Some(kept.to_owned());
                }
            },
            Ok(None) => {},
            Err(_) => {},
        }
    }

    /// Take over the Slack install that the keychain held. Dirty keys of the
    /// shell win.
    pub fn store_hydrated_slack(&mut self, pairs: &Vec<(SlackSecretKey, String)>)
        ensures
            final(self)@ == old(self)@.with_slack(pairs_of(pairs@)),
    {
        hydrate_map(&mut self.slack, &self.slack_dirty, pairs);
    }

    /// Apply one read of the keychain. A Slack read error leaves attach
    /// unsettled, the same as a Telegram read error: no `Ready`, and the
    /// waiting reconnects wait for Try again.
    pub fn store_probed_secrets(
        &mut self,
        backend: OsBackend,
        telegram: Result<Vec<(SecretKey, String)>, SecretError>,
        discord_token: Result<Option<String>, SecretError>,
        slack_install: Result<Vec<(SlackSecretKey, String)>, SecretError>,
    ) -> (r: AfterProbe)
        ensures
            slack_install.is_err() ==> r == (AfterProbe { flush: false, signal: false })
                && final(self)@ == old(self)@.failed(),
            telegram.is_err() ==> r == (AfterProbe { flush: false, signal: false }),
            (slack_install matches Ok(slack) && telegram.is_err()) ==> final(self)@ == old(self)@.failed().with_discord_token(
                token_read(discord_token),
            ).with_slack(pairs_of(slack_install->Ok_0@)),
            (slack_install.is_ok() && telegram.is_ok()) ==> r == (AfterProbe {
                flush: old(self)@.owes_write(),
                signal: true,
            }) && final(self)@ == old(self)@.ready(
                pairs_of(telegram->Ok_0@),
                Some(backend),
            ).with_discord_token(token_read(discord_token)).with_slack(
                pairs_of(slack_install->Ok_0@),
            ),
    {
        match slack_install {
            Err(_) => {
                self.finish_read_failed();
                AfterProbe { flush: false, signal: false }
            },
            Ok(slack) => {
                let read = telegram.is_ok();
                let flush = match telegram {
                    Ok(os_values) => self.settle_after_probe(backend, &os_values, false),
                    Err(_) => {
                        let none: Vec<(SecretKey, String)> = Vec::new();
                        self.settle_after_probe(backend, &none, true)
                    },
                };
                self.store_hydrated_discord_token(discord_token);
                self.store_hydrated_slack(&slack);
                AfterProbe { flush, signal: read }
            },
        }
    }

    /// What a flush worker writes next: every persistent key with its value,
    /// or with none to delete it. `None`: the store is not `Ready`.
    pub fn take_flush_snapshot(&mut self) -> (r: Option<Vec<(SecretKey, Option<String>)>>)
        ensures
            old(self)@.phase == AttachPhase::Ready ==> final(self)@ == (StoreModel {
                flush_pending: false,
                ..old(self)@
            }),
            old(self)@.phase != AttachPhase::Ready ==> r.is_none() && final(self)@ == (StoreModel {
                flush_pending: false,
                flush_in_flight: false,
                ..old(self)@
            }),
            old(self)@.phase == AttachPhase::Ready ==> match r {
                Some(snapshot) => snapshot@.len() == persistent_keys().len() && forall|i: int|
                    0 <= i < snapshot@.len() ==> (#[trigger] snapshot@[i]).0
                        == persistent_keys()[i] && snapshot@[i].1.deep_view() == old(self)@.value(
                        persistent_keys()[i],
                    ),
                None => false,
            },
    {
        self.flush_pending = false;
        if self.phase != AttachPhase::Ready {
            self.flush_in_flight = false;
            return None;
        }
        let mut snapshot: Vec<(SecretKey, Option<String>)> = Vec::new();
        snapshot.push((SecretKey::ApiId, self.get_secret(SecretKey::ApiId)));
        snapshot.push((SecretKey::ApiHash, self.get_secret(SecretKey::ApiHash)));
        snapshot.push((SecretKey::Session, self.get_secret(SecretKey::Session)));
        snapshot.push((SecretKey::DbEncryption, self.get_secret(SecretKey::DbEncryption)));
        Some(snapshot)
    }

    /// A flush worker wrote one snapshot. True: a request came meanwhile, write
    /// again. False: the flush ends.
    pub fn finish_flush_cycle(&mut self) -> (again: bool)
        ensures
            again == (old(self)@.phase == AttachPhase::Ready && old(self)@.flush_pending),
            final(self)@ == (if again {
                StoreModel { flush_pending: false, ..old(self)@ }
            } else {
                StoreModel { flush_in_flight: false, ..old(self)@ }
            }),
    {
        if self.phase == AttachPhase::Ready && self.flush_pending {
            self.flush_pending = false;
            return true;
        }
        self.flush_in_flight = false;
        false
    }

    /// What a flush worker does after it wrote one snapshot, or failed to. A
    /// request that came meanwhile runs also after a failure.
    pub fn after_commit(&mut self, failed: bool) -> (r: FlushNext)
        ensures
            ({
                let again = old(self)@.phase == AttachPhase::Ready && old(self)@.flush_pending;
                &&& r == (if again {
                    FlushNext::Again
                } else if failed {
                    FlushNext::Failed
                } else {
                    FlushNext::Done
                })
                &&& final(self)@ == (if again {
                    StoreModel { flush_pending: false, ..old(self)@ }
                } else {
                    StoreModel { flush_in_flight: false, ..old(self)@ }
                })
            }),
    {
        if self.finish_flush_cycle() {
            FlushNext::Again
        } else if failed {
            FlushNext::Failed
        } else {
            FlushNext::Done
        }
    }

    /// The Discord token that a flush writes: `Some(None)` deletes it. `None`:
    /// there is nothing to write.
    pub fn take_discord_write(&mut self) -> (r: Option<Option<String>>)
        ensures
            ({
                let write = old(self)@.phase == AttachPhase::Ready && old(
                    self,
                )@.discord_token_dirty;
                &&& write ==> (r matches Some(token) && token.deep_view() == old(
                    self,
                )@.discord_bot_token) && final(self)@ == (StoreModel {
                    discord_token_dirty: false,
                    ..old(self)@
                })
                &&& !write ==> r.is_none() && final(self)@ == old(self)@
            }),
    {
        if self.phase != AttachPhase::Ready || !self.discord_token_dirty {
            return None;
        }
        self.discord_token_dirty = false;
        Some(self.bot_token())
    }

    /// The write of the Discord token failed: a later flush writes it again.
    pub fn discord_write_failed(&mut self)
        ensures
            final(self)@ == (StoreModel { discord_token_dirty: true, ..old(self)@ }),
    {
        self.discord_token_dirty = true;
    }

    /// The Slack values that a flush writes; no value deletes the key. Each
    /// dirty key comes once, and none is dirty afterwards.
    pub fn take_slack_writes(&mut self) -> (r: Vec<(SlackSecretKey, Option<String>)>)
        ensures
            old(self)@.phase != AttachPhase::Ready ==> r@.len() == 0 && final(self)@ == old(self)@,
            old(self)@.phase == AttachPhase::Ready ==> {
                &&& final(self)@ == (StoreModel {
                    slack_dirty: Set::empty(),
                    ..old(self)@
                })
                &&& forall|i: int|
                    0 <= i < r@.len() ==> old(self)@.slack_dirty.contains((#[trigger] r@[i]).0)
                        && r@[i].1.deep_view() == old(self)@.slack.get(r@[i].0)
                &&& forall|i: int, j: int|
                    0 <= i < j < r@.len() ==> (#[trigger] r@[i]).0 != (#[trigger] r@[j]).0
                &&& forall|key: SlackSecretKey| #[trigger]
                    old(self)@.slack_dirty.contains(key) ==> exists|i: int|
                        0 <= i < r@.len() && (#[trigger] r@[i]).0 == key
            },
    {
        let mut r: Vec<(SlackSecretKey, Option<String>)> = Vec::new();
        if self.phase != AttachPhase::Ready {
            return r;
        }
        let n = self.slack_dirty.len();
        let ghost rows = self.slack_dirty.rows_model();
        let mut i: usize = 0;
        while i < n
            invariant
                i <= n,
                n == rows.len(),
                rows == self.slack_dirty.rows_model(),
                self@ == old(self)@,
                rows.no_duplicates(),
                forall|k: SlackSecretKey| #[trigger]
                    self@.slack_dirty.contains(k) == rows.contains(k),
                r@.len() == i,
                forall|j: int|
                    0 <= j < i ==> (#[trigger] r@[j]).0 == rows[j] && r@[j].1.deep_view()
                        == self@.slack.get(r@[j].0),
            decreases n - i,
        {
            let key: SlackSecretKey = *self.slack_dirty.row(i);
            let value = self.slack_secret(key);
            r.push((key, value));
            i = i + 1;
        }
        proof {
            assert forall|j: int| 0 <= j < r@.len() implies self@.slack_dirty.contains(
                (#[trigger] r@[j]).0,
            ) by {
                assert(rows.contains(rows[j]));
            }
            assert forall|key: SlackSecretKey| #[trigger]
                self@.slack_dirty.contains(key) implies exists|j: int|
                0 <= j < r@.len() && (#[trigger] r@[j]).0 == key by {
                assert(rows.contains(key));
                let j = choose|j: int| 0 <= j < rows.len() && rows[j] == key;
                assert(r@[j].0 == key);
            }
        }
        self.slack_dirty.clear();
        r
    }

    /// A Slack write failed: the keys that were not written are dirty again.
    pub fn requeue_slack(&mut self, unwritten: &Vec<SlackSecretKey>)
        ensures
            final(self)@ == (StoreModel {
                slack_dirty: old(self)@.slack_dirty.union(unwritten@.to_set()),
                ..old(self)@
            }),
    {
        let mut i: usize = 0;
        let ghost all = unwritten@;
        assert(self@.slack_dirty.union(all.take(0).to_set()) =~= self@.slack_dirty);
        while i < unwritten.len()
            invariant
                i <= unwritten.len(),
                all == unwritten@,
                self@ == (StoreModel {
                    slack_dirty: old(self)@.slack_dirty.union(all.take(i as int).to_set()),
                    ..old(self)@
                }),
            decreases unwritten.len() - i,
        {
            self.slack_dirty.insert(unwritten[i]);
            proof {
                let before = all.take(i as int);
                let next = all.take(i + 1);
                assert(next =~= before.push(all[i as int]));
                before.lemma_push_to_set_commute(all[i as int]);
                assert(old(self)@.slack_dirty.union(next.to_set()) =~= old(
                    self,
                )@.slack_dirty.union(before.to_set()).insert(all[i as int]));
            }
            i = i + 1;
        }
        assert(all.take(i as int) =~= all);
    }
}

proof fn lemma_dirty_stays<K>(map: Map<K, Text>, dirty: Set<K>, pairs: Seq<(K, Text)>, key: K)
    requires
        dirty.contains(key),
    ensures
        hydrated(map, dirty, pairs).contains_key(key) == map.contains_key(key),
        map.contains_key(key) ==> hydrated(map, dirty, pairs)[key] == map[key],
    decreases pairs.len(),
{
    if pairs.len() > 0 {
        lemma_dirty_stays(map, dirty, pairs.drop_last(), key);
    }
}

/// A read gives back what a write wrote, without white space at its ends. A
/// blank write removes the key.
pub proof fn law_write_reads_back(store: StoreModel, key: SecretKey, value: Text)
    ensures
        store.set(key, value).value(key) == (if trim(value).len() == 0 {
            None
        } else {
            Some(trim(value))
        }),
        forall|other: SecretKey|
            other != key ==> #[trigger] store.set(key, value).value(other) == store.value(other),
{
}

/// A write before the keychain read ended wins over what the keychain holds,
/// and the end of the read owes the keychain that write.
pub proof fn law_late_read_does_not_overwrite(
    store: StoreModel,
    key: SecretKey,
    value: Text,
    pairs: Seq<(SecretKey, Text)>,
    backend: Option<OsBackend>,
)
    ensures
        store.set(key, value).ready(pairs, backend).value(key) == store.set(key, value).value(key),
        store.set(key, value).owes_write(),
{
    let written = store.set(key, value);
    lemma_dirty_stays(written.values, written.dirty, pairs, key);
    assert(written.dirty.contains(key));
}

/// A reconnect that waits for a token waits through a failed read: neither the
/// failure, nor the tokens that came with it, nor Try again ends the wait. When
/// Try again then brings the token, the reconnect wakes.
pub proof fn law_wait_outlives_a_failed_read(
    store: StoreModel,
    token: Result<Option<Text>, Text>,
    install: Seq<(SlackSecretKey, Text)>,
    pairs: Seq<(SecretKey, Text)>,
    backend: Option<OsBackend>,
    later: Result<Option<Text>, Text>,
    again: Seq<(SlackSecretKey, Text)>,
)
    requires
        store.discord_hydrate == (Hydrate::Waiting { waiter: true }),
        store.slack_hydrate == (Hydrate::Waiting { waiter: true }),
    ensures
        store.failed().discord_hydrate == store.discord_hydrate,
        store.failed().slack_hydrate == store.slack_hydrate,
        ({
            let failed = store.failed().with_discord_token(token).with_slack(install);
            let read = failed.retried().ready(pairs, backend).with_discord_token(later).with_slack(
                again,
            );
            &&& failed.phase == AttachPhase::ReadFailed
            &&& failed.discord_hydrate == store.discord_hydrate
            &&& failed.slack_hydrate == store.slack_hydrate
            &&& failed.retried().discord_hydrate == store.discord_hydrate
            &&& failed.retried().slack_hydrate == store.slack_hydrate
            &&& read.settled()
            &&& read.wakes_discord() == read.discord_bot_token.is_some()
            &&& read.wakes_slack() == read.slack.contains_key(SlackSecretKey::BotToken)
        }),
{
}

/// Every value holds text, without white space at its ends.
pub open spec fn clean<K>(map: Map<K, Text>) -> bool {
    forall|key: K| #[trigger]
        map.contains_key(key) ==> map[key].len() > 0 && trim(map[key]) == map[key]
}

proof fn lemma_hydrated_clean<K>(map: Map<K, Text>, dirty: Set<K>, pairs: Seq<(K, Text)>)
    requires
        clean(map),
    ensures
        clean(hydrated(map, dirty, pairs)),
    decreases pairs.len(),
{
    if pairs.len() > 0 {
        lemma_hydrated_clean(map, dirty, pairs.drop_last());
        law_trim_twice(pairs.last().1);
    }
}

/// A stored value is never blank and never has white space at its ends,
/// whoever wrote it: the shell, or a keychain read.
pub proof fn law_stored_values_are_clean(
    store: StoreModel,
    key: SecretKey,
    value: Text,
    pairs: Seq<(SecretKey, Text)>,
    install: Seq<(SlackSecretKey, Text)>,
    backend: Option<OsBackend>,
)
    requires
        clean(store.values),
        clean(store.slack),
    ensures
        clean(store.set(key, value).values),
        clean(store.ready(pairs, backend).values),
        clean(store.with_slack(install).slack),
{
    law_trim_twice(value);
    lemma_hydrated_clean(store.values, store.dirty, pairs);
    lemma_hydrated_clean(store.slack, store.slack_dirty, install);
}

/// A flush is never lost: one that cannot start now is remembered, and the end
/// of the running flush, or of the keychain read, does it. A memory-only store
/// never writes.
pub proof fn law_flush_is_not_lost(
    store: StoreModel,
    pairs: Seq<(SecretKey, Text)>,
    backend: Option<OsBackend>,
)
    ensures
        store.phase == AttachPhase::MemoryOnly ==> store.flush_asked() == store,
        store.phase != AttachPhase::MemoryOnly ==> store.flush_asked().flush_in_flight
            || store.flush_asked().flush_pending,
        !store.settled() ==> store.flush_asked().owes_write() && store.flush_asked().ready(
            pairs,
            backend,
        ).flush_in_flight,
        store.starts_flush() ==> !store.flush_asked().starts_flush(),
{
}

/// What a login typed is never written to the OS keychain.
pub proof fn law_typed_secrets_stay_in_memory(i: int, j: int)
    requires
        0 <= i < persistent_keys().len(),
        0 <= j < ephemeral_keys().len(),
    ensures
        persistent_keys()[i] != ephemeral_keys()[j],
{
}

} // verus!
