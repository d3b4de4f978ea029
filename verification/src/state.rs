//! App state. It changes only on the frontend thread, from adapter events and
//! user actions. Times are milliseconds of one steady clock.

use crate::keyed::{Key, KeyMap, KeySet};
use crate::protocol::{
    AccountState, AdapterCommand, AdapterStatus, Build, ChatMessage, Conversation,
    ProtocolCapabilities, ProtocolId, TelegramApiSource, TelegramAuthError, TelegramCodeVia, Text,
    catalog, catalog_order, detail_of, sends_text_of,
};
use crate::sends::{SendTracker, SendsModel};
use crate::state::model::{
    AccountModel, ErrorModel, OlderTryModel, RejectedModel, SnapshotModel, TimedOutModel,
    chrome_enabled, filter_matches, login_error, rank_of, reset_notice, wait_after, wait_minutes,
};
use crate::text::{decimal_text, parse_integer, signed_decimal_text, tail_after};
use vstd::prelude::*;
use vstd::string::*;

pub mod action_laws;
pub mod detail_laws;
pub mod event_laws;
mod events;
pub mod facts;
mod gates;
mod inbox;
pub mod laws;
mod login;
pub mod login_laws;
pub mod model;
pub mod order;
pub mod reading_laws;
pub mod send_laws;
mod sending;
pub mod session_laws;
pub mod soundness;
pub mod text_laws;

verus! {

/// Shown until TDLib reports Ready, in a build without it.
pub const TDLIB_UNAVAILABLE_BANNER: &'static str = "TDLib unavailable in this build. Enable feature telegram-tdlib after a local TDLib install. These screens do not open a live Telegram session.";

/// Shown until TDLib reports Ready, in a build with it. It drops only on Ready.
pub const TELEGRAM_STUB_UNTIL_READY: &'static str = "Telegram is not signed in yet.";

/// Status line when Add Telegram is pressed before the keychain read ends.
pub const KEYCHAIN_LOADING_STATUS: &'static str = "Reading the keychain. Try again in a moment.";

/// Copy on the phone step when a saved session no longer works.
pub const SESSION_ENDED_NOTICE: &'static str = "Your Telegram session ended. Sign in again.";

/// Status line while a new client starts, before the phone step.
pub const CONNECTING_STATUS: &'static str = "Connecting to Telegram…";

/// Center panel copy when a keychain read failed: the values are unknown.
pub const KEYCHAIN_READ_FAILED: &'static str = "The keychain could not be read. Your saved sign-in did not load. Unlock the keychain, then press Try again.";

/// Status line while a chat list loads.
pub const LOADING_CHATS_STATUS: &'static str = "Loading chats…";

/// Status line while messages load.
pub const LOADING_MESSAGES_STATUS: &'static str = "Loading messages…";

/// Status line while older messages load.
pub const LOADING_OLDER_STATUS: &'static str = "Loading older messages…";

/// Status line while a message is sent.
pub const SENDING_STATUS: &'static str = "Sending…";

/// Center panel copy while the keychain read runs.
pub const KEYCHAIN_OPENING: &'static str = "Opening the keychain…";

/// Center panel copy when the keychain read takes long: a wallet can wait for
/// an unlock prompt.
pub const KEYCHAIN_WAITING: &'static str = "Waiting for the keychain. Unlock it to continue.";

/// Center panel copy while a saved session reconnects.
pub const RESUME_CONNECTING: &'static str = "Connecting to Telegram…";

/// The first status line.
pub const FIRST_STATUS: &'static str = "Sign in with Telegram to get started.";

/// After this many milliseconds, the keychain copy asks the user to unlock it.
pub const KEYCHAIN_SLOW_AFTER: u64 = 1_000;

/// Shortest wait, in milliseconds, before the same older-message anchor is
/// asked again, after a request that brought nothing older.
pub const OLDER_RETRY_DELAY: u64 = 2_000;

/// Longest wait between tries of one anchor, in milliseconds.
pub const OLDER_RETRY_MAX: u64 = 60_000;

/// The build holds the live Telegram client.
pub fn tdlib_compiled(build: Build) -> (r: bool)
    ensures
        r == build.telegram_tdlib,
{
    build.telegram_tdlib
}

/// The banner that says that Telegram is not signed in, if it shows.
pub fn stub_banner(snapshot: &Snapshot) -> (r: Option<&'static str>)
    ensures
        r.deep_view() == (if snapshot@.telegram_authorized {
            None
        } else if snapshot@.build.telegram_tdlib {
            Some(TELEGRAM_STUB_UNTIL_READY@)
        } else {
            Some(TDLIB_UNAVAILABLE_BANNER@)
        }),
{
    if snapshot.telegram_authorized {
        return None;
    }
    if tdlib_compiled(snapshot.build) {
        Some(TELEGRAM_STUB_UNTIL_READY)
    } else {
        Some(TDLIB_UNAVAILABLE_BANNER)
    }
}

/// A top-bar filter of the inbox.
#[derive(Debug, Clone, Copy, PartialEq, Eq, Structural)]
pub enum InboxFilter {
    All,
    Telegram,
    Slack,
}

impl InboxFilter {
    /// Top-bar filters of a build. A part that is off has no tab.
    pub fn chrome_filters(build: Build) -> (r: Vec<InboxFilter>)
        ensures
            r@ == (if build.slack_oauth {
                seq![InboxFilter::All, InboxFilter::Telegram, InboxFilter::Slack]
            } else {
                seq![InboxFilter::All, InboxFilter::Telegram]
            }),
    {
        if build.slack_oauth {
            vec![InboxFilter::All, InboxFilter::Telegram, InboxFilter::Slack]
        } else {
            vec![InboxFilter::All, InboxFilter::Telegram]
        }
    }

    pub fn label(self) -> (r: &'static str)
        ensures
            r@ == (match self {
                InboxFilter::All => "All"@,
                InboxFilter::Telegram => "Telegram"@,
                InboxFilter::Slack => "Slack"@,
            }),
    {
        match self {
            InboxFilter::All => "All",
            InboxFilter::Telegram => "Telegram",
            InboxFilter::Slack => "Slack",
        }
    }

    pub fn matches(self, protocol: ProtocolId) -> (r: bool)
        ensures
            r == filter_matches(self, protocol),
    {
        match self {
            InboxFilter::All => true,
            InboxFilter::Telegram => protocol == ProtocolId::Telegram,
            InboxFilter::Slack => protocol == ProtocolId::Slack,
        }
    }

    /// The filter lets the account chip of this protocol show.
    pub fn shows_in_switcher(self, protocol: ProtocolId) -> (r: bool)
        ensures
            r == filter_matches(self, protocol),
    {
        self.matches(protocol)
    }
}

/// A part of the build shows this protocol.
pub fn protocol_chrome_enabled(protocol: ProtocolId, build: Build) -> (r: bool)
    ensures
        r == chrome_enabled(protocol, build),
{
    match protocol {
        ProtocolId::Telegram => true,
        ProtocolId::Slack => build.slack_oauth,
        ProtocolId::WhatsApp => build.whatsapp_web,
        ProtocolId::Discord => build.discord_bot,
        ProtocolId::Signal => build.signal_local,
    }
}

/// The Telegram login steps.
#[derive(Debug, Clone, Copy, PartialEq, Eq, Structural)]
pub enum AuthScreen {
    Idle,
    NeedCredentials,
    TelegramApi,
    /// The client is starting. The phone step shows only after the adapter
    /// asks for the phone number.
    TelegramConnecting,
    TelegramPhone,
    TelegramCode,
    Telegram2fa,
}

/// Start-up resume of a saved Telegram session. Runs once per launch.
#[derive(Debug, Clone, Copy, PartialEq, Eq, Structural)]
pub enum Resume {
    /// The OS keychain has not finished its first read.
    Waiting,
    /// A saved session exists. The client is starting with no click.
    Connecting,
    /// Resume finished, failed, or did not apply.
    Settled,
}

/// What the center panel shows.
#[derive(Debug, Clone, Copy, PartialEq, Eq, Structural)]
pub enum CenterView {
    Auth,
    /// Spinner. `connecting` adds the text of the reconnect.
    Resuming { connecting: bool },
    FirstRun,
    /// The keychain opened, but a read failed. Try again reads it again.
    KeychainFailed,
    Thread,
}

/// What the inbox list shows for the selected protocol.
#[derive(Debug, Clone, Copy, PartialEq, Eq, Structural)]
pub enum InboxState {
    Rows,
    Loading,
    Empty,
    /// Chats exist, but the search hides all of them.
    NoMatch,
}

/// Older-message paging of the selected chat.
#[derive(Debug, Clone, Copy, PartialEq, Eq, Structural)]
pub enum OlderState {
    /// More can load when the thread reaches the top.
    Idle,
    Loading,
    /// Nothing older is left.
    StartOfChat,
}

/// What the thread shows for the selected chat.
#[derive(Debug, Clone, Copy, PartialEq, Eq, Structural)]
pub enum ThreadState {
    NoSelection,
    Rows,
    Loading,
    Empty,
}

/// Keys that the login form reacts to.
#[derive(Debug, Clone, Copy, PartialEq, Eq, Structural)]
pub enum AuthKey {
    Enter,
    Escape,
}

/// Experimental WhatsApp screens. Only a build with the part can enter them.
#[derive(Debug, Clone, Copy, PartialEq, Eq, Structural)]
pub enum WhatsAppScreen {
    Hidden,
    RiskGate,
    Pair,
}

/// Local-only Signal screens. Only a build with the part can enter them.
#[derive(Debug, Clone, Copy, PartialEq, Eq, Structural)]
pub enum SignalScreen {
    Hidden,
    Notice,
    Link,
}

/// Why the highlight is checked. A search change or a key move always
/// scrolls. A list change scrolls only when the highlight's index changes.
#[derive(Debug, Clone, Copy, PartialEq, Eq, Structural)]
pub enum FocusFollow {
    Query,
    List,
    Moved,
}

/// An error block: what happened, why, and what to do.
#[derive(Debug, PartialEq, Eq)]
pub struct UserError {
    pub happened: String,
    pub why: String,
    pub next: String,
}

impl DeepView for UserError {
    type V = ErrorModel;

    open spec fn deep_view(&self) -> ErrorModel {
        ErrorModel { happened: self.happened@, why: self.why@, next: self.next@ }
    }
}

impl Clone for UserError {
    fn clone(&self) -> (r: Self)
        ensures
            r == *self,
    {
        UserError {
            happened: self.happened.clone(),
            why: self.why.clone(),
            next: self.next.clone(),
        }
    }
}

/// The two error blocks are the same.
pub(crate) fn same_error(a: &Option<UserError>, b: &Option<UserError>) -> (r: bool)
    ensures
        r == (a.deep_view() == b.deep_view()),
{
    match (a, b) {
        (Some(a), Some(b)) => {
            proof {
                let x = a.deep_view();
                let y = b.deep_view();
                assert((x == y) == (x.happened == y.happened && x.why == y.why && x.next
                    == y.next));
            }
            a.happened == b.happened && a.why == b.why && a.next == b.next
        },
        (None, None) => true,
        _ => false,
    }
}

/// The two texts, if any, are the same.
pub(crate) fn same_option(a: &Option<String>, b: &Option<String>) -> (r: bool)
    ensures
        r == (a.deep_view() == b.deep_view()),
{
    match (a, b) {
        (Some(a), Some(b)) => *a == *b,
        (None, None) => true,
        _ => false,
    }
}

/// The two chats, if any, are the same.
pub(crate) fn same_chat(a: &Option<(ProtocolId, String)>, b: &Option<(ProtocolId, String)>) -> (r:
    bool)
    ensures
        r == (a.deep_view() == b.deep_view()),
{
    match (a, b) {
        (Some(a), Some(b)) => a.0 == b.0 && a.1 == b.1,
        (None, None) => true,
        _ => false,
    }
}

/// The error block of a refused login step. Only the kind of error shows.
pub fn auth_user_error(reason: Option<TelegramAuthError>) -> (r: UserError)
    ensures
        r.deep_view() == login_error(reason),
{
    match reason {
        Some(TelegramAuthError::PhoneInvalid) => UserError {
            happened: "Telegram did not accept the phone number.".to_owned(),
            why: "The number format is not valid.".to_owned(),
            next: "Check the number. Use + and the country code.".to_owned(),
        },
        Some(TelegramAuthError::CodeInvalid) => UserError {
            happened: "Telegram did not accept the code.".to_owned(),
            why: "The code is wrong.".to_owned(),
            next: "Type it again.".to_owned(),
        },
        Some(TelegramAuthError::CodeExpired) => UserError {
            happened: "Telegram did not accept the code.".to_owned(),
            why: "The code expired.".to_owned(),
            next: "Press Send a new code.".to_owned(),
        },
        Some(TelegramAuthError::PasswordInvalid) => UserError {
            happened: "Telegram did not accept the password.".to_owned(),
            why: "The password is wrong.".to_owned(),
            next: "Type it again.".to_owned(),
        },
        Some(TelegramAuthError::FloodWait { seconds }) => {
            let whole: u32 = seconds / 60;
            let minutes: u32 = if seconds == 0 {
                1
            } else if seconds % 60 == 0 {
                whole
            } else {
                whole + 1
            };
            proof {
                assert(minutes == wait_minutes(seconds));
            }
            let unit = if minutes == 1 { " minute" } else { " minutes" };
            let mut next = "Wait ".to_owned();
            next.append(decimal_text(minutes as u64).as_str());
            next.append(unit);
            next.append(", then try again.");
            UserError {
                happened: "Telegram paused the login.".to_owned(),
                why: "Too many tries.".to_owned(),
                next,
            }
        },
        Some(TelegramAuthError::ClientSetup { code }) => {
            let mut why = "The local Telegram data could not be opened (error ".to_owned();
            why.append(signed_decimal_text(code).as_str());
            why.append(").");
            UserError {
                happened: "Telegram could not start.".to_owned(),
                why,
                next: "Press Add Telegram to try again. If it fails again, restart thinwire.".to_owned(),
            }
        },
        Some(TelegramAuthError::Other { code }) => {
            let mut why = "Telegram did not accept this step (error ".to_owned();
            why.append(signed_decimal_text(code).as_str());
            why.append(").");
            UserError {
                happened: "Telegram login did not advance.".to_owned(),
                why,
                next: "Correct the field, or press Cancel.".to_owned(),
            }
        },
        None => UserError {
            happened: "Telegram login did not advance.".to_owned(),
            why: "Telegram did not accept this step.".to_owned(),
            next: "Correct the field, or press Cancel.".to_owned(),
        },
    }
}

/// Copy on the phone step after the old Telegram data folder was moved aside.
/// Names the folder once; old folders are kept, never deleted.
pub fn data_reset_notice(moved_to: &str) -> (r: String)
    ensures
        r@ == reset_notice(moved_to@),
{
    let mut notice =
        "Telegram data on this device could not be opened. It was moved to \"".to_owned();
    notice.append(moved_to);
    notice.append("\" in the thinwire data folder and kept. Sign in again.");
    notice
}

/// Wait, in milliseconds, before try `tries + 1` of an anchor that brought
/// nothing `tries` times.
pub fn older_wait(tries: u32) -> (r: u64)
    ensures
        r == wait_after(tries),
        OLDER_RETRY_DELAY <= r <= OLDER_RETRY_MAX,
{
    let mut wait: u64 = OLDER_RETRY_DELAY;
    if tries >= 2 {
        wait = 4_000;
    }
    if tries >= 3 {
        wait = 8_000;
    }
    if tries >= 4 {
        wait = 16_000;
    }
    if tries >= 5 {
        wait = 32_000;
    }
    if tries >= 6 {
        wait = OLDER_RETRY_MAX;
    }
    wait
}

/// The rank of a message id: the number behind its last colon, or zero.
pub fn message_rank(id: &str) -> (r: i64)
    ensures
        r == rank_of(id@),
{
    match parse_integer(tail_after(id, ':')) {
        Some(n) => n,
        None => 0,
    }
}

/// One account row.
#[derive(Debug)]
pub struct AccountRow {
    pub caps: ProtocolCapabilities,
    pub status: AdapterStatus,
    pub detail: String,
    /// Link state. Only an account event, and the Telegram login, change it.
    /// A status never does.
    pub state: AccountState,
}

impl DeepView for AccountRow {
    type V = AccountModel;

    open spec fn deep_view(&self) -> AccountModel {
        AccountModel {
            id: self.caps.id,
            sends_text: self.caps.sends_text,
            about: self.caps.detail@,
            status: self.status,
            detail: self.detail@,
            state: self.state,
        }
    }
}

impl AccountRow {
    /// Signed in: the shell shows this protocol's chats.
    pub fn linked(&self) -> (r: bool)
        ensures
            r == (self.deep_view().state == AccountState::Linked),
    {
        self.state == AccountState::Linked
    }
}

/// A send or retry that the timeout error lists.
#[derive(Debug, PartialEq, Eq)]
pub struct TimedOut {
    pub protocol: ProtocolId,
    pub chat: String,
    pub request: u64,
    pub retry: bool,
}

impl DeepView for TimedOut {
    type V = TimedOutModel;

    open spec fn deep_view(&self) -> TimedOutModel {
        TimedOutModel {
            chat: (self.protocol, self.chat@),
            request: self.request,
            retry: self.retry,
        }
    }
}

/// Text that the adapter rejected for one chat. A compose send and a retry
/// are separate.
#[derive(Debug, PartialEq, Eq)]
pub struct RejectedBody {
    pub compose: Option<String>,
    pub row: Option<String>,
}

impl DeepView for RejectedBody {
    type V = RejectedModel;

    open spec fn deep_view(&self) -> RejectedModel {
        RejectedModel { compose: self.compose.deep_view(), row: self.row.deep_view() }
    }
}

/// The anchor of a request that brought nothing older.
#[derive(Debug, PartialEq, Eq)]
pub struct OlderTry {
    pub anchor: String,
    pub at: u64,
    pub tries: u32,
}

impl DeepView for OlderTry {
    type V = OlderTryModel;

    open spec fn deep_view(&self) -> OlderTryModel {
        OlderTryModel { anchor: self.anchor@, at: self.at, tries: self.tries }
    }
}

/// A request of the state that waits for the shell, or an answer of the user.
#[derive(Debug, Clone, Copy, PartialEq, Eq, Structural)]
pub enum Mark {
    /// The last keychain read failed. Copied from the store each frame.
    KeychainFailed,
    /// The user asked to read the keychain again.
    KeychainRetry,
    /// Write the keychain.
    KeychainFlush,
    /// Scroll to the selected row.
    ScrollToSelected,
    /// Scroll to the highlight.
    ScrollToFocused,
    /// Focus the compose field.
    FocusCompose,
    /// The user accepted the full-screen WhatsApp ban gate.
    WhatsAppRiskAccepted,
    /// The user accepted the full-screen Signal notice.
    SignalNoticeAccepted,
}

impl DeepView for Mark {
    type V = Mark;

    open spec fn deep_view(&self) -> Mark {
        *self
    }
}

impl Key for Mark {
    fn same(&self, other: &Self) -> (r: bool) {
        *self == *other
    }
}

/// App state.
pub struct Snapshot {
    pub accounts: Vec<AccountRow>,
    pub conversations: KeyMap<ProtocolId, Vec<Conversation>>,
    pub messages: KeyMap<(ProtocolId, String), Vec<ChatMessage>>,
    pub selected_protocol: ProtocolId,
    pub selected_conversation: Option<String>,
    /// Keyboard highlight. Arrows move it. Enter and a click open the chat.
    pub focused_row: Option<String>,
    pub filter: InboxFilter,
    pub search: String,
    pub auth: AuthScreen,
    pub telegram_api_id: String,
    pub telegram_api_hash: String,
    pub telegram_phone: String,
    pub telegram_code: String,
    pub telegram_2fa: String,
    pub error: Option<UserError>,
    pub status_text: String,
    /// The last Telegram status line that came as a finished success.
    pub ready_status: Option<String>,
    pub compose: String,
    pub auth_busy: bool,
    /// One line above the active login form. Never holds a secret.
    pub auth_notice: Option<String>,
    /// Why Telegram refused the last login step, if it said.
    pub auth_rejection: Option<TelegramAuthError>,
    /// Where Telegram sent the login code, if it said.
    pub code_via: Option<TelegramCodeVia>,
    pub telegram_authorized: bool,
    pub resume: Resume,
    /// When the shell first saw the keychain read still running.
    pub keychain_wait_started: Option<u64>,
    /// Protocols whose chat list is loading.
    pub chat_list_loading: KeySet<ProtocolId>,
    /// Chats whose history is loading.
    pub history_loading: KeySet<(ProtocolId, String)>,
    /// The last note of each protocol. Never an error.
    pub notices: KeyMap<ProtocolId, String>,
    /// The chat that the adapters were last told the user looks at.
    pub viewed: Option<(ProtocolId, String)>,
    /// The expired sends that the timeout error lists. When `error` is no
    /// longer `timeout_error`, the list starts again.
    pub timed_out: Vec<TimedOut>,
    pub timeout_error: Option<UserError>,
    /// A chat that the user opened while its protocol was not linked.
    pub open_on_link: Option<(ProtocolId, String)>,
    /// Protocols with a session: they were linked and did not end.
    pub sessions: KeySet<ProtocolId>,
    /// Protocols that the shell shows even when their part is off.
    pub extra_visible: KeySet<ProtocolId>,
    /// Chats with a request for older messages in flight.
    pub older_loading: KeySet<(ProtocolId, String)>,
    /// Ids of the chats whose start is loaded. The end of the Telegram session
    /// drops all of them, and the end of another session none.
    pub older_at_start: KeySet<String>,
    /// Ids of the chats whose last older request brought nothing older. They
    /// are dropped as those above.
    pub older_retry: KeyMap<String, OlderTry>,
    /// Inbox row ids at the last check of the highlight.
    pub seen_visible_ids: Vec<String>,
    /// Unsent text per chat. `compose` holds the selected chat's draft.
    pub drafts: KeyMap<(ProtocolId, String), String>,
    /// Text of a send or retry that the adapter rejected.
    pub rejected_bodies: KeyMap<(ProtocolId, String), RejectedBody>,
    /// Protocols that answered the shutdown.
    pub stopped: KeySet<ProtocolId>,
    /// Sends and retries in flight, one per chat.
    pub sends: SendTracker,
    /// The id of the next pairing (WhatsApp or Signal).
    pub next_pairing_generation: u64,
    /// The id of the pairing that runs now. A code of any other pairing is
    /// dropped.
    pub pairing_generation: Option<u64>,
    /// Name of the folder that was moved aside. Shown on the next phone step.
    pub data_reset: Option<String>,
    pub api_source: TelegramApiSource,
    /// Commands for the adapters.
    pub pending: Vec<AdapterCommand>,
    /// Requests and answers that wait.
    pub marks: KeySet<Mark>,
    /// The parts that this build holds.
    pub build: Build,
    pub whatsapp_screen: WhatsAppScreen,
    pub whatsapp_phone: String,
    pub whatsapp_qr: Option<String>,
    pub whatsapp_pair_code: Option<String>,
    pub whatsapp_started: bool,
    pub signal_screen: SignalScreen,
    pub signal_qr: Option<String>,
    pub signal_started: bool,

}

impl View for Snapshot {
    type V = SnapshotModel;

    open spec fn view(&self) -> SnapshotModel {
        SnapshotModel {
            accounts: self.accounts.deep_view(),
            conversations: self.conversations.deep_view(),
            messages: self.messages.deep_view(),
            selected_protocol: self.selected_protocol,
            selected_conversation: self.selected_conversation.deep_view(),
            focused_row: self.focused_row.deep_view(),
            filter: self.filter,
            search: self.search@,
            auth: self.auth,
            telegram_api_id: self.telegram_api_id@,
            telegram_api_hash: self.telegram_api_hash@,
            telegram_phone: self.telegram_phone@,
            telegram_code: self.telegram_code@,
            telegram_2fa: self.telegram_2fa@,
            error: self.error.deep_view(),
            status_text: self.status_text@,
            ready_status: self.ready_status.deep_view(),
            compose: self.compose@,
            auth_busy: self.auth_busy,
            auth_notice: self.auth_notice.deep_view(),
            auth_rejection: self.auth_rejection,
            code_via: self.code_via,
            telegram_authorized: self.telegram_authorized,
            resume: self.resume,
            keychain_wait_started: self.keychain_wait_started,
            chat_list_loading: self.chat_list_loading.deep_view(),
            history_loading: self.history_loading.deep_view(),
            notices: self.notices.deep_view(),
            viewed: self.viewed.deep_view(),
            timed_out: self.timed_out.deep_view(),
            timeout_error: self.timeout_error.deep_view(),
            open_on_link: self.open_on_link.deep_view(),
            sessions: self.sessions.deep_view(),
            extra_visible: self.extra_visible.deep_view(),
            older_loading: self.older_loading.deep_view(),
            older_at_start: self.older_at_start.deep_view(),
            older_retry: self.older_retry.deep_view(),
            seen_visible_ids: self.seen_visible_ids.deep_view(),
            drafts: self.drafts.deep_view(),
            rejected_bodies: self.rejected_bodies.deep_view(),
            stopped: self.stopped.deep_view(),
            sends: self.sends@,
            next_pairing_generation: self.next_pairing_generation,
            pairing_generation: self.pairing_generation,
            data_reset: self.data_reset.deep_view(),
            api_source: self.api_source.pair(),
            pending: self.pending.deep_view(),
            marks: self.marks.deep_view(),
            build: self.build,
            whatsapp_screen: self.whatsapp_screen,
            whatsapp_phone: self.whatsapp_phone@,
            whatsapp_qr: self.whatsapp_qr.deep_view(),
            whatsapp_pair_code: self.whatsapp_pair_code.deep_view(),
            whatsapp_started: self.whatsapp_started,
            signal_screen: self.signal_screen,
            signal_qr: self.signal_qr.deep_view(),
            signal_started: self.signal_started,
        }
    }
}

/// The account row of a protocol at launch.
pub open spec fn first_account(protocol: ProtocolId) -> AccountModel {
    AccountModel {
        id: protocol,
        sends_text: sends_text_of(protocol),
        about: detail_of(protocol),
        status: AdapterStatus::Stubbed,
        detail: detail_of(protocol),
        state: AccountState::Unlinked,
    }
}

impl SnapshotModel {
    /// The state at launch.
    pub open spec fn at_launch(build: Build, api_source: Option<(Text, Text)>) -> SnapshotModel {
        SnapshotModel {
            accounts: catalog_order().map_values(|id: ProtocolId| first_account(id)),
            conversations: Map::empty(),
            messages: Map::empty(),
            selected_protocol: ProtocolId::Telegram,
            selected_conversation: None,
            focused_row: None,
            filter: InboxFilter::All,
            search: Seq::empty(),
            auth: AuthScreen::Idle,
            telegram_api_id: Seq::empty(),
            telegram_api_hash: Seq::empty(),
            telegram_phone: Seq::empty(),
            telegram_code: Seq::empty(),
            telegram_2fa: Seq::empty(),
            error: None,
            status_text: FIRST_STATUS@,
            ready_status: None,
            compose: Seq::empty(),
            auth_busy: false,
            auth_notice: None,
            auth_rejection: None,
            code_via: None,
            telegram_authorized: false,
            resume: Resume::Waiting,
            keychain_wait_started: None,
            chat_list_loading: Set::empty(),
            history_loading: Set::empty(),
            notices: Map::empty(),
            viewed: None,
            timed_out: Seq::empty(),
            timeout_error: None,
            open_on_link: None,
            sessions: Set::empty(),
            extra_visible: Set::empty(),
            older_loading: Set::empty(),
            older_at_start: Set::empty(),
            older_retry: Map::empty(),
            seen_visible_ids: Seq::empty(),
            drafts: Map::empty(),
            rejected_bodies: Map::empty(),
            stopped: Set::empty(),
            sends: SendsModel::fresh(),
            next_pairing_generation: 1,
            pairing_generation: None,
            data_reset: None,
            api_source,
            pending: Seq::empty(),
            marks: Set::empty(),
            build,
            whatsapp_screen: WhatsAppScreen::Hidden,
            whatsapp_phone: Seq::empty(),
            whatsapp_qr: None,
            whatsapp_pair_code: None,
            whatsapp_started: false,
            signal_screen: SignalScreen::Hidden,
            signal_qr: None,
            signal_started: false,
        }
    }
}

/// The account rows at launch.
fn first_accounts() -> (r: Vec<AccountRow>)
    ensures
        r.deep_view() == catalog_order().map_values(|id: ProtocolId| first_account(id)),
{
    let all = catalog();
    let mut rows: Vec<AccountRow> = Vec::new();
    let mut i: usize = 0;
    while i < all.len()
        invariant
            i <= all.len(),
            rows@.len() == i,
            all@.len() == catalog_order().len(),
            forall|j: int|
                0 <= j < all@.len() ==> (#[trigger] all@[j]).id == catalog_order()[j]
                    && all@[j].detail@ == detail_of(catalog_order()[j]) && all@[j].sends_text
                    == sends_text_of(catalog_order()[j]),
            forall|j: int|
                0 <= j < i ==> (#[trigger] rows@[j]).deep_view() == first_account(
                    catalog_order()[j],
                ),
        decreases all.len() - i,
    {
        let caps = all[i];
        rows.push(
            AccountRow {
                caps,
                status: AdapterStatus::Stubbed,
                detail: caps.detail.to_owned(),
                state: AccountState::Unlinked,
            },
        );
        i = i + 1;
    }
    assert(rows.deep_view() =~= catalog_order().map_values(|id: ProtocolId| first_account(id)));
    rows
}

impl Snapshot {
    /// The state at launch of this build, with these built-in credentials.
    pub fn with_build(build: Build, api_source: TelegramApiSource) -> (r: Self)
        ensures
            r@ == SnapshotModel::at_launch(build, api_source.pair()),
    {
        let r = Snapshot {
            accounts: first_accounts(),
            conversations: KeyMap::new(),
            messages: KeyMap::new(),
            selected_protocol: ProtocolId::Telegram,
            selected_conversation: None,
            focused_row: None,
            filter: InboxFilter::All,
            search: String::new(),
            auth: AuthScreen::Idle,
            telegram_api_id: String::new(),
            telegram_api_hash: String::new(),
            telegram_phone: String::new(),
            telegram_code: String::new(),
            telegram_2fa: String::new(),
            error: None,
            status_text: FIRST_STATUS.to_owned(),
            ready_status: None,
            compose: String::new(),
            auth_busy: false,
            auth_notice: None,
            auth_rejection: None,
            code_via: None,
            telegram_authorized: false,
            resume: Resume::Waiting,
            keychain_wait_started: None,
            chat_list_loading: KeySet::new(),
            history_loading: KeySet::new(),
            notices: KeyMap::new(),
            viewed: None,
            timed_out: Vec::new(),
            timeout_error: None,
            open_on_link: None,
            sessions: KeySet::new(),
            extra_visible: KeySet::new(),
            older_loading: KeySet::new(),
            older_at_start: KeySet::new(),
            older_retry: KeyMap::new(),
            seen_visible_ids: Vec::new(),
            drafts: KeyMap::new(),
            rejected_bodies: KeyMap::new(),
            stopped: KeySet::new(),
            sends: SendTracker::default(),
            next_pairing_generation: 1,
            pairing_generation: None,
            data_reset: None,
            api_source,
            pending: Vec::new(),
            marks: KeySet::new(),
            build,
            whatsapp_screen: WhatsAppScreen::Hidden,
            whatsapp_phone: String::new(),
            whatsapp_qr: None,
            whatsapp_pair_code: None,
            whatsapp_started: false,
            signal_screen: SignalScreen::Hidden,
            signal_qr: None,
            signal_started: false,
        };
        proof {
            assert(r@.timed_out =~= Seq::empty());
            assert(r@.seen_visible_ids =~= Seq::empty());
            assert(r@.pending =~= Seq::empty());
        }
        r
    }

    /// The state at launch of the default build with no built-in credentials.
    pub fn new() -> (r: Self)
        ensures
            r@ == SnapshotModel::at_launch(Build::plain(), None),
    {
        Snapshot::with_build(Build::default(), TelegramApiSource::empty())
    }

    /// The state at launch of the default build with these credentials.
    pub fn with_api_source(source: TelegramApiSource) -> (r: Self)
        ensures
            r@ == SnapshotModel::at_launch(Build::plain(), source.pair()),
    {
        Snapshot::with_build(Build::default(), source)
    }

    /// Use these Telegram API credentials.
    pub fn set_api_source(&mut self, source: TelegramApiSource)
        ensures
            final(self)@ == (SnapshotModel { api_source: source.pair(), ..old(self)@ }),
    {
        self.api_source = source;
    }
}

impl Default for Snapshot {
    fn default() -> (r: Self)
        ensures
            r@ == SnapshotModel::at_launch(Build::plain(), None),
    {
        Snapshot::new()
    }
}

} // verus!
