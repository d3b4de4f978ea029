//! The app state as mathematical values, and what each event and each user
//! action makes of it.

use crate::keyed::{owner_in, without_owner, without_owner_set};
use crate::lists::{first_index, some_row, ranked};
use crate::protocol::{
    AccountState, AdapterEvent, AdapterStatus, Build, ChatId, ChatMessage, CommandModel,
    Conversation, ConversationModel, Delivery, MessageModel, ProtocolId, TelegramAuthError,
    TelegramAuthPhase, TelegramAuthStep, TelegramCodeVia, Text, name_of,
};
use crate::secrets::{AttachPhase, SecretKey, StoreModel};
use crate::sends::{FlightModel, PendingModel, SendsModel, of_owner};
use crate::state::{
    AuthKey, AuthScreen, CenterView, FocusFollow, InboxFilter, InboxState, Mark, OlderState,
    Resume, SignalScreen, ThreadState, WhatsAppScreen, CONNECTING_STATUS, KEYCHAIN_LOADING_STATUS,
    KEYCHAIN_OPENING, KEYCHAIN_SLOW_AFTER, KEYCHAIN_WAITING, LOADING_CHATS_STATUS,
    LOADING_MESSAGES_STATUS, LOADING_OLDER_STATUS, OLDER_RETRY_DELAY, OLDER_RETRY_MAX,
    RESUME_CONNECTING, SENDING_STATUS, SESSION_ENDED_NOTICE,
};
use crate::text::{after_last, decimal, integer_of, lowercase, occurs, signed_decimal, trim};
use crate::intent::AuthField;
use vstd::prelude::*;

verus! {

/// An error block: what happened, why, and what to do.
#[verifier::ext_equal]
pub struct ErrorModel {
    pub happened: Text,
    pub why: Text,
    pub next: Text,
}

/// One account row.
#[verifier::ext_equal]
pub struct AccountModel {
    pub id: ProtocolId,
    pub sends_text: bool,
    pub about: Text,
    pub status: AdapterStatus,
    pub detail: Text,
    pub state: AccountState,
}

/// A send or retry that the timeout error lists.
#[verifier::ext_equal]
pub struct TimedOutModel {
    pub chat: ChatId,
    pub request: u64,
    pub retry: bool,
}

/// Text that the adapter rejected for one chat.
#[verifier::ext_equal]
pub struct RejectedModel {
    pub compose: Option<Text>,
    pub row: Option<Text>,
}

/// The older-message anchor of a chat that brought nothing older.
#[verifier::ext_equal]
pub struct OlderTryModel {
    pub anchor: Text,
    pub at: u64,
    pub tries: u32,
}

/// The whole app state.
pub struct SnapshotModel {
    pub accounts: Seq<AccountModel>,
    pub conversations: Map<ProtocolId, Seq<ConversationModel>>,
    pub messages: Map<ChatId, Seq<MessageModel>>,
    pub selected_protocol: ProtocolId,
    pub selected_conversation: Option<Text>,
    pub focused_row: Option<Text>,
    pub filter: InboxFilter,
    pub search: Text,
    pub auth: AuthScreen,
    pub telegram_api_id: Text,
    pub telegram_api_hash: Text,
    pub telegram_phone: Text,
    pub telegram_code: Text,
    pub telegram_2fa: Text,
    pub error: Option<ErrorModel>,
    pub status_text: Text,
    pub ready_status: Option<Text>,
    pub compose: Text,
    pub auth_busy: bool,
    pub auth_notice: Option<Text>,
    pub auth_rejection: Option<TelegramAuthError>,
    pub code_via: Option<TelegramCodeVia>,
    pub telegram_authorized: bool,
    pub resume: Resume,
    pub keychain_wait_started: Option<u64>,
    pub chat_list_loading: Set<ProtocolId>,
    pub history_loading: Set<ChatId>,
    pub notices: Map<ProtocolId, Text>,
    pub viewed: Option<ChatId>,
    pub timed_out: Seq<TimedOutModel>,
    pub timeout_error: Option<ErrorModel>,
    pub open_on_link: Option<ChatId>,
    pub sessions: Set<ProtocolId>,
    pub extra_visible: Set<ProtocolId>,
    pub older_loading: Set<ChatId>,
    pub older_at_start: Set<Text>,
    pub older_retry: Map<Text, OlderTryModel>,
    pub seen_visible_ids: Seq<Text>,
    pub drafts: Map<ChatId, Text>,
    pub rejected_bodies: Map<ChatId, RejectedModel>,
    pub stopped: Set<ProtocolId>,
    pub sends: SendsModel,
    pub next_pairing_generation: u64,
    pub pairing_generation: Option<u64>,
    pub data_reset: Option<Text>,
    pub api_source: Option<(Text, Text)>,
    pub pending: Seq<CommandModel>,
    pub marks: Set<Mark>,
    pub build: Build,
    pub whatsapp_screen: WhatsAppScreen,
    pub whatsapp_phone: Text,
    pub whatsapp_qr: Option<Text>,
    pub whatsapp_pair_code: Option<Text>,
    pub whatsapp_started: bool,
    pub signal_screen: SignalScreen,
    pub signal_qr: Option<Text>,
    pub signal_started: bool,
}

/// The account row of this protocol.
pub open spec fn account_is(protocol: ProtocolId) -> spec_fn(AccountModel) -> bool {
    |row: AccountModel| row.id == protocol
}

/// A linked account row of this protocol.
pub open spec fn linked_is(protocol: ProtocolId) -> spec_fn(AccountModel) -> bool {
    |row: AccountModel| row.id == protocol && row.state == AccountState::Linked
}

/// A linked account row of this protocol whose adapter sends text.
pub open spec fn sender_is(protocol: ProtocolId) -> spec_fn(AccountModel) -> bool {
    |row: AccountModel|
        row.id == protocol && row.state == AccountState::Linked && row.sends_text
}

/// The chat row with this id.
pub open spec fn chat_is(id: Text) -> spec_fn(ConversationModel) -> bool {
    |row: ConversationModel| row.id == id
}

/// A chat row with another id.
pub open spec fn chat_is_not(id: Text) -> spec_fn(ConversationModel) -> bool {
    |row: ConversationModel| row.id != id
}

/// The row of a real chat with this id.
pub open spec fn real_chat_is(id: Text) -> spec_fn(ConversationModel) -> bool {
    |row: ConversationModel| row.id == id && !row.placeholder
}

/// The row of a real chat.
pub open spec fn real_chat() -> spec_fn(ConversationModel) -> bool {
    |row: ConversationModel| !row.placeholder
}

/// The message with this id.
pub open spec fn message_is(id: Text) -> spec_fn(MessageModel) -> bool {
    |row: MessageModel| row.id == id
}

/// A message with another id.
pub open spec fn message_is_not(id: Text) -> spec_fn(MessageModel) -> bool {
    |row: MessageModel| row.id != id
}

/// A message with none of these ids.
pub open spec fn message_not_in(ids: Seq<Text>) -> spec_fn(MessageModel) -> bool {
    |row: MessageModel| !ids.contains(row.id)
}

/// A text equal to this one.
pub open spec fn text_is(text: Text) -> spec_fn(Text) -> bool {
    |row: Text| row == text
}

/// The command that opens this chat.
pub open spec fn opens(chat: ChatId) -> spec_fn(CommandModel) -> bool {
    |command: CommandModel|
        command == CommandModel::OpenChat { protocol: chat.0, conversation_id: chat.1 }
}

/// A timed-out entry other than this request of this chat.
pub open spec fn other_timeout(chat: ChatId, request: u64) -> spec_fn(TimedOutModel) -> bool {
    |entry: TimedOutModel| !(entry.chat == chat && entry.request == request)
}

/// The first row with `p`.
pub open spec fn find<A>(s: Seq<A>, p: spec_fn(A) -> bool) -> Option<A> {
    if some_row(s, p) {
        Some(s[first_index(s, p)])
    } else {
        None
    }
}

/// The index of the first row with `p`.
pub open spec fn find_index<A>(s: Seq<A>, p: spec_fn(A) -> bool) -> Option<int> {
    if some_row(s, p) {
        Some(first_index(s, p))
    } else {
        None
    }
}

/// The value of a key, or an empty list.
pub open spec fn rows_at<K, A>(map: Map<K, Seq<A>>, key: K) -> Seq<A> {
    if map.contains_key(key) {
        map[key]
    } else {
        Seq::empty()
    }
}

/// The rank of a message id: the number behind its last colon, or zero.
pub open spec fn rank_of(id: Text) -> int {
    match integer_of(after_last(id, ':')) {
        Some(n) => n,
        None => 0,
    }
}

/// The wait, in milliseconds, before try `tries + 1` of an anchor that brought
/// nothing `tries` times: the delay, doubled with each try, up to a limit.
pub open spec fn wait_after(tries: u32) -> int {
    if tries <= 1 {
        OLDER_RETRY_DELAY as int
    } else if tries == 2 {
        2 * OLDER_RETRY_DELAY
    } else if tries == 3 {
        4 * OLDER_RETRY_DELAY
    } else if tries == 4 {
        8 * OLDER_RETRY_DELAY
    } else if tries == 5 {
        16 * OLDER_RETRY_DELAY
    } else {
        OLDER_RETRY_MAX as int
    }
}

/// A part of the build shows this protocol.
pub open spec fn chrome_enabled(protocol: ProtocolId, build: Build) -> bool {
    match protocol {
        ProtocolId::Telegram => true,
        ProtocolId::Slack => build.slack_oauth,
        ProtocolId::WhatsApp => build.whatsapp_web,
        ProtocolId::Discord => build.discord_bot,
        ProtocolId::Signal => build.signal_local,
    }
}

/// The filter shows this protocol.
pub open spec fn filter_matches(filter: InboxFilter, protocol: ProtocolId) -> bool {
    match filter {
        InboxFilter::All => true,
        InboxFilter::Telegram => protocol == ProtocolId::Telegram,
        InboxFilter::Slack => protocol == ProtocolId::Slack,
    }
}

/// The row matches an inbox search: the title or the participant holds the
/// trimmed search text, whatever the ASCII case.
pub open spec fn search_hits(search: Text) -> spec_fn(ConversationModel) -> bool {
    |row: ConversationModel|
        {
            let query = lowercase(trim(search));
            query.len() == 0 || occurs(lowercase(row.title), query) || occurs(
                lowercase(row.participant),
                query,
            )
        }
}

/// The error block of a refused login step.
pub open spec fn login_error(reason: Option<TelegramAuthError>) -> ErrorModel {
    match reason {
        Some(TelegramAuthError::PhoneInvalid) => ErrorModel {
            happened: "Telegram did not accept the phone number."@,
            why: "The number format is not valid."@,
            next: "Check the number. Use + and the country code."@,
        },
        Some(TelegramAuthError::CodeInvalid) => ErrorModel {
            happened: "Telegram did not accept the code."@,
            why: "The code is wrong."@,
            next: "Type it again."@,
        },
        Some(TelegramAuthError::CodeExpired) => ErrorModel {
            happened: "Telegram did not accept the code."@,
            why: "The code expired."@,
            next: "Press Send a new code."@,
        },
        Some(TelegramAuthError::PasswordInvalid) => ErrorModel {
            happened: "Telegram did not accept the password."@,
            why: "The password is wrong."@,
            next: "Type it again."@,
        },
        Some(TelegramAuthError::FloodWait { seconds }) => ErrorModel {
            happened: "Telegram paused the login."@,
            why: "Too many tries."@,
            next: "Wait "@ + decimal(wait_minutes(seconds)) + (if wait_minutes(seconds) == 1 {
                " minute"@
            } else {
                " minutes"@
            }) + ", then try again."@,
        },
        Some(TelegramAuthError::ClientSetup { code }) => ErrorModel {
            happened: "Telegram could not start."@,
            why: "The local Telegram data could not be opened (error "@ + signed_decimal(
                code as int,
            ) + ")."@,
            next: "Press Add Telegram to try again. If it fails again, restart thinwire."@,
        },
        Some(TelegramAuthError::Other { code }) => ErrorModel {
            happened: "Telegram login did not advance."@,
            why: "Telegram did not accept this step (error "@ + signed_decimal(code as int)
                + ")."@,
            next: "Correct the field, or press Cancel."@,
        },
        None => ErrorModel {
            happened: "Telegram login did not advance."@,
            why: "Telegram did not accept this step."@,
            next: "Correct the field, or press Cancel."@,
        },
    }
}

/// Whole minutes that cover `seconds`, at least one.
pub open spec fn wait_minutes(seconds: u32) -> nat {
    if seconds == 0 {
        1
    } else {
        ((seconds + 59) / 60) as nat
    }
}

/// The copy of the phone step after the old data folder was moved aside.
pub open spec fn reset_notice(moved_to: Text) -> Text {
    "Telegram data on this device could not be opened. It was moved to \""@ + moved_to
        + "\" in the thinwire data folder and kept. Sign in again."@
}

/// The texts with `separator` between each two.
pub open spec fn joined(parts: Seq<Text>, separator: Text) -> Text
    decreases parts.len(),
{
    if parts.len() == 0 {
        Seq::empty()
    } else if parts.len() == 1 {
        parts[0]
    } else {
        joined(parts.drop_last(), separator) + separator + parts.last()
    }
}

/// The unread messages of the rows.
pub open spec fn unread_sum(rows: Seq<ConversationModel>) -> nat
    decreases rows.len(),
{
    if rows.len() == 0 {
        0
    } else {
        unread_sum(rows.drop_last()) + rows.last().unread as nat
    }
}

/// The unread messages of the rows that are not muted.
pub open spec fn loud_sum(rows: Seq<ConversationModel>) -> nat
    decreases rows.len(),
{
    if rows.len() == 0 {
        0
    } else {
        loud_sum(rows.drop_last()) + (if rows.last().muted {
            0
        } else {
            rows.last().unread as nat
        })
    }
}

/// `n`, or the end of its range.
pub open spec fn capped_sum(n: nat) -> u32 {
    if n <= u32::MAX {
        n as u32
    } else {
        u32::MAX
    }
}

/// `list` with `row` in place of the row of its id, or at the end.
pub open spec fn upserted_chat(
    list: Seq<ConversationModel>,
    row: ConversationModel,
) -> Seq<ConversationModel> {
    let at = first_index(list, chat_is(row.id));
    if at < list.len() {
        list.update(at, row)
    } else {
        list.push(row)
    }
}

/// `list` with `row` in place of the row of its id, or at the end.
pub open spec fn upserted_message(list: Seq<MessageModel>, row: MessageModel) -> Seq<MessageModel> {
    let at = first_index(list, message_is(row.id));
    if at < list.len() {
        list.update(at, row)
    } else {
        list.push(row)
    }
}

impl SnapshotModel {
    // ---- reading the state ----

    /// The account of this protocol is linked.
    pub open spec fn linked(self, protocol: ProtocolId) -> bool {
        some_row(self.accounts, linked_is(protocol))
    }

    /// The account of this protocol is linked and its adapter sends text.
    pub open spec fn sends_text(self, protocol: ProtocolId) -> bool {
        some_row(self.accounts, sender_is(protocol))
    }

    /// The protocol has a session: linked now, or reconnecting after it was.
    pub open spec fn has_session(self, protocol: ProtocolId) -> bool {
        self.linked(protocol) || self.sessions.contains(protocol)
    }

    /// The shell shows this protocol.
    pub open spec fn shows(self, protocol: ProtocolId) -> bool {
        self.extra_visible.contains(protocol) || chrome_enabled(protocol, self.build)
    }

    /// The protocol is shown and has a session.
    pub open spec fn shows_session(self) -> spec_fn(AccountModel) -> bool {
        |row: AccountModel| self.has_session(row.id) && self.shows(row.id)
    }

    /// At least one shown protocol has a session.
    pub open spec fn any_linked(self) -> bool {
        some_row(self.accounts, self.shows_session())
    }

    /// What the center panel shows.
    pub open spec fn center(self) -> CenterView {
        if self.auth != AuthScreen::Idle {
            CenterView::Auth
        } else if self.any_linked() {
            CenterView::Thread
        } else if self.marks.contains(Mark::KeychainFailed) && !self.marks.contains(Mark::KeychainRetry) {
            CenterView::KeychainFailed
        } else if self.resume == Resume::Connecting {
            CenterView::Resuming { connecting: true }
        } else if self.resume == Resume::Waiting && self.build.telegram_tdlib {
            CenterView::Resuming { connecting: false }
        } else {
            CenterView::FirstRun
        }
    }

    /// The chat rows of a protocol.
    pub open spec fn rows(self, protocol: ProtocolId) -> Seq<ConversationModel> {
        rows_at(self.conversations, protocol)
    }

    /// The messages of a chat.
    pub open spec fn thread(self, chat: ChatId) -> Seq<MessageModel> {
        rows_at(self.messages, chat)
    }

    /// The chat rows that the inbox shows.
    pub open spec fn visible(self) -> Seq<ConversationModel> {
        if self.shows(self.selected_protocol) && self.has_session(self.selected_protocol) {
            self.rows(self.selected_protocol).filter(search_hits(self.search))
        } else {
            Seq::empty()
        }
    }

    /// The ids of the chat rows that the inbox shows.
    pub open spec fn visible_ids(self) -> Seq<Text> {
        self.visible().map_values(|row: ConversationModel| row.id)
    }

    /// The unread messages of a protocol with a session, without muted chats.
    pub open spec fn loud(self, protocol: ProtocolId) -> nat {
        if self.has_session(protocol) {
            loud_sum(self.rows(protocol))
        } else {
            0
        }
    }

    /// The unread messages of every protocol with a session, without muted
    /// chats. A number beyond the range stays at its end.
    pub open spec fn unread_total(self) -> u32 {
        capped_sum(
            self.loud(ProtocolId::Telegram) + self.loud(ProtocolId::Slack) + self.loud(
                ProtocolId::WhatsApp,
            ) + self.loud(ProtocolId::Discord) + self.loud(ProtocolId::Signal),
        )
    }

    /// The row of the selected chat.
    pub open spec fn selected_row(self) -> Option<ConversationModel> {
        match self.selected_conversation {
            Some(id) => find(self.rows(self.selected_protocol), chat_is(id)),
            None => None,
        }
    }

    /// The messages of the selected chat.
    pub open spec fn selected_thread(self) -> Seq<MessageModel> {
        match self.selected_conversation {
            Some(id) => self.thread((self.selected_protocol, id)),
            None => Seq::empty(),
        }
    }

    /// This chat is the selected one.
    pub open spec fn is_selected(self, chat: ChatId) -> bool {
        self.selected_protocol == chat.0 && self.selected_conversation == Some(chat.1)
    }

    /// Send is possible: the protocol is linked and sends text, the chat is
    /// writable, there is text, and nothing of the chat is in flight.
    pub open spec fn can_send(self) -> bool {
        &&& self.sends_text(self.selected_protocol)
        &&& trim(self.compose).len() > 0
        &&& match self.selected_row() {
            Some(row) => row.writable && !self.sends.in_flight((self.selected_protocol, row.id)),
            None => false,
        }
    }

    /// The protocol pages older messages now.
    pub open spec fn pages_older(self) -> bool {
        match self.selected_protocol {
            ProtocolId::Telegram => self.telegram_authorized,
            ProtocolId::Signal => self.linked(ProtocolId::Signal),
            _ => false,
        }
    }

    /// What the inbox list shows.
    pub open spec fn inbox(self) -> InboxState {
        if self.visible().len() > 0 {
            InboxState::Rows
        } else if self.has_session(self.selected_protocol) && self.rows(
            self.selected_protocol,
        ).len() > 0 {
            InboxState::NoMatch
        } else if self.has_session(self.selected_protocol) && self.chat_list_loading.contains(
            self.selected_protocol,
        ) {
            InboxState::Loading
        } else {
            InboxState::Empty
        }
    }

    /// Something still loads or sends.
    pub open spec fn loading(self) -> bool {
        ||| self.chat_list_loading != Set::<ProtocolId>::empty()
        ||| self.history_loading != Set::<ChatId>::empty()
        ||| self.older_loading != Set::<ChatId>::empty()
        ||| self.sends.open.len() > 0
    }

    /// The line of a running load of one protocol.
    pub open spec fn load_line(self, protocol: ProtocolId) -> Option<Text> {
        if self.chat_list_loading.contains(protocol) {
            Some(LOADING_CHATS_STATUS@)
        } else if owner_in(self.history_loading, protocol) {
            Some(LOADING_MESSAGES_STATUS@)
        } else if owner_in(self.older_loading, protocol) {
            Some(LOADING_OLDER_STATUS@)
        } else if some_row(self.sends.open, of_owner(protocol)) {
            Some(SENDING_STATUS@)
        } else {
            None
        }
    }

    /// Another shown protocol loads.
    pub open spec fn loads_elsewhere(self) -> spec_fn(AccountModel) -> bool {
        |row: AccountModel|
            row.id != self.selected_protocol && self.shows(row.id) && self.load_line(
                row.id,
            ).is_some()
    }

    /// The line of the status strip: a running load first, then the last status.
    pub open spec fn status(self) -> Text {
        match self.load_line(self.selected_protocol) {
            Some(line) => line,
            None => match find(self.accounts, self.loads_elsewhere()) {
                Some(row) => name_of(row.id) + ": "@ + self.load_line(row.id).unwrap(),
                None => self.status_text,
            },
        }
    }

    /// What the thread shows.
    pub open spec fn thread_state(self) -> ThreadState {
        match self.selected_conversation {
            None => ThreadState::NoSelection,
            Some(id) => if self.selected_thread().len() > 0 {
                ThreadState::Rows
            } else if self.history_loading.contains((self.selected_protocol, id)) {
                ThreadState::Loading
            } else {
                ThreadState::Empty
            },
        }
    }

    /// The older-message paging of the selected chat.
    pub open spec fn older(self) -> OlderState {
        match self.selected_conversation {
            Some(id) => if !self.pages_older() {
                OlderState::Idle
            } else if self.older_loading.contains((self.selected_protocol, id)) {
                OlderState::Loading
            } else if self.older_at_start.contains(id) {
                OlderState::StartOfChat
            } else {
                OlderState::Idle
            },
            None => OlderState::Idle,
        }
    }

    /// The anchor waits at `now` before it is asked again.
    pub open spec fn anchor_waits(self, id: Text, oldest: Text, now: u64) -> bool {
        &&& self.older_retry.contains_key(id)
        &&& self.older_retry[id].anchor == oldest
        &&& now - self.older_retry[id].at < wait_after(self.older_retry[id].tries)
    }

    /// The selected chat and its oldest message, when a request for older
    /// messages may go out at `now`.
    pub open spec fn older_anchor(self, now: u64) -> Option<(Text, Text)> {
        match self.selected_conversation {
            Some(id) => {
                let chat = (self.selected_protocol, id);
                if self.pages_older() && !self.history_loading.contains(chat)
                    && !self.older_loading.contains(chat) && !self.older_at_start.contains(id)
                    && self.selected_thread().len() > 0 && !self.anchor_waits(
                    id,
                    self.selected_thread()[0].id,
                    now,
                ) {
                    Some((id, self.selected_thread()[0].id))
                } else {
                    None
                }
            },
            None => None,
        }
    }

    /// The chat that shows in the thread now.
    pub open spec fn viewed_now(self) -> Option<ChatId> {
        match self.selected_conversation {
            Some(id) => if self.center() == CenterView::Thread && self.has_session(
                self.selected_protocol,
            ) && self.shows(self.selected_protocol) && some_row(
                self.rows(self.selected_protocol),
                real_chat_is(id),
            ) {
                Some((self.selected_protocol, id))
            } else {
                None
            },
            None => None,
        }
    }

    /// The row that a key move highlights, when the highlight changes.
    pub open spec fn move_target(self, delta: int) -> Option<Text> {
        let ids = self.visible_ids();
        let from = match self.focused_row {
            Some(id) => Some(id),
            None => self.selected_conversation,
        };
        let current = match from {
            Some(id) => find_index(ids, text_is(id)),
            None => None,
        };
        let last = ids.len() - 1;
        let next = match current {
            Some(index) => if index + delta < 0 {
                0
            } else if index + delta > last {
                last
            } else {
                index + delta
            },
            None => if delta < 0 {
                last
            } else {
                0
            },
        };
        if delta == 0 || ids.len() == 0 || self.focused_row == Some(ids[next]) {
            None
        } else {
            Some(ids[next])
        }
    }

    /// The title of a chat, or its id when the row is gone.
    pub open spec fn title_of(self, chat: ChatId) -> Text {
        match find(self.rows(chat.0), chat_is(chat.1)) {
            Some(row) => row.title,
            None => chat.1,
        }
    }

    /// Where unsent text is, and what to do.
    pub open spec fn hint(self, chat: ChatId, retry: bool) -> Text {
        if self.is_selected(chat) {
            if retry {
                "Press Retry to send it again."@
            } else {
                "The text is still in the compose field. Send it again."@
            }
        } else if retry {
            "Open "@ + self.title_of(chat) + " and press Retry to send it again."@
        } else {
            "The text is in the draft of "@ + self.title_of(chat) + ". Send it again."@
        }
    }

    /// The message row of a chat.
    pub open spec fn message(self, chat: ChatId, id: Text) -> Option<MessageModel> {
        find(self.thread(chat), message_is(id))
    }

    /// The delivery of one message.
    pub open spec fn delivery(self, chat: ChatId, id: Text) -> Option<Delivery> {
        match self.message(chat, id) {
            Some(row) => Some(row.delivery),
            None => None,
        }
    }

    /// Telegram API credentials exist: built in, or in the keychain.
    pub open spec fn has_api(self, store: StoreModel) -> bool {
        self.api_source.is_some() || store.has_api_override()
    }

    // ---- small changes ----

    pub open spec fn queue(self, command: CommandModel) -> SnapshotModel {
        SnapshotModel { pending: self.pending.push(command), ..self }
    }

    pub open spec fn queue_step(self, step: TelegramAuthStep) -> SnapshotModel {
        self.queue(CommandModel::TelegramAuth { step, epoch: 0 })
    }

    pub open spec fn with_error(self, happened: Text, why: Text, next: Text) -> SnapshotModel {
        SnapshotModel { error: Some(ErrorModel { happened, why, next }), ..self }
    }

    pub open spec fn with_status(self, status: Text) -> SnapshotModel {
        SnapshotModel { status_text: status, ..self }
    }

    pub open spec fn busy(self, status: Text) -> SnapshotModel {
        SnapshotModel {
            auth_busy: true,
            auth_rejection: None,
            error: None,
            status_text: status,
            ..self
        }
    }

    /// Every login field and note is empty.
    pub open spec fn without_secrets(self) -> SnapshotModel {
        SnapshotModel {
            auth_notice: None,
            auth_rejection: None,
            code_via: None,
            telegram_api_id: Seq::empty(),
            telegram_api_hash: Seq::empty(),
            telegram_phone: Seq::empty(),
            telegram_code: Seq::empty(),
            telegram_2fa: Seq::empty(),
            ..self
        }
    }

    /// A mark was taken.
    pub open spec fn unmarked(self, mark: Mark) -> SnapshotModel {
        SnapshotModel { marks: self.marks.remove(mark), ..self }
    }

    /// Every adapter stopped.
    pub open spec fn all_stopped(self) -> bool {
        forall|i: int|
            0 <= i < self.accounts.len() ==> self.stopped.contains(
                (#[trigger] self.accounts[i]).id,
            )
    }

    /// A login field gets new text.
    pub open spec fn typing(self, field: AuthField, text: Text) -> SnapshotModel {
        match field {
            AuthField::ApiId => SnapshotModel { telegram_api_id: text, ..self },
            AuthField::ApiHash => SnapshotModel { telegram_api_hash: text, ..self },
            AuthField::Phone => SnapshotModel { telegram_phone: text, ..self },
            AuthField::Code => SnapshotModel { telegram_code: text, ..self },
            AuthField::Password => SnapshotModel { telegram_2fa: text, ..self },
        }
    }

    /// New text in a login field. Without a login form it is dropped: a key
    /// typed in the frame of a Cancel must not refill a cleared field.
    #[verifier::opaque]
    pub open spec fn with_field(self, field: AuthField, text: Text) -> SnapshotModel {
        if self.auth == AuthScreen::Idle {
            self
        } else {
            self.typing(field, text)
        }
    }

    /// The first account row of this protocol gets a link state.
    pub open spec fn with_state(self, protocol: ProtocolId, state: AccountState) -> SnapshotModel {
        let at = first_index(self.accounts, account_is(protocol));
        if at < self.accounts.len() {
            SnapshotModel {
                accounts: self.accounts.update(
                    at,
                    AccountModel { state, ..self.accounts[at] },
                ),
                ..self
            }
        } else {
            self
        }
    }

    /// The link state of this protocol.
    pub open spec fn state_of(self, protocol: ProtocolId) -> AccountState {
        match find(self.accounts, account_is(protocol)) {
            Some(row) => row.state,
            None => AccountState::Unlinked,
        }
    }

    // ---- selection, drafts, and focus ----

    /// The compose text is parked as the draft of its chat, and no chat is
    /// selected.
    pub open spec fn parked(self) -> SnapshotModel {
        SnapshotModel {
            compose: Seq::empty(),
            drafts: match self.selected_conversation {
                Some(id) => if self.compose.len() > 0 {
                    self.drafts.insert((self.selected_protocol, id), self.compose)
                } else {
                    self.drafts
                },
                None => self.drafts,
            },
            selected_conversation: None,
            ..self
        }
    }

    /// A chat is selected, and its draft is the compose text.
    pub open spec fn unparked(self, id: Text) -> SnapshotModel {
        let chat = (self.selected_protocol, id);
        SnapshotModel {
            compose: if self.drafts.contains_key(chat) {
                self.drafts[chat]
            } else {
                Seq::empty()
            },
            drafts: self.drafts.remove(chat),
            selected_conversation: Some(id),
            ..self
        }
    }

    /// The selected chat changes. The compose text stays with its chat.
    pub open spec fn selecting(self, id: Option<Text>) -> SnapshotModel {
        if self.selected_conversation == id {
            self
        } else {
            match id {
                Some(new) => self.parked().unparked(new),
                None => self.parked(),
            }
        }
    }

    /// The history of the selected chat is asked for.
    #[verifier::opaque]
    pub open spec fn opening(self) -> SnapshotModel {
        match self.selected_conversation {
            None => self,
            Some(id) => {
                let chat = (self.selected_protocol, id);
                if !self.linked(self.selected_protocol) {
                    SnapshotModel { open_on_link: Some(chat), ..self }
                } else {
                    let next = SnapshotModel { open_on_link: None, ..self };
                    if some_row(self.rows(chat.0), real_chat_is(id)) && !some_row(self.pending, opens(chat)) {
                        SnapshotModel {
                            history_loading: next.history_loading.insert(chat),
                            ..next
                        }.queue(
                            CommandModel::OpenChat { protocol: chat.0, conversation_id: chat.1 },
                        )
                    } else {
                        next
                    }
                }
            },
        }
    }

    /// With no selected chat, the first real chat of the protocol is selected.
    pub open spec fn ensuring(self) -> SnapshotModel {
        if self.selected_conversation.is_some() {
            self
        } else {
            match find(self.rows(self.selected_protocol), real_chat()) {
                Some(row) => self.selecting(Some(row.id)).opening(),
                None => self,
            }
        }
    }

    #[verifier::opaque]
    pub open spec fn selecting_protocol(self, protocol: ProtocolId) -> SnapshotModel {
        if !self.shows(protocol) {
            self
        } else {
            SnapshotModel {
                selected_protocol: protocol,
                focused_row: None,
                ..self.selecting(None)
            }.ensuring()
        }
    }

    #[verifier::opaque]
    pub open spec fn picking(self, id: Text) -> SnapshotModel {
        let next = SnapshotModel { focused_row: Some(id), ..self }.selecting(Some(id));
        SnapshotModel {
            marks: next.marks.insert(Mark::FocusCompose),
            ..next
        }.opening()
    }

    #[verifier::opaque]
    pub open spec fn drafting(self, chat: ChatId, text: Text) -> SnapshotModel {
        if self.is_selected(chat) {
            SnapshotModel { compose: text, ..self }
        } else if text.len() == 0 {
            SnapshotModel { drafts: self.drafts.remove(chat), ..self }
        } else {
            SnapshotModel { drafts: self.drafts.insert(chat, text), ..self }
        }
    }

    /// The highlight stands on a visible row: whether the list scrolls to it.
    pub open spec fn kept_focus(self, reason: FocusFollow) -> Option<bool> {
        match self.focused_row {
            Some(id) => {
                let before = find_index(self.seen_visible_ids, text_is(id));
                let after = find_index(self.visible_ids(), text_is(id));
                if after.is_none() {
                    None
                } else {
                    Some(reason != FocusFollow::List || (before.is_some() && before != after))
                }
            },
            None => None,
        }
    }

    /// The highlight is checked against these visible rows.
    pub open spec fn focus_kept(self, kept: Option<bool>, ids: Seq<Text>) -> SnapshotModel {
        SnapshotModel {
            focused_row: if kept.is_some() {
                self.focused_row
            } else {
                None
            },
            marks: if kept == Some(true) {
                self.marks.insert(Mark::ScrollToFocused)
            } else {
                self.marks
            },
            seen_visible_ids: ids,
            ..self
        }
    }

    /// The highlight stays on a visible row, or goes.
    pub open spec fn refocused(self, reason: FocusFollow) -> SnapshotModel {
        self.focus_kept(self.kept_focus(reason), self.visible_ids())
    }

    #[verifier::opaque]
    pub open spec fn moving(self, delta: int) -> SnapshotModel {
        match self.move_target(delta) {
            Some(id) => SnapshotModel { focused_row: Some(id), ..self }.refocused(
                FocusFollow::Moved,
            ),
            None => self,
        }
    }

    #[verifier::opaque]
    pub open spec fn focusing(self, id: Text) -> SnapshotModel {
        if self.visible_ids().contains(id) {
            SnapshotModel { focused_row: Some(id), ..self }
        } else {
            self
        }
    }

    /// A protocol that the filter shows.
    pub open spec fn passes(self, filter: InboxFilter) -> spec_fn(AccountModel) -> bool {
        |row: AccountModel| filter_matches(filter, row.id) && self.shows(row.id)
    }

    #[verifier::opaque]
    pub open spec fn filtering(self, filter: InboxFilter) -> SnapshotModel {
        if self.filter == filter {
            self
        } else {
            let next = SnapshotModel { filter, ..self };
            let chosen = if filter_matches(filter, self.selected_protocol) {
                next
            } else {
                match find(next.accounts, next.passes(filter)) {
                    Some(row) => next.selecting_protocol(row.id),
                    None => next,
                }
            };
            chosen.refocused(FocusFollow::List)
        }
    }

    #[verifier::opaque]
    pub open spec fn searching(self, text: Text) -> SnapshotModel {
        if self.search == text {
            self
        } else {
            SnapshotModel { search: text, ..self }.refocused(FocusFollow::Query)
        }
    }

    /// One account is refreshed: a linked one loads its chats, another one
    /// connects. Slack connects only from its own button.
    pub open spec fn refreshing_one(self, row: AccountModel) -> SnapshotModel {
        if !self.passes(self.filter)(row) {
            self
        } else if self.linked(row.id) {
            SnapshotModel {
                chat_list_loading: self.chat_list_loading.insert(row.id),
                ..self
            }.queue(CommandModel::LoadChats { protocol: row.id })
        } else if row.id != ProtocolId::Slack {
            self.queue(CommandModel::Connect { protocol: row.id })
        } else {
            self
        }
    }

    /// The first `n` accounts are refreshed, each protocol once.
    pub open spec fn refreshing(self, n: nat) -> SnapshotModel
        decreases n,
    {
        if n == 0 || n > self.accounts.len() {
            self
        } else {
            let before = self.refreshing((n - 1) as nat);
            let row = self.accounts[n - 1];
            if some_row(self.accounts.take(n - 1), account_is(row.id)) {
                before
            } else {
                before.refreshing_one(row)
            }
        }
    }

    /// The chat lists of the visible protocols load again.
    #[verifier::opaque]
    pub open spec fn refreshed(self) -> SnapshotModel {
        self.refreshing(self.accounts.len()).with_status("Refreshing…"@)
    }

    /// The error block closes.
    #[verifier::opaque]
    pub open spec fn without_error(self) -> SnapshotModel {
        SnapshotModel { error: None, ..self }
    }

    /// A client is asked to connect.
    #[verifier::opaque]
    pub open spec fn connecting(self, protocol: ProtocolId) -> SnapshotModel {
        self.queue(CommandModel::Connect { protocol })
    }

    /// The adapters learn which chat shows now: only the difference.
    #[verifier::opaque]
    pub open spec fn syncing_viewed(self) -> SnapshotModel {
        let now = self.viewed_now();
        if now == self.viewed {
            self
        } else {
            let left = match (self.viewed, now) {
                (Some(old), Some(new)) => if old.0 != new.0 {
                    Some(old.0)
                } else {
                    None
                },
                (Some(old), None) => Some(old.0),
                (None, _) => None,
            };
            let next = SnapshotModel { viewed: now, ..self };
            let told = match left {
                Some(protocol) => next.queue(
                    CommandModel::ViewChat { protocol, conversation_id: None },
                ),
                None => next,
            };
            match now {
                Some(chat) => told.queue(
                    CommandModel::ViewChat { protocol: chat.0, conversation_id: Some(chat.1) },
                ),
                None => told,
            }
        }
    }

    #[verifier::opaque]
    pub open spec fn loading_older(self, now: u64) -> SnapshotModel {
        match self.older_anchor(now) {
            Some((id, oldest)) => SnapshotModel {
                older_loading: self.older_loading.insert((self.selected_protocol, id)),
                ..self
            }.queue(
                CommandModel::LoadOlderMessages {
                    protocol: self.selected_protocol,
                    conversation_id: id,
                    before_message_id: oldest,
                },
            ),
            None => self,
        }
    }

    // ---- sending ----

    #[verifier::opaque]
    pub open spec fn sending(self, now: u64) -> SnapshotModel {
        if !self.can_send() {
            self
        } else {
            let chat = (self.selected_protocol, self.selected_conversation.unwrap());
            let body = trim(self.compose);
            let request = self.sends.next;
            SnapshotModel {
                sends: self.sends.begun(chat, PendingModel::Send { request, body }, now),
                error: None,
                status_text: SENDING_STATUS@,
                ..self
            }.queue(
                CommandModel::SendText {
                    protocol: chat.0,
                    conversation_id: chat.1,
                    body,
                    request,
                },
            )
        }
    }

    /// The selected chat, when a failed message of it may be sent again.
    pub open spec fn can_retry(self, message_id: Text) -> bool {
        match self.selected_row() {
            Some(row) => {
                let chat = (self.selected_protocol, row.id);
                &&& self.sends_text(self.selected_protocol)
                &&& row.writable
                &&& match self.message(chat, message_id) {
                    Some(message) => message.outbound && message.delivery == Delivery::Failed,
                    None => false,
                }
                &&& !self.sends.in_flight(chat)
            },
            None => false,
        }
    }

    /// One message row gets a delivery.
    pub open spec fn with_delivery(self, chat: ChatId, id: Text, delivery: Delivery) -> SnapshotModel {
        if self.message(chat, id).is_some() {
            let list = self.thread(chat);
            let at = first_index(list, message_is(id));
            SnapshotModel {
                messages: self.messages.insert(
                    chat,
                    list.update(at, MessageModel { delivery, ..list[at] }),
                ),
                ..self
            }
        } else {
            self
        }
    }

    #[verifier::opaque]
    pub open spec fn retrying(self, message_id: Text, now: u64) -> SnapshotModel {
        if !self.can_retry(message_id) {
            self
        } else {
            let chat = (self.selected_protocol, self.selected_conversation.unwrap());
            let body = self.message(chat, message_id).unwrap().body;
            let request = self.sends.next;
            SnapshotModel {
                sends: self.sends.begun(chat, PendingModel::Retry { request, message_id }, now),
                compose: if self.compose == body {
                    Seq::empty()
                } else {
                    self.compose
                },
                error: None,
                status_text: SENDING_STATUS@,
                ..self.with_delivery(chat, message_id, Delivery::Pending)
            }.queue(
                CommandModel::ResendMessage {
                    protocol: chat.0,
                    conversation_id: chat.1,
                    message_id,
                    request,
                },
            )
        }
    }

    /// The text of a sent message leaves its compose field or draft, if it is
    /// still exactly that text.
    pub open spec fn clearing_sent(self, chat: ChatId, body: Text) -> SnapshotModel {
        if self.is_selected(chat) && trim(self.compose) == body {
            SnapshotModel { compose: Seq::empty(), ..self }
        } else if self.drafts.contains_key(chat) && trim(self.drafts[chat]) == body {
            SnapshotModel { drafts: self.drafts.remove(chat), ..self }
        } else {
            self
        }
    }

    pub open spec fn without_rejected(self, chat: ChatId) -> SnapshotModel {
        SnapshotModel { rejected_bodies: self.rejected_bodies.remove(chat), ..self }
    }

    /// The text of a failed send fills an empty compose field or draft.
    pub open spec fn keeping_failed(self, message: MessageModel) -> SnapshotModel {
        let chat = (message.protocol, message.conversation_id);
        if self.is_selected(chat) {
            if trim(self.compose).len() == 0 {
                SnapshotModel { compose: message.body, ..self }
            } else {
                self
            }
        } else if self.drafts.contains_key(chat) {
            self
        } else {
            SnapshotModel { drafts: self.drafts.insert(chat, message.body), ..self }
        }
    }

    /// A pending send that now failed shows the error block and keeps the text.
    pub open spec fn noting_delivery(self, before: Option<Delivery>, message: MessageModel) -> SnapshotModel {
        if message.outbound && message.delivery == Delivery::Failed && before == Some(
            Delivery::Pending,
        ) {
            self.keeping_failed(message).with_error(
                "Message not sent."@,
                "Telegram did not accept the message."@,
                "Press Retry on the message, or edit the text and send it again."@,
            )
        } else {
            self
        }
    }

    /// One message row gets a delivery, and a failed send is noted.
    #[verifier::opaque]
    pub open spec fn delivering(self, chat: ChatId, id: Text, delivery: Delivery) -> SnapshotModel {
        match self.message(chat, id) {
            Some(row) => self.with_delivery(chat, id, delivery).noting_delivery(
                Some(row.delivery),
                MessageModel { delivery, ..row },
            ),
            None => self,
        }
    }

    /// The chats of the timeout error, each with its protocol.
    pub open spec fn timed_out_names(self) -> Seq<Text> {
        self.timed_out.map_values(
            |one: TimedOutModel|
                self.title_of(one.chat) + " ("@ + name_of(one.chat.0) + ")"@,
        )
    }

    /// The entries of the timeout error, as one error block.
    pub open spec fn timeout_block(self) -> Option<ErrorModel> {
        if self.timed_out.len() == 0 {
            None
        } else if self.timed_out.len() == 1 {
            let one = self.timed_out[0];
            Some(
                ErrorModel {
                    happened: "Message not sent."@,
                    why: name_of(one.chat.0) + " did not answer in time."@,
                    next: self.hint(one.chat, one.retry),
                },
            )
        } else {
            Some(
                ErrorModel {
                    happened: decimal(self.timed_out.len()) + " messages not sent."@,
                    why: "No answer in time for "@ + joined(self.timed_out_names(), ", "@) + "."@,
                    next: "Each text is still in its chat. Send it again, or press Retry."@,
                },
            )
        }
    }

    pub open spec fn showing_timeouts(self) -> SnapshotModel {
        SnapshotModel { error: self.timeout_block(), timeout_error: self.timeout_block(), ..self }
    }

    /// A send or retry that expired went out after all: its unchanged text
    /// goes, or its row is sent and no newer retry of it is tracked.
    pub open spec fn clearing_late(self, chat: ChatId, pending: PendingModel) -> SnapshotModel {
        match pending {
            PendingModel::Send { body, .. } => self.clearing_sent(chat, body),
            PendingModel::Retry { message_id, .. } => {
                let done = self.delivering(chat, message_id, Delivery::Sent);
                SnapshotModel { sends: done.sends.without_retry(chat, message_id), ..done }
            },
        }
    }

    /// One request leaves the timeout error, which changes if it shows.
    pub open spec fn without_timeout(self, chat: ChatId, request: u64) -> SnapshotModel {
        let less = SnapshotModel {
            timed_out: self.timed_out.filter(other_timeout(chat, request)),
            ..self
        };
        if self.error.is_some() && self.error == self.timeout_error {
            less.showing_timeouts()
        } else {
            less
        }
    }

    /// An accept that came after its send expired.
    pub open spec fn accepted_late(self, chat: ChatId, request: u64) -> SnapshotModel {
        match self.sends.answered_late(chat, request) {
            None => self,
            Some(pending) => SnapshotModel {
                sends: self.sends.settled_late(chat, request),
                ..self
            }.without_rejected(chat).clearing_late(chat, pending).without_timeout(chat, request),
        }
    }

    #[verifier::opaque]
    pub open spec fn accepted(self, chat: ChatId, request: u64) -> SnapshotModel {
        let next = SnapshotModel { sends: self.sends.settled(chat, request), ..self };
        match self.sends.answered(chat, request) {
            Some(PendingModel::Send { body, .. }) => next.without_rejected(chat).clearing_sent(
                chat,
                body,
            ),
            Some(PendingModel::Retry { .. }) => next.without_rejected(chat),
            None => self.accepted_late(chat, request),
        }
    }

    /// What was rejected for a chat before.
    pub open spec fn rejected_of(self, chat: ChatId) -> RejectedModel {
        if self.rejected_bodies.contains_key(chat) {
            self.rejected_bodies[chat]
        } else {
            RejectedModel { compose: None, row: None }
        }
    }

    /// A rejected compose text is remembered.
    pub open spec fn remembering_compose(self, chat: ChatId, body: Text) -> SnapshotModel {
        if body.len() == 0 {
            self
        } else {
            SnapshotModel {
                rejected_bodies: self.rejected_bodies.insert(
                    chat,
                    RejectedModel { compose: Some(body), ..self.rejected_of(chat) },
                ),
                ..self
            }
        }
    }

    /// The text of a rejected retry is remembered.
    pub open spec fn remembering_row(self, chat: ChatId, text: Text) -> SnapshotModel {
        if text.len() == 0 {
            self
        } else {
            SnapshotModel {
                rejected_bodies: self.rejected_bodies.insert(
                    chat,
                    RejectedModel { row: Some(text), ..self.rejected_of(chat) },
                ),
                ..self
            }
        }
    }

    /// The error block of a rejected send or retry.
    pub open spec fn saying_rejected(self, chat: ChatId, retry: bool) -> SnapshotModel {
        self.with_error(
            "Message not sent."@,
            name_of(chat.0) + " did not accept the message."@,
            self.hint(chat, retry),
        )
    }

    #[verifier::opaque]
    pub open spec fn rejected(self, chat: ChatId, request: u64) -> SnapshotModel {
        let settled = SnapshotModel { sends: self.sends.settled(chat, request), ..self };
        match self.sends.answered(chat, request) {
            None => SnapshotModel { sends: self.sends.settled_late(chat, request), ..self },
            Some(PendingModel::Send { body, .. }) => settled.remembering_compose(
                chat,
                body,
            ).saying_rejected(chat, false),
            Some(PendingModel::Retry { message_id, .. }) => {
                let failed = settled.delivering(chat, message_id, Delivery::Failed);
                let text = match failed.message(chat, message_id) {
                    Some(row) => trim(row.body),
                    None => Seq::empty(),
                };
                failed.remembering_row(chat, text).saying_rejected(chat, true)
            },
        }
    }

    /// One send or retry expired.
    pub open spec fn expiring_one(self, entry: FlightModel) -> SnapshotModel {
        let next = match entry.pending {
            PendingModel::Send { .. } => self,
            PendingModel::Retry { message_id, .. } => self.delivering(
                entry.chat,
                message_id,
                Delivery::Failed,
            ),
        };
        SnapshotModel {
            timed_out: next.timed_out.push(
                TimedOutModel {
                    chat: entry.chat,
                    request: entry.pending.id(),
                    retry: entry.pending is Retry,
                },
            ),
            ..next
        }
    }

    /// These sends and retries expired, in this order.
    pub open spec fn expiring_all(self, entries: Seq<FlightModel>) -> SnapshotModel
        decreases entries.len(),
    {
        if entries.len() == 0 {
            self
        } else {
            self.expiring_all(entries.drop_last()).expiring_one(entries.last())
        }
    }

    /// The timeout error starts again when it no longer shows.
    pub open spec fn timeouts_restarted(self) -> SnapshotModel {
        if self.error != self.timeout_error {
            SnapshotModel { timed_out: Seq::empty(), ..self }
        } else {
            self
        }
    }

    #[verifier::opaque]
    pub open spec fn expiring(self, now: u64) -> SnapshotModel {
        let due = self.sends.due_at(now);
        let next = SnapshotModel { sends: self.sends.expired_at(now), ..self };
        if due.len() == 0 {
            next
        } else {
            next.timeouts_restarted().expiring_all(due).showing_timeouts()
        }
    }

    /// The text that a chat keeps over the end of its session: a rejected
    /// compose text that is still there, else a rejected retry's text when the
    /// draft is empty or is that text.
    pub open spec fn kept_text(self, chat: ChatId) -> Option<Text> {
        let current = if self.is_selected(chat) {
            trim(self.compose)
        } else if self.drafts.contains_key(chat) {
            trim(self.drafts[chat])
        } else {
            Seq::empty()
        };
        let rejected = self.rejected_of(chat);
        if rejected.compose == Some(current) {
            rejected.compose
        } else {
            match rejected.row {
                Some(row) => if current.len() == 0 || (rejected.compose.is_none() && current
                    == row) {
                    Some(row)
                } else {
                    None
                },
                None => None,
            }
        }
    }

    // ---- sessions ----

    /// A chat of this protocol keeps a text over the end of the session.
    pub open spec fn keeps_text(self, protocol: ProtocolId, chat: ChatId) -> bool {
        &&& protocol != ProtocolId::Telegram
        &&& chat.0 == protocol
        &&& self.rejected_bodies.contains_key(chat)
        &&& self.kept_text(chat).is_some()
    }

    /// The texts that the chats of this protocol keep.
    pub open spec fn kept_texts(self, protocol: ProtocolId) -> Map<ChatId, Text> {
        Map::new(
            |chat: ChatId| self.keeps_text(protocol, chat),
            |chat: ChatId| self.kept_text(chat).unwrap(),
        )
    }

    /// The drafts after the session of a protocol ended: those of the other
    /// protocols, and the rejected texts that are still in their chats.
    pub open spec fn kept_drafts(self, protocol: ProtocolId) -> Map<ChatId, Text> {
        without_owner(self.drafts, protocol).union_prefer_right(self.kept_texts(protocol))
    }

    /// No pairing of WhatsApp runs any more.
    pub open spec fn without_pairing(self) -> SnapshotModel {
        SnapshotModel {
            pairing_generation: None,
            whatsapp_qr: None,
            whatsapp_pair_code: None,
            ..self
        }
    }

    /// The rows and the texts of one protocol go, except the texts that stay.
    #[verifier::opaque]
    pub open spec fn rows_dropped(self, protocol: ProtocolId) -> SnapshotModel {
        SnapshotModel {
            sessions: self.sessions.remove(protocol),
            conversations: self.conversations.remove(protocol),
            rejected_bodies: without_owner(self.rejected_bodies, protocol),
            drafts: self.kept_drafts(protocol),
            messages: without_owner(self.messages, protocol),
            ..self.with_state(protocol, AccountState::Unlinked)
        }
    }

    /// The spinners, the note, and the open sends of one protocol go. With
    /// Telegram, every note on what is left to page goes too.
    #[verifier::opaque]
    pub open spec fn work_dropped(self, protocol: ProtocolId) -> SnapshotModel {
        SnapshotModel {
            history_loading: without_owner_set(self.history_loading, protocol),
            chat_list_loading: self.chat_list_loading.remove(protocol),
            notices: self.notices.remove(protocol),
            sends: self.sends.without_protocol(protocol),
            older_loading: without_owner_set(self.older_loading, protocol),
            older_at_start: if protocol == ProtocolId::Telegram {
                Set::empty()
            } else {
                self.older_at_start
            },
            older_retry: if protocol == ProtocolId::Telegram {
                Map::empty()
            } else {
                self.older_retry
            },
            ..self
        }
    }

    /// What one protocol had goes, except the texts that stay.
    #[verifier::opaque]
    pub open spec fn session_dropped(self, protocol: ProtocolId) -> SnapshotModel {
        let dropped = self.rows_dropped(protocol).work_dropped(protocol);
        if protocol == ProtocolId::WhatsApp && dropped.build.whatsapp_web {
            dropped.without_pairing()
        } else {
            dropped
        }
    }

    /// The session of one protocol ended.
    #[verifier::opaque]
    pub open spec fn ending(self, protocol: ProtocolId) -> SnapshotModel {
        let dropped = self.session_dropped(protocol);
        if self.selected_protocol != protocol {
            dropped
        } else {
            let free = SnapshotModel {
                compose: Seq::empty(),
                selected_conversation: None,
                ..dropped
            };
            match find(free.accounts, free.shows_session()) {
                Some(row) => free.selecting_protocol(row.id),
                None => free,
            }
        }
    }

    /// WhatsApp linked: the pair screen that the user started closes.
    #[verifier::opaque]
    pub open spec fn whatsapp_linked(self) -> SnapshotModel {
        if !self.whatsapp_started || self.whatsapp_screen != WhatsAppScreen::Pair {
            self
        } else {
            SnapshotModel {
                whatsapp_screen: WhatsAppScreen::Hidden,
                whatsapp_phone: Seq::empty(),
                ..self.without_pairing()
            }
        }
    }

    /// Signal linked: its link screen closes.
    #[verifier::opaque]
    pub open spec fn signal_linked(self) -> SnapshotModel {
        if self.signal_screen == SignalScreen::Hidden {
            self
        } else {
            SnapshotModel {
                signal_screen: SignalScreen::Hidden,
                pairing_generation: None,
                signal_qr: None,
                status_text: "Signal is linked on this local build."@,
                ..self
            }.selecting_protocol(ProtocolId::Signal)
        }
    }

    /// A chat of this protocol waits for the link, and is still selected.
    pub open spec fn waits_for_link(self, protocol: ProtocolId) -> bool {
        match self.open_on_link {
            Some(chat) => chat.0 == protocol && self.is_selected(chat),
            None => false,
        }
    }

    /// The first account row of a protocol is linked, and its session starts.
    #[verifier::opaque]
    pub open spec fn session_started(self, protocol: ProtocolId) -> SnapshotModel {
        SnapshotModel {
            sessions: self.sessions.insert(protocol),
            ..self.with_state(protocol, AccountState::Linked)
        }
    }

    /// The inbox after a link. `first`: nothing was linked before. The linked
    /// protocol shows then, and also while nothing linked is selected. A chat
    /// that was opened before the link loads now.
    #[verifier::opaque]
    pub open spec fn link_shown(self, protocol: ProtocolId, first: bool) -> SnapshotModel {
        let shown = if first || !self.linked(self.selected_protocol) {
            self.selecting_protocol(protocol)
        } else {
            self
        };
        if shown.waits_for_link(protocol) {
            shown.opening()
        } else {
            shown
        }
    }

    /// The account of a protocol is linked now.
    #[verifier::opaque]
    pub open spec fn linking(self, protocol: ProtocolId) -> SnapshotModel {
        let opened = self.session_started(protocol).link_shown(protocol, !self.any_linked());
        if protocol == ProtocolId::WhatsApp && opened.build.whatsapp_web {
            opened.whatsapp_linked()
        } else if protocol == ProtocolId::Signal && opened.build.signal_local {
            opened.signal_linked()
        } else {
            opened
        }
    }

    /// The link state of one protocol changes.
    #[verifier::opaque]
    pub open spec fn with_account(self, protocol: ProtocolId, state: AccountState) -> SnapshotModel {
        match state {
            AccountState::Linked => self.linking(protocol),
            AccountState::Linking => self.with_state(protocol, state),
            AccountState::Unlinked => {
                let next = self.with_state(protocol, state);
                if self.has_session(protocol) || self.state_of(protocol)
                    != AccountState::Unlinked {
                    next.ending(protocol)
                } else if self.build.signal_local && protocol == ProtocolId::Signal
                    && self.signal_started {
                    SnapshotModel { signal_started: false, signal_qr: None, ..next }
                } else {
                    next
                }
            },
        }
    }

    /// The loading marks of one protocol go: of one chat, or of all.
    #[verifier::opaque]
    pub open spec fn without_spinners(self, protocol: ProtocolId, chat: Option<Text>) -> SnapshotModel {
        match chat {
            Some(id) => SnapshotModel {
                history_loading: self.history_loading.remove((protocol, id)),
                older_loading: self.older_loading.remove((protocol, id)),
                ..self
            },
            None => SnapshotModel {
                chat_list_loading: self.chat_list_loading.remove(protocol),
                history_loading: without_owner_set(self.history_loading, protocol),
                older_loading: without_owner_set(self.older_loading, protocol),
                ..self
            },
        }
    }

    // ---- events ----

    /// The account row of a protocol notes a status line.
    pub open spec fn status_noted(
        self,
        protocol: ProtocolId,
        status: AdapterStatus,
        detail: Text,
    ) -> SnapshotModel {
        let at = first_index(self.accounts, account_is(protocol));
        if at < self.accounts.len() {
            SnapshotModel {
                accounts: self.accounts.update(
                    at,
                    AccountModel { status, detail, ..self.accounts[at] },
                ),
                ..self
            }
        } else {
            self
        }
    }

    /// A Telegram status line reaches the chrome. After an error no login step
    /// runs, and the resume is over.
    pub open spec fn telegram_status_shown(self, status: AdapterStatus, detail: Text) -> SnapshotModel {
        let bad = status == AdapterStatus::Error || status == AdapterStatus::Refused;
        SnapshotModel {
            ready_status: if status == AdapterStatus::Ready {
                Some(detail)
            } else {
                None
            },
            status_text: detail,
            auth_busy: self.auth_busy && !(bad && self.auth != AuthScreen::Idle),
            resume: if bad {
                Resume::Settled
            } else {
                self.resume
            },
            ..self
        }
    }

    /// An adapter reported its status.
    #[verifier::opaque]
    pub open spec fn with_adapter_status(
        self,
        protocol: ProtocolId,
        status: AdapterStatus,
        detail: Text,
    ) -> SnapshotModel {
        let bad = status == AdapterStatus::Error || status == AdapterStatus::Refused;
        let noted = self.status_noted(protocol, status, detail);
        let calm = if bad {
            noted.without_spinners(protocol, None)
        } else {
            noted
        };
        let told = if bad && calm.build.signal_local && protocol == ProtocolId::Signal
            && calm.signal_started && !calm.linked(ProtocolId::Signal) {
            calm.with_error("Signal linking failed."@, detail, "Start linking again."@)
        } else {
            calm
        };
        if protocol == ProtocolId::Telegram && (bad || status == AdapterStatus::Ready) {
            told.telegram_status_shown(status, detail)
        } else {
            told
        }
    }

    /// A chat row stands in the list of its protocol, in order.
    pub open spec fn chat_put(self, row: ConversationModel) -> SnapshotModel {
        let before = self.rows(row.protocol);
        let after = ranked::<Conversation>(upserted_chat(before, row));
        let moved = match self.selected_conversation {
            Some(id) => self.selected_protocol == row.protocol && some_row(before, chat_is(id))
                && find_index(before, chat_is(id)) != find_index(after, chat_is(id)),
            None => false,
        };
        SnapshotModel {
            conversations: self.conversations.insert(row.protocol, after),
            marks: if moved {
                self.marks.insert(Mark::ScrollToSelected)
            } else {
                self.marks
            },
            ..self
        }
    }

    #[verifier::opaque]
    pub open spec fn upserting_chat(self, row: ConversationModel) -> SnapshotModel {
        self.chat_put(row).ensuring().refocused(FocusFollow::List)
    }

    /// A chat row goes, with its messages and its draft. A Telegram chat also
    /// loses its paging.
    pub open spec fn chat_dropped(self, chat: ChatId) -> SnapshotModel {
        SnapshotModel {
            conversations: if self.conversations.contains_key(chat.0) {
                self.conversations.insert(
                    chat.0,
                    self.conversations[chat.0].filter(chat_is_not(chat.1)),
                )
            } else {
                self.conversations
            },
            messages: self.messages.remove(chat),
            drafts: self.drafts.remove(chat),
            rejected_bodies: self.rejected_bodies.remove(chat),
            older_loading: if chat.0 == ProtocolId::Telegram {
                self.older_loading.remove(chat)
            } else {
                self.older_loading
            },
            older_at_start: if chat.0 == ProtocolId::Telegram {
                self.older_at_start.remove(chat.1)
            } else {
                self.older_at_start
            },
            older_retry: if chat.0 == ProtocolId::Telegram {
                self.older_retry.remove(chat.1)
            } else {
                self.older_retry
            },
            ..self
        }
    }

    #[verifier::opaque]
    pub open spec fn removing_chat(self, chat: ChatId) -> SnapshotModel {
        let dropped = self.chat_dropped(chat);
        if self.is_selected(chat) {
            SnapshotModel {
                compose: Seq::empty(),
                selected_conversation: None,
                ..dropped
            }.ensuring().refocused(FocusFollow::List)
        } else {
            dropped.refocused(FocusFollow::List)
        }
    }

    pub open spec fn upserting_message(self, row: MessageModel) -> SnapshotModel {
        let chat = (row.protocol, row.conversation_id);
        SnapshotModel {
            messages: self.messages.insert(
                chat,
                ranked::<ChatMessage>(upserted_message(self.thread(chat), row)),
            ),
            ..self
        }
    }

    /// The thread of a chat keeps only the messages with `p`.
    #[verifier::opaque]
    pub open spec fn thinning(self, chat: ChatId, p: spec_fn(MessageModel) -> bool) -> SnapshotModel {
        if self.messages.contains_key(chat) {
            SnapshotModel {
                messages: self.messages.insert(chat, self.messages[chat].filter(p)),
                ..self
            }
        } else {
            self
        }
    }

    #[verifier::opaque]
    pub open spec fn receiving(self, row: MessageModel) -> SnapshotModel {
        self.noting_delivery(
            self.delivery((row.protocol, row.conversation_id), row.id),
            row,
        ).upserting_message(row)
    }

    #[verifier::opaque]
    pub open spec fn replacing(self, chat: ChatId, old_id: Text, row: MessageModel) -> SnapshotModel {
        let noted = self.noting_delivery(self.delivery(chat, old_id), row);
        let without = if chat.0 == row.protocol {
            noted.thinning(chat, message_is_not(old_id))
        } else {
            noted
        };
        without.upserting_message(row)
    }

    #[verifier::opaque]
    pub open spec fn patching(self, chat: ChatId, id: Text, body: Text) -> SnapshotModel {
        if self.message(chat, id).is_some() {
            let list = self.thread(chat);
            let at = first_index(list, message_is(id));
            SnapshotModel {
                messages: self.messages.insert(
                    chat,
                    list.update(at, MessageModel { body, ..list[at] }),
                ),
                ..self
            }
        } else {
            self
        }
    }

    /// How often an anchor brought nothing older, with this time.
    pub open spec fn next_tries(self, id: Text, before: Text) -> u32 {
        if self.older_retry.contains_key(id) && self.older_retry[id].anchor == before {
            if self.older_retry[id].tries == u32::MAX {
                u32::MAX
            } else {
                (self.older_retry[id].tries + 1) as u32
            }
        } else {
            1
        }
    }

    /// A page of older messages ended.
    #[verifier::opaque]
    pub open spec fn older_loaded(self, chat: ChatId, before: Text, more: bool, now: u64) -> SnapshotModel {
        if chat.0 != ProtocolId::Telegram && chat.0 != ProtocolId::Signal {
            self
        } else {
            let nothing_older = self.thread(chat).len() > 0 && self.thread(chat)[0].id == before;
            SnapshotModel {
                older_loading: self.older_loading.remove(chat),
                older_at_start: if more {
                    self.older_at_start
                } else {
                    self.older_at_start.insert(chat.1)
                },
                older_retry: if more && nothing_older {
                    self.older_retry.insert(
                        chat.1,
                        OlderTryModel {
                            anchor: before,
                            at: now,
                            tries: self.next_tries(chat.1, before),
                        },
                    )
                } else {
                    self.older_retry.remove(chat.1)
                },
                ..self
            }
        }
    }

    /// Telegram is signed in: its session starts and its chat list loads.
    #[verifier::opaque]
    pub open spec fn telegram_started(self) -> SnapshotModel {
        SnapshotModel {
            sessions: self.sessions.insert(ProtocolId::Telegram),
            telegram_authorized: true,
            chat_list_loading: self.chat_list_loading.insert(ProtocolId::Telegram),
            ..self.without_secrets().with_state(ProtocolId::Telegram, AccountState::Linked)
        }
    }

    /// The login reached Ready. The Telegram inbox shows, unless the user
    /// looks at another session.
    #[verifier::opaque]
    pub open spec fn login_ready(self) -> SnapshotModel {
        let linked = self.telegram_started();
        let keep = linked.selected_protocol != ProtocolId::Telegram && linked.has_session(
            linked.selected_protocol,
        );
        let shown = if keep {
            linked
        } else {
            linked.selecting_protocol(ProtocolId::Telegram)
        };
        SnapshotModel {
            auth: AuthScreen::Idle,
            auth_busy: false,
            error: None,
            status_text: "Telegram is ready. Loading the chat list."@,
            ..shown
        }
    }

    /// The build has no live Telegram client.
    #[verifier::opaque]
    pub open spec fn login_unavailable(self) -> SnapshotModel {
        SnapshotModel {
            sessions: self.sessions.remove(ProtocolId::Telegram),
            auth: AuthScreen::Idle,
            auth_busy: false,
            telegram_authorized: false,
            error: None,
            status_text: "TDLib unavailable in this build. No live Telegram session was opened; form fields were discarded."@,
            ..self.without_secrets().with_state(ProtocolId::Telegram, AccountState::Unlinked)
        }
    }

    /// What every login phase changes: no step runs, the resume is over, the
    /// note goes, and at the phone step an old code or password is stale. An
    /// error stays only on a failure.
    #[verifier::opaque]
    pub open spec fn entering_phase(self, phase: TelegramAuthPhase) -> SnapshotModel {
        let failed = phase == TelegramAuthPhase::Failed;
        let phone = phase == TelegramAuthPhase::NeedPhone;
        SnapshotModel {
            auth_busy: false,
            error: if failed {
                self.error
            } else {
                None
            },
            auth_rejection: if failed {
                self.auth_rejection
            } else {
                None
            },
            resume: Resume::Settled,
            auth_notice: None,
            telegram_code: if phone {
                Seq::empty()
            } else {
                self.telegram_code
            },
            telegram_2fa: if phone {
                Seq::empty()
            } else {
                self.telegram_2fa
            },
            ..self
        }
    }

    /// The phone step shows, with the reason why if there is one.
    #[verifier::opaque]
    pub open spec fn at_phone_step(self, resuming: bool) -> SnapshotModel {
        match self.data_reset {
            Some(folder) => SnapshotModel {
                data_reset: None,
                auth: AuthScreen::TelegramPhone,
                status_text: reset_notice(folder),
                auth_notice: Some(reset_notice(folder)),
                ..self
            },
            None => if resuming {
                SnapshotModel {
                    auth: AuthScreen::TelegramPhone,
                    status_text: SESSION_ENDED_NOTICE@,
                    auth_notice: Some(SESSION_ENDED_NOTICE@),
                    ..self
                }
            } else {
                SnapshotModel {
                    auth: AuthScreen::TelegramPhone,
                    status_text: "Telegram: enter a phone number. It stays in the secret store."@,
                    ..self
                }
            },
        }
    }

    /// The code step shows.
    #[verifier::opaque]
    pub open spec fn at_code_step(self) -> SnapshotModel {
        SnapshotModel {
            auth: AuthScreen::TelegramCode,
            status_text: "Telegram: enter the login code. It stays in the secret store."@,
            ..self
        }
    }

    /// The password step shows.
    #[verifier::opaque]
    pub open spec fn at_password_step(self) -> SnapshotModel {
        SnapshotModel {
            auth: AuthScreen::Telegram2fa,
            status_text: "Telegram: enter your Telegram password."@,
            ..self
        }
    }

    /// Telegram refused the last step. A client that could not be set up
    /// closes, and so does the form.
    #[verifier::opaque]
    pub open spec fn step_refused(self) -> SnapshotModel {
        let told = SnapshotModel { error: Some(login_error(self.auth_rejection)), ..self };
        if self.auth_rejection matches Some(TelegramAuthError::ClientSetup { .. }) {
            SnapshotModel { auth: AuthScreen::Idle, ..told }.without_secrets().queue(
                CommandModel::Disconnect { protocol: ProtocolId::Telegram },
            )
        } else {
            told
        }
    }

    /// The login reached a phase.
    #[verifier::opaque]
    pub open spec fn in_phase(self, phase: TelegramAuthPhase) -> SnapshotModel {
        let next = self.entering_phase(phase);
        match phase {
            TelegramAuthPhase::NeedPhone => next.at_phone_step(self.resume == Resume::Connecting),
            TelegramAuthPhase::NeedCode => next.at_code_step(),
            TelegramAuthPhase::NeedTwoFactor => next.at_password_step(),
            TelegramAuthPhase::Ready => next.login_ready(),
            TelegramAuthPhase::Unavailable => next.login_unavailable(),
            TelegramAuthPhase::Failed => next.step_refused(),
        }
    }

    /// The live Telegram session ended elsewhere: a new client starts.
    #[verifier::opaque]
    pub open spec fn telegram_ended(self) -> SnapshotModel {
        if !self.telegram_authorized {
            self
        } else {
            SnapshotModel {
                status_text: SESSION_ENDED_NOTICE@,
                ..SnapshotModel {
                    auth: AuthScreen::Idle,
                    auth_busy: false,
                    error: None,
                    resume: Resume::Connecting,
                    ..SnapshotModel { telegram_authorized: false, ..self }.ending(
                        ProtocolId::Telegram,
                    )
                }.queue_step(TelegramAuthStep::ApiCredentials)
            }
        }
    }

    /// The chat list of a protocol is loaded.
    #[verifier::opaque]
    pub open spec fn list_loaded(self, protocol: ProtocolId) -> SnapshotModel {
        SnapshotModel { chat_list_loading: self.chat_list_loading.remove(protocol), ..self }
    }

    /// The history of a chat is loaded.
    #[verifier::opaque]
    pub open spec fn history_loaded(self, chat: ChatId) -> SnapshotModel {
        SnapshotModel { history_loading: self.history_loading.remove(chat), ..self }
    }

    /// A protocol shows a note.
    #[verifier::opaque]
    pub open spec fn noticed(self, protocol: ProtocolId, text: Text) -> SnapshotModel {
        SnapshotModel { notices: self.notices.insert(protocol, text), ..self }
    }

    /// The adapter of a protocol stopped.
    #[verifier::opaque]
    pub open spec fn adapter_stopped(self, protocol: ProtocolId) -> SnapshotModel {
        SnapshotModel { stopped: self.stopped.insert(protocol), ..self }
    }

    /// The secrets should go to the keychain.
    #[verifier::opaque]
    pub open spec fn flush_asked(self) -> SnapshotModel {
        SnapshotModel { marks: self.marks.insert(Mark::KeychainFlush), ..self }
    }

    /// Telegram named why it refused a step.
    #[verifier::opaque]
    pub open spec fn step_rejected(self, error: TelegramAuthError) -> SnapshotModel {
        SnapshotModel { auth_rejection: Some(error), ..self }
    }

    /// Telegram sent a login code.
    #[verifier::opaque]
    pub open spec fn code_sent(self, via: TelegramCodeVia) -> SnapshotModel {
        SnapshotModel { code_via: Some(via), ..self }
    }

    /// The local Telegram data was moved away.
    #[verifier::opaque]
    pub open spec fn data_moved(self, folder: Text) -> SnapshotModel {
        SnapshotModel { data_reset: Some(folder), ..self }
    }

    /// A WhatsApp code picture came. Only the pairing that runs now shows it.
    #[verifier::opaque]
    pub open spec fn whatsapp_qr_shown(self, code: Text, generation: u64) -> SnapshotModel {
        if self.build.whatsapp_web && self.pairing_generation == Some(generation) {
            SnapshotModel { whatsapp_qr: Some(code), ..self }
        } else {
            self
        }
    }

    /// A WhatsApp pair code came. Only the pairing that runs now shows it.
    #[verifier::opaque]
    pub open spec fn whatsapp_code_shown(self, code: Text, generation: u64) -> SnapshotModel {
        if self.build.whatsapp_web && self.pairing_generation == Some(generation) {
            SnapshotModel { whatsapp_pair_code: Some(code), ..self }
        } else {
            self
        }
    }

    /// A Signal code picture came. Only the pairing that runs now shows it.
    #[verifier::opaque]
    pub open spec fn signal_qr_shown(self, code: Text, generation: u64) -> SnapshotModel {
        if self.build.signal_local && self.pairing_generation == Some(generation) {
            SnapshotModel { signal_qr: Some(code), ..self }
        } else {
            self
        }
    }

    /// An event is about the inbox of a protocol with no session.
    pub open spec fn drops(self, event: AdapterEvent) -> bool {
        match event.inbox_of() {
            Some(protocol) => !self.has_session(protocol),
            None => false,
        }
    }

    /// One event came at `now`.
    #[verifier::opaque]
    pub open spec fn applied(self, event: AdapterEvent, now: u64) -> SnapshotModel {
        if self.drops(event) {
            self
        } else {
            self.applied_kept(event, now)
        }
    }

    /// One event that is not dropped came at `now`.
    #[verifier::opaque]
    pub open spec fn applied_kept(self, event: AdapterEvent, now: u64) -> SnapshotModel {
        match event {
            AdapterEvent::Status { protocol, status, detail } => self.with_adapter_status(
                protocol,
                status,
                detail@,
            ),
            AdapterEvent::Account { protocol, state } => self.with_account(protocol, state),
            AdapterEvent::ConversationUpsert { conversation } => self.upserting_chat(
                conversation.deep_view(),
            ),
            AdapterEvent::ConversationRemoved { protocol, id } => self.removing_chat(
                (protocol, id@),
            ),
            AdapterEvent::MessageReceived { message } => self.receiving(message.deep_view()),
            AdapterEvent::MessageReplaced { protocol, conversation_id, old_id, message } =>
                self.replacing((protocol, conversation_id@), old_id@, message.deep_view()),
            AdapterEvent::MessageBody { protocol, conversation_id, message_id, body } =>
                self.patching((protocol, conversation_id@), message_id@, body@),
            AdapterEvent::MessagesRemoved { protocol, conversation_id, message_ids } =>
                self.thinning(
                (protocol, conversation_id@),
                message_not_in(message_ids.deep_view()),
            ),
            AdapterEvent::MessageDelivery { protocol, conversation_id, message_id, delivery } =>
                self.delivering((protocol, conversation_id@), message_id@, delivery),
            AdapterEvent::SendAccepted { protocol, conversation_id, request } => self.accepted(
                (protocol, conversation_id@),
                request,
            ),
            AdapterEvent::SendRejected { protocol, conversation_id, request } => self.rejected(
                (protocol, conversation_id@),
                request,
            ),
            AdapterEvent::ChatListLoaded { protocol } => self.list_loaded(protocol),
            AdapterEvent::HistoryLoaded { protocol, conversation_id } => self.history_loaded(
                (protocol, conversation_id@),
            ),
            AdapterEvent::OlderHistoryLoaded {
                protocol,
                conversation_id,
                before_message_id,
                more,
                ..
            } => self.older_loaded(
                (protocol, conversation_id@),
                before_message_id@,
                more,
                now,
            ),
            AdapterEvent::CommandFailed { protocol, conversation_id, detail } =>
                self.without_spinners(protocol, conversation_id.deep_view()).with_error(
                name_of(protocol) + ": the last action did not finish."@,
                detail@,
                "Try again. The inbox stays open."@,
            ),
            AdapterEvent::Notice { protocol, text } => self.noticed(protocol, text@),
            AdapterEvent::Stopped { protocol } => self.adapter_stopped(protocol),
            AdapterEvent::FlushSecrets => self.flush_asked(),
            AdapterEvent::TelegramAuth { phase } => self.in_phase(phase),
            AdapterEvent::TelegramAuthRejected { error } => self.step_rejected(error),
            AdapterEvent::TelegramCodeSent { via } => self.code_sent(via),
            AdapterEvent::TelegramDataReset { moved_to } => self.data_moved(moved_to@),
            AdapterEvent::TelegramSessionEnded => self.telegram_ended(),
            AdapterEvent::Login { .. } => self,
            AdapterEvent::WhatsAppQr { code, generation } => self.whatsapp_qr_shown(
                code.revealed(),
                generation,
            ),
            AdapterEvent::WhatsAppPairCode { code, generation } => self.whatsapp_code_shown(
                code.revealed(),
                generation,
            ),
            AdapterEvent::SignalQr { code, generation } => self.signal_qr_shown(
                code.revealed(),
                generation,
            ),
        }
    }

    // ---- login actions ----

    /// A saved session can be resumed: the build holds the client, a session
    /// and API credentials are stored, and no login runs.
    pub open spec fn may_resume(self, store: StoreModel, live: bool) -> bool {
        live && store.values.contains_key(SecretKey::Session) && self.auth == AuthScreen::Idle
            && !self.telegram_authorized && self.has_api(store)
    }

    /// A saved Telegram session starts with no click, once.
    #[verifier::opaque]
    pub open spec fn resuming(self, store: StoreModel, live: bool) -> SnapshotModel {
        if self.resume != Resume::Waiting || !store.settled() {
            self
        } else if self.may_resume(store, live) {
            SnapshotModel {
                resume: Resume::Connecting,
                status_text: RESUME_CONNECTING@,
                ..self
            }.queue_step(TelegramAuthStep::ApiCredentials)
        } else {
            SnapshotModel { resume: Resume::Settled, ..self }
        }
    }

    /// What a frame sees of the keychain: a failed read, and when the wait for
    /// the read began.
    #[verifier::opaque]
    pub open spec fn keychain_seen(self, failed: bool, settled: bool, now: u64) -> SnapshotModel {
        SnapshotModel {
            marks: if failed {
                self.marks.insert(Mark::KeychainFailed)
            } else {
                self.marks.remove(Mark::KeychainFailed)
            },
            keychain_wait_started: if settled || self.keychain_wait_started.is_some() {
                self.keychain_wait_started
            } else {
                Some(now)
            },
            ..self
        }
    }

    /// One frame: note the keychain, then resume a saved session if it is time.
    #[verifier::opaque]
    pub open spec fn polling(self, store: StoreModel, now: u64) -> SnapshotModel {
        self.keychain_seen(store.phase == AttachPhase::ReadFailed, store.settled(), now).resuming(
            store,
            self.build.telegram_tdlib,
        )
    }

    #[verifier::opaque]
    pub open spec fn opening_telegram(self, store: StoreModel) -> SnapshotModel {
        if store.phase == AttachPhase::ReadFailed {
            self.with_error(
                "Telegram sign-in did not start."@,
                "The keychain could not be read, so thinwire does not know your saved sign-in."@,
                "Unlock the keychain, then press Try again."@,
            )
        } else if !store.settled() {
            self.with_status(KEYCHAIN_LOADING_STATUS@)
        } else {
            let next = SnapshotModel {
                resume: Resume::Settled,
                error: None,
                auth_busy: false,
                ..self.without_secrets()
            };
            if self.has_api(store) {
                SnapshotModel { auth: AuthScreen::TelegramConnecting, ..next }.queue_step(
                    TelegramAuthStep::ApiCredentials,
                ).busy(CONNECTING_STATUS@)
            } else {
                SnapshotModel {
                    auth: AuthScreen::NeedCredentials,
                    status_text: if self.api_source.is_some() {
                        "Telegram API credentials are missing from the keychain override. Set Advanced credentials or Cancel."@
                    } else {
                        "Credentials missing. Official binaries inject TELEGRAM_API_ID / TELEGRAM_API_HASH at release time. Dev: rebuild with those env vars, or set a keychain override in Advanced."@
                    },
                    ..next
                }
            }
        }
    }

    /// The store after [`Self::opening_telegram`].
    pub open spec fn store_opening_telegram(self, store: StoreModel) -> StoreModel {
        if store.settled() {
            store.without_ephemeral()
        } else {
            store
        }
    }

    #[verifier::opaque]
    pub open spec fn opening_override(self, store: StoreModel) -> SnapshotModel {
        if self.telegram_authorized {
            self
        } else {
            self.at_api_form(store.value(SecretKey::ApiId), store.value(SecretKey::ApiHash))
        }
    }

    /// The API credential form shows, with these values in it.
    #[verifier::opaque]
    pub open spec fn at_api_form(self, api_id: Option<Text>, api_hash: Option<Text>) -> SnapshotModel {
        SnapshotModel {
            error: None,
            auth_busy: false,
            telegram_api_id: match api_id {
                Some(text) => text,
                None => Seq::empty(),
            },
            telegram_api_hash: match api_hash {
                Some(text) => text,
                None => Seq::empty(),
            },
            auth: AuthScreen::TelegramApi,
            status_text: "Advanced: custom Telegram API credentials. The keychain override wins over the publisher pair. Values are not logged."@,
            ..self.without_secrets()
        }
    }

    #[verifier::opaque]
    pub open spec fn cancelling(self) -> SnapshotModel {
        let next = SnapshotModel {
            resume: Resume::Settled,
            auth: AuthScreen::Idle,
            auth_busy: false,
            error: None,
            ..self.without_secrets()
        };
        if self.telegram_authorized {
            next.with_status("Telegram is ready."@)
        } else {
            next.with_status("Account linking cancelled."@).queue(
                CommandModel::Disconnect { protocol: ProtocolId::Telegram },
            )
        }
    }

    pub open spec fn missing_field(self, name: Text) -> SnapshotModel {
        self.with_error(
            "Telegram login did not advance."@,
            "The "@ + name + " field is empty."@,
            "Fill the field, or press Cancel. Values are not logged."@,
        )
    }

    /// The current login step is submitted.
    #[verifier::opaque]
    pub open spec fn advancing(self) -> SnapshotModel {
        if self.auth_busy {
            self
        } else {
            match self.auth {
                AuthScreen::TelegramApi => if trim(self.telegram_api_id).len() == 0 {
                    self.missing_field("api_id"@)
                } else if trim(self.telegram_api_hash).len() == 0 {
                    self.missing_field("api_hash"@)
                } else {
                    SnapshotModel {
                        marks: self.marks.insert(Mark::KeychainFlush),
                        ..self
                    }.queue_step(
                        TelegramAuthStep::ApiCredentials,
                    ).busy("Telegram: api credentials stored. Waiting for the next login step."@)
                },
                AuthScreen::TelegramConnecting => self.queue(
                    CommandModel::Disconnect { protocol: ProtocolId::Telegram },
                ).queue_step(TelegramAuthStep::ApiCredentials).busy(CONNECTING_STATUS@),
                AuthScreen::TelegramPhone => if trim(self.telegram_phone).len() == 0 {
                    self.missing_field("phone number"@)
                } else {
                    self.queue_step(TelegramAuthStep::Phone).busy(
                        "Telegram: phone stored. Waiting for a login code."@,
                    )
                },
                AuthScreen::TelegramCode => if trim(self.telegram_code).len() == 0 {
                    self.missing_field("login code"@)
                } else {
                    self.queue_step(TelegramAuthStep::Code).busy(
                        "Telegram: login code stored. Waiting for the next step."@,
                    )
                },
                AuthScreen::Telegram2fa => if self.telegram_2fa.len() == 0 {
                    self
                } else {
                    self.queue_step(TelegramAuthStep::TwoFactor).busy(
                        "Telegram: password sent. Waiting for Telegram."@,
                    )
                },
                AuthScreen::NeedCredentials => self,
                AuthScreen::Idle => self,
            }
        }
    }

    /// The store after the current login step is submitted.
    pub open spec fn store_advancing(self, store: StoreModel) -> StoreModel {
        if self.auth_busy {
            store
        } else {
            match self.auth {
                AuthScreen::TelegramApi => if trim(self.telegram_api_id).len() == 0 || trim(
                    self.telegram_api_hash,
                ).len() == 0 {
                    store
                } else {
                    store.set(SecretKey::ApiId, self.telegram_api_id).set(
                        SecretKey::ApiHash,
                        self.telegram_api_hash,
                    )
                },
                AuthScreen::TelegramPhone => if trim(self.telegram_phone).len() == 0 {
                    store
                } else {
                    store.set(SecretKey::Phone, self.telegram_phone)
                },
                AuthScreen::TelegramCode => if trim(self.telegram_code).len() == 0 {
                    store
                } else {
                    store.set(SecretKey::Code, self.telegram_code)
                },
                AuthScreen::Telegram2fa => if self.telegram_2fa.len() == 0 {
                    store
                } else {
                    store.set(SecretKey::Password, self.telegram_2fa)
                },
                _ => store,
            }
        }
    }

    #[verifier::opaque]
    pub open spec fn changing_number(self) -> SnapshotModel {
        if self.auth != AuthScreen::TelegramCode {
            self
        } else {
            SnapshotModel {
                auth: AuthScreen::TelegramPhone,
                auth_busy: false,
                telegram_code: Seq::empty(),
                code_via: None,
                auth_rejection: None,
                error: None,
                status_text: "Telegram: enter a phone number."@,
                ..self
            }
        }
    }

    #[verifier::opaque]
    pub open spec fn resending_code(self) -> SnapshotModel {
        if self.auth != AuthScreen::TelegramCode || self.auth_busy {
            self
        } else {
            SnapshotModel { telegram_code: Seq::empty(), ..self }.queue_step(
                TelegramAuthStep::ResendCode,
            ).busy("Telegram: asking for a new code."@)
        }
    }

    #[verifier::opaque]
    pub open spec fn retrying_keychain(self) -> SnapshotModel {
        SnapshotModel {
            marks: self.marks.insert(Mark::KeychainRetry),
            keychain_wait_started: None,
            error: None,
            ..self
        }
    }

    /// The add-account action: only while Telegram is not signed in.
    #[verifier::opaque]
    pub open spec fn adding_account(self, store: StoreModel) -> SnapshotModel {
        if self.telegram_authorized {
            self
        } else {
            self.opening_telegram(store)
        }
    }

    /// The store after [`Self::adding_account`].
    pub open spec fn store_adding_account(self, store: StoreModel) -> StoreModel {
        if self.telegram_authorized {
            store
        } else {
            self.store_opening_telegram(store)
        }
    }

    /// A key on the login form.
    #[verifier::opaque]
    pub open spec fn login_key(self, key: AuthKey, store: StoreModel) -> SnapshotModel {
        if self.auth == AuthScreen::Idle {
            self
        } else if key == AuthKey::Escape {
            self.cancelling()
        } else if self.auth == AuthScreen::NeedCredentials {
            self.opening_override(store)
        } else {
            self.advancing()
        }
    }

    /// The store after [`Self::login_key`].
    pub open spec fn store_login_key(self, key: AuthKey, store: StoreModel) -> StoreModel {
        if self.auth == AuthScreen::Idle {
            store
        } else if key == AuthKey::Escape {
            store.without_ephemeral()
        } else if self.auth == AuthScreen::NeedCredentials {
            store
        } else {
            self.store_advancing(store)
        }
    }

    /// A key on the center screen.
    #[verifier::opaque]
    pub open spec fn screen_key(self, key: AuthKey, store: StoreModel) -> SnapshotModel {
        match self.center() {
            CenterView::FirstRun => if key == AuthKey::Enter {
                self.adding_account(store)
            } else {
                self
            },
            CenterView::Auth => self.login_key(key, store),
            CenterView::KeychainFailed => if key == AuthKey::Enter {
                self.retrying_keychain()
            } else {
                self
            },
            _ => self,
        }
    }

    /// The store after [`Self::screen_key`].
    pub open spec fn store_screen_key(self, key: AuthKey, store: StoreModel) -> StoreModel {
        match self.center() {
            CenterView::FirstRun => if key == AuthKey::Enter {
                self.store_adding_account(store)
            } else {
                store
            },
            CenterView::Auth => self.store_login_key(key, store),
            _ => store,
        }
    }

    // ---- gates ----

    #[verifier::opaque]
    pub open spec fn opening_whatsapp_gate(self) -> SnapshotModel {
        if !self.build.whatsapp_web {
            self
        } else {
            let told = if self.whatsapp_started {
                self.queue(CommandModel::WhatsAppCancelLink)
            } else {
                self
            };
            SnapshotModel {
                whatsapp_screen: WhatsAppScreen::RiskGate,
                whatsapp_started: false,
                marks: self.marks.remove(Mark::WhatsAppRiskAccepted),
                whatsapp_phone: Seq::empty(),
                ..told.without_pairing()
            }
        }
    }

    #[verifier::opaque]
    pub open spec fn cancelling_whatsapp(self) -> SnapshotModel {
        SnapshotModel {
            whatsapp_phone: Seq::empty(),
            whatsapp_started: false,
            marks: self.marks.remove(Mark::WhatsAppRiskAccepted),
            whatsapp_screen: WhatsAppScreen::Hidden,
            status_text: "WhatsApp pairing cancelled."@,
            ..self.without_pairing()
        }.queue(CommandModel::WhatsAppCancelLink)
    }

    #[verifier::opaque]
    pub open spec fn closing_whatsapp_gate(self) -> SnapshotModel {
        if self.whatsapp_screen == WhatsAppScreen::Pair || self.marks.contains(Mark::WhatsAppRiskAccepted)
            || self.whatsapp_started {
            self.cancelling_whatsapp()
        } else {
            SnapshotModel {
                whatsapp_screen: WhatsAppScreen::Hidden,
                whatsapp_phone: Seq::empty(),
                ..self
            }
        }
    }

    #[verifier::opaque]
    pub open spec fn accepting_whatsapp_risk(self) -> SnapshotModel {
        if self.whatsapp_screen != WhatsAppScreen::RiskGate {
            self
        } else {
            SnapshotModel {
                marks: self.marks.insert(Mark::WhatsAppRiskAccepted),
                whatsapp_screen: WhatsAppScreen::Pair,
                error: None,
                status_text: "WhatsApp ban gate accepted. Pairing has not started."@,
                ..self
            }.queue(CommandModel::WhatsAppAcknowledgeRisk)
        }
    }

    /// A WhatsApp pairing may start.
    pub open spec fn may_pair_whatsapp(self) -> bool {
        self.whatsapp_screen == WhatsAppScreen::Pair && self.marks.contains(Mark::WhatsAppRiskAccepted)
            && !self.whatsapp_started
    }

    /// The phone number in the vault after a pairing was asked for.
    pub open spec fn phone_after_pairing(self, held: Option<Text>) -> Option<Text> {
        if !self.may_pair_whatsapp() {
            held
        } else if trim(self.whatsapp_phone).len() == 0 {
            None
        } else {
            Some(trim(self.whatsapp_phone))
        }
    }

    #[verifier::opaque]
    pub open spec fn pairing_whatsapp(self) -> SnapshotModel {
        if !self.may_pair_whatsapp() {
            self
        } else {
            SnapshotModel {
                whatsapp_phone: Seq::empty(),
                whatsapp_started: true,
                error: None,
                status_text: "WhatsApp pairing requested."@,
                next_pairing_generation: (self.next_pairing_generation + 1) as u64,
                pairing_generation: Some(self.next_pairing_generation),
                ..self
            }.queue(
                CommandModel::WhatsAppBeginLink { generation: self.next_pairing_generation },
            )
        }
    }

    #[verifier::opaque]
    pub open spec fn opening_signal_notice(self) -> SnapshotModel {
        if !self.build.signal_local {
            self
        } else if self.linked(ProtocolId::Signal) {
            SnapshotModel { signal_screen: SignalScreen::Notice, signal_qr: None, ..self }
        } else {
            SnapshotModel {
                signal_screen: SignalScreen::Notice,
                signal_qr: None,
                signal_started: false,
                marks: self.marks.remove(Mark::SignalNoticeAccepted),
                ..if self.signal_started {
                    self.queue(CommandModel::SignalCancelLink)
                } else {
                    self
                }
            }
        }
    }

    #[verifier::opaque]
    pub open spec fn cancelling_signal(self) -> SnapshotModel {
        SnapshotModel {
            pairing_generation: None,
            signal_qr: None,
            signal_started: false,
            marks: self.marks.remove(Mark::SignalNoticeAccepted),
            signal_screen: SignalScreen::Hidden,
            status_text: "Signal linking cancelled."@,
            ..self
        }.queue(CommandModel::SignalCancelLink)
    }

    #[verifier::opaque]
    pub open spec fn closing_signal_gate(self) -> SnapshotModel {
        if self.linked(ProtocolId::Signal) {
            SnapshotModel { signal_screen: SignalScreen::Hidden, signal_qr: None, ..self }
        } else if self.signal_screen == SignalScreen::Link || self.marks.contains(Mark::SignalNoticeAccepted)
            || self.signal_started {
            self.cancelling_signal()
        } else {
            SnapshotModel { signal_screen: SignalScreen::Hidden, ..self }
        }
    }

    #[verifier::opaque]
    pub open spec fn accepting_signal_notice(self) -> SnapshotModel {
        if self.signal_screen != SignalScreen::Notice {
            self
        } else {
            SnapshotModel {
                marks: self.marks.insert(Mark::SignalNoticeAccepted),
                signal_screen: SignalScreen::Link,
                error: None,
                status_text: "Signal local-build notice accepted. Linking has not started."@,
                ..self
            }.queue(CommandModel::SignalAcknowledgeNotice)
        }
    }

    /// A Signal link may start.
    pub open spec fn may_link_signal(self) -> bool {
        self.signal_screen == SignalScreen::Link && self.marks.contains(Mark::SignalNoticeAccepted)
            && !self.signal_started
    }

    #[verifier::opaque]
    pub open spec fn linking_signal(self) -> SnapshotModel {
        if !self.may_link_signal() {
            self
        } else {
            SnapshotModel {
                signal_started: true,
                error: None,
                status_text: "Signal linking requested."@,
                next_pairing_generation: (self.next_pairing_generation + 1) as u64,
                pairing_generation: Some(self.next_pairing_generation),
                ..self
            }.queue(CommandModel::SignalBeginLink { generation: self.next_pairing_generation })
        }
    }

    /// The copy under the spinner while the keychain read runs.
    pub open spec fn wait_text(self, now: u64) -> Text {
        match self.keychain_wait_started {
            Some(started) => if now - started >= KEYCHAIN_SLOW_AFTER {
                KEYCHAIN_WAITING@
            } else {
                KEYCHAIN_OPENING@
            },
            None => KEYCHAIN_OPENING@,
        }
    }
}

} // verus!
