//! The vocabulary that the core shares with the protocol adapters: protocols,
//! chats, messages, commands to an adapter, and events from one.

use crate::keyed::Key;
use vstd::prelude::*;
use vstd::string::*;

verus! {

/// A text as the sequence of its characters.
pub type Text = Seq<char>;

/// One chat of one protocol.
pub type ChatId = (ProtocolId, Seq<char>);

/// A supported protocol.
#[derive(Debug, Clone, Copy, PartialEq, Eq, Hash, Structural)]
pub enum ProtocolId {
    Telegram,
    Slack,
    WhatsApp,
    Discord,
    Signal,
}

/// The name of a protocol as the shell shows it.
pub open spec fn name_of(protocol: ProtocolId) -> Text {
    match protocol {
        ProtocolId::Telegram => "Telegram"@,
        ProtocolId::Slack => "Slack"@,
        ProtocolId::WhatsApp => "WhatsApp"@,
        ProtocolId::Discord => "Discord"@,
        ProtocolId::Signal => "Signal"@,
    }
}

impl ProtocolId {
    /// The name that the shell shows.
    pub fn display_name(self) -> (r: &'static str)
        ensures
            r@ == name_of(self),
    {
        match self {
            ProtocolId::Telegram => "Telegram",
            ProtocolId::Slack => "Slack",
            ProtocolId::WhatsApp => "WhatsApp",
            ProtocolId::Discord => "Discord",
            ProtocolId::Signal => "Signal",
        }
    }
}

impl DeepView for ProtocolId {
    type V = ProtocolId;

    open spec fn deep_view(&self) -> ProtocolId {
        *self
    }
}

impl Key for ProtocolId {
    fn same(&self, other: &Self) -> (r: bool) {
        *self == *other
    }
}

impl Key for (ProtocolId, String) {
    fn same(&self, other: &Self) -> (r: bool) {
        self.0 == other.0 && self.1 == other.1
    }
}

impl Key for u32 {
    fn same(&self, other: &Self) -> (r: bool) {
        *self == *other
    }
}

impl Key for u64 {
    fn same(&self, other: &Self) -> (r: bool) {
        *self == *other
    }
}

/// The optional parts that a build of the app holds. A part that is off
/// stays invisible.
#[derive(Debug, Clone, Copy, PartialEq, Eq, Structural)]
pub struct Build {
    /// The live Telegram client.
    pub telegram_tdlib: bool,
    /// The Slack workspace app.
    pub slack_oauth: bool,
    /// The experimental WhatsApp linked device.
    pub whatsapp_web: bool,
    /// The Discord bot inbox.
    pub discord_bot: bool,
    /// The local-only Signal linked device.
    pub signal_local: bool,
}

impl Build {
    /// The default build: every optional part is off.
    pub open spec fn plain() -> Build {
        Build {
            telegram_tdlib: false,
            slack_oauth: false,
            whatsapp_web: false,
            discord_bot: false,
            signal_local: false,
        }
    }
}

impl Default for Build {
    fn default() -> (r: Self)
        ensures
            r == Build::plain(),
    {
        Build {
            telegram_tdlib: false,
            slack_oauth: false,
            whatsapp_web: false,
            discord_bot: false,
            signal_local: false,
        }
    }
}

/// What one protocol can do.
#[derive(Debug, Clone, Copy)]
pub struct ProtocolCapabilities {
    pub id: ProtocolId,
    /// One line about the protocol, for its account row.
    pub detail: &'static str,
    /// The adapter accepts text to send.
    pub sends_text: bool,
}

/// The catalog line of a protocol.
pub open spec fn detail_of(protocol: ProtocolId) -> Text {
    match protocol {
        ProtocolId::Telegram => "Official TDLib client."@,
        ProtocolId::Slack => "Official workspace app."@,
        ProtocolId::WhatsApp => "Experimental linked device."@,
        ProtocolId::Discord => "Bot inbox."@,
        ProtocolId::Signal => "Local-only linked device."@,
    }
}

/// The protocol's adapter accepts text to send.
pub open spec fn sends_text_of(protocol: ProtocolId) -> bool {
    protocol != ProtocolId::Discord
}

/// The protocols of the catalog, in the order of the account rows.
pub open spec fn catalog_order() -> Seq<ProtocolId> {
    seq![
        ProtocolId::Telegram,
        ProtocolId::Slack,
        ProtocolId::WhatsApp,
        ProtocolId::Discord,
        ProtocolId::Signal,
    ]
}

/// The row of one protocol in the catalog.
pub fn capabilities(protocol: ProtocolId) -> (r: ProtocolCapabilities)
    ensures
        r.id == protocol,
        r.detail@ == detail_of(protocol),
        r.sends_text == sends_text_of(protocol),
{
    let detail: &'static str = match protocol {
        ProtocolId::Telegram => "Official TDLib client.",
        ProtocolId::Slack => "Official workspace app.",
        ProtocolId::WhatsApp => "Experimental linked device.",
        ProtocolId::Discord => "Bot inbox.",
        ProtocolId::Signal => "Local-only linked device.",
    };
    let sends_text = match protocol {
        ProtocolId::Discord => false,
        _ => true,
    };
    ProtocolCapabilities { id: protocol, detail, sends_text }
}

/// Every protocol with what it can do.
pub fn catalog() -> (r: Vec<ProtocolCapabilities>)
    ensures
        r@.len() == catalog_order().len(),
        forall|i: int|
            0 <= i < r@.len() ==> (#[trigger] r@[i]).id == catalog_order()[i] && r@[i].detail@
                == detail_of(catalog_order()[i]) && r@[i].sends_text == sends_text_of(
                catalog_order()[i],
            ),
{
    let mut r: Vec<ProtocolCapabilities> = Vec::new();
    r.push(capabilities(ProtocolId::Telegram));
    r.push(capabilities(ProtocolId::Slack));
    r.push(capabilities(ProtocolId::WhatsApp));
    r.push(capabilities(ProtocolId::Discord));
    r.push(capabilities(ProtocolId::Signal));
    r
}

/// What an adapter reports of itself.
#[derive(Debug, Clone, Copy, PartialEq, Eq, Structural)]
pub enum AdapterStatus {
    Stubbed,
    Connecting,
    Ready,
    Error,
    Refused,
}

/// The link state of one account.
#[derive(Debug, Clone, Copy, PartialEq, Eq, Structural)]
pub enum AccountState {
    Unlinked,
    Linking,
    Linked,
}

/// How far an outgoing message came.
#[derive(Debug, Clone, Copy, PartialEq, Eq, Structural)]
pub enum Delivery {
    Pending,
    Sent,
    Failed,
}

/// Whether a message came just now or with a history page.
#[derive(Debug, Clone, Copy, PartialEq, Eq, Structural)]
pub enum Arrival {
    Live,
    History,
}

/// One chat row of the inbox.
#[derive(Debug, PartialEq, Eq)]
pub struct Conversation {
    pub protocol: ProtocolId,
    pub id: String,
    pub title: String,
    pub participant: String,
    pub preview: String,
    pub unread: u32,
    /// Rows with a higher order stand first.
    pub order: i64,
    /// Unix seconds of the last message.
    pub last_at: i64,
    pub is_group: bool,
    pub writable: bool,
    pub muted: bool,
    /// A row that stands in for chats that are not there yet.
    pub placeholder: bool,
}

/// A chat row with its texts as character sequences.
#[verifier::ext_equal]
pub struct ConversationModel {
    pub protocol: ProtocolId,
    pub id: Text,
    pub title: Text,
    pub participant: Text,
    pub preview: Text,
    pub unread: u32,
    pub order: i64,
    pub last_at: i64,
    pub is_group: bool,
    pub writable: bool,
    pub muted: bool,
    pub placeholder: bool,
}

impl Clone for Conversation {
    fn clone(&self) -> (r: Self)
        ensures
            r == *self,
    {
        Conversation {
            protocol: self.protocol,
            id: self.id.clone(),
            title: self.title.clone(),
            participant: self.participant.clone(),
            preview: self.preview.clone(),
            unread: self.unread,
            order: self.order,
            last_at: self.last_at,
            is_group: self.is_group,
            writable: self.writable,
            muted: self.muted,
            placeholder: self.placeholder,
        }
    }
}

impl DeepView for Conversation {
    type V = ConversationModel;

    open spec fn deep_view(&self) -> ConversationModel {
        ConversationModel {
            protocol: self.protocol,
            id: self.id@,
            title: self.title@,
            participant: self.participant@,
            preview: self.preview@,
            unread: self.unread,
            order: self.order,
            last_at: self.last_at,
            is_group: self.is_group,
            writable: self.writable,
            muted: self.muted,
            placeholder: self.placeholder,
        }
    }
}

/// One message of a chat.
#[derive(Debug, PartialEq, Eq)]
pub struct ChatMessage {
    pub protocol: ProtocolId,
    pub conversation_id: String,
    pub id: String,
    pub sender: String,
    pub body: String,
    pub outbound: bool,
    pub delivery: Delivery,
    /// Unix seconds. Zero when the adapter does not know it.
    pub sent_at: i64,
    pub arrival: Arrival,
}

/// A message with its texts as character sequences.
#[verifier::ext_equal]
pub struct MessageModel {
    pub protocol: ProtocolId,
    pub conversation_id: Text,
    pub id: Text,
    pub sender: Text,
    pub body: Text,
    pub outbound: bool,
    pub delivery: Delivery,
    pub sent_at: i64,
    pub arrival: Arrival,
}

impl Clone for ChatMessage {
    fn clone(&self) -> (r: Self)
        ensures
            r == *self,
    {
        ChatMessage {
            protocol: self.protocol,
            conversation_id: self.conversation_id.clone(),
            id: self.id.clone(),
            sender: self.sender.clone(),
            body: self.body.clone(),
            outbound: self.outbound,
            delivery: self.delivery,
            sent_at: self.sent_at,
            arrival: self.arrival,
        }
    }
}

impl DeepView for ChatMessage {
    type V = MessageModel;

    open spec fn deep_view(&self) -> MessageModel {
        MessageModel {
            protocol: self.protocol,
            conversation_id: self.conversation_id@,
            id: self.id@,
            sender: self.sender@,
            body: self.body@,
            outbound: self.outbound,
            delivery: self.delivery,
            sent_at: self.sent_at,
            arrival: self.arrival,
        }
    }
}

/// A step of the Telegram login that the shell submits.
#[derive(Debug, Clone, Copy, PartialEq, Eq, Structural)]
pub enum TelegramAuthStep {
    ApiCredentials,
    Phone,
    Code,
    TwoFactor,
    ResendCode,
    Complete,
}

/// Where the Telegram login stands.
#[derive(Debug, Clone, Copy, PartialEq, Eq, Structural)]
pub enum TelegramAuthPhase {
    NeedPhone,
    NeedCode,
    NeedTwoFactor,
    Ready,
    Unavailable,
    Failed,
}

/// Why Telegram refused a login step. Never holds what the user typed.
#[derive(Debug, Clone, Copy, PartialEq, Eq, Structural)]
pub enum TelegramAuthError {
    PhoneInvalid,
    CodeInvalid,
    CodeExpired,
    PasswordInvalid,
    FloodWait { seconds: u32 },
    ClientSetup { code: i32 },
    Other { code: i32 },
}

/// Where Telegram sent a login code.
#[derive(Debug, Clone, Copy, PartialEq, Eq, Structural)]
pub enum TelegramCodeVia {
    App,
    Sms,
    Call,
}

/// A pairing code that its owner must ask for by name.
pub struct RedactedPairingSecret {
    code: String,
}

impl RedactedPairingSecret {
    pub closed spec fn revealed(self) -> Text {
        self.code@
    }

    pub fn new(code: &str) -> (r: Self)
        ensures
            r.revealed() == code@,
    {
        RedactedPairingSecret { code: code.to_owned() }
    }

    /// The code itself, for the pairing screen.
    pub fn expose(&self) -> (r: &str)
        ensures
            r@ == self.revealed(),
    {
        self.code.as_str()
    }
}

/// The phone number of a WhatsApp pairing. It stays in memory.
pub struct WhatsAppPhoneVault {
    phone: Option<String>,
}

impl WhatsAppPhoneVault {
    pub closed spec fn held(self) -> Option<Text> {
        self.phone.deep_view()
    }

    pub fn new() -> (r: Self)
        ensures
            r.held() == None::<Text>,
    {
        WhatsAppPhoneVault { phone: None }
    }

    /// Keep a phone number. Blank text keeps none.
    pub fn set_phone(&mut self, phone: &str)
        ensures
            final(self).held() == (if crate::text::trim(phone@).len() == 0 {
                None
            } else {
                Some(crate::text::trim(phone@))
            }),
    {
        let kept = crate::text::trimmed(phone);
        if kept.is_empty() {
            self.phone = None;
        } else {
            self.phone = Some(kept.to_owned());
        }
    }

    /// The phone number in memory, if there is one.
    pub fn phone(&self) -> (r: Option<&str>)
        ensures
            r.deep_view() == self.held(),
    {
        match &self.phone {
            Some(phone) => Some(phone.as_str()),
            None => None,
        }
    }

    pub fn clear(&mut self)
        ensures
            final(self).held() == None::<Text>,
    {
        self.phone = None;
    }
}

/// The Telegram API credentials that the publisher built in, if any.
#[derive(Debug, Clone)]
pub struct TelegramApiSource {
    publisher: Option<(String, String)>,
}

/// Built-in credentials without white space at their ends. A blank half means
/// that there are none.
pub open spec fn publisher_pair(api_id: Text, api_hash: Text) -> Option<(Text, Text)> {
    let id = crate::text::trim(api_id);
    let hash = crate::text::trim(api_hash);
    if id.len() == 0 || hash.len() == 0 {
        None
    } else {
        Some((id, hash))
    }
}

impl TelegramApiSource {
    /// The publisher's api id and api hash.
    pub closed spec fn pair(self) -> Option<(Text, Text)> {
        self.publisher.deep_view()
    }

    /// No built-in credentials.
    pub fn empty() -> (r: Self)
        ensures
            r.pair() == None::<(Text, Text)>,
    {
        TelegramApiSource { publisher: None }
    }

    /// Built-in credentials. A blank half means that there are none.
    pub fn with_publisher(api_id: &str, api_hash: &str) -> (r: Self)
        ensures
            r.pair() == publisher_pair(api_id@, api_hash@),
    {
        let id = crate::text::trimmed(api_id);
        let hash = crate::text::trimmed(api_hash);
        if id.is_empty() || hash.is_empty() {
            TelegramApiSource { publisher: None }
        } else {
            TelegramApiSource { publisher: Some((id.to_owned(), hash.to_owned())) }
        }
    }

    /// True when the publisher built credentials in.
    pub fn has_publisher(&self) -> (r: bool)
        ensures
            r == self.pair().is_some(),
    {
        self.publisher.is_some()
    }
}

/// A command for an adapter.
#[derive(Debug, Clone, PartialEq, Eq)]
pub enum AdapterCommand {
    Connect { protocol: ProtocolId },
    Disconnect { protocol: ProtocolId },
    LoadChats { protocol: ProtocolId },
    OpenChat { protocol: ProtocolId, conversation_id: String },
    /// The chat that the user looks at now, or none.
    ViewChat { protocol: ProtocolId, conversation_id: Option<String> },
    LoadOlderMessages {
        protocol: ProtocolId,
        conversation_id: String,
        before_message_id: String,
    },
    SendText { protocol: ProtocolId, conversation_id: String, body: String, request: u64 },
    ResendMessage {
        protocol: ProtocolId,
        conversation_id: String,
        message_id: String,
        request: u64,
    },
    TelegramAuth { step: TelegramAuthStep, epoch: u64 },
    Shutdown { protocol: ProtocolId },
    WhatsAppAcknowledgeRisk,
    WhatsAppBeginLink { generation: u64 },
    WhatsAppCancelLink,
    SignalAcknowledgeNotice,
    SignalBeginLink { generation: u64 },
    SignalCancelLink,
}

/// A command with its texts as character sequences.
#[verifier::ext_equal]
pub enum CommandModel {
    Connect { protocol: ProtocolId },
    Disconnect { protocol: ProtocolId },
    LoadChats { protocol: ProtocolId },
    OpenChat { protocol: ProtocolId, conversation_id: Text },
    ViewChat { protocol: ProtocolId, conversation_id: Option<Text> },
    LoadOlderMessages { protocol: ProtocolId, conversation_id: Text, before_message_id: Text },
    SendText { protocol: ProtocolId, conversation_id: Text, body: Text, request: u64 },
    ResendMessage { protocol: ProtocolId, conversation_id: Text, message_id: Text, request: u64 },
    TelegramAuth { step: TelegramAuthStep, epoch: u64 },
    Shutdown { protocol: ProtocolId },
    WhatsAppAcknowledgeRisk,
    WhatsAppBeginLink { generation: u64 },
    WhatsAppCancelLink,
    SignalAcknowledgeNotice,
    SignalBeginLink { generation: u64 },
    SignalCancelLink,
}

impl DeepView for AdapterCommand {
    type V = CommandModel;

    open spec fn deep_view(&self) -> CommandModel {
        match *self {
            AdapterCommand::Connect { protocol } => CommandModel::Connect { protocol },
            AdapterCommand::Disconnect { protocol } => CommandModel::Disconnect { protocol },
            AdapterCommand::LoadChats { protocol } => CommandModel::LoadChats { protocol },
            AdapterCommand::OpenChat { protocol, conversation_id } => CommandModel::OpenChat {
                protocol,
                conversation_id: conversation_id@,
            },
            AdapterCommand::ViewChat { protocol, conversation_id } => CommandModel::ViewChat {
                protocol,
                conversation_id: conversation_id.deep_view(),
            },
            AdapterCommand::LoadOlderMessages { protocol, conversation_id, before_message_id } =>
                CommandModel::LoadOlderMessages {
                protocol,
                conversation_id: conversation_id@,
                before_message_id: before_message_id@,
            },
            AdapterCommand::SendText { protocol, conversation_id, body, request } =>
                CommandModel::SendText {
                protocol,
                conversation_id: conversation_id@,
                body: body@,
                request,
            },
            AdapterCommand::ResendMessage { protocol, conversation_id, message_id, request } =>
                CommandModel::ResendMessage {
                protocol,
                conversation_id: conversation_id@,
                message_id: message_id@,
                request,
            },
            AdapterCommand::TelegramAuth { step, epoch } => CommandModel::TelegramAuth {
                step,
                epoch,
            },
            AdapterCommand::Shutdown { protocol } => CommandModel::Shutdown { protocol },
            AdapterCommand::WhatsAppAcknowledgeRisk => CommandModel::WhatsAppAcknowledgeRisk,
            AdapterCommand::WhatsAppBeginLink { generation } => CommandModel::WhatsAppBeginLink {
                generation,
            },
            AdapterCommand::WhatsAppCancelLink => CommandModel::WhatsAppCancelLink,
            AdapterCommand::SignalAcknowledgeNotice => CommandModel::SignalAcknowledgeNotice,
            AdapterCommand::SignalBeginLink { generation } => CommandModel::SignalBeginLink {
                generation,
            },
            AdapterCommand::SignalCancelLink => CommandModel::SignalCancelLink,
        }
    }
}

impl CommandModel {
    /// The protocol whose adapter runs the command.
    pub open spec fn target(self) -> ProtocolId {
        match self {
            CommandModel::Connect { protocol } => protocol,
            CommandModel::Disconnect { protocol } => protocol,
            CommandModel::LoadChats { protocol } => protocol,
            CommandModel::OpenChat { protocol, .. } => protocol,
            CommandModel::ViewChat { protocol, .. } => protocol,
            CommandModel::LoadOlderMessages { protocol, .. } => protocol,
            CommandModel::SendText { protocol, .. } => protocol,
            CommandModel::ResendMessage { protocol, .. } => protocol,
            CommandModel::Shutdown { protocol } => protocol,
            CommandModel::TelegramAuth { .. } => ProtocolId::Telegram,
            CommandModel::WhatsAppAcknowledgeRisk
            | CommandModel::WhatsAppBeginLink { .. }
            | CommandModel::WhatsAppCancelLink => ProtocolId::WhatsApp,
            CommandModel::SignalAcknowledgeNotice
            | CommandModel::SignalBeginLink { .. }
            | CommandModel::SignalCancelLink => ProtocolId::Signal,
        }
    }
}

impl AdapterCommand {
    /// The protocol whose adapter runs the command.
    pub fn target(&self) -> (r: ProtocolId)
        ensures
            r == self.deep_view().target(),
    {
        match self {
            AdapterCommand::Connect { protocol } => *protocol,
            AdapterCommand::Disconnect { protocol } => *protocol,
            AdapterCommand::LoadChats { protocol } => *protocol,
            AdapterCommand::OpenChat { protocol, .. } => *protocol,
            AdapterCommand::ViewChat { protocol, .. } => *protocol,
            AdapterCommand::LoadOlderMessages { protocol, .. } => *protocol,
            AdapterCommand::SendText { protocol, .. } => *protocol,
            AdapterCommand::ResendMessage { protocol, .. } => *protocol,
            AdapterCommand::Shutdown { protocol } => *protocol,
            AdapterCommand::TelegramAuth { .. } => ProtocolId::Telegram,
            AdapterCommand::WhatsAppAcknowledgeRisk => ProtocolId::WhatsApp,
            AdapterCommand::WhatsAppBeginLink { .. } => ProtocolId::WhatsApp,
            AdapterCommand::WhatsAppCancelLink => ProtocolId::WhatsApp,
            AdapterCommand::SignalAcknowledgeNotice => ProtocolId::Signal,
            AdapterCommand::SignalBeginLink { .. } => ProtocolId::Signal,
            AdapterCommand::SignalCancelLink => ProtocolId::Signal,
        }
    }
}

/// An event from an adapter.
pub enum AdapterEvent {
    Status { protocol: ProtocolId, status: AdapterStatus, detail: String },
    Account { protocol: ProtocolId, state: AccountState },
    ConversationUpsert { conversation: Conversation },
    ConversationRemoved { protocol: ProtocolId, id: String },
    MessageReceived { message: ChatMessage },
    /// A message got its final id: `old_id` goes, `message` comes.
    MessageReplaced {
        protocol: ProtocolId,
        conversation_id: String,
        old_id: String,
        message: ChatMessage,
    },
    MessageBody {
        protocol: ProtocolId,
        conversation_id: String,
        message_id: String,
        body: String,
    },
    MessagesRemoved { protocol: ProtocolId, conversation_id: String, message_ids: Vec<String> },
    MessageDelivery {
        protocol: ProtocolId,
        conversation_id: String,
        message_id: String,
        delivery: Delivery,
    },
    SendAccepted { protocol: ProtocolId, conversation_id: String, request: u64 },
    SendRejected { protocol: ProtocolId, conversation_id: String, request: u64 },
    ChatListLoaded { protocol: ProtocolId },
    HistoryLoaded { protocol: ProtocolId, conversation_id: String },
    OlderHistoryLoaded {
        protocol: ProtocolId,
        conversation_id: String,
        before_message_id: String,
        more: bool,
        note: Option<String>,
    },
    CommandFailed { protocol: ProtocolId, conversation_id: Option<String>, detail: String },
    Notice { protocol: ProtocolId, text: String },
    Stopped { protocol: ProtocolId },
    FlushSecrets,
    TelegramAuth { phase: TelegramAuthPhase },
    TelegramAuthRejected { error: TelegramAuthError },
    TelegramCodeSent { via: TelegramCodeVia },
    TelegramDataReset { moved_to: String },
    TelegramSessionEnded,
    /// A login event of the client that runs under `epoch`.
    Login { epoch: u64, event: Box<AdapterEvent> },
    WhatsAppQr { code: RedactedPairingSecret, generation: u64 },
    WhatsAppPairCode { code: RedactedPairingSecret, generation: u64 },
    SignalQr { code: RedactedPairingSecret, generation: u64 },
}

impl AdapterEvent {
    /// What a log may show of this event: its kind, never what it holds.
    pub open spec fn kind(self) -> Text {
        match self {
            AdapterEvent::Status { .. } => "Status"@,
            AdapterEvent::Account { .. } => "Account"@,
            AdapterEvent::ConversationUpsert { .. } => "ConversationUpsert"@,
            AdapterEvent::ConversationRemoved { .. } => "ConversationRemoved"@,
            AdapterEvent::MessageReceived { .. } => "MessageReceived"@,
            AdapterEvent::MessageReplaced { .. } => "MessageReplaced"@,
            AdapterEvent::MessageBody { .. } => "MessageBody"@,
            AdapterEvent::MessagesRemoved { .. } => "MessagesRemoved"@,
            AdapterEvent::MessageDelivery { .. } => "MessageDelivery"@,
            AdapterEvent::SendAccepted { .. } => "SendAccepted"@,
            AdapterEvent::SendRejected { .. } => "SendRejected"@,
            AdapterEvent::ChatListLoaded { .. } => "ChatListLoaded"@,
            AdapterEvent::HistoryLoaded { .. } => "HistoryLoaded"@,
            AdapterEvent::OlderHistoryLoaded { .. } => "OlderHistoryLoaded"@,
            AdapterEvent::CommandFailed { .. } => "CommandFailed"@,
            AdapterEvent::Notice { .. } => "Notice"@,
            AdapterEvent::Stopped { .. } => "Stopped"@,
            AdapterEvent::FlushSecrets => "FlushSecrets"@,
            AdapterEvent::TelegramAuth { .. } => "TelegramAuth"@,
            AdapterEvent::TelegramAuthRejected { .. } => "TelegramAuthRejected"@,
            AdapterEvent::TelegramCodeSent { .. } => "TelegramCodeSent"@,
            AdapterEvent::TelegramDataReset { .. } => "TelegramDataReset"@,
            AdapterEvent::TelegramSessionEnded => "TelegramSessionEnded"@,
            AdapterEvent::Login { .. } => "Login"@,
            AdapterEvent::WhatsAppQr { .. } => "WhatsAppQr"@,
            AdapterEvent::WhatsAppPairCode { .. } => "WhatsAppPairCode"@,
            AdapterEvent::SignalQr { .. } => "SignalQr"@,
        }
    }

    /// What a log may show of this event: its kind, never what it holds.
    pub fn debug_text(&self) -> (r: &'static str)
        ensures
            r@ == self.kind(),
    {
        match self {
            AdapterEvent::Status { .. } => "Status",
            AdapterEvent::Account { .. } => "Account",
            AdapterEvent::ConversationUpsert { .. } => "ConversationUpsert",
            AdapterEvent::ConversationRemoved { .. } => "ConversationRemoved",
            AdapterEvent::MessageReceived { .. } => "MessageReceived",
            AdapterEvent::MessageReplaced { .. } => "MessageReplaced",
            AdapterEvent::MessageBody { .. } => "MessageBody",
            AdapterEvent::MessagesRemoved { .. } => "MessagesRemoved",
            AdapterEvent::MessageDelivery { .. } => "MessageDelivery",
            AdapterEvent::SendAccepted { .. } => "SendAccepted",
            AdapterEvent::SendRejected { .. } => "SendRejected",
            AdapterEvent::ChatListLoaded { .. } => "ChatListLoaded",
            AdapterEvent::HistoryLoaded { .. } => "HistoryLoaded",
            AdapterEvent::OlderHistoryLoaded { .. } => "OlderHistoryLoaded",
            AdapterEvent::CommandFailed { .. } => "CommandFailed",
            AdapterEvent::Notice { .. } => "Notice",
            AdapterEvent::Stopped { .. } => "Stopped",
            AdapterEvent::FlushSecrets => "FlushSecrets",
            AdapterEvent::TelegramAuth { .. } => "TelegramAuth",
            AdapterEvent::TelegramAuthRejected { .. } => "TelegramAuthRejected",
            AdapterEvent::TelegramCodeSent { .. } => "TelegramCodeSent",
            AdapterEvent::TelegramDataReset { .. } => "TelegramDataReset",
            AdapterEvent::TelegramSessionEnded => "TelegramSessionEnded",
            AdapterEvent::Login { .. } => "Login",
            AdapterEvent::WhatsAppQr { .. } => "WhatsAppQr",
            AdapterEvent::WhatsAppPairCode { .. } => "WhatsAppPairCode",
            AdapterEvent::SignalQr { .. } => "SignalQr",
        }
    }

    /// The protocol of an inbox event: one about its chats, its messages, or
    /// an answer to a send. Such an event needs a session.
    pub open spec fn inbox_of(self) -> Option<ProtocolId> {
        match self {
            AdapterEvent::ConversationUpsert { conversation } => Some(conversation.protocol),
            AdapterEvent::MessageReceived { message } => Some(message.protocol),
            AdapterEvent::ConversationRemoved { protocol, .. }
            | AdapterEvent::MessageReplaced { protocol, .. }
            | AdapterEvent::MessageBody { protocol, .. }
            | AdapterEvent::MessagesRemoved { protocol, .. }
            | AdapterEvent::MessageDelivery { protocol, .. }
            | AdapterEvent::SendAccepted { protocol, .. }
            | AdapterEvent::SendRejected { protocol, .. }
            | AdapterEvent::ChatListLoaded { protocol }
            | AdapterEvent::HistoryLoaded { protocol, .. }
            | AdapterEvent::OlderHistoryLoaded { protocol, .. } => Some(protocol),
            _ => None,
        }
    }

    /// The protocol of an inbox event, or `None` for any other event.
    pub fn inbox_protocol(&self) -> (r: Option<ProtocolId>)
        ensures
            r == self.inbox_of(),
    {
        match self {
            AdapterEvent::ConversationUpsert { conversation } => Some(conversation.protocol),
            AdapterEvent::MessageReceived { message } => Some(message.protocol),
            AdapterEvent::ConversationRemoved { protocol, .. } => Some(*protocol),
            AdapterEvent::MessageReplaced { protocol, .. } => Some(*protocol),
            AdapterEvent::MessageBody { protocol, .. } => Some(*protocol),
            AdapterEvent::MessagesRemoved { protocol, .. } => Some(*protocol),
            AdapterEvent::MessageDelivery { protocol, .. } => Some(*protocol),
            AdapterEvent::SendAccepted { protocol, .. } => Some(*protocol),
            AdapterEvent::SendRejected { protocol, .. } => Some(*protocol),
            AdapterEvent::ChatListLoaded { protocol } => Some(*protocol),
            AdapterEvent::HistoryLoaded { protocol, .. } => Some(*protocol),
            AdapterEvent::OlderHistoryLoaded { protocol, .. } => Some(*protocol),
            _ => None,
        }
    }
}

/// Every protocol stands in the catalog once.
pub proof fn law_catalog_names_every_protocol(protocol: ProtocolId)
    ensures
        catalog_order().len() == 5,
        exists|i: int| 0 <= i < catalog_order().len() && #[trigger] catalog_order()[i] == protocol,
        forall|i: int, j: int|
            0 <= i < j < catalog_order().len() ==> #[trigger] catalog_order()[i]
                != #[trigger] catalog_order()[j],
        catalog_order()[0] == ProtocolId::Telegram,
        !sends_text_of(protocol) <==> protocol == ProtocolId::Discord,
{
    let order = catalog_order();
    assert(order[0] == ProtocolId::Telegram && order[1] == ProtocolId::Slack && order[2]
        == ProtocolId::WhatsApp && order[3] == ProtocolId::Discord && order[4]
        == ProtocolId::Signal);
}

/// Two protocols never show under one name, nor under one catalog line.
pub proof fn law_protocol_names_differ(a: ProtocolId, b: ProtocolId)
    requires
        a != b,
    ensures
        name_of(a) != name_of(b),
        detail_of(a) != detail_of(b),
{
    reveal_strlit("Telegram");
    reveal_strlit("Slack");
    reveal_strlit("WhatsApp");
    reveal_strlit("Discord");
    reveal_strlit("Signal");
    reveal_strlit("Official TDLib client.");
    reveal_strlit("Official workspace app.");
    reveal_strlit("Experimental linked device.");
    reveal_strlit("Bot inbox.");
    reveal_strlit("Local-only linked device.");
    assert(name_of(a)[0] != name_of(b)[0] || name_of(a).len() != name_of(b).len());
    assert(detail_of(a).len() != detail_of(b).len());
}

/// Built-in credentials exist when both halves hold text, and are that text
/// without the white space at its ends.
pub proof fn law_built_in_credentials_are_whole(api_id: Text, api_hash: Text)
    ensures
        publisher_pair(api_id, api_hash).is_some() ==> {
            let pair = publisher_pair(api_id, api_hash).unwrap();
            &&& exists|lead: int| #[trigger] crate::text::middle_of(api_id, pair.0, lead)
            &&& exists|lead: int| #[trigger] crate::text::middle_of(api_hash, pair.1, lead)
        },
        (exists|i: int, j: int|
            0 <= i < api_id.len() && 0 <= j < api_hash.len() && !crate::text::is_space(
                #[trigger] api_id[i],
            ) && !crate::text::is_space(#[trigger] api_hash[j])) ==> publisher_pair(
            api_id,
            api_hash,
        ).is_some(),
        publisher_pair(Seq::empty(), api_hash).is_none(),
        publisher_pair(api_id, Seq::empty()).is_none(),
{
    crate::text::law_trim_drops_only_the_ends(api_id);
    crate::text::law_trim_drops_only_the_ends(api_hash);
    if let Some(pair) = publisher_pair(api_id, api_hash) {
        let id = crate::text::trim(api_id);
        let hash = crate::text::trim(api_hash);
        let first = choose|lead: int| #[trigger] crate::text::middle_of(api_id, id, lead);
        let second = choose|lead: int| #[trigger] crate::text::middle_of(api_hash, hash, lead);
        assert(crate::text::middle_of(api_id, pair.0, first));
        assert(crate::text::middle_of(api_hash, pair.1, second));
    }
}

/// A command that names a protocol runs in the adapter of that protocol. Login
/// steps run in the one of Telegram, and pairing steps in the one they pair.
pub proof fn law_command_runs_where_it_names(
    protocol: ProtocolId,
    chat: Text,
    other: Option<Text>,
    text: Text,
    step: TelegramAuthStep,
    number: u64,
)
    ensures
        (CommandModel::Connect { protocol }).target() == protocol,
        (CommandModel::Disconnect { protocol }).target() == protocol,
        (CommandModel::LoadChats { protocol }).target() == protocol,
        (CommandModel::OpenChat { protocol, conversation_id: chat }).target() == protocol,
        (CommandModel::ViewChat { protocol, conversation_id: other }).target() == protocol,
        (CommandModel::LoadOlderMessages {
            protocol,
            conversation_id: chat,
            before_message_id: text,
        }).target() == protocol,
        (CommandModel::SendText { protocol, conversation_id: chat, body: text, request: number })
            .target() == protocol,
        (CommandModel::ResendMessage {
            protocol,
            conversation_id: chat,
            message_id: text,
            request: number,
        }).target() == protocol,
        (CommandModel::Shutdown { protocol }).target() == protocol,
        (CommandModel::TelegramAuth { step, epoch: number }).target() == ProtocolId::Telegram,
        CommandModel::WhatsAppAcknowledgeRisk.target() == ProtocolId::WhatsApp,
        (CommandModel::WhatsAppBeginLink { generation: number }).target() == ProtocolId::WhatsApp,
        CommandModel::WhatsAppCancelLink.target() == ProtocolId::WhatsApp,
        CommandModel::SignalAcknowledgeNotice.target() == ProtocolId::Signal,
        (CommandModel::SignalBeginLink { generation: number }).target() == ProtocolId::Signal,
        CommandModel::SignalCancelLink.target() == ProtocolId::Signal,
{
}

/// What a log shows of two messages is the same, whatever they hold.
pub proof fn law_log_shows_the_kind_only(a: ChatMessage, b: ChatMessage, c: Conversation)
    ensures
        (AdapterEvent::MessageReceived { message: a }).kind() == (AdapterEvent::MessageReceived {
            message: b,
        }).kind(),
        (AdapterEvent::MessageReceived { message: a }).kind() == "MessageReceived"@,
        (AdapterEvent::ConversationUpsert { conversation: c }).kind() == "ConversationUpsert"@,
{
}

} // verus!
