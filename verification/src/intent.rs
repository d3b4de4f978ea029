//! What a frontend asks the core to do.
//!
//! A frontend sends intents, never adapter commands. The core checks each
//! intent against its state, then queues commands for the worker. Each
//! protocol has its own enum. Typed text travels as [`SecretText`].

use crate::protocol::{ProtocolId, Text, name_of};
use crate::secret_text::SecretText;
use crate::state::{AuthKey, InboxFilter};
use crate::text::{quoted, quoted_text, signed_decimal, signed_decimal_text};
use crate::theme::ThemeMode;
use vstd::prelude::*;
use vstd::string::*;

verus! {

/// One user action. A frontend maps clicks and keys to these values.
#[non_exhaustive]
pub enum Intent {
    /// Show the accounts and chats of one protocol.
    SelectProtocol(ProtocolId),
    /// Open a chat of the selected protocol and load its recent messages.
    SelectConversation { id: String },
    /// Move the inbox selection by this many rows.
    MoveInbox { delta: i32 },
    /// Put the keyboard highlight on this row.
    FocusInbox { id: String },
    /// Limit the inbox to one protocol tab, or show All.
    SetFilter(InboxFilter),
    /// Inbox search text. It matches chat title and participant only.
    SetSearch(SecretText),
    /// Reload the chat lists of the visible protocols.
    Refresh,
    /// Close the error block.
    DismissError,
    /// Enter or Escape on the center screen.
    Key(AuthKey),
    /// Unsent text of one chat. It names the chat it was typed in, so a
    /// selection change in the same frame cannot move it to another chat.
    SetDraft { protocol: ProtocolId, conversation_id: String, text: SecretText },
    /// Send the draft of this chat. Dropped when the chat is no longer the
    /// selected one, so it never goes to another chat.
    SendDraft { protocol: ProtocolId, conversation_id: String },
    /// Send a failed outgoing message again.
    Retry { message_id: String },
    /// Load the messages before the oldest one of this chat. Dropped when the
    /// chat is no longer the selected one.
    LoadOlderMessages { protocol: ProtocolId, conversation_id: String },
    /// Read the OS keychain again after a failed read.
    RetryKeychain,
    /// Store the light or dark preference.
    SetTheme(ThemeMode),
    /// Close every client cleanly.
    Shutdown,
    /// Telegram login and account actions.
    Telegram(TelegramIntent),
    /// WhatsApp pairing. Only a build with the WhatsApp part acts on it.
    WhatsApp(WhatsAppIntent),
    /// Discord bot inbox.
    Discord(DiscordIntent),
    /// Slack workspace app.
    Slack(SlackIntent),
}

/// A Telegram login form field.
#[derive(Debug, Clone, Copy, PartialEq, Eq, Hash, Structural)]
pub enum AuthField {
    ApiId,
    ApiHash,
    Phone,
    Code,
    Password,
}

/// Telegram account actions. Field values go to the memory vault only.
#[non_exhaustive]
pub enum TelegramIntent {
    /// Start Add account.
    AddAccount,
    /// Open the API credential override.
    OpenApiOverride,
    /// New text in one login field.
    SetField(AuthField, SecretText),
    /// Submit the current login step.
    Submit,
    /// Leave the login flow and clear every typed field.
    Cancel,
    /// Go back from the code step to the phone step.
    ChangeNumber,
    /// Ask Telegram for a new login code.
    ResendCode,
}

/// WhatsApp actions. The risk gate comes before any pairing: the core drops
/// `AcknowledgeRisk` while no gate is on screen, and `BeginLink` before that.
#[non_exhaustive]
pub enum WhatsAppIntent {
    /// Show the full-screen ban risk gate.
    OpenRiskGate,
    /// Leave the risk gate or the pair screen.
    CloseGate,
    /// The user accepted the risk gate.
    AcknowledgeRisk,
    /// New text in the optional phone field of the pair screen.
    SetPhone(SecretText),
    /// Start linked-device pairing.
    BeginLink,
    /// Stop pairing and drop the risk acknowledgement.
    CancelLink,
}

/// Discord bot inbox actions.
#[derive(Debug, Clone, Copy, PartialEq, Eq, Structural)]
#[non_exhaustive]
pub enum DiscordIntent {
    /// Arm the bot client with the token that is in the keychain.
    Connect,
}

/// Slack workspace app actions.
#[derive(Debug, Clone, Copy, PartialEq, Eq, Structural)]
#[non_exhaustive]
pub enum SlackIntent {
    /// Arm the workspace app with the tokens that are in the keychain.
    Connect,
}

/// The name of a login field in a log.
pub open spec fn field_name(field: AuthField) -> Text {
    match field {
        AuthField::ApiId => "ApiId"@,
        AuthField::ApiHash => "ApiHash"@,
        AuthField::Phone => "Phone"@,
        AuthField::Code => "Code"@,
        AuthField::Password => "Password"@,
    }
}

/// An action that names a chat, in a log.
pub open spec fn chat_action(name: Text, protocol: ProtocolId, id: Text, rest: Text) -> Text {
    name + " { protocol: "@ + name_of(protocol) + ", conversation_id: "@ + id + rest
}

impl TelegramIntent {
    /// What a log may show of this action: never a typed text.
    pub open spec fn shown(self) -> Text {
        match self {
            TelegramIntent::AddAccount => "Telegram(AddAccount)"@,
            TelegramIntent::OpenApiOverride => "Telegram(OpenApiOverride)"@,
            TelegramIntent::SetField(field, _) => "Telegram(SetField("@ + field_name(field)
                + ", SecretText(<redacted>)))"@,
            TelegramIntent::Submit => "Telegram(Submit)"@,
            TelegramIntent::Cancel => "Telegram(Cancel)"@,
            TelegramIntent::ChangeNumber => "Telegram(ChangeNumber)"@,
            TelegramIntent::ResendCode => "Telegram(ResendCode)"@,
        }
    }

    /// What a log may show of this action: never a typed text.
    pub fn debug_text(&self) -> (r: String)
        ensures
            r@ == self.shown(),
    {
        match self {
            TelegramIntent::AddAccount => "Telegram(AddAccount)".to_owned(),
            TelegramIntent::OpenApiOverride => "Telegram(OpenApiOverride)".to_owned(),
            TelegramIntent::SetField(field, _) => {
                let mut text = "Telegram(SetField(".to_owned();
                text.append(field.debug_name());
                text.append(", SecretText(<redacted>)))");
                text
            },
            TelegramIntent::Submit => "Telegram(Submit)".to_owned(),
            TelegramIntent::Cancel => "Telegram(Cancel)".to_owned(),
            TelegramIntent::ChangeNumber => "Telegram(ChangeNumber)".to_owned(),
            TelegramIntent::ResendCode => "Telegram(ResendCode)".to_owned(),
        }
    }
}

impl AuthField {
    fn debug_name(&self) -> (r: &'static str)
        ensures
            r@ == field_name(*self),
    {
        match self {
            AuthField::ApiId => "ApiId",
            AuthField::ApiHash => "ApiHash",
            AuthField::Phone => "Phone",
            AuthField::Code => "Code",
            AuthField::Password => "Password",
        }
    }
}

impl WhatsAppIntent {
    /// What a log may show of this action: never a typed text.
    pub open spec fn shown(self) -> Text {
        match self {
            WhatsAppIntent::OpenRiskGate => "WhatsApp(OpenRiskGate)"@,
            WhatsAppIntent::CloseGate => "WhatsApp(CloseGate)"@,
            WhatsAppIntent::AcknowledgeRisk => "WhatsApp(AcknowledgeRisk)"@,
            WhatsAppIntent::SetPhone(_) => "WhatsApp(SetPhone(SecretText(<redacted>)))"@,
            WhatsAppIntent::BeginLink => "WhatsApp(BeginLink)"@,
            WhatsAppIntent::CancelLink => "WhatsApp(CancelLink)"@,
        }
    }

    /// What a log may show of this action: never a typed text.
    pub fn debug_text(&self) -> (r: &'static str)
        ensures
            r@ == self.shown(),
    {
        match self {
            WhatsAppIntent::OpenRiskGate => "WhatsApp(OpenRiskGate)",
            WhatsAppIntent::CloseGate => "WhatsApp(CloseGate)",
            WhatsAppIntent::AcknowledgeRisk => "WhatsApp(AcknowledgeRisk)",
            WhatsAppIntent::SetPhone(_) => "WhatsApp(SetPhone(SecretText(<redacted>)))",
            WhatsAppIntent::BeginLink => "WhatsApp(BeginLink)",
            WhatsAppIntent::CancelLink => "WhatsApp(CancelLink)",
        }
    }
}

fn chat_text(name: &str, protocol: ProtocolId, id: &str, rest: &str) -> (r: String)
    ensures
        r@ == chat_action(name@, protocol, id@, rest@),
{
    let mut text = name.to_owned();
    text.append(" { protocol: ");
    text.append(protocol.display_name());
    text.append(", conversation_id: ");
    text.append(id);
    text.append(rest);
    text
}

/// The name of an inbox filter in a log.
pub open spec fn filter_name(filter: InboxFilter) -> Text {
    match filter {
        InboxFilter::All => "All"@,
        InboxFilter::Telegram => "Telegram"@,
        InboxFilter::Slack => "Slack"@,
    }
}

/// The name of a key in a log.
pub open spec fn key_name(key: AuthKey) -> Text {
    match key {
        AuthKey::Enter => "Enter"@,
        AuthKey::Escape => "Escape"@,
    }
}

/// The name of a theme in a log.
pub open spec fn theme_name(theme: ThemeMode) -> Text {
    match theme {
        ThemeMode::System => "System"@,
        ThemeMode::Light => "Light"@,
        ThemeMode::Dark => "Dark"@,
    }
}

/// `open`, then `inner`, then `close`.
fn enclosed(open: &str, inner: &str, close: &str) -> (r: String)
    ensures
        r@ == open@ + inner@ + close@,
{
    let mut text = open.to_owned();
    text.append(inner);
    text.append(close);
    text
}

impl Intent {
    /// The id of the chat or the message that this action names.
    pub open spec fn named(self) -> Text {
        match self {
            Intent::SelectConversation { id } => id@,
            Intent::FocusInbox { id } => id@,
            Intent::SetDraft { conversation_id, .. } => conversation_id@,
            Intent::SendDraft { conversation_id, .. } => conversation_id@,
            Intent::Retry { message_id } => message_id@,
            Intent::LoadOlderMessages { conversation_id, .. } => conversation_id@,
            _ => ""@,
        }
    }

    /// What a log may show of this action: its kind, what it chose, and `id` in
    /// the place of the id that it names. Never a typed text.
    pub open spec fn shown_with(self, id: Text) -> Text {
        match self {
            Intent::SelectProtocol(protocol) => "SelectProtocol("@ + name_of(protocol) + ")"@,
            Intent::SelectConversation { .. } => "SelectConversation { id: "@ + id + " }"@,
            Intent::MoveInbox { delta } => "MoveInbox { delta: "@ + signed_decimal(delta as int)
                + " }"@,
            Intent::FocusInbox { .. } => "FocusInbox { id: "@ + id + " }"@,
            Intent::SetFilter(filter) => "SetFilter("@ + filter_name(filter) + ")"@,
            Intent::SetSearch(_) => "SetSearch(SecretText(<redacted>))"@,
            Intent::Refresh => "Refresh"@,
            Intent::DismissError => "DismissError"@,
            Intent::Key(key) => "Key("@ + key_name(key) + ")"@,
            Intent::SetDraft { protocol, .. } => chat_action(
                "SetDraft"@,
                protocol,
                id,
                ", text: SecretText(<redacted>) }"@,
            ),
            Intent::SendDraft { protocol, .. } => chat_action("SendDraft"@, protocol, id, " }"@),
            Intent::Retry { .. } => "Retry { message_id: "@ + id + " }"@,
            Intent::LoadOlderMessages { protocol, .. } => chat_action(
                "LoadOlderMessages"@,
                protocol,
                id,
                " }"@,
            ),
            Intent::RetryKeychain => "RetryKeychain"@,
            Intent::SetTheme(theme) => "SetTheme("@ + theme_name(theme) + ")"@,
            Intent::Shutdown => "Shutdown"@,
            Intent::Telegram(action) => action.shown(),
            Intent::WhatsApp(action) => action.shown(),
            Intent::Discord(DiscordIntent::Connect) => "Discord(Connect)"@,
            Intent::Slack(SlackIntent::Connect) => "Slack(Connect)"@,
        }
    }

    /// What a log may show of this action, with the id that it names in quotes.
    pub open spec fn shown(self) -> Text {
        self.shown_with(quoted(self.named()))
    }

    /// The id of the chat or the message that this action names.
    pub fn named_id(&self) -> (r: &str)
        ensures
            r@ == self.named(),
    {
        match self {
            Intent::SelectConversation { id } => id.as_str(),
            Intent::FocusInbox { id } => id.as_str(),
            Intent::SetDraft { conversation_id, .. } => conversation_id.as_str(),
            Intent::SendDraft { conversation_id, .. } => conversation_id.as_str(),
            Intent::Retry { message_id } => message_id.as_str(),
            Intent::LoadOlderMessages { conversation_id, .. } => conversation_id.as_str(),
            _ => "",
        }
    }

    /// What a log may show of this action, with `id` in the place of the id
    /// that it names.
    pub fn debug_with(&self, id: &str) -> (r: String)
        ensures
            r@ == self.shown_with(id@),
    {
        match self {
            Intent::SelectProtocol(protocol) => enclosed(
                "SelectProtocol(",
                protocol.display_name(),
                ")",
            ),
            Intent::SelectConversation { .. } => enclosed("SelectConversation { id: ", id, " }"),
            Intent::MoveInbox { delta } => enclosed(
                "MoveInbox { delta: ",
                signed_decimal_text(*delta).as_str(),
                " }",
            ),
            Intent::FocusInbox { .. } => enclosed("FocusInbox { id: ", id, " }"),
            Intent::SetFilter(filter) => enclosed(
                "SetFilter(",
                match filter {
                    InboxFilter::All => "All",
                    InboxFilter::Telegram => "Telegram",
                    InboxFilter::Slack => "Slack",
                },
                ")",
            ),
            Intent::SetSearch(_) => "SetSearch(SecretText(<redacted>))".to_owned(),
            Intent::Refresh => "Refresh".to_owned(),
            Intent::DismissError => "DismissError".to_owned(),
            Intent::Key(key) => enclosed(
                "Key(",
                match key {
                    AuthKey::Enter => "Enter",
                    AuthKey::Escape => "Escape",
                },
                ")",
            ),
            Intent::SetDraft { protocol, .. } => chat_text(
                "SetDraft",
                *protocol,
                id,
                ", text: SecretText(<redacted>) }",
            ),
            Intent::SendDraft { protocol, .. } => chat_text("SendDraft", *protocol, id, " }"),
            Intent::Retry { .. } => enclosed("Retry { message_id: ", id, " }"),
            Intent::LoadOlderMessages { protocol, .. } => chat_text(
                "LoadOlderMessages",
                *protocol,
                id,
                " }",
            ),
            Intent::RetryKeychain => "RetryKeychain".to_owned(),
            Intent::SetTheme(theme) => enclosed(
                "SetTheme(",
                match theme {
                    ThemeMode::System => "System",
                    ThemeMode::Light => "Light",
                    ThemeMode::Dark => "Dark",
                },
                ")",
            ),
            Intent::Shutdown => "Shutdown".to_owned(),
            Intent::Telegram(action) => action.debug_text(),
            Intent::WhatsApp(action) => action.debug_text().to_owned(),
            Intent::Discord(DiscordIntent::Connect) => "Discord(Connect)".to_owned(),
            Intent::Slack(SlackIntent::Connect) => "Slack(Connect)".to_owned(),
        }
    }

    /// What a log may show of this action, with the id that it names in quotes.
    pub fn debug_text(&self) -> (r: String)
        ensures
            r@ == self.shown(),
    {
        self.debug_with(quoted_text(self.named_id()).as_str())
    }
}

/// A typed text never shows: two actions that differ only in the text that the
/// user typed look the same in a log.
pub proof fn law_typed_text_never_shows(
    a: SecretText,
    b: SecretText,
    field: AuthField,
    protocol: ProtocolId,
    conversation_id: String,
)
    ensures
        Intent::SetSearch(a).shown() == Intent::SetSearch(b).shown(),
        (Intent::SetDraft { protocol, conversation_id, text: a }).shown() == (Intent::SetDraft {
            protocol,
            conversation_id,
            text: b,
        }).shown(),
        Intent::Telegram(TelegramIntent::SetField(field, a)).shown() == Intent::Telegram(
            TelegramIntent::SetField(field, b),
        ).shown(),
        Intent::WhatsApp(WhatsAppIntent::SetPhone(a)).shown() == Intent::WhatsApp(
            WhatsAppIntent::SetPhone(b),
        ).shown(),
{
}

/// A log names the action, what it chose, and the quoted id that it names.
pub proof fn law_log_names_the_action(
    protocol: ProtocolId,
    id: String,
    delta: i32,
    text: SecretText,
)
    ensures
        Intent::SelectProtocol(protocol).shown() == "SelectProtocol("@ + name_of(protocol) + ")"@,
        (Intent::SelectConversation { id }).shown() == "SelectConversation { id: "@ + quoted(id@)
            + " }"@,
        (Intent::MoveInbox { delta }).shown() == "MoveInbox { delta: "@ + signed_decimal(
            delta as int,
        ) + " }"@,
        (Intent::FocusInbox { id }).shown() == "FocusInbox { id: "@ + quoted(id@) + " }"@,
        (Intent::SetDraft { protocol, conversation_id: id, text }).shown()
            == "SetDraft"@ + " { protocol: "@ + name_of(protocol) + ", conversation_id: "@ + quoted(
            id@,
        ) + ", text: SecretText(<redacted>) }"@,
        (Intent::SendDraft { protocol, conversation_id: id }).shown()
            == "SendDraft"@ + " { protocol: "@ + name_of(protocol) + ", conversation_id: "@
            + quoted(id@) + " }"@,
        (Intent::LoadOlderMessages { protocol, conversation_id: id }).shown()
            == "LoadOlderMessages"@ + " { protocol: "@ + name_of(protocol) + ", conversation_id: "@
            + quoted(id@) + " }"@,
        (Intent::Retry { message_id: id }).shown() == "Retry { message_id: "@ + quoted(id@)
            + " }"@,
        Intent::SetSearch(text).shown() == "SetSearch(SecretText(<redacted>))"@,
        Intent::WhatsApp(WhatsAppIntent::SetPhone(text)).shown()
            == "WhatsApp(SetPhone(SecretText(<redacted>)))"@,
{
}

} // verus!
