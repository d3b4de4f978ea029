//! Demo scenarios: fixed screens with invented data.
//!
//! A scenario names the scripts of its demo adapters and the intents that
//! bring a core to its screen. Names and texts are invented. No scenario
//! needs a network, an OS keychain, or a settings file, and its times are
//! fixed UTC times.

use crate::intent::{AuthField, Intent, TelegramIntent};
use crate::keyed::KeyMap;
use crate::protocol::{
    AccountState, AdapterCommand, AdapterEvent, AdapterStatus, Arrival, ChatId, ChatMessage,
    CommandModel, Conversation, ConversationModel, Delivery, MessageModel, ProtocolId,
    TelegramAuthError, TelegramAuthPhase, TelegramAuthStep, Text, catalog_order,
};
use crate::lists::{first_index, lemma_first_index, position};
use crate::secret_text::SecretText;
use crate::state::model::message_is;
use crate::text::{after_last, chars_of, decimal, decimal_text, same_text, tail_after};
use vstd::prelude::*;
use vstd::string::*;

verus! {

/// 2026-03-02 10:00 UTC: "now" in every scenario.
pub const NOW: i64 = 1_772_445_600;

pub const MINUTE: i64 = 60;

pub const HOUR: i64 = 3_600;

pub const DAY: i64 = 86_400;

/// Messages in the long chat.
pub const LONG_CHAT_MESSAGES: usize = 120;

/// Messages in the short long chat, whose start one older page reaches.
pub const SHORT_HISTORY_MESSAGES: usize = 40;

/// Messages in one history page of the demo adapters.
pub const PAGE: usize = 30;

pub const ADA: &'static str = "telegram:demo-ada";

pub const BOOK_CLUB: &'static str = "telegram:demo-book-club";

pub const MILO: &'static str = "telegram:demo-milo";

pub const NORA: &'static str = "telegram:demo-nora";

pub const SLACK_GENERAL: &'static str = "slack:demo-general";

pub const SLACK_DESIGN: &'static str = "slack:demo-design";

/// One fixed screen.
#[derive(Debug, Clone, Copy, PartialEq, Eq, Structural)]
pub enum Scenario {
    /// No account. The first-run screen.
    FirstRun,
    /// Telegram signed in, no chats yet.
    EmptyInbox,
    /// A chat with a long history, the newest page open.
    LongChat,
    /// The long chat while an older page loads.
    LongChatLoadingOlder,
    /// A chat whose first message is loaded.
    LongChatStartOfChat,
    /// A group chat with sender names and a day break.
    GroupChat,
    /// A send that failed: a failed row with Retry, and the error.
    FailedSend,
    /// A send with no answer yet: a pending row.
    PendingSend,
    /// Login: the phone step.
    LoginPhone,
    /// Login: the code step.
    LoginCode,
    /// Login: the password step.
    Login2fa,
    /// Login: a wrong code.
    LoginError,
    /// The keychain read failed: the Try again screen.
    KeychainTryAgain,
    /// An error line on the status strip.
    StatusError,
    /// A protocol note on the status strip.
    StatusNotice,
    /// Telegram and Slack at once.
    SeveralProtocols,
}

/// The name of a scenario.
pub open spec fn scenario_name(scenario: Scenario) -> Text {
    match scenario {
        Scenario::FirstRun => "first_run"@,
        Scenario::EmptyInbox => "empty_inbox"@,
        Scenario::LongChat => "long_chat"@,
        Scenario::LongChatLoadingOlder => "long_chat_loading_older"@,
        Scenario::LongChatStartOfChat => "long_chat_start_of_chat"@,
        Scenario::GroupChat => "group_chat"@,
        Scenario::FailedSend => "failed_send"@,
        Scenario::PendingSend => "pending_send"@,
        Scenario::LoginPhone => "login_phone"@,
        Scenario::LoginCode => "login_code"@,
        Scenario::Login2fa => "login_2fa"@,
        Scenario::LoginError => "login_error"@,
        Scenario::KeychainTryAgain => "keychain_try_again"@,
        Scenario::StatusError => "status_error"@,
        Scenario::StatusNotice => "status_notice"@,
        Scenario::SeveralProtocols => "several_protocols"@,
    }
}

/// No two scenarios share a name.
pub proof fn law_scenario_names_differ(a: Scenario, b: Scenario)
    requires
        scenario_name(a) == scenario_name(b),
    ensures
        a == b,
{
    reveal_strlit("first_run");
    reveal_strlit("empty_inbox");
    reveal_strlit("long_chat");
    reveal_strlit("long_chat_loading_older");
    reveal_strlit("long_chat_start_of_chat");
    reveal_strlit("group_chat");
    reveal_strlit("failed_send");
    reveal_strlit("pending_send");
    reveal_strlit("login_phone");
    reveal_strlit("login_code");
    reveal_strlit("login_2fa");
    reveal_strlit("login_error");
    reveal_strlit("keychain_try_again");
    reveal_strlit("status_error");
    reveal_strlit("status_notice");
    reveal_strlit("several_protocols");
    assert("first_run"@.len() == 9);
    assert("empty_inbox"@.len() == 11);
    assert("long_chat"@.len() == 9);
    assert("long_chat_loading_older"@.len() == 23);
    assert("long_chat_start_of_chat"@.len() == 23);
    assert("group_chat"@.len() == 10);
    assert("failed_send"@.len() == 11);
    assert("pending_send"@.len() == 12);
    assert("login_phone"@.len() == 11);
    assert("login_code"@.len() == 10);
    assert("login_2fa"@.len() == 9);
    assert("login_error"@.len() == 11);
    assert("keychain_try_again"@.len() == 18);
    assert("status_error"@.len() == 12);
    assert("status_notice"@.len() == 13);
    assert("several_protocols"@.len() == 17);
    assert("first_run"@[0] == 'f' && "login_2fa"@[0] == 'l' && "long_chat"@[0] == 'l');
    assert("login_2fa"@[8] == 'a' && "long_chat"@[8] == 't');
    assert("group_chat"@[0] == 'g' && "login_code"@[0] == 'l');
    assert("empty_inbox"@[0] == 'e' && "failed_send"@[0] == 'f');
    assert("login_phone"@[0] == 'l' && "login_error"@[0] == 'l');
    assert("login_phone"@[6] == 'p' && "login_error"@[6] == 'e');
    assert("pending_send"@[0] == 'p' && "status_error"@[0] == 's');
    assert("long_chat_loading_older"@[10] == 'l' && "long_chat_start_of_chat"@[10] == 's');
}

/// What a demo adapter does with a request for older messages.
#[derive(Debug, Clone, Copy, PartialEq, Eq, Structural)]
pub enum DemoOlder {
    /// Answer with the page before.
    Page,
    /// Never answer.
    Hold,
}

/// What a demo adapter does with a send.
#[derive(Debug, Clone, Copy, PartialEq, Eq, Structural)]
pub enum DemoSend {
    /// Accept it.
    Accept,
    /// Refuse it.
    Reject,
    /// Never answer.
    Hold,
}

/// What a demo adapter answers to a login step.
#[derive(Debug, Clone, Copy, PartialEq, Eq, Structural)]
pub enum DemoLogin {
    Phase(TelegramAuthPhase),
    Reject(TelegramAuthError),
}

/// What one demo adapter knows.
pub struct DemoScript {
    pub protocol: ProtocolId,
    /// Events at the start, in order.
    pub start: Vec<AdapterEvent>,
    /// The messages of each chat, oldest first.
    pub history: KeyMap<String, Vec<ChatMessage>>,
    /// Messages in one page.
    pub page: usize,
    pub older: DemoOlder,
    pub send: DemoSend,
    /// The answer to each login step.
    pub login: Vec<(TelegramAuthStep, DemoLogin)>,
}

/// An event of a demo adapter with its texts as character sequences.
#[verifier::ext_equal]
pub enum DemoEvent {
    Account { protocol: ProtocolId, state: AccountState },
    Row { row: ConversationModel },
    ListLoaded { protocol: ProtocolId },
    Phase { phase: TelegramAuthPhase },
    Status { protocol: ProtocolId, status: AdapterStatus, detail: Text },
    Notice { protocol: ProtocolId, text: Text },
    Message { row: MessageModel },
    HistoryLoaded { chat: ChatId },
    OlderLoaded { chat: ChatId, before: Text, more: bool, note: Option<Text> },
    Accepted { chat: ChatId, request: u64 },
    Rejected { chat: ChatId, request: u64 },
    Stopped { protocol: ProtocolId },
    LoginPhase { epoch: u64, phase: TelegramAuthPhase },
    LoginRejected { epoch: u64, error: TelegramAuthError },
    Other,
}

/// The demo event that an adapter event is.
pub open spec fn event_of(event: AdapterEvent) -> DemoEvent {
    match event {
        AdapterEvent::Account { protocol, state } => DemoEvent::Account { protocol, state },
        AdapterEvent::ConversationUpsert { conversation } => DemoEvent::Row {
            row: conversation.deep_view(),
        },
        AdapterEvent::ChatListLoaded { protocol } => DemoEvent::ListLoaded { protocol },
        AdapterEvent::TelegramAuth { phase } => DemoEvent::Phase { phase },
        AdapterEvent::Status { protocol, status, detail } => DemoEvent::Status {
            protocol,
            status,
            detail: detail@,
        },
        AdapterEvent::Notice { protocol, text } => DemoEvent::Notice { protocol, text: text@ },
        AdapterEvent::MessageReceived { message } => DemoEvent::Message {
            row: message.deep_view(),
        },
        AdapterEvent::HistoryLoaded { protocol, conversation_id } => DemoEvent::HistoryLoaded {
            chat: (protocol, conversation_id@),
        },
        AdapterEvent::OlderHistoryLoaded {
            protocol,
            conversation_id,
            before_message_id,
            more,
            note,
        } => DemoEvent::OlderLoaded {
            chat: (protocol, conversation_id@),
            before: before_message_id@,
            more,
            note: note.deep_view(),
        },
        AdapterEvent::SendAccepted { protocol, conversation_id, request } => DemoEvent::Accepted {
            chat: (protocol, conversation_id@),
            request,
        },
        AdapterEvent::SendRejected { protocol, conversation_id, request } => DemoEvent::Rejected {
            chat: (protocol, conversation_id@),
            request,
        },
        AdapterEvent::Stopped { protocol } => DemoEvent::Stopped { protocol },
        AdapterEvent::Login { epoch, event } => match *event {
            AdapterEvent::TelegramAuth { phase } => DemoEvent::LoginPhase { epoch, phase },
            AdapterEvent::TelegramAuthRejected { error } => DemoEvent::LoginRejected {
                epoch,
                error,
            },
            _ => DemoEvent::Other,
        },
        _ => DemoEvent::Other,
    }
}

/// Events with their texts as character sequences.
pub open spec fn events_of(events: Seq<AdapterEvent>) -> Seq<DemoEvent> {
    events.map_values(|event: AdapterEvent| event_of(event))
}

/// A script with its texts as character sequences.
#[verifier::ext_equal]
pub struct ScriptModel {
    pub protocol: ProtocolId,
    pub start: Seq<DemoEvent>,
    pub history: Map<Text, Seq<MessageModel>>,
    pub page: usize,
    pub older: DemoOlder,
    pub send: DemoSend,
    pub login: Seq<(TelegramAuthStep, DemoLogin)>,
}

impl DeepView for DemoScript {
    type V = ScriptModel;

    open spec fn deep_view(&self) -> ScriptModel {
        ScriptModel {
            protocol: self.protocol,
            start: events_of(self.start@),
            history: self.history.deep_view(),
            page: self.page,
            older: self.older,
            send: self.send,
            login: self.login@,
        }
    }
}

/// The start events of a linked account with these rows.
pub open spec fn linked_start(protocol: ProtocolId, rows: Seq<ConversationModel>) -> Seq<DemoEvent> {
    seq![DemoEvent::Account { protocol, state: AccountState::Linked }]
        + rows.map_values(|row: ConversationModel| DemoEvent::Row { row })
        + seq![DemoEvent::ListLoaded { protocol }]
}

/// A script that only starts.
pub open spec fn quiet_script(protocol: ProtocolId, start: Seq<DemoEvent>) -> ScriptModel {
    ScriptModel {
        protocol,
        start,
        history: Map::empty(),
        page: PAGE,
        older: DemoOlder::Page,
        send: DemoSend::Accept,
        login: Seq::empty(),
    }
}

impl DemoScript {
    fn quiet(protocol: ProtocolId, start: Vec<AdapterEvent>) -> (r: Self)
        ensures
            r.deep_view() == quiet_script(protocol, events_of(start@)),
    {
        DemoScript {
            protocol,
            start,
            history: KeyMap::new(),
            page: PAGE,
            older: DemoOlder::Page,
            send: DemoSend::Accept,
            login: Vec::new(),
        }
    }

    /// An adapter that says nothing at its start.
    pub fn silent(protocol: ProtocolId) -> (r: Self)
        ensures
            r.deep_view() == quiet_script(protocol, Seq::empty()),
    {
        let r = DemoScript::quiet(protocol, Vec::new());
        proof {
            assert(events_of(Seq::<AdapterEvent>::empty()) =~= Seq::empty());
        }
        r
    }

    /// An adapter without an account.
    pub fn unlinked(protocol: ProtocolId) -> (r: Self)
        ensures
            r.deep_view() == quiet_script(
                protocol,
                seq![DemoEvent::Account { protocol, state: AccountState::Unlinked }],
            ),
    {
        let mut start: Vec<AdapterEvent> = Vec::new();
        start.push(AdapterEvent::Account { protocol, state: AccountState::Unlinked });
        proof {
            assert(events_of(start@) =~= seq![
                DemoEvent::Account { protocol, state: AccountState::Unlinked },
            ]);
        }
        DemoScript::quiet(protocol, start)
    }

    /// An adapter with a linked account and these rows.
    pub fn linked(protocol: ProtocolId, rows: Vec<Conversation>) -> (r: Self)
        ensures
            r.deep_view() == quiet_script(protocol, linked_start(protocol, rows.deep_view())),
    {
        let mut start: Vec<AdapterEvent> = Vec::new();
        start.push(AdapterEvent::Account { protocol, state: AccountState::Linked });
        let ghost head = seq![DemoEvent::Account { protocol, state: AccountState::Linked }];
        let ghost body = rows.deep_view().map_values(|row: ConversationModel| DemoEvent::Row { row });
        let mut i: usize = 0;
        proof {
            assert(events_of(start@) =~= head + body.take(0));
        }
        while i < rows.len()
            invariant
                i <= rows.len(),
                body == rows.deep_view().map_values(
                    |row: ConversationModel| DemoEvent::Row { row },
                ),
                events_of(start@) == head + body.take(i as int),
            decreases rows.len() - i,
        {
            let ghost before = start@;
            start.push(AdapterEvent::ConversationUpsert { conversation: rows[i].clone() });
            proof {
                assert(rows.deep_view()[i as int] == rows@[i as int].deep_view());
                assert(body.len() == rows.len());
                assert(body[i as int] == DemoEvent::Row { row: rows@[i as int].deep_view() });
                assert(body.take(i + 1) =~= body.take(i as int).push(body[i as int]));
                assert(events_of(start@) =~= events_of(before).push(body[i as int]));
            }
            i = i + 1;
        }
        let ghost before = start@;
        start.push(AdapterEvent::ChatListLoaded { protocol });
        proof {
            assert(body.take(i as int) =~= body);
            assert(events_of(start@) =~= events_of(before).push(
                DemoEvent::ListLoaded { protocol },
            ));
            assert(events_of(start@) =~= linked_start(protocol, rows.deep_view()));
        }
        DemoScript::quiet(protocol, start)
    }
}

/// Invented lines for generated chats. One is long, so a bubble wraps.
pub open spec fn line_of(index: int) -> Text {
    let n = index % 8;
    if n == 0 {
        "Morning! Did the parcel arrive?"@
    } else if n == 1 {
        "Yes, it came an hour ago."@
    } else if n == 2 {
        "Great. I will bring the tent on Saturday."@
    } else if n == 3 {
        "Can you also bring the small stove? Ours has a broken valve, and the shop only has the big one until next week, which does not fit in the car with four bags and the cooler."@
    } else if n == 4 {
        "Sure."@
    } else if n == 5 {
        "The weather looks good for both days."@
    } else if n == 6 {
        "Let's leave at 8."@
    } else {
        "👍"@
    }
}

fn line(index: usize) -> (r: &'static str)
    ensures
        r@ == line_of(index as int),
{
    let n: usize = index % 8;
    if n == 0 {
        "Morning! Did the parcel arrive?"
    } else if n == 1 {
        "Yes, it came an hour ago."
    } else if n == 2 {
        "Great. I will bring the tent on Saturday."
    } else if n == 3 {
        "Can you also bring the small stove? Ours has a broken valve, and the shop only has the big one until next week, which does not fit in the car with four bags and the cooler."
    } else if n == 4 {
        "Sure."
    } else if n == 5 {
        "The weather looks good for both days."
    } else if n == 6 {
        "Let's leave at 8."
    } else {
        "👍"
    }
}

/// A message of a demo chat.
pub open spec fn message_model(
    chat: Text,
    index: nat,
    sender: Text,
    body: Text,
    sent_at: i64,
) -> MessageModel {
    MessageModel {
        protocol: if "slack:"@.is_prefix_of(chat) {
            ProtocolId::Slack
        } else {
            ProtocolId::Telegram
        },
        conversation_id: chat,
        id: chat.push(':') + decimal(index),
        sender,
        body,
        outbound: sender == "You"@,
        delivery: Delivery::Sent,
        sent_at,
        arrival: Arrival::History,
    }
}

/// `s` begins with `part`.
fn begins_with(s: &str, part: &str) -> (r: bool)
    ensures
        r == part@.is_prefix_of(s@),
{
    let x = chars_of(s);
    let y = chars_of(part);
    if y.len() > x.len() {
        return false;
    }
    let mut i: usize = 0;
    while i < y.len()
        invariant
            i <= y.len() <= x.len(),
            x@ == s@,
            y@ == part@,
            forall|j: int| 0 <= j < i ==> x@[j] == y@[j],
        decreases y.len() - i,
    {
        if x[i] != y[i] {
            return false;
        }
        i = i + 1;
    }
    assert(part@ =~= s@.subrange(0, part@.len() as int));
    true
}

fn message(chat: &str, index: u64, sender: &str, body: &str, sent_at: i64) -> (r: ChatMessage)
    ensures
        r.deep_view() == message_model(chat@, index as nat, sender@, body@, sent_at),
{
    let protocol = if begins_with(chat, "slack:") {
        ProtocolId::Slack
    } else {
        ProtocolId::Telegram
    };
    let mut id = chat.to_owned();
    id.append(":");
    proof {
        reveal_strlit(":");
        assert(id@ =~= chat@.push(':'));
    }
    id.append(decimal_text(index).as_str());
    ChatMessage {
        protocol,
        conversation_id: chat.to_owned(),
        id,
        sender: sender.to_owned(),
        body: body.to_owned(),
        outbound: same_text(sender, "You"),
        delivery: Delivery::Sent,
        sent_at,
        arrival: Arrival::History,
    }
}

/// The name of the other person in a chat of two: what stands behind the last
/// dash of the chat id, with a capital.
pub open spec fn other_name(chat: Text) -> Text {
    let tail = after_last(chat, '-');
    seq![capital(tail[0])] + tail.skip(1)
}

/// `c` with an ASCII small letter made a capital.
pub open spec fn capital(c: char) -> char {
    if 'a' <= c <= 'z' {
        (c as u32 - 32) as char
    } else {
        c
    }
}

/// The capital letters in order.
const CAPITALS: &'static str = "ABCDEFGHIJKLMNOPQRSTUVWXYZ";

/// The name of the other person in a chat of two.
fn other_person(chat: &str) -> (r: String)
    requires
        after_last(chat@, '-').len() > 0,
    ensures
        r@ == other_name(chat@),
{
    let tail = tail_after(chat, '-');
    let chars = chars_of(tail);
    let c: char = chars[0];
    let mut name = if 'a' <= c && c <= 'z' {
        let k: usize = (c as u32 - 97) as usize;
        proof {
            reveal_strlit("ABCDEFGHIJKLMNOPQRSTUVWXYZ");
            assert(CAPITALS@[k as int] == (k as u32 + 65) as char);
            assert(CAPITALS@.subrange(k as int, k + 1) =~= seq![capital(c)]);
        }
        CAPITALS.substring_char(k, k + 1).to_owned()
    } else {
        proof {
            assert(tail@.subrange(0, 1) =~= seq![capital(c)]);
        }
        tail.substring_char(0, 1).to_owned()
    };
    proof {
        assert(tail@.subrange(1, chars@.len() as int) =~= tail@.skip(1));
    }
    name.append(tail.substring_char(1, chars.len()));
    name
}

/// A message of a chat of two people: every third one, from the second on, is
/// the user's own. They are 20 minutes apart and end one hour before [`NOW`].
pub open spec fn pair_message(chat: Text, count: nat, index: int) -> MessageModel {
    message_model(
        chat,
        index as nat,
        if index % 3 == 1 {
            "You"@
        } else {
            other_name(chat)
        },
        line_of(index),
        (NOW - HOUR - (count - index) * 20 * MINUTE) as i64,
    )
}

/// A chat of two people, oldest message first.
pub open spec fn pair_chat(chat: Text, count: nat) -> Seq<MessageModel> {
    Seq::new(count, |index: int| pair_message(chat, count, index))
}

fn two_person_chat(chat: &str, count: usize) -> (r: Vec<ChatMessage>)
    requires
        after_last(chat@, '-').len() > 0,
        count <= 1_000_000,
    ensures
        r.deep_view() == pair_chat(chat@, count as nat),
{
    let other = other_person(chat);
    let mut r: Vec<ChatMessage> = Vec::new();
    let mut index: usize = 0;
    proof {
        assert(r.deep_view() =~= pair_chat(chat@, count as nat).take(0));
    }
    while index < count
        invariant
            index <= count <= 1_000_000,
            other@ == other_name(chat@),
            r.deep_view() == pair_chat(chat@, count as nat).take(index as int),
        decreases count - index,
    {
        let sender: &str = if index % 3 == 1 {
            "You"
        } else {
            other.as_str()
        };
        let back: i64 = (count - index) as i64 * 20 * MINUTE;
        let ghost before = r.deep_view();
        let ghost all = pair_chat(chat@, count as nat);
        let row = message(chat, index as u64, sender, line(index), NOW - HOUR - back);
        let ghost model = row.deep_view();
        r.push(row);
        proof {
            assert(model == all[index as int]);
            assert(r.deep_view() =~= before.push(model));
            assert(all.take(index + 1) =~= all.take(index as int).push(all[index as int]));
        }
        index = index + 1;
    }
    proof {
        let all = pair_chat(chat@, count as nat);
        assert(all.take(index as int) =~= all);
    }
    r
}

/// A group chat over two days, so a day break shows.
pub open spec fn group_messages() -> Seq<MessageModel> {
    seq![
        message_model(
            BOOK_CLUB@,
            0,
            "Nora"@,
            "Who has read chapter 4?"@,
            (NOW - DAY - 3 * HOUR) as i64,
        ),
        message_model(BOOK_CLUB@, 1, "Milo"@, "Me, last night."@, (NOW - DAY - 2 * HOUR) as i64),
        message_model(
            BOOK_CLUB@,
            2,
            "Ada"@,
            "Halfway through."@,
            (NOW - DAY - 2 * HOUR + 5 * MINUTE) as i64,
        ),
        message_model(
            BOOK_CLUB@,
            3,
            "You"@,
            "Done. The ending surprised me."@,
            (NOW - DAY - HOUR) as i64,
        ),
        message_model(BOOK_CLUB@, 4, "Nora"@, "Same here!"@, (NOW - 3 * HOUR) as i64),
        message_model(
            BOOK_CLUB@,
            5,
            "Milo"@,
            "Shall we meet on Thursday?"@,
            (NOW - 2 * HOUR) as i64,
        ),
        message_model(
            BOOK_CLUB@,
            6,
            "Ada"@,
            "Thursday works."@,
            (NOW - 2 * HOUR + 2 * MINUTE) as i64,
        ),
        message_model(BOOK_CLUB@, 7, "Nora"@, "Chapter 5 next."@, (NOW - HOUR) as i64),
    ]
}

fn group_chat() -> (r: Vec<ChatMessage>)
    ensures
        r.deep_view() == group_messages(),
{
    let mut r: Vec<ChatMessage> = Vec::new();
    r.push(message(BOOK_CLUB, 0, "Nora", "Who has read chapter 4?", NOW - DAY - 3 * HOUR));
    r.push(message(BOOK_CLUB, 1, "Milo", "Me, last night.", NOW - DAY - 2 * HOUR));
    r.push(message(BOOK_CLUB, 2, "Ada", "Halfway through.", NOW - DAY - 2 * HOUR + 5 * MINUTE));
    r.push(message(BOOK_CLUB, 3, "You", "Done. The ending surprised me.", NOW - DAY - HOUR));
    r.push(message(BOOK_CLUB, 4, "Nora", "Same here!", NOW - 3 * HOUR));
    r.push(message(BOOK_CLUB, 5, "Milo", "Shall we meet on Thursday?", NOW - 2 * HOUR));
    r.push(message(BOOK_CLUB, 6, "Ada", "Thursday works.", NOW - 2 * HOUR + 2 * MINUTE));
    r.push(message(BOOK_CLUB, 7, "Nora", "Chapter 5 next.", NOW - HOUR));
    assert(r.deep_view() =~= group_messages());
    r
}

/// A demo chat row. The third place from below has two unread messages.
pub open spec fn row_model(
    protocol: ProtocolId,
    id: Text,
    title: Text,
    preview: Text,
    order: i64,
    is_group: bool,
) -> ConversationModel {
    ConversationModel {
        protocol,
        id,
        title,
        participant: title,
        preview,
        unread: if order == 3 {
            2
        } else {
            0
        },
        order,
        last_at: (NOW - (4 - order) * HOUR) as i64,
        is_group,
        writable: true,
        muted: false,
        placeholder: false,
    }
}

fn row(
    protocol: ProtocolId,
    id: &str,
    title: &str,
    preview: &str,
    order: i64,
    is_group: bool,
) -> (r: Conversation)
    requires
        0 <= order <= 4,
    ensures
        r.deep_view() == row_model(protocol, id@, title@, preview@, order, is_group),
{
    Conversation {
        protocol,
        id: id.to_owned(),
        title: title.to_owned(),
        participant: title.to_owned(),
        preview: preview.to_owned(),
        unread: if order == 3 {
            2
        } else {
            0
        },
        order,
        last_at: NOW - (4 - order) * HOUR,
        is_group,
        writable: true,
        muted: false,
        placeholder: false,
    }
}

/// The Telegram rows.
pub open spec fn inbox_models() -> Seq<ConversationModel> {
    seq![
        row_model(ProtocolId::Telegram, ADA@, "Ada Park"@, "Let's leave at 8."@, 4, false),
        row_model(ProtocolId::Telegram, BOOK_CLUB@, "Book club"@, "Nora: Chapter 5 next."@, 3, true),
        row_model(ProtocolId::Telegram, MILO@, "Milo Chen"@, "Sure."@, 2, false),
        row_model(ProtocolId::Telegram, NORA@, "Nora Silva"@, "Thanks!"@, 1, false),
    ]
}

fn inbox_rows() -> (r: Vec<Conversation>)
    ensures
        r.deep_view() == inbox_models(),
{
    let mut r: Vec<Conversation> = Vec::new();
    r.push(row(ProtocolId::Telegram, ADA, "Ada Park", "Let's leave at 8.", 4, false));
    r.push(row(ProtocolId::Telegram, BOOK_CLUB, "Book club", "Nora: Chapter 5 next.", 3, true));
    r.push(row(ProtocolId::Telegram, MILO, "Milo Chen", "Sure.", 2, false));
    r.push(row(ProtocolId::Telegram, NORA, "Nora Silva", "Thanks!", 1, false));
    assert(r.deep_view() =~= inbox_models());
    r
}

/// The Slack rows.
pub open spec fn slack_models() -> Seq<ConversationModel> {
    seq![
        row_model(ProtocolId::Slack, SLACK_GENERAL@, "#general"@, "Lunch at 12?"@, 2, true),
        row_model(ProtocolId::Slack, SLACK_DESIGN@, "#design"@, "New icons are up."@, 1, true),
    ]
}

/// The demo histories of Telegram, with this many messages from Ada.
pub open spec fn telegram_history(from_ada: nat) -> Map<Text, Seq<MessageModel>> {
    Map::empty().insert(ADA@, pair_chat(ADA@, from_ada)).insert(
        BOOK_CLUB@,
        group_messages(),
    ).insert(MILO@, pair_chat(MILO@, 6)).insert(NORA@, pair_chat(NORA@, 3))
}

/// Telegram signed in, with these rows and the demo histories. Telegram
/// reaches its inbox through the login phase Ready.
pub open spec fn telegram_linked_script(rows: Seq<ConversationModel>, from_ada: nat) -> ScriptModel {
    ScriptModel {
        history: telegram_history(from_ada),
        ..quiet_script(
            ProtocolId::Telegram,
            seq![DemoEvent::Phase { phase: TelegramAuthPhase::Ready }] + linked_start(
                ProtocolId::Telegram,
                rows,
            ),
        )
    }
}

/// The chat ids of the demo have a name behind their last dash.
proof fn lemma_demo_names()
    ensures
        after_last(ADA@, '-').len() > 0,
        after_last(MILO@, '-').len() > 0,
        after_last(NORA@, '-').len() > 0,
        after_last(SLACK_GENERAL@, '-').len() > 0,
{
    reveal_strlit("telegram:demo-ada");
    reveal_strlit("telegram:demo-milo");
    reveal_strlit("telegram:demo-nora");
    reveal_strlit("slack:demo-general");
    assert(ADA@.last() == 'a');
    assert(MILO@.last() == 'o');
    assert(NORA@.last() == 'a');
    assert(SLACK_GENERAL@.last() == 'l');
}

fn telegram_linked(rows: Vec<Conversation>, from_ada: usize) -> (r: DemoScript)
    requires
        from_ada <= 1_000_000,
    ensures
        r.deep_view() == telegram_linked_script(rows.deep_view(), from_ada as nat),
{
    proof {
        lemma_demo_names();
    }
    let mut script = DemoScript::linked(ProtocolId::Telegram, rows);
    let ghost linked = script.start@;
    script.start.insert(0, AdapterEvent::TelegramAuth { phase: TelegramAuthPhase::Ready });
    proof {
        assert(events_of(script.start@) =~= seq![
            DemoEvent::Phase { phase: TelegramAuthPhase::Ready },
        ] + events_of(linked));
    }
    script.history.insert(ADA.to_owned(), two_person_chat(ADA, from_ada));
    script.history.insert(BOOK_CLUB.to_owned(), group_chat());
    script.history.insert(MILO.to_owned(), two_person_chat(MILO, 6));
    script.history.insert(NORA.to_owned(), two_person_chat(NORA, 3));
    script
}

/// Telegram with no account.
pub open spec fn telegram_unlinked_script() -> ScriptModel {
    quiet_script(
        ProtocolId::Telegram,
        seq![
            DemoEvent::Account { protocol: ProtocolId::Telegram, state: AccountState::Unlinked },
        ],
    )
}

/// Telegram with no account, and an answer to each login step. With
/// `wrong_code`, the code step is refused.
pub open spec fn telegram_login_script(wrong_code: bool) -> ScriptModel {
    ScriptModel {
        login: seq![
            (
                TelegramAuthStep::ApiCredentials,
                DemoLogin::Phase(TelegramAuthPhase::NeedPhone),
            ),
            (TelegramAuthStep::Phone, DemoLogin::Phase(TelegramAuthPhase::NeedCode)),
            (
                TelegramAuthStep::Code,
                if wrong_code {
                    DemoLogin::Reject(TelegramAuthError::CodeInvalid)
                } else {
                    DemoLogin::Phase(TelegramAuthPhase::NeedTwoFactor)
                },
            ),
        ],
        ..telegram_unlinked_script()
    }
}

fn telegram_login(wrong_code: bool) -> (r: DemoScript)
    ensures
        r.deep_view() == telegram_login_script(wrong_code),
{
    let mut script = DemoScript::unlinked(ProtocolId::Telegram);
    let code = if wrong_code {
        DemoLogin::Reject(TelegramAuthError::CodeInvalid)
    } else {
        DemoLogin::Phase(TelegramAuthPhase::NeedTwoFactor)
    };
    script.login.push(
        (TelegramAuthStep::ApiCredentials, DemoLogin::Phase(TelegramAuthPhase::NeedPhone)),
    );
    script.login.push((TelegramAuthStep::Phone, DemoLogin::Phase(TelegramAuthPhase::NeedCode)));
    script.login.push((TelegramAuthStep::Code, code));
    proof {
        assert(script.login@ =~= telegram_login_script(wrong_code).login);
    }
    script
}

/// Slack signed in.
pub open spec fn slack_linked_script() -> ScriptModel {
    ScriptModel {
        history: Map::empty().insert(SLACK_GENERAL@, pair_chat(SLACK_GENERAL@, 4)),
        ..quiet_script(ProtocolId::Slack, linked_start(ProtocolId::Slack, slack_models()))
    }
}

fn slack_linked() -> (r: DemoScript)
    ensures
        r.deep_view() == slack_linked_script(),
{
    proof {
        lemma_demo_names();
    }
    let mut rows: Vec<Conversation> = Vec::new();
    rows.push(row(ProtocolId::Slack, SLACK_GENERAL, "#general", "Lunch at 12?", 2, true));
    rows.push(row(ProtocolId::Slack, SLACK_DESIGN, "#design", "New icons are up.", 1, true));
    assert(rows.deep_view() =~= slack_models());
    let mut script = DemoScript::linked(ProtocolId::Slack, rows);
    script.history.insert(SLACK_GENERAL.to_owned(), two_person_chat(SLACK_GENERAL, 4));
    script
}

/// The intent opens this chat.
pub open spec fn selects(intent: Intent, id: Text) -> bool {
    intent matches Intent::SelectConversation { id: chat } && chat@ == id
}

/// The intent asks for older messages of this Telegram chat.
pub open spec fn asks_older(intent: Intent, id: Text) -> bool {
    intent matches Intent::LoadOlderMessages { protocol, conversation_id } && protocol
        == ProtocolId::Telegram && conversation_id@ == id
}

/// The intent writes a draft into this Telegram chat.
pub open spec fn drafts(intent: Intent, id: Text, draft: Text) -> bool {
    intent matches Intent::SetDraft { protocol, conversation_id, text } && protocol
        == ProtocolId::Telegram && conversation_id@ == id && text.value() == draft
}

/// The intent sends the draft of this Telegram chat.
pub open spec fn sends(intent: Intent, id: Text) -> bool {
    intent matches Intent::SendDraft { protocol, conversation_id } && protocol
        == ProtocolId::Telegram && conversation_id@ == id
}

/// The intent types into a login field.
pub open spec fn types_into(intent: Intent, field: AuthField, value: Text) -> bool {
    intent matches Intent::Telegram(TelegramIntent::SetField(at, text)) && at == field
        && text.value() == value
}

/// These intents write and send one message to Ada.
pub open spec fn sends_to_ada(intents: Seq<Intent>, text: Text) -> bool {
    &&& intents.len() == 3
    &&& selects(intents[0], ADA@)
    &&& drafts(intents[1], ADA@, text)
    &&& sends(intents[2], ADA@)
}

/// These intents walk through the login up to the step of the scenario.
pub open spec fn walks_login(intents: Seq<Intent>, scenario: Scenario) -> bool {
    &&& intents.len() == (if scenario == Scenario::LoginPhone {
        1int
    } else if scenario == Scenario::LoginCode {
        3
    } else {
        5
    })
    &&& intents[0] == Intent::Telegram(TelegramIntent::AddAccount)
    &&& intents.len() >= 3 ==> types_into(intents[1], AuthField::Phone, "+1 555 0100"@)
        && intents[2] == Intent::Telegram(TelegramIntent::Submit)
    &&& intents.len() >= 5 ==> types_into(intents[3], AuthField::Code, "12345"@) && intents[4]
        == Intent::Telegram(TelegramIntent::Submit)
}

/// The intents that bring a core to the screen of a scenario.
pub open spec fn reaches(scenario: Scenario, intents: Seq<Intent>) -> bool {
    match scenario {
        Scenario::FirstRun
        | Scenario::EmptyInbox
        | Scenario::KeychainTryAgain
        | Scenario::StatusError
        | Scenario::StatusNotice => intents.len() == 0,
        Scenario::LongChat | Scenario::SeveralProtocols => intents.len() == 1 && selects(
            intents[0],
            ADA@,
        ),
        Scenario::LongChatLoadingOlder | Scenario::LongChatStartOfChat => intents.len() == 2
            && selects(intents[0], ADA@) && asks_older(intents[1], ADA@),
        Scenario::GroupChat => intents.len() == 1 && selects(intents[0], BOOK_CLUB@),
        Scenario::FailedSend => sends_to_ada(intents, "See you at 6?"@),
        Scenario::PendingSend => sends_to_ada(intents, "On my way."@),
        Scenario::LoginPhone
        | Scenario::LoginCode
        | Scenario::Login2fa
        | Scenario::LoginError => walks_login(intents, scenario),
    }
}

/// The protocols that a scenario shows even when the build does not hold them.
pub open spec fn visible_of(scenario: Scenario) -> Seq<ProtocolId> {
    if scenario == Scenario::SeveralProtocols {
        seq![ProtocolId::Slack]
    } else {
        Seq::empty()
    }
}

/// The Telegram script of a scenario.
pub open spec fn telegram_script(scenario: Scenario) -> ScriptModel {
    let long = telegram_linked_script(inbox_models(), LONG_CHAT_MESSAGES as nat);
    match scenario {
        Scenario::FirstRun | Scenario::KeychainTryAgain => telegram_unlinked_script(),
        Scenario::EmptyInbox => telegram_linked_script(
            Seq::empty(),
            LONG_CHAT_MESSAGES as nat,
        ),
        Scenario::LongChatLoadingOlder => ScriptModel { older: DemoOlder::Hold, ..long },
        Scenario::LongChatStartOfChat => telegram_linked_script(
            inbox_models(),
            SHORT_HISTORY_MESSAGES as nat,
        ),
        Scenario::FailedSend => ScriptModel { send: DemoSend::Reject, ..long },
        Scenario::PendingSend => ScriptModel { send: DemoSend::Hold, ..long },
        Scenario::LoginPhone
        | Scenario::LoginCode
        | Scenario::Login2fa
        | Scenario::LoginError => telegram_login_script(scenario == Scenario::LoginError),
        Scenario::StatusError => ScriptModel {
            start: long.start.push(
                DemoEvent::Status {
                    protocol: ProtocolId::Telegram,
                    status: AdapterStatus::Error,
                    detail: "Telegram connection lost. Trying again in 10 seconds."@,
                },
            ),
            ..long
        },
        Scenario::StatusNotice => ScriptModel {
            start: long.start.push(
                DemoEvent::Notice {
                    protocol: ProtocolId::Telegram,
                    text: "Older chats load in the background."@,
                },
            ),
            ..long
        },
        Scenario::LongChat | Scenario::GroupChat | Scenario::SeveralProtocols => long,
    }
}

/// The scripts of a scenario. Every protocol of the catalog has an adapter, so
/// a shutdown is answered by each one.
pub open spec fn scripts_of(scenario: Scenario) -> Seq<ScriptModel> {
    seq![
        telegram_script(scenario),
        if scenario == Scenario::SeveralProtocols {
            slack_linked_script()
        } else {
            quiet_script(ProtocolId::Slack, Seq::empty())
        },
        quiet_script(ProtocolId::WhatsApp, Seq::empty()),
        quiet_script(ProtocolId::Discord, Seq::empty()),
        quiet_script(ProtocolId::Signal, Seq::empty()),
    ]
}

/// What one scenario starts with.
pub struct Setup {
    pub scripts: Vec<DemoScript>,
    /// Protocols that the shell shows even when the build does not hold them.
    pub visible: Vec<ProtocolId>,
    pub intents: Vec<Intent>,
    /// Use a store whose keychain read failed.
    pub keychain_failed: bool,
}

fn select(id: &str) -> (r: Intent)
    ensures
        selects(r, id@),
{
    Intent::SelectConversation { id: id.to_owned() }
}

fn older(id: &str) -> (r: Intent)
    ensures
        asks_older(r, id@),
{
    Intent::LoadOlderMessages { protocol: ProtocolId::Telegram, conversation_id: id.to_owned() }
}

fn field(at: AuthField, value: &str) -> (r: Intent)
    ensures
        types_into(r, at, value@),
{
    Intent::Telegram(TelegramIntent::SetField(at, SecretText::new(value)))
}

/// Write and send one message to Ada.
fn send(text: &str) -> (r: Vec<Intent>)
    ensures
        sends_to_ada(r@, text@),
{
    let mut r: Vec<Intent> = Vec::new();
    r.push(select(ADA));
    r.push(
        Intent::SetDraft {
            protocol: ProtocolId::Telegram,
            conversation_id: ADA.to_owned(),
            text: SecretText::new(text),
        },
    );
    r.push(
        Intent::SendDraft { protocol: ProtocolId::Telegram, conversation_id: ADA.to_owned() },
    );
    r
}

fn login_steps(scenario: Scenario) -> (r: Vec<Intent>)
    ensures
        walks_login(r@, scenario),
{
    let mut r: Vec<Intent> = Vec::new();
    r.push(Intent::Telegram(TelegramIntent::AddAccount));
    if scenario == Scenario::LoginPhone {
        return r;
    }
    r.push(field(AuthField::Phone, "+1 555 0100"));
    r.push(Intent::Telegram(TelegramIntent::Submit));
    if scenario == Scenario::LoginCode {
        return r;
    }
    r.push(field(AuthField::Code, "12345"));
    r.push(Intent::Telegram(TelegramIntent::Submit));
    r
}

impl Scenario {
    /// Every scenario, in a fixed order.
    pub const ALL: [Scenario; 16] = [
        Scenario::FirstRun,
        Scenario::EmptyInbox,
        Scenario::LongChat,
        Scenario::LongChatLoadingOlder,
        Scenario::LongChatStartOfChat,
        Scenario::GroupChat,
        Scenario::FailedSend,
        Scenario::PendingSend,
        Scenario::LoginPhone,
        Scenario::LoginCode,
        Scenario::Login2fa,
        Scenario::LoginError,
        Scenario::KeychainTryAgain,
        Scenario::StatusError,
        Scenario::StatusNotice,
        Scenario::SeveralProtocols,
    ];

    /// A stable name, for example for a snapshot file.
    pub fn name(self) -> (r: &'static str)
        ensures
            r@ == scenario_name(self),
    {
        match self {
            Scenario::FirstRun => "first_run",
            Scenario::EmptyInbox => "empty_inbox",
            Scenario::LongChat => "long_chat",
            Scenario::LongChatLoadingOlder => "long_chat_loading_older",
            Scenario::LongChatStartOfChat => "long_chat_start_of_chat",
            Scenario::GroupChat => "group_chat",
            Scenario::FailedSend => "failed_send",
            Scenario::PendingSend => "pending_send",
            Scenario::LoginPhone => "login_phone",
            Scenario::LoginCode => "login_code",
            Scenario::Login2fa => "login_2fa",
            Scenario::LoginError => "login_error",
            Scenario::KeychainTryAgain => "keychain_try_again",
            Scenario::StatusError => "status_error",
            Scenario::StatusNotice => "status_notice",
            Scenario::SeveralProtocols => "several_protocols",
        }
    }

    /// The scenario with this name, if one has it.
    pub fn from_name(name: &str) -> (r: Option<Scenario>)
        ensures
            match r {
                Some(scenario) => scenario_name(scenario) == name@,
                None => forall|scenario: Scenario| #[trigger] scenario_name(scenario) != name@,
            },
    {
        let mut i: usize = 0;
        while i < 16
            invariant
                i <= 16,
                forall|j: int| 0 <= j < i ==> scenario_name(#[trigger] Scenario::ALL[j]) != name@,
            decreases 16 - i,
        {
            let scenario = Scenario::ALL[i];
            if same_text(scenario.name(), name) {
                return Some(scenario);
            }
            i = i + 1;
        }
        proof {
            assert forall|scenario: Scenario| #[trigger] scenario_name(scenario) != name@ by {
                let at = place_of(scenario);
                assert(Scenario::ALL[at] == scenario);
            }
        }
        None
    }

    /// The Telegram script of this scenario.
    fn telegram(self) -> (r: DemoScript)
        ensures
            r.deep_view() == telegram_script(self),
    {
        match self {
            Scenario::FirstRun | Scenario::KeychainTryAgain => DemoScript::unlinked(
                ProtocolId::Telegram,
            ),
            Scenario::EmptyInbox => {
                let none: Vec<Conversation> = Vec::new();
                assert(none.deep_view() =~= Seq::empty());
                telegram_linked(none, LONG_CHAT_MESSAGES)
            },
            Scenario::LongChatStartOfChat => telegram_linked(inbox_rows(), SHORT_HISTORY_MESSAGES),
            Scenario::LoginPhone
            | Scenario::LoginCode
            | Scenario::Login2fa
            | Scenario::LoginError => telegram_login(self == Scenario::LoginError),
            _ => {
                let mut script = telegram_linked(inbox_rows(), LONG_CHAT_MESSAGES);
                let ghost start = script.start@;
                match self {
                    Scenario::LongChatLoadingOlder => {
                        script.older = DemoOlder::Hold;
                    },
                    Scenario::FailedSend => {
                        script.send = DemoSend::Reject;
                    },
                    Scenario::PendingSend => {
                        script.send = DemoSend::Hold;
                    },
                    Scenario::StatusError => {
                        script.start.push(
                            AdapterEvent::Status {
                                protocol: ProtocolId::Telegram,
                                status: AdapterStatus::Error,
                                detail: "Telegram connection lost. Trying again in 10 seconds.".to_owned(),
                            },
                        );
                        proof {
                            assert(events_of(script.start@) =~= events_of(start).push(
                                event_of(script.start@.last()),
                            ));
                        }
                    },
                    Scenario::StatusNotice => {
                        script.start.push(
                            AdapterEvent::Notice {
                                protocol: ProtocolId::Telegram,
                                text: "Older chats load in the background.".to_owned(),
                            },
                        );
                        proof {
                            assert(events_of(script.start@) =~= events_of(start).push(
                                event_of(script.start@.last()),
                            ));
                        }
                    },
                    _ => {},
                }
                script
            },
        }
    }

    /// The intents that bring a core to the screen.
    fn steps(self) -> (r: Vec<Intent>)
        ensures
            reaches(self, r@),
    {
        let mut r: Vec<Intent> = Vec::new();
        match self {
            Scenario::LongChat | Scenario::SeveralProtocols => {
                r.push(select(ADA));
                r
            },
            Scenario::LongChatLoadingOlder | Scenario::LongChatStartOfChat => {
                r.push(select(ADA));
                r.push(older(ADA));
                r
            },
            Scenario::GroupChat => {
                r.push(select(BOOK_CLUB));
                r
            },
            Scenario::FailedSend => send("See you at 6?"),
            Scenario::PendingSend => send("On my way."),
            Scenario::LoginPhone
            | Scenario::LoginCode
            | Scenario::Login2fa
            | Scenario::LoginError => login_steps(self),
            _ => r,
        }
    }

    /// What the scenario starts with.
    pub fn setup(self) -> (r: Setup)
        ensures
            r.scripts.deep_view() == scripts_of(self),
            r.visible@ == visible_of(self),
            reaches(self, r.intents@),
            r.keychain_failed == (self == Scenario::KeychainTryAgain),
    {
        let mut scripts: Vec<DemoScript> = Vec::new();
        let mut visible: Vec<ProtocolId> = Vec::new();
        scripts.push(self.telegram());
        if self == Scenario::SeveralProtocols {
            scripts.push(slack_linked());
            visible.push(ProtocolId::Slack);
        } else {
            scripts.push(DemoScript::silent(ProtocolId::Slack));
        }
        scripts.push(DemoScript::silent(ProtocolId::WhatsApp));
        scripts.push(DemoScript::silent(ProtocolId::Discord));
        scripts.push(DemoScript::silent(ProtocolId::Signal));
        proof {
            assert(scripts.deep_view() =~= scripts_of(self));
            assert(self == Scenario::SeveralProtocols ==> visible@ =~= seq![ProtocolId::Slack]);
        }
        Setup {
            scripts,
            visible,
            intents: self.steps(),
            keychain_failed: self == Scenario::KeychainTryAgain,
        }
    }
}

/// Messages as the events that bring them.
pub open spec fn brought(rows: Seq<MessageModel>) -> Seq<DemoEvent> {
    rows.map_values(|row: MessageModel| DemoEvent::Message { row })
}

/// The part of a history that one page shows: the `page` messages before `to`.
pub open spec fn page_before(rows: Seq<MessageModel>, to: int, page: int) -> Seq<MessageModel> {
    rows.subrange(page_start(to, page), to)
}

/// Where the page before `to` starts.
pub open spec fn page_start(to: int, page: int) -> int {
    if to > page {
        to - page
    } else {
        0
    }
}

/// A message that the user sends in a demo chat.
pub open spec fn sent_model(chat: Text, request: u64, body: Text, delivery: Delivery) -> MessageModel {
    MessageModel {
        id: chat + ":sent-"@ + decimal(request as nat),
        delivery,
        ..message_model(chat, 0, "You"@, body, NOW)
    }
}

/// The answer to a login step, or none.
pub open spec fn login_answer(
    login: Seq<(TelegramAuthStep, DemoLogin)>,
    step: TelegramAuthStep,
) -> Option<DemoLogin>
    decreases login.len(),
{
    if login.len() == 0 {
        None
    } else if login[0].0 == step {
        Some(login[0].1)
    } else {
        login_answer(login.drop_first(), step)
    }
}

impl ScriptModel {
    /// The messages of a chat.
    pub open spec fn told(self, id: Text) -> Seq<MessageModel> {
        if self.history.contains_key(id) {
            self.history[id]
        } else {
            Seq::empty()
        }
    }

    /// Where the page of older messages ends: at the message that is the
    /// oldest one shown, or at the start when it is not of this chat.
    pub open spec fn older_end(self, id: Text, before: Text) -> int {
        let rows = self.told(id);
        let at = first_index(rows, message_is(before));
        if at < rows.len() {
            at
        } else {
            0
        }
    }

    /// What the demo adapter answers to a command.
    pub open spec fn answer(self, command: CommandModel) -> Seq<DemoEvent> {
        match command {
            CommandModel::OpenChat { protocol, conversation_id } => brought(
                page_before(
                    self.told(conversation_id),
                    self.told(conversation_id).len() as int,
                    self.page as int,
                ),
            ).push(DemoEvent::HistoryLoaded { chat: (protocol, conversation_id) }),
            CommandModel::LoadOlderMessages { protocol, conversation_id, before_message_id } =>
                if self.older == DemoOlder::Hold {
                Seq::empty()
            } else {
                let end = self.older_end(conversation_id, before_message_id);
                brought(page_before(self.told(conversation_id), end, self.page as int)).push(
                    DemoEvent::OlderLoaded {
                        chat: (protocol, conversation_id),
                        before: before_message_id,
                        more: page_start(end, self.page as int) > 0,
                        note: None,
                    },
                )
            },
            CommandModel::SendText { protocol, conversation_id, body, request } => match self.send {
                DemoSend::Accept => seq![
                    DemoEvent::Message {
                        row: sent_model(conversation_id, request, body, Delivery::Sent),
                    },
                    DemoEvent::Accepted { chat: (protocol, conversation_id), request },
                ],
                DemoSend::Reject => seq![
                    DemoEvent::Message {
                        row: sent_model(conversation_id, request, body, Delivery::Failed),
                    },
                    DemoEvent::Rejected { chat: (protocol, conversation_id), request },
                ],
                DemoSend::Hold => seq![
                    DemoEvent::Message {
                        row: sent_model(conversation_id, request, body, Delivery::Pending),
                    },
                ],
            },
            CommandModel::TelegramAuth { step, epoch } => match login_answer(self.login, step) {
                Some(DemoLogin::Phase(phase)) => seq![DemoEvent::LoginPhase { epoch, phase }],
                Some(DemoLogin::Reject(error)) => seq![
                    DemoEvent::LoginRejected { epoch, error },
                    DemoEvent::LoginPhase { epoch, phase: TelegramAuthPhase::Failed },
                ],
                None => Seq::empty(),
            },
            CommandModel::Shutdown { protocol } => seq![DemoEvent::Stopped { protocol }],
            _ => Seq::empty(),
        }
    }
}

fn answer_to_step(login: &Vec<(TelegramAuthStep, DemoLogin)>, step: TelegramAuthStep) -> (r: Option<
    DemoLogin,
>)
    ensures
        r == login_answer(login@, step),
{
    let mut i: usize = 0;
    assert(login@.skip(0) =~= login@);
    while i < login.len()
        invariant
            i <= login.len(),
            login_answer(login@, step) == login_answer(login@.skip(i as int), step),
        decreases login.len() - i,
    {
        proof {
            assert(login@.skip(i as int)[0] == login@[i as int]);
            assert(login@.skip(i as int).drop_first() =~= login@.skip(i + 1));
        }
        if login[i].0 == step {
            return Some(login[i].1);
        }
        i = i + 1;
    }
    None
}

/// The messages from `from` to `to` as the events that bring them.
fn bring(rows: &Vec<ChatMessage>, from: usize, to: usize) -> (r: Vec<AdapterEvent>)
    requires
        from <= to <= rows.len(),
    ensures
        events_of(r@) == brought(rows.deep_view().subrange(from as int, to as int)),
{
    let mut r: Vec<AdapterEvent> = Vec::new();
    let ghost all = rows.deep_view();
    let mut i: usize = from;
    proof {
        assert(events_of(r@) =~= brought(all.subrange(from as int, from as int)));
    }
    while i < to
        invariant
            from <= i <= to <= rows.len(),
            all == rows.deep_view(),
            events_of(r@) == brought(all.subrange(from as int, i as int)),
        decreases to - i,
    {
        let ghost before = r@;
        r.push(AdapterEvent::MessageReceived { message: rows[i].clone() });
        proof {
            assert(all[i as int] == rows@[i as int].deep_view());
            assert(events_of(r@) =~= events_of(before).push(
                DemoEvent::Message { row: all[i as int] },
            ));
            assert(brought(all.subrange(from as int, i + 1)) =~= brought(
                all.subrange(from as int, i as int),
            ).push(DemoEvent::Message { row: all[i as int] }));
        }
        i = i + 1;
    }
    r
}

/// A message that the user sends in a demo chat.
fn sent(chat: &str, request: u64, body: &str, delivery: Delivery) -> (r: ChatMessage)
    ensures
        r.deep_view() == sent_model(chat@, request, body@, delivery),
{
    let mut row = message(chat, 0, "You", body, NOW);
    let mut id = chat.to_owned();
    id.append(":sent-");
    id.append(decimal_text(request).as_str());
    row.id = id;
    row.delivery = delivery;
    row
}

/// Where the page before `to` starts.
fn start_of_page(to: usize, page: usize) -> (r: usize)
    ensures
        r == page_start(to as int, page as int),
        r <= to,
{
    if to > page {
        to - page
    } else {
        0
    }
}

/// An event after others.
fn and_then(events: Vec<AdapterEvent>, last: AdapterEvent) -> (r: Vec<AdapterEvent>)
    ensures
        events_of(r@) == events_of(events@).push(event_of(last)),
{
    let mut r = events;
    r.push(last);
    assert(events_of(r@) =~= events_of(events@).push(event_of(last)));
    r
}

/// One event.
fn one(event: AdapterEvent) -> (r: Vec<AdapterEvent>)
    ensures
        events_of(r@) == seq![event_of(event)],
{
    let mut r: Vec<AdapterEvent> = Vec::new();
    r.push(event);
    assert(events_of(r@) =~= seq![event_of(event)]);
    r
}

/// Two events.
fn two(first: AdapterEvent, second: AdapterEvent) -> (r: Vec<AdapterEvent>)
    ensures
        events_of(r@) == seq![event_of(first), event_of(second)],
{
    let mut r: Vec<AdapterEvent> = Vec::new();
    r.push(first);
    r.push(second);
    assert(events_of(r@) =~= seq![event_of(first), event_of(second)]);
    r
}

/// No event.
fn silence() -> (r: Vec<AdapterEvent>)
    ensures
        events_of(r@) == Seq::<DemoEvent>::empty(),
{
    let r: Vec<AdapterEvent> = Vec::new();
    assert(events_of(r@) =~= Seq::empty());
    r
}

impl DemoScript {
    /// The newest page of a chat.
    fn open_chat(&self, protocol: ProtocolId, id: &String) -> (r: Vec<AdapterEvent>)
        ensures
            events_of(r@) == self.deep_view().answer(
                CommandModel::OpenChat { protocol, conversation_id: id@ },
            ),
    {
        let page = match self.history.get(id) {
            Some(rows) => {
                proof {
                    assert(rows.deep_view().len() == rows.len());
                }
                bring(rows, start_of_page(rows.len(), self.page), rows.len())
            },
            None => {
                proof {
                    assert(brought(page_before(Seq::empty(), 0, self.page as int)) =~= Seq::empty());
                }
                silence()
            },
        };
        and_then(
            page,
            AdapterEvent::HistoryLoaded { protocol, conversation_id: id.clone() },
        )
    }

    /// The page before the oldest message that shows.
    fn load_older(&self, protocol: ProtocolId, id: &String, before: &String) -> (r: Vec<AdapterEvent>)
        ensures
            events_of(r@) == self.deep_view().answer(
                CommandModel::LoadOlderMessages {
                    protocol,
                    conversation_id: id@,
                    before_message_id: before@,
                },
            ),
    {
        if self.older == DemoOlder::Hold {
            return silence();
        }
        let mut more = false;
        let page = match self.history.get(id) {
            Some(rows) => {
                let at = position(
                    rows,
                    |row: &ChatMessage| -> (b: bool)
                        ensures b == message_is(before@)(row.deep_view())
                        { row.id == *before },
                    Ghost(message_is(before@)),
                );
                let end: usize = match at {
                    Some(i) => i,
                    None => 0,
                };
                proof {
                    assert(rows.deep_view().len() == rows.len());
                    assert(end == self.deep_view().older_end(id@, before@));
                }
                let start: usize = start_of_page(end, self.page);
                more = start > 0;
                bring(rows, start, end)
            },
            None => {
                proof {
                    lemma_first_index(Seq::<MessageModel>::empty(), message_is(before@));
                    assert(brought(page_before(Seq::empty(), 0, self.page as int)) =~= Seq::empty());
                }
                silence()
            },
        };
        and_then(
            page,
            AdapterEvent::OlderHistoryLoaded {
                protocol,
                conversation_id: id.clone(),
                before_message_id: before.clone(),
                more,
                note: None,
            },
        )
    }

    /// A send.
    fn send_text(&self, protocol: ProtocolId, id: &String, body: &String, request: u64) -> (r: Vec<
        AdapterEvent,
    >)
        ensures
            events_of(r@) == self.deep_view().answer(
                CommandModel::SendText { protocol, conversation_id: id@, body: body@, request },
            ),
    {
        let chat = id.as_str();
        match self.send {
            DemoSend::Accept => two(
                AdapterEvent::MessageReceived {
                    message: sent(chat, request, body.as_str(), Delivery::Sent),
                },
                AdapterEvent::SendAccepted { protocol, conversation_id: id.clone(), request },
            ),
            DemoSend::Reject => two(
                AdapterEvent::MessageReceived {
                    message: sent(chat, request, body.as_str(), Delivery::Failed),
                },
                AdapterEvent::SendRejected { protocol, conversation_id: id.clone(), request },
            ),
            DemoSend::Hold => one(
                AdapterEvent::MessageReceived {
                    message: sent(chat, request, body.as_str(), Delivery::Pending),
                },
            ),
        }
    }

    /// A login step.
    fn log_in(&self, step: TelegramAuthStep, epoch: u64) -> (r: Vec<AdapterEvent>)
        ensures
            events_of(r@) == self.deep_view().answer(CommandModel::TelegramAuth { step, epoch }),
    {
        match answer_to_step(&self.login, step) {
            Some(DemoLogin::Phase(phase)) => one(
                AdapterEvent::Login {
                    epoch,
                    event: Box::new(AdapterEvent::TelegramAuth { phase }),
                },
            ),
            Some(DemoLogin::Reject(error)) => two(
                AdapterEvent::Login {
                    epoch,
                    event: Box::new(AdapterEvent::TelegramAuthRejected { error }),
                },
                AdapterEvent::Login {
                    epoch,
                    event: Box::new(
                        AdapterEvent::TelegramAuth { phase: TelegramAuthPhase::Failed },
                    ),
                },
            ),
            None => silence(),
        }
    }

    /// What the demo adapter answers to a command.
    pub fn answer(&self, command: &AdapterCommand) -> (r: Vec<AdapterEvent>)
        ensures
            events_of(r@) == self.deep_view().answer(command.deep_view()),
    {
        match command {
            AdapterCommand::OpenChat { protocol, conversation_id } => self.open_chat(
                *protocol,
                conversation_id,
            ),
            AdapterCommand::LoadOlderMessages { protocol, conversation_id, before_message_id } =>
                self.load_older(*protocol, conversation_id, before_message_id),
            AdapterCommand::SendText { protocol, conversation_id, body, request } =>
                self.send_text(*protocol, conversation_id, body, *request),
            AdapterCommand::TelegramAuth { step, epoch } => self.log_in(*step, *epoch),
            AdapterCommand::Shutdown { protocol } => one(
                AdapterEvent::Stopped { protocol: *protocol },
            ),
            _ => silence(),
        }
    }
}

/// Where a scenario stands in the list of all.
spec fn place_of(scenario: Scenario) -> int {
    match scenario {
        Scenario::FirstRun => 0,
        Scenario::EmptyInbox => 1,
        Scenario::LongChat => 2,
        Scenario::LongChatLoadingOlder => 3,
        Scenario::LongChatStartOfChat => 4,
        Scenario::GroupChat => 5,
        Scenario::FailedSend => 6,
        Scenario::PendingSend => 7,
        Scenario::LoginPhone => 8,
        Scenario::LoginCode => 9,
        Scenario::Login2fa => 10,
        Scenario::LoginError => 11,
        Scenario::KeychainTryAgain => 12,
        Scenario::StatusError => 13,
        Scenario::StatusNotice => 14,
        Scenario::SeveralProtocols => 15,
    }
}

/// Every protocol of the catalog has one adapter in every scenario, in the
/// order of the catalog.
pub proof fn law_every_protocol_has_an_adapter(scenario: Scenario)
    ensures
        scripts_of(scenario).len() == catalog_order().len(),
        forall|i: int|
            0 <= i < catalog_order().len() ==> (#[trigger] scripts_of(scenario)[i]).protocol
                == catalog_order()[i],
{
}

} // verus!
