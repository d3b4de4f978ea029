//! Desktop notification rules.
//!
//! The core decides, and a frontend shows the result. One notification stands
//! for one chat, and the queue for the frontend is bounded.

use crate::keyed::{KeyMap, KeySet};
use crate::lists::{
    Ranked, first_index, law_ranked_is_sorted, law_ranked_keeps_rows, lemma_filter_contains,
    lemma_first_index, lemma_some_row, position, ranked, retain, some_row, sort_ranked,
};
use crate::protocol::{
    Arrival, ChatId, ChatMessage, Conversation, ConversationModel, MessageModel, ProtocolId, Text,
    name_of,
};
use crate::state::order::{
    law_text_order_is_total, law_text_order_is_transitive, text_at_most, text_le,
};
use crate::text::{chars_of, decimal, decimal_text, quoted, quoted_text};
use vstd::prelude::*;
use vstd::string::*;

verus! {

/// A live message older than this does not notify. After a reconnect, a
/// protocol can push a burst of old messages; they count as unread only.
pub const STALE_AFTER_SECS: i64 = 300;

/// Most commands that wait for a frontend.
pub const QUEUE_LIMIT: usize = 64;

/// Longest preview, in characters.
pub const PREVIEW_CHARS: usize = 120;

/// Text of a notification while the message text is hidden.
pub const HIDDEN_PREVIEW: &'static str = "New message";

/// The chat of a notification.
#[derive(Debug, PartialEq, Eq)]
pub struct NotifyKey {
    pub protocol: ProtocolId,
    pub conversation_id: String,
}

impl NotifyKey {
    /// The chat as the contracts see it.
    pub open spec fn chat(self) -> ChatId {
        (self.protocol, self.conversation_id@)
    }

    fn is(&self, other: &NotifyKey) -> (r: bool)
        ensures
            r == (self.chat() == other.chat()),
    {
        self.protocol == other.protocol && self.conversation_id == other.conversation_id
    }
}

impl Clone for NotifyKey {
    fn clone(&self) -> (r: Self)
        ensures
            r.chat() == self.chat(),
    {
        NotifyKey { protocol: self.protocol, conversation_id: self.conversation_id.clone() }
    }
}

impl DeepView for NotifyKey {
    type V = ChatId;

    open spec fn deep_view(&self) -> ChatId {
        self.chat()
    }
}

impl Ranked for NotifyKey {
    open spec fn ranks(a: ChatId, b: ChatId) -> bool {
        text_le(a.1, b.1)
    }

    fn may_precede(&self, other: &Self) -> (r: bool) {
        text_at_most(self.conversation_id.as_str(), other.conversation_id.as_str())
    }
}

/// What a frontend shows. A new message of the same chat replaces it.
#[derive(PartialEq, Eq)]
pub struct Notification {
    pub key: NotifyKey,
    /// Chat title.
    pub title: String,
    /// Sender name in a group. None in a private chat, or while the text is
    /// hidden.
    pub sender: Option<String>,
    /// Newest message text, at most [`PREVIEW_CHARS`], or [`HIDDEN_PREVIEW`].
    pub preview: String,
    /// New messages of this chat since the user looked at it.
    pub count: u32,
}

/// A notification with its texts as character sequences.
pub struct NotificationModel {
    pub key: ChatId,
    pub title: Text,
    pub sender: Option<Text>,
    pub preview: Text,
    pub count: u32,
}

impl DeepView for Notification {
    type V = NotificationModel;

    open spec fn deep_view(&self) -> NotificationModel {
        NotificationModel {
            key: self.key.chat(),
            title: self.title@,
            sender: self.sender.deep_view(),
            preview: self.preview@,
            count: self.count,
        }
    }
}

impl NotificationModel {
    /// The body line: sender, preview, and the count when more than one
    /// message waits.
    pub open spec fn body(self) -> Text {
        let text = match self.sender {
            Some(sender) => sender + ": "@ + self.preview,
            None => self.preview,
        };
        if self.count > 1 {
            text + " ("@ + decimal(self.count as nat) + " new)"@
        } else {
            text
        }
    }
}

impl Notification {
    /// The body line.
    pub fn body(&self) -> (r: String)
        ensures
            r@ == self.deep_view().body(),
    {
        let mut text = match &self.sender {
            Some(sender) => {
                let mut line = sender.clone();
                line.append(": ");
                line.append(self.preview.as_str());
                line
            },
            None => self.preview.clone(),
        };
        if self.count > 1 {
            text.append(" (");
            text.append(decimal_text(self.count as u64).as_str());
            text.append(" new)");
        }
        text
    }

    /// What a log may show: the chat, with `id` in the place of its id, and the
    /// count. Never a title, a sender, or a message text.
    pub fn debug_with(&self, id: &str) -> (r: String)
        ensures
            r@ == notification_line(self.key.protocol, id@, self.count),
    {
        let mut text = "Notification { key: NotifyKey { protocol: ".to_owned();
        text.append(self.key.protocol.display_name());
        text.append(", conversation_id: ");
        text.append(id);
        text.append(" }, count: ");
        text.append(decimal_text(self.count as u64).as_str());
        text.append(", text: \"<redacted>\" }");
        text
    }

    /// What a log may show, with the id of the chat in quotes.
    pub fn debug_text(&self) -> (r: String)
        ensures
            r@ == notification_line(
                self.key.protocol,
                quoted(self.key.conversation_id@),
                self.count,
            ),
    {
        self.debug_with(quoted_text(self.key.conversation_id.as_str()).as_str())
    }
}

/// The log line of a notification: the chat and the count.
pub open spec fn notification_line(protocol: ProtocolId, id: Text, count: u32) -> Text {
    "Notification { key: NotifyKey { protocol: "@ + name_of(protocol) + ", conversation_id: "@ + id
        + " }, count: "@ + decimal(count as nat) + ", text: \"<redacted>\" }"@
}

/// Output of the core for a frontend.
#[derive(PartialEq, Eq)]
pub enum NotifyCommand {
    Show(Notification),
    Dismiss(NotifyKey),
}

/// A command with its texts as character sequences.
pub enum NotifyModel {
    Show(NotificationModel),
    Dismiss(ChatId),
}

impl DeepView for NotifyCommand {
    type V = NotifyModel;

    open spec fn deep_view(&self) -> NotifyModel {
        match *self {
            NotifyCommand::Show(shown) => NotifyModel::Show(shown.deep_view()),
            NotifyCommand::Dismiss(key) => NotifyModel::Dismiss(key.chat()),
        }
    }
}

/// Facts for one decision.
pub struct NotifyContext<'a> {
    pub enabled: bool,
    pub preview: bool,
    pub window_focused: bool,
    pub viewed: Option<(ProtocolId, &'a str)>,
    pub has_session: bool,
    /// Unix seconds.
    pub now: i64,
}

/// Why a message does not notify.
#[derive(Debug, Clone, Copy, PartialEq, Eq, Structural)]
pub enum SkipReason {
    Disabled,
    History,
    Outbound,
    NoSession,
    UnknownChat,
    Muted,
    Viewed,
    Stale,
}

/// The rules, in this order.
pub open spec fn verdict(
    message: MessageModel,
    chat: Option<ConversationModel>,
    ctx: NotifyContext,
) -> Result<(), SkipReason> {
    if !ctx.enabled {
        Err(SkipReason::Disabled)
    } else if message.arrival != Arrival::Live {
        Err(SkipReason::History)
    } else if message.outbound {
        Err(SkipReason::Outbound)
    } else if !ctx.has_session {
        Err(SkipReason::NoSession)
    } else if chat.is_none() {
        Err(SkipReason::UnknownChat)
    } else if chat.unwrap().muted {
        Err(SkipReason::Muted)
    } else if ctx.window_focused && ctx.viewed.deep_view() == Some(
        (message.protocol, message.conversation_id),
    ) {
        Err(SkipReason::Viewed)
    } else if message.sent_at != 0 && ctx.now - message.sent_at > STALE_AFTER_SECS {
        Err(SkipReason::Stale)
    } else {
        Ok(())
    }
}

/// The user looks at this chat.
fn looks_at(viewed: &Option<(ProtocolId, &str)>, protocol: ProtocolId, id: &String) -> (r: bool)
    ensures
        r == (viewed.deep_view() == Some((protocol, id@))),
{
    match viewed {
        Some(chat) => chat.0 == protocol && chat.1.to_owned() == *id,
        None => false,
    }
}

/// The notification rules.
pub fn decide(message: &ChatMessage, chat: Option<&Conversation>, ctx: &NotifyContext) -> (r: Result<
    (),
    SkipReason,
>)
    ensures
        r == verdict(message.deep_view(), chat.deep_view(), *ctx),
{
    if !ctx.enabled {
        return Err(SkipReason::Disabled);
    }
    if message.arrival != Arrival::Live {
        return Err(SkipReason::History);
    }
    // Our own message, also one sent from another device of the account.
    if message.outbound {
        return Err(SkipReason::Outbound);
    }
    if !ctx.has_session {
        return Err(SkipReason::NoSession);
    }
    match chat {
        None => Err(SkipReason::UnknownChat),
        Some(chat) => {
            if chat.muted {
                return Err(SkipReason::Muted);
            }
            if ctx.window_focused && looks_at(
                &ctx.viewed,
                message.protocol,
                &message.conversation_id,
            ) {
                return Err(SkipReason::Viewed);
            }
            if message.sent_at != 0 && ctx.now as i128 - message.sent_at as i128
                > STALE_AFTER_SECS as i128 {
                return Err(SkipReason::Stale);
            }
            Ok(())
        },
    }
}

/// A command that shows a notification.
pub open spec fn is_show() -> spec_fn(NotifyModel) -> bool {
    |command: NotifyModel| command is Show
}

/// A command that does not show this chat.
pub open spec fn shows_other(chat: ChatId) -> spec_fn(NotifyModel) -> bool {
    |command: NotifyModel| !(command matches NotifyModel::Show(shown) && shown.key == chat)
}

/// A queue within its limit. The oldest notification goes first: a dismiss is
/// small and must arrive.
pub open spec fn capped(queue: Seq<NotifyModel>) -> Seq<NotifyModel>
    decreases queue.len(),
{
    if queue.len() <= QUEUE_LIMIT {
        queue
    } else if some_row(queue, is_show()) {
        proof {
            lemma_first_index(queue, is_show());
            lemma_some_row(queue, is_show());
        }
        capped(queue.remove(first_index(queue, is_show())))
    } else {
        capped(queue.remove(0))
    }
}

/// Pending notifications as the contracts see them.
pub struct NotesModel {
    /// New messages of each chat since the user looked at it.
    pub pending: Map<ChatId, u32>,
    pub queue: Seq<NotifyModel>,
    pub window_focused: bool,
    pub closing: bool,
}

impl NotesModel {
    /// New messages of this chat so far.
    pub open spec fn count(self, chat: ChatId) -> int {
        if self.pending.contains_key(chat) {
            self.pending[chat] as int
        } else {
            0
        }
    }

    /// What shows for a message.
    pub open spec fn notification(
        self,
        message: MessageModel,
        chat: ConversationModel,
        preview: bool,
    ) -> NotificationModel {
        let key = (message.protocol, message.conversation_id);
        NotificationModel {
            key,
            title: chat.title,
            sender: if preview && chat.is_group {
                Some(message.sender)
            } else {
                None
            },
            preview: if preview {
                message.body.take(
                    if message.body.len() <= PREVIEW_CHARS {
                        message.body.len() as int
                    } else {
                        PREVIEW_CHARS as int
                    },
                )
            } else {
                HIDDEN_PREVIEW@
            },
            count: (self.count(key) + 1) as u32,
        }
    }

    /// A message notifies. It replaces what is still queued for its chat.
    pub open spec fn noted(self, shown: NotificationModel) -> NotesModel {
        NotesModel {
            pending: self.pending.insert(shown.key, shown.count),
            queue: capped(
                self.queue.filter(shows_other(shown.key)).push(NotifyModel::Show(shown)),
            ),
            ..self
        }
    }

    /// The notification of a chat goes, if one shows. While the app closes,
    /// nothing more is queued.
    pub open spec fn dismissing(self, chat: ChatId) -> NotesModel {
        if !self.pending.contains_key(chat) {
            self
        } else {
            NotesModel {
                pending: self.pending.remove(chat),
                queue: if self.closing {
                    self.queue
                } else {
                    capped(self.queue.filter(shows_other(chat)).push(NotifyModel::Dismiss(chat)))
                },
                ..self
            }
        }
    }

    /// The notifications of chats go, in order.
    pub open spec fn dismissing_all(self, chats: Seq<ChatId>) -> NotesModel
        decreases chats.len(),
    {
        if chats.len() == 0 {
            self
        } else {
            self.dismissing_all(chats.drop_last()).dismissing(chats.last())
        }
    }

    /// The notification of a chat is over: the user looks at it, or the
    /// session of its protocol ended.
    pub open spec fn over(self, chat: ChatId, viewed: Option<ChatId>, sessions: Set<ProtocolId>) -> bool {
        self.pending.contains_key(chat) && ((self.window_focused && viewed == Some(chat))
            || !sessions.contains(chat.0))
    }
}

/// Pending notifications and the queue for the frontend.
pub struct Notifications {
    pending: KeyMap<(ProtocolId, String), u32>,
    queue: Vec<NotifyCommand>,
    window_focused: bool,
    closing: bool,
}

impl View for Notifications {
    type V = NotesModel;

    closed spec fn view(&self) -> NotesModel {
        NotesModel {
            pending: self.pending.deep_view(),
            queue: self.queue.deep_view(),
            window_focused: self.window_focused,
            closing: self.closing,
        }
    }
}

/// The notification of a chat is not shown by this command.
fn is_other(command: &NotifyCommand, protocol: ProtocolId, id: &String) -> (r: bool)
    ensures
        r == shows_other((protocol, id@))(command.deep_view()),
{
    match command {
        NotifyCommand::Show(shown) => !(shown.key.protocol == protocol
            && shown.key.conversation_id == *id),
        NotifyCommand::Dismiss(_) => true,
    }
}

/// The first characters of a text.
fn head_of(text: &String, most: usize) -> (r: String)
    ensures
        r@ == text@.take(
            if text@.len() <= most {
                text@.len() as int
            } else {
                most as int
            },
        ),
{
    let chars = chars_of(text.as_str());
    let n: usize = if chars.len() <= most {
        chars.len()
    } else {
        most
    };
    proof {
        assert(text@.subrange(0, n as int) =~= text@.take(n as int));
    }
    text.as_str().substring_char(0, n).to_owned()
}

impl Notifications {
    /// Nothing shows. A new window has focus until the frontend says otherwise.
    pub fn new() -> (r: Self)
        ensures
            r@ == (NotesModel {
                pending: Map::empty(),
                queue: Seq::empty(),
                window_focused: true,
                closing: false,
            }),
    {
        let r = Notifications {
            pending: KeyMap::new(),
            queue: Vec::new(),
            window_focused: true,
            closing: false,
        };
        assert(r@.queue =~= Seq::empty());
        r
    }

    pub fn window_focused(&self) -> (r: bool)
        ensures
            r == self@.window_focused,
    {
        self.window_focused
    }

    pub fn set_focus(&mut self, focused: bool)
        ensures
            final(self)@ == (NotesModel { window_focused: focused, ..old(self)@ }),
    {
        self.window_focused = focused;
    }

    /// The count of a chat, with one more message.
    fn next_count(&self, key: &(ProtocolId, String)) -> (r: u32)
        requires
            self@.count(key.deep_view()) < u32::MAX,
        ensures
            r == self@.count(key.deep_view()) + 1,
    {
        match self.pending.get(key) {
            Some(count) => *count + 1,
            None => 1,
        }
    }

    /// Queue a notification for a message if the rules allow it.
    pub fn on_message(
        &mut self,
        message: &ChatMessage,
        chat: Option<&Conversation>,
        ctx: &NotifyContext,
    ) -> (r: Result<(), SkipReason>)
        requires
            !old(self)@.closing && verdict(message.deep_view(), chat.deep_view(), *ctx).is_ok()
                ==> old(self)@.count((message.protocol, message.conversation_id@)) < u32::MAX,
        ensures
            r == (if old(self)@.closing {
                Err(SkipReason::Disabled)
            } else {
                verdict(message.deep_view(), chat.deep_view(), *ctx)
            }),
            final(self)@ == (if r.is_ok() {
                old(self)@.noted(
                    old(self)@.notification(
                        message.deep_view(),
                        chat.deep_view().unwrap(),
                        ctx.preview,
                    ),
                )
            } else {
                old(self)@
            }),
    {
        if self.closing {
            return Err(SkipReason::Disabled);
        }
        match decide(message, chat, ctx) {
            Err(reason) => Err(reason),
            Ok(()) => match chat {
                None => Err(SkipReason::UnknownChat),
                Some(chat) => {
                    self.note(message, chat, ctx.preview);
                    Ok(())
                },
            },
        }
    }

    /// Queue a notification for a message.
    fn note(&mut self, message: &ChatMessage, chat: &Conversation, preview: bool)
        requires
            old(self)@.count((message.protocol, message.conversation_id@)) < u32::MAX,
        ensures
            final(self)@ == old(self)@.noted(
                old(self)@.notification(message.deep_view(), chat.deep_view(), preview),
            ),
    {
        let key = (message.protocol, message.conversation_id.clone());
        let count: u32 = self.next_count(&key);
        let notification = Notification {
            key: NotifyKey {
                protocol: message.protocol,
                conversation_id: message.conversation_id.clone(),
            },
            title: chat.title.clone(),
            sender: if preview && chat.is_group {
                Some(message.sender.clone())
            } else {
                None
            },
            preview: if preview {
                head_of(&message.body, PREVIEW_CHARS)
            } else {
                HIDDEN_PREVIEW.to_owned()
            },
            count,
        };
        self.drop_shown(message.protocol, &message.conversation_id);
        self.pending.insert(key, count);
        self.push(NotifyCommand::Show(notification));
    }

    /// Drop what is queued for a chat to show.
    fn drop_shown(&mut self, protocol: ProtocolId, id: &String)
        ensures
            final(self)@ == (NotesModel {
                queue: old(self)@.queue.filter(shows_other((protocol, id@))),
                ..old(self)@
            }),
    {
        let mut queue: Vec<NotifyCommand> = Vec::new();
        std::mem::swap(&mut queue, &mut self.queue);
        retain(
            &mut queue,
            |command: &NotifyCommand| -> (b: bool)
                ensures b == shows_other((protocol, id@))(command.deep_view())
                { is_other(command, protocol, id) },
            Ghost(shows_other((protocol, id@))),
        );
        self.queue = queue;
    }

    /// Remove the notification of this chat, if one shows. While the app
    /// closes, no command goes out for it.
    pub fn dismiss(&mut self, key: &NotifyKey)
        ensures
            final(self)@ == old(self)@.dismissing(key.chat()),
    {
        let chat = (key.protocol, key.conversation_id.clone());
        if !self.pending.contains_key(&chat) {
            return ;
        }
        self.pending.remove(&chat);
        if self.closing {
            return ;
        }
        self.drop_shown(key.protocol, &key.conversation_id);
        self.push(NotifyCommand::Dismiss(key.clone()));
    }

    /// The chats whose notification is over.
    fn gone(&self, viewed: &Option<(ProtocolId, &str)>, sessions: &KeySet<ProtocolId>) -> (r: Vec<
        NotifyKey,
    >)
        ensures
            r.deep_view().no_duplicates(),
            forall|chat: ChatId|
                r.deep_view().contains(chat) == #[trigger] self@.over(
                    chat,
                    viewed.deep_view(),
                    sessions.deep_view(),
                ),
    {
        let mut r: Vec<NotifyKey> = Vec::new();
        let n = self.pending.len();
        let ghost rows = self.pending.rows_model();
        let mut i: usize = 0;
        assert(r.deep_view() =~= Seq::empty());
        while i < n
            invariant
                i <= n,
                n == rows.len(),
                rows == self.pending.rows_model(),
                crate::keyed::rows_are_map(rows, self@.pending),
                r.deep_view().no_duplicates(),
                forall|chat: ChatId| #[trigger]
                    r.deep_view().contains(chat) ==> self@.over(
                        chat,
                        viewed.deep_view(),
                        sessions.deep_view(),
                    ) && exists|j: int| 0 <= j < i && (#[trigger] rows[j]).0 == chat,
                forall|j: int|
                    0 <= j < i ==> self@.over(
                        (#[trigger] rows[j]).0,
                        viewed.deep_view(),
                        sessions.deep_view(),
                    ) ==> r.deep_view().contains(rows[j].0),
            decreases n - i,
        {
            let key = self.pending.row(i).0;
            let ghost chat = rows[i as int].0;
            let ghost before = r.deep_view();
            proof {
                assert(self@.pending.contains_key(chat));
                assert(!before.contains(chat));
            }
            let seen = self.window_focused && looks_at(viewed, key.0, &key.1);
            if seen || !sessions.contains(&key.0) {
                r.push(NotifyKey { protocol: key.0, conversation_id: key.1.clone() });
                proof {
                    assert(r.deep_view() =~= before.push(chat));
                    assert forall|c: ChatId| #[trigger] r.deep_view().contains(c) implies self@.over(
                        c,
                        viewed.deep_view(),
                        sessions.deep_view(),
                    ) && exists|j: int| 0 <= j < i + 1 && (#[trigger] rows[j]).0 == c by {
                        if c == chat {
                            assert(rows[i as int].0 == c);
                        } else {
                            let k = r.deep_view().index_of(c);
                            assert(before[k] == c);
                            assert(before.contains(c));
                        }
                    }
                    assert forall|j: int|
                        0 <= j < i + 1 && self@.over(
                            (#[trigger] rows[j]).0,
                            viewed.deep_view(),
                            sessions.deep_view(),
                        ) implies r.deep_view().contains(rows[j].0) by {
                        if j < i {
                            assert(before.contains(rows[j].0));
                            let k = before.index_of(rows[j].0);
                            assert(r.deep_view()[k] == rows[j].0);
                        } else {
                            assert(r.deep_view()[before.len() as int] == chat);
                        }
                    }
                }
            }
            i = i + 1;
        }
        proof {
            assert forall|chat: ChatId|
                r.deep_view().contains(chat) == #[trigger] self@.over(
                    chat,
                    viewed.deep_view(),
                    sessions.deep_view(),
                ) by {
                if self@.over(chat, viewed.deep_view(), sessions.deep_view()) {
                    assert(self@.pending.contains_key(chat));
                    let j = choose|j: int| 0 <= j < rows.len() && (#[trigger] rows[j]).0 == chat;
                    assert(r.deep_view().contains(rows[j].0));
                }
            }
        }
        r
    }

    /// Dismiss the chat the user looks at, and every chat of a protocol whose
    /// session ended, by the order of their ids. Chats of two protocols with
    /// one id go in either order.
    pub fn sync(&mut self, viewed: Option<(ProtocolId, &str)>, sessions: &KeySet<ProtocolId>)
        ensures
            exists|gone: Seq<ChatId>|
                {
                    &&& gone.no_duplicates()
                    &&& forall|chat: ChatId|
                        gone.contains(chat) == #[trigger] old(self)@.over(
                            chat,
                            viewed.deep_view(),
                            sessions.deep_view(),
                        )
                    &&& forall|i: int, j: int|
                        0 <= i < j < gone.len() ==> text_le(
                            (#[trigger] gone[i]).1,
                            (#[trigger] gone[j]).1,
                        )
                    &&& final(self)@ == #[trigger] old(self)@.dismissing_all(gone)
                },
    {
        let mut gone = self.gone(&viewed, sessions);
        let ghost found = gone.deep_view();
        sort_ranked(&mut gone);
        let ghost order = gone.deep_view();
        proof {
            lemma_sorted_keys(found);
            assert(order == ranked::<NotifyKey>(found));
            assert forall|chat: ChatId|
                order.contains(chat) == #[trigger] self@.over(
                    chat,
                    viewed.deep_view(),
                    sessions.deep_view(),
                ) by {
                assert(order.contains(chat) == found.contains(chat));
            }
            assert(order.take(0) =~= Seq::empty());
        }
        let mut i: usize = 0;
        while i < gone.len()
            invariant
                i <= gone.len(),
                order == gone.deep_view(),
                self@ == old(self)@.dismissing_all(order.take(i as int)),
            decreases gone.len() - i,
        {
            proof {
                assert(order[i as int] == gone@[i as int].deep_view());
                assert(order.take(i + 1).drop_last() =~= order.take(i as int));
                assert(order.take(i + 1).last() == order[i as int]);
            }
            self.dismiss(&gone[i]);
            i = i + 1;
        }
        proof {
            assert(order.len() == gone.len());
            assert(order.take(i as int) =~= order);
        }
    }

    /// The app is closing: nothing more goes out.
    pub fn close(&mut self)
        ensures
            final(self)@ == (NotesModel { closing: true, queue: Seq::empty(), ..old(self)@ }),
    {
        self.closing = true;
        self.queue = Vec::new();
        assert(self@.queue =~= Seq::empty());
    }

    /// Take what waits for the frontend.
    pub fn take(&mut self) -> (r: Vec<NotifyCommand>)
        ensures
            r.deep_view() == old(self)@.queue,
            final(self)@ == (NotesModel { queue: Seq::empty(), ..old(self)@ }),
    {
        let mut taken: Vec<NotifyCommand> = Vec::new();
        std::mem::swap(&mut taken, &mut self.queue);
        assert(self@.queue =~= Seq::empty());
        taken
    }

    /// Queue a command within the limit.
    fn push(&mut self, command: NotifyCommand)
        ensures
            final(self)@ == (NotesModel {
                queue: capped(old(self)@.queue.push(command.deep_view())),
                ..old(self)@
            }),
    {
        let ghost model = command.deep_view();
        let mut queue: Vec<NotifyCommand> = Vec::new();
        std::mem::swap(&mut queue, &mut self.queue);
        queue.push(command);
        let ghost all = queue.deep_view();
        proof {
            assert(all =~= old(self)@.queue.push(model));
        }
        while queue.len() > QUEUE_LIMIT
            invariant
                capped(queue.deep_view()) == capped(all),
            decreases queue.len(),
        {
            let ghost before = queue.deep_view();
            let oldest = position(
                &queue,
                |command: &NotifyCommand| -> (b: bool)
                    ensures b == is_show()(command.deep_view())
                    { matches!(command, NotifyCommand::Show(_)) },
                Ghost(is_show()),
            );
            let at: usize = match oldest {
                Some(at) => at,
                None => 0,
            };
            proof {
                assert(before.len() == queue.len());
                lemma_some_row(before, is_show());
                lemma_first_index(before, is_show());
            }
            queue.remove(at);
            proof {
                assert(queue.deep_view() =~= before.remove(at as int));
            }
        }
        proof {
            assert(queue.deep_view().len() == queue.len());
        }
        self.queue = queue;
    }
}

/// Sorted keys are the same keys, each once, by the order of their ids.
proof fn lemma_sorted_keys(keys: Seq<ChatId>)
    requires
        keys.no_duplicates(),
    ensures
        ranked::<NotifyKey>(keys).no_duplicates(),
        forall|chat: ChatId| #[trigger]
            ranked::<NotifyKey>(keys).contains(chat) == keys.contains(chat),
        forall|i: int, j: int|
            0 <= i < j < ranked::<NotifyKey>(keys).len() ==> text_le(
                (#[trigger] ranked::<NotifyKey>(keys)[i]).1,
                (#[trigger] ranked::<NotifyKey>(keys)[j]).1,
            ),
{
    assert forall|a: ChatId, b: ChatId| #[trigger]
        NotifyKey::ranks(a, b) || NotifyKey::ranks(b, a) by {
        law_text_order_is_total(a.1, b.1);
    }
    assert forall|a: ChatId, b: ChatId, c: ChatId|
        #![trigger NotifyKey::ranks(a, b), NotifyKey::ranks(b, c)]
        NotifyKey::ranks(a, b) && NotifyKey::ranks(b, c) implies NotifyKey::ranks(a, c) by {
        law_text_order_is_transitive(a.1, b.1, c.1);
    }
    law_ranked_is_sorted::<NotifyKey>(keys);
    law_ranked_keeps_rows::<NotifyKey>(keys);
    let sorted = ranked::<NotifyKey>(keys);
    assert forall|i: int, j: int| 0 <= i < j < sorted.len() implies text_le(
        (#[trigger] sorted[i]).1,
        (#[trigger] sorted[j]).1,
    ) by {
        assert(NotifyKey::ranks(sorted[i], sorted[j]));
    }
    keys.lemma_multiset_has_no_duplicates();
    sorted.to_multiset_ensures();
    keys.to_multiset_ensures();
    sorted.lemma_multiset_has_no_duplicates_conv();
    assert forall|chat: ChatId| #[trigger] sorted.contains(chat) == keys.contains(chat) by {
        assert(sorted.to_multiset().count(chat) == keys.to_multiset().count(chat));
    }
}

/// No chat has two notifications in the queue.
pub open spec fn one_per_chat(queue: Seq<NotifyModel>) -> bool {
    forall|i: int, j: int|
        0 <= i < j < queue.len() ==> !shows_both(#[trigger] queue[i], #[trigger] queue[j])
}

/// Both commands show one chat.
pub open spec fn shows_both(a: NotifyModel, b: NotifyModel) -> bool {
    a matches NotifyModel::Show(x) && b matches NotifyModel::Show(y) && x.key == y.key
}

/// The queue never grows beyond its limit, and keeps one notification per chat.
pub proof fn law_queue_is_bounded(queue: Seq<NotifyModel>)
    ensures
        capped(queue).len() <= QUEUE_LIMIT,
        one_per_chat(queue) ==> one_per_chat(capped(queue)),
    decreases queue.len(),
{
    if queue.len() > QUEUE_LIMIT {
        lemma_first_index(queue, is_show());
        lemma_some_row(queue, is_show());
        let at = if some_row(queue, is_show()) {
            first_index(queue, is_show())
        } else {
            0
        };
        let rest = queue.remove(at);
        law_queue_is_bounded(rest);
        if one_per_chat(queue) {
            assert forall|i: int, j: int| 0 <= i < j < rest.len() implies !shows_both(
                #[trigger] rest[i],
                #[trigger] rest[j],
            ) by {
                let a = if i < at { i } else { i + 1 };
                let b = if j < at { j } else { j + 1 };
                assert(rest[i] == queue[a]);
                assert(rest[j] == queue[b]);
            }
        }
    }
}

/// A queue with some commands left out keeps one notification per chat.
proof fn lemma_filter_keeps_one(queue: Seq<NotifyModel>, p: spec_fn(NotifyModel) -> bool)
    requires
        one_per_chat(queue),
    ensures
        one_per_chat(queue.filter(p)),
        forall|i: int| 0 <= i < queue.filter(p).len() ==> p(#[trigger] queue.filter(p)[i]),
        forall|i: int|
            0 <= i < queue.filter(p).len() ==> queue.contains(#[trigger] queue.filter(p)[i]),
    decreases queue.len(),
{
    reveal(Seq::filter);
    if queue.len() > 0 {
        let front = queue.drop_last();
        let last = queue.last();
        assert forall|i: int, j: int| 0 <= i < j < front.len() implies !shows_both(
            #[trigger] front[i],
            #[trigger] front[j],
        ) by {
            assert(front[i] == queue[i]);
            assert(front[j] == queue[j]);
        }
        lemma_filter_keeps_one(front, p);
        let kept = front.filter(p);
        let all = queue.filter(p);
        assert forall|i: int| 0 <= i < all.len() implies queue.contains(#[trigger] all[i]) by {
            if i < kept.len() {
                assert(all[i] == kept[i]);
                assert(front.contains(kept[i]));
                let k = front.index_of(kept[i]);
                assert(queue[k] == kept[i]);
            } else {
                assert(all[i] == last);
                assert(queue[queue.len() - 1] == last);
            }
        }
        assert forall|i: int, j: int| 0 <= i < j < all.len() implies !shows_both(
            #[trigger] all[i],
            #[trigger] all[j],
        ) by {
            if j < kept.len() {
                assert(all[i] == kept[i]);
                assert(all[j] == kept[j]);
            } else {
                assert(all[i] == kept[i]);
                assert(all[j] == last);
                assert(front.contains(kept[i]));
                let k = front.index_of(kept[i]);
                assert(queue[k] == kept[i]);
                assert(!shows_both(queue[k], queue[queue.len() - 1]));
            }
        }
    }
}

/// One notification per chat: a new one replaces the one that waits, and a
/// dismissed chat has none.
pub proof fn law_one_notification_per_chat(
    notes: NotesModel,
    shown: NotificationModel,
    chat: ChatId,
)
    requires
        one_per_chat(notes.queue),
    ensures
        one_per_chat(notes.noted(shown).queue),
        notes.noted(shown).queue.len() <= QUEUE_LIMIT,
        one_per_chat(notes.dismissing(chat).queue),
        !notes.dismissing(chat).pending.contains_key(chat),
{
    let kept = notes.queue.filter(shows_other(shown.key));
    lemma_filter_keeps_one(notes.queue, shows_other(shown.key));
    let next = kept.push(NotifyModel::Show(shown));
    assert forall|i: int, j: int| 0 <= i < j < next.len() implies !shows_both(
        #[trigger] next[i],
        #[trigger] next[j],
    ) by {
        assert(next[i] == kept[i]);
        assert(shows_other(shown.key)(kept[i]));
        if j < kept.len() {
            assert(next[j] == kept[j]);
        }
    }
    law_queue_is_bounded(next);
    let rest = notes.queue.filter(shows_other(chat));
    lemma_filter_keeps_one(notes.queue, shows_other(chat));
    let gone = rest.push(NotifyModel::Dismiss(chat));
    assert forall|i: int, j: int| 0 <= i < j < gone.len() implies !shows_both(
        #[trigger] gone[i],
        #[trigger] gone[j],
    ) by {
        assert(gone[i] == rest[i]);
        if j < rest.len() {
            assert(gone[j] == rest[j]);
        }
    }
    law_queue_is_bounded(gone);
}

/// After the app began to close, nothing more goes out: no message, no
/// dismissed chat, and no sync queues a command.
pub proof fn law_nothing_goes_out_while_closing(
    notes: NotesModel,
    chat: ChatId,
    chats: Seq<ChatId>,
)
    requires
        notes.closing,
    ensures
        notes.dismissing(chat).queue == notes.queue,
        notes.dismissing(chat).closing,
        notes.dismissing_all(chats).queue == notes.queue,
        notes.dismissing_all(chats).closing,
    decreases chats.len(),
{
    if chats.len() > 0 {
        law_nothing_goes_out_while_closing(notes, chat, chats.drop_last());
    }
}

/// A message text reaches a notification only while previews are on, and at
/// most its first characters do.
pub proof fn law_hidden_text_stays_hidden(
    notes: NotesModel,
    message: MessageModel,
    chat: ConversationModel,
)
    ensures
        notes.notification(message, chat, false).preview == HIDDEN_PREVIEW@,
        notes.notification(message, chat, false).sender == None::<Text>,
        notes.notification(message, chat, true).preview.len() <= PREVIEW_CHARS,
{
}

/// A notification names the chat that the message is in: its title is the title
/// of the chat row, whatever the message says. In a group it names who wrote.
/// It shows the start of the message, at most 120 characters of it, and with
/// previews off neither the text nor the sender.
pub proof fn law_notification_names_its_chat(
    notes: NotesModel,
    message: MessageModel,
    other: MessageModel,
    chat: ConversationModel,
    preview: bool,
    i: int,
)
    requires
        notes.count((message.protocol, message.conversation_id)) < u32::MAX,
    ensures
        ({
            let shown = notes.notification(message, chat, preview);
            &&& shown.title == chat.title
            &&& notes.notification(other, chat, preview).title == shown.title
            &&& shown.key.0 == message.protocol && shown.key.1 == message.conversation_id
            &&& shown.count == notes.count(shown.key) + 1
            &&& preview && chat.is_group ==> shown.sender == Some(message.sender)
            &&& !preview || !chat.is_group ==> shown.sender.is_none()
            &&& preview && message.body.len() <= 120 ==> shown.preview == message.body
            &&& preview && message.body.len() > 120 ==> shown.preview.len() == 120
            &&& preview && 0 <= i < shown.preview.len() ==> shown.preview[i] == message.body[i]
            &&& !preview ==> shown.preview == "New message"@
        }),
{
    assert(message.body.take(message.body.len() as int) =~= message.body);
}

/// A message notifies exactly when notifications are on, it came live from
/// somebody else, its protocol has a session, its chat is known and not muted,
/// the user does not look at the chat, and it is at most five minutes old.
pub proof fn law_message_notifies_when(
    message: MessageModel,
    chat: Option<ConversationModel>,
    ctx: NotifyContext,
)
    ensures
        verdict(message, chat, ctx).is_ok() == (ctx.enabled && message.arrival == Arrival::Live
            && !message.outbound && ctx.has_session && chat.is_some() && !chat.unwrap().muted
            && !(ctx.window_focused && ctx.viewed.deep_view() == Some(
            (message.protocol, message.conversation_id),
        )) && (message.sent_at == 0 || ctx.now <= message.sent_at + 300)),
        verdict(message, chat, ctx) == Err::<(), SkipReason>(SkipReason::Disabled) <==> !ctx.enabled,
        verdict(message, chat, ctx) == Err::<(), SkipReason>(SkipReason::History) ==> ctx.enabled
            && message.arrival != Arrival::Live,
        verdict(message, chat, ctx) == Err::<(), SkipReason>(SkipReason::Outbound)
            ==> message.outbound && message.arrival == Arrival::Live,
        verdict(message, chat, ctx) == Err::<(), SkipReason>(SkipReason::NoSession)
            ==> !ctx.has_session && !message.outbound,
        verdict(message, chat, ctx) == Err::<(), SkipReason>(SkipReason::UnknownChat)
            ==> chat.is_none() && ctx.has_session,
        verdict(message, chat, ctx) == Err::<(), SkipReason>(SkipReason::Muted) ==> chat.is_some()
            && chat.unwrap().muted,
        verdict(message, chat, ctx) == Err::<(), SkipReason>(SkipReason::Viewed)
            ==> ctx.window_focused && ctx.viewed.deep_view() == Some(
            (message.protocol, message.conversation_id),
        ),
        verdict(message, chat, ctx) == Err::<(), SkipReason>(SkipReason::Stale) ==> message.sent_at
            != 0 && ctx.now > message.sent_at + 300,
{
}

/// While the queue has room, a notification goes to its end, takes the place of
/// what was queued for its chat, and leaves every other command in the queue.
/// The count of its chat is noted, and no other count changes.
pub proof fn law_notification_is_queued(
    notes: NotesModel,
    shown: NotificationModel,
    other: NotifyModel,
    elsewhere: ChatId,
)
    requires
        notes.queue.len() < QUEUE_LIMIT,
        elsewhere != shown.key,
    ensures
        ({
            let next = notes.noted(shown);
            &&& next.queue.len() > 0
            &&& next.queue[next.queue.len() - 1] == NotifyModel::Show(shown)
            &&& (other is Dismiss || other->Show_0.key != shown.key) ==> next.queue.contains(other)
                == notes.queue.contains(other)
            &&& other is Show && other->Show_0.key == shown.key && other != NotifyModel::Show(shown)
                ==> !next.queue.contains(other)
            &&& next.count(shown.key) == shown.count
            &&& next.count(elsewhere) == notes.count(elsewhere)
            &&& next.window_focused == notes.window_focused && next.closing == notes.closing
        }),
{
    let p = shows_other(shown.key);
    let left = notes.queue.filter(p);
    lemma_filter_contains(notes.queue, p, other);
    lemma_filter_shorter(notes.queue, p);
    let all = left.push(NotifyModel::Show(shown));
    assert(capped(all) == all);
    if left.contains(other) {
        let i = choose|i: int| 0 <= i < left.len() && left[i] == other;
        assert(all[i] == other);
    }
    if all.contains(other) {
        let i = choose|i: int| 0 <= i < all.len() && all[i] == other;
        if i < left.len() {
            assert(left[i] == other);
        }
    }
}

proof fn lemma_filter_shorter(queue: Seq<NotifyModel>, p: spec_fn(NotifyModel) -> bool)
    ensures
        queue.filter(p).len() <= queue.len(),
    decreases queue.len(),
{
    reveal(Seq::filter);
    if queue.len() > 0 {
        lemma_filter_shorter(queue.drop_last(), p);
    }
}

/// A dismiss takes the notification of its chat away, shown or still queued,
/// and tells the frontend once. Another chat keeps its own. A chat that shows
/// nothing has nothing to dismiss.
pub proof fn law_dismiss_takes_its_own_chat(
    notes: NotesModel,
    chat: ChatId,
    other: NotifyModel,
    elsewhere: ChatId,
)
    requires
        notes.queue.len() < QUEUE_LIMIT,
        elsewhere != chat,
    ensures
        ({
            let next = notes.dismissing(chat);
            &&& next.count(chat) == 0 && !next.pending.contains_key(chat)
            &&& next.count(elsewhere) == notes.count(elsewhere)
            &&& !notes.pending.contains_key(chat) ==> next == notes
            &&& notes.pending.contains_key(chat) && !notes.closing ==> {
                &&& next.queue[next.queue.len() - 1] == NotifyModel::Dismiss(chat)
                &&& other is Show && other->Show_0.key == chat ==> !next.queue.contains(other)
                &&& other is Show && other->Show_0.key != chat ==> next.queue.contains(other)
                    == notes.queue.contains(other)
            }
        }),
{
    let p = shows_other(chat);
    let left = notes.queue.filter(p);
    lemma_filter_contains(notes.queue, p, other);
    lemma_filter_shorter(notes.queue, p);
    let all = left.push(NotifyModel::Dismiss(chat));
    assert(capped(all) == all);
    if left.contains(other) {
        let i = choose|i: int| 0 <= i < left.len() && left[i] == other;
        assert(all[i] == other);
    }
    if all.contains(other) {
        let i = choose|i: int| 0 <= i < all.len() && all[i] == other;
        if i < left.len() {
            assert(left[i] == other);
        }
    }
}

/// A full queue drops a notification, never a dismiss, while it holds one: the
/// oldest goes first, and every later command stays.
pub proof fn law_full_queue_drops_the_oldest_notification(queue: Seq<NotifyModel>, at: int)
    requires
        queue.len() == QUEUE_LIMIT + 1,
        0 <= at < queue.len(),
        queue[at] is Show,
        forall|i: int| 0 <= i < at ==> (#[trigger] queue[i]) is Dismiss,
    ensures
        capped(queue) == queue.remove(at),
{
    crate::lists::lemma_first_index_is(queue, is_show(), at);
    lemma_some_row(queue, is_show());
    let rest = queue.remove(at);
    assert(rest.len() == QUEUE_LIMIT);
    assert(capped(rest) == rest);
}

/// Only a chat with a notification is over: the one that the user looks at with
/// the window in front, and each of a protocol without a session.
pub proof fn law_notification_is_over_when(
    notes: NotesModel,
    chat: ChatId,
    viewed: Option<ChatId>,
    sessions: Set<ProtocolId>,
)
    ensures
        notes.over(chat, viewed, sessions) ==> notes.pending.contains_key(chat),
        notes.pending.contains_key(chat) && !sessions.contains(chat.0) ==> notes.over(
            chat,
            viewed,
            sessions,
        ),
        notes.pending.contains_key(chat) && notes.window_focused && viewed == Some(chat)
            ==> notes.over(chat, viewed, sessions),
        sessions.contains(chat.0) && (viewed != Some(chat) || !notes.window_focused) ==> !notes.over(
            chat,
            viewed,
            sessions,
        ),
{
}

/// The body line starts with the sender, if one shows, then the preview. Only
/// more than one new message adds how many.
pub proof fn law_body_line_says_who_and_what(shown: NotificationModel)
    ensures
        shown.sender.is_none() && shown.count <= 1 ==> shown.body() == shown.preview,
        shown.sender.is_some() && shown.count <= 1 ==> shown.body() == shown.sender.unwrap()
            + ": "@ + shown.preview,
        shown.count > 1 ==> shown.body() == (NotificationModel { count: 1, ..shown }).body() + " ("@
            + decimal(shown.count as nat) + " new)"@,
{
}

/// The queue holds up to sixty-four commands: a shorter one stays as it is, and a
/// longer one is cut to that length.
pub proof fn law_queue_keeps_its_last_commands(queue: Seq<NotifyModel>)
    ensures
        queue.len() <= 64 ==> capped(queue) == queue,
        queue.len() >= 64 ==> capped(queue).len() == 64,
    decreases queue.len(),
{
    if queue.len() > 64 {
        lemma_first_index(queue, is_show());
        lemma_some_row(queue, is_show());
        let at = if some_row(queue, is_show()) {
            first_index(queue, is_show())
        } else {
            0
        };
        law_queue_keeps_its_last_commands(queue.remove(at));
    }
}

/// A message that makes no notification has the first reason that holds: off,
/// from the history, the user's own, without a session, without a chat row,
/// muted, on screen, or too old.
pub proof fn law_first_reason_is_given(
    message: MessageModel,
    chat: Option<ConversationModel>,
    ctx: NotifyContext,
)
    ensures
        ({
            let answer = verdict(message, chat, ctx);
            let on_screen = ctx.window_focused && ctx.viewed.deep_view() == Some(
                (message.protocol, message.conversation_id),
            );
            &&& !ctx.enabled ==> answer == Err::<(), SkipReason>(SkipReason::Disabled)
            &&& ctx.enabled && message.arrival == Arrival::History ==> answer == Err::<
                (),
                SkipReason,
            >(SkipReason::History)
            &&& ctx.enabled && message.arrival == Arrival::Live && message.outbound ==> answer
                == Err::<(), SkipReason>(SkipReason::Outbound)
            &&& ctx.enabled && message.arrival == Arrival::Live && !message.outbound ==> {
                &&& !ctx.has_session ==> answer == Err::<(), SkipReason>(SkipReason::NoSession)
                &&& ctx.has_session && chat.is_none() ==> answer == Err::<(), SkipReason>(
                    SkipReason::UnknownChat,
                )
                &&& ctx.has_session && chat.is_some() && chat.unwrap().muted ==> answer == Err::<
                    (),
                    SkipReason,
                >(SkipReason::Muted)
                &&& ctx.has_session && chat.is_some() && !chat.unwrap().muted && on_screen
                    ==> answer == Err::<(), SkipReason>(SkipReason::Viewed)
                &&& ctx.has_session && chat.is_some() && !chat.unwrap().muted && !on_screen
                    && message.sent_at != 0 && ctx.now > message.sent_at + 300 ==> answer == Err::<
                    (),
                    SkipReason,
                >(SkipReason::Stale)
            }
        }),
{
}

} // verus!
