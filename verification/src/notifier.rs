//! What the notification thread decides: whether a command still runs, and
//! which server id stands for which chat.

use crate::keyed::{KeyMap, KeySet};
use crate::notify::{Notification, NotifyCommand, NotifyKey};
use crate::protocol::{ChatId, ProtocolId};
use crate::text::same_text;
use vstd::prelude::*;
use vstd::string::*;

verus! {

/// The action of a click on a notification.
pub const OPEN_ACTION: &'static str = "default";

/// A failed OS call. Only a fixed kind, never message data.
#[derive(Debug, Clone, Copy, PartialEq, Eq)]
pub struct BackendError(pub &'static str);

/// One OS notification service.
pub trait Backend: Sized {
    fn show(&mut self, notification: &Notification) -> Result<(), BackendError>;

    fn dismiss(&mut self, key: &NotifyKey) -> Result<(), BackendError>;
}

/// Which commands a backend gets: each one, in order, until one fails. After
/// one error, notifications stay off for this run.
pub struct NotifierLoop {
    on: bool,
}

impl NotifierLoop {
    pub closed spec fn is_on(self) -> bool {
        self.on
    }

    pub fn new() -> (r: Self)
        ensures
            r.is_on(),
    {
        NotifierLoop { on: true }
    }

    /// The command that the backend gets now: this one, whole. `None` when
    /// notifications are off: the backend is left alone then.
    pub fn due<'a>(&self, command: &'a NotifyCommand) -> (r: Option<&'a NotifyCommand>)
        ensures
            r == (if self.is_on() {
                Some(command)
            } else {
                None
            }),
    {
        if self.on {
            Some(command)
        } else {
            None
        }
    }

    /// The call that was due ended. After one that failed, nothing is due.
    pub fn ended(&mut self, result: Result<(), BackendError>)
        ensures
            final(self).is_on() == (old(self).is_on() && result.is_ok()),
    {
        self.on = self.on && result.is_ok();
    }
}

/// The shown notifications as the contracts see them.
pub struct ShownModel {
    /// The server id of each chat.
    pub ids: Map<ChatId, u32>,
    /// The chat of each server id, for the click waiters.
    pub keys: Map<u32, ChatId>,
    /// The server ids with a click waiter.
    pub waiting: Set<u32>,
}

impl ShownModel {
    /// The server shows a chat under an id.
    pub open spec fn showing(self, chat: ChatId, id: u32) -> ShownModel {
        ShownModel {
            ids: self.ids.insert(chat, id),
            keys: self.keys.insert(id, chat),
            waiting: self.waiting.insert(id),
        }
    }

    /// A chat is dismissed.
    pub open spec fn dismissed(self, chat: ChatId) -> ShownModel {
        if self.ids.contains_key(chat) {
            ShownModel {
                ids: self.ids.remove(chat),
                keys: self.keys.remove(self.ids[chat]),
                ..self
            }
        } else {
            self
        }
    }
}

/// Server ids of the shown notifications, one per chat.
pub struct Shown {
    ids: KeyMap<(ProtocolId, String), u32>,
    keys: KeyMap<u32, (ProtocolId, String)>,
    waiting: KeySet<u32>,
}

impl View for Shown {
    type V = ShownModel;

    closed spec fn view(&self) -> ShownModel {
        ShownModel {
            ids: self.ids.deep_view(),
            keys: self.keys.deep_view(),
            waiting: self.waiting.deep_view(),
        }
    }
}

impl Shown {
    pub fn new() -> (r: Self)
        ensures
            r@ == (ShownModel { ids: Map::empty(), keys: Map::empty(), waiting: Set::empty() }),
    {
        Shown { ids: KeyMap::new(), keys: KeyMap::new(), waiting: KeySet::new() }
    }

    /// The server id that a new notification of this chat replaces.
    pub fn replaced(&self, key: &NotifyKey) -> (r: Option<u32>)
        ensures
            r == self@.ids.get(key.chat()),
    {
        match self.ids.get(&(key.protocol, key.conversation_id.clone())) {
            Some(id) => Some(*id),
            None => None,
        }
    }

    /// The server shows a chat under an id. True when a click waiter starts: a
    /// replaced notification keeps its id, so its waiter stays and no second
    /// one starts.
    pub fn shown(&mut self, key: &NotifyKey, id: u32) -> (waits: bool)
        ensures
            waits == !old(self)@.waiting.contains(id),
            final(self)@ == old(self)@.showing(key.chat(), id),
    {
        self.ids.insert((key.protocol, key.conversation_id.clone()), id);
        self.keys.insert(id, (key.protocol, key.conversation_id.clone()));
        let waits = !self.waiting.contains(&id);
        self.waiting.insert(id);
        waits
    }

    /// A click waiter ended, or did not start.
    pub fn waiter_ended(&mut self, id: u32)
        ensures
            final(self)@ == (ShownModel { waiting: old(self)@.waiting.remove(id), ..old(self)@ }),
    {
        self.waiting.remove(&id);
    }

    /// The chat that an action on a notification opens.
    pub fn clicked(&self, action: &str, id: u32) -> (r: Option<NotifyKey>)
        ensures
            r.deep_view() == (if action@ == OPEN_ACTION@ {
                self@.keys.get(id)
            } else {
                None
            }),
    {
        if !same_text(action, OPEN_ACTION) {
            return None;
        }
        match self.keys.get(&id) {
            Some(chat) => Some(NotifyKey { protocol: chat.0, conversation_id: chat.1.clone() }),
            None => None,
        }
    }

    /// A chat is dismissed. The server id that closes, if one shows.
    pub fn dismissed(&mut self, key: &NotifyKey) -> (r: Option<u32>)
        ensures
            r == old(self)@.ids.get(key.chat()),
            final(self)@ == old(self)@.dismissed(key.chat()),
    {
        match self.ids.remove(&(key.protocol, key.conversation_id.clone())) {
            Some(id) => {
                self.keys.remove(&id);
                Some(id)
            },
            None => {
                proof {
                    assert(old(self)@.ids.remove(key.chat()) =~= old(self)@.ids);
                }
                None
            },
        }
    }
}

/// A shown chat opens on a click, under the id that replaces it, until it is
/// dismissed.
pub proof fn law_click_opens_the_shown_chat(shown: ShownModel, chat: ChatId, id: u32)
    ensures
        shown.showing(chat, id).ids.get(chat) == Some(id),
        shown.showing(chat, id).keys.get(id) == Some(chat),
        shown.showing(chat, id).dismissed(chat).keys.get(id) == None::<ChatId>,
        shown.showing(chat, id).dismissed(chat).ids.get(chat) == None::<u32>,
{
}

/// A notification of one chat leaves the others: they keep their ids, and their
/// clicks open them, unless the server gave their id away.
pub proof fn law_chats_are_shown_apart(
    shown: ShownModel,
    chat: ChatId,
    id: u32,
    other: ChatId,
    other_id: u32,
)
    requires
        other != chat,
        other_id != id,
    ensures
        shown.showing(chat, id).ids.get(other) == shown.ids.get(other),
        shown.showing(chat, id).keys.get(other_id) == shown.keys.get(other_id),
        shown.showing(chat, id).waiting.contains(id),
        shown.showing(chat, id).waiting.contains(other_id) == shown.waiting.contains(other_id),
        shown.dismissed(chat).ids.get(other) == shown.ids.get(other),
        shown.dismissed(chat).waiting == shown.waiting,
        shown.ids.get(chat) == Some(id) ==> shown.dismissed(chat).keys.get(other_id)
            == shown.keys.get(other_id),
        shown.ids.get(chat).is_none() ==> shown.dismissed(chat) == shown,
{
}

} // verus!
