//! Events of the adapters: link states, chats, messages, and answers.

use crate::keyed::KeyMap;
use crate::lists::{position, retain, sort_ranked};
use crate::protocol::{
    AccountState, AdapterEvent, AdapterStatus, ChatId, ChatMessage, Conversation, MessageModel,
    ProtocolId, TelegramAuthError, TelegramCodeVia, name_of,
};
use crate::state::model::{
    AccountModel, SnapshotModel, chat_is, chat_is_not, message_is_not, message_not_in,
    upserted_chat, upserted_message,
};
use crate::state::sending::message_at;
use crate::state::{
    AuthScreen, FocusFollow, Mark, OlderTry, Resume, SignalScreen, Snapshot, WhatsAppScreen,
};
use vstd::prelude::*;
use vstd::string::*;

verus! {

/// Where the chat row with this id stands.
fn chat_at(list: &Vec<Conversation>, id: &String) -> (r: Option<usize>)
    ensures
        match r {
            Some(i) => i < list.len() && crate::state::model::find_index(
                list.deep_view(),
                chat_is(id@),
            ) == Some(i as int) && crate::lists::first_index(list.deep_view(), chat_is(id@)) == i,
            None => crate::state::model::find_index(list.deep_view(), chat_is(id@))
                == None::<int> && crate::lists::first_index(list.deep_view(), chat_is(id@))
                == list.len(),
        },
{
    position(
        list,
        |row: &Conversation| -> (b: bool)
            ensures b == chat_is(id@)(row.deep_view())
            { row.id == *id },
        Ghost(chat_is(id@)),
    )
}

/// Put a chat row in place of the row of its id, or at the end.
fn upsert_chat(list: &mut Vec<Conversation>, row: Conversation)
    ensures
        final(list).deep_view() == upserted_chat(old(list).deep_view(), row.deep_view()),
{
    let ghost before = list.deep_view();
    let ghost model = row.deep_view();
    match chat_at(list, &row.id) {
        Some(i) => {
            list[i] = row;
            assert(list.deep_view() =~= before.update(i as int, model));
        },
        None => {
            list.push(row);
            assert(list.deep_view() =~= before.push(model));
        },
    }
}

/// Put a message in place of the message of its id, or at the end.
fn upsert_row(list: &mut Vec<ChatMessage>, row: ChatMessage)
    ensures
        final(list).deep_view() == upserted_message(old(list).deep_view(), row.deep_view()),
{
    let ghost before = list.deep_view();
    let ghost model = row.deep_view();
    match message_at(list, row.id.as_str()) {
        Some(i) => {
            list[i] = row;
            assert(list.deep_view() =~= before.update(i as int, model));
        },
        None => {
            list.push(row);
            assert(list.deep_view() =~= before.push(model));
        },
    }
}

impl Snapshot {
    /// Stop the loading marks of one protocol: of one chat, or of all.
    pub(crate) fn stop_spinners(&mut self, protocol: ProtocolId, chat: Option<&str>)
        ensures
            final(self)@ == old(self)@.without_spinners(protocol, chat.deep_view()),
    {
        proof {
            reveal(SnapshotModel::without_spinners);
        }
        match chat {
            Some(chat) => {
                self.history_loading.remove(&(protocol, chat.to_owned()));
                self.older_loading.remove(&(protocol, chat.to_owned()));
            },
            None => {
                self.chat_list_loading.remove(&protocol);
                self.history_loading.drop_owner(protocol);
                self.older_loading.drop_owner(protocol);
            },
        }
    }

    /// Note the status line of an account.
    fn note_status(&mut self, protocol: ProtocolId, status: AdapterStatus, detail: &String)
        ensures
            final(self)@ == old(self)@.status_noted(protocol, status, detail@),
    {
        if let Some(i) = self.account_at(protocol) {
            let ghost before = self@.accounts;
            let ghost row = self.accounts@[i as int];
            self.accounts[i].status = status;
            self.accounts[i].detail = detail.clone();
            proof {
                assert(before[i as int] == row.deep_view());
                assert(self@.accounts =~= before.update(
                    i as int,
                    AccountModel { status, detail: detail@, ..before[i as int] },
                ));
            }
        }
    }

    /// The Telegram status line reaches the chrome.
    fn show_telegram_status(&mut self, status: AdapterStatus, detail: String)
        ensures
            final(self)@ == old(self)@.telegram_status_shown(status, detail@),
    {
        let bad = status == AdapterStatus::Error || status == AdapterStatus::Refused;
        if status == AdapterStatus::Ready {
            self.ready_status = Some(detail.clone());
        } else {
            self.ready_status = None;
        }
        self.status_text = detail;
        if bad {
            if self.auth != AuthScreen::Idle {
                self.auth_busy = false;
            }
            self.resume = Resume::Settled;
        }
    }

    /// An adapter reported its status. It is the status line only: it never
    /// changes the link state, so a recoverable error does not hide the inbox.
    fn apply_status(&mut self, protocol: ProtocolId, status: AdapterStatus, detail: String)
        ensures
            final(self)@ == old(self)@.with_adapter_status(protocol, status, detail@),
    {
        proof {
            reveal(SnapshotModel::with_adapter_status);
        }
        let bad = status == AdapterStatus::Error || status == AdapterStatus::Refused;
        self.note_status(protocol, status, &detail);
        if bad {
            // A failed load does not send its end event. Stop the spinners.
            self.stop_spinners(protocol, None);
            if self.build.signal_local && protocol == ProtocolId::Signal && self.signal_started
                && !self.protocol_linked(ProtocolId::Signal) {
                self.set_error(
                    "Signal linking failed.",
                    detail.as_str(),
                    "Start linking again.",
                );
            }
        }
        if protocol == ProtocolId::Telegram && (bad || status == AdapterStatus::Ready) {
            self.show_telegram_status(status, detail);
        }
    }

    /// Put a chat row into the list of its protocol, in order.
    fn put_chat(&mut self, row: Conversation)
        ensures
            final(self)@ == old(self)@.chat_put(row.deep_view()),
    {
        let protocol = row.protocol;
        let mut list: Vec<Conversation> = match self.conversations.remove(&protocol) {
            Some(rows) => rows,
            None => Vec::new(),
        };
        proof {
            assert(list.deep_view() =~= old(self)@.rows(protocol));
        }
        let watched = self.selected_protocol == protocol;
        let before = match &self.selected_conversation {
            Some(id) => chat_at(&list, id),
            None => None,
        };
        upsert_chat(&mut list, row);
        sort_ranked(&mut list);
        let after = match &self.selected_conversation {
            Some(id) => chat_at(&list, id),
            None => None,
        };
        let moved = watched && match before {
            Some(was_at) => match after {
                Some(now_at) => was_at != now_at,
                None => true,
            },
            None => false,
        };
        proof {
            let m = old(self)@.conversations;
            assert(m.remove(protocol).insert(protocol, list.deep_view()) =~= m.insert(
                protocol,
                list.deep_view(),
            ));
        }
        self.conversations.insert(protocol, list);
        if moved {
            self.marks.insert(Mark::ScrollToSelected);
        }
    }

    /// A chat row came or changed.
    fn upsert_conversation(&mut self, row: Conversation)
        ensures
            final(self)@ == old(self)@.upserting_chat(row.deep_view()),
    {
        proof {
            reveal(SnapshotModel::upserting_chat);
        }
        self.put_chat(row);
        self.ensure_conversation_selection();
        self.sync_focused_row(FocusFollow::List);
    }

    /// Drop a chat row with its messages, its draft, and its paging.
    fn drop_chat(&mut self, protocol: ProtocolId, id: &String)
        ensures
            final(self)@ == old(self)@.chat_dropped((protocol, id@)),
    {
        if let Some(rows) = self.conversations.remove(&protocol) {
            let mut list = rows;
            retain(
                &mut list,
                |row: &Conversation| -> (b: bool)
                    ensures b == chat_is_not(id@)(row.deep_view())
                    { row.id != *id },
                Ghost(chat_is_not(id@)),
            );
            proof {
                let m = old(self)@.conversations;
                assert(m.remove(protocol).insert(protocol, list.deep_view()) =~= m.insert(
                    protocol,
                    list.deep_view(),
                ));
            }
            self.conversations.insert(protocol, list);
        } else {
            assert(old(self)@.conversations.remove(protocol) =~= old(self)@.conversations);
        }
        let key = (protocol, id.clone());
        self.messages.remove(&key);
        self.drafts.remove(&key);
        self.rejected_bodies.remove(&key);
        if protocol == ProtocolId::Telegram {
            self.older_loading.remove(&key);
            self.older_at_start.remove(id);
            self.older_retry.remove(id);
        }
    }

    /// No chat is selected and the compose field is empty.
    fn free_selection(&mut self)
        ensures
            final(self)@ == (SnapshotModel {
                compose: Seq::empty(),
                selected_conversation: None,
                ..old(self)@
            }),
    {
        self.compose = String::new();
        self.selected_conversation = None;
    }

    /// A chat was removed: it loses its draft, selected or not.
    fn remove_conversation(&mut self, protocol: ProtocolId, id: &String)
        ensures
            final(self)@ == old(self)@.removing_chat((protocol, id@)),
    {
        proof {
            reveal(SnapshotModel::removing_chat);
        }
        let selected = self.is_selected_chat(protocol, id.as_str());
        self.drop_chat(protocol, id);
        if selected {
            self.free_selection();
            self.ensure_conversation_selection();
        }
        self.sync_focused_row(FocusFollow::List);
    }

    /// A message came or changed.
    fn upsert_message(&mut self, row: ChatMessage)
        ensures
            final(self)@ == old(self)@.upserting_message(row.deep_view()),
    {
        let key = (row.protocol, row.conversation_id.clone());
        let ghost chat = key.deep_view();
        let mut list: Vec<ChatMessage> = match self.messages.remove(&key) {
            Some(rows) => rows,
            None => Vec::new(),
        };
        proof {
            assert(list.deep_view() =~= old(self)@.thread(chat));
        }
        upsert_row(&mut list, row);
        sort_ranked(&mut list);
        proof {
            let m = old(self)@.messages;
            assert(m.remove(chat).insert(chat, list.deep_view()) =~= m.insert(
                chat,
                list.deep_view(),
            ));
        }
        self.messages.insert(key, list);
    }

    /// Drop one message of a chat.
    fn remove_message(&mut self, protocol: ProtocolId, chat: &str, id: &String)
        ensures
            final(self)@ == old(self)@.thinning((protocol, chat@), message_is_not(id@)),
    {
        proof {
            reveal(SnapshotModel::thinning);
        }
        let key = (protocol, chat.to_owned());
        let ghost chat_id = key.deep_view();
        if let Some(rows) = self.messages.remove(&key) {
            let mut list = rows;
            retain(
                &mut list,
                |row: &ChatMessage| -> (b: bool)
                    ensures b == message_is_not(id@)(row.deep_view())
                    { row.id != *id },
                Ghost(message_is_not(id@)),
            );
            proof {
                let m = old(self)@.messages;
                assert(m.remove(chat_id).insert(chat_id, list.deep_view()) =~= m.insert(
                    chat_id,
                    list.deep_view(),
                ));
            }
            self.messages.insert(key, list);
        } else {
            assert(old(self)@.messages.remove(chat_id) =~= old(self)@.messages);
        }
    }

    /// Drop these messages of a chat.
    fn remove_messages(&mut self, protocol: ProtocolId, chat: &str, ids: &Vec<String>)
        ensures
            final(self)@ == old(self)@.thinning(
                (protocol, chat@),
                message_not_in(ids.deep_view()),
            ),
    {
        proof {
            reveal(SnapshotModel::thinning);
        }
        let key = (protocol, chat.to_owned());
        let ghost chat_id = key.deep_view();
        if let Some(rows) = self.messages.remove(&key) {
            let mut list = rows;
            retain(
                &mut list,
                |row: &ChatMessage| -> (b: bool)
                    ensures b == message_not_in(ids.deep_view())(row.deep_view())
                    { !text_in(ids, &row.id) },
                Ghost(message_not_in(ids.deep_view())),
            );
            proof {
                let m = old(self)@.messages;
                assert(m.remove(chat_id).insert(chat_id, list.deep_view()) =~= m.insert(
                    chat_id,
                    list.deep_view(),
                ));
            }
            self.messages.insert(key, list);
        } else {
            assert(old(self)@.messages.remove(chat_id) =~= old(self)@.messages);
        }
    }

    /// A message got another text.
    fn patch_message_body(&mut self, protocol: ProtocolId, chat: &str, id: &str, body: String)
        ensures
            final(self)@ == old(self)@.patching((protocol, chat@), id@, body@),
    {
        proof {
            reveal(SnapshotModel::patching);
        }
        let key = (protocol, chat.to_owned());
        let at = match self.thread_of(protocol, chat) {
            Some(rows) => message_at(rows, id),
            None => None,
        };
        if let Some(i) = at {
            if let Some(rows) = self.messages.remove(&key) {
                let mut rows = rows;
                let ghost before = rows.deep_view();
                let ghost row = rows@[i as int];
                let ghost text = body@;
                rows[i].body = body;
                proof {
                    assert(rows.deep_view() =~= before.update(
                        i as int,
                        MessageModel { body: text, ..row.deep_view() },
                    ));
                    let m = old(self)@.messages;
                    assert(m.remove(key.deep_view()).insert(key.deep_view(), rows.deep_view())
                        =~= m.insert(key.deep_view(), rows.deep_view()));
                }
                self.messages.insert(key, rows);
            }
        }
    }

    /// How often this anchor brought nothing older, with this time.
    fn tries_of(&self, chat: &String, before: &String) -> (r: u32)
        ensures
            r == self@.next_tries(chat@, before@),
    {
        match self.older_retry.get(chat) {
            Some(last) => if last.anchor == *before {
                last.tries.saturating_add(1)
            } else {
                1
            },
            None => 1,
        }
    }

    /// A page of older messages ended. An anchor that brought nothing older
    /// waits, and a repeat on the same anchor waits longer.
    fn older_loaded(&mut self, protocol: ProtocolId, chat: &String, before: String, more: bool, now: u64)
        ensures
            final(self)@ == old(self)@.older_loaded((protocol, chat@), before@, more, now),
    {
        proof {
            reveal(SnapshotModel::older_loaded);
        }
        if protocol != ProtocolId::Telegram && protocol != ProtocolId::Signal {
            return ;
        }
        let nothing_older = match self.thread_of(protocol, chat.as_str()) {
            Some(rows) => {
                proof {
                    assert(rows.deep_view().len() == rows.len());
                    if rows.len() > 0 {
                        assert(rows.deep_view()[0] == rows@[0].deep_view());
                    }
                }
                rows.len() > 0 && rows[0].id == before
            },
            None => false,
        };
        let tries: u32 = self.tries_of(chat, &before);
        self.older_loading.remove(&(protocol, chat.clone()));
        if !more {
            self.older_at_start.insert(chat.clone());
        }
        if more && nothing_older {
            self.older_retry.insert(chat.clone(), OlderTry { anchor: before, at: now, tries });
        } else {
            self.older_retry.remove(chat);
        }
    }

    /// WhatsApp linked: close the pair screen that the user started and drop
    /// the pairing codes. A reconnect also links; it must not close a gate
    /// that the user just opened.
    fn finish_whatsapp_link(&mut self)
        ensures
            final(self)@ == old(self)@.whatsapp_linked(),
    {
        proof {
            reveal(SnapshotModel::whatsapp_linked);
        }
        if !self.whatsapp_started || self.whatsapp_screen != WhatsAppScreen::Pair {
            return ;
        }
        self.whatsapp_screen = WhatsAppScreen::Hidden;
        self.end_pairing();
        self.whatsapp_phone = String::new();
    }

    /// Signal linked: leave the link screen.
    pub fn finish_signal_link(&mut self)
        ensures
            final(self)@ == old(self)@.signal_linked(),
    {
        proof {
            reveal(SnapshotModel::signal_linked);
        }
        if self.signal_screen == SignalScreen::Hidden {
            return ;
        }
        self.signal_screen = SignalScreen::Hidden;
        self.pairing_generation = None;
        self.signal_qr = None;
        self.status_text = "Signal is linked on this local build.".to_owned();
        self.select_protocol(ProtocolId::Signal);
    }

    /// The session of a linked protocol starts.
    fn start_session(&mut self, protocol: ProtocolId)
        ensures
            final(self)@ == old(self)@.session_started(protocol),
    {
        proof {
            reveal(SnapshotModel::session_started);
        }
        self.put_state(protocol, AccountState::Linked);
        self.sessions.insert(protocol);
    }

    /// Show the first linked account, or the linked one while nothing useful
    /// is selected.
    fn show_link(&mut self, protocol: ProtocolId, first: bool)
        ensures
            final(self)@ == old(self)@.link_shown(protocol, first),
    {
        proof {
            reveal(SnapshotModel::link_shown);
        }
        if first || !self.protocol_linked(self.selected_protocol) {
            self.select_protocol(protocol);
        }
        // A chat that was opened before the link did not load: load it now.
        let waiting = match &self.open_on_link {
            Some(chat) => chat.0 == protocol && self.is_selected_chat(chat.0, chat.1.as_str()),
            None => false,
        };
        if waiting {
            self.queue_open_chat();
        }
    }

    /// The account of a protocol is linked now: its session starts.
    fn link_account(&mut self, protocol: ProtocolId)
        ensures
            final(self)@ == old(self)@.linking(protocol),
    {
        proof {
            reveal(SnapshotModel::linking);
        }
        let first = !self.any_linked();
        self.start_session(protocol);
        self.show_link(protocol, first);
        if protocol == ProtocolId::WhatsApp && self.build.whatsapp_web {
            self.finish_whatsapp_link();
        } else if protocol == ProtocolId::Signal && self.build.signal_local {
            self.finish_signal_link();
        }
    }

    /// The link state of a protocol, or unlinked when it has no row.
    fn state_of(&self, protocol: ProtocolId) -> (r: AccountState)
        ensures
            r == self@.state_of(protocol),
    {
        match self.account_at(protocol) {
            Some(i) => self.accounts[i].state,
            None => AccountState::Unlinked,
        }
    }

    /// New link state of one protocol. `Linked` starts a session. `Linking`
    /// after it is a reconnect: the session, its rows, and its open sends
    /// stay. `Unlinked` from any other state ends the session.
    pub(crate) fn set_account(&mut self, protocol: ProtocolId, state: AccountState)
        ensures
            final(self)@ == old(self)@.with_account(protocol, state),
    {
        proof {
            reveal(SnapshotModel::with_account);
        }
        match state {
            AccountState::Linked => self.link_account(protocol),
            AccountState::Linking => self.put_state(protocol, AccountState::Linking),
            AccountState::Unlinked => {
                let ends = self.has_session(protocol) || self.state_of(protocol)
                    != AccountState::Unlinked;
                self.put_state(protocol, AccountState::Unlinked);
                if ends {
                    self.end_session(protocol);
                } else if self.build.signal_local && protocol == ProtocolId::Signal
                    && self.signal_started {
                    self.signal_started = false;
                    self.signal_qr = None;
                }
            },
        }
    }

    /// The rejected texts of a protocol that are still in their chats.
    fn texts_to_keep(&self, protocol: ProtocolId) -> (r: KeyMap<(ProtocolId, String), String>)
        ensures
            r.deep_view() == self@.kept_texts(protocol),
    {
        let mut kept: KeyMap<(ProtocolId, String), String> = KeyMap::new();
        if protocol == ProtocolId::Telegram {
            assert(kept.deep_view() =~= self@.kept_texts(protocol));
            return kept;
        }
        let n = self.rejected_bodies.len();
        let ghost rows = self.rejected_bodies.rows_model();
        let mut i: usize = 0;
        while i < n
            invariant
                i <= n,
                n == rows.len(),
                protocol != ProtocolId::Telegram,
                rows == self.rejected_bodies.rows_model(),
                crate::keyed::rows_are_map(rows, self@.rejected_bodies),
                forall|k: ChatId| #[trigger]
                    kept.deep_view().contains_key(k) ==> self@.keeps_text(protocol, k)
                        && kept.deep_view()[k] == self@.kept_text(k).unwrap(),
                forall|j: int|
                    0 <= j < i ==> self@.keeps_text(protocol, (#[trigger] rows[j]).0)
                        ==> kept.deep_view().contains_key(rows[j].0),
            decreases n - i,
        {
            let key = self.rejected_bodies.row(i).0;
            proof {
                assert(rows[i as int].0 == key.deep_view());
                assert(self@.rejected_bodies.contains_key(rows[i as int].0));
            }
            if key.0 == protocol {
                if let Some(text) = self.text_to_keep(protocol, key.1.as_str()) {
                    kept.insert((protocol, key.1.clone()), text);
                }
            }
            i = i + 1;
        }
        proof {
            assert forall|k: ChatId| kept.deep_view().contains_key(k) == self@.kept_texts(
                protocol,
            ).contains_key(k) by {
                if self@.keeps_text(protocol, k) {
                    assert(self@.rejected_bodies.contains_key(k));
                    let j = choose|j: int| 0 <= j < rows.len() && (#[trigger] rows[j]).0 == k;
                    assert(self@.keeps_text(protocol, rows[j].0));
                }
            }
            assert(kept.deep_view() =~= self@.kept_texts(protocol));
        }
        kept
    }

    /// Drop the drafts of a protocol, except the texts that stay.
    fn keep_drafts(&mut self, protocol: ProtocolId, kept: &KeyMap<(ProtocolId, String), String>)
        requires
            forall|k: ChatId| #[trigger] kept.deep_view().contains_key(k) ==> k.0 == protocol,
        ensures
            final(self)@ == (SnapshotModel {
                drafts: crate::keyed::without_owner(
                    old(self)@.drafts,
                    protocol,
                ).union_prefer_right(kept.deep_view()),
                ..old(self)@
            }),
    {
        self.drafts.drop_owner(protocol);
        let ghost start = self@.drafts;
        let n = kept.len();
        let ghost rows = kept.rows_model();
        let mut i: usize = 0;
        while i < n
            invariant
                i <= n,
                n == rows.len(),
                rows == kept.rows_model(),
                crate::keyed::rows_are_map(rows, kept.deep_view()),
                self@ == (SnapshotModel { drafts: self@.drafts, ..old(self)@ }),
                forall|k: ChatId| #[trigger]
                    self@.drafts.contains_key(k) ==> start.contains_key(k)
                        || kept.deep_view().contains_key(k),
                forall|k: ChatId| #[trigger]
                    start.contains_key(k) && !kept.deep_view().contains_key(k)
                        ==> self@.drafts.contains_key(k) && self@.drafts[k] == start[k],
                forall|j: int|
                    0 <= j < i ==> self@.drafts.contains_key((#[trigger] rows[j]).0)
                        && self@.drafts[rows[j].0] == rows[j].1,
            decreases n - i,
        {
            let row = kept.row(i);
            proof {
                assert(kept.deep_view().contains_key(rows[i as int].0));
                assert forall|j: int| 0 <= j < i implies (#[trigger] rows[j]).0
                    != rows[i as int].0 by {}
            }
            self.drafts.insert((row.0.0, row.0.1.clone()), row.1.clone());
            i = i + 1;
        }
        proof {
            let want = start.union_prefer_right(kept.deep_view());
            assert forall|k: ChatId| self@.drafts.contains_key(k) == want.contains_key(k) by {
                if kept.deep_view().contains_key(k) {
                    let j = choose|j: int| 0 <= j < rows.len() && (#[trigger] rows[j]).0 == k;
                    assert(self@.drafts.contains_key(rows[j].0));
                }
            }
            assert forall|k: ChatId| self@.drafts.contains_key(k) implies self@.drafts[k]
                == want[k] by {
                if kept.deep_view().contains_key(k) {
                    let j = choose|j: int| 0 <= j < rows.len() && (#[trigger] rows[j]).0 == k;
                    assert(self@.drafts[rows[j].0] == rows[j].1);
                }
            }
            assert(self@.drafts =~= want);
        }
    }

    /// Drop the rows and the texts of one protocol, except the texts that stay.
    fn drop_rows(&mut self, protocol: ProtocolId)
        ensures
            final(self)@ == old(self)@.rows_dropped(protocol),
    {
        proof {
            reveal(SnapshotModel::rows_dropped);
        }
        let kept = self.texts_to_keep(protocol);
        self.put_state(protocol, AccountState::Unlinked);
        self.sessions.remove(&protocol);
        self.conversations.remove(&protocol);
        self.rejected_bodies.drop_owner(protocol);
        self.keep_drafts(protocol, &kept);
        self.messages.drop_owner(protocol);
    }

    /// Drop the spinners, the note, and the open sends of one protocol.
    fn drop_work(&mut self, protocol: ProtocolId)
        ensures
            final(self)@ == old(self)@.work_dropped(protocol),
    {
        proof {
            reveal(SnapshotModel::work_dropped);
        }
        self.history_loading.drop_owner(protocol);
        self.chat_list_loading.remove(&protocol);
        self.notices.remove(&protocol);
        self.sends.drop_protocol(protocol);
        self.older_loading.drop_owner(protocol);
        if protocol == ProtocolId::Telegram {
            self.older_at_start.clear();
            self.older_retry.clear();
        }
    }

    /// Drop what one protocol had, except the texts that stay.
    fn drop_session(&mut self, protocol: ProtocolId)
        ensures
            final(self)@ == old(self)@.session_dropped(protocol),
    {
        proof {
            reveal(SnapshotModel::session_dropped);
        }
        self.drop_rows(protocol);
        self.drop_work(protocol);
        if protocol == ProtocolId::WhatsApp && self.build.whatsapp_web {
            self.end_pairing();
        }
    }

    /// The session of one protocol ended: its rows, messages, spinners, notes,
    /// and sends go, and another linked protocol takes the selection. Drafts
    /// of this protocol go too, except a rejected text that is still in its
    /// chat. A Telegram session end drops those as well.
    pub(crate) fn end_session(&mut self, protocol: ProtocolId)
        ensures
            final(self)@ == old(self)@.ending(protocol),
    {
        proof {
            reveal(SnapshotModel::ending);
        }
        let selected = self.selected_protocol == protocol;
        self.drop_session(protocol);
        if selected {
            self.free_selection();
            if let Some(next) = self.first_shown_session() {
                self.select_protocol(next);
            }
        }
    }

    /// One command failed; the session is still up. Stop its spinner and show
    /// the error. The rows, the selection, the link state, and any send in
    /// flight stay.
    fn command_failed(&mut self, protocol: ProtocolId, chat: Option<&str>, detail: &str)
        ensures
            final(self)@ == old(self)@.without_spinners(protocol, chat.deep_view()).with_error(
                name_of(protocol) + ": the last action did not finish."@,
                detail@,
                "Try again. The inbox stays open."@,
            ),
    {
        self.stop_spinners(protocol, chat);
        let mut happened = protocol.display_name().to_owned();
        happened.append(": the last action did not finish.");
        self.set_error(happened.as_str(), detail, "Try again. The inbox stays open.");
    }

    /// A message came.
    fn receive(&mut self, message: ChatMessage)
        ensures
            final(self)@ == old(self)@.receiving(message.deep_view()),
    {
        proof {
            reveal(SnapshotModel::receiving);
        }
        let before = self.delivery_of(
            message.protocol,
            message.conversation_id.as_str(),
            message.id.as_str(),
        );
        self.note_delivery(before, &message);
        self.upsert_message(message);
    }

    /// A message got its final id.
    fn replace(&mut self, protocol: ProtocolId, chat: &str, old_id: &String, message: ChatMessage)
        ensures
            final(self)@ == old(self)@.replacing(
                (protocol, chat@),
                old_id@,
                message.deep_view(),
            ),
    {
        proof {
            reveal(SnapshotModel::replacing);
        }
        let before = self.delivery_of(protocol, chat, old_id.as_str());
        self.note_delivery(before, &message);
        if protocol == message.protocol {
            self.remove_message(protocol, chat, old_id);
        }
        self.upsert_message(message);
    }

    /// The pairing that runs now has this id.
    fn current_pairing(&self, generation: u64) -> (r: bool)
        ensures
            r == (self@.pairing_generation == Some(generation)),
    {
        match self.pairing_generation {
            Some(current) => current == generation,
            None => false,
        }
    }

    /// The chat list is loaded: stop its spinner.
    fn end_list_load(&mut self, protocol: ProtocolId)
        ensures
            final(self)@ == old(self)@.list_loaded(protocol),
    {
        proof {
            reveal(SnapshotModel::list_loaded);
        }
        self.chat_list_loading.remove(&protocol);
    }

    /// The history of a chat is loaded: stop its spinner.
    fn end_history_load(&mut self, protocol: ProtocolId, chat: String)
        ensures
            final(self)@ == old(self)@.history_loaded((protocol, chat@)),
    {
        proof {
            reveal(SnapshotModel::history_loaded);
        }
        self.history_loading.remove(&(protocol, chat));
    }

    /// Keep the note of a protocol.
    fn note_notice(&mut self, protocol: ProtocolId, text: String)
        ensures
            final(self)@ == old(self)@.noticed(protocol, text@),
    {
        proof {
            reveal(SnapshotModel::noticed);
        }
        self.notices.insert(protocol, text);
    }

    /// The adapter of a protocol stopped.
    fn note_stopped(&mut self, protocol: ProtocolId)
        ensures
            final(self)@ == old(self)@.adapter_stopped(protocol),
    {
        proof {
            reveal(SnapshotModel::adapter_stopped);
        }
        self.stopped.insert(protocol);
    }

    /// Ask for a keychain write.
    fn ask_flush(&mut self)
        ensures
            final(self)@ == old(self)@.flush_asked(),
    {
        proof {
            reveal(SnapshotModel::flush_asked);
        }
        self.marks.insert(Mark::KeychainFlush);
    }

    /// Keep why Telegram refused a step.
    fn note_rejection(&mut self, error: TelegramAuthError)
        ensures
            final(self)@ == old(self)@.step_rejected(error),
    {
        proof {
            reveal(SnapshotModel::step_rejected);
        }
        self.auth_rejection = Some(error);
    }

    /// Keep where Telegram sent the code.
    fn note_code(&mut self, via: TelegramCodeVia)
        ensures
            final(self)@ == old(self)@.code_sent(via),
    {
        proof {
            reveal(SnapshotModel::code_sent);
        }
        self.code_via = Some(via);
    }

    /// Keep where the old Telegram data went.
    fn note_data_reset(&mut self, moved_to: String)
        ensures
            final(self)@ == old(self)@.data_moved(moved_to@),
    {
        proof {
            reveal(SnapshotModel::data_moved);
        }
        self.data_reset = Some(moved_to);
    }

    /// Show a WhatsApp code picture of the pairing that runs now.
    fn show_whatsapp_qr(&mut self, code: &str, generation: u64)
        ensures
            final(self)@ == old(self)@.whatsapp_qr_shown(code@, generation),
    {
        proof {
            reveal(SnapshotModel::whatsapp_qr_shown);
        }
        if self.build.whatsapp_web && self.current_pairing(generation) {
            self.whatsapp_qr = Some(code.to_owned());
        }
    }

    /// Show a WhatsApp pair code of the pairing that runs now.
    fn show_whatsapp_code(&mut self, code: &str, generation: u64)
        ensures
            final(self)@ == old(self)@.whatsapp_code_shown(code@, generation),
    {
        proof {
            reveal(SnapshotModel::whatsapp_code_shown);
        }
        if self.build.whatsapp_web && self.current_pairing(generation) {
            self.whatsapp_pair_code = Some(code.to_owned());
        }
    }

    /// Show a Signal code picture of the pairing that runs now.
    fn show_signal_qr(&mut self, code: &str, generation: u64)
        ensures
            final(self)@ == old(self)@.signal_qr_shown(code@, generation),
    {
        proof {
            reveal(SnapshotModel::signal_qr_shown);
        }
        if self.build.signal_local && self.current_pairing(generation) {
            self.signal_qr = Some(code.to_owned());
        }
    }

    /// Apply one adapter event. An inbox event of a protocol with no session
    /// is from a cancelled or ended client: it is dropped.
    pub fn apply(&mut self, event: AdapterEvent, now: u64)
        ensures
            final(self)@ == old(self)@.applied(event, now),
    {
        proof {
            reveal(SnapshotModel::applied);
        }
        if let Some(protocol) = event.inbox_protocol() {
            if !self.has_session(protocol) {
                return ;
            }
        }
        self.apply_kept(event, now);
    }

    /// Apply one adapter event that is not dropped.
    fn apply_kept(&mut self, event: AdapterEvent, now: u64)
        ensures
            final(self)@ == old(self)@.applied_kept(event, now),
    {
        proof {
            reveal(SnapshotModel::applied_kept);
        }
        match event {
            AdapterEvent::Status { protocol, status, detail } => self.apply_status(
                protocol,
                status,
                detail,
            ),
            AdapterEvent::Account { protocol, state } => self.set_account(protocol, state),
            AdapterEvent::ConversationUpsert { conversation } => self.upsert_conversation(
                conversation,
            ),
            AdapterEvent::ConversationRemoved { protocol, id } => self.remove_conversation(
                protocol,
                &id,
            ),
            AdapterEvent::MessageReceived { message } => self.receive(message),
            AdapterEvent::MessageReplaced { protocol, conversation_id, old_id, message } =>
                self.replace(protocol, conversation_id.as_str(), &old_id, message),
            AdapterEvent::MessageBody { protocol, conversation_id, message_id, body } =>
                self.patch_message_body(
                protocol,
                conversation_id.as_str(),
                message_id.as_str(),
                body,
            ),
            AdapterEvent::MessagesRemoved { protocol, conversation_id, message_ids } =>
                self.remove_messages(protocol, conversation_id.as_str(), &message_ids),
            AdapterEvent::MessageDelivery { protocol, conversation_id, message_id, delivery } =>
                self.set_delivery(
                protocol,
                conversation_id.as_str(),
                message_id.as_str(),
                delivery,
            ),
            AdapterEvent::SendAccepted { protocol, conversation_id, request } =>
                self.note_send_accepted(protocol, conversation_id.as_str(), request),
            AdapterEvent::SendRejected { protocol, conversation_id, request } =>
                self.fail_unaccepted_send(protocol, conversation_id.as_str(), request),
            AdapterEvent::ChatListLoaded { protocol } => self.end_list_load(protocol),
            AdapterEvent::HistoryLoaded { protocol, conversation_id } => self.end_history_load(
                protocol,
                conversation_id,
            ),
            AdapterEvent::OlderHistoryLoaded {
                protocol,
                conversation_id,
                before_message_id,
                more,
                ..
            } => self.older_loaded(protocol, &conversation_id, before_message_id, more, now),
            AdapterEvent::CommandFailed { protocol, conversation_id, detail } => {
                match &conversation_id {
                    Some(chat) => self.command_failed(
                        protocol,
                        Some(chat.as_str()),
                        detail.as_str(),
                    ),
                    None => self.command_failed(protocol, None, detail.as_str()),
                }
            },
            AdapterEvent::Notice { protocol, text } => self.note_notice(protocol, text),
            AdapterEvent::Stopped { protocol } => self.note_stopped(protocol),
            AdapterEvent::FlushSecrets => self.ask_flush(),
            AdapterEvent::TelegramAuth { phase } => self.apply_telegram_phase(phase),
            AdapterEvent::TelegramAuthRejected { error } => self.note_rejection(error),
            AdapterEvent::TelegramCodeSent { via } => self.note_code(via),
            AdapterEvent::TelegramDataReset { moved_to } => self.note_data_reset(moved_to),
            AdapterEvent::TelegramSessionEnded => self.end_telegram_session(),
            // The host unwraps stamped login events before they come here.
            AdapterEvent::Login { .. } => {},
            AdapterEvent::WhatsAppQr { code, generation } => self.show_whatsapp_qr(
                code.expose(),
                generation,
            ),
            AdapterEvent::WhatsAppPairCode { code, generation } => self.show_whatsapp_code(
                code.expose(),
                generation,
            ),
            AdapterEvent::SignalQr { code, generation } => self.show_signal_qr(
                code.expose(),
                generation,
            ),
        }
    }
}

/// The text is one of these.
fn text_in(texts: &Vec<String>, text: &String) -> (r: bool)
    ensures
        r == texts.deep_view().contains(text@),
{
    let mut i: usize = 0;
    while i < texts.len()
        invariant
            i <= texts.len(),
            forall|j: int| 0 <= j < i ==> #[trigger] texts.deep_view()[j] != text@,
        decreases texts.len() - i,
    {
        proof {
            assert(texts.deep_view()[i as int] == texts@[i as int]@);
        }
        if texts[i] == *text {
            return true;
        }
        i = i + 1;
    }
    false
}

} // verus!
