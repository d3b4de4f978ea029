//! Selection, drafts, the highlight, and what the shell shows.

use crate::lists::{first_index, lemma_filter_step, lemma_some_row, position, some_row};
use crate::protocol::{
    AdapterCommand, ChatMessage, Conversation, ConversationModel, ProtocolId, Text,
};
use crate::state::model::{
    AccountModel, SnapshotModel, account_is, capped_sum, chat_is, filter_matches, find, linked_is,
    loud_sum, opens, real_chat, real_chat_is, search_hits, sender_is, text_is, unread_sum,
};
use crate::state::{
    AccountRow, CenterView, FocusFollow, InboxFilter, InboxState, Mark, OlderState, Resume,
    Snapshot, AuthScreen, ThreadState, LOADING_CHATS_STATUS, LOADING_MESSAGES_STATUS,
    LOADING_OLDER_STATUS, SENDING_STATUS, older_wait, protocol_chrome_enabled, same_chat,
    same_option, tdlib_compiled,
};
use crate::text::{chars_contain, lowercase_chars, same_text, trimmed};
use vstd::prelude::*;
use vstd::string::*;

verus! {

impl Snapshot {
    /// Queue one command for the adapters.
    pub fn queue(&mut self, command: AdapterCommand)
        ensures
            final(self)@ == old(self)@.queue(command.deep_view()),
    {
        let ghost model = command.deep_view();
        self.pending.push(command);
        assert(self@.pending =~= old(self)@.pending.push(model));
    }

    /// Ask a client to connect.
    pub fn connect(&mut self, protocol: ProtocolId)
        ensures
            final(self)@ == old(self)@.connecting(protocol),
    {
        proof {
            reveal(SnapshotModel::connecting);
        }
        self.queue(AdapterCommand::Connect { protocol });
    }

    /// Close the error block.
    pub fn dismiss_error(&mut self)
        ensures
            final(self)@ == old(self)@.without_error(),
    {
        proof {
            reveal(SnapshotModel::without_error);
        }
        self.error = None;
    }

    /// The queued commands. The queue is empty afterwards.
    pub fn take_commands(&mut self) -> (r: Vec<AdapterCommand>)
        ensures
            r.deep_view() == old(self)@.pending,
            final(self)@ == (SnapshotModel { pending: Seq::empty(), ..old(self)@ }),
    {
        let mut taken: Vec<AdapterCommand> = Vec::new();
        std::mem::swap(&mut taken, &mut self.pending);
        assert(self@.pending =~= Seq::empty());
        taken
    }

    /// True once after the state asked for a keychain flush.
    pub fn take_keychain_flush(&mut self) -> (r: bool)
        ensures
            r == old(self)@.marks.contains(Mark::KeychainFlush),
            final(self)@ == old(self)@.unmarked(Mark::KeychainFlush),
    {
        let taken = self.marks.contains(&Mark::KeychainFlush);
        self.marks.remove(&Mark::KeychainFlush);
        taken
    }

    /// The account of this protocol is linked now.
    pub fn protocol_linked(&self, protocol: ProtocolId) -> (r: bool)
        ensures
            r == self@.linked(protocol),
    {
        position(
            &self.accounts,
            |row: &AccountRow| -> (b: bool)
                ensures b == linked_is(protocol)(row.deep_view())
                { row.caps.id == protocol && row.linked() },
            Ghost(linked_is(protocol)),
        ).is_some()
    }

    /// The account of this protocol is linked and its adapter sends text.
    pub(crate) fn protocol_sends_text(&self, protocol: ProtocolId) -> (r: bool)
        ensures
            r == self@.sends_text(protocol),
    {
        position(
            &self.accounts,
            |row: &AccountRow| -> (b: bool)
                ensures b == sender_is(protocol)(row.deep_view())
                { row.caps.id == protocol && row.linked() && row.caps.sends_text },
            Ghost(sender_is(protocol)),
        ).is_some()
    }

    /// Where the account row of this protocol stands.
    pub(crate) fn account_at(&self, protocol: ProtocolId) -> (r: Option<usize>)
        ensures
            r.is_some() == some_row(self@.accounts, account_is(protocol)),
            match r {
                Some(i) => i < self.accounts.len() && i == first_index(
                    self@.accounts,
                    account_is(protocol),
                ),
                None => first_index(self@.accounts, account_is(protocol)) == self.accounts.len(),
            },
    {
        position(
            &self.accounts,
            |row: &AccountRow| -> (b: bool)
                ensures b == account_is(protocol)(row.deep_view())
                { row.caps.id == protocol },
            Ghost(account_is(protocol)),
        )
    }

    /// A linked Telegram account.
    pub fn has_primary_account(&self) -> (r: bool)
        ensures
            r == self@.linked(ProtocolId::Telegram),
    {
        self.protocol_linked(ProtocolId::Telegram)
    }

    /// At least one visible protocol has a session: the shell shows the inbox.
    /// A reconnect keeps it shown.
    pub fn any_linked(&self) -> (r: bool)
        ensures
            r == self@.any_linked(),
    {
        self.first_shown_session().is_some()
    }

    /// The first visible account with a session.
    pub(crate) fn first_shown_session(&self) -> (r: Option<ProtocolId>)
        ensures
            r == (match find(self@.accounts, self@.shows_session()) {
                Some(row) => Some(row.id),
                None => None,
            }),
            r.is_some() == self@.any_linked(),
    {
        let at = position(
            &self.accounts,
            |row: &AccountRow| -> (b: bool)
                ensures b == self@.shows_session()(row.deep_view())
                { self.has_session(row.caps.id) && self.account_surface_visible(row.caps.id) },
            Ghost(self@.shows_session()),
        );
        match at {
            Some(i) => Some(self.accounts[i].caps.id),
            None => None,
        }
    }

    /// This protocol has a session: linked now, or reconnecting after it was.
    /// Its rows show, and its inbox events and send answers apply. New
    /// commands wait for the link.
    pub fn has_session(&self, protocol: ProtocolId) -> (r: bool)
        ensures
            r == self@.has_session(protocol),
    {
        self.protocol_linked(protocol) || self.sessions.contains(&protocol)
    }

    /// The last note of this protocol, if any. It is not an error.
    pub fn notice(&self, protocol: ProtocolId) -> (r: Option<&str>)
        ensures
            r.deep_view() == self@.notices.get(protocol),
    {
        match self.notices.get(&protocol) {
            Some(text) => Some(text.as_str()),
            None => None,
        }
    }

    /// Discord inbox chrome, when the build holds the bot inbox. It does not
    /// wait for a Telegram session.
    pub fn discord_inbox_visible(&self) -> (r: bool)
        ensures
            r == self@.build.discord_bot,
    {
        self.build.discord_bot
    }

    /// The protocol may appear in accounts and filters.
    pub fn account_surface_visible(&self, protocol: ProtocolId) -> (r: bool)
        ensures
            r == self@.shows(protocol),
    {
        self.extra_visible.contains(&protocol) || protocol_chrome_enabled(protocol, self.build)
    }

    /// The account chip of this protocol shows.
    pub fn shows_in_switcher(&self, protocol: ProtocolId) -> (r: bool)
        ensures
            r == (filter_matches(self@.filter, protocol) && self@.shows(protocol)),
    {
        self.filter.shows_in_switcher(protocol) && self.account_surface_visible(protocol)
    }

    /// What the center panel shows.
    pub fn center_view(&self) -> (r: CenterView)
        ensures
            r == self@.center(),
    {
        if self.auth != AuthScreen::Idle {
            return CenterView::Auth;
        }
        if self.any_linked() {
            return CenterView::Thread;
        }
        if self.marks.contains(&Mark::KeychainFailed) && !self.marks.contains(&Mark::KeychainRetry) {
            return CenterView::KeychainFailed;
        }
        match self.resume {
            Resume::Waiting => if tdlib_compiled(self.build) {
                CenterView::Resuming { connecting: false }
            } else {
                CenterView::FirstRun
            },
            Resume::Connecting => CenterView::Resuming { connecting: true },
            Resume::Settled => CenterView::FirstRun,
        }
    }

    /// The chat rows of a protocol, or none.
    pub(crate) fn chats(&self, protocol: ProtocolId) -> (r: Option<&Vec<Conversation>>)
        ensures
            r.is_some() == self@.conversations.contains_key(protocol),
            match r {
                Some(rows) => rows.deep_view() == self@.rows(protocol),
                None => self@.rows(protocol) == Seq::<ConversationModel>::empty(),
            },
    {
        self.conversations.get(&protocol)
    }

    /// One chat row of one protocol.
    pub fn conversation(&self, protocol: ProtocolId, id: &str) -> (r: Option<&Conversation>)
        ensures
            r.deep_view() == find(self@.rows(protocol), chat_is(id@)),
    {
        let id = id.to_owned();
        match self.chats(protocol) {
            Some(rows) => {
                let at = position(
                    rows,
                    |row: &Conversation| -> (b: bool)
                        ensures b == chat_is(id@)(row.deep_view())
                        { row.id == id },
                    Ghost(chat_is(id@)),
                );
                match at {
                    Some(i) => {
                        proof {
                            assert(rows.deep_view()[i as int] == rows@[i as int].deep_view());
                        }
                        Some(&rows[i])
                    },
                    None => None,
                }
            },
            None => None,
        }
    }

    /// A real chat with this id is in the list of the protocol.
    pub(crate) fn lists_real_chat(&self, protocol: ProtocolId, id: &String) -> (r: bool)
        ensures
            r == some_row(self@.rows(protocol), real_chat_is(id@)),
    {
        match self.chats(protocol) {
            Some(rows) => position(
                rows,
                |row: &Conversation| -> (b: bool)
                    ensures b == real_chat_is(id@)(row.deep_view())
                    { row.id == *id && !row.placeholder },
                Ghost(real_chat_is(id@)),
            ).is_some(),
            None => false,
        }
    }

    /// The row of the selected chat.
    pub fn selected_conversation_row(&self) -> (r: Option<&Conversation>)
        ensures
            r.deep_view() == self@.selected_row(),
    {
        match &self.selected_conversation {
            Some(id) => self.conversation(self.selected_protocol, id.as_str()),
            None => None,
        }
    }

    /// The thread of the selected chat, if it has one.
    fn selected_rows(&self) -> (r: Option<&Vec<ChatMessage>>)
        ensures
            match r {
                Some(rows) => rows.deep_view() == self@.selected_thread(),
                None => self@.selected_thread().len() == 0,
            },
    {
        match &self.selected_conversation {
            Some(id) => self.messages.get(&(self.selected_protocol, id.clone())),
            None => None,
        }
    }

    /// The messages of the selected chat.
    pub fn selected_messages(&self) -> (r: &[ChatMessage])
        ensures
            r.deep_view() == self@.selected_thread(),
    {
        match self.selected_rows() {
            Some(rows) => {
                let thread = rows.as_slice();
                assert(thread.deep_view() =~= rows.deep_view());
                thread
            },
            None => {
                let none: &[ChatMessage] = &[];
                assert(none.deep_view() =~= Seq::empty());
                none
            },
        }
    }

    /// The chat rows that the inbox shows: those of the selected protocol that
    /// match the search.
    pub fn visible_conversations(&self) -> (r: Vec<&Conversation>)
        ensures
            r.deep_view() == self@.visible(),
    {
        let mut shown: Vec<&Conversation> = Vec::new();
        if !self.account_surface_visible(self.selected_protocol) || !self.has_session(
            self.selected_protocol,
        ) {
            assert(shown.deep_view() =~= Seq::empty());
            return shown;
        }
        let query = lowercase_chars(trimmed(self.search.as_str()));
        let ghost p = search_hits(self@.search);
        match self.chats(self.selected_protocol) {
            Some(rows) => {
                let ghost all = rows.deep_view();
                let mut i: usize = 0;
                proof {
                    reveal(Seq::filter);
                    assert(all.take(0) =~= Seq::empty());
                    assert(shown.deep_view() =~= all.take(0).filter(p));
                }
                while i < rows.len()
                    invariant
                        i <= rows.len(),
                        all == rows.deep_view(),
                        p == search_hits(self@.search),
                        query@ == crate::text::lowercase(crate::text::trim(self@.search)),
                        shown.deep_view() == all.take(i as int).filter(p),
                    decreases rows.len() - i,
                {
                    let row = &rows[i];
                    let hit = query.len() == 0 || chars_contain(
                        &lowercase_chars(row.title.as_str()),
                        &query,
                    ) || chars_contain(&lowercase_chars(row.participant.as_str()), &query);
                    proof {
                        assert(all[i as int] == rows@[i as int].deep_view());
                        assert(hit == p(all[i as int]));
                        lemma_filter_step(all, p, i as int);
                    }
                    if hit {
                        let ghost before = shown.deep_view();
                        shown.push(row);
                        assert(shown.deep_view() =~= before.push(all[i as int]));
                    }
                    i = i + 1;
                }
                assert(all.take(i as int) =~= all);
            },
            None => {
                proof {
                    reveal(Seq::filter);
                    assert(shown.deep_view() =~= Seq::<ConversationModel>::empty().filter(p));
                }
            },
        }
        shown
    }

    /// The ids of the chat rows that the inbox shows.
    pub(crate) fn visible_ids(&self) -> (r: Vec<String>)
        ensures
            r.deep_view() == self@.visible_ids(),
    {
        let shown = self.visible_conversations();
        let mut ids: Vec<String> = Vec::new();
        let mut i: usize = 0;
        while i < shown.len()
            invariant
                i <= shown.len(),
                shown.deep_view() == self@.visible(),
                ids@.len() == i,
                forall|j: int| 0 <= j < i ==> (#[trigger] ids@[j])@ == self@.visible()[j].id,
            decreases shown.len() - i,
        {
            proof {
                assert(shown.deep_view()[i as int] == shown@[i as int].deep_view());
            }
            ids.push(shown[i].id.clone());
            i = i + 1;
        }
        proof {
            assert(shown.deep_view().len() == shown.len());
            assert(ids.deep_view() =~= self@.visible_ids());
        }
        ids
    }

    /// The highlight, when it is one of the rows on screen. Enter uses this.
    pub fn visible_focused_row(&self) -> (r: Option<String>)
        ensures
            r.deep_view() == (match self@.focused_row {
                Some(id) => if self@.visible_ids().contains(id) {
                    Some(id)
                } else {
                    None
                },
                None => None,
            }),
    {
        match &self.focused_row {
            Some(id) => if self.shows_row(id) {
                Some(id.clone())
            } else {
                None
            },
            None => None,
        }
    }

    /// The inbox shows the row with this id.
    fn shows_row(&self, id: &String) -> (r: bool)
        ensures
            r == self@.visible_ids().contains(id@),
    {
        let ids = self.visible_ids();
        let at = index_in(&ids, id);
        proof {
            lemma_index(ids.deep_view(), id@);
        }
        at.is_some()
    }

    /// The unread messages of one protocol.
    pub fn unread_for(&self, protocol: ProtocolId) -> (r: u32)
        requires
            self@.has_session(protocol) ==> unread_sum(self@.rows(protocol)) <= u32::MAX,
        ensures
            r == (if self@.has_session(protocol) {
                unread_sum(self@.rows(protocol))
            } else {
                0
            }),
    {
        if !self.has_session(protocol) {
            return 0;
        }
        match self.chats(protocol) {
            Some(rows) => {
                let ghost all = rows.deep_view();
                let mut sum: u32 = 0;
                let mut i: usize = 0;
                assert(all.take(0) =~= Seq::empty());
                while i < rows.len()
                    invariant
                        i <= rows.len(),
                        all == rows.deep_view(),
                        unread_sum(all) <= u32::MAX,
                        sum == unread_sum(all.take(i as int)),
                    decreases rows.len() - i,
                {
                    proof {
                        assert(all[i as int] == rows@[i as int].deep_view());
                        let next = all.take(i + 1);
                        assert(next.drop_last() =~= all.take(i as int));
                        assert(next.last() == all[i as int]);
                        lemma_unread_grows(all, i + 1);
                    }
                    sum = sum + rows[i].unread;
                    i = i + 1;
                }
                assert(all.take(i as int) =~= all);
                sum
            },
            None => 0,
        }
    }

    /// Add the unread messages of one protocol, without muted chats.
    fn add_loud(&self, protocol: ProtocolId, sum: u32, Ghost(before): Ghost<nat>) -> (r: u32)
        requires
            sum == capped_sum(before),
        ensures
            r == capped_sum(before + self@.loud(protocol)),
    {
        if !self.has_session(protocol) {
            return sum;
        }
        match self.chats(protocol) {
            Some(rows) => {
                let ghost all = rows.deep_view();
                let mut r: u32 = sum;
                let mut i: usize = 0;
                assert(all.take(0) =~= Seq::empty());
                while i < rows.len()
                    invariant
                        i <= rows.len(),
                        all == rows.deep_view(),
                        r == capped_sum(before + loud_sum(all.take(i as int))),
                    decreases rows.len() - i,
                {
                    proof {
                        assert(all[i as int] == rows@[i as int].deep_view());
                        let next = all.take(i + 1);
                        assert(next.drop_last() =~= all.take(i as int));
                        assert(next.last() == all[i as int]);
                    }
                    if !rows[i].muted {
                        r = r.saturating_add(rows[i].unread);
                    }
                    i = i + 1;
                }
                assert(all.take(i as int) =~= all);
                r
            },
            None => sum,
        }
    }

    /// The unread messages of every chat that is not muted, in every protocol
    /// with a session. For the window title and a taskbar badge.
    pub fn unread_total(&self) -> (r: u32)
        ensures
            r == self@.unread_total(),
    {
        let ghost m = self@;
        let ghost a = m.loud(ProtocolId::Telegram);
        let ghost b = a + m.loud(ProtocolId::Slack);
        let ghost c = b + m.loud(ProtocolId::WhatsApp);
        let ghost d = c + m.loud(ProtocolId::Discord);
        let mut sum: u32 = self.add_loud(ProtocolId::Telegram, 0, Ghost(0));
        sum = self.add_loud(ProtocolId::Slack, sum, Ghost(a));
        sum = self.add_loud(ProtocolId::WhatsApp, sum, Ghost(b));
        sum = self.add_loud(ProtocolId::Discord, sum, Ghost(c));
        self.add_loud(ProtocolId::Signal, sum, Ghost(d))
    }

    /// What the inbox list shows.
    pub fn inbox_state(&self) -> (r: InboxState)
        ensures
            r == self@.inbox(),
    {
        let shown = self.visible_conversations();
        proof {
            assert(shown.deep_view().len() == shown.len());
        }
        if shown.len() > 0 {
            return InboxState::Rows;
        }
        let session = self.has_session(self.selected_protocol);
        let any = match self.chats(self.selected_protocol) {
            Some(rows) => {
                proof {
                    assert(rows.deep_view().len() == rows.len());
                }
                rows.len() > 0
            },
            None => false,
        };
        if session && any {
            return InboxState::NoMatch;
        }
        if self.chat_list_loading.contains(&self.selected_protocol) && session {
            return InboxState::Loading;
        }
        InboxState::Empty
    }

    /// A chat list, a history page, or a send is still running.
    pub fn is_loading(&self) -> (r: bool)
        ensures
            r == self@.loading(),
    {
        !self.chat_list_loading.is_empty() || !self.history_loading.is_empty()
            || !self.older_loading.is_empty() || !self.sends.is_empty()
    }

    /// The status line is a finished success: the adapter sent it as ready,
    /// nothing replaced it since, and no load runs.
    pub fn status_is_idle(&self) -> (r: bool)
        ensures
            r == (!self@.loading() && self@.ready_status == Some(self@.status_text)),
    {
        let same = match &self.ready_status {
            Some(text) => *text == self.status_text,
            None => false,
        };
        !self.is_loading() && same
    }

    /// The line of a running load of one protocol, if one runs.
    pub fn loading_line(&self, protocol: ProtocolId) -> (r: Option<&'static str>)
        ensures
            r.deep_view() == self@.load_line(protocol),
    {
        if self.chat_list_loading.contains(&protocol) {
            Some(LOADING_CHATS_STATUS)
        } else if self.history_loading.has_owner(protocol) {
            Some(LOADING_MESSAGES_STATUS)
        } else if self.older_loading.has_owner(protocol) {
            Some(LOADING_OLDER_STATUS)
        } else if self.sends.any_for(protocol) {
            Some(SENDING_STATUS)
        } else {
            None
        }
    }

    /// The line that the status strip shows. While a load runs it is the line
    /// of a load, never a finished one: the selected protocol's load first,
    /// then another visible protocol's, named.
    pub fn status_line(&self) -> (r: String)
        ensures
            r@ == self@.status(),
    {
        if let Some(line) = self.loading_line(self.selected_protocol) {
            return line.to_owned();
        }
        let at = position(
            &self.accounts,
            |row: &AccountRow| -> (b: bool)
                ensures b == self@.loads_elsewhere()(row.deep_view())
                {
                    row.caps.id != self.selected_protocol && self.account_surface_visible(
                        row.caps.id,
                    ) && self.loading_line(row.caps.id).is_some()
                },
            Ghost(self@.loads_elsewhere()),
        );
        match at {
            Some(i) => {
                let id = self.accounts[i].caps.id;
                let mut text = id.display_name().to_owned();
                text.append(": ");
                if let Some(line) = self.loading_line(id) {
                    text.append(line);
                }
                text
            },
            None => self.status_text.clone(),
        }
    }

    /// What the thread shows.
    pub fn thread_state(&self) -> (r: ThreadState)
        ensures
            r == self@.thread_state(),
    {
        match &self.selected_conversation {
            None => ThreadState::NoSelection,
            Some(id) => {
                let any = match self.selected_rows() {
                    Some(rows) => {
                        proof {
                            assert(rows.deep_view().len() == rows.len());
                        }
                        rows.len() > 0
                    },
                    None => false,
                };
                if any {
                    ThreadState::Rows
                } else if self.history_loading.contains(&(self.selected_protocol, id.clone())) {
                    ThreadState::Loading
                } else {
                    ThreadState::Empty
                }
            },
        }
    }

    /// The selected protocol pages older messages now: Telegram after Ready,
    /// and Signal after the account is linked.
    pub(crate) fn pages_older(&self) -> (r: bool)
        ensures
            r == self@.pages_older(),
    {
        match self.selected_protocol {
            ProtocolId::Telegram => self.telegram_authorized,
            ProtocolId::Signal => self.protocol_linked(ProtocolId::Signal),
            _ => false,
        }
    }

    /// Older-message paging of the selected chat.
    pub fn older_state(&self) -> (r: OlderState)
        ensures
            r == self@.older(),
    {
        match &self.selected_conversation {
            None => OlderState::Idle,
            Some(id) => if !self.pages_older() {
                OlderState::Idle
            } else if self.older_loading.contains(&(self.selected_protocol, id.clone())) {
                OlderState::Loading
            } else if self.older_at_start.contains(id) {
                OlderState::StartOfChat
            } else {
                OlderState::Idle
            },
        }
    }

    /// The selected chat and its oldest message, when a request for older
    /// messages may go out at `now`.
    pub fn older_anchor_at(&self, now: u64) -> (r: Option<(String, String)>)
        ensures
            r.deep_view() == self@.older_anchor(now),
    {
        if !self.pages_older() {
            return None;
        }
        match &self.selected_conversation {
            None => None,
            Some(id) => {
                let key = (self.selected_protocol, id.clone());
                if self.history_loading.contains(&key) || self.older_loading.contains(&key)
                    || self.older_at_start.contains(id) {
                    return None;
                }
                match self.selected_rows() {
                    None => None,
                    Some(rows) => {
                        proof {
                            assert(rows.deep_view().len() == rows.len());
                        }
                        if rows.len() == 0 {
                            return None;
                        }
                        proof {
                            assert(rows.deep_view()[0] == rows@[0].deep_view());
                        }
                        let oldest = rows[0].id.clone();
                        if let Some(last) = self.older_retry.get(id) {
                            if last.anchor == oldest && (now < last.at || now - last.at
                                < older_wait(last.tries)) {
                                return None;
                            }
                        }
                        Some((id.clone(), oldest))
                    },
                }
            },
        }
    }

    /// A request for older messages of the selected chat would go out now.
    pub fn older_can_ask(&self, now: u64) -> (r: bool)
        ensures
            r == self@.older_anchor(now).is_some(),
    {
        self.older_anchor_at(now).is_some()
    }

    /// Ask for the page before the oldest loaded message of the selected chat.
    /// Nothing goes out while a request runs, the first page loads, the start
    /// is loaded, or the anchor waits.
    pub fn load_older(&mut self, now: u64)
        ensures
            final(self)@ == old(self)@.loading_older(now),
    {
        proof {
            reveal(SnapshotModel::loading_older);
        }
        if let Some((id, oldest)) = self.older_anchor_at(now) {
            let protocol = self.selected_protocol;
            self.older_loading.insert((protocol, id.clone()));
            self.queue(
                AdapterCommand::LoadOlderMessages {
                    protocol,
                    conversation_id: id,
                    before_message_id: oldest,
                },
            );
        }
    }

    /// This chat of this protocol is the selected one.
    pub fn is_selected_chat(&self, protocol: ProtocolId, chat: &str) -> (r: bool)
        ensures
            r == self@.is_selected((protocol, chat@)),
    {
        match &self.selected_conversation {
            Some(id) => self.selected_protocol == protocol && same_text(id.as_str(), chat),
            None => false,
        }
    }

    /// Store unsent text of one chat. The selected chat keeps it in `compose`,
    /// another chat in its draft.
    pub fn set_draft(&mut self, protocol: ProtocolId, chat: &str, text: String)
        ensures
            final(self)@ == old(self)@.drafting((protocol, chat@), text@),
    {
        proof {
            reveal(SnapshotModel::drafting);
        }
        if self.is_selected_chat(protocol, chat) {
            self.compose = text;
        } else if text.as_str().is_empty() {
            self.drafts.remove(&(protocol, chat.to_owned()));
        } else {
            self.drafts.insert((protocol, chat.to_owned()), text);
        }
    }

    /// Park the compose text as the draft of its chat, and select no chat.
    fn park_draft(&mut self)
        ensures
            final(self)@ == old(self)@.parked(),
    {
        let mut draft = String::new();
        std::mem::swap(&mut draft, &mut self.compose);
        if let Some(id) = self.selected_conversation.take() {
            if !draft.as_str().is_empty() {
                self.drafts.insert((self.selected_protocol, id), draft);
            }
        }
    }

    /// Select a chat, and make its draft the compose text.
    fn unpark_draft(&mut self, id: String)
        ensures
            final(self)@ == old(self)@.unparked(id@),
    {
        self.compose = match self.drafts.remove(&(self.selected_protocol, id.clone())) {
            Some(text) => text,
            None => String::new(),
        };
        self.selected_conversation = Some(id);
    }

    /// Change the selected chat. The compose text stays with its chat.
    pub fn set_selected_conversation(&mut self, id: Option<String>)
        ensures
            final(self)@ == old(self)@.selecting(id.deep_view()),
    {
        if same_option(&self.selected_conversation, &id) {
            return ;
        }
        self.park_draft();
        if let Some(new_id) = id {
            self.unpark_draft(new_id);
        }
    }

    /// Load the history of the selected chat, for any linked protocol. A chat
    /// of a protocol that is not linked loads when it links.
    pub fn queue_open_chat(&mut self)
        ensures
            final(self)@ == old(self)@.opening(),
    {
        proof {
            reveal(SnapshotModel::opening);
        }
        let protocol = self.selected_protocol;
        let id = match &self.selected_conversation {
            Some(id) => id.clone(),
            None => {
                return ;
            },
        };
        if !self.protocol_linked(protocol) {
            self.open_on_link = Some((protocol, id));
            return ;
        }
        self.open_on_link = None;
        if !self.lists_real_chat(protocol, &id) {
            return ;
        }
        let already = position(
            &self.pending,
            |command: &AdapterCommand| -> (b: bool)
                ensures b == opens((protocol, id@))(command.deep_view())
                {
                    match command {
                        AdapterCommand::OpenChat { protocol: owner, conversation_id } => *owner
                            == protocol && *conversation_id == id,
                        _ => false,
                    }
                },
            Ghost(opens((protocol, id@))),
        ).is_some();
        if already {
            return ;
        }
        self.history_loading.insert((protocol, id.clone()));
        self.queue(AdapterCommand::OpenChat { protocol, conversation_id: id });
    }

    /// With no selected chat, select the first real chat of the protocol. A
    /// placeholder row is never selected by itself.
    pub fn ensure_conversation_selection(&mut self)
        ensures
            final(self)@ == old(self)@.ensuring(),
    {
        if self.selected_conversation.is_some() {
            return ;
        }
        let first = match self.chats(self.selected_protocol) {
            Some(rows) => {
                let at = position(
                    rows,
                    |row: &Conversation| -> (b: bool)
                        ensures b == real_chat()(row.deep_view())
                        { !row.placeholder },
                    Ghost(real_chat()),
                );
                match at {
                    Some(i) => {
                        proof {
                            assert(rows.deep_view()[i as int] == rows@[i as int].deep_view());
                        }
                        Some(rows[i].id.clone())
                    },
                    None => None,
                }
            },
            None => None,
        };
        if first.is_some() {
            self.set_selected_conversation(first);
            self.queue_open_chat();
        }
    }

    /// Show the accounts and chats of one protocol.
    pub fn select_protocol(&mut self, protocol: ProtocolId)
        ensures
            final(self)@ == old(self)@.selecting_protocol(protocol),
    {
        proof {
            reveal(SnapshotModel::selecting_protocol);
        }
        if !self.account_surface_visible(protocol) {
            return ;
        }
        // Park the draft under the old protocol before the protocol changes.
        self.set_selected_conversation(None);
        self.selected_protocol = protocol;
        self.focused_row = None;
        self.ensure_conversation_selection();
    }

    /// Open a chat of the selected protocol.
    pub fn select_conversation(&mut self, id: String)
        ensures
            final(self)@ == old(self)@.picking(id@),
    {
        proof {
            reveal(SnapshotModel::picking);
        }
        self.focused_row = Some(id.clone());
        self.set_selected_conversation(Some(id));
        self.marks.insert(Mark::FocusCompose);
        self.queue_open_chat();
    }

    /// The row that a key move would highlight. `None` when the highlight
    /// would not change.
    pub fn inbox_move_target(&self, delta: i32) -> (r: Option<String>)
        ensures
            r.deep_view() == self@.move_target(delta as int),
    {
        if delta == 0 {
            return None;
        }
        let ids = self.visible_ids();
        let ghost all = ids.deep_view();
        proof {
            assert(all.len() == ids.len());
        }
        if ids.len() == 0 {
            return None;
        }
        let current = match &self.focused_row {
            Some(id) => index_in(&ids, id),
            None => match &self.selected_conversation {
                Some(id) => index_in(&ids, id),
                None => None,
            },
        };
        let last: usize = ids.len() - 1;
        let next: usize = match current {
            Some(index) => {
                let moved: i128 = index as i128 + delta as i128;
                if moved < 0 {
                    0
                } else if moved > last as i128 {
                    last
                } else {
                    moved as usize
                }
            },
            None => if delta < 0 {
                last
            } else {
                0
            },
        };
        proof {
            assert(all[next as int] == ids@[next as int].deep_view());
        }
        let id = ids[next].clone();
        let same = match &self.focused_row {
            Some(row) => *row == id,
            None => false,
        };
        if same {
            None
        } else {
            Some(id)
        }
    }

    /// Move the keyboard highlight among the visible inbox rows. The open
    /// chat, its draft, and its messages stay as they are.
    pub fn move_inbox_selection(&mut self, delta: i32)
        ensures
            final(self)@ == old(self)@.moving(delta as int),
    {
        proof {
            reveal(SnapshotModel::moving);
        }
        let target = self.inbox_move_target(delta);
        if target.is_some() {
            self.focused_row = target;
            self.sync_focused_row(FocusFollow::Moved);
        }
    }

    /// Point the highlight at a row that already has keyboard focus. It is on
    /// screen, so this does not scroll.
    pub fn focus_inbox_row(&mut self, id: String)
        ensures
            final(self)@ == old(self)@.focusing(id@),
    {
        proof {
            reveal(SnapshotModel::focusing);
        }
        if self.shows_row(&id) {
            self.focused_row = Some(id);
        }
    }

    /// The highlight stands on one of these visible rows: whether the list
    /// scrolls to it.
    fn highlight_needs_scroll(&self, reason: FocusFollow, ids: &Vec<String>) -> (r: Option<bool>)
        requires
            ids.deep_view() == self@.visible_ids(),
        ensures
            r == self@.kept_focus(reason),
    {
        match &self.focused_row {
            Some(id) => {
                let after = index_in(ids, id);
                let before = index_in(&self.seen_visible_ids, id);
                match after {
                    Some(now_at) => {
                        let moved = match before {
                            Some(was_at) => was_at != now_at,
                            None => false,
                        };
                        Some(reason != FocusFollow::List || moved)
                    },
                    None => None,
                }
            },
            None => None,
        }
    }

    /// Keep or drop the highlight, and remember the visible rows.
    fn keep_focus(&mut self, kept: Option<bool>, ids: Vec<String>)
        ensures
            final(self)@ == old(self)@.focus_kept(kept, ids.deep_view()),
    {
        match kept {
            Some(scroll) => {
                if scroll {
                    self.marks.insert(Mark::ScrollToFocused);
                }
            },
            None => {
                self.focused_row = None;
            },
        }
        self.seen_visible_ids = ids;
    }

    /// Keep the highlight on a visible row, and ask for a scroll when a key
    /// moved it, the search changed, or its index changed.
    pub fn sync_focused_row(&mut self, reason: FocusFollow)
        ensures
            final(self)@ == old(self)@.refocused(reason),
    {
        let ids = self.visible_ids();
        let kept = self.highlight_needs_scroll(reason, &ids);
        self.keep_focus(kept, ids);
    }

    /// Limit the inbox to one protocol tab, or show all.
    pub fn set_filter(&mut self, filter: InboxFilter)
        ensures
            final(self)@ == old(self)@.filtering(filter),
    {
        proof {
            reveal(SnapshotModel::filtering);
        }
        if self.filter == filter {
            return ;
        }
        self.filter = filter;
        if !filter.matches(self.selected_protocol) {
            let ghost p = self@.passes(filter);
            let at = position(
                &self.accounts,
                |row: &AccountRow| -> (b: bool)
                    ensures b == self@.passes(filter)(row.deep_view())
                    { filter.matches(row.caps.id) && self.account_surface_visible(row.caps.id) },
                Ghost(p),
            );
            if let Some(i) = at {
                let first = self.accounts[i].caps.id;
                self.select_protocol(first);
            }
        }
        self.sync_focused_row(FocusFollow::List);
    }

    /// New inbox search. A highlight that the query hides is cleared.
    pub fn set_search(&mut self, text: String)
        ensures
            final(self)@ == old(self)@.searching(text@),
    {
        proof {
            reveal(SnapshotModel::searching);
        }
        if self.search == text {
            return ;
        }
        self.search = text;
        self.sync_focused_row(FocusFollow::Query);
    }

    /// Every adapter answered the shutdown.
    pub fn all_stopped(&self) -> (r: bool)
        ensures
            r == self@.all_stopped(),
    {
        let mut i: usize = 0;
        while i < self.accounts.len()
            invariant
                i <= self.accounts.len(),
                forall|j: int|
                    0 <= j < i ==> self@.stopped.contains((#[trigger] self@.accounts[j]).id),
            decreases self.accounts.len() - i,
        {
            proof {
                assert(self@.accounts[i as int] == self.accounts@[i as int].deep_view());
            }
            if !self.stopped.contains(&self.accounts[i].caps.id) {
                return false;
            }
            i = i + 1;
        }
        proof {
            assert(self@.accounts.len() == self.accounts.len());
        }
        true
    }

    /// A focus request waits for the compose field.
    pub fn wants_focus_compose(&self) -> (r: bool)
        ensures
            r == self@.marks.contains(Mark::FocusCompose),
    {
        self.marks.contains(&Mark::FocusCompose)
    }

    /// True once after the user picked a chat.
    pub fn take_focus_compose(&mut self) -> (r: bool)
        ensures
            r == old(self)@.marks.contains(Mark::FocusCompose),
            final(self)@ == old(self)@.unmarked(Mark::FocusCompose),
    {
        let taken = self.marks.contains(&Mark::FocusCompose);
        self.marks.remove(&Mark::FocusCompose);
        taken
    }

    /// A scroll request to the selected row waits.
    pub fn wants_scroll_to_selected(&self) -> (r: bool)
        ensures
            r == self@.marks.contains(Mark::ScrollToSelected),
    {
        self.marks.contains(&Mark::ScrollToSelected)
    }

    /// True once after the selected row moved in the sorted list.
    pub fn take_scroll_to_selected(&mut self) -> (r: bool)
        ensures
            r == old(self)@.marks.contains(Mark::ScrollToSelected),
            final(self)@ == old(self)@.unmarked(Mark::ScrollToSelected),
    {
        let taken = self.marks.contains(&Mark::ScrollToSelected);
        self.marks.remove(&Mark::ScrollToSelected);
        taken
    }

    /// A scroll request to the highlight waits.
    pub fn wants_scroll_to_focused(&self) -> (r: bool)
        ensures
            r == self@.marks.contains(Mark::ScrollToFocused),
    {
        self.marks.contains(&Mark::ScrollToFocused)
    }

    /// True once after the highlight moved.
    pub fn take_scroll_to_focused(&mut self) -> (r: bool)
        ensures
            r == old(self)@.marks.contains(Mark::ScrollToFocused),
            final(self)@ == old(self)@.unmarked(Mark::ScrollToFocused),
    {
        let taken = self.marks.contains(&Mark::ScrollToFocused);
        self.marks.remove(&Mark::ScrollToFocused);
        taken
    }

    /// The chat that shows in the thread now, if any.
    pub fn viewed_chat(&self) -> (r: Option<(ProtocolId, String)>)
        ensures
            r.deep_view() == self@.viewed_now(),
    {
        if self.center_view() != CenterView::Thread {
            return None;
        }
        match &self.selected_conversation {
            Some(id) => if self.has_session(self.selected_protocol)
                && self.account_surface_visible(self.selected_protocol) && self.lists_real_chat(
                self.selected_protocol,
                id,
            ) {
                Some((self.selected_protocol, id.clone()))
            } else {
                None
            },
            None => None,
        }
    }

    /// The chat that the user looks at, as the adapters were last told.
    pub fn viewed(&self) -> (r: Option<(ProtocolId, &str)>)
        ensures
            r.deep_view() == self@.viewed,
    {
        match &self.viewed {
            Some(chat) => Some((chat.0, chat.1.as_str())),
            None => None,
        }
    }

    /// Tell the adapters which chat shows now. Sends only the difference: none
    /// to the protocol that the user left, then the new chat.
    pub fn sync_viewed(&mut self)
        ensures
            final(self)@ == old(self)@.syncing_viewed(),
    {
        proof {
            reveal(SnapshotModel::syncing_viewed);
        }
        let now = self.viewed_chat();
        if same_chat(&now, &self.viewed) {
            return ;
        }
        let left = match (&self.viewed, &now) {
            (Some(was), Some(is)) => if was.0 != is.0 {
                Some(was.0)
            } else {
                None
            },
            (Some(was), None) => Some(was.0),
            (None, _) => None,
        };
        match now {
            Some(chat) => {
                self.viewed = Some((chat.0, chat.1.clone()));
                if let Some(protocol) = left {
                    self.queue(AdapterCommand::ViewChat { protocol, conversation_id: None });
                }
                self.queue(
                    AdapterCommand::ViewChat { protocol: chat.0, conversation_id: Some(chat.1) },
                );
            },
            None => {
                self.viewed = None;
                if let Some(protocol) = left {
                    self.queue(AdapterCommand::ViewChat { protocol, conversation_id: None });
                }
            },
        }
    }

    /// Reload the chat lists of the visible protocols. A protocol that is not
    /// linked connects, except Slack: only its own button starts an install.
    pub fn refresh_visible(&mut self)
        ensures
            final(self)@ == old(self)@.refreshed(),
    {
        proof {
            reveal(SnapshotModel::refreshed);
        }
        let mut i: usize = 0;
        let ghost start = self@;
        while i < self.accounts.len()
            invariant
                start == old(self)@,
                i <= self.accounts.len(),
                self@ == start.refreshing(i as nat),
                self@.accounts == start.accounts,
                self@.filter == start.filter,
                self@.build == start.build,
                self@.extra_visible == start.extra_visible,
            decreases self.accounts.len() - i,
        {
            let id = self.accounts[i].caps.id;
            let first = match self.account_at(id) {
                Some(at) => at == i,
                None => false,
            };
            proof {
                assert(self@.accounts.len() == self.accounts.len());
                assert(start.accounts[i as int] == self.accounts@[i as int].deep_view());
                lemma_first_of(start.accounts, id, i as int);
            }
            if first && self.filter.matches(id) && self.account_surface_visible(id) {
                if self.protocol_linked(id) {
                    self.chat_list_loading.insert(id);
                    self.queue(AdapterCommand::LoadChats { protocol: id });
                } else if id != ProtocolId::Slack {
                    self.queue(AdapterCommand::Connect { protocol: id });
                }
            }
            i = i + 1;
        }
        proof {
            assert(self@.accounts.len() == self.accounts.len());
        }
        self.status_text = "Refreshing…".to_owned();
    }
}

/// The row at `i` is the first of its protocol exactly when no earlier row is.
proof fn lemma_first_of(rows: Seq<AccountModel>, id: ProtocolId, i: int)
    requires
        0 <= i < rows.len(),
        rows[i].id == id,
    ensures
        (first_index(rows, account_is(id)) == i) == !some_row(rows.take(i), account_is(id)),
        some_row(rows, account_is(id)),
{
    let p = account_is(id);
    crate::lists::lemma_first_index(rows, p);
    crate::lists::lemma_first_index(rows.take(i), p);
    assert(p(rows[i]));
    let f = first_index(rows, p);
    let g = first_index(rows.take(i), p);
    if g < i {
        assert(rows.take(i)[g] == rows[g]);
    }
    if f < i {
        assert(rows.take(i)[f] == rows[f]);
    }
}

/// Where `id` stands in `ids`, if it does.
fn index_in(ids: &Vec<String>, id: &String) -> (r: Option<usize>)
    ensures
        match r {
            Some(i) => i < ids.len() && crate::state::model::find_index(
                ids.deep_view(),
                text_is(id@),
            ) == Some(i as int),
            None => crate::state::model::find_index(ids.deep_view(), text_is(id@))
                == None::<int>,
        },
{
    position(
        ids,
        |row: &String| -> (b: bool)
            ensures b == text_is(id@)(row.deep_view())
            { *row == *id },
        Ghost(text_is(id@)),
    )
}

/// A text has an index in a list exactly when the list holds it.
proof fn lemma_index(ids: Seq<Text>, id: Text)
    ensures
        ids.contains(id) == some_row(ids, text_is(id)),
{
    lemma_some_row(ids, text_is(id));
    if ids.contains(id) {
        let i = choose|i: int| 0 <= i < ids.len() && ids[i] == id;
        assert(text_is(id)(ids[i]));
    }
    if some_row(ids, text_is(id)) {
        let i = choose|i: int| 0 <= i < ids.len() && text_is(id)(#[trigger] ids[i]);
        assert(ids[i] == id);
    }
}

/// Fewer rows have no more unread messages.
proof fn lemma_unread_grows(rows: Seq<ConversationModel>, n: int)
    requires
        0 <= n <= rows.len(),
    ensures
        unread_sum(rows.take(n)) <= unread_sum(rows),
    decreases rows.len() - n,
{
    if n < rows.len() {
        lemma_unread_grows(rows, n + 1);
        let next = rows.take(n + 1);
        assert(next.drop_last() =~= rows.take(n));
    } else {
        assert(rows.take(n) =~= rows);
    }
}

} // verus!
