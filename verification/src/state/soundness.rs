//! What holds of every state: at launch, after every event, and after every
//! user action.

use crate::intent::AuthField;
use crate::lists::{
    every, first_index, lemma_filter_contains, lemma_filter_every, lemma_filter_pairwise,
    lemma_first_index, lemma_ranked_every, lemma_ranked_pairwise, lemma_some_row, pairwise, ranked,
};
use crate::protocol::{
    AccountState, AdapterEvent, AdapterStatus, Build, ChatId, ChatMessage, CommandModel,
    Conversation, ConversationModel, Delivery, MessageModel, ProtocolId, TelegramAuthPhase, Text,
};
use crate::secrets::StoreModel;
use crate::sends::{
    FlightModel, PendingModel, SendsModel, law_begin_keeps_valid, law_every_end_keeps_valid,
    not_of_owner, of_chat,
};
use crate::state::laws::{
    law_account_rows_stay, law_draft_goes_to_the_chat_it_names, law_draft_stays_with_its_chat,
    law_launch_is_empty, law_protocol_change_keeps_drafts, law_session_end_empties_its_protocol,
    law_session_end_keeps_one_text_per_chat, law_session_end_stays_in_its_protocol,
    lemma_ensuring_frame, lemma_opening_frame, lemma_selecting_protocol_frame,
};
use crate::state::model::{
    SnapshotModel, account_is, chat_is, chat_is_not, filter_matches, find, linked_is, message_is,
    sender_is, upserted_chat, upserted_message,
};
use crate::state::order::{chat_le, law_chat_lists_are_sorted, law_threads_are_sorted, message_le};
use crate::state::{
    AccountModel, AuthKey, FocusFollow, InboxFilter, Mark, SignalScreen, WhatsAppScreen,
};
use crate::text::trim;
use vstd::prelude::*;

verus! {

/// The first row stands before the second one in the inbox.
pub open spec fn chats_in_order() -> spec_fn(ConversationModel, ConversationModel) -> bool {
    |a: ConversationModel, b: ConversationModel| chat_le(a, b)
}

/// Two rows of two chats.
pub open spec fn chats_differ() -> spec_fn(ConversationModel, ConversationModel) -> bool {
    |a: ConversationModel, b: ConversationModel| a.id != b.id
}

/// A chat of this protocol.
pub open spec fn chat_of(protocol: ProtocolId) -> spec_fn(ConversationModel) -> bool {
    |row: ConversationModel| row.protocol == protocol
}

/// The first message stands before the second one in the thread.
pub open spec fn messages_in_order() -> spec_fn(MessageModel, MessageModel) -> bool {
    |a: MessageModel, b: MessageModel| message_le(a, b)
}

/// Two messages with two ids.
pub open spec fn messages_differ() -> spec_fn(MessageModel, MessageModel) -> bool {
    |a: MessageModel, b: MessageModel| a.id != b.id
}

/// A message of this chat.
pub open spec fn message_of(chat: ChatId) -> spec_fn(MessageModel) -> bool {
    |row: MessageModel| (row.protocol, row.conversation_id) == chat
}

/// The inbox rows of one protocol: in order, each chat once, all of it.
#[verifier::opaque]
pub open spec fn list_in_order(rows: Seq<ConversationModel>, protocol: ProtocolId) -> bool {
    &&& pairwise(rows, chats_in_order())
    &&& pairwise(rows, chats_differ())
    &&& every(rows, chat_of(protocol))
}

/// The messages of one chat: in order, each id once, all of it.
#[verifier::opaque]
pub open spec fn thread_in_order(rows: Seq<MessageModel>, chat: ChatId) -> bool {
    &&& pairwise(rows, messages_in_order())
    &&& pairwise(rows, messages_differ())
    &&& every(rows, message_of(chat))
}

/// How far the user is on the way to a WhatsApp pairing.
pub enum RiskStage {
    /// Nothing was asked, or the way was left, or the pairing started.
    Closed,
    /// The risk screen shows.
    Asked,
    /// The user accepted the risk, and no pairing started yet.
    Accepted,
}

impl SnapshotModel {
    /// How far the user is on the way to a WhatsApp pairing.
    pub open spec fn risk_stage(self) -> RiskStage {
        if self.whatsapp_screen == WhatsAppScreen::RiskGate {
            RiskStage::Asked
        } else if self.may_pair_whatsapp() {
            RiskStage::Accepted
        } else {
            RiskStage::Closed
        }
    }

    /// Every inbox list is in order.
    #[verifier::opaque]
    pub open spec fn lists_in_order(self) -> bool {
        forall|protocol: ProtocolId| #[trigger]
            self.conversations.contains_key(protocol) ==> list_in_order(
                self.conversations[protocol],
                protocol,
            )
    }

    /// Every thread is in order.
    #[verifier::opaque]
    pub open spec fn threads_in_order(self) -> bool {
        forall|chat: ChatId| #[trigger]
            self.messages.contains_key(chat) ==> thread_in_order(self.messages[chat], chat)
    }

    /// What holds of every state: each protocol has one account row, the
    /// selected chat has one unsent text, each chat has at most one open send
    /// and each request its own number, and every inbox list and every thread
    /// is in order with each row once. A linked account has a session, and a
    /// pair screen shows only after the user accepted what stands before it.
    pub open spec fn sound(self) -> bool {
        &&& self.one_row_per_protocol()
        &&& self.one_text_per_chat()
        &&& self.sends.valid()
        &&& self.lists_in_order()
        &&& self.threads_in_order()
        &&& linked_have_sessions(self.accounts, self.sessions)
        &&& self.screens_fit()
    }

    /// The WhatsApp pair screen shows only while the risk is accepted. An
    /// accepted risk is on the pair screen, or its pairing started and ended.
    /// On the risk screen no pairing runs.
    /// The Signal link screen shows only while the notice is accepted.
    pub open spec fn screens_fit(self) -> bool {
        let accepted = self.marks.contains(Mark::WhatsAppRiskAccepted);
        &&& self.whatsapp_screen == WhatsAppScreen::Pair ==> accepted
        &&& accepted ==> self.whatsapp_screen == WhatsAppScreen::Pair || (self.whatsapp_screen
            == WhatsAppScreen::Hidden && self.whatsapp_started)
        &&& self.whatsapp_screen == WhatsAppScreen::RiskGate ==> !self.whatsapp_started
        &&& self.signal_screen == SignalScreen::Link ==> self.marks.contains(
            Mark::SignalNoticeAccepted,
        )
    }

    /// The flags of the pairing screens are the same.
    pub open spec fn same_screens(self, other: SnapshotModel) -> bool {
        &&& self.whatsapp_screen == other.whatsapp_screen
        &&& self.whatsapp_started == other.whatsapp_started
        &&& self.signal_screen == other.signal_screen
        &&& self.marks.contains(Mark::WhatsAppRiskAccepted) == other.marks.contains(
            Mark::WhatsAppRiskAccepted,
        )
        &&& self.marks.contains(Mark::SignalNoticeAccepted) == other.marks.contains(
            Mark::SignalNoticeAccepted,
        )
        &&& self.next_pairing_generation == other.next_pairing_generation
    }

    /// The next state is as far on the way to a WhatsApp pairing as this one,
    /// and the next pairing gets the same number.
    pub open spec fn keeps_pairing(self, next: SnapshotModel) -> bool {
        &&& next.risk_stage() == self.risk_stage()
        &&& next.next_pairing_generation == self.next_pairing_generation
    }

    /// The parts that [`Self::sound`] is about are the same.
    pub open spec fn same_rows(self, other: SnapshotModel) -> bool {
        &&& self.accounts == other.accounts
        &&& self.selected_protocol == other.selected_protocol
        &&& self.selected_conversation == other.selected_conversation
        &&& self.drafts == other.drafts
        &&& self.sends == other.sends
        &&& self.conversations == other.conversations
        &&& self.messages == other.messages
        &&& self.sessions == other.sessions
        &&& self.same_screens(other)
    }
}

/// Each linked account is in the set of sessions.
#[verifier::opaque]
pub open spec fn linked_have_sessions(
    accounts: Seq<AccountModel>,
    sessions: Set<ProtocolId>,
) -> bool {
    forall|i: int|
        0 <= i < accounts.len() && (#[trigger] accounts[i]).state == AccountState::Linked
            ==> sessions.contains(accounts[i].id)
}

proof fn lemma_same_rows_sound(s: SnapshotModel, next: SnapshotModel)
    requires
        s.sound(),
        s.same_rows(next),
    ensures
        next.sound(),
        s.keeps_pairing(next),
{
    reveal(SnapshotModel::lists_in_order);
    reveal(SnapshotModel::threads_in_order);
}

/// Other flags of the pairing screens keep the state sound when they fit.
proof fn lemma_screens_changed(s: SnapshotModel, next: SnapshotModel)
    requires
        s.sound(),
        next.screens_fit(),
        s.same_rows(
            SnapshotModel {
                whatsapp_screen: s.whatsapp_screen,
                whatsapp_started: s.whatsapp_started,
                signal_screen: s.signal_screen,
                marks: s.marks,
                next_pairing_generation: s.next_pairing_generation,
                ..next
            },
        ),
    ensures
        next.sound(),
{
    lemma_lists_same(s, next);
    lemma_threads_same(s, next);
}

/// The lists and threads stay when the rows of a state stay.
proof fn lemma_lists_same(s: SnapshotModel, next: SnapshotModel)
    requires
        s.conversations == next.conversations,
    ensures
        s.lists_in_order() == next.lists_in_order(),
{
    reveal(SnapshotModel::lists_in_order);
}

proof fn lemma_threads_same(s: SnapshotModel, next: SnapshotModel)
    requires
        s.messages == next.messages,
    ensures
        s.threads_in_order() == next.threads_in_order(),
{
    reveal(SnapshotModel::threads_in_order);
}

// ---- lists ----

proof fn lemma_list_of(s: SnapshotModel, protocol: ProtocolId)
    requires
        s.lists_in_order(),
    ensures
        list_in_order(s.rows(protocol), protocol),
{
    reveal(SnapshotModel::lists_in_order);
    reveal(list_in_order);
}

proof fn lemma_thread_of(s: SnapshotModel, chat: ChatId)
    requires
        s.threads_in_order(),
    ensures
        thread_in_order(s.thread(chat), chat),
{
    reveal(SnapshotModel::threads_in_order);
    reveal(thread_in_order);
}

/// A row put into a list in order leaves the list in order.
proof fn lemma_put_chat(list: Seq<ConversationModel>, row: ConversationModel)
    requires
        list_in_order(list, row.protocol),
    ensures
        list_in_order(ranked::<Conversation>(upserted_chat(list, row)), row.protocol),
{
    reveal(list_in_order);
    lemma_first_index(list, chat_is(row.id));
    let put = upserted_chat(list, row);
    assert forall|i: int, j: int| 0 <= i < j < put.len() implies chats_differ()(
        #[trigger] put[i],
        #[trigger] put[j],
    ) by {
        if j < list.len() {
            assert(chats_differ()(list[i], list[j]));
        } else {
            assert(!chat_is(row.id)(list[i]));
        }
    }
    assert forall|i: int| 0 <= i < put.len() implies chat_of(row.protocol)(#[trigger] put[i]) by {
        if i < list.len() {
            assert(chat_of(row.protocol)(list[i]));
        }
    }
    lemma_ranked_pairwise::<Conversation>(put, chats_differ());
    lemma_ranked_every::<Conversation>(put, chat_of(row.protocol));
    law_chat_lists_are_sorted(put);
    let sorted = ranked::<Conversation>(put);
    assert forall|i: int, j: int| 0 <= i < j < sorted.len() implies chats_in_order()(
        #[trigger] sorted[i],
        #[trigger] sorted[j],
    ) by {}
}

/// A message put into a thread in order leaves the thread in order.
proof fn lemma_put_message(list: Seq<MessageModel>, row: MessageModel)
    requires
        thread_in_order(list, (row.protocol, row.conversation_id)),
    ensures
        thread_in_order(
            ranked::<ChatMessage>(upserted_message(list, row)),
            (row.protocol, row.conversation_id),
        ),
{
    reveal(thread_in_order);
    let chat = (row.protocol, row.conversation_id);
    lemma_first_index(list, message_is(row.id));
    let put = upserted_message(list, row);
    assert forall|i: int, j: int| 0 <= i < j < put.len() implies messages_differ()(
        #[trigger] put[i],
        #[trigger] put[j],
    ) by {
        if j < list.len() {
            assert(messages_differ()(list[i], list[j]));
        } else {
            assert(!message_is(row.id)(list[i]));
        }
    }
    assert forall|i: int| 0 <= i < put.len() implies message_of(chat)(#[trigger] put[i]) by {
        if i < list.len() {
            assert(message_of(chat)(list[i]));
        }
    }
    lemma_ranked_pairwise::<ChatMessage>(put, messages_differ());
    lemma_ranked_every::<ChatMessage>(put, message_of(chat));
    law_threads_are_sorted(put);
    let sorted = ranked::<ChatMessage>(put);
    assert forall|i: int, j: int| 0 <= i < j < sorted.len() implies messages_in_order()(
        #[trigger] sorted[i],
        #[trigger] sorted[j],
    ) by {}
}

proof fn lemma_filter_list(
    list: Seq<ConversationModel>,
    protocol: ProtocolId,
    p: spec_fn(ConversationModel) -> bool,
)
    requires
        list_in_order(list, protocol),
    ensures
        list_in_order(list.filter(p), protocol),
{
    reveal(list_in_order);
    lemma_filter_pairwise(list, p, chats_in_order());
    lemma_filter_pairwise(list, p, chats_differ());
    lemma_filter_every(list, p, chat_of(protocol));
}

proof fn lemma_filter_thread(list: Seq<MessageModel>, chat: ChatId, p: spec_fn(MessageModel) -> bool)
    requires
        thread_in_order(list, chat),
    ensures
        thread_in_order(list.filter(p), chat),
{
    reveal(thread_in_order);
    lemma_filter_pairwise(list, p, messages_in_order());
    lemma_filter_pairwise(list, p, messages_differ());
    lemma_filter_every(list, p, message_of(chat));
}

/// A new body or delivery of one message leaves the thread in order.
proof fn lemma_edit_thread(list: Seq<MessageModel>, chat: ChatId, at: int, row: MessageModel)
    requires
        thread_in_order(list, chat),
        0 <= at < list.len(),
        row.id == list[at].id,
        row.sent_at == list[at].sent_at,
        row.protocol == list[at].protocol,
        row.conversation_id == list[at].conversation_id,
    ensures
        thread_in_order(list.update(at, row), chat),
{
    reveal(thread_in_order);
    let next = list.update(at, row);
    assert forall|i: int, j: int| 0 <= i < j < next.len() implies messages_in_order()(
        #[trigger] next[i],
        #[trigger] next[j],
    ) && messages_differ()(next[i], next[j]) by {
        assert(messages_in_order()(list[i], list[j]));
        assert(messages_differ()(list[i], list[j]));
    }
    assert forall|i: int| 0 <= i < next.len() implies message_of(chat)(#[trigger] next[i]) by {
        assert(message_of(chat)(list[i]));
    }
}

/// A state with one new thread is in order when that thread is.
proof fn lemma_thread_set(s: SnapshotModel, chat: ChatId, list: Seq<MessageModel>)
    requires
        s.sound(),
        thread_in_order(list, chat),
    ensures
        (SnapshotModel { messages: s.messages.insert(chat, list), ..s }).sound(),
        s.keeps_pairing(SnapshotModel { messages: s.messages.insert(chat, list), ..s }),
{
    reveal(SnapshotModel::lists_in_order);
    reveal(SnapshotModel::threads_in_order);
}

// ---- selection ----

proof fn lemma_opening(s: SnapshotModel)
    requires
        s.sound(),
    ensures
        s.opening().sound(),
        s.keeps_pairing(s.opening()),
{
    lemma_opening_frame(s);
    lemma_same_rows_sound(s, s.opening());
}

proof fn lemma_ensuring(s: SnapshotModel)
    requires
        s.sound(),
    ensures
        s.ensuring().sound(),
        s.keeps_pairing(s.ensuring()),
{
    lemma_ensuring_frame(s);
    lemma_lists_same(s, s.ensuring());
    lemma_threads_same(s, s.ensuring());
    match find(s.rows(s.selected_protocol), crate::state::model::real_chat()) {
        Some(row) => lemma_opening_frame(s.selecting(Some(row.id))),
        None => {},
    }
}

proof fn lemma_selecting_protocol(s: SnapshotModel, protocol: ProtocolId)
    requires
        s.sound(),
    ensures
        s.selecting_protocol(protocol).sound(),
        s.keeps_pairing(s.selecting_protocol(protocol)),
{
    let next = s.selecting_protocol(protocol);
    lemma_selecting_protocol_frame(s, protocol);
    law_protocol_change_keeps_drafts(s, protocol, (protocol, Seq::empty()));
    lemma_lists_same(s, next);
    lemma_threads_same(s, next);
}

proof fn lemma_picking(s: SnapshotModel, id: Text)
    requires
        s.sound(),
    ensures
        s.picking(id).sound(),
        s.keeps_pairing(s.picking(id)),
{
    law_draft_stays_with_its_chat(s, id, (s.selected_protocol, id));
    reveal(SnapshotModel::picking);
    let next = SnapshotModel { focused_row: Some(id), ..s }.selecting(Some(id));
    let marked = SnapshotModel { marks: next.marks.insert(Mark::FocusCompose), ..next };
    lemma_opening_frame(marked);
    lemma_lists_same(s, s.picking(id));
    lemma_threads_same(s, s.picking(id));
}

proof fn lemma_filtering(s: SnapshotModel, filter: InboxFilter)
    requires
        s.sound(),
    ensures
        s.filtering(filter).sound(),
        s.keeps_pairing(s.filtering(filter)),
{
    reveal(SnapshotModel::filtering);
    if s.filter != filter {
        let next = SnapshotModel { filter, ..s };
        lemma_same_rows_sound(s, next);
        let chosen = if filter_matches(filter, s.selected_protocol) {
            next
        } else {
            match find(next.accounts, next.passes(filter)) {
                Some(row) => {
                    lemma_selecting_protocol(next, row.id);
                    next.selecting_protocol(row.id)
                },
                None => next,
            }
        };
        assert(s.filtering(filter) == chosen.refocused(FocusFollow::List));
        lemma_same_rows_sound(chosen, chosen.refocused(FocusFollow::List));
    }
}

proof fn lemma_drafting(s: SnapshotModel, chat: ChatId, text: Text)
    requires
        s.sound(),
    ensures
        s.drafting(chat, text).sound(),
        s.keeps_pairing(s.drafting(chat, text)),
{
    law_draft_goes_to_the_chat_it_names(s, chat, text, chat);
    reveal(SnapshotModel::drafting);
    lemma_lists_same(s, s.drafting(chat, text));
    lemma_threads_same(s, s.drafting(chat, text));
}

// ---- messages and sends ----

proof fn lemma_with_delivery(s: SnapshotModel, chat: ChatId, id: Text, delivery: Delivery)
    requires
        s.sound(),
    ensures
        s.with_delivery(chat, id, delivery).sound(),
        s.keeps_pairing(s.with_delivery(chat, id, delivery)),
{
    if s.message(chat, id).is_some() {
        let list = s.thread(chat);
        let at = crate::lists::first_index(list, message_is(id));
        lemma_thread_of(s, chat);
        lemma_first_index(list, message_is(id));
        let row = MessageModel { delivery, ..list[at] };
        lemma_edit_thread(list, chat, at, row);
        lemma_thread_set(s, chat, list.update(at, row));
    }
}

proof fn lemma_noting_delivery(s: SnapshotModel, before: Option<Delivery>, message: MessageModel)
    requires
        s.sound(),
    ensures
        s.noting_delivery(before, message).sound(),
        s.keeps_pairing(s.noting_delivery(before, message)),
{
    let next = s.noting_delivery(before, message);
    lemma_lists_same(s, next);
    lemma_threads_same(s, next);
}

proof fn lemma_delivering(s: SnapshotModel, chat: ChatId, id: Text, delivery: Delivery)
    requires
        s.sound(),
    ensures
        s.delivering(chat, id, delivery).sound(),
        s.keeps_pairing(s.delivering(chat, id, delivery)),
{
    reveal(SnapshotModel::delivering);
    match s.message(chat, id) {
        Some(row) => {
            lemma_with_delivery(s, chat, id, delivery);
            lemma_noting_delivery(
                s.with_delivery(chat, id, delivery),
                Some(row.delivery),
                MessageModel { delivery, ..row },
            );
        },
        None => {},
    }
}

proof fn lemma_upserting_message(s: SnapshotModel, row: MessageModel)
    requires
        s.sound(),
    ensures
        s.upserting_message(row).sound(),
        s.keeps_pairing(s.upserting_message(row)),
{
    let chat = (row.protocol, row.conversation_id);
    lemma_thread_of(s, chat);
    lemma_put_message(s.thread(chat), row);
    lemma_thread_set(s, chat, ranked::<ChatMessage>(upserted_message(s.thread(chat), row)));
}

proof fn lemma_thinning(s: SnapshotModel, chat: ChatId, p: spec_fn(MessageModel) -> bool)
    requires
        s.sound(),
    ensures
        s.thinning(chat, p).sound(),
        s.keeps_pairing(s.thinning(chat, p)),
{
    reveal(SnapshotModel::thinning);
    if s.messages.contains_key(chat) {
        lemma_thread_of(s, chat);
        lemma_filter_thread(s.messages[chat], chat, p);
        lemma_thread_set(s, chat, s.messages[chat].filter(p));
    }
}

proof fn lemma_patching(s: SnapshotModel, chat: ChatId, id: Text, body: Text)
    requires
        s.sound(),
    ensures
        s.patching(chat, id, body).sound(),
        s.keeps_pairing(s.patching(chat, id, body)),
{
    reveal(SnapshotModel::patching);
    if s.message(chat, id).is_some() {
        let list = s.thread(chat);
        let at = crate::lists::first_index(list, message_is(id));
        lemma_thread_of(s, chat);
        lemma_first_index(list, message_is(id));
        let row = MessageModel { body, ..list[at] };
        lemma_edit_thread(list, chat, at, row);
        lemma_thread_set(s, chat, list.update(at, row));
    }
}

proof fn lemma_receiving(s: SnapshotModel, row: MessageModel)
    requires
        s.sound(),
    ensures
        s.receiving(row).sound(),
        s.keeps_pairing(s.receiving(row)),
{
    reveal(SnapshotModel::receiving);
    let before = s.delivery((row.protocol, row.conversation_id), row.id);
    lemma_noting_delivery(s, before, row);
    lemma_upserting_message(s.noting_delivery(before, row), row);
}

proof fn lemma_replacing(s: SnapshotModel, chat: ChatId, old_id: Text, row: MessageModel)
    requires
        s.sound(),
    ensures
        s.replacing(chat, old_id, row).sound(),
        s.keeps_pairing(s.replacing(chat, old_id, row)),
{
    reveal(SnapshotModel::replacing);
    let noted = s.noting_delivery(s.delivery(chat, old_id), row);
    lemma_noting_delivery(s, s.delivery(chat, old_id), row);
    let keep = crate::state::model::message_is_not(old_id);
    lemma_thinning(noted, chat, keep);
    if chat.0 == row.protocol {
        lemma_upserting_message(noted.thinning(chat, keep), row);
    } else {
        lemma_upserting_message(noted, row);
    }
}

/// A state with other sends is sound when those are valid.
proof fn lemma_sends_set(s: SnapshotModel, next: SnapshotModel)
    requires
        s.sound(),
        next.sends.valid(),
        s.same_rows(SnapshotModel { sends: s.sends, ..next }),
    ensures
        next.sound(),
        s.keeps_pairing(next),
{
    lemma_lists_same(s, next);
    lemma_threads_same(s, next);
}

proof fn lemma_sending(s: SnapshotModel, now: u64)
    requires
        s.sound(),
        s.can_send() ==> s.sends.next < u64::MAX,
    ensures
        s.sending(now).sound(),
        s.keeps_pairing(s.sending(now)),
{
    reveal(SnapshotModel::sending);
    if s.can_send() {
        let id = s.selected_conversation.unwrap();
        lemma_first_index(s.rows(s.selected_protocol), chat_is(id));
        let pending = PendingModel::Send {
            request: s.sends.next,
            body: crate::text::trim(s.compose),
        };
        law_begin_keeps_valid(s.sends, (s.selected_protocol, id), pending, now);
        lemma_sends_set(s, s.sending(now));
    }
}

proof fn lemma_retrying(s: SnapshotModel, message_id: Text, now: u64)
    requires
        s.sound(),
        s.can_retry(message_id) ==> s.sends.next < u64::MAX,
    ensures
        s.retrying(message_id, now).sound(),
        s.keeps_pairing(s.retrying(message_id, now)),
{
    reveal(SnapshotModel::retrying);
    if s.can_retry(message_id) {
        let id = s.selected_conversation.unwrap();
        let chat = (s.selected_protocol, id);
        lemma_first_index(s.rows(s.selected_protocol), chat_is(id));
        let pending = PendingModel::Retry { request: s.sends.next, message_id };
        law_begin_keeps_valid(s.sends, chat, pending, now);
        let marked = s.with_delivery(chat, message_id, Delivery::Pending);
        lemma_with_delivery(s, chat, message_id, Delivery::Pending);
        lemma_sends_set(marked, s.retrying(message_id, now));
    }
}

proof fn lemma_clearing_sent(s: SnapshotModel, chat: ChatId, body: Text)
    requires
        s.sound(),
    ensures
        s.clearing_sent(chat, body).sound(),
        s.keeps_pairing(s.clearing_sent(chat, body)),
{
    lemma_lists_same(s, s.clearing_sent(chat, body));
    lemma_threads_same(s, s.clearing_sent(chat, body));
}

proof fn lemma_accepted(s: SnapshotModel, chat: ChatId, request: u64)
    requires
        s.sound(),
    ensures
        s.accepted(chat, request).sound(),
        s.keeps_pairing(s.accepted(chat, request)),
{
    reveal(SnapshotModel::accepted);
    law_every_end_keeps_valid(s.sends, chat, request, Seq::empty(), chat.0, 0);
    let next = SnapshotModel { sends: s.sends.settled(chat, request), ..s };
    lemma_sends_set(s, next);
    lemma_same_rows_sound(next, next.without_rejected(chat));
    match s.sends.answered(chat, request) {
        Some(PendingModel::Send { body, .. }) => lemma_clearing_sent(
            next.without_rejected(chat),
            chat,
            body,
        ),
        Some(PendingModel::Retry { .. }) => {},
        None => lemma_accepted_late(s, chat, request),
    }
}

proof fn lemma_accepted_late(s: SnapshotModel, chat: ChatId, request: u64)
    requires
        s.sound(),
    ensures
        s.accepted_late(chat, request).sound(),
        s.keeps_pairing(s.accepted_late(chat, request)),
{
    law_every_end_keeps_valid(s.sends, chat, request, Seq::empty(), chat.0, 0);
    match s.sends.answered_late(chat, request) {
        None => {},
        Some(pending) => {
            let less = SnapshotModel { sends: s.sends.settled_late(chat, request), ..s };
            lemma_sends_set(s, less);
            let told = less.without_rejected(chat);
            lemma_same_rows_sound(less, told);
            match pending {
                PendingModel::Send { body, .. } => lemma_clearing_sent(told, chat, body),
                PendingModel::Retry { message_id, .. } => {
                    lemma_delivering(told, chat, message_id, Delivery::Sent);
                    let done = told.delivering(chat, message_id, Delivery::Sent);
                    law_every_end_keeps_valid(done.sends, chat, request, message_id, chat.0, 0);
                    lemma_sends_set(done, told.clearing_late(chat, pending));
                },
            }
            let cleared = told.clearing_late(chat, pending);
            lemma_same_rows_sound(cleared, cleared.without_timeout(chat, request));
        },
    }
}

proof fn lemma_rejected(s: SnapshotModel, chat: ChatId, request: u64)
    requires
        s.sound(),
    ensures
        s.rejected(chat, request).sound(),
        s.keeps_pairing(s.rejected(chat, request)),
{
    reveal(SnapshotModel::rejected);
    law_every_end_keeps_valid(s.sends, chat, request, Seq::empty(), chat.0, 0);
    let settled = SnapshotModel { sends: s.sends.settled(chat, request), ..s };
    lemma_sends_set(s, settled);
    match s.sends.answered(chat, request) {
        None => lemma_sends_set(s, s.rejected(chat, request)),
        Some(PendingModel::Send { .. }) => lemma_same_rows_sound(
            settled,
            s.rejected(chat, request),
        ),
        Some(PendingModel::Retry { message_id, .. }) => {
            lemma_delivering(settled, chat, message_id, Delivery::Failed);
            lemma_same_rows_sound(
                settled.delivering(chat, message_id, Delivery::Failed),
                s.rejected(chat, request),
            );
        },
    }
}

proof fn lemma_expiring_all(s: SnapshotModel, entries: Seq<FlightModel>)
    requires
        s.sound(),
    ensures
        s.expiring_all(entries).sound(),
        s.keeps_pairing(s.expiring_all(entries)),
    decreases entries.len(),
{
    if entries.len() > 0 {
        let before = s.expiring_all(entries.drop_last());
        lemma_expiring_all(s, entries.drop_last());
        let entry = entries.last();
        match entry.pending {
            PendingModel::Send { .. } => lemma_same_rows_sound(before, before.expiring_one(entry)),
            PendingModel::Retry { message_id, .. } => {
                lemma_delivering(before, entry.chat, message_id, Delivery::Failed);
                lemma_same_rows_sound(
                    before.delivering(entry.chat, message_id, Delivery::Failed),
                    before.expiring_one(entry),
                );
            },
        }
    }
}

proof fn lemma_expiring(s: SnapshotModel, now: u64)
    requires
        s.sound(),
    ensures
        s.expiring(now).sound(),
        s.keeps_pairing(s.expiring(now)),
{
    reveal(SnapshotModel::expiring);
    law_every_end_keeps_valid(
        s.sends,
        (ProtocolId::Telegram, Seq::empty()),
        0,
        Seq::empty(),
        ProtocolId::Telegram,
        now,
    );
    let next = SnapshotModel { sends: s.sends.expired_at(now), ..s };
    lemma_sends_set(s, next);
    let due = s.sends.due_at(now);
    if due.len() > 0 {
        let again = next.timeouts_restarted();
        lemma_same_rows_sound(next, again);
        lemma_expiring_all(again, due);
        let all = again.expiring_all(due);
        lemma_same_rows_sound(all, all.showing_timeouts());
    }
}

// ---- chats and sessions ----

proof fn lemma_upserting_chat(s: SnapshotModel, row: ConversationModel)
    requires
        s.sound(),
    ensures
        s.upserting_chat(row).sound(),
        s.keeps_pairing(s.upserting_chat(row)),
{
    reveal(SnapshotModel::upserting_chat);
    let put = s.chat_put(row);
    lemma_list_of(s, row.protocol);
    lemma_put_chat(s.rows(row.protocol), row);
    assert(put.lists_in_order()) by {
        reveal(SnapshotModel::lists_in_order);
    }
    lemma_threads_same(s, put);
    lemma_ensuring(put);
    lemma_same_rows_sound(put.ensuring(), put.ensuring().refocused(FocusFollow::List));
}

proof fn lemma_chat_dropped(s: SnapshotModel, chat: ChatId)
    requires
        s.sound(),
    ensures
        s.chat_dropped(chat).sound(),
        s.keeps_pairing(s.chat_dropped(chat)),
        s.chat_dropped(chat).selected_protocol == s.selected_protocol,
{
    let next = s.chat_dropped(chat);
    lemma_list_of(s, chat.0);
    lemma_filter_list(s.rows(chat.0), chat.0, chat_is_not(chat.1));
    assert(next.lists_in_order()) by {
        reveal(SnapshotModel::lists_in_order);
    }
    assert(next.threads_in_order()) by {
        reveal(SnapshotModel::threads_in_order);
    }
}

proof fn lemma_removing_chat(s: SnapshotModel, chat: ChatId)
    requires
        s.sound(),
    ensures
        s.removing_chat(chat).sound(),
        s.keeps_pairing(s.removing_chat(chat)),
{
    reveal(SnapshotModel::removing_chat);
    lemma_chat_dropped(s, chat);
    let dropped = s.chat_dropped(chat);
    if s.is_selected(chat) {
        let free = SnapshotModel {
            compose: Seq::empty(),
            selected_conversation: None,
            ..dropped
        };
        lemma_lists_same(dropped, free);
        lemma_threads_same(dropped, free);
        lemma_ensuring(free);
        lemma_same_rows_sound(free.ensuring(), free.ensuring().refocused(FocusFollow::List));
    } else {
        lemma_same_rows_sound(dropped, dropped.refocused(FocusFollow::List));
    }
}

/// A row that is not linked owes no session.
proof fn lemma_unlinked_sessions(s: SnapshotModel, protocol: ProtocolId)
    requires
        s.one_row_per_protocol(),
        linked_have_sessions(s.accounts, s.sessions),
    ensures
        linked_have_sessions(
            s.with_state(protocol, AccountState::Unlinked).accounts,
            s.sessions.remove(protocol),
        ),
{
    reveal(linked_have_sessions);
    let accounts = s.with_state(protocol, AccountState::Unlinked).accounts;
    let at = first_index(s.accounts, account_is(protocol));
    lemma_first_index(s.accounts, account_is(protocol));
    assert forall|i: int|
        0 <= i < accounts.len() && (#[trigger] accounts[i]).state
            == AccountState::Linked implies s.sessions.remove(protocol).contains(
        accounts[i].id,
    ) by {
        assert(s.accounts[i].id == accounts[i].id);
        if accounts[i].id == protocol {
            assert(account_is(protocol)(s.accounts[i]));
            assert(account_is(protocol)(s.accounts[at]));
        }
    }
}

/// Another link state or status line owes no other session, as long as a
/// linked row has one.
proof fn lemma_state_sessions(
    s: SnapshotModel,
    protocol: ProtocolId,
    state: AccountState,
    status: AdapterStatus,
    detail: Text,
)
    requires
        linked_have_sessions(s.accounts, s.sessions),
    ensures
        state != AccountState::Linked || s.sessions.contains(protocol) ==> linked_have_sessions(
            s.with_state(protocol, state).accounts,
            s.sessions,
        ),
        linked_have_sessions(s.status_noted(protocol, status, detail).accounts, s.sessions),
        linked_have_sessions(s.accounts, s.sessions.insert(protocol)),
        linked_have_sessions(
            s.with_state(protocol, state).accounts,
            s.sessions.insert(protocol),
        ),
{
    reveal(linked_have_sessions);
    lemma_first_index(s.accounts, account_is(protocol));
    let at = first_index(s.accounts, account_is(protocol));
    if at < s.accounts.len() {
        assert(account_is(protocol)(s.accounts[at]));
    }
    let noted = s.status_noted(protocol, status, detail).accounts;
    assert forall|i: int|
        0 <= i < noted.len() && (#[trigger] noted[i]).state
            == AccountState::Linked implies s.sessions.contains(noted[i].id) by {
        assert(s.accounts[i].id == noted[i].id);
    }
    let moved = s.with_state(protocol, state).accounts;
    assert forall|i: int|
        0 <= i < moved.len() && (#[trigger] moved[i]).state
            == AccountState::Linked implies s.sessions.insert(protocol).contains(moved[i].id) && (
    state != AccountState::Linked ==> s.sessions.contains(moved[i].id)) by {
        assert(s.accounts[i].id == moved[i].id);
    }
}

/// One more session keeps the state sound.
proof fn lemma_session_added(s: SnapshotModel, protocol: ProtocolId)
    requires
        s.sound(),
    ensures
        (SnapshotModel { sessions: s.sessions.insert(protocol), ..s }).sound(),
{
    let next = SnapshotModel { sessions: s.sessions.insert(protocol), ..s };
    lemma_state_sessions(s, protocol, AccountState::Unlinked, AdapterStatus::Ready, Seq::empty());
    lemma_lists_same(s, next);
    lemma_threads_same(s, next);
}

proof fn lemma_with_state(s: SnapshotModel, protocol: ProtocolId, state: AccountState)
    requires
        s.sound(),
        state != AccountState::Linked || s.sessions.contains(protocol),
    ensures
        s.with_state(protocol, state).sound(),
        s.keeps_pairing(s.with_state(protocol, state)),
{
    law_account_rows_stay(s, protocol, state, AdapterStatus::Ready, Seq::empty());
    lemma_state_sessions(s, protocol, state, AdapterStatus::Ready, Seq::empty());
    lemma_lists_same(s, s.with_state(protocol, state));
    lemma_threads_same(s, s.with_state(protocol, state));
}

/// What one protocol had goes: the rest is in order, with one account row per
/// protocol and valid sends.
proof fn lemma_session_dropped(s: SnapshotModel, protocol: ProtocolId)
    requires
        s.sound(),
    ensures
        s.session_dropped(protocol).one_row_per_protocol(),
        s.session_dropped(protocol).sends.valid(),
        s.session_dropped(protocol).lists_in_order(),
        s.session_dropped(protocol).threads_in_order(),
        linked_have_sessions(
            s.session_dropped(protocol).accounts,
            s.session_dropped(protocol).sessions,
        ),
        s.same_screens(s.session_dropped(protocol)),
{
    reveal(SnapshotModel::session_dropped);
    reveal(SnapshotModel::rows_dropped);
    reveal(SnapshotModel::work_dropped);
    reveal(SnapshotModel::lists_in_order);
    reveal(SnapshotModel::threads_in_order);
    law_account_rows_stay(s, protocol, AccountState::Unlinked, AdapterStatus::Ready, Seq::empty());
    lemma_unlinked_sessions(s, protocol);
    law_every_end_keeps_valid(s.sends, (protocol, Seq::empty()), 0, Seq::empty(), protocol, 0);
}

proof fn lemma_ending(s: SnapshotModel, protocol: ProtocolId)
    requires
        s.sound(),
    ensures
        s.ending(protocol).sound(),
        s.keeps_pairing(s.ending(protocol)),
{
    law_session_end_keeps_one_text_per_chat(s, protocol);
    lemma_session_dropped(s, protocol);
    reveal(SnapshotModel::ending);
    let dropped = s.session_dropped(protocol);
    if s.selected_protocol == protocol {
        let free = SnapshotModel {
            compose: Seq::empty(),
            selected_conversation: None,
            ..dropped
        };
        lemma_lists_same(dropped, free);
        lemma_threads_same(dropped, free);
        match find(free.accounts, free.shows_session()) {
            Some(row) => lemma_selecting_protocol(free, row.id),
            None => {},
        }
    }
}

proof fn lemma_session_started(s: SnapshotModel, protocol: ProtocolId)
    requires
        s.sound(),
    ensures
        s.session_started(protocol).sound(),
        s.keeps_pairing(s.session_started(protocol)),
{
    let next = s.session_started(protocol);
    let state = AccountState::Linked;
    let moved = s.with_state(protocol, state);
    assert(next.sessions == s.sessions.insert(protocol) && moved.same_rows(
        SnapshotModel { sessions: s.sessions, ..next },
    )) by {
        reveal(SnapshotModel::session_started);
    }
    law_account_rows_stay(s, protocol, state, AdapterStatus::Ready, Seq::empty());
    lemma_state_sessions(s, protocol, state, AdapterStatus::Ready, Seq::empty());
    lemma_lists_same(s, next);
    lemma_threads_same(s, next);
}

proof fn lemma_link_shown(s: SnapshotModel, protocol: ProtocolId, first: bool)
    requires
        s.sound(),
    ensures
        s.link_shown(protocol, first).sound(),
        s.keeps_pairing(s.link_shown(protocol, first)),
{
    reveal(SnapshotModel::link_shown);
    lemma_selecting_protocol(s, protocol);
    let shown = if first || !s.linked(s.selected_protocol) {
        s.selecting_protocol(protocol)
    } else {
        s
    };
    lemma_opening(shown);
}

proof fn lemma_whatsapp_linked(s: SnapshotModel)
    requires
        s.sound(),
    ensures
        s.whatsapp_linked().sound(),
        s.keeps_pairing(s.whatsapp_linked()),
{
    reveal(SnapshotModel::whatsapp_linked);
    lemma_screens_changed(s, s.whatsapp_linked());
}

proof fn lemma_signal_linked(s: SnapshotModel)
    requires
        s.sound(),
    ensures
        s.signal_linked().sound(),
        s.keeps_pairing(s.signal_linked()),
{
    reveal(SnapshotModel::signal_linked);
    let closed = SnapshotModel {
        signal_screen: SignalScreen::Hidden,
        pairing_generation: None,
        signal_qr: None,
        status_text: "Signal is linked on this local build."@,
        ..s
    };
    lemma_screens_changed(s, closed);
    lemma_selecting_protocol(closed, ProtocolId::Signal);
}

proof fn lemma_linking(s: SnapshotModel, protocol: ProtocolId)
    requires
        s.sound(),
    ensures
        s.linking(protocol).sound(),
        s.keeps_pairing(s.linking(protocol)),
{
    reveal(SnapshotModel::linking);
    let started = s.session_started(protocol);
    lemma_session_started(s, protocol);
    lemma_link_shown(started, protocol, !s.any_linked());
    let opened = started.link_shown(protocol, !s.any_linked());
    lemma_whatsapp_linked(opened);
    lemma_signal_linked(opened);
}

proof fn lemma_with_account(s: SnapshotModel, protocol: ProtocolId, state: AccountState)
    requires
        s.sound(),
    ensures
        s.with_account(protocol, state).sound(),
        s.keeps_pairing(s.with_account(protocol, state)),
{
    reveal(SnapshotModel::with_account);
    if state != AccountState::Linked {
        lemma_with_state(s, protocol, state);
    }
    let next = s.with_state(protocol, state);
    match state {
        AccountState::Linked => lemma_linking(s, protocol),
        AccountState::Linking => {},
        AccountState::Unlinked => {
            lemma_ending(next, protocol);
            let calm = SnapshotModel { signal_started: false, signal_qr: None, ..next };
            lemma_same_rows_sound(next, calm);
        },
    }
}

proof fn lemma_with_adapter_status(
    s: SnapshotModel,
    protocol: ProtocolId,
    status: AdapterStatus,
    detail: Text,
)
    requires
        s.sound(),
    ensures
        s.with_adapter_status(protocol, status, detail).sound(),
        s.keeps_pairing(s.with_adapter_status(protocol, status, detail)),
{
    reveal(SnapshotModel::with_adapter_status);
    reveal(SnapshotModel::without_spinners);
    let noted = s.status_noted(protocol, status, detail);
    law_account_rows_stay(s, protocol, AccountState::Unlinked, status, detail);
    lemma_state_sessions(s, protocol, AccountState::Unlinked, status, detail);
    lemma_lists_same(s, noted);
    lemma_threads_same(s, noted);
    lemma_same_rows_sound(noted, s.with_adapter_status(protocol, status, detail));
}

proof fn lemma_in_phase(s: SnapshotModel, phase: TelegramAuthPhase)
    requires
        s.sound(),
    ensures
        s.in_phase(phase).sound(),
        s.keeps_pairing(s.in_phase(phase)),
{
    reveal(SnapshotModel::in_phase);
    reveal(SnapshotModel::entering_phase);
    reveal(SnapshotModel::at_phone_step);
    reveal(SnapshotModel::at_code_step);
    reveal(SnapshotModel::at_password_step);
    reveal(SnapshotModel::step_refused);
    let next = s.entering_phase(phase);
    lemma_same_rows_sound(s, next);
    match phase {
        TelegramAuthPhase::Ready => lemma_login_ready(next),
        TelegramAuthPhase::Unavailable => {
            reveal(SnapshotModel::login_unavailable);
            lemma_same_rows_sound(next, next.without_secrets());
            let bare = next.without_secrets();
            lemma_with_state(bare, ProtocolId::Telegram, AccountState::Unlinked);
            lemma_unlinked_sessions(bare, ProtocolId::Telegram);
            let gone = SnapshotModel {
                sessions: bare.sessions.remove(ProtocolId::Telegram),
                ..bare.with_state(ProtocolId::Telegram, AccountState::Unlinked)
            };
            lemma_lists_same(bare, gone);
            lemma_threads_same(bare, gone);
            lemma_same_rows_sound(gone, next.login_unavailable());
        },
        _ => lemma_same_rows_sound(next, s.in_phase(phase)),
    }
}

proof fn lemma_login_ready(s: SnapshotModel)
    requires
        s.sound(),
    ensures
        s.login_ready().sound(),
        s.keeps_pairing(s.login_ready()),
{
    reveal(SnapshotModel::login_ready);
    reveal(SnapshotModel::telegram_started);
    lemma_same_rows_sound(s, s.without_secrets());
    let bare = s.without_secrets();
    let free = SnapshotModel { sessions: bare.sessions.insert(ProtocolId::Telegram), ..bare };
    lemma_session_added(bare, ProtocolId::Telegram);
    lemma_with_state(free, ProtocolId::Telegram, AccountState::Linked);
    let linked = s.telegram_started();
    lemma_same_rows_sound(free.with_state(ProtocolId::Telegram, AccountState::Linked), linked);
    lemma_selecting_protocol(linked, ProtocolId::Telegram);
    let shown = if linked.selected_protocol != ProtocolId::Telegram && linked.has_session(
        linked.selected_protocol,
    ) {
        linked
    } else {
        linked.selecting_protocol(ProtocolId::Telegram)
    };
    lemma_same_rows_sound(shown, s.login_ready());
}

proof fn lemma_telegram_ended(s: SnapshotModel)
    requires
        s.sound(),
    ensures
        s.telegram_ended().sound(),
        s.keeps_pairing(s.telegram_ended()),
{
    reveal(SnapshotModel::telegram_ended);
    if s.telegram_authorized {
        let out = SnapshotModel { telegram_authorized: false, ..s };
        lemma_same_rows_sound(s, out);
        lemma_ending(out, ProtocolId::Telegram);
        lemma_same_rows_sound(out.ending(ProtocolId::Telegram), s.telegram_ended());
    }
}

/// Every event keeps the state sound.
pub proof fn law_every_event_keeps_the_state_sound(s: SnapshotModel, event: AdapterEvent, now: u64)
    requires
        s.sound(),
    ensures
        s.applied(event, now).sound(),
        s.keeps_pairing(s.applied(event, now)),
{
    reveal(SnapshotModel::applied);
    reveal(SnapshotModel::applied_kept);
    if !s.drops(event) {
        match event {
            AdapterEvent::Status { protocol, status, detail } => lemma_with_adapter_status(
                s,
                protocol,
                status,
                detail@,
            ),
            AdapterEvent::Account { protocol, state } => lemma_with_account(s, protocol, state),
            AdapterEvent::ConversationUpsert { conversation } => lemma_upserting_chat(
                s,
                conversation.deep_view(),
            ),
            AdapterEvent::ConversationRemoved { protocol, id } => lemma_removing_chat(
                s,
                (protocol, id@),
            ),
            AdapterEvent::MessageReceived { message } => lemma_receiving(s, message.deep_view()),
            AdapterEvent::MessageReplaced { protocol, conversation_id, old_id, message } =>
                lemma_replacing(s, (protocol, conversation_id@), old_id@, message.deep_view()),
            AdapterEvent::MessageBody { protocol, conversation_id, message_id, body } =>
                lemma_patching(s, (protocol, conversation_id@), message_id@, body@),
            AdapterEvent::MessagesRemoved { protocol, conversation_id, message_ids } =>
                lemma_thinning(
                s,
                (protocol, conversation_id@),
                crate::state::model::message_not_in(message_ids.deep_view()),
            ),
            AdapterEvent::MessageDelivery { protocol, conversation_id, message_id, delivery } =>
                lemma_delivering(s, (protocol, conversation_id@), message_id@, delivery),
            AdapterEvent::SendAccepted { protocol, conversation_id, request } => lemma_accepted(
                s,
                (protocol, conversation_id@),
                request,
            ),
            AdapterEvent::SendRejected { protocol, conversation_id, request } => lemma_rejected(
                s,
                (protocol, conversation_id@),
                request,
            ),
            AdapterEvent::TelegramAuth { phase } => lemma_in_phase(s, phase),
            AdapterEvent::TelegramSessionEnded => lemma_telegram_ended(s),
            _ => lemma_other_event(s, event, now),
        }
    }
}

/// The other events change no row, no text, and no send.
proof fn lemma_other_event(s: SnapshotModel, event: AdapterEvent, now: u64)
    requires
        s.sound(),
        !(event is Status),
        !(event is Account),
        !(event is ConversationUpsert),
        !(event is ConversationRemoved),
        !(event is MessageReceived),
        !(event is MessageReplaced),
        !(event is MessageBody),
        !(event is MessagesRemoved),
        !(event is MessageDelivery),
        !(event is SendAccepted),
        !(event is SendRejected),
        !(event is TelegramAuth),
        !(event is TelegramSessionEnded),
    ensures
        s.applied_kept(event, now).sound(),
        s.keeps_pairing(s.applied_kept(event, now)),
{
    reveal(SnapshotModel::applied_kept);
    reveal(SnapshotModel::list_loaded);
    reveal(SnapshotModel::history_loaded);
    reveal(SnapshotModel::older_loaded);
    reveal(SnapshotModel::without_spinners);
    reveal(SnapshotModel::noticed);
    reveal(SnapshotModel::adapter_stopped);
    reveal(SnapshotModel::flush_asked);
    reveal(SnapshotModel::step_rejected);
    reveal(SnapshotModel::code_sent);
    reveal(SnapshotModel::data_moved);
    reveal(SnapshotModel::whatsapp_qr_shown);
    reveal(SnapshotModel::whatsapp_code_shown);
    reveal(SnapshotModel::signal_qr_shown);
    lemma_same_rows_sound(s, s.applied_kept(event, now));
}

// ---- actions ----

/// The state at launch is sound.
pub proof fn law_launch_is_sound(build: Build, api_source: Option<(Text, Text)>)
    ensures
        SnapshotModel::at_launch(build, api_source).sound(),
        SnapshotModel::at_launch(build, api_source).risk_stage() == RiskStage::Closed,
{
    law_launch_is_empty(build, api_source, (ProtocolId::Telegram, Seq::empty()));
    reveal(linked_have_sessions);
    reveal(SnapshotModel::lists_in_order);
    reveal(SnapshotModel::threads_in_order);
}

proof fn lemma_refreshing(s: SnapshotModel, n: nat)
    ensures
        s.same_rows(s.refreshing(n)),
    decreases n,
{
    if n > 0 && n <= s.accounts.len() {
        lemma_refreshing(s, (n - 1) as nat);
    }
}

/// Every action on the inbox keeps the state sound.
pub proof fn law_every_inbox_action_keeps_the_state_sound(
    s: SnapshotModel,
    protocol: ProtocolId,
    id: Text,
    delta: int,
    filter: InboxFilter,
    text: Text,
    chat: ChatId,
    now: u64,
)
    requires
        s.sound(),
    ensures
        s.selecting_protocol(protocol).sound(),
        s.keeps_pairing(s.selecting_protocol(protocol)),
        s.picking(id).sound(),
        s.keeps_pairing(s.picking(id)),
        s.moving(delta).sound(),
        s.keeps_pairing(s.moving(delta)),
        s.focusing(id).sound(),
        s.keeps_pairing(s.focusing(id)),
        s.filtering(filter).sound(),
        s.keeps_pairing(s.filtering(filter)),
        s.searching(text).sound(),
        s.keeps_pairing(s.searching(text)),
        s.refreshed().sound(),
        s.keeps_pairing(s.refreshed()),
        s.without_error().sound(),
        s.keeps_pairing(s.without_error()),
        s.drafting(chat, text).sound(),
        s.keeps_pairing(s.drafting(chat, text)),
        s.loading_older(now).sound(),
        s.keeps_pairing(s.loading_older(now)),
        s.connecting(protocol).sound(),
        s.keeps_pairing(s.connecting(protocol)),
        s.syncing_viewed().sound(),
        s.keeps_pairing(s.syncing_viewed()),
        s.expiring(now).sound(),
        s.keeps_pairing(s.expiring(now)),
{
    lemma_selecting_protocol(s, protocol);
    lemma_picking(s, id);
    lemma_filtering(s, filter);
    lemma_drafting(s, chat, text);
    lemma_expiring(s, now);
    lemma_refreshing(s, s.accounts.len());
    reveal(SnapshotModel::moving);
    reveal(SnapshotModel::focusing);
    reveal(SnapshotModel::searching);
    reveal(SnapshotModel::refreshed);
    reveal(SnapshotModel::without_error);
    reveal(SnapshotModel::loading_older);
    reveal(SnapshotModel::connecting);
    reveal(SnapshotModel::syncing_viewed);
    lemma_same_rows_sound(s, s.moving(delta));
    lemma_same_rows_sound(s, s.focusing(id));
    lemma_same_rows_sound(s, s.searching(text));
    lemma_same_rows_sound(s, s.refreshed());
    lemma_same_rows_sound(s, s.without_error());
    lemma_same_rows_sound(s, s.loading_older(now));
    lemma_same_rows_sound(s, s.connecting(protocol));
    lemma_same_rows_sound(s, s.syncing_viewed());
}

/// Every send and every retry keeps the state sound.
pub proof fn law_every_send_keeps_the_state_sound(s: SnapshotModel, message_id: Text, now: u64)
    requires
        s.sound(),
    ensures
        (s.can_send() ==> s.sends.next < u64::MAX) ==> s.sending(now).sound(),
        (s.can_retry(message_id) ==> s.sends.next < u64::MAX) ==> s.retrying(
            message_id,
            now,
        ).sound(),
        s.keeps_pairing(s.sending(now)),
        s.keeps_pairing(s.retrying(message_id, now)),
{
    if s.can_send() ==> s.sends.next < u64::MAX {
        lemma_sending(s, now);
    }
    if s.can_retry(message_id) ==> s.sends.next < u64::MAX {
        lemma_retrying(s, message_id, now);
    }
    reveal(SnapshotModel::sending);
    reveal(SnapshotModel::retrying);
}

/// Every login action keeps the state sound.
pub proof fn law_every_login_action_keeps_the_state_sound(
    s: SnapshotModel,
    store: StoreModel,
    field: AuthField,
    text: Text,
    key: AuthKey,
    now: u64,
)
    requires
        s.sound(),
    ensures
        s.adding_account(store).sound(),
        s.keeps_pairing(s.adding_account(store)),
        s.opening_override(store).sound(),
        s.keeps_pairing(s.opening_override(store)),
        s.with_field(field, text).sound(),
        s.keeps_pairing(s.with_field(field, text)),
        s.advancing().sound(),
        s.keeps_pairing(s.advancing()),
        s.cancelling().sound(),
        s.keeps_pairing(s.cancelling()),
        s.changing_number().sound(),
        s.keeps_pairing(s.changing_number()),
        s.resending_code().sound(),
        s.keeps_pairing(s.resending_code()),
        s.retrying_keychain().sound(),
        s.keeps_pairing(s.retrying_keychain()),
        s.screen_key(key, store).sound(),
        s.keeps_pairing(s.screen_key(key, store)),
        s.polling(store, now).sound(),
        s.keeps_pairing(s.polling(store, now)),
{
    assert(s.same_rows(s.adding_account(store))) by {
        reveal(SnapshotModel::adding_account);
        reveal(SnapshotModel::opening_telegram);
    }
    assert(s.same_rows(s.opening_override(store))) by {
        reveal(SnapshotModel::opening_override);
        reveal(SnapshotModel::at_api_form);
    }
    assert(s.same_rows(s.with_field(field, text))) by {
        reveal(SnapshotModel::with_field);
    }
    assert(s.same_rows(s.advancing())) by {
        reveal(SnapshotModel::advancing);
    }
    assert(s.same_rows(s.cancelling())) by {
        reveal(SnapshotModel::cancelling);
    }
    assert(s.same_rows(s.changing_number())) by {
        reveal(SnapshotModel::changing_number);
    }
    assert(s.same_rows(s.resending_code())) by {
        reveal(SnapshotModel::resending_code);
    }
    assert(s.same_rows(s.retrying_keychain())) by {
        reveal(SnapshotModel::retrying_keychain);
    }
    assert(s.same_rows(s.screen_key(key, store))) by {
        reveal(SnapshotModel::screen_key);
        reveal(SnapshotModel::login_key);
    }
    assert(s.same_rows(s.polling(store, now))) by {
        reveal(SnapshotModel::polling);
        reveal(SnapshotModel::keychain_seen);
        reveal(SnapshotModel::resuming);
    }
    lemma_same_rows_sound(s, s.adding_account(store));
    lemma_same_rows_sound(s, s.opening_override(store));
    lemma_same_rows_sound(s, s.with_field(field, text));
    lemma_same_rows_sound(s, s.advancing());
    lemma_same_rows_sound(s, s.cancelling());
    lemma_same_rows_sound(s, s.changing_number());
    lemma_same_rows_sound(s, s.resending_code());
    lemma_same_rows_sound(s, s.retrying_keychain());
    lemma_same_rows_sound(s, s.screen_key(key, store));
    lemma_same_rows_sound(s, s.polling(store, now));
}

/// Every action on the WhatsApp and Signal screens keeps the state sound.
pub proof fn law_every_pairing_action_keeps_the_state_sound(s: SnapshotModel)
    requires
        s.sound(),
    ensures
        s.opening_whatsapp_gate().sound(),
        s.closing_whatsapp_gate().sound(),
        s.accepting_whatsapp_risk().sound(),
        s.pairing_whatsapp().sound(),
        s.cancelling_whatsapp().sound(),
        s.opening_signal_notice().sound(),
        s.closing_signal_gate().sound(),
        s.accepting_signal_notice().sound(),
        s.linking_signal().sound(),
        s.cancelling_signal().sound(),
{
    assert(s.opening_whatsapp_gate().sound()) by {
        reveal(SnapshotModel::opening_whatsapp_gate);
        lemma_screens_changed(s, s.opening_whatsapp_gate());
    }
    assert(s.closing_whatsapp_gate().sound()) by {
        reveal(SnapshotModel::closing_whatsapp_gate);
        reveal(SnapshotModel::cancelling_whatsapp);
        lemma_screens_changed(s, s.closing_whatsapp_gate());
    }
    assert(s.accepting_whatsapp_risk().sound()) by {
        reveal(SnapshotModel::accepting_whatsapp_risk);
        lemma_screens_changed(s, s.accepting_whatsapp_risk());
    }
    assert(s.pairing_whatsapp().sound()) by {
        reveal(SnapshotModel::pairing_whatsapp);
        lemma_screens_changed(s, s.pairing_whatsapp());
    }
    assert(s.cancelling_whatsapp().sound()) by {
        reveal(SnapshotModel::cancelling_whatsapp);
        lemma_screens_changed(s, s.cancelling_whatsapp());
    }
    assert(s.opening_signal_notice().sound()) by {
        reveal(SnapshotModel::opening_signal_notice);
        lemma_screens_changed(s, s.opening_signal_notice());
    }
    assert(s.closing_signal_gate().sound()) by {
        reveal(SnapshotModel::closing_signal_gate);
        reveal(SnapshotModel::cancelling_signal);
        lemma_screens_changed(s, s.closing_signal_gate());
    }
    assert(s.accepting_signal_notice().sound()) by {
        reveal(SnapshotModel::accepting_signal_notice);
        lemma_screens_changed(s, s.accepting_signal_notice());
    }
    assert(s.linking_signal().sound()) by {
        reveal(SnapshotModel::linking_signal);
        lemma_screens_changed(s, s.linking_signal());
    }
    assert(s.cancelling_signal().sound()) by {
        reveal(SnapshotModel::cancelling_signal);
        lemma_screens_changed(s, s.cancelling_signal());
    }
}

/// The WhatsApp screens stand for the order of the calls. Opening asks, and
/// accepting counts only after opening. A cancel, a close, and a pairing that
/// starts end the way, so that the next pairing is asked for again.
pub proof fn law_risk_is_asked_then_accepted(s: SnapshotModel)
    requires
        s.sound(),
    ensures
        s.build.whatsapp_web ==> s.opening_whatsapp_gate().risk_stage() == RiskStage::Asked,
        !s.build.whatsapp_web ==> s.opening_whatsapp_gate() == s,
        s.accepting_whatsapp_risk().risk_stage() == (if s.risk_stage() == RiskStage::Asked {
            RiskStage::Accepted
        } else {
            s.risk_stage()
        }),
        s.pairing_whatsapp().risk_stage() == (if s.risk_stage() == RiskStage::Accepted {
            RiskStage::Closed
        } else {
            s.risk_stage()
        }),
        s.cancelling_whatsapp().risk_stage() == RiskStage::Closed,
        s.closing_whatsapp_gate().risk_stage() == RiskStage::Closed,
{
    reveal(SnapshotModel::opening_whatsapp_gate);
    reveal(SnapshotModel::accepting_whatsapp_risk);
    reveal(SnapshotModel::pairing_whatsapp);
    reveal(SnapshotModel::cancelling_whatsapp);
    reveal(SnapshotModel::closing_whatsapp_gate);
}

/// A pairing starts exactly when the risk was asked and accepted. Then one
/// command goes out, with a number that no pairing had before. The phone number
/// is in the vault, not on the command, and its field is empty. Otherwise
/// nothing changes.
pub proof fn law_pairing_starts_after_the_accept(s: SnapshotModel, held: Option<Text>)
    ensures
        s.risk_stage() == RiskStage::Accepted && s.next_pairing_generation < u64::MAX ==> {
            let next = s.pairing_whatsapp();
            &&& next.pending == s.pending.push(
                CommandModel::WhatsAppBeginLink { generation: s.next_pairing_generation },
            )
            &&& next.pairing_generation == Some(s.next_pairing_generation)
            &&& next.next_pairing_generation == s.next_pairing_generation + 1
            &&& next.whatsapp_phone.len() == 0
            &&& s.phone_after_pairing(held) == (if trim(s.whatsapp_phone).len() == 0 {
                None
            } else {
                Some(trim(s.whatsapp_phone))
            })
        },
        s.risk_stage() != RiskStage::Accepted ==> s.pairing_whatsapp() == s
            && s.phone_after_pairing(held) == held,
{
    reveal(SnapshotModel::pairing_whatsapp);
}

/// No screen gives a number back: a pairing that starts later has a larger one.
pub proof fn law_pairing_numbers_grow(s: SnapshotModel)
    requires
        s.next_pairing_generation < u64::MAX,
    ensures
        s.opening_whatsapp_gate().next_pairing_generation == s.next_pairing_generation,
        s.closing_whatsapp_gate().next_pairing_generation == s.next_pairing_generation,
        s.accepting_whatsapp_risk().next_pairing_generation == s.next_pairing_generation,
        s.cancelling_whatsapp().next_pairing_generation == s.next_pairing_generation,
        s.pairing_whatsapp().next_pairing_generation >= s.next_pairing_generation,
        s.opening_signal_notice().next_pairing_generation == s.next_pairing_generation,
        s.closing_signal_gate().next_pairing_generation == s.next_pairing_generation,
        s.accepting_signal_notice().next_pairing_generation == s.next_pairing_generation,
        s.cancelling_signal().next_pairing_generation == s.next_pairing_generation,
        s.linking_signal().next_pairing_generation >= s.next_pairing_generation,
{
    reveal(SnapshotModel::opening_whatsapp_gate);
    reveal(SnapshotModel::closing_whatsapp_gate);
    reveal(SnapshotModel::accepting_whatsapp_risk);
    reveal(SnapshotModel::pairing_whatsapp);
    reveal(SnapshotModel::cancelling_whatsapp);
    reveal(SnapshotModel::opening_signal_notice);
    reveal(SnapshotModel::closing_signal_gate);
    reveal(SnapshotModel::accepting_signal_notice);
    reveal(SnapshotModel::linking_signal);
    reveal(SnapshotModel::cancelling_signal);
}

/// With a sound state, a linked protocol is in the sessions.
proof fn lemma_linked_is_in_sessions(s: SnapshotModel, protocol: ProtocolId)
    requires
        s.sound(),
    ensures
        s.linked(protocol) ==> s.sessions.contains(protocol),
{
    reveal(linked_have_sessions);
    lemma_some_row(s.accounts, linked_is(protocol));
    if s.linked(protocol) {
        let i = choose|i: int|
            0 <= i < s.accounts.len() && linked_is(protocol)(#[trigger] s.accounts[i]);
        assert(s.accounts[i].state == AccountState::Linked);
    }
}

proof fn lemma_linking_sessions(s: SnapshotModel, protocol: ProtocolId)
    ensures
        s.linking(protocol).sessions.contains(protocol),
{
    reveal(SnapshotModel::linking);
    reveal(SnapshotModel::session_started);
    reveal(SnapshotModel::link_shown);
    reveal(SnapshotModel::whatsapp_linked);
    reveal(SnapshotModel::signal_linked);
    let started = s.session_started(protocol);
    let first = !s.any_linked();
    lemma_selecting_protocol_frame(started, protocol);
    let shown = if first || !started.linked(started.selected_protocol) {
        started.selecting_protocol(protocol)
    } else {
        started
    };
    lemma_opening_frame(shown);
    let opened = started.link_shown(protocol, first);
    let closed = SnapshotModel {
        signal_screen: SignalScreen::Hidden,
        pairing_generation: None,
        signal_qr: None,
        status_text: "Signal is linked on this local build."@,
        ..opened
    };
    lemma_selecting_protocol_frame(closed, ProtocolId::Signal);
}

/// A protocol whose one row is not linked is not linked, and sends no text.
proof fn lemma_not_linked(s: SnapshotModel, protocol: ProtocolId, state: AccountState)
    requires
        s.one_row_per_protocol(),
        state != AccountState::Linked,
    ensures
        !s.with_state(protocol, state).linked(protocol),
        !s.with_state(protocol, state).sends_text(protocol),
{
    let rows = s.with_state(protocol, state).accounts;
    let at = first_index(s.accounts, account_is(protocol));
    lemma_first_index(s.accounts, account_is(protocol));
    lemma_some_row(rows, linked_is(protocol));
    lemma_some_row(rows, sender_is(protocol));
    assert forall|i: int| 0 <= i < rows.len() implies !linked_is(protocol)(#[trigger] rows[i]) && !sender_is(
        protocol,
    )(rows[i]) by {
        if rows[i].id == protocol {
            assert(account_is(protocol)(s.accounts[i]));
            assert(account_is(protocol)(s.accounts[at]));
        }
    }
}

proof fn lemma_ending_sends(s: SnapshotModel, protocol: ProtocolId)
    ensures
        s.ending(protocol).sends == s.sends.without_protocol(protocol),
{
    let other = if protocol == ProtocolId::Telegram {
        ProtocolId::Slack
    } else {
        ProtocolId::Telegram
    };
    law_session_end_stays_in_its_protocol(s, protocol, other, Seq::empty());
}

/// No send of a protocol is open after all of them were dropped.
proof fn lemma_without_protocol(sends: SendsModel, protocol: ProtocolId, id: Text)
    ensures
        !sends.without_protocol(protocol).in_flight((protocol, id)),
{
    let keep = not_of_owner(protocol);
    let left = sends.open.filter(keep);
    lemma_some_row(left, of_chat((protocol, id)));
    assert forall|i: int| 0 <= i < left.len() implies !of_chat((protocol, id))(
        #[trigger] left[i],
    ) by {
        assert(left.contains(left[i]));
        lemma_filter_contains(sends.open, keep, left[i]);
    }
}

/// What each link state makes of a session. A linked account has one. An
/// unlinked one has none, and what it had is gone. A link that connects again
/// keeps the session as it was: an answer to an open send still applies, and
/// nothing new goes out until the account is linked.
pub proof fn law_link_state_decides_the_session(
    s: SnapshotModel,
    protocol: ProtocolId,
    id: Text,
    event: AdapterEvent,
)
    requires
        s.sound(),
    ensures
        s.with_account(protocol, AccountState::Linked).has_session(protocol),
        !s.with_account(protocol, AccountState::Unlinked).has_session(protocol),
        s.has_session(protocol) ==> {
            let next = s.with_account(protocol, AccountState::Unlinked);
            &&& next.rows(protocol).len() == 0
            &&& next.thread((protocol, id)).len() == 0
            &&& !next.sends.in_flight((protocol, id))
        },
        ({
            let next = s.with_account(protocol, AccountState::Linking);
            &&& next.has_session(protocol) == s.has_session(protocol)
            &&& next.rows(protocol) == s.rows(protocol)
            &&& next.thread((protocol, id)) == s.thread((protocol, id))
            &&& next.unsent((protocol, id)) == s.unsent((protocol, id))
            &&& next.sends == s.sends
            &&& event.inbox_of() == Some(protocol) ==> next.drops(event) == s.drops(event)
            &&& next.selected_protocol == protocol ==> !next.can_send()
        }),
{
    reveal(SnapshotModel::with_account);
    lemma_linked_is_in_sessions(s, protocol);
    // Linked
    assert(s.linking(protocol).sessions.contains(protocol)) by {
        lemma_linking_sessions(s, protocol);
    }
    // Unlinked
    let gone = s.with_state(protocol, AccountState::Unlinked);
    lemma_with_state(s, protocol, AccountState::Unlinked);
    law_session_end_empties_its_protocol(gone, protocol, id);
    lemma_not_linked(s, protocol, AccountState::Unlinked);
    assert(gone.ending(protocol).sends == gone.sends.without_protocol(protocol)) by {
        lemma_ending_sends(gone, protocol);
    }
    lemma_without_protocol(gone.sends, protocol, id);
    // Linking
    lemma_not_linked(s, protocol, AccountState::Linking);
}

/// Changes outside the rows, the texts, and the sends keep the state sound.
pub proof fn law_other_changes_keep_the_state_sound(s: SnapshotModel, next: SnapshotModel)
    requires
        s.sound(),
        s.same_rows(next),
    ensures
        next.sound(),
        s.keeps_pairing(next),
{
    lemma_same_rows_sound(s, next);
}

} // verus!
