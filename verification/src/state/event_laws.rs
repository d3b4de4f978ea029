//! What each adapter event does to the threads and the inbox, said over the
//! messages and the chat rows themselves.

use crate::lists::{
    first_index, lemma_filter_contains, lemma_first_index, lemma_ranked_contains, ranked,
};
use crate::protocol::{
    AdapterEvent, ChatId, ChatMessage, Conversation, ConversationModel, Delivery, MessageModel,
    ProtocolId,
};
use crate::state::laws::{lemma_ensuring_frame, lemma_opening_frame};
use crate::state::model::{
    SnapshotModel, chat_is, chat_is_not, find, message_is, message_is_not, message_not_in,
    real_chat, upserted_chat, upserted_message,
};
use crate::state::reading_laws::{law_inbox_stands_by_order, law_thread_stands_by_time};
use crate::text::trim;
use vstd::prelude::*;
use vstd::string::*;

verus! {

// ---- messages ----

/// A thread with one message put in: it holds that message, every other id it
/// held before with the same message, and no other.
proof fn lemma_put_holds(list: Seq<MessageModel>, row: MessageModel, other: MessageModel)
    requires
        forall|i: int, j: int|
            0 <= i < j < list.len() ==> (#[trigger] list[i]).id != (#[trigger] list[j]).id,
    ensures
        ranked::<ChatMessage>(upserted_message(list, row)).contains(row),
        other.id != row.id ==> ranked::<ChatMessage>(upserted_message(list, row)).contains(other)
            == list.contains(other),
        other.id == row.id && ranked::<ChatMessage>(upserted_message(list, row)).contains(other)
            ==> other == row,
{
    let put = upserted_message(list, row);
    lemma_first_index(list, message_is(row.id));
    let at = first_index(list, message_is(row.id));
    lemma_ranked_contains::<ChatMessage>(put, row);
    lemma_ranked_contains::<ChatMessage>(put, other);
    if at < list.len() {
        assert(put[at] == row);
        assert(message_is(row.id)(list[at]));
    } else {
        assert(put[list.len() as int] == row);
    }
    if list.contains(other) && other.id != row.id {
        let k = choose|k: int| 0 <= k < list.len() && list[k] == other;
        assert(put[k] == other);
    }
    if put.contains(other) {
        let k = choose|k: int| 0 <= k < put.len() && put[k] == other;
        if other.id != row.id {
            assert(list[k] == other);
        } else if k < list.len() && put[k] == list[k] {
            if at < list.len() {
                if k < at {
                    assert(!message_is(row.id)(list[k]));
                } else if k > at {
                    assert(list[at].id != list[k].id);
                }
            } else {
                assert(!message_is(row.id)(list[k]));
            }
        }
    }
}

proof fn lemma_thread_differs(s: SnapshotModel, chat: ChatId)
    requires
        s.sound(),
    ensures
        forall|i: int, j: int|
            0 <= i < j < s.thread(chat).len() ==> (#[trigger] s.thread(chat)[i]).id != (
            #[trigger] s.thread(chat)[j]).id,
{
    if s.messages.contains_key(chat) {
        law_thread_stands_by_time(s, chat);
    }
}

/// A received message stands in the thread of its chat as it came. Every other
/// message of every chat stays.
pub proof fn law_received_message_stands_in_its_thread(
    s: SnapshotModel,
    message: ChatMessage,
    now: u64,
    other: MessageModel,
    elsewhere: ChatId,
)
    requires
        s.sound(),
        s.has_session(message.protocol),
        elsewhere != (message.protocol, message.conversation_id@),
    ensures
        ({
            let next = s.applied(AdapterEvent::MessageReceived { message }, now);
            let chat = (message.protocol, message.conversation_id@);
            &&& next.messages.contains_key(chat)
            &&& next.messages[chat].contains(message.deep_view())
            &&& other.id != message.id@ ==> next.messages[chat].contains(other) == s.thread(
                chat,
            ).contains(other)
            &&& other.id == message.id@ && next.messages[chat].contains(other) ==> other
                == message.deep_view()
            &&& next.messages.contains_key(elsewhere) == s.messages.contains_key(elsewhere)
            &&& next.thread(elsewhere) == s.thread(elsewhere)
            &&& next.conversations == s.conversations
            &&& next.sends == s.sends
            &&& next.pending == s.pending
        }),
{
    reveal(SnapshotModel::applied);
    reveal(SnapshotModel::applied_kept);
    reveal(SnapshotModel::receiving);
    let row = message.deep_view();
    let chat = (row.protocol, row.conversation_id);
    lemma_thread_differs(s, chat);
    lemma_put_holds(s.thread(chat), row, other);
}

/// A received message changes no text and no error, unless it says that a
/// message that was on its way failed. Then the error says so, and its text
/// is kept where nothing else was written.
pub proof fn law_received_failure_keeps_the_text(s: SnapshotModel, message: ChatMessage, now: u64)
    requires
        s.has_session(message.protocol),
    ensures
        ({
            let next = s.applied(AdapterEvent::MessageReceived { message }, now);
            let chat = (message.protocol, message.conversation_id@);
            let failed = message.outbound && message.delivery == Delivery::Failed && s.delivery(
                chat,
                message.id@,
            ) == Some(Delivery::Pending);
            &&& !failed ==> next.error == s.error && next.compose == s.compose && next.drafts
                == s.drafts
            &&& failed ==> next.error.is_some() && next.error.unwrap().happened
                == "Message not sent."@
            &&& failed && s.is_selected(chat) && trim(s.compose).len() == 0 ==> next.compose
                == message.body@
            &&& failed && s.is_selected(chat) && trim(s.compose).len() > 0 ==> next.compose
                == s.compose
            &&& failed && !s.is_selected(chat) && !s.drafts.contains_key(chat)
                ==> next.drafts.contains_key(chat) && next.drafts[chat] == message.body@
            &&& failed && s.drafts.contains_key(chat) && !s.is_selected(chat) ==> next.drafts
                == s.drafts
        }),
{
    reveal(SnapshotModel::applied);
    reveal(SnapshotModel::applied_kept);
    reveal(SnapshotModel::receiving);
}

/// An edited message shows its new body, whoever wrote it. Nothing else of it
/// changes, and no other message of any chat does.
pub proof fn law_edit_changes_the_named_message_only(
    s: SnapshotModel,
    protocol: ProtocolId,
    conversation_id: String,
    message_id: String,
    body: String,
    now: u64,
    of: ChatId,
    i: int,
)
    requires
        s.sound(),
        s.has_session(protocol),
        s.messages.contains_key(of),
        0 <= i < s.messages[of].len(),
    ensures
        ({
            let next = s.applied(
                AdapterEvent::MessageBody { protocol, conversation_id, message_id, body },
                now,
            );
            let named = of == (protocol, conversation_id@) && s.messages[of][i].id == message_id@;
            &&& next.messages.contains_key(of)
            &&& next.messages[of].len() == s.messages[of].len()
            &&& named ==> next.messages[of][i] == (MessageModel {
                body: body@,
                ..s.messages[of][i]
            })
            &&& !named ==> next.messages[of][i] == s.messages[of][i]
            &&& next.messages.dom() =~= s.messages.dom()
            &&& next.error == s.error && next.compose == s.compose && next.drafts == s.drafts
            &&& next.conversations == s.conversations && next.sends == s.sends && next.pending
                == s.pending
        }),
{
    reveal(SnapshotModel::applied);
    reveal(SnapshotModel::applied_kept);
    reveal(SnapshotModel::patching);
    let chat = (protocol, conversation_id@);
    let list = s.thread(chat);
    let at = first_index(list, message_is(message_id@));
    lemma_first_index(list, message_is(message_id@));
    lemma_thread_differs(s, chat);
    if at < list.len() {
        assert(message_is(message_id@)(list[at]));
        if of == chat && i != at {
            if i < at {
                assert(list[i].id != list[at].id);
            } else {
                assert(list[at].id != list[i].id);
            }
        }
    } else if of == chat {
        assert(!message_is(message_id@)(list[i]));
    }
}

/// A replaced message: the old id is gone, and the new message stands in its
/// chat. Every other message stays.
pub proof fn law_replacement_takes_the_old_id_away(
    s: SnapshotModel,
    conversation_id: String,
    old_id: String,
    message: ChatMessage,
    now: u64,
    other: MessageModel,
    elsewhere: ChatId,
)
    requires
        s.sound(),
        s.has_session(message.protocol),
        conversation_id@ == message.conversation_id@,
        elsewhere != (message.protocol, message.conversation_id@),
    ensures
        ({
            let protocol = message.protocol;
            let next = s.applied(
                AdapterEvent::MessageReplaced { protocol, conversation_id, old_id, message },
                now,
            );
            let chat = (protocol, conversation_id@);
            &&& next.messages.contains_key(chat)
            &&& next.messages[chat].contains(message.deep_view())
            &&& other.id == old_id@ && old_id@ != message.id@ ==> !next.messages[chat].contains(
                other,
            )
            &&& other.id != old_id@ && other.id != message.id@ ==> next.messages[chat].contains(
                other,
            ) == s.thread(chat).contains(other)
            &&& next.thread(elsewhere) == s.thread(elsewhere)
            &&& next.conversations == s.conversations && next.sends == s.sends && next.pending
                == s.pending
        }),
{
    reveal(SnapshotModel::applied);
    reveal(SnapshotModel::applied_kept);
    reveal(SnapshotModel::replacing);
    reveal(SnapshotModel::thinning);
    let row = message.deep_view();
    let chat = (row.protocol, row.conversation_id);
    let list = s.thread(chat);
    let keep = message_is_not(old_id@);
    lemma_thread_differs(s, chat);
    let left = list.filter(keep);
    lemma_filter_contains(list, keep, other);
    crate::lists::lemma_filter_pairwise(
        list,
        keep,
        crate::state::soundness::messages_differ(),
    );
    assert forall|i: int, j: int| 0 <= i < j < left.len() implies (#[trigger] left[i]).id != (
    #[trigger] left[j]).id by {
        assert(crate::state::soundness::messages_differ()(left[i], left[j]));
    }
    lemma_put_holds(left, row, other);
    let noted = s.noting_delivery(s.delivery(chat, old_id@), row);
    assert(noted.messages == s.messages);
    let thinned = noted.thinning(chat, keep);
    if !s.messages.contains_key(chat) {
        assert(list =~= Seq::empty());
        assert(left =~= Seq::empty()) by {
            crate::lists::lemma_filter_every(list, keep, |m: MessageModel| false);
            if left.len() > 0 {
                assert((|m: MessageModel| false)(left[0]));
            }
        }
    }
    assert(thinned.thread(chat) == left);
}

/// Deleted messages are gone from their chat, and only they: every other message
/// of every chat stays, in the same order.
pub proof fn law_delete_takes_the_named_messages_only(
    s: SnapshotModel,
    protocol: ProtocolId,
    conversation_id: String,
    message_ids: Vec<String>,
    now: u64,
    other: MessageModel,
    elsewhere: ChatId,
)
    requires
        s.has_session(protocol),
        elsewhere != (protocol, conversation_id@),
    ensures
        ({
            let next = s.applied(
                AdapterEvent::MessagesRemoved { protocol, conversation_id, message_ids },
                now,
            );
            let chat = (protocol, conversation_id@);
            &&& next.thread(chat).contains(other) == (s.thread(chat).contains(other) && forall|
                k: int,
            |
                0 <= k < message_ids@.len() ==> (#[trigger] message_ids@[k])@ != other.id)
            &&& next.thread(elsewhere) == s.thread(elsewhere)
            &&& next.conversations == s.conversations && next.sends == s.sends && next.pending
                == s.pending && next.error == s.error && next.drafts == s.drafts && next.compose
                == s.compose
        }),
{
    reveal(SnapshotModel::applied);
    reveal(SnapshotModel::applied_kept);
    reveal(SnapshotModel::thinning);
    let chat = (protocol, conversation_id@);
    let ids = message_ids.deep_view();
    lemma_filter_contains(s.thread(chat), message_not_in(ids), other);
    if ids.contains(other.id) {
        let k = choose|k: int| 0 <= k < ids.len() && ids[k] == other.id;
        assert(message_ids@[k]@ == other.id);
    }
    if exists|k: int| 0 <= k < message_ids@.len() && (#[trigger] message_ids@[k])@ == other.id {
        let k = choose|k: int| 0 <= k < message_ids@.len() && (#[trigger] message_ids@[k])@
            == other.id;
        assert(ids[k] == other.id);
    }
}

/// A delivery report changes the delivery of the named message and nothing else
/// of any message.
pub proof fn law_delivery_changes_the_named_message_only(
    s: SnapshotModel,
    protocol: ProtocolId,
    conversation_id: String,
    message_id: String,
    delivery: Delivery,
    now: u64,
    of: ChatId,
    i: int,
)
    requires
        s.sound(),
        s.has_session(protocol),
        s.messages.contains_key(of),
        0 <= i < s.messages[of].len(),
    ensures
        ({
            let next = s.applied(
                AdapterEvent::MessageDelivery { protocol, conversation_id, message_id, delivery },
                now,
            );
            let named = of == (protocol, conversation_id@) && s.messages[of][i].id == message_id@;
            &&& next.messages.contains_key(of)
            &&& next.messages[of].len() == s.messages[of].len()
            &&& named ==> next.messages[of][i] == (MessageModel { delivery, ..s.messages[of][i] })
            &&& !named ==> next.messages[of][i] == s.messages[of][i]
            &&& next.conversations == s.conversations && next.sends == s.sends && next.pending
                == s.pending
            &&& delivery != Delivery::Failed ==> next.error == s.error && next.compose == s.compose
                && next.drafts == s.drafts
        }),
{
    reveal(SnapshotModel::applied);
    reveal(SnapshotModel::applied_kept);
    reveal(SnapshotModel::delivering);
    let chat = (protocol, conversation_id@);
    let list = s.thread(chat);
    let at = first_index(list, message_is(message_id@));
    lemma_first_index(list, message_is(message_id@));
    lemma_thread_differs(s, chat);
    if at < list.len() {
        assert(message_is(message_id@)(list[at]));
        if of == chat && i != at {
            if i < at {
                assert(list[i].id != list[at].id);
            } else {
                assert(list[at].id != list[i].id);
            }
        }
    } else if of == chat {
        assert(!message_is(message_id@)(list[i]));
    }
}

/// A report that the user's own message failed, after it was on its way, shows
/// the error and keeps the text where nothing else was written. Any other
/// report changes no text.
pub proof fn law_failed_delivery_keeps_the_text(
    s: SnapshotModel,
    protocol: ProtocolId,
    conversation_id: String,
    message_id: String,
    delivery: Delivery,
    now: u64,
)
    requires
        s.has_session(protocol),
    ensures
        ({
            let next = s.applied(
                AdapterEvent::MessageDelivery { protocol, conversation_id, message_id, delivery },
                now,
            );
            let chat = (protocol, conversation_id@);
            let row = s.message(chat, message_id@);
            let failed = row.is_some() && row.unwrap().outbound && row.unwrap().delivery
                == Delivery::Pending && delivery == Delivery::Failed;
            let home = row.is_some() && (row.unwrap().protocol, row.unwrap().conversation_id)
                == chat;
            &&& !failed ==> next.error == s.error && next.compose == s.compose && next.drafts
                == s.drafts
            &&& failed ==> next.error.is_some() && next.error.unwrap().happened
                == "Message not sent."@
            &&& failed && home && s.is_selected(chat) && trim(s.compose).len() == 0
                ==> next.compose == row.unwrap().body
            &&& failed && home && s.is_selected(chat) && trim(s.compose).len() > 0 ==> next.compose
                == s.compose
            &&& failed && home && !s.is_selected(chat) && !s.drafts.contains_key(chat)
                ==> next.drafts.contains_key(chat) && next.drafts[chat] == row.unwrap().body
        }),
{
    reveal(SnapshotModel::applied);
    reveal(SnapshotModel::applied_kept);
    reveal(SnapshotModel::delivering);
}

// ---- chat rows ----

proof fn lemma_put_chat_holds(
    list: Seq<ConversationModel>,
    row: ConversationModel,
    other: ConversationModel,
)
    requires
        forall|i: int, j: int|
            0 <= i < j < list.len() ==> (#[trigger] list[i]).id != (#[trigger] list[j]).id,
    ensures
        ranked::<Conversation>(upserted_chat(list, row)).contains(row),
        other.id != row.id ==> ranked::<Conversation>(upserted_chat(list, row)).contains(other)
            == list.contains(other),
        other.id == row.id && ranked::<Conversation>(upserted_chat(list, row)).contains(other)
            ==> other == row,
{
    let put = upserted_chat(list, row);
    lemma_first_index(list, chat_is(row.id));
    let at = first_index(list, chat_is(row.id));
    lemma_ranked_contains::<Conversation>(put, row);
    lemma_ranked_contains::<Conversation>(put, other);
    if at < list.len() {
        assert(put[at] == row);
        assert(chat_is(row.id)(list[at]));
    } else {
        assert(put[list.len() as int] == row);
    }
    if list.contains(other) && other.id != row.id {
        let k = choose|k: int| 0 <= k < list.len() && list[k] == other;
        assert(put[k] == other);
    }
    if put.contains(other) {
        let k = choose|k: int| 0 <= k < put.len() && put[k] == other;
        if other.id != row.id {
            assert(list[k] == other);
        } else if k < list.len() && put[k] == list[k] {
            if at < list.len() {
                if k < at {
                    assert(!chat_is(row.id)(list[k]));
                } else if k > at {
                    assert(list[at].id != list[k].id);
                }
            } else {
                assert(!chat_is(row.id)(list[k]));
            }
        }
    }
}

proof fn lemma_list_differs(s: SnapshotModel, protocol: ProtocolId)
    requires
        s.sound(),
    ensures
        forall|i: int, j: int|
            0 <= i < j < s.rows(protocol).len() ==> (#[trigger] s.rows(protocol)[i]).id != (
            #[trigger] s.rows(protocol)[j]).id,
{
    if s.conversations.contains_key(protocol) {
        law_inbox_stands_by_order(s, protocol);
    }
}

/// A chat row from an adapter stands in the inbox of its protocol as it came,
/// in the place of the row with its id. Every other row of every protocol stays,
/// and so does every message. A selected chat stays selected with its text.
pub proof fn law_chat_row_stands_in_its_inbox(
    s: SnapshotModel,
    conversation: Conversation,
    now: u64,
    other: ConversationModel,
    elsewhere: ProtocolId,
)
    requires
        s.sound(),
        s.has_session(conversation.protocol),
        elsewhere != conversation.protocol,
    ensures
        ({
            let next = s.applied(AdapterEvent::ConversationUpsert { conversation }, now);
            let row = conversation.deep_view();
            &&& next.conversations.contains_key(row.protocol)
            &&& next.conversations[row.protocol].contains(row)
            &&& other.id != row.id ==> next.conversations[row.protocol].contains(other) == s.rows(
                row.protocol,
            ).contains(other)
            &&& other.id == row.id && next.conversations[row.protocol].contains(other) ==> other
                == row
            &&& next.rows(elsewhere) == s.rows(elsewhere)
            &&& next.messages == s.messages
            &&& next.selected_protocol == s.selected_protocol
            &&& next.sends == s.sends
            &&& s.selected_conversation.is_some() ==> next.selected_conversation
                == s.selected_conversation && next.compose == s.compose && next.drafts == s.drafts
        }),
{
    reveal(SnapshotModel::applied);
    reveal(SnapshotModel::applied_kept);
    reveal(SnapshotModel::upserting_chat);
    let row = conversation.deep_view();
    lemma_list_differs(s, row.protocol);
    lemma_put_chat_holds(s.rows(row.protocol), row, other);
    let put = s.chat_put(row);
    lemma_ensuring_frame(put);
    match find(put.rows(put.selected_protocol), real_chat()) {
        Some(first) => lemma_opening_frame(put.selecting(Some(first.id))),
        None => {},
    }
    let next = s.applied(AdapterEvent::ConversationUpsert { conversation }, now);
    assert(next.conversations == put.conversations);
    assert(next.rows(elsewhere) == s.rows(elsewhere));
}

/// With no chat selected, the first real chat of the selected protocol is
/// selected when a row comes, with its draft as the compose text. A placeholder
/// never is.
pub proof fn law_first_real_chat_is_selected(s: SnapshotModel, conversation: Conversation, now: u64)
    requires
        s.has_session(conversation.protocol),
        s.selected_conversation.is_none(),
    ensures
        ({
            let next = s.applied(AdapterEvent::ConversationUpsert { conversation }, now);
            let rows = next.rows(s.selected_protocol);
            match next.selected_conversation {
                Some(id) => exists|k: int|
                    0 <= k < rows.len() && (#[trigger] rows[k]).id == id && !rows[k].placeholder
                        && (forall|j: int| 0 <= j < k ==> (#[trigger] rows[j]).placeholder),
                None => forall|k: int| 0 <= k < rows.len() ==> (#[trigger] rows[k]).placeholder,
            }
        }),
{
    reveal(SnapshotModel::applied);
    reveal(SnapshotModel::applied_kept);
    reveal(SnapshotModel::upserting_chat);
    let put = s.chat_put(conversation.deep_view());
    let rows = put.rows(s.selected_protocol);
    lemma_ensuring_frame(put);
    lemma_first_index(rows, real_chat());
    let at = first_index(rows, real_chat());
    let next = s.applied(AdapterEvent::ConversationUpsert { conversation }, now);
    assert(next.rows(s.selected_protocol) == rows);
    if at < rows.len() {
        lemma_opening_frame(put.selecting(Some(rows[at].id)));
        assert(real_chat()(rows[at]));
        assert forall|j: int| 0 <= j < at implies (#[trigger] rows[j]).placeholder by {
            assert(!real_chat()(rows[j]));
        }
        assert(next.selected_conversation == Some(rows[at].id));
    } else {
        assert forall|k: int| 0 <= k < rows.len() implies (#[trigger] rows[k]).placeholder by {
            assert(!real_chat()(rows[k]));
        }
    }
}

/// A removed chat is gone with its messages, its draft, and what was rejected in
/// it. Every other chat keeps its row, its messages, and its text. A removed
/// chat that was selected leaves no text behind in another chat.
pub proof fn law_removed_chat_takes_only_its_own(
    s: SnapshotModel,
    protocol: ProtocolId,
    id: String,
    now: u64,
    other: ConversationModel,
    elsewhere: ChatId,
)
    requires
        s.sound(),
        s.has_session(protocol),
        elsewhere != (protocol, id@),
    ensures
        ({
            let next = s.applied(AdapterEvent::ConversationRemoved { protocol, id }, now);
            let chat = (protocol, id@);
            &&& other.id == id@ ==> !next.rows(protocol).contains(other)
            &&& other.id != id@ ==> next.rows(protocol).contains(other) == s.rows(
                protocol,
            ).contains(other)
            &&& elsewhere.0 != protocol ==> next.rows(elsewhere.0) == s.rows(elsewhere.0)
            &&& !next.messages.contains_key(chat)
            &&& next.thread(elsewhere) == s.thread(elsewhere)
            &&& !next.rejected_bodies.contains_key(chat)
            &&& next.unsent(chat).len() == 0 || next.is_selected(chat)
            &&& next.unsent(elsewhere) == s.unsent(elsewhere)
            &&& s.selected_protocol != protocol || s.selected_conversation != Some(id@)
                ==> next.selected_conversation == s.selected_conversation
            &&& next.sends == s.sends
        }),
{
    reveal(SnapshotModel::applied);
    reveal(SnapshotModel::applied_kept);
    reveal(SnapshotModel::removing_chat);
    let chat = (protocol, id@);
    lemma_filter_contains(s.rows(protocol), chat_is_not(id@), other);
    let dropped = s.chat_dropped(chat);
    let free = SnapshotModel { compose: Seq::empty(), selected_conversation: None, ..dropped };
    lemma_ensuring_frame(free);
    match find(free.rows(free.selected_protocol), real_chat()) {
        Some(row) => lemma_opening_frame(free.selecting(Some(row.id))),
        None => {},
    }
}

} // verus!
