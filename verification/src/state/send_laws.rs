//! What becomes of a text that the user sends: what goes out, what is kept until
//! the answer, and what each answer does, said over the texts themselves.

use crate::lists::{first_index, lemma_filter_contains, lemma_first_index, lemma_some_row};
use crate::protocol::{
    AdapterEvent, ChatId, CommandModel, Delivery, MessageModel, ProtocolId, Text, name_of,
};
use crate::sends::{FlightModel, PendingModel, SendsModel, due, not_due, of_chat, of_request};
use crate::state::model::{ErrorModel, SnapshotModel, TimedOutModel, joined, message_is};
use crate::state::reading_laws::{law_selected_row_has_the_selected_id, law_thread_stands_by_time};
use crate::text::{
    decimal, is_space, law_trim_drops_only_the_ends, middle_of, occurs, occurs_at, trim,
};
use vstd::prelude::*;
use vstd::string::*;

verus! {

// ---- sending ----

/// A send puts one command behind those that wait: a text for the selected chat,
/// with the whole compose text except white space at its ends, character by
/// character, under a new number. The same text is tracked under that number.
/// The compose text, the drafts, and the messages stay until the answer.
pub proof fn law_send_carries_the_whole_text(s: SnapshotModel, now: u64)
    requires
        s.can_send(),
        s.sends.next < u64::MAX,
    ensures
        ({
            let next = s.sending(now);
            let command = next.pending[s.pending.len() as int];
            let entry = next.sends.open[s.sends.open.len() as int];
            &&& next.pending.len() == s.pending.len() + 1
            &&& forall|i: int|
                0 <= i < s.pending.len() ==> #[trigger] next.pending[i] == s.pending[i]
            &&& command is SendText
            &&& command->SendText_protocol == s.selected_protocol
            &&& s.selected_conversation == Some(command->SendText_conversation_id)
            &&& command->SendText_request == s.sends.next
            &&& exists|lead: int| #[trigger] middle_of(s.compose, command->SendText_body, lead)
            &&& command->SendText_body.len() > 0
            &&& !is_space(command->SendText_body[0])
            &&& !is_space(command->SendText_body.last())
            &&& entry.pending == (PendingModel::Send {
                request: s.sends.next,
                body: command->SendText_body,
            })
            &&& Some(entry.chat.1) == s.selected_conversation && entry.chat.0
                == s.selected_protocol
            &&& entry.started == now
            &&& next.sends.open.len() == s.sends.open.len() + 1
            &&& forall|i: int|
                0 <= i < s.sends.open.len() ==> #[trigger] next.sends.open[i] == s.sends.open[i]
            &&& next.sends.expired == s.sends.expired
            &&& next.sends.next == s.sends.next + 1
            &&& next.compose == s.compose && next.drafts == s.drafts && next.messages == s.messages
            &&& next.conversations == s.conversations && next.selected_conversation
                == s.selected_conversation && next.selected_protocol == s.selected_protocol
            &&& next.error.is_none()
        }),
{
    reveal(SnapshotModel::sending);
    law_trim_drops_only_the_ends(s.compose);
    law_selected_row_has_the_selected_id(s);
}

/// A send that is not possible changes nothing.
pub proof fn law_impossible_send_changes_nothing(s: SnapshotModel, now: u64, message_id: Text)
    ensures
        !s.can_send() ==> s.sending(now) == s,
        !s.can_retry(message_id) ==> s.retrying(message_id, now) == s,
{
    reveal(SnapshotModel::sending);
    reveal(SnapshotModel::retrying);
}

/// A retry puts one command behind those that wait: send that message of the
/// selected chat again, under a new number. The message is on its way again,
/// and every other message stays. The compose text goes only when it is the
/// text of that message.
pub proof fn law_retry_sends_the_named_message(
    s: SnapshotModel,
    message_id: Text,
    now: u64,
    of: ChatId,
    i: int,
)
    requires
        s.sound(),
        s.can_retry(message_id),
        s.sends.next < u64::MAX,
    ensures
        ({
            let next = s.retrying(message_id, now);
            let chat = (s.selected_protocol, s.selected_conversation.unwrap());
            let entry = next.sends.open[s.sends.open.len() as int];
            &&& s.selected_conversation.is_some()
            &&& next.pending == s.pending.push(
                CommandModel::ResendMessage {
                    protocol: chat.0,
                    conversation_id: chat.1,
                    message_id,
                    request: s.sends.next,
                },
            )
            &&& next.sends.open.len() == s.sends.open.len() + 1
            &&& entry.chat == chat && entry.started == now && entry.pending == (
            PendingModel::Retry { request: s.sends.next, message_id })
            &&& next.sends.next == s.sends.next + 1
            &&& s.messages.contains_key(of) && 0 <= i < s.messages[of].len() ==> {
                &&& next.messages.contains_key(of) && next.messages[of].len()
                    == s.messages[of].len()
                &&& of == chat && s.messages[of][i].id == message_id ==> next.messages[of][i] == (
                MessageModel { delivery: Delivery::Pending, ..s.messages[of][i] })
                &&& of != chat || s.messages[of][i].id != message_id ==> next.messages[of][i]
                    == s.messages[of][i]
                &&& of == chat && s.messages[of][i].id == message_id && s.compose
                    == s.messages[of][i].body ==> next.compose.len() == 0
                &&& of == chat && s.messages[of][i].id == message_id && s.compose
                    != s.messages[of][i].body ==> next.compose == s.compose
            }
            &&& next.drafts == s.drafts
            &&& next.error.is_none()
        }),
{
    reveal(SnapshotModel::retrying);
    law_selected_row_has_the_selected_id(s);
    let id = s.selected_conversation.unwrap();
    let chat = (s.selected_protocol, id);
    let list = s.thread(chat);
    let at = first_index(list, message_is(message_id));
    lemma_first_index(list, message_is(message_id));
    assert(s.message(chat, message_id).is_some());
    assert(message_is(message_id)(list[at]));
    law_thread_stands_by_time(s, chat);
    if of == chat && 0 <= i < list.len() && i != at {
        if i < at {
            assert(s.messages[chat][i].id != s.messages[chat][at].id);
        } else {
            assert(s.messages[chat][at].id != s.messages[chat][i].id);
        }
    }
}

// ---- answers ----

/// The chat has a send or retry in flight exactly when an entry names it. With
/// sound sends, an answer ends the entry of that chat and that number, and no
/// other.
pub proof fn law_answer_ends_its_own_entry(
    m: SendsModel,
    chat: ChatId,
    request: u64,
    i: int,
    entry: FlightModel,
)
    requires
        m.valid(),
        0 <= i < m.open.len(),
    ensures
        m.in_flight(m.open[i].chat),
        m.open[i].chat == chat && m.open[i].pending.id() == request ==> m.answered(chat, request)
            == Some(m.open[i].pending) && !m.settled(chat, request).open.contains(m.open[i]),
        m.open[i].chat == chat && m.open[i].pending.id() != request ==> m.answered(chat, request)
            == None::<PendingModel> && m.settled(chat, request) == m,
        entry.chat != chat ==> m.settled(chat, request).open.contains(entry) == m.open.contains(
            entry,
        ),
        m.settled(chat, request).next == m.next,
        m.settled(chat, request).expired == m.expired,
{
    let c = m.open[i].chat;
    lemma_some_row(m.open, of_chat(c));
    assert(of_chat(c)(m.open[i]));
    lemma_first_index(m.open, of_chat(chat));
    let at = first_index(m.open, of_chat(chat));
    if at < m.open.len() {
        assert(of_chat(chat)(m.open[at]));
        if m.open[i].chat == chat && at != i {
            if at < i {
                assert(m.open[at].chat != m.open[i].chat);
            } else {
                assert(m.open[i].chat != m.open[at].chat);
            }
        }
    } else if m.open[i].chat == chat {
        assert(!of_chat(chat)(m.open[i]));
    }
    let less = m.settled(chat, request).open;
    if less != m.open {
        assert(less == m.open.remove(at));
        if less.contains(m.open[at]) {
            let k = choose|k: int| 0 <= k < less.len() && less[k] == m.open[at];
            let b = if k < at { k } else { k + 1 };
            assert(less[k] == m.open[b]);
            if b < at {
                assert(m.open[b].chat != m.open[at].chat);
            } else {
                assert(m.open[at].chat != m.open[b].chat);
            }
        }
        if m.open.contains(entry) && entry.chat != chat {
            let k = choose|k: int| 0 <= k < m.open.len() && m.open[k] == entry;
            let b = if k < at { k } else { k - 1 };
            assert(less[b] == entry);
        }
        if less.contains(entry) {
            let k = choose|k: int| 0 <= k < less.len() && less[k] == entry;
            let b = if k < at { k } else { k + 1 };
            assert(m.open[b] == entry);
        }
    }
}

/// An accepted send takes its text out of its chat, if the text is still the one
/// that went out, and no text out of any other chat. A text that the user
/// changed meanwhile stays. An accepted retry takes no text.
pub proof fn law_accept_takes_the_sent_text_only(
    s: SnapshotModel,
    protocol: ProtocolId,
    conversation_id: String,
    request: u64,
    now: u64,
    at: int,
    other: ChatId,
)
    requires
        s.sound(),
        s.has_session(protocol),
        0 <= at < s.sends.open.len(),
        s.sends.open[at].chat == (protocol, conversation_id@),
        s.sends.open[at].pending.id() == request,
        other != (protocol, conversation_id@),
    ensures
        ({
            let next = s.applied(
                AdapterEvent::SendAccepted { protocol, conversation_id, request },
                now,
            );
            let chat = (protocol, conversation_id@);
            let pending = s.sends.open[at].pending;
            &&& pending is Send && trim(s.unsent(chat)) == pending->Send_body && trim(
                s.unsent(chat),
            ).len() > 0 ==> next.unsent(chat).len() == 0
            &&& pending is Send && trim(s.unsent(chat)) != pending->Send_body ==> next.unsent(chat)
                == s.unsent(chat)
            &&& s.sends.open[at].pending is Retry ==> next.unsent(chat) == s.unsent(chat)
            &&& next.unsent(other) == s.unsent(other)
            &&& !next.sends.open.contains(s.sends.open[at])
            &&& next.sends.expired == s.sends.expired && next.sends.next == s.sends.next
            &&& next.error == s.error && next.pending == s.pending && next.messages == s.messages
            &&& next.conversations == s.conversations
            &&& next.selected_conversation == s.selected_conversation && next.selected_protocol
                == s.selected_protocol
        }),
{
    reveal(SnapshotModel::applied);
    reveal(SnapshotModel::applied_kept);
    reveal(SnapshotModel::accepted);
    let chat = (protocol, conversation_id@);
    law_answer_ends_its_own_entry(s.sends, chat, request, at, s.sends.open[at]);
}

/// An answer to a request that no send of the chat has changes nothing.
pub proof fn law_unknown_answer_changes_nothing(
    s: SnapshotModel,
    protocol: ProtocolId,
    conversation_id: String,
    request: u64,
    now: u64,
)
    requires
        forall|i: int|
            0 <= i < s.sends.open.len() ==> (#[trigger] s.sends.open[i]).chat != (
                protocol,
                conversation_id@,
            ) || s.sends.open[i].pending.id() != request,
        forall|i: int|
            0 <= i < s.sends.expired.len() ==> (#[trigger] s.sends.expired[i]).chat != (
                protocol,
                conversation_id@,
            ) || s.sends.expired[i].pending.id() != request,
    ensures
        s.applied(AdapterEvent::SendAccepted { protocol, conversation_id, request }, now) == s,
        s.applied(AdapterEvent::SendRejected { protocol, conversation_id, request }, now) == s,
{
    reveal(SnapshotModel::applied);
    reveal(SnapshotModel::applied_kept);
    reveal(SnapshotModel::accepted);
    reveal(SnapshotModel::rejected);
    let chat = (protocol, conversation_id@);
    lemma_first_index(s.sends.open, of_chat(chat));
    let at = first_index(s.sends.open, of_chat(chat));
    if at < s.sends.open.len() {
        assert(of_chat(chat)(s.sends.open[at]));
    }
    lemma_first_index(s.sends.expired, of_request(chat, request));
    let k = first_index(s.sends.expired, of_request(chat, request));
    if k < s.sends.expired.len() {
        assert(of_request(chat, request)(s.sends.expired[k]));
    }
}

/// A rejected send says so and keeps its text: the error names the protocol and
/// says where the text is. The text is remembered, and the chat may send again.
pub proof fn law_reject_says_so_and_keeps_the_text(
    s: SnapshotModel,
    protocol: ProtocolId,
    conversation_id: String,
    request: u64,
    now: u64,
    at: int,
    other: ChatId,
)
    requires
        s.sound(),
        s.has_session(protocol),
        0 <= at < s.sends.open.len(),
        s.sends.open[at].chat == (protocol, conversation_id@),
        s.sends.open[at].pending is Send,
        s.sends.open[at].pending.id() == request,
    ensures
        ({
            let next = s.applied(
                AdapterEvent::SendRejected { protocol, conversation_id, request },
                now,
            );
            let chat = (protocol, conversation_id@);
            let body = s.sends.open[at].pending->Send_body;
            &&& next.compose == s.compose && next.drafts == s.drafts
            &&& next.error == Some(
                ErrorModel {
                    happened: "Message not sent."@,
                    why: name_of(protocol) + " did not accept the message."@,
                    next: s.hint(chat, false),
                },
            )
            &&& !next.sends.open.contains(s.sends.open[at])
            &&& body.len() > 0 ==> next.rejected_bodies.contains_key(chat)
                && next.rejected_bodies[chat].compose == Some(body)
            &&& other != chat ==> next.rejected_bodies.contains_key(other)
                == s.rejected_bodies.contains_key(other) && next.rejected_of(other)
                == s.rejected_of(other)
            &&& next.messages == s.messages && next.conversations == s.conversations
                && next.pending == s.pending
        }),
{
    reveal(SnapshotModel::applied);
    reveal(SnapshotModel::applied_kept);
    reveal(SnapshotModel::rejected);
    let chat = (protocol, conversation_id@);
    law_answer_ends_its_own_entry(s.sends, chat, request, at, s.sends.open[at]);
    let settled = SnapshotModel { sends: s.sends.settled(chat, request), ..s };
    assert(settled.hint(chat, false) == s.hint(chat, false));
}

/// A rejected retry sets its message back to failed and says so.
pub proof fn law_rejected_retry_fails_its_message(
    s: SnapshotModel,
    protocol: ProtocolId,
    conversation_id: String,
    request: u64,
    now: u64,
    at: int,
    i: int,
)
    requires
        s.sound(),
        s.has_session(protocol),
        0 <= at < s.sends.open.len(),
        s.sends.open[at].chat == (protocol, conversation_id@),
        s.sends.open[at].pending is Retry,
        s.sends.open[at].pending.id() == request,
        s.messages.contains_key((protocol, conversation_id@)),
        0 <= i < s.messages[(protocol, conversation_id@)].len(),
    ensures
        ({
            let next = s.applied(
                AdapterEvent::SendRejected { protocol, conversation_id, request },
                now,
            );
            let chat = (protocol, conversation_id@);
            let id = s.sends.open[at].pending->Retry_message_id;
            let row = s.messages[chat][i];
            &&& next.messages.contains_key(chat) && next.messages[chat].len()
                == s.messages[chat].len()
            &&& row.id == id ==> next.messages[chat][i] == (MessageModel {
                delivery: Delivery::Failed,
                ..row
            })
            &&& row.id != id ==> next.messages[chat][i] == row
            &&& next.error.is_some() && next.error.unwrap().happened == "Message not sent."@
            &&& next.error.unwrap().why == name_of(protocol) + " did not accept the message."@
            &&& !next.sends.open.contains(s.sends.open[at])
        }),
{
    reveal(SnapshotModel::applied);
    reveal(SnapshotModel::applied_kept);
    reveal(SnapshotModel::rejected);
    reveal(SnapshotModel::delivering);
    let chat = (protocol, conversation_id@);
    let id = s.sends.open[at].pending->Retry_message_id;
    law_answer_ends_its_own_entry(s.sends, chat, request, at, s.sends.open[at]);
    let list = s.thread(chat);
    let k = first_index(list, message_is(id));
    lemma_first_index(list, message_is(id));
    law_thread_stands_by_time(s, chat);
    if k < list.len() {
        assert(message_is(id)(list[k]));
        if i < k {
            assert(s.messages[chat][i].id != s.messages[chat][k].id);
        } else if k < i {
            assert(s.messages[chat][k].id != s.messages[chat][i].id);
        }
    } else {
        assert(!message_is(id)(list[i]));
    }
}

// ---- time ----

/// A send or retry without an answer expires thirty seconds after it started,
/// and not before. Then it waits for a late answer.
pub proof fn law_send_expires_after_thirty_seconds(m: SendsModel, now: u64, entry: FlightModel)
    ensures
        m.expired_at(now).open.contains(entry) == (m.open.contains(entry) && now < entry.started
            + 30_000),
        m.due_at(now).contains(entry) == (m.open.contains(entry) && now >= entry.started + 30_000),
        m.expired_at(now).expired.contains(entry) == (m.expired.contains(entry) || (
        m.open.contains(entry) && now >= entry.started + 30_000)),
        m.expired_at(now).next == m.next,
{
    lemma_filter_contains(m.open, due(now), entry);
    lemma_filter_contains(m.open, not_due(now), entry);
    let late = m.due_at(now);
    let all = m.expired + late;
    if all.contains(entry) {
        let i = choose|i: int| 0 <= i < all.len() && all[i] == entry;
        if i < m.expired.len() {
            assert(m.expired[i] == entry);
        } else {
            assert(late[i - m.expired.len()] == entry);
        }
    }
    if m.expired.contains(entry) {
        let i = choose|i: int| 0 <= i < m.expired.len() && m.expired[i] == entry;
        assert(all[i] == entry);
    }
    if late.contains(entry) {
        let i = choose|i: int| 0 <= i < late.len() && late[i] == entry;
        assert(all[m.expired.len() + i] == entry);
    }
}

/// Entries that expire are noted one by one, behind what was noted before.
pub proof fn lemma_expiring_all_notes(s: SnapshotModel, entries: Seq<FlightModel>, i: int)
    ensures
        s.expiring_all(entries).timed_out.len() == s.timed_out.len() + entries.len(),
        0 <= i < s.timed_out.len() ==> s.expiring_all(entries).timed_out[i] == s.timed_out[i],
        0 <= i < entries.len() ==> s.expiring_all(entries).timed_out[s.timed_out.len() + i] == (
        TimedOutModel {
            chat: entries[i].chat,
            request: entries[i].pending.id(),
            retry: entries[i].pending is Retry,
        }),
        s.expiring_all(entries).sends == s.sends,
        s.expiring_all(entries).pending == s.pending,
        s.expiring_all(entries).conversations == s.conversations,
    decreases entries.len(),
{
    if entries.len() > 0 {
        let before = s.expiring_all(entries.drop_last());
        lemma_expiring_all_notes(s, entries.drop_last(), i);
        let last = entries.last();
        match last.pending {
            PendingModel::Retry { message_id, .. } => {
                reveal(SnapshotModel::delivering);
            },
            PendingModel::Send { .. } => {},
        }
    }
}

/// A frame without an expired send changes nothing. With one, each of them is
/// noted for the error block, which shows, and no command goes out.
pub proof fn law_expired_sends_show(s: SnapshotModel, now: u64, i: int)
    ensures
        ({
            let due = s.sends.due_at(now);
            let next = s.expiring(now);
            &&& due.len() == 0 ==> next.error == s.error && next.messages == s.messages
                && next.timed_out == s.timed_out
            &&& due.len() > 0 ==> next.error.is_some() && next.error == next.timeout_error
            &&& due.len() > 0 ==> next.timed_out.len() >= due.len()
            &&& 0 <= i < due.len() ==> next.timed_out.contains(
                TimedOutModel {
                    chat: due[i].chat,
                    request: due[i].pending.id(),
                    retry: due[i].pending is Retry,
                },
            )
            &&& next.pending == s.pending && next.conversations == s.conversations
            &&& next.sends == s.sends.expired_at(now)
        }),
{
    reveal(SnapshotModel::expiring);
    let due = s.sends.due_at(now);
    let again = (SnapshotModel { sends: s.sends.expired_at(now), ..s }).timeouts_restarted();
    lemma_expiring_all_notes(again, due, i);
    let all = again.expiring_all(due);
    if 0 <= i < due.len() {
        let k = again.timed_out.len() + i;
        assert(all.timed_out[k] == TimedOutModel {
            chat: due[i].chat,
            request: due[i].pending.id(),
            retry: due[i].pending is Retry,
        });
        assert(s.expiring(now).timed_out[k] == all.timed_out[k]);
    }
    if due.len() > 0 {
        assert(all.timed_out.len() > 0);
    }
}

proof fn lemma_joined_holds(parts: Seq<Text>, separator: Text, i: int)
    requires
        0 <= i < parts.len(),
    ensures
        occurs(joined(parts, separator), parts[i]),
    decreases parts.len(),
{
    let all = joined(parts, separator);
    if parts.len() == 1 {
        assert(all.subrange(0, all.len() as int) =~= parts[0]);
        assert(occurs_at(all, parts[0], 0));
    } else {
        let front = joined(parts.drop_last(), separator);
        let last = parts.last();
        if i == parts.len() - 1 {
            let at = (front.len() + separator.len()) as int;
            assert(all.subrange(at, at + last.len()) =~= last);
            assert(occurs_at(all, last, at));
        } else {
            lemma_joined_holds(parts.drop_last(), separator, i);
            let k = choose|k: int| occurs_at(front, parts[i], k);
            assert(all.subrange(k, k + parts[i].len()) =~= front.subrange(k, k + parts[i].len()));
            assert(occurs_at(all, parts[i], k));
        }
    }
}

/// The timeout error of one send names its protocol and says where the text is.
/// That of more says how many, and names each chat with its protocol.
pub proof fn law_timeout_error_names_every_chat(s: SnapshotModel, i: int)
    requires
        0 <= i < s.timed_out.len(),
    ensures
        s.timeout_block().is_some(),
        s.timed_out.len() == 1 ==> s.timeout_block() == Some(
            ErrorModel {
                happened: "Message not sent."@,
                why: name_of(s.timed_out[0].chat.0) + " did not answer in time."@,
                next: s.hint(s.timed_out[0].chat, s.timed_out[0].retry),
            },
        ),
        s.timed_out.len() > 1 ==> s.timeout_block().unwrap().happened == decimal(s.timed_out.len())
            + " messages not sent."@ && occurs(
            s.timeout_block().unwrap().why,
            s.title_of(s.timed_out[i].chat) + " ("@ + name_of(s.timed_out[i].chat.0) + ")"@,
        ),
{
    if s.timed_out.len() > 1 {
        let names = s.timed_out_names();
        lemma_joined_holds(names, ", "@, i);
        let front = "No answer in time for "@;
        let list = joined(names, ", "@);
        let all = front + list + "."@;
        let k = choose|k: int| occurs_at(list, names[i], k);
        assert(all.subrange(front.len() + k, front.len() + k + names[i].len()) =~= list.subrange(
            k,
            k + names[i].len(),
        ));
        assert(occurs_at(all, names[i], front.len() + k));
    }
}

// ---- sessions and texts ----

/// After the end of the Telegram session no draft of Telegram is left: the next
/// account on this machine must not see one. Of another protocol, a draft stays
/// only where its text was rejected. The drafts of other protocols stay.
pub proof fn law_session_end_leaves_no_private_text(
    s: SnapshotModel,
    protocol: ProtocolId,
    chat: ChatId,
)
    ensures
        ({
            let next = s.rows_dropped(protocol);
            &&& chat.0 == protocol && protocol == ProtocolId::Telegram
                ==> !next.drafts.contains_key(chat)
            &&& chat.0 == protocol && !s.rejected_bodies.contains_key(chat)
                ==> !next.drafts.contains_key(chat)
            &&& chat.0 == protocol && next.drafts.contains_key(chat) ==> Some(next.drafts[chat])
                == s.rejected_bodies[chat].compose || Some(next.drafts[chat])
                == s.rejected_bodies[chat].row
            &&& chat.0 != protocol ==> next.drafts.contains_key(chat) == s.drafts.contains_key(chat)
            &&& chat.0 != protocol && s.drafts.contains_key(chat) ==> next.drafts[chat]
                == s.drafts[chat]
            &&& chat.0 == protocol ==> !next.messages.contains_key(chat)
                && !next.rejected_bodies.contains_key(chat)
            &&& chat.0 != protocol ==> next.messages.contains_key(chat)
                == s.messages.contains_key(chat)
            &&& !next.conversations.contains_key(protocol)
            &&& !next.sessions.contains(protocol)
        }),
{
    reveal(SnapshotModel::rows_dropped);
}

} // verus!
