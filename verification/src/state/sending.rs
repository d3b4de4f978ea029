//! Sends, retries, their answers, and the texts that wait for them.

use crate::lists::{first_index, position, retain, some_row};
use crate::protocol::{AdapterCommand, ChatMessage, Delivery, MessageModel, ProtocolId};
use crate::sends::{Flight, Pending};
use crate::state::model::{SnapshotModel, joined, message_is, other_timeout};
use crate::state::{RejectedBody, SENDING_STATUS, Snapshot, TimedOut, UserError, same_error};
use crate::text::{decimal_text, is_blank, same_text, trim, trimmed};
use vstd::prelude::*;
use vstd::string::*;

verus! {

/// Where the message with this id stands in a thread.
pub(crate) fn message_at(list: &Vec<ChatMessage>, id: &str) -> (r: Option<usize>)
    ensures
        r.is_some() == some_row(list.deep_view(), message_is(id@)),
        match r {
            Some(i) => i < list.len() && i == first_index(list.deep_view(), message_is(id@))
                && list.deep_view()[i as int] == list@[i as int].deep_view(),
            None => first_index(list.deep_view(), message_is(id@)) == list.len(),
        },
{
    let id = id.to_owned();
    position(
        list,
        |row: &ChatMessage| -> (b: bool)
            ensures b == message_is(id@)(row.deep_view())
            { row.id == id },
        Ghost(message_is(id@)),
    )
}

impl Snapshot {
    /// Show an error block.
    pub fn set_error(&mut self, happened: &str, why: &str, next: &str)
        ensures
            final(self)@ == old(self)@.with_error(happened@, why@, next@),
    {
        self.error = Some(
            UserError {
                happened: happened.to_owned(),
                why: why.to_owned(),
                next: next.to_owned(),
            },
        );
    }

    /// The messages of a chat, or none.
    pub(crate) fn thread_of(&self, protocol: ProtocolId, chat: &str) -> (r: Option<&Vec<ChatMessage>>)
        ensures
            r.is_some() == self@.messages.contains_key((protocol, chat@)),
            match r {
                Some(rows) => rows.deep_view() == self@.thread((protocol, chat@)),
                None => self@.thread((protocol, chat@)) == Seq::<MessageModel>::empty(),
            },
    {
        self.messages.get(&(protocol, chat.to_owned()))
    }

    /// The message with this id.
    pub(crate) fn message_row(&self, protocol: ProtocolId, chat: &str, id: &str) -> (r: Option<
        &ChatMessage,
    >)
        ensures
            r.deep_view() == self@.message((protocol, chat@), id@),
    {
        match self.thread_of(protocol, chat) {
            Some(rows) => match message_at(rows, id) {
                Some(i) => Some(&rows[i]),
                None => None,
            },
            None => None,
        }
    }

    /// The delivery of one message.
    pub(crate) fn delivery_of(&self, protocol: ProtocolId, chat: &str, id: &str) -> (r: Option<
        Delivery,
    >)
        ensures
            r == self@.delivery((protocol, chat@), id@),
    {
        match self.message_row(protocol, chat, id) {
            Some(row) => Some(row.delivery),
            None => None,
        }
    }

    /// Send is possible: the selected protocol is linked and can send text,
    /// the selected chat is writable, text exists, and the chat has no send or
    /// retry in flight.
    pub fn can_send(&self) -> (r: bool)
        ensures
            r == self@.can_send(),
    {
        let protocol = self.selected_protocol;
        let free = match self.selected_conversation_row() {
            Some(row) => row.writable && !self.sends.in_flight(protocol, row.id.as_str()),
            None => false,
        };
        self.protocol_sends_text(protocol) && !is_blank(self.compose.as_str()) && free
    }

    /// Queue the compose text. Does nothing when [`Self::can_send`] is false.
    /// The text stays until the adapter accepts it.
    pub fn send_compose(&mut self, now: u64)
        requires
            old(self)@.can_send() ==> old(self).sends.next < u64::MAX,
        ensures
            final(self)@ == old(self)@.sending(now),
    {
        proof {
            reveal(SnapshotModel::sending);
        }
        if !self.can_send() {
            return ;
        }
        proof {
            lemma_selected_id(self@);
        }
        let id = match &self.selected_conversation {
            Some(id) => id.clone(),
            None => {
                return ;
            },
        };
        let body = trimmed(self.compose.as_str()).to_owned();
        let protocol = self.selected_protocol;
        let started = self.sends.begin_send(protocol, id.as_str(), body.as_str(), now);
        if let Some(request) = started {
            self.error = None;
            self.status_text = SENDING_STATUS.to_owned();
            self.queue(
                AdapterCommand::SendText { protocol, conversation_id: id, body, request },
            );
        }
    }

    /// Enter in compose. Plain Enter sends and returns `true`, so the shell
    /// eats the key. With shift it returns `false`, so the field adds a line.
    pub fn compose_enter(&mut self, shift: bool, now: u64) -> (r: bool)
        requires
            !shift && old(self)@.can_send() ==> old(self).sends.next < u64::MAX,
        ensures
            r == !shift,
            final(self)@ == (if shift {
                old(self)@
            } else {
                old(self)@.sending(now)
            }),
    {
        if shift {
            return false;
        }
        self.send_compose(now);
        true
    }

    /// Set the delivery of the message at `at`, without a note.
    fn put_delivery(&mut self, protocol: ProtocolId, chat: &str, id: &str, delivery: Delivery)
        ensures
            final(self)@ == old(self)@.with_delivery((protocol, chat@), id@, delivery),
    {
        let key = (protocol, chat.to_owned());
        let at = match self.thread_of(protocol, chat) {
            Some(rows) => message_at(rows, id),
            None => None,
        };
        if let Some(i) = at {
            if let Some(rows) = self.messages.remove(&key) {
                let mut rows = rows;
                let ghost before = rows.deep_view();
                let ghost row = rows@[i as int];
                rows[i].delivery = delivery;
                proof {
                    assert(rows.deep_view() =~= before.update(
                        i as int,
                        MessageModel { delivery, ..row.deep_view() },
                    ));
                    let m = old(self)@.messages;
                    assert(m.remove(key.deep_view()).insert(key.deep_view(), rows.deep_view())
                        =~= m.insert(key.deep_view(), rows.deep_view()));
                }
                self.messages.insert(key, rows);
            }
        }
    }

    /// The selected chat may send this failed message again.
    pub fn can_retry(&self, message_id: &str) -> (r: bool)
        ensures
            r == self@.can_retry(message_id@),
    {
        let protocol = self.selected_protocol;
        match self.selected_conversation_row() {
            Some(row) => {
                if !self.protocol_sends_text(protocol) || !row.writable {
                    return false;
                }
                match self.message_row(protocol, row.id.as_str(), message_id) {
                    Some(message) => message.outbound && message.delivery == Delivery::Failed
                        && !self.sends.in_flight(protocol, row.id.as_str()),
                    None => false,
                }
            },
            None => false,
        }
    }

    /// Send a failed outgoing message again. Only a failed row queues a
    /// command, and only one send or retry per chat is in flight.
    pub fn retry_send(&mut self, message_id: &str, now: u64)
        requires
            old(self)@.can_retry(message_id@) ==> old(self).sends.next < u64::MAX,
        ensures
            final(self)@ == old(self)@.retrying(message_id@, now),
    {
        proof {
            reveal(SnapshotModel::retrying);
        }
        if !self.can_retry(message_id) {
            return ;
        }
        proof {
            lemma_selected_id(self@);
        }
        let id = match &self.selected_conversation {
            Some(id) => id.clone(),
            None => {
                return ;
            },
        };
        let protocol = self.selected_protocol;
        let same = match self.message_row(protocol, id.as_str(), message_id) {
            Some(message) => message.body == self.compose,
            None => false,
        };
        let started = self.sends.begin_retry(protocol, id.as_str(), message_id, now);
        if let Some(request) = started {
            self.put_delivery(protocol, id.as_str(), message_id, Delivery::Pending);
            if same {
                self.compose = String::new();
            }
            self.error = None;
            self.status_text = SENDING_STATUS.to_owned();
            self.queue(
                AdapterCommand::ResendMessage {
                    protocol,
                    conversation_id: id,
                    message_id: message_id.to_owned(),
                    request,
                },
            );
        }
    }

    /// Forget the rejected text of this chat.
    pub(crate) fn drop_rejected_body(&mut self, protocol: ProtocolId, chat: &str)
        ensures
            final(self)@ == old(self)@.without_rejected((protocol, chat@)),
    {
        self.rejected_bodies.remove(&(protocol, chat.to_owned()));
    }

    /// The text of an accepted send leaves the compose field or its draft, if
    /// it is still exactly that text.
    fn clear_sent_text(&mut self, protocol: ProtocolId, chat: &str, body: &str)
        ensures
            final(self)@ == old(self)@.clearing_sent((protocol, chat@), body@),
    {
        if self.is_selected_chat(protocol, chat) && same_text(
            trimmed(self.compose.as_str()),
            body,
        ) {
            self.compose = String::new();
            return ;
        }
        let key = (protocol, chat.to_owned());
        let same = match self.drafts.get(&key) {
            Some(draft) => same_text(trimmed(draft.as_str()), body),
            None => false,
        };
        if same {
            self.drafts.remove(&key);
        }
    }

    /// Keep the text of a send that failed after it was pending.
    fn keep_failed_text(&mut self, message: &ChatMessage)
        ensures
            final(self)@ == old(self)@.keeping_failed(message.deep_view()),
    {
        if self.is_selected_chat(message.protocol, message.conversation_id.as_str()) {
            if is_blank(self.compose.as_str()) {
                self.compose = message.body.clone();
            }
        } else {
            let key = (message.protocol, message.conversation_id.clone());
            if !self.drafts.contains_key(&key) {
                self.drafts.insert(key, message.body.clone());
            }
        }
    }

    /// A send that was pending and now failed: show the error block and keep
    /// the text.
    pub(crate) fn note_delivery(&mut self, before: Option<Delivery>, message: &ChatMessage)
        ensures
            final(self)@ == old(self)@.noting_delivery(before, message.deep_view()),
    {
        let was_pending = match before {
            Some(Delivery::Pending) => true,
            _ => false,
        };
        if !message.outbound || message.delivery != Delivery::Failed || !was_pending {
            return ;
        }
        self.keep_failed_text(message);
        self.set_error(
            "Message not sent.",
            "Telegram did not accept the message.",
            "Press Retry on the message, or edit the text and send it again.",
        );
    }

    /// Set the delivery of one message, and note a failed send.
    pub(crate) fn set_delivery(&mut self, protocol: ProtocolId, chat: &str, id: &str, delivery: Delivery)
        ensures
            final(self)@ == old(self)@.delivering((protocol, chat@), id@, delivery),
    {
        proof {
            reveal(SnapshotModel::delivering);
        }
        let row = match self.message_row(protocol, chat, id) {
            Some(row) => row.clone(),
            None => {
                return ;
            },
        };
        let before = Some(row.delivery);
        self.put_delivery(protocol, chat, id, delivery);
        let changed = ChatMessage { delivery, ..row };
        self.note_delivery(before, &changed);
    }

    /// The title of a chat, or its id when the row is gone.
    pub fn chat_title(&self, protocol: ProtocolId, chat: &str) -> (r: String)
        ensures
            r@ == self@.title_of((protocol, chat@)),
    {
        match self.conversation(protocol, chat) {
            Some(row) => row.title.clone(),
            None => chat.to_owned(),
        }
    }

    /// Where unsent text is, and what to do.
    pub fn resend_hint(&self, protocol: ProtocolId, chat: &str, retry: bool) -> (r: String)
        ensures
            r@ == self@.hint((protocol, chat@), retry),
    {
        if self.is_selected_chat(protocol, chat) {
            if retry {
                "Press Retry to send it again.".to_owned()
            } else {
                "The text is still in the compose field. Send it again.".to_owned()
            }
        } else if retry {
            let mut text = "Open ".to_owned();
            text.append(self.chat_title(protocol, chat).as_str());
            text.append(" and press Retry to send it again.");
            text
        } else {
            let mut text = "The text is in the draft of ".to_owned();
            text.append(self.chat_title(protocol, chat).as_str());
            text.append(". Send it again.");
            text
        }
    }

    /// The chats of the timeout error, named and joined.
    fn timed_out_chats(&self) -> (r: String)
        ensures
            r@ == joined(self@.timed_out_names(), ", "@),
    {
        let mut text = String::new();
        let ghost names = self@.timed_out_names();
        let mut i: usize = 0;
        proof {
            assert(names.take(0) =~= Seq::empty());
            assert(self@.timed_out.len() == self.timed_out.len());
        }
        while i < self.timed_out.len()
            invariant
                i <= self.timed_out.len(),
                names == self@.timed_out_names(),
                names.len() == self.timed_out.len(),
                text@ == joined(names.take(i as int), ", "@),
            decreases self.timed_out.len() - i,
        {
            let one = &self.timed_out[i];
            let mut name = self.chat_title(one.protocol, one.chat.as_str());
            name.append(" (");
            name.append(one.protocol.display_name());
            name.append(")");
            proof {
                assert(self@.timed_out[i as int] == self.timed_out@[i as int].deep_view());
                let next = names.take(i + 1);
                assert(next.drop_last() =~= names.take(i as int));
                assert(next.last() == name@);
            }
            if i == 0 {
                text = name;
            } else {
                text.append(", ");
                text.append(name.as_str());
            }
            i = i + 1;
        }
        assert(names.take(i as int) =~= names);
        text
    }

    /// The entries of the timeout error, as one error block.
    fn timeout_block(&self) -> (r: Option<UserError>)
        ensures
            r.deep_view() == self@.timeout_block(),
    {
        proof {
            assert(self@.timed_out.len() == self.timed_out.len());
        }
        if self.timed_out.len() == 0 {
            return None;
        }
        if self.timed_out.len() == 1 {
            let one = &self.timed_out[0];
            proof {
                assert(self@.timed_out[0] == self.timed_out@[0].deep_view());
            }
            let mut why = one.protocol.display_name().to_owned();
            why.append(" did not answer in time.");
            return Some(
                UserError {
                    happened: "Message not sent.".to_owned(),
                    why,
                    next: self.resend_hint(one.protocol, one.chat.as_str(), one.retry),
                },
            );
        }
        let mut happened = decimal_text(self.timed_out.len() as u64);
        happened.append(" messages not sent.");
        let mut why = "No answer in time for ".to_owned();
        why.append(self.timed_out_chats().as_str());
        why.append(".");
        Some(
            UserError {
                happened,
                why,
                next: "Each text is still in its chat. Send it again, or press Retry.".to_owned(),
            },
        )
    }

    /// Show the timeout error: one line per expired send, or no error when
    /// none is left.
    fn show_timeouts(&mut self)
        ensures
            final(self)@ == old(self)@.showing_timeouts(),
    {
        let block = self.timeout_block();
        self.timeout_error = match &block {
            Some(error) => Some(error.clone()),
            None => None,
        };
        self.error = block;
    }

    /// The adapter accepted this send. Only now does its text go. A history
    /// message with the same text is not an acceptance.
    pub(crate) fn note_send_accepted(&mut self, protocol: ProtocolId, chat: &str, request: u64)
        ensures
            final(self)@ == old(self)@.accepted((protocol, chat@), request),
    {
        proof {
            reveal(SnapshotModel::accepted);
        }
        match self.sends.settle(protocol, chat, request) {
            Some(Pending::Send { body, .. }) => {
                self.drop_rejected_body(protocol, chat);
                self.clear_sent_text(protocol, chat, body.as_str());
            },
            Some(Pending::Retry { .. }) => self.drop_rejected_body(protocol, chat),
            None => self.note_late_accept(protocol, chat, request),
        }
    }

    /// What a late accept of this send or retry means for its texts.
    fn settle_late(&mut self, protocol: ProtocolId, chat: &str, pending: Pending)
        ensures
            final(self)@ == old(self)@.without_rejected((protocol, chat@)).clearing_late(
                (protocol, chat@),
                pending.deep_view(),
            ),
    {
        self.drop_rejected_body(protocol, chat);
        match pending {
            Pending::Send { body, .. } => self.clear_sent_text(protocol, chat, body.as_str()),
            Pending::Retry { message_id, .. } => {
                self.set_delivery(protocol, chat, message_id.as_str(), Delivery::Sent);
                // A new retry of the same row must not fail it again.
                self.sends.drop_retry_of(protocol, chat, message_id.as_str());
            },
        }
    }

    /// Drop one send from the timeout error.
    fn drop_timeout(&mut self, protocol: ProtocolId, chat: &str, request: u64)
        ensures
            final(self)@ == old(self)@.without_timeout((protocol, chat@), request),
    {
        let shown = self.error.is_some() && same_error(&self.error, &self.timeout_error);
        let chat = chat.to_owned();
        retain(
            &mut self.timed_out,
            |entry: &TimedOut| -> (b: bool)
                ensures b == other_timeout((protocol, chat@), request)(entry.deep_view())
                { !(entry.protocol == protocol && entry.chat == chat && entry.request == request) },
            Ghost(other_timeout((protocol, chat@), request)),
        );
        if shown {
            self.show_timeouts();
        }
    }

    /// An accept after the send expired. The message went out, so the user
    /// must not send it again: its unchanged text goes, a retried row is sent,
    /// and its part of the timeout error goes.
    pub fn note_late_accept(&mut self, protocol: ProtocolId, chat: &str, request: u64)
        ensures
            final(self)@ == old(self)@.accepted_late((protocol, chat@), request),
    {
        match self.sends.settle_expired(protocol, chat, request) {
            Some(pending) => {
                self.settle_late(protocol, chat, pending);
                self.drop_timeout(protocol, chat, request);
            },
            None => {},
        }
    }

    /// Remember a rejected compose text.
    fn remember_compose(&mut self, protocol: ProtocolId, chat: &str, body: String)
        ensures
            final(self)@ == old(self)@.remembering_compose((protocol, chat@), body@),
    {
        if body.as_str().is_empty() {
            return ;
        }
        let key = (protocol, chat.to_owned());
        let row = match self.rejected_bodies.remove(&key) {
            Some(before) => before.row,
            None => None,
        };
        let ghost m = old(self)@.rejected_bodies;
        let next = RejectedBody { compose: Some(body), row };
        proof {
            assert(m.remove(key.deep_view()).insert(key.deep_view(), next.deep_view()) =~= m.insert(
                key.deep_view(),
                next.deep_view(),
            ));
        }
        self.rejected_bodies.insert(key, next);
    }

    /// Remember the text of a rejected retry.
    fn remember_row(&mut self, protocol: ProtocolId, chat: &str, text: String)
        ensures
            final(self)@ == old(self)@.remembering_row((protocol, chat@), text@),
    {
        if text.as_str().is_empty() {
            return ;
        }
        let key = (protocol, chat.to_owned());
        let compose = match self.rejected_bodies.remove(&key) {
            Some(before) => before.compose,
            None => None,
        };
        let ghost m = old(self)@.rejected_bodies;
        let next = RejectedBody { compose, row: Some(text) };
        proof {
            assert(m.remove(key.deep_view()).insert(key.deep_view(), next.deep_view()) =~= m.insert(
                key.deep_view(),
                next.deep_view(),
            ));
        }
        self.rejected_bodies.insert(key, next);
    }

    /// The trimmed text of a message, or nothing.
    fn message_text(&self, protocol: ProtocolId, chat: &str, id: &str) -> (r: String)
        ensures
            r@ == (match self@.message((protocol, chat@), id@) {
                Some(row) => trim(row.body),
                None => Seq::empty(),
            }),
    {
        match self.message_row(protocol, chat, id) {
            Some(row) => trimmed(row.body.as_str()).to_owned(),
            None => String::new(),
        }
    }

    /// Say that the adapter did not accept a message.
    fn say_rejected(&mut self, protocol: ProtocolId, chat: &str, retry: bool)
        ensures
            final(self)@ == old(self)@.saying_rejected((protocol, chat@), retry),
    {
        let mut why = protocol.display_name().to_owned();
        why.append(" did not accept the message.");
        let next = self.resend_hint(protocol, chat, retry);
        self.set_error("Message not sent.", why.as_str(), next.as_str());
    }

    /// The adapter rejected this send: it was not accepted. The text is still
    /// in its compose field or draft. A late rejection changes nothing: the
    /// expiry already failed the send.
    pub(crate) fn fail_unaccepted_send(&mut self, protocol: ProtocolId, chat: &str, request: u64)
        ensures
            final(self)@ == old(self)@.rejected((protocol, chat@), request),
    {
        proof {
            reveal(SnapshotModel::rejected);
        }
        match self.sends.settle(protocol, chat, request) {
            Some(Pending::Send { body, .. }) => {
                self.remember_compose(protocol, chat, body);
                self.say_rejected(protocol, chat, false);
            },
            Some(Pending::Retry { message_id, .. }) => {
                self.set_delivery(protocol, chat, message_id.as_str(), Delivery::Failed);
                let text = self.message_text(protocol, chat, message_id.as_str());
                self.remember_row(protocol, chat, text);
                self.say_rejected(protocol, chat, true);
            },
            None => {
                let _ = self.sends.settle_expired(protocol, chat, request);
            },
        }
    }

    /// One send or retry expired.
    fn expire_one(&mut self, entry: &Flight)
        ensures
            final(self)@ == old(self)@.expiring_one(entry.deep_view()),
    {
        let retry = match &entry.pending {
            Pending::Send { .. } => false,
            Pending::Retry { message_id, .. } => {
                self.set_delivery(
                    entry.protocol,
                    entry.chat.as_str(),
                    message_id.as_str(),
                    Delivery::Failed,
                );
                true
            },
        };
        let timed_out = TimedOut {
            protocol: entry.protocol,
            chat: entry.chat.clone(),
            request: entry.pending.request(),
            retry,
        };
        let ghost before = self@.timed_out;
        let ghost model = timed_out.deep_view();
        self.timed_out.push(timed_out);
        assert(self@.timed_out =~= before.push(model));
    }

    /// Start the timeout error again when it no longer shows.
    fn restart_timeouts(&mut self)
        ensures
            final(self)@ == old(self)@.timeouts_restarted(),
    {
        if !same_error(&self.error, &self.timeout_error) {
            self.timed_out = Vec::new();
            assert(self@.timed_out =~= Seq::empty());
        }
    }

    /// Expire sends and retries with no answer in time. An expired send keeps
    /// its text; an expired retry sets its row back to failed. Returns true
    /// when one expired.
    pub fn expire_sends(&mut self, now: u64) -> (r: bool)
        ensures
            r == (old(self)@.sends.due_at(now).len() > 0),
            final(self)@ == old(self)@.expiring(now),
    {
        proof {
            reveal(SnapshotModel::expiring);
        }
        let expired = self.sends.expire(now);
        let ghost due = expired.deep_view();
        proof {
            assert(due.len() == expired.len());
        }
        if expired.len() == 0 {
            return false;
        }
        self.restart_timeouts();
        let ghost start = self@;
        let mut i: usize = 0;
        assert(due.take(0) =~= Seq::empty());
        while i < expired.len()
            invariant
                i <= expired.len(),
                due == expired.deep_view(),
                self@ == start.expiring_all(due.take(i as int)),
            decreases expired.len() - i,
        {
            proof {
                assert(due[i as int] == expired@[i as int].deep_view());
                let next = due.take(i + 1);
                assert(next.drop_last() =~= due.take(i as int));
                assert(next.last() == due[i as int]);
            }
            self.expire_one(&expired[i]);
            i = i + 1;
        }
        assert(due.take(i as int) =~= due);
        self.show_timeouts();
        true
    }

    /// When the next send or retry expires, if one is in flight.
    pub fn next_send_deadline(&self) -> (r: Option<u64>)
        requires
            forall|i: int|
                0 <= i < self@.sends.open.len() ==> (#[trigger] self@.sends.open[i]).started
                    + crate::sends::SEND_TIMEOUT <= u64::MAX,
        ensures
            match r {
                None => self@.sends.open.len() == 0,
                Some(at) => {
                    &&& exists|i: int|
                        0 <= i < self@.sends.open.len() && at == (
                        #[trigger] self@.sends.open[i]).started + crate::sends::SEND_TIMEOUT
                    &&& forall|i: int|
                        0 <= i < self@.sends.open.len() ==> at <= (
                        #[trigger] self@.sends.open[i]).started + crate::sends::SEND_TIMEOUT
                },
            },
    {
        self.sends.next_deadline()
    }

    /// The text that a chat keeps over the end of its session: a rejected
    /// compose text that is still there wins; otherwise a retry's text fills
    /// an empty draft.
    pub(crate) fn text_to_keep(&self, protocol: ProtocolId, chat: &str) -> (r: Option<String>)
        ensures
            r.deep_view() == self@.kept_text((protocol, chat@)),
    {
        let key = (protocol, chat.to_owned());
        let current = if self.is_selected_chat(protocol, chat) {
            trimmed(self.compose.as_str()).to_owned()
        } else {
            match self.drafts.get(&key) {
                Some(draft) => trimmed(draft.as_str()).to_owned(),
                None => String::new(),
            }
        };
        match self.rejected_bodies.get(&key) {
            Some(rejected) => {
                if let Some(compose) = &rejected.compose {
                    if *compose == current {
                        return Some(compose.clone());
                    }
                }
                match &rejected.row {
                    Some(row) => if current.as_str().is_empty() || (rejected.compose.is_none()
                        && current == *row) {
                        Some(row.clone())
                    } else {
                        None
                    },
                    None => None,
                }
            },
            None => None,
        }
    }
}

/// A selected row has the id of the selected chat.
proof fn lemma_selected_id(m: SnapshotModel)
    ensures
        m.selected_row().is_some() ==> m.selected_conversation == Some(
            m.selected_row().unwrap().id,
        ),
{
    if let Some(id) = m.selected_conversation {
        let rows = m.rows(m.selected_protocol);
        crate::lists::lemma_first_index(rows, crate::state::model::chat_is(id));
    }
}

} // verus!
