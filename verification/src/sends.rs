//! One tracker for the sends and retries of every protocol.
//!
//! A chat has at most one send or retry in flight. Only the adapter's answer
//! with the same request id ends it, or the time limit. A status, a command
//! failure, or a notice never does. The end of a protocol's session drops its
//! entries.

use crate::lists::{
    every, first_index, lemma_filter_contains, lemma_filter_every, lemma_filter_pairwise,
    lemma_filter_step, lemma_first_index, lemma_some_row, pairwise, position, retain, some_row,
};
use crate::protocol::{ChatId, ProtocolId, Text};
use vstd::prelude::*;
use vstd::string::*;

verus! {

/// A send or retry with no answer after this many milliseconds expires.
pub const SEND_TIMEOUT: u64 = 30_000;

/// What is in flight for one chat.
#[derive(Debug, PartialEq, Eq)]
pub enum Pending {
    /// New text from the compose field. `body` is the trimmed text, so an
    /// accepted send clears the matching draft only.
    Send { request: u64, body: String },
    /// A failed message sent again.
    Retry { request: u64, message_id: String },
}

/// What is in flight, with its text as a character sequence.
#[verifier::ext_equal]
pub enum PendingModel {
    Send { request: u64, body: Text },
    Retry { request: u64, message_id: Text },
}

impl PendingModel {
    /// The request id.
    pub open spec fn id(self) -> u64 {
        match self {
            PendingModel::Send { request, .. } => request,
            PendingModel::Retry { request, .. } => request,
        }
    }
}

impl DeepView for Pending {
    type V = PendingModel;

    open spec fn deep_view(&self) -> PendingModel {
        match *self {
            Pending::Send { request, body } => PendingModel::Send { request, body: body@ },
            Pending::Retry { request, message_id } => PendingModel::Retry {
                request,
                message_id: message_id@,
            },
        }
    }
}

impl Clone for Pending {
    fn clone(&self) -> (r: Self)
        ensures
            r == *self,
    {
        match self {
            Pending::Send { request, body } => Pending::Send {
                request: *request,
                body: body.clone(),
            },
            Pending::Retry { request, message_id } => Pending::Retry {
                request: *request,
                message_id: message_id.clone(),
            },
        }
    }
}

impl Pending {
    /// The request id.
    pub fn request(&self) -> (r: u64)
        ensures
            r == self.deep_view().id(),
    {
        match self {
            Pending::Send { request, .. } => *request,
            Pending::Retry { request, .. } => *request,
        }
    }
}

/// One send or retry of one chat.
#[derive(Debug, PartialEq, Eq)]
pub struct Flight {
    pub protocol: ProtocolId,
    pub chat: String,
    pub pending: Pending,
    /// When it started, in milliseconds.
    pub started: u64,
}

/// A send or retry, with its texts as character sequences.
#[verifier::ext_equal]
pub struct FlightModel {
    pub chat: ChatId,
    pub pending: PendingModel,
    pub started: u64,
}

impl DeepView for Flight {
    type V = FlightModel;

    open spec fn deep_view(&self) -> FlightModel {
        FlightModel {
            chat: (self.protocol, self.chat@),
            pending: self.pending.deep_view(),
            started: self.started,
        }
    }
}

impl Clone for Flight {
    fn clone(&self) -> (r: Self)
        ensures
            r == *self,
    {
        Flight {
            protocol: self.protocol,
            chat: self.chat.clone(),
            pending: self.pending.clone(),
            started: self.started,
        }
    }
}

/// The entry belongs to this chat.
pub open spec fn of_chat(chat: ChatId) -> spec_fn(FlightModel) -> bool {
    |entry: FlightModel| entry.chat == chat
}

/// The entry is this request of this chat.
pub open spec fn of_request(chat: ChatId, request: u64) -> spec_fn(FlightModel) -> bool {
    |entry: FlightModel| entry.chat == chat && entry.pending.id() == request
}

/// The entry belongs to this protocol.
pub open spec fn of_owner(protocol: ProtocolId) -> spec_fn(FlightModel) -> bool {
    |entry: FlightModel| entry.chat.0 == protocol
}

/// The entry belongs to another protocol.
pub open spec fn not_of_owner(protocol: ProtocolId) -> spec_fn(FlightModel) -> bool {
    |entry: FlightModel| entry.chat.0 != protocol
}

/// The entry ran out of time at `now`.
pub open spec fn due(now: u64) -> spec_fn(FlightModel) -> bool {
    |entry: FlightModel| now - entry.started >= SEND_TIMEOUT
}

/// The entry still has time at `now`.
pub open spec fn not_due(now: u64) -> spec_fn(FlightModel) -> bool {
    |entry: FlightModel| now - entry.started < SEND_TIMEOUT
}

/// The entry is not a retry of this row.
pub open spec fn not_retry_of(chat: ChatId, message_id: Text) -> spec_fn(FlightModel) -> bool {
    |entry: FlightModel|
        !(entry.chat == chat && (entry.pending matches PendingModel::Retry { message_id: row, .. }
            && row == message_id))
}

/// The sends and retries of every chat.
#[verifier::ext_equal]
pub struct SendsModel {
    /// The next request id.
    pub next: u64,
    /// In flight, in the order in which they started.
    pub open: Seq<FlightModel>,
    /// Expired with no answer yet, in the order in which they expired.
    pub expired: Seq<FlightModel>,
}

impl SendsModel {
    /// Nothing was sent yet.
    pub open spec fn fresh() -> SendsModel {
        SendsModel { next: 1, open: Seq::empty(), expired: Seq::empty() }
    }

    /// The chat has a send or a retry in flight.
    pub open spec fn in_flight(self, chat: ChatId) -> bool {
        some_row(self.open, of_chat(chat))
    }

    /// The request id of the chat's send or retry in flight.
    pub open spec fn request_of(self, chat: ChatId) -> Option<u64> {
        if self.in_flight(chat) {
            Some(self.open[first_index(self.open, of_chat(chat))].pending.id())
        } else {
            None
        }
    }

    /// The chat starts a send or a retry.
    pub open spec fn begun(self, chat: ChatId, pending: PendingModel, now: u64) -> SendsModel {
        SendsModel {
            next: (self.next + 1) as u64,
            open: self.open.push(FlightModel { chat, pending, started: now }),
            ..self
        }
    }

    /// What the answer to `request` of this chat ends, if anything.
    pub open spec fn answered(self, chat: ChatId, request: u64) -> Option<PendingModel> {
        if self.request_of(chat) == Some(request) {
            Some(self.open[first_index(self.open, of_chat(chat))].pending)
        } else {
            None
        }
    }

    /// The answer to `request` of this chat came.
    pub open spec fn settled(self, chat: ChatId, request: u64) -> SendsModel {
        if self.answered(chat, request).is_some() {
            SendsModel { open: self.open.remove(first_index(self.open, of_chat(chat))), ..self }
        } else {
            self
        }
    }

    /// What a late answer to `request` of this chat ends, if anything.
    pub open spec fn answered_late(self, chat: ChatId, request: u64) -> Option<PendingModel> {
        if some_row(self.expired, of_request(chat, request)) {
            Some(self.expired[first_index(self.expired, of_request(chat, request))].pending)
        } else {
            None
        }
    }

    /// A late answer to `request` of this chat came.
    pub open spec fn settled_late(self, chat: ChatId, request: u64) -> SendsModel {
        if some_row(self.expired, of_request(chat, request)) {
            SendsModel {
                expired: self.expired.remove(
                    first_index(self.expired, of_request(chat, request)),
                ),
                ..self
            }
        } else {
            self
        }
    }

    /// The entries that run out of time at `now`, oldest first.
    pub open spec fn due_at(self, now: u64) -> Seq<FlightModel> {
        self.open.filter(due(now))
    }

    /// The time limit ends the entries that are due at `now`.
    pub open spec fn expired_at(self, now: u64) -> SendsModel {
        SendsModel {
            open: self.open.filter(not_due(now)),
            expired: self.expired + self.due_at(now),
            ..self
        }
    }

    /// The retry of one row, if one is in flight, is forgotten.
    pub open spec fn without_retry(self, chat: ChatId, message_id: Text) -> SendsModel {
        SendsModel { open: self.open.filter(not_retry_of(chat, message_id)), ..self }
    }

    /// The session of one protocol ended.
    pub open spec fn without_protocol(self, protocol: ProtocolId) -> SendsModel {
        SendsModel {
            open: self.open.filter(not_of_owner(protocol)),
            expired: self.expired.filter(not_of_owner(protocol)),
            ..self
        }
    }

    /// One entry per chat in flight, and every request id was given out once.
    pub open spec fn valid(self) -> bool {
        &&& forall|i: int, j: int|
            0 <= i < j < self.open.len() ==> (#[trigger] self.open[i]).chat != (
            #[trigger] self.open[j]).chat
        &&& forall|i: int| 0 <= i < self.open.len() ==> (#[trigger] self.open[i]).pending.id() < self.next
        &&& forall|i: int|
            0 <= i < self.expired.len() ==> (#[trigger] self.expired[i]).pending.id() < self.next
        &&& forall|i: int, j: int|
            0 <= i < j < self.open.len() ==> (#[trigger] self.open[i]).pending.id() < (
            #[trigger] self.open[j]).pending.id()
    }
}

/// Sends and retries in flight and expired.
#[derive(Debug)]
pub struct SendTracker {
    /// The next request id. Unique for the whole app, never per protocol.
    pub next: u64,
    pub open: Vec<Flight>,
    pub expired: Vec<Flight>,
}

impl View for SendTracker {
    type V = SendsModel;

    open spec fn view(&self) -> SendsModel {
        SendsModel {
            next: self.next,
            open: self.open.deep_view(),
            expired: self.expired.deep_view(),
        }
    }
}

impl Default for SendTracker {
    fn default() -> (r: Self)
        ensures
            r@ == SendsModel::fresh(),
    {
        SendTracker { next: 1, open: Vec::new(), expired: Vec::new() }
    }
}

impl SendTracker {
    /// Where the chat's send or retry stands, if one is in flight.
    fn open_at(&self, protocol: ProtocolId, chat: &str) -> (r: Option<usize>)
        ensures
            r.is_some() == self@.in_flight((protocol, chat@)),
            match r {
                Some(i) => i < self.open.len() && i == first_index(
                    self@.open,
                    of_chat((protocol, chat@)),
                ) && self@.open[i as int] == self.open@[i as int].deep_view(),
                None => true,
            },
    {
        let chat = chat.to_owned();
        position(
            &self.open,
            |entry: &Flight| -> (b: bool)
                    ensures b == (entry.deep_view().chat == (protocol, chat@))
                { entry.protocol == protocol && entry.chat == chat },
            Ghost(of_chat((protocol, chat@))),
        )
    }

    /// The request id of this chat's send or retry in flight, if any.
    pub fn request_of(&self, protocol: ProtocolId, chat: &str) -> (r: Option<u64>)
        ensures
            r == self@.request_of((protocol, chat@)),
    {
        match self.open_at(protocol, chat) {
            Some(i) => Some(self.open[i].pending.request()),
            None => None,
        }
    }

    /// Start a send. `None` while this chat already has a send or a retry.
    pub fn begin_send(&mut self, protocol: ProtocolId, chat: &str, body: &str, now: u64) -> (r:
        Option<u64>)
        requires
            !old(self)@.in_flight((protocol, chat@)) ==> old(self).next < u64::MAX,
        ensures
            old(self)@.in_flight((protocol, chat@)) ==> r == None::<u64> && final(self)@ == old(
                self,
            )@,
            !old(self)@.in_flight((protocol, chat@)) ==> r == Some(old(self).next) && final(self)@
                == old(self)@.begun(
                (protocol, chat@),
                PendingModel::Send { request: old(self).next, body: body@ },
                now,
            ),
    {
        if self.open_at(protocol, chat).is_some() {
            return None;
        }
        let request: u64 = self.next;
        self.next = self.next + 1;
        let flight = Flight {
            protocol,
            chat: chat.to_owned(),
            pending: Pending::Send { request, body: body.to_owned() },
            started: now,
        };
        let ghost model = flight.deep_view();
        self.open.push(flight);
        assert(self@.open =~= old(self)@.open.push(model));
        Some(request)
    }

    /// Start a retry. `None` while this chat already has a send or a retry.
    pub fn begin_retry(
        &mut self,
        protocol: ProtocolId,
        chat: &str,
        message_id: &str,
        now: u64,
    ) -> (r: Option<u64>)
        requires
            !old(self)@.in_flight((protocol, chat@)) ==> old(self).next < u64::MAX,
        ensures
            old(self)@.in_flight((protocol, chat@)) ==> r == None::<u64> && final(self)@ == old(
                self,
            )@,
            !old(self)@.in_flight((protocol, chat@)) ==> r == Some(old(self).next) && final(self)@
                == old(self)@.begun(
                (protocol, chat@),
                PendingModel::Retry { request: old(self).next, message_id: message_id@ },
                now,
            ),
    {
        if self.open_at(protocol, chat).is_some() {
            return None;
        }
        let request: u64 = self.next;
        self.next = self.next + 1;
        let flight = Flight {
            protocol,
            chat: chat.to_owned(),
            pending: Pending::Retry { request, message_id: message_id.to_owned() },
            started: now,
        };
        let ghost model = flight.deep_view();
        self.open.push(flight);
        assert(self@.open =~= old(self)@.open.push(model));
        Some(request)
    }

    /// No send or retry is in flight in any chat.
    pub fn is_empty(&self) -> (r: bool)
        ensures
            r == (self@.open.len() == 0),
    {
        self.open.len() == 0
    }

    /// A send or retry of this chat is in flight.
    pub fn in_flight(&self, protocol: ProtocolId, chat: &str) -> (r: bool)
        ensures
            r == self@.in_flight((protocol, chat@)),
    {
        self.open_at(protocol, chat).is_some()
    }

    /// A send or retry of this protocol is in flight.
    pub fn any_for(&self, protocol: ProtocolId) -> (r: bool)
        ensures
            r == some_row(self@.open, of_owner(protocol)),
    {
        position(
            &self.open,
            |entry: &Flight| -> (b: bool)
                    ensures b == (entry.deep_view().chat.0 == protocol)
                { entry.protocol == protocol },
            Ghost(of_owner(protocol)),
        ).is_some()
    }

    /// The adapter answered `request` for this chat. Returns and removes the
    /// entry only when the request id matches; an old id changes nothing.
    pub fn settle(&mut self, protocol: ProtocolId, chat: &str, request: u64) -> (r: Option<Pending>)
        ensures
            r.deep_view() == old(self)@.answered((protocol, chat@), request),
            final(self)@ == old(self)@.settled((protocol, chat@), request),
    {
        match self.open_at(protocol, chat) {
            Some(i) => {
                if self.open[i].pending.request() != request {
                    return None;
                }
                let ghost rows = self.open@;
                let entry = self.open.remove(i);
                proof {
                    assert(self@.open =~= old(self)@.open.remove(i as int));
                }
                Some(entry.pending)
            },
            None => None,
        }
    }

    /// The adapter answered `request` of this chat after it expired. Returns
    /// and removes that entry; any other answer changes nothing.
    pub fn settle_expired(&mut self, protocol: ProtocolId, chat: &str, request: u64) -> (r: Option<
        Pending,
    >)
        ensures
            r.deep_view() == old(self)@.answered_late((protocol, chat@), request),
            final(self)@ == old(self)@.settled_late((protocol, chat@), request),
    {
        let chat = chat.to_owned();
        let at = position(
            &self.expired,
            |entry: &Flight| -> (b: bool)
                    ensures b == (entry.deep_view().chat == (protocol, chat@)
                        && entry.deep_view().pending.id() == request)
                {
                    entry.protocol == protocol && entry.chat == chat && entry.pending.request()
                        == request
                },
            Ghost(of_request((protocol, chat@), request)),
        );
        match at {
            Some(i) => {
                let entry = self.expired.remove(i);
                proof {
                    assert(self@.expired =~= old(self)@.expired.remove(i as int));
                }
                Some(entry.pending)
            },
            None => None,
        }
    }

    /// End the sends and retries that ran out of time at `now`, oldest first.
    /// They stay known, so a late answer still finds them once.
    pub fn expire(&mut self, now: u64) -> (r: Vec<Flight>)
        ensures
            r.deep_view() == old(self)@.due_at(now),
            final(self)@ == old(self)@.expired_at(now),
    {
        let mut r: Vec<Flight> = Vec::new();
        let ghost s = self@.open;
        let ghost before = self@.expired;
        let mut i: usize = 0;
        proof {
            reveal(Seq::filter);
            assert(s.take(0) =~= Seq::empty());
            assert(r.deep_view() =~= s.take(0).filter(due(now)));
            assert(before + s.take(0).filter(due(now)) =~= before);
        }
        while i < self.open.len()
            invariant
                i <= self.open.len(),
                s == self.open.deep_view(),
                self.next == old(self).next,
                self.open == old(self).open,
                r.deep_view() == s.take(i as int).filter(due(now)),
                self.expired.deep_view() == before + s.take(i as int).filter(due(now)),
            decreases self.open.len() - i,
        {
            proof {
                assert(s[i as int] == self.open@[i as int].deep_view());
                lemma_filter_step(s, due(now), i as int);
            }
            let started: u64 = self.open[i].started;
            if now >= started && now - started >= SEND_TIMEOUT {
                let ghost a = r.deep_view();
                let ghost b = self.expired.deep_view();
                let ghost model = s[i as int];
                r.push(self.open[i].clone());
                self.expired.push(self.open[i].clone());
                proof {
                    assert(r.deep_view() =~= a.push(model));
                    assert(self.expired.deep_view() =~= b.push(model));
                    assert(before + a.push(model) =~= (before + a).push(model));
                }
            }
            i = i + 1;
        }
        proof {
            assert(s.take(i as int) =~= s);
        }
        retain(
            &mut self.open,
            |entry: &Flight| -> (b: bool)
                    ensures b == (now - entry.deep_view().started < SEND_TIMEOUT)
                { now < entry.started || now - entry.started < SEND_TIMEOUT },
            Ghost(not_due(now)),
        );
        r
    }

    /// Forget the retry of one row, if one is in flight.
    pub fn drop_retry_of(&mut self, protocol: ProtocolId, chat: &str, message_id: &str)
        ensures
            final(self)@ == old(self)@.without_retry((protocol, chat@), message_id@),
    {
        let chat = chat.to_owned();
        let message_id = message_id.to_owned();
        retain(
            &mut self.open,
            |entry: &Flight| -> (b: bool)
                    ensures b == not_retry_of((protocol, chat@), message_id@)(entry.deep_view())
                {
                    let same_row = match &entry.pending {
                        Pending::Retry { message_id: row, .. } => *row == message_id,
                        Pending::Send { .. } => false,
                    };
                    !(entry.protocol == protocol && entry.chat == chat && same_row)
                },
            Ghost(not_retry_of((protocol, chat@), message_id@)),
        );
    }

    /// The protocol's session ended: its sends and retries are gone.
    pub fn drop_protocol(&mut self, protocol: ProtocolId)
        ensures
            final(self)@ == old(self)@.without_protocol(protocol),
    {
        retain(
            &mut self.open,
            |entry: &Flight| -> (b: bool)
                    ensures b == (entry.deep_view().chat.0 != protocol)
                { entry.protocol != protocol },
            Ghost(not_of_owner(protocol)),
        );
        retain(
            &mut self.expired,
            |entry: &Flight| -> (b: bool)
                    ensures b == (entry.deep_view().chat.0 != protocol)
                { entry.protocol != protocol },
            Ghost(not_of_owner(protocol)),
        );
    }

    /// When the next send or retry expires, if one is in flight.
    pub fn next_deadline(&self) -> (r: Option<u64>)
        requires
            forall|i: int|
                0 <= i < self@.open.len() ==> (#[trigger] self@.open[i]).started + SEND_TIMEOUT
                    <= u64::MAX,
        ensures
            match r {
                None => self@.open.len() == 0,
                Some(at) => {
                    &&& exists|i: int|
                        0 <= i < self@.open.len() && at == (#[trigger] self@.open[i]).started
                            + SEND_TIMEOUT
                    &&& forall|i: int|
                        0 <= i < self@.open.len() ==> at <= (#[trigger] self@.open[i]).started
                            + SEND_TIMEOUT
                },
            },
    {
        if self.open.len() == 0 {
            return None;
        }
        proof {
            assert(self@.open[0] == self.open@[0].deep_view());
        }
        let mut first: u64 = self.open[0].started;
        let ghost mut at: int = 0;
        let mut i: usize = 1;
        while i < self.open.len()
            invariant
                1 <= i <= self.open.len(),
                0 <= at < self.open.len(),
                first == self@.open[at].started,
                forall|j: int|
                    0 <= j < i ==> first <= (#[trigger] self@.open[j]).started,
            decreases self.open.len() - i,
        {
            proof {
                assert(self@.open[i as int] == self.open@[i as int].deep_view());
            }
            if self.open[i].started < first {
                first = self.open[i].started;
                proof {
                    at = i as int;
                }
            }
            i = i + 1;
        }
        assert(self@.open[at].started + SEND_TIMEOUT <= u64::MAX);
        Some(first + SEND_TIMEOUT)
    }
}

/// A request id is given out once: a new send or retry keeps the tracker valid.
pub proof fn law_begin_keeps_valid(m: SendsModel, chat: ChatId, pending: PendingModel, now: u64)
    requires
        m.valid(),
        m.next < u64::MAX,
        !m.in_flight(chat),
        pending.id() == m.next,
    ensures
        m.begun(chat, pending, now).valid(),
        m.begun(chat, pending, now).request_of(chat) == Some(m.next),
{
    let more = m.begun(chat, pending, now);
    lemma_first_index(m.open, of_chat(chat));
    assert forall|i: int, j: int| 0 <= i < j < more.open.len() implies (
    #[trigger] more.open[i]).chat != (#[trigger] more.open[j]).chat by {
        if j == m.open.len() {
            assert(!of_chat(chat)(m.open[i]));
        }
    }
    crate::lists::lemma_first_index_is(more.open, of_chat(chat), m.open.len() as int);
}

/// Only the matching request ends a send: another id of the same chat, or the
/// same id in another chat, changes nothing.
pub proof fn law_only_the_matching_request_settles(m: SendsModel, chat: ChatId, request: u64)
    requires
        m.request_of(chat) != Some(request),
    ensures
        m.settled(chat, request) == m,
        m.answered(chat, request) == None::<PendingModel>,
{
}

/// A settled send leaves its chat free and every other chat as it was.
pub proof fn law_settle_frees_only_its_chat(m: SendsModel, chat: ChatId, request: u64, other: ChatId)
    requires
        m.valid(),
        m.request_of(chat) == Some(request),
        other != chat,
    ensures
        m.settled(chat, request).valid(),
        !m.settled(chat, request).in_flight(chat),
        m.settled(chat, request).request_of(other) == m.request_of(other),
{
    let i = first_index(m.open, of_chat(chat));
    lemma_first_index(m.open, of_chat(chat));
    let less = m.settled(chat, request);
    assert(less.open == m.open.remove(i));
    lemma_some_row(less.open, of_chat(chat));
    assert forall|j: int| 0 <= j < less.open.len() implies !of_chat(chat)(
        #[trigger] less.open[j],
    ) by {
        let b = if j < i { j } else { j + 1 };
        assert(less.open[j] == m.open[b]);
    }
    lemma_first_index(m.open, of_chat(other));
    let k = first_index(m.open, of_chat(other));
    let at = if k < i { k } else { k - 1 };
    assert forall|j: int| 0 <= j < at implies !of_chat(other)(#[trigger] less.open[j]) by {
        let b = if j < i { j } else { j + 1 };
        assert(less.open[j] == m.open[b]);
    }
    if k < m.open.len() {
        assert(less.open[at] == m.open[k]);
    }
    crate::lists::lemma_first_index_is(less.open, of_chat(other), at);
    assert forall|a: int, b: int| 0 <= a < b < less.open.len() implies (
    #[trigger] less.open[a]).chat != (#[trigger] less.open[b]).chat && less.open[a].pending.id()
        < less.open[b].pending.id() by {
        let x = if a < i { a } else { a + 1 };
        let y = if b < i { b } else { b + 1 };
        assert(less.open[a] == m.open[x]);
        assert(less.open[b] == m.open[y]);
    }
    assert forall|a: int| 0 <= a < less.open.len() implies (
    #[trigger] less.open[a]).pending.id() < less.next by {
        let x = if a < i { a } else { a + 1 };
        assert(less.open[a] == m.open[x]);
    }
}

/// The end of a session drops every send of its protocol and no other.
pub proof fn law_drop_protocol_is_exact(m: SendsModel, protocol: ProtocolId, entry: FlightModel)
    ensures
        m.without_protocol(protocol).open.contains(entry) == (m.open.contains(entry)
            && entry.chat.0 != protocol),
        m.without_protocol(protocol).expired.contains(entry) == (m.expired.contains(entry)
            && entry.chat.0 != protocol),
{
    m.open.filter_lemma(not_of_owner(protocol));
    m.expired.filter_lemma(not_of_owner(protocol));
    lemma_filter_contains(m.open, not_of_owner(protocol), entry);
    lemma_filter_contains(m.expired, not_of_owner(protocol), entry);
}

/// At one point in time each send in flight either stays or expires.
pub proof fn law_expire_splits_the_open_sends(m: SendsModel, now: u64, entry: FlightModel)
    requires
        m.open.contains(entry),
    ensures
        m.expired_at(now).open.contains(entry) != m.due_at(now).contains(entry),
        m.due_at(now).contains(entry) ==> m.expired_at(now).expired.contains(entry),
{
    lemma_filter_contains(m.open, due(now), entry);
    lemma_filter_contains(m.open, not_due(now), entry);
    if m.due_at(now).contains(entry) {
        let i = choose|i: int| 0 <= i < m.due_at(now).len() && m.due_at(now)[i] == entry;
        let all = m.expired_at(now).expired;
        assert(all[m.expired.len() + i] == entry);
    }
}

/// Open entries in the order of their request ids, of different chats.
pub open spec fn starts_before() -> spec_fn(FlightModel, FlightModel) -> bool {
    |a: FlightModel, b: FlightModel| a.chat != b.chat && a.pending.id() < b.pending.id()
}

/// The request id of the entry was given out.
pub open spec fn numbered(next: u64) -> spec_fn(FlightModel) -> bool {
    |entry: FlightModel| entry.pending.id() < next
}

proof fn lemma_valid(m: SendsModel)
    ensures
        m.valid() == (pairwise(m.open, starts_before()) && every(m.open, numbered(m.next)) && every(
            m.expired,
            numbered(m.next),
        )),
{
    if m.valid() {
        assert forall|i: int, j: int| 0 <= i < j < m.open.len() implies starts_before()(
            #[trigger] m.open[i],
            #[trigger] m.open[j],
        ) by {}
        assert forall|i: int| 0 <= i < m.open.len() implies numbered(m.next)(
            #[trigger] m.open[i],
        ) by {}
        assert forall|i: int| 0 <= i < m.expired.len() implies numbered(m.next)(
            #[trigger] m.expired[i],
        ) by {}
    }
    if pairwise(m.open, starts_before()) && every(m.open, numbered(m.next)) && every(
        m.expired,
        numbered(m.next),
    ) {
        assert forall|i: int, j: int| 0 <= i < j < m.open.len() implies (
        #[trigger] m.open[i]).chat != (#[trigger] m.open[j]).chat && m.open[i].pending.id()
            < m.open[j].pending.id() by {
            assert(starts_before()(m.open[i], m.open[j]));
        }
        assert forall|i: int| 0 <= i < m.open.len() implies (
        #[trigger] m.open[i]).pending.id() < m.next by {
            assert(numbered(m.next)(m.open[i]));
        }
        assert forall|i: int| 0 <= i < m.expired.len() implies (
        #[trigger] m.expired[i]).pending.id() < m.next by {
            assert(numbered(m.next)(m.expired[i]));
        }
    }
}

/// Every end of a send keeps one open entry per chat and the numbers in order:
/// an answer in time or late, the time limit, a dropped retry, and the end of a
/// session.
pub proof fn law_every_end_keeps_valid(
    m: SendsModel,
    chat: ChatId,
    request: u64,
    message_id: Text,
    protocol: ProtocolId,
    now: u64,
)
    requires
        m.valid(),
    ensures
        m.settled(chat, request).valid(),
        m.settled_late(chat, request).valid(),
        m.expired_at(now).valid(),
        m.without_retry(chat, message_id).valid(),
        m.without_protocol(protocol).valid(),
{
    lemma_valid(m);
    lemma_first_index(m.open, of_chat(chat));
    lemma_first_index(m.expired, of_request(chat, request));
    let next = numbered(m.next);
    lemma_filter_pairwise(m.open, not_due(now), starts_before());
    lemma_filter_every(m.open, not_due(now), next);
    lemma_filter_every(m.open, due(now), next);
    lemma_filter_pairwise(m.open, not_retry_of(chat, message_id), starts_before());
    lemma_filter_every(m.open, not_retry_of(chat, message_id), next);
    lemma_filter_pairwise(m.open, not_of_owner(protocol), starts_before());
    lemma_filter_every(m.open, not_of_owner(protocol), next);
    lemma_filter_every(m.expired, not_of_owner(protocol), next);
    let ended = m.expired_at(now);
    assert forall|i: int| 0 <= i < ended.expired.len() implies next(
        #[trigger] ended.expired[i],
    ) by {
        if i < m.expired.len() {
            assert(ended.expired[i] == m.expired[i]);
        } else {
            assert(ended.expired[i] == m.due_at(now)[i - m.expired.len()]);
        }
    }
    lemma_valid(ended);
    lemma_valid(m.without_retry(chat, message_id));
    lemma_valid(m.without_protocol(protocol));
}

} // verus!
