//! What the state promises over several calls.

use crate::intent::AuthField;
use crate::lists::{first_index, lemma_first_index, lemma_some_row, some_row};
use crate::protocol::{
    AccountState, AdapterEvent, AdapterStatus, Build, ChatId, Delivery, ProtocolId, Text,
    catalog_order, name_of,
};
use crate::secrets::{SecretKey, StoreModel};
use crate::sends::{FlightModel, PendingModel, of_owner};
use crate::state::model::{
    AccountModel, ErrorModel, SnapshotModel, TimedOutModel, account_is, find, linked_is,
    other_timeout, real_chat, wait_after,
};
use crate::state::{
    AuthScreen, LOADING_OLDER_STATUS, Mark, OLDER_RETRY_DELAY, OLDER_RETRY_MAX, SignalScreen,
    WhatsAppScreen,
};
use crate::text::trim;
use vstd::prelude::*;
use vstd::string::*;

verus! {

impl SnapshotModel {
    /// The unsent text of a chat: the compose text of the selected chat, the
    /// stored draft of any other.
    pub open spec fn unsent(self, chat: ChatId) -> Text {
        if self.is_selected(chat) {
            self.compose
        } else if self.drafts.contains_key(chat) {
            self.drafts[chat]
        } else {
            Seq::empty()
        }
    }

    /// The selected chat has no stored draft: its text is the compose text.
    pub open spec fn one_text_per_chat(self) -> bool {
        match self.selected_conversation {
            Some(id) => !self.drafts.contains_key((self.selected_protocol, id)),
            None => true,
        }
    }

    /// Each protocol has one account row.
    pub open spec fn one_row_per_protocol(self) -> bool {
        forall|i: int, j: int|
            0 <= i < j < self.accounts.len() ==> (#[trigger] self.accounts[i]).id != (
            #[trigger] self.accounts[j]).id
    }

    /// What choosing a chat can change: the selection, the texts that move
    /// with it, and the request for its history.
    pub open spec fn same_but_for_selection(self, other: SnapshotModel) -> bool {
        other == (SnapshotModel {
            selected_protocol: other.selected_protocol,
            selected_conversation: other.selected_conversation,
            compose: other.compose,
            drafts: other.drafts,
            focused_row: other.focused_row,
            open_on_link: other.open_on_link,
            history_loading: other.history_loading,
            pending: other.pending,
            ..self
        })
    }
}

pub(crate) proof fn lemma_opening_frame(s: SnapshotModel)
    ensures
        s.opening() == (SnapshotModel {
            open_on_link: s.opening().open_on_link,
            history_loading: s.opening().history_loading,
            pending: s.opening().pending,
            ..s
        }),
{
    reveal(SnapshotModel::opening);
}

pub(crate) proof fn lemma_ensuring_frame(s: SnapshotModel)
    ensures
        s.same_but_for_selection(s.ensuring()),
{
    match find(s.rows(s.selected_protocol), real_chat()) {
        Some(row) => lemma_opening_frame(s.selecting(Some(row.id))),
        None => {},
    }
}

pub(crate) proof fn lemma_selecting_protocol_frame(s: SnapshotModel, protocol: ProtocolId)
    ensures
        s.same_but_for_selection(s.selecting_protocol(protocol)),
{
    reveal(SnapshotModel::selecting_protocol);
    let moved = SnapshotModel {
        selected_protocol: protocol,
        focused_row: None,
        ..s.selecting(None)
    };
    lemma_ensuring_frame(moved);
}

/// A draft stays with its chat: opening a chat changes no chat's unsent text,
/// and opening a protocol changes none either.
pub proof fn law_draft_stays_with_its_chat(s: SnapshotModel, id: Text, chat: ChatId)
    requires
        s.one_text_per_chat(),
    ensures
        s.picking(id).unsent(chat) == s.unsent(chat),
        s.picking(id).one_text_per_chat(),
        s.picking(id).is_selected((s.selected_protocol, id)),
{
    reveal(SnapshotModel::picking);
    let next = SnapshotModel { focused_row: Some(id), ..s }.selecting(Some(id));
    let marked = SnapshotModel { marks: next.marks.insert(Mark::FocusCompose), ..next };
    lemma_opening_frame(marked);
}

/// A draft that names its chat reaches that chat and no other, whatever is
/// selected.
pub proof fn law_draft_goes_to_the_chat_it_names(
    s: SnapshotModel,
    chat: ChatId,
    text: Text,
    other: ChatId,
)
    requires
        s.one_text_per_chat(),
    ensures
        s.drafting(chat, text).unsent(chat) == text,
        other != chat ==> s.drafting(chat, text).unsent(other) == s.unsent(other),
        s.drafting(chat, text).one_text_per_chat(),
{
    reveal(SnapshotModel::drafting);
    if !s.is_selected(chat) && text.len() == 0 {
        assert(text =~= Seq::empty());
    }
}

/// Showing another protocol keeps every chat's unsent text.
pub proof fn law_protocol_change_keeps_drafts(s: SnapshotModel, protocol: ProtocolId, chat: ChatId)
    requires
        s.one_text_per_chat(),
    ensures
        s.selecting_protocol(protocol).unsent(chat) == s.unsent(chat),
        s.selecting_protocol(protocol).one_text_per_chat(),
{
    reveal(SnapshotModel::selecting_protocol);
    if s.shows(protocol) {
        let moved = SnapshotModel {
            selected_protocol: protocol,
            focused_row: None,
            ..s.selecting(None)
        };
        assert(moved.unsent(chat) == s.unsent(chat));
        match find(moved.rows(protocol), real_chat()) {
            Some(row) => {
                let picked = moved.selecting(Some(row.id));
                assert(picked.unsent(chat) == moved.unsent(chat));
                lemma_opening_frame(picked);
            },
            None => {},
        }
    }
}

/// An inbox event of a protocol without a session changes nothing: it comes
/// from a cancelled or ended client.
pub proof fn law_inbox_event_needs_a_session(
    s: SnapshotModel,
    event: AdapterEvent,
    now: u64,
    protocol: ProtocolId,
)
    requires
        event.inbox_of() == Some(protocol),
        !s.has_session(protocol),
    ensures
        s.applied(event, now) == s,
{
    reveal(SnapshotModel::applied);
}

/// A status line never changes a link state, and never hides or empties an
/// inbox.
pub proof fn law_status_keeps_the_link(
    s: SnapshotModel,
    protocol: ProtocolId,
    status: AdapterStatus,
    detail: Text,
    other: ProtocolId,
)
    ensures
        s.with_adapter_status(protocol, status, detail).linked(other) == s.linked(other),
        s.with_adapter_status(protocol, status, detail).sessions == s.sessions,
        s.with_adapter_status(protocol, status, detail).conversations == s.conversations,
        s.with_adapter_status(protocol, status, detail).messages == s.messages,
        s.with_adapter_status(protocol, status, detail).drafts == s.drafts,
        s.with_adapter_status(protocol, status, detail).sends == s.sends,
{
    reveal(SnapshotModel::with_adapter_status);
    reveal(SnapshotModel::without_spinners);
    let noted = s.status_noted(protocol, status, detail);
    lemma_first_index(s.accounts, account_is(protocol));
    assert forall|i: int| 0 <= i < s.accounts.len() implies linked_is(other)(
        #[trigger] noted.accounts[i],
    ) == linked_is(other)(s.accounts[i]) by {}
    lemma_same_rows(s.accounts, noted.accounts, linked_is(other));
}

proof fn lemma_same_rows(a: Seq<AccountModel>, b: Seq<AccountModel>, p: spec_fn(AccountModel) -> bool)
    requires
        a.len() == b.len(),
        forall|i: int| 0 <= i < a.len() ==> p(#[trigger] b[i]) == p(a[i]),
    ensures
        some_row(a, p) == some_row(b, p),
{
    lemma_some_row(a, p);
    lemma_some_row(b, p);
    if some_row(a, p) {
        let i = choose|i: int| 0 <= i < a.len() && p(#[trigger] a[i]);
        assert(p(b[i]));
    }
    if some_row(b, p) {
        let i = choose|i: int| 0 <= i < b.len() && p(#[trigger] b[i]);
        assert(p(a[i]));
    }
}

/// A new link state of one protocol changes no other link.
proof fn lemma_state_of_others(
    s: SnapshotModel,
    protocol: ProtocolId,
    state: AccountState,
    other: ProtocolId,
)
    requires
        other != protocol,
    ensures
        s.with_state(protocol, state).linked(other) == s.linked(other),
{
    lemma_first_index(s.accounts, account_is(protocol));
    lemma_same_rows(s.accounts, s.with_state(protocol, state).accounts, linked_is(other));
}

/// With one row per protocol, an unlinked row is all there is.
proof fn lemma_unlinked(s: SnapshotModel, protocol: ProtocolId)
    requires
        s.one_row_per_protocol(),
    ensures
        !s.with_state(protocol, AccountState::Unlinked).linked(protocol),
{
    let rows = s.with_state(protocol, AccountState::Unlinked).accounts;
    lemma_first_index(s.accounts, account_is(protocol));
    lemma_some_row(rows, linked_is(protocol));
    if some_row(rows, linked_is(protocol)) {
        let i = choose|i: int| 0 <= i < rows.len() && linked_is(protocol)(#[trigger] rows[i]);
        let at = first_index(s.accounts, account_is(protocol));
        assert(account_is(protocol)(s.accounts[i]));
        assert(account_is(protocol)(s.accounts[at]));
        assert(s.accounts[i].id == s.accounts[at].id);
    }
}

/// The end of a session touches its own protocol only: the chats, messages,
/// notes, and sends of every other protocol stay.
pub proof fn law_session_end_stays_in_its_protocol(
    s: SnapshotModel,
    protocol: ProtocolId,
    other: ProtocolId,
    id: Text,
)
    requires
        other != protocol,
    ensures
        s.ending(protocol).has_session(other) == s.has_session(other),
        s.ending(protocol).rows(other) == s.rows(other),
        s.ending(protocol).thread((other, id)) == s.thread((other, id)),
        s.ending(protocol).notices.get(other) == s.notices.get(other),
        s.ending(protocol).rejected_bodies.get((other, id)) == s.rejected_bodies.get((other, id)),
        s.ending(protocol).sends == s.sends.without_protocol(protocol),
{
    reveal(SnapshotModel::ending);
    reveal(SnapshotModel::session_dropped);
    reveal(SnapshotModel::rows_dropped);
    reveal(SnapshotModel::work_dropped);
    let dropped = s.session_dropped(protocol);
    lemma_state_of_others(s, protocol, AccountState::Unlinked, other);
    if s.selected_protocol == protocol {
        let free = SnapshotModel {
            compose: Seq::empty(),
            selected_conversation: None,
            ..dropped
        };
        match find(free.accounts, free.shows_session()) {
            Some(row) => lemma_selecting_protocol_frame(free, row.id),
            None => {},
        }
    }
}

/// After the end of its session, a protocol has no session, no rows, no
/// messages, and no open send.
pub proof fn law_session_end_empties_its_protocol(s: SnapshotModel, protocol: ProtocolId, id: Text)
    requires
        s.one_row_per_protocol(),
    ensures
        !s.ending(protocol).has_session(protocol),
        s.ending(protocol).rows(protocol).len() == 0,
        s.ending(protocol).thread((protocol, id)).len() == 0,
        !s.ending(protocol).chat_list_loading.contains(protocol),
{
    reveal(SnapshotModel::ending);
    reveal(SnapshotModel::session_dropped);
    reveal(SnapshotModel::rows_dropped);
    reveal(SnapshotModel::work_dropped);
    let dropped = s.session_dropped(protocol);
    lemma_unlinked(s, protocol);
    if s.selected_protocol == protocol {
        let free = SnapshotModel {
            compose: Seq::empty(),
            selected_conversation: None,
            ..dropped
        };
        match find(free.accounts, free.shows_session()) {
            Some(row) => lemma_selecting_protocol_frame(free, row.id),
            None => {},
        }
    }
}

/// A link that connects again keeps everything but its link state.
pub proof fn law_reconnect_keeps_the_session(s: SnapshotModel, protocol: ProtocolId)
    ensures
        s.with_account(protocol, AccountState::Linking) == (SnapshotModel {
            accounts: s.with_account(protocol, AccountState::Linking).accounts,
            ..s
        }),
{
    reveal(SnapshotModel::with_account);
}

/// A chat has one send at a time: while one is open, nothing goes out.
pub proof fn law_one_send_per_chat(s: SnapshotModel, now: u64, id: Text)
    requires
        s.selected_row().is_some(),
        s.selected_row().unwrap().id == id,
        s.sends.in_flight((s.selected_protocol, id)),
    ensures
        s.sending(now) == s,
{
    reveal(SnapshotModel::sending);
}

/// A send keeps the typed text in its chat until the protocol accepts it.
pub proof fn law_send_keeps_the_text(s: SnapshotModel, now: u64)
    ensures
        s.sending(now).compose == s.compose,
        s.sending(now).drafts == s.drafts,
{
    reveal(SnapshotModel::sending);
}

/// A failed delivery fills an empty text only.
proof fn lemma_delivering_keeps(
    s: SnapshotModel,
    chat: ChatId,
    id: Text,
    delivery: Delivery,
    of: ChatId,
)
    requires
        trim(s.unsent(of)).len() > 0,
    ensures
        s.delivering(chat, id, delivery).unsent(of) == s.unsent(of),
{
    reveal(SnapshotModel::delivering);
}

proof fn lemma_delivering_frame(s: SnapshotModel, chat: ChatId, id: Text, delivery: Delivery)
    ensures
        s.delivering(chat, id, delivery).timed_out == s.timed_out,
{
    reveal(SnapshotModel::delivering);
}

/// A rejected send or retry loses no text: what was written in any chat stays.
pub proof fn law_rejected_send_keeps_the_text(
    s: SnapshotModel,
    chat: ChatId,
    request: u64,
    of: ChatId,
)
    requires
        trim(s.unsent(of)).len() > 0,
    ensures
        s.rejected(chat, request).unsent(of) == s.unsent(of),
{
    reveal(SnapshotModel::rejected);
    let settled = SnapshotModel { sends: s.sends.settled(chat, request), ..s };
    assert(settled.unsent(of) == s.unsent(of));
    match s.sends.answered(chat, request) {
        Some(PendingModel::Retry { message_id, .. }) => {
            lemma_delivering_keeps(settled, chat, message_id, Delivery::Failed, of);
        },
        _ => {},
    }
}

proof fn lemma_expiring_all_keeps(s: SnapshotModel, entries: Seq<FlightModel>, of: ChatId)
    ensures
        trim(s.unsent(of)).len() > 0 ==> s.expiring_all(entries).unsent(of) == s.unsent(of),
        s.expiring_all(entries).timed_out.len() == s.timed_out.len() + entries.len(),
    decreases entries.len(),
{
    if entries.len() > 0 {
        let before = s.expiring_all(entries.drop_last());
        lemma_expiring_all_keeps(s, entries.drop_last(), of);
        match entries.last().pending {
            PendingModel::Retry { message_id, .. } => {
                let chat = entries.last().chat;
                lemma_delivering_frame(before, chat, message_id, Delivery::Failed);
                if trim(s.unsent(of)).len() > 0 {
                    lemma_delivering_keeps(before, chat, message_id, Delivery::Failed, of);
                }
            },
            PendingModel::Send { .. } => {},
        }
    }
}

/// A send without an answer loses no text: what was written in any chat stays,
/// and each one that ran out of time is noted for the error block.
pub proof fn law_expired_send_keeps_the_text(s: SnapshotModel, now: u64, of: ChatId)
    ensures
        trim(s.unsent(of)).len() > 0 ==> s.expiring(now).unsent(of) == s.unsent(of),
        s.sends.due_at(now).len() > 0 ==> s.expiring(now).timed_out.len()
            >= s.sends.due_at(now).len(),
{
    reveal(SnapshotModel::expiring);
    let next = SnapshotModel { sends: s.sends.expired_at(now), ..s }.timeouts_restarted();
    assert(next.unsent(of) == s.unsent(of));
    lemma_expiring_all_keeps(next, s.sends.due_at(now), of);
}

/// An accept of one request takes only that request out of the timeout error.
pub proof fn law_timeout_of_another_send_stays(
    s: SnapshotModel,
    chat: ChatId,
    request: u64,
    i: int,
)
    requires
        0 <= i < s.timed_out.len(),
        s.timed_out[i].chat != chat || s.timed_out[i].request != request,
    ensures
        s.without_timeout(chat, request).timed_out.contains(s.timed_out[i]),
{
    let keep = other_timeout(chat, request);
    assert(keep(s.timed_out[i]));
    crate::lists::lemma_filter_contains(s.timed_out, keep, s.timed_out[i]);
}

/// An accept that came after its send expired settles that send alone. Its
/// request leaves the timeout error, which then shows what is left, or goes
/// with the last one. Any other error stays. The text of the send leaves its
/// chat if it is unchanged, and the text of every other chat stays.
pub proof fn law_late_accept_settles_its_own_send(
    s: SnapshotModel,
    chat: ChatId,
    request: u64,
    other: ChatId,
)
    requires
        s.one_text_per_chat(),
        s.sends.answered_late(chat, request).is_some(),
        other != chat,
    ensures
        s.sends.answered(chat, request).is_none() ==> s.accepted(chat, request) == s.accepted_late(
            chat,
            request,
        ),
        ({
            let next = s.accepted_late(chat, request);
            let shown = s.error.is_some() && s.error == s.timeout_error;
            &&& next.timed_out == s.timed_out.filter(other_timeout(chat, request))
            &&& shown ==> next.error == next.timeout_block() && next.timeout_error
                == next.timeout_block()
            &&& !shown ==> next.error == s.error
            &&& next.unsent(chat) == (match s.sends.answered_late(chat, request) {
                Some(PendingModel::Send { body, .. }) if trim(s.unsent(chat)) == body =>
                    Seq::empty(),
                _ => s.unsent(chat),
            })
            &&& next.unsent(other) == s.unsent(other)
            &&& !next.rejected_bodies.contains_key(chat)
        }),
{
    reveal(SnapshotModel::accepted);
    reveal(SnapshotModel::delivering);
    let pending = s.sends.answered_late(chat, request).unwrap();
    let told = SnapshotModel {
        sends: s.sends.settled_late(chat, request),
        ..s
    }.without_rejected(chat);
    let cleared = told.clearing_late(chat, pending);
    let next = s.accepted_late(chat, request);
    assert(cleared.error == s.error && cleared.timeout_error == s.timeout_error
        && cleared.timed_out == s.timed_out);
    assert(next == cleared.without_timeout(chat, request));
    let less = SnapshotModel {
        timed_out: s.timed_out.filter(other_timeout(chat, request)),
        ..cleared
    };
    assert(less.timed_out_names() =~= less.showing_timeouts().timed_out_names());
    assert(less.timeout_block() == less.showing_timeouts().timeout_block());
}

/// Of two sends that expired, a late accept of one leaves the error of the
/// other: it names the protocol, and it says where the text still is.
pub proof fn law_late_accept_leaves_the_other_timeout(
    s: SnapshotModel,
    chat: ChatId,
    request: u64,
    left: TimedOutModel,
)
    requires
        s.one_text_per_chat(),
        s.sends.answered_late(chat, request).is_some(),
        s.error.is_some(),
        s.error == s.timeout_error,
        s.timed_out.filter(other_timeout(chat, request)) == seq![left],
        left.chat != chat,
    ensures
        ({
            let next = s.accepted_late(chat, request);
            &&& next.error == Some(
                ErrorModel {
                    happened: "Message not sent."@,
                    why: name_of(left.chat.0) + " did not answer in time."@,
                    next: next.hint(left.chat, left.retry),
                },
            )
            &&& s.is_selected(left.chat) && !left.retry ==> next.hint(left.chat, left.retry)
                == "The text is still in the compose field. Send it again."@
        }),
{
    law_late_accept_settles_its_own_send(s, chat, request, left.chat);
    reveal(SnapshotModel::delivering);
}

/// The line of an older load belongs to the protocol of its chat, and to no
/// other one.
pub proof fn law_older_load_shows_in_its_protocol(
    s: SnapshotModel,
    protocol: ProtocolId,
    other: ProtocolId,
    id: Text,
)
    requires
        s.older_loading == Set::<ChatId>::empty().insert((protocol, id)),
        s.chat_list_loading == Set::<ProtocolId>::empty(),
        s.history_loading == Set::<ChatId>::empty(),
        s.sends.open.len() == 0,
        other != protocol,
    ensures
        s.load_line(protocol) == Some(LOADING_OLDER_STATUS@),
        s.load_line(other) == None::<Text>,
{
    assert(s.older_loading.contains((protocol, id)));
    lemma_some_row(s.sends.open, of_owner(other));
}

/// No older load outlives its session or an error of its protocol, and the
/// loads of another protocol stay. What is known of the start of a chat, and of
/// an anchor that waits, goes with the Telegram session and with no other one.
pub proof fn law_older_load_ends_with_its_session(
    s: SnapshotModel,
    protocol: ProtocolId,
    other: ChatId,
    id: Text,
)
    requires
        other.0 != protocol,
    ensures
        !s.ending(protocol).older_loading.contains((protocol, id)),
        s.ending(protocol).older_loading.contains(other) == s.older_loading.contains(other),
        !s.without_spinners(protocol, None).older_loading.contains((protocol, id)),
        s.without_spinners(protocol, None).older_loading.contains(other)
            == s.older_loading.contains(other),
        protocol == ProtocolId::Telegram ==> s.ending(protocol).older_at_start
            == Set::<Text>::empty() && s.ending(protocol).older_retry.dom() == Set::<Text>::empty(),
        protocol != ProtocolId::Telegram ==> s.ending(protocol).older_at_start == s.older_at_start
            && s.ending(protocol).older_retry == s.older_retry,
{
    reveal(SnapshotModel::without_spinners);
    reveal(SnapshotModel::ending);
    reveal(SnapshotModel::session_dropped);
    reveal(SnapshotModel::rows_dropped);
    reveal(SnapshotModel::work_dropped);
    let dropped = s.session_dropped(protocol);
    if s.selected_protocol == protocol {
        let free = SnapshotModel {
            compose: Seq::empty(),
            selected_conversation: None,
            ..dropped
        };
        match find(free.accounts, free.shows_session()) {
            Some(row) => lemma_selecting_protocol_frame(free, row.id),
            None => {},
        }
    }
}

/// No pairing starts before the ban gate was on screen and accepted.
pub proof fn law_whatsapp_needs_its_gate(s: SnapshotModel)
    ensures
        !s.marks.contains(Mark::WhatsAppRiskAccepted) ==> s.pairing_whatsapp() == s,
        s.whatsapp_screen != WhatsAppScreen::RiskGate ==> s.accepting_whatsapp_risk() == s,
        !s.cancelling_whatsapp().marks.contains(Mark::WhatsAppRiskAccepted),
        s.build.whatsapp_web ==> !s.opening_whatsapp_gate().marks.contains(
            Mark::WhatsAppRiskAccepted,
        ),
        s.pairing_whatsapp().pairing_whatsapp() == s.pairing_whatsapp(),
{
    reveal(SnapshotModel::pairing_whatsapp);
    reveal(SnapshotModel::accepting_whatsapp_risk);
    reveal(SnapshotModel::cancelling_whatsapp);
    reveal(SnapshotModel::opening_whatsapp_gate);
}

/// No link starts before the Signal notice was on screen and accepted.
pub proof fn law_signal_needs_its_notice(s: SnapshotModel)
    ensures
        !s.marks.contains(Mark::SignalNoticeAccepted) ==> s.linking_signal() == s,
        s.signal_screen != SignalScreen::Notice ==> s.accepting_signal_notice() == s,
        !s.cancelling_signal().marks.contains(Mark::SignalNoticeAccepted),
        s.linking_signal().linking_signal() == s.linking_signal(),
{
    reveal(SnapshotModel::linking_signal);
    reveal(SnapshotModel::accepting_signal_notice);
    reveal(SnapshotModel::cancelling_signal);
}

/// A pairing code of another pairing than the one that runs never shows. After
/// a cancel no code shows.
pub proof fn law_only_the_running_pairing_shows_codes(s: SnapshotModel, code: Text, generation: u64)
    ensures
        s.pairing_generation != Some(generation) ==> s.whatsapp_qr_shown(code, generation) == s
            && s.whatsapp_code_shown(code, generation) == s && s.signal_qr_shown(code, generation)
            == s,
        s.cancelling_whatsapp().whatsapp_qr_shown(code, generation) == s.cancelling_whatsapp(),
        s.cancelling_signal().signal_qr_shown(code, generation) == s.cancelling_signal(),
{
    reveal(SnapshotModel::whatsapp_qr_shown);
    reveal(SnapshotModel::whatsapp_code_shown);
    reveal(SnapshotModel::signal_qr_shown);
    reveal(SnapshotModel::cancelling_whatsapp);
    reveal(SnapshotModel::cancelling_signal);
}

/// Every pairing gets a number of its own.
pub proof fn law_pairings_get_new_numbers(s: SnapshotModel)
    requires
        s.next_pairing_generation < u64::MAX,
    ensures
        s.may_pair_whatsapp() ==> s.pairing_whatsapp().pairing_generation == Some(
            s.next_pairing_generation,
        ) && s.pairing_whatsapp().next_pairing_generation == s.next_pairing_generation + 1,
        s.may_link_signal() ==> s.linking_signal().pairing_generation == Some(
            s.next_pairing_generation,
        ) && s.linking_signal().next_pairing_generation == s.next_pairing_generation + 1,
{
    reveal(SnapshotModel::pairing_whatsapp);
    reveal(SnapshotModel::linking_signal);
}

/// Telling the adapters which chat shows is done once: a second time without a
/// change says nothing.
pub proof fn law_viewed_chat_is_told_once(s: SnapshotModel)
    ensures
        s.syncing_viewed().syncing_viewed() == s.syncing_viewed(),
        s.syncing_viewed().viewed == s.viewed_now(),
{
    reveal(SnapshotModel::syncing_viewed);
    let next = s.syncing_viewed();
    assert(next == (SnapshotModel { viewed: next.viewed, pending: next.pending, ..s }));
    assert(next.shows_session() =~= s.shows_session());
    assert(next.viewed_now() == s.viewed_now());
}

/// Cancel leaves no typed login value, neither in a field nor in the vault.
pub proof fn law_cancel_clears_what_was_typed(s: SnapshotModel, store: StoreModel)
    ensures
        s.cancelling().telegram_api_id.len() == 0,
        s.cancelling().telegram_api_hash.len() == 0,
        s.cancelling().telegram_phone.len() == 0,
        s.cancelling().telegram_code.len() == 0,
        s.cancelling().telegram_2fa.len() == 0,
        store.without_ephemeral().value(SecretKey::Phone) == None::<Text>,
        store.without_ephemeral().value(SecretKey::Code) == None::<Text>,
        store.without_ephemeral().value(SecretKey::Password) == None::<Text>,
{
    reveal(SnapshotModel::cancelling);
}

/// A field edit after Cancel is dropped: it does not refill a cleared form.
pub proof fn law_edit_after_cancel_is_dropped(s: SnapshotModel, field: AuthField, text: Text)
    ensures
        s.cancelling().with_field(field, text) == s.cancelling(),
{
    reveal(SnapshotModel::cancelling);
    reveal(SnapshotModel::with_field);
}

/// A form over a live session closes alone: the session stays.
pub proof fn law_cancel_keeps_a_live_session(s: SnapshotModel)
    requires
        s.telegram_authorized,
    ensures
        s.cancelling().telegram_authorized,
        s.cancelling().sessions == s.sessions,
        s.cancelling().conversations == s.conversations,
        s.cancelling().pending == s.pending,
{
    reveal(SnapshotModel::cancelling);
}

/// A saved session is resumed once: after the keychain read settled, a later
/// frame starts nothing.
pub proof fn law_resume_runs_once(
    s: SnapshotModel,
    store: StoreModel,
    live: bool,
    later: StoreModel,
    still_live: bool,
)
    requires
        store.settled(),
    ensures
        s.resuming(store, live).resuming(later, still_live) == s.resuming(store, live),
{
    reveal(SnapshotModel::resuming);
}

/// Before the keychain read settles, nothing is resumed and no sign-in starts.
pub proof fn law_nothing_starts_before_the_keychain(s: SnapshotModel, store: StoreModel, live: bool)
    requires
        !store.settled(),
    ensures
        s.resuming(store, live) == s,
        s.opening_telegram(store).pending == s.pending,
        s.opening_telegram(store).auth == s.auth,
{
    reveal(SnapshotModel::resuming);
    reveal(SnapshotModel::opening_telegram);
}

/// A sign-in never opens on the API credential form: Add Telegram starts a
/// client, or says that the credentials are missing.
pub proof fn law_sign_in_opens_no_api_form(s: SnapshotModel, store: StoreModel)
    requires
        s.auth == AuthScreen::Idle,
    ensures
        s.adding_account(store).auth != AuthScreen::TelegramApi,
        !s.telegram_authorized && store.settled() ==> s.adding_account(store).auth == (if s.has_api(
            store,
        ) {
            AuthScreen::TelegramConnecting
        } else {
            AuthScreen::NeedCredentials
        }),
{
    reveal(SnapshotModel::adding_account);
    reveal(SnapshotModel::opening_telegram);
}

/// The wait after an empty page grows with each repeat, up to a limit.
pub proof fn law_older_wait_grows(tries: u32)
    requires
        tries < u32::MAX,
    ensures
        OLDER_RETRY_DELAY <= wait_after(tries) <= OLDER_RETRY_MAX,
        wait_after(tries) <= wait_after((tries + 1) as u32),
        1 <= tries < 5 ==> wait_after((tries + 1) as u32) == 2 * wait_after(tries),
{
}

/// At launch each protocol has one account row, nothing is linked, and no chat
/// has a text.
pub proof fn law_launch_is_empty(build: Build, api_source: Option<(Text, Text)>, chat: ChatId)
    ensures
        SnapshotModel::at_launch(build, api_source).one_row_per_protocol(),
        SnapshotModel::at_launch(build, api_source).one_text_per_chat(),
        SnapshotModel::at_launch(build, api_source).unsent(chat).len() == 0,
        !SnapshotModel::at_launch(build, api_source).has_session(chat.0),
{
    let s = SnapshotModel::at_launch(build, api_source);
    assert forall|i: int, j: int| 0 <= i < j < s.accounts.len() implies (
    #[trigger] s.accounts[i]).id != (#[trigger] s.accounts[j]).id by {
        assert(s.accounts[i].id == catalog_order()[i]);
        assert(s.accounts[j].id == catalog_order()[j]);
    }
    lemma_some_row(s.accounts, linked_is(chat.0));
}

/// New link states and status lines keep one account row per protocol.
pub proof fn law_account_rows_stay(
    s: SnapshotModel,
    protocol: ProtocolId,
    state: AccountState,
    status: AdapterStatus,
    detail: Text,
)
    requires
        s.one_row_per_protocol(),
    ensures
        s.with_state(protocol, state).one_row_per_protocol(),
        s.status_noted(protocol, status, detail).one_row_per_protocol(),
{
    lemma_first_index(s.accounts, account_is(protocol));
    let a = s.with_state(protocol, state).accounts;
    let b = s.status_noted(protocol, status, detail).accounts;
    assert(forall|i: int| 0 <= i < a.len() ==> (#[trigger] a[i]).id == s.accounts[i].id);
    assert(forall|i: int| 0 <= i < b.len() ==> (#[trigger] b[i]).id == s.accounts[i].id);
}

/// After the end of a session, the selected chat still has no stored draft.
pub proof fn law_session_end_keeps_one_text_per_chat(s: SnapshotModel, protocol: ProtocolId)
    requires
        s.one_text_per_chat(),
    ensures
        s.ending(protocol).one_text_per_chat(),
{
    reveal(SnapshotModel::ending);
    reveal(SnapshotModel::session_dropped);
    reveal(SnapshotModel::rows_dropped);
    reveal(SnapshotModel::work_dropped);
    let dropped = s.session_dropped(protocol);
    if s.selected_protocol == protocol {
        let free = SnapshotModel {
            compose: Seq::empty(),
            selected_conversation: None,
            ..dropped
        };
        match find(free.accounts, free.shows_session()) {
            Some(row) => law_protocol_change_keeps_drafts(free, row.id, (protocol, Seq::empty())),
            None => {},
        }
    }
}

/// A rejected text that is still in its chat outlives the session, so the user
/// can send it again.
pub proof fn law_rejected_text_outlives_its_session(
    s: SnapshotModel,
    protocol: ProtocolId,
    chat: ChatId,
)
    requires
        s.one_text_per_chat(),
        s.keeps_text(protocol, chat),
    ensures
        Some(s.ending(protocol).unsent(chat)) == s.kept_text(chat),
{
    reveal(SnapshotModel::ending);
    reveal(SnapshotModel::session_dropped);
    reveal(SnapshotModel::rows_dropped);
    reveal(SnapshotModel::work_dropped);
    let dropped = s.session_dropped(protocol);
    assert(s.kept_texts(protocol).contains_key(chat));
    assert(dropped.drafts[chat] == s.kept_text(chat).unwrap());
    if s.selected_protocol == protocol {
        let free = SnapshotModel {
            compose: Seq::empty(),
            selected_conversation: None,
            ..dropped
        };
        assert(free.unsent(chat) == s.kept_text(chat).unwrap());
        match find(free.accounts, free.shows_session()) {
            Some(row) => law_protocol_change_keeps_drafts(free, row.id, chat),
            None => {},
        }
    }
}

/// A page of older messages is asked for once: a second request before the
/// answer does nothing.
pub proof fn law_one_older_page_at_a_time(s: SnapshotModel, now: u64, later: u64)
    ensures
        s.loading_older(now).older_anchor(now).is_some() ==> s.loading_older(now) == s,
        s.older_anchor(now).is_some() ==> s.loading_older(now).loading_older(later)
            == s.loading_older(now),
{
    reveal(SnapshotModel::loading_older);
}

/// A failed message is sent again only while its chat has no open send.
pub proof fn law_retry_waits_for_the_open_send(s: SnapshotModel, message_id: Text, now: u64)
    ensures
        !s.can_retry(message_id) ==> s.retrying(message_id, now) == s,
        s.selected_row().is_some() && s.sends.in_flight(
            (s.selected_protocol, s.selected_row().unwrap().id),
        ) ==> s.retrying(message_id, now) == s,
{
    reveal(SnapshotModel::retrying);
}

} // verus!
