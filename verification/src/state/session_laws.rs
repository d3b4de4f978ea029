//! What a link state does to the account rows, the selection, and the pairing
//! screens, said over the fields of the state.

use crate::lists::{first_index, lemma_first_index};
use crate::protocol::{AccountState, CommandModel, ProtocolId, Text};
use crate::state::action_laws::{law_picked_protocol_is_selected, law_selected_chat_is_opened};
use crate::state::laws::{lemma_opening_frame, lemma_selecting_protocol_frame};
use crate::state::model::{AccountModel, SnapshotModel, account_is, find};
use crate::state::{Mark, SignalScreen, WhatsAppScreen};
use vstd::prelude::*;
use vstd::string::*;

verus! {

proof fn lemma_row_states(s: SnapshotModel, protocol: ProtocolId, state: AccountState, i: int)
    requires
        s.one_row_per_protocol(),
        0 <= i < s.accounts.len(),
    ensures
        s.with_state(protocol, state).accounts.len() == s.accounts.len(),
        s.accounts[i].id == protocol ==> s.with_state(protocol, state).accounts[i] == (
        AccountModel { state, ..s.accounts[i] }),
        s.accounts[i].id != protocol ==> s.with_state(protocol, state).accounts[i]
            == s.accounts[i],
        s.with_state(protocol, state).one_row_per_protocol(),
{
    lemma_first_index(s.accounts, account_is(protocol));
    let at = first_index(s.accounts, account_is(protocol));
    if at < s.accounts.len() {
        assert(account_is(protocol)(s.accounts[at]));
        if at < i {
            assert(s.accounts[at].id != s.accounts[i].id);
        } else if i < at {
            assert(s.accounts[i].id != s.accounts[at].id);
        }
    } else {
        assert(!account_is(protocol)(s.accounts[i]));
    }
    let next = s.with_state(protocol, state).accounts;
    assert(forall|k: int| 0 <= k < next.len() ==> (#[trigger] next[k]).id == s.accounts[k].id);
}

/// What a link changes before the pairing screens close.
proof fn lemma_link_shown_frame(s: SnapshotModel, protocol: ProtocolId, first: bool)
    ensures
        ({
            let next = s.link_shown(protocol, first);
            &&& next.accounts == s.accounts && next.sessions == s.sessions
            &&& next.conversations == s.conversations && next.messages == s.messages
            &&& next.build == s.build && next.extra_visible == s.extra_visible
            &&& next.sends == s.sends && next.rejected_bodies == s.rejected_bodies
            &&& next.whatsapp_screen == s.whatsapp_screen && next.whatsapp_started
                == s.whatsapp_started && next.signal_screen == s.signal_screen
            &&& (first || !s.linked(s.selected_protocol)) && s.shows(protocol)
                ==> next.selected_protocol == protocol
            &&& !first && s.linked(s.selected_protocol) ==> next.selected_protocol
                == s.selected_protocol && next.selected_conversation == s.selected_conversation
                && next.compose == s.compose && next.drafts == s.drafts
        }),
{
    reveal(SnapshotModel::link_shown);
    lemma_selecting_protocol_frame(s, protocol);
    law_picked_protocol_is_selected(s, protocol);
    let shown = if first || !s.linked(s.selected_protocol) {
        s.selecting_protocol(protocol)
    } else {
        s
    };
    lemma_opening_frame(shown);
}

proof fn lemma_screens_close_frame(s: SnapshotModel)
    ensures
        s.whatsapp_linked().accounts == s.accounts && s.whatsapp_linked().sessions == s.sessions,
        s.whatsapp_linked().selected_protocol == s.selected_protocol,
        s.whatsapp_linked().compose == s.compose && s.whatsapp_linked().selected_conversation
            == s.selected_conversation,
        s.whatsapp_linked().conversations == s.conversations && s.whatsapp_linked().messages
            == s.messages,
        s.signal_linked().accounts == s.accounts && s.signal_linked().sessions == s.sessions,
        s.signal_linked().conversations == s.conversations && s.signal_linked().messages
            == s.messages,
        s.shows(ProtocolId::Signal) && s.signal_screen != SignalScreen::Hidden
            ==> s.signal_linked().selected_protocol == ProtocolId::Signal,
        s.signal_screen == SignalScreen::Hidden ==> s.signal_linked() == s,
        s.signal_linked().signal_screen == SignalScreen::Hidden,
{
    reveal(SnapshotModel::whatsapp_linked);
    reveal(SnapshotModel::signal_linked);
    let closed = SnapshotModel {
        signal_screen: SignalScreen::Hidden,
        pairing_generation: None,
        signal_qr: None,
        status_text: "Signal is linked on this local build."@,
        ..s
    };
    lemma_selecting_protocol_frame(closed, ProtocolId::Signal);
    law_picked_protocol_is_selected(closed, ProtocolId::Signal);
}

/// A link marks the account row of its protocol, and no other. The inboxes and
/// the messages stay. The first link of the shell shows its inbox. A link beside
/// another leaves the selection and its text alone, except that a link from the
/// open Signal screen shows Signal.
pub proof fn law_link_marks_its_row(s: SnapshotModel, protocol: ProtocolId, i: int)
    requires
        s.one_row_per_protocol(),
        0 <= i < s.accounts.len(),
    ensures
        ({
            let next = s.with_account(protocol, AccountState::Linked);
            let started = s.session_started(protocol);
            &&& next.accounts.len() == s.accounts.len()
            &&& s.accounts[i].id == protocol ==> next.accounts[i] == (AccountModel {
                state: AccountState::Linked,
                ..s.accounts[i]
            })
            &&& s.accounts[i].id != protocol ==> next.accounts[i] == s.accounts[i]
            &&& next.sessions == s.sessions.insert(protocol)
            &&& next.conversations == s.conversations && next.messages == s.messages
            &&& !s.any_linked() && s.shows(protocol) ==> next.selected_protocol == protocol
            &&& s.any_linked() && started.linked(s.selected_protocol) && protocol
                != ProtocolId::Signal ==> next.selected_protocol == s.selected_protocol
                && next.selected_conversation == s.selected_conversation && next.compose
                == s.compose
        }),
{
    reveal(SnapshotModel::with_account);
    reveal(SnapshotModel::linking);
    reveal(SnapshotModel::session_started);
    lemma_row_states(s, protocol, AccountState::Linked, i);
    let started = s.session_started(protocol);
    lemma_link_shown_frame(started, protocol, !s.any_linked());
    let opened = started.link_shown(protocol, !s.any_linked());
    lemma_screens_close_frame(opened);
    assert(started.shows(protocol) == s.shows(protocol));
}

/// A link closes the screen that paired it: the WhatsApp pair screen that runs
/// a pairing, and any Signal screen. With nothing linked on screen, the linked
/// protocol shows.
pub proof fn law_link_shows_and_closes(s: SnapshotModel, protocol: ProtocolId)
    ensures
        s.build.whatsapp_web && s.whatsapp_started && s.whatsapp_screen == WhatsAppScreen::Pair ==> {
            let next = s.with_account(ProtocolId::WhatsApp, AccountState::Linked);
            &&& next.whatsapp_screen == WhatsAppScreen::Hidden
            &&& next.whatsapp_phone.len() == 0 && next.whatsapp_qr.is_none()
                && next.whatsapp_pair_code.is_none() && next.pairing_generation.is_none()
        },
        s.build.signal_local ==> s.with_account(
            ProtocolId::Signal,
            AccountState::Linked,
        ).signal_screen == SignalScreen::Hidden,
        s.shows(protocol) && !s.session_started(protocol).linked(s.selected_protocol) && protocol
            != ProtocolId::Signal ==> s.with_account(
            protocol,
            AccountState::Linked,
        ).selected_protocol == protocol,
{
    reveal(SnapshotModel::with_account);
    reveal(SnapshotModel::linking);
    reveal(SnapshotModel::whatsapp_linked);
    lemma_started_frame(s, protocol);
    lemma_started_frame(s, ProtocolId::WhatsApp);
    lemma_started_frame(s, ProtocolId::Signal);
    lemma_link_shown_frame(s.session_started(protocol), protocol, !s.any_linked());
    lemma_link_shown_frame(
        s.session_started(ProtocolId::WhatsApp),
        ProtocolId::WhatsApp,
        !s.any_linked(),
    );
    let signal = s.session_started(ProtocolId::Signal);
    lemma_link_shown_frame(signal, ProtocolId::Signal, !s.any_linked());
    lemma_screens_close_frame(signal.link_shown(ProtocolId::Signal, !s.any_linked()));
}

proof fn lemma_started_frame(s: SnapshotModel, protocol: ProtocolId)
    ensures
        s.session_started(protocol).build == s.build,
        s.session_started(protocol).selected_protocol == s.selected_protocol,
        s.session_started(protocol).shows(protocol) == s.shows(protocol),
        s.session_started(protocol).whatsapp_screen == s.whatsapp_screen,
        s.session_started(protocol).whatsapp_started == s.whatsapp_started,
        s.session_started(protocol).signal_screen == s.signal_screen,
{
    reveal(SnapshotModel::session_started);
}

/// A link that connects again or ends marks the row of its protocol, and no
/// other.
pub proof fn law_other_link_states_mark_their_row(s: SnapshotModel, protocol: ProtocolId, i: int)
    requires
        s.one_row_per_protocol(),
        0 <= i < s.accounts.len(),
    ensures
        ({
            let again = s.with_account(protocol, AccountState::Linking);
            let ended = s.with_account(protocol, AccountState::Unlinked);
            let row = s.accounts[i];
            &&& row.id == protocol ==> again.accounts[i] == (AccountModel {
                state: AccountState::Linking,
                ..row
            }) && ended.accounts[i] == (AccountModel { state: AccountState::Unlinked, ..row })
            &&& row.id != protocol ==> again.accounts[i] == row && ended.accounts[i] == row
        }),
{
    reveal(SnapshotModel::with_account);
    lemma_row_states(s, protocol, AccountState::Linking, i);
    lemma_row_states(s, protocol, AccountState::Unlinked, i);
    let next = s.with_state(protocol, AccountState::Unlinked);
    lemma_row_states(next, protocol, AccountState::Unlinked, i);
    lemma_ending_accounts(next, protocol);
}

proof fn lemma_ending_accounts(s: SnapshotModel, protocol: ProtocolId)
    ensures
        s.ending(protocol).accounts == s.with_state(protocol, AccountState::Unlinked).accounts,
{
    reveal(SnapshotModel::ending);
    reveal(SnapshotModel::session_dropped);
    reveal(SnapshotModel::rows_dropped);
    reveal(SnapshotModel::work_dropped);
    let free = SnapshotModel {
        compose: Seq::empty(),
        selected_conversation: None,
        ..s.session_dropped(protocol)
    };
    match find(free.accounts, free.shows_session()) {
        Some(row) => lemma_selecting_protocol_frame(free, row.id),
        None => {},
    }
}

/// The end of a session that is not on screen leaves the selection and its text.
/// The end of the one on screen moves the selection to the first other account
/// with a session that the shell shows; without one no chat is selected, and no
/// text is left.
pub proof fn law_session_end_moves_the_selection(s: SnapshotModel, protocol: ProtocolId, i: int)
    ensures
        s.selected_protocol != protocol ==> s.ending(protocol).selected_protocol
            == s.selected_protocol && s.ending(protocol).selected_conversation
            == s.selected_conversation && s.ending(protocol).compose == s.compose,
        s.selected_protocol == protocol ==> {
            let dropped = s.session_dropped(protocol);
            let next = s.ending(protocol);
            &&& (forall|k: int|
                0 <= k < dropped.accounts.len() ==> !dropped.has_session(
                    (#[trigger] dropped.accounts[k]).id,
                ) || !dropped.shows(dropped.accounts[k].id)) ==> next.selected_protocol == protocol
                && next.selected_conversation.is_none() && next.compose.len() == 0
            &&& 0 <= i < dropped.accounts.len() && dropped.has_session(dropped.accounts[i].id)
                && dropped.shows(dropped.accounts[i].id) && (forall|k: int|
                0 <= k < i ==> !dropped.has_session((#[trigger] dropped.accounts[k]).id)
                    || !dropped.shows(dropped.accounts[k].id)) ==> next.selected_protocol
                == dropped.accounts[i].id
        },
{
    reveal(SnapshotModel::ending);
    let dropped = s.session_dropped(protocol);
    assert(dropped.selected_protocol == s.selected_protocol && dropped.selected_conversation
        == s.selected_conversation && dropped.compose == s.compose) by {
        reveal(SnapshotModel::session_dropped);
        reveal(SnapshotModel::rows_dropped);
        reveal(SnapshotModel::work_dropped);
    }
    if s.selected_protocol == protocol {
        let free = SnapshotModel {
            compose: Seq::empty(),
            selected_conversation: None,
            ..dropped
        };
        assert forall|p: ProtocolId| #[trigger] free.has_session(p) == dropped.has_session(p) by {}
        assert forall|p: ProtocolId| #[trigger] free.shows(p) == dropped.shows(p) by {}
        let want = free.shows_session();
        lemma_first_index(free.accounts, want);
        let at = first_index(free.accounts, want);
        if at < free.accounts.len() {
            assert(want(free.accounts[at]));
            law_picked_protocol_is_selected(free, free.accounts[at].id);
        }
        if 0 <= i < dropped.accounts.len() && dropped.has_session(dropped.accounts[i].id)
            && dropped.shows(dropped.accounts[i].id) {
            assert(want(free.accounts[i]));
        }
    }
}

/// A chat that was opened before its protocol was linked loads when the link
/// comes.
pub proof fn law_waiting_chat_opens_with_the_link(
    s: SnapshotModel,
    protocol: ProtocolId,
    id: Text,
    i: int,
)
    requires
        s.any_linked(),
        s.session_started(protocol).linked(protocol),
        s.selected_protocol == protocol,
        s.selected_conversation == Some(id),
        s.open_on_link == Some((protocol, id)),
        0 <= i < s.rows(protocol).len(),
        s.rows(protocol)[i].id == id,
        !s.rows(protocol)[i].placeholder,
        !s.pending.contains(CommandModel::OpenChat { protocol, conversation_id: id }),
        protocol != ProtocolId::Signal,
    ensures
        s.with_account(protocol, AccountState::Linked).pending == s.pending.push(
            CommandModel::OpenChat { protocol, conversation_id: id },
        ),
        s.with_account(protocol, AccountState::Linked).history_loading.contains((protocol, id)),
{
    reveal(SnapshotModel::with_account);
    reveal(SnapshotModel::linking);
    reveal(SnapshotModel::link_shown);
    reveal(SnapshotModel::whatsapp_linked);
    let started = s.session_started(protocol);
    assert(started.selected_protocol == protocol && started.selected_conversation == Some(id)
        && started.open_on_link == s.open_on_link && started.pending == s.pending && started.rows(
        protocol,
    ) == s.rows(protocol)) by {
        reveal(SnapshotModel::session_started);
    }
    law_selected_chat_is_opened(started, id, i);
}

// ---- pairing screens ----

/// The WhatsApp screens: opening shows the risk and drops an old accept, an
/// accept on it shows the pair screen, and a cancel hides everything and tells
/// the adapter. The phone field empties with each of them but the accept.
pub proof fn law_whatsapp_screens_follow_the_user(s: SnapshotModel)
    ensures
        s.build.whatsapp_web ==> {
            let next = s.opening_whatsapp_gate();
            &&& next.whatsapp_screen == WhatsAppScreen::RiskGate
            &&& !next.whatsapp_started && !next.marks.contains(Mark::WhatsAppRiskAccepted)
            &&& next.pairing_generation.is_none() && next.whatsapp_qr.is_none()
                && next.whatsapp_pair_code.is_none() && next.whatsapp_phone.len() == 0
            &&& s.whatsapp_started ==> next.pending == s.pending.push(
                CommandModel::WhatsAppCancelLink,
            )
            &&& !s.whatsapp_started ==> next.pending == s.pending
        },
        s.whatsapp_screen == WhatsAppScreen::RiskGate ==> {
            let next = s.accepting_whatsapp_risk();
            &&& next.whatsapp_screen == WhatsAppScreen::Pair
            &&& next.marks.contains(Mark::WhatsAppRiskAccepted)
            &&& next.pending == s.pending.push(CommandModel::WhatsAppAcknowledgeRisk)
            &&& next.whatsapp_phone == s.whatsapp_phone
        },
        ({
            let next = s.cancelling_whatsapp();
            &&& next.whatsapp_screen == WhatsAppScreen::Hidden
            &&& !next.whatsapp_started && !next.marks.contains(Mark::WhatsAppRiskAccepted)
            &&& next.pairing_generation.is_none() && next.whatsapp_qr.is_none()
                && next.whatsapp_pair_code.is_none() && next.whatsapp_phone.len() == 0
            &&& next.pending == s.pending.push(CommandModel::WhatsAppCancelLink)
        }),
        s.closing_whatsapp_gate().whatsapp_screen == WhatsAppScreen::Hidden,
        s.closing_whatsapp_gate().whatsapp_phone.len() == 0,
        s.whatsapp_screen == WhatsAppScreen::RiskGate && !s.whatsapp_started && !s.marks.contains(
            Mark::WhatsAppRiskAccepted,
        ) ==> s.closing_whatsapp_gate().pending == s.pending,
        s.whatsapp_screen == WhatsAppScreen::Pair ==> s.closing_whatsapp_gate().pending
            == s.pending.push(CommandModel::WhatsAppCancelLink),
{
    reveal(SnapshotModel::opening_whatsapp_gate);
    reveal(SnapshotModel::accepting_whatsapp_risk);
    reveal(SnapshotModel::cancelling_whatsapp);
    reveal(SnapshotModel::closing_whatsapp_gate);
}

/// The Signal screens: opening shows the notice, an accept on it shows the link
/// screen, a link starts only from there and once, with a new number, and a
/// cancel hides everything and tells the adapter. A linked account keeps its
/// link.
pub proof fn law_signal_screens_follow_the_user(s: SnapshotModel)
    ensures
        s.build.signal_local ==> s.opening_signal_notice().signal_screen == SignalScreen::Notice
            && s.opening_signal_notice().signal_qr.is_none(),
        !s.build.signal_local ==> s.opening_signal_notice() == s,
        s.build.signal_local && !s.linked(ProtocolId::Signal)
            ==> !s.opening_signal_notice().signal_started
            && !s.opening_signal_notice().marks.contains(Mark::SignalNoticeAccepted),
        s.build.signal_local && !s.linked(ProtocolId::Signal) && s.signal_started
            ==> s.opening_signal_notice().pending == s.pending.push(
            CommandModel::SignalCancelLink,
        ),
        s.build.signal_local && (s.linked(ProtocolId::Signal) || !s.signal_started)
            ==> s.opening_signal_notice().pending == s.pending,
        s.signal_screen == SignalScreen::Notice ==> s.accepting_signal_notice().signal_screen
            == SignalScreen::Link && s.accepting_signal_notice().marks.contains(
            Mark::SignalNoticeAccepted,
        ) && s.accepting_signal_notice().pending == s.pending.push(
            CommandModel::SignalAcknowledgeNotice,
        ),
        s.signal_screen != SignalScreen::Notice ==> s.accepting_signal_notice() == s,
        s.signal_screen == SignalScreen::Link && s.marks.contains(Mark::SignalNoticeAccepted)
            && !s.signal_started && s.next_pairing_generation < u64::MAX ==> {
            let next = s.linking_signal();
            &&& next.signal_started
            &&& next.pairing_generation == Some(s.next_pairing_generation)
            &&& next.next_pairing_generation == s.next_pairing_generation + 1
            &&& next.pending == s.pending.push(
                CommandModel::SignalBeginLink { generation: s.next_pairing_generation },
            )
        },
        s.signal_screen != SignalScreen::Link || !s.marks.contains(Mark::SignalNoticeAccepted)
            || s.signal_started ==> s.linking_signal() == s,
        ({
            let next = s.cancelling_signal();
            &&& next.signal_screen == SignalScreen::Hidden && !next.signal_started
            &&& !next.marks.contains(Mark::SignalNoticeAccepted)
            &&& next.pairing_generation.is_none() && next.signal_qr.is_none()
            &&& next.pending == s.pending.push(CommandModel::SignalCancelLink)
        }),
        s.closing_signal_gate().signal_screen == SignalScreen::Hidden,
        s.linked(ProtocolId::Signal) ==> s.closing_signal_gate().pending == s.pending,
        !s.linked(ProtocolId::Signal) && s.signal_screen == SignalScreen::Link
            ==> s.closing_signal_gate().pending == s.pending.push(CommandModel::SignalCancelLink),
{
    reveal(SnapshotModel::opening_signal_notice);
    reveal(SnapshotModel::accepting_signal_notice);
    reveal(SnapshotModel::linking_signal);
    reveal(SnapshotModel::cancelling_signal);
    reveal(SnapshotModel::closing_signal_gate);
}

} // verus!
