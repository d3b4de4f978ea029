//! What the actions on the inbox and the smaller events do, said over the fields
//! of the state.

use crate::lists::{first_index, lemma_first_index, lemma_some_row, some_row};
use crate::protocol::{
    AccountState, AdapterEvent, AdapterStatus, ChatId, CommandModel, ProtocolId,
    RedactedPairingSecret, TelegramAuthError, TelegramAuthPhase, TelegramCodeVia, Text, name_of,
};
use crate::state::laws::{lemma_ensuring_frame, lemma_opening_frame, lemma_selecting_protocol_frame};
use crate::state::model::{
    AccountModel, ErrorModel, SnapshotModel, account_is, filter_matches, opens, real_chat,
    real_chat_is, text_is,
};
use crate::state::reading_laws::law_key_move_lands_in_the_list;
use crate::state::{InboxFilter, Mark, Resume};
use vstd::prelude::*;
use vstd::string::*;

verus! {

// ---- selection ----

/// A chat that the user picks is the selected one, with the highlight on it and
/// its own text in the compose field, which gets the focus.
pub proof fn law_picked_chat_is_selected(s: SnapshotModel, id: Text)
    ensures
        ({
            let next = s.picking(id);
            let chat = (s.selected_protocol, id);
            &&& next.selected_conversation == Some(id)
            &&& next.selected_protocol == s.selected_protocol
            &&& next.focused_row == Some(id)
            &&& next.marks.contains(Mark::FocusCompose)
            &&& s.selected_conversation == Some(id) ==> next.compose == s.compose
            &&& s.selected_conversation != Some(id) && s.drafts.contains_key(chat) ==> next.compose
                == s.drafts[chat]
            &&& s.selected_conversation != Some(id) && !s.drafts.contains_key(chat)
                ==> next.compose.len() == 0
            &&& s.selected_conversation != Some(id) && s.selected_conversation.is_some()
                && s.compose.len() > 0 ==> next.drafts.contains_key(
                (s.selected_protocol, s.selected_conversation.unwrap()),
            ) && next.drafts[(s.selected_protocol, s.selected_conversation.unwrap())] == s.compose
            &&& next.conversations == s.conversations && next.messages == s.messages && next.sends
                == s.sends && next.error == s.error
        }),
{
    reveal(SnapshotModel::picking);
    let next = SnapshotModel { focused_row: Some(id), ..s }.selecting(Some(id));
    let marked = SnapshotModel { marks: next.marks.insert(Mark::FocusCompose), ..next };
    lemma_opening_frame(marked);
}

/// The history of a selected chat is asked for once: when its protocol is linked
/// and its row is a real chat, unless the request already waits. Before the link
/// the chat waits for it.
pub proof fn law_selected_chat_is_opened(s: SnapshotModel, id: Text, i: int)
    requires
        s.selected_conversation == Some(id),
    ensures
        ({
            let next = s.opening();
            let chat = (s.selected_protocol, id);
            let command = CommandModel::OpenChat { protocol: chat.0, conversation_id: chat.1 };
            &&& !s.linked(chat.0) ==> next.open_on_link == Some(chat) && next.pending == s.pending
                && next.history_loading == s.history_loading
            &&& s.linked(chat.0) ==> next.open_on_link.is_none()
            &&& s.linked(chat.0) && 0 <= i < s.rows(chat.0).len() && s.rows(chat.0)[i].id == id
                && !s.rows(chat.0)[i].placeholder && !s.pending.contains(command) ==> next.pending
                == s.pending.push(command) && next.history_loading.contains(chat)
            &&& s.pending.contains(command) ==> next.pending == s.pending
            &&& (forall|k: int|
                0 <= k < s.rows(chat.0).len() ==> (#[trigger] s.rows(chat.0)[k]).id != id || s.rows(
                    chat.0,
                )[k].placeholder) ==> next.pending == s.pending
        }),
{
    reveal(SnapshotModel::opening);
    let chat = (s.selected_protocol, id);
    let rows = s.rows(chat.0);
    let command = CommandModel::OpenChat { protocol: chat.0, conversation_id: chat.1 };
    lemma_some_row(rows, real_chat_is(id));
    lemma_some_row(s.pending, opens(chat));
    if 0 <= i < rows.len() && rows[i].id == id && !rows[i].placeholder {
        assert(real_chat_is(id)(rows[i]));
    }
    if some_row(rows, real_chat_is(id)) {
        let k = choose|k: int| 0 <= k < rows.len() && real_chat_is(id)(#[trigger] rows[k]);
        assert(rows[k].id == id && !rows[k].placeholder);
    }
    if s.pending.contains(command) {
        let k = choose|k: int| 0 <= k < s.pending.len() && s.pending[k] == command;
        assert(opens(chat)(s.pending[k]));
    }
    if some_row(s.pending, opens(chat)) {
        let k = choose|k: int| 0 <= k < s.pending.len() && opens(chat)(#[trigger] s.pending[k]);
        assert(s.pending[k] == command);
    }
}

/// A protocol that the shell shows is selected with its first real chat. One
/// that it does not show changes nothing.
pub proof fn law_picked_protocol_is_selected(s: SnapshotModel, protocol: ProtocolId)
    ensures
        !s.shows(protocol) ==> s.selecting_protocol(protocol) == s,
        s.shows(protocol) ==> {
            let next = s.selecting_protocol(protocol);
            &&& next.selected_protocol == protocol
            &&& next.focused_row.is_none()
            &&& match next.selected_conversation {
                Some(id) => exists|k: int|
                    0 <= k < s.rows(protocol).len() && (#[trigger] s.rows(protocol)[k]).id == id
                        && !s.rows(protocol)[k].placeholder && (forall|j: int|
                        0 <= j < k ==> (#[trigger] s.rows(protocol)[j]).placeholder),
                None => forall|k: int|
                    0 <= k < s.rows(protocol).len() ==> (#[trigger] s.rows(
                        protocol,
                    )[k]).placeholder,
            }
            &&& next.conversations == s.conversations && next.messages == s.messages
        },
{
    reveal(SnapshotModel::selecting_protocol);
    if s.shows(protocol) {
        let moved = SnapshotModel {
            selected_protocol: protocol,
            focused_row: None,
            ..s.selecting(None)
        };
        let rows = moved.rows(protocol);
        assert(rows == s.rows(protocol));
        lemma_first_index(rows, real_chat());
        let at = first_index(rows, real_chat());
        lemma_ensuring_frame(moved);
        if at < rows.len() {
            lemma_opening_frame(moved.selecting(Some(rows[at].id)));
            assert(real_chat()(rows[at]));
            assert forall|j: int| 0 <= j < at implies (#[trigger] s.rows(
                protocol,
            )[j]).placeholder by {
                assert(!real_chat()(rows[j]));
            }
            assert(s.rows(protocol)[at].id == rows[at].id);
        } else {
            assert forall|k: int| 0 <= k < s.rows(protocol).len() implies (#[trigger] s.rows(
                protocol,
            )[k]).placeholder by {
                assert(!real_chat()(rows[k]));
            }
        }
    }
}

/// A key move puts the highlight on its target and changes neither the selected
/// chat nor its text. A row gets the highlight only while it is visible.
pub proof fn law_highlight_moves_alone(s: SnapshotModel, delta: int, id: Text)
    ensures
        s.move_target(delta).is_some() ==> s.moving(delta).focused_row == s.move_target(delta)
            && s.moving(delta).marks.contains(Mark::ScrollToFocused),
        s.move_target(delta).is_none() ==> s.moving(delta) == s,
        s.moving(delta).selected_conversation == s.selected_conversation,
        s.moving(delta).compose == s.compose,
        s.moving(delta).pending == s.pending,
        s.visible_ids().contains(id) ==> s.focusing(id).focused_row == Some(id),
        !s.visible_ids().contains(id) ==> s.focusing(id) == s,
        s.focusing(id).selected_conversation == s.selected_conversation,
        s.focusing(id).compose == s.compose && s.focusing(id).pending == s.pending,
{
    reveal(SnapshotModel::moving);
    reveal(SnapshotModel::focusing);
    if let Some(target) = s.move_target(delta) {
        law_key_move_lands_in_the_list(s, delta, 0);
        let ids = s.visible_ids();
        let moved = SnapshotModel { focused_row: Some(target), ..s };
        assert(moved.visible_ids() == ids);
        let k = choose|k: int| 0 <= k < ids.len() && ids[k] == target;
        lemma_some_row(ids, text_is(target));
        assert(text_is(target)(ids[k]));
    }
}

/// A new search text is kept whole. The highlight stays on its row while that
/// still shows, and goes otherwise. Nothing else of the inbox changes.
pub proof fn law_search_keeps_the_inbox(s: SnapshotModel, text: Text)
    ensures
        s.searching(text).search == text,
        s.searching(text).conversations == s.conversations,
        s.searching(text).selected_conversation == s.selected_conversation,
        s.searching(text).compose == s.compose,
        s.searching(text).pending == s.pending,
        s.search != text && s.focused_row.is_some() ==> {
            let shown = (SnapshotModel { search: text, ..s }).visible_ids();
            &&& shown.contains(s.focused_row.unwrap()) ==> s.searching(text).focused_row
                == s.focused_row
            &&& !shown.contains(s.focused_row.unwrap()) ==> s.searching(text).focused_row.is_none()
        },
{
    reveal(SnapshotModel::searching);
    if let Some(id) = s.focused_row {
        let ids = (SnapshotModel { search: text, ..s }).visible_ids();
        lemma_some_row(ids, text_is(id));
        if ids.contains(id) {
            let k = choose|k: int| 0 <= k < ids.len() && ids[k] == id;
            assert(text_is(id)(ids[k]));
        }
        if some_row(ids, text_is(id)) {
            let k = choose|k: int| 0 <= k < ids.len() && text_is(id)(#[trigger] ids[k]);
            assert(ids[k] == id);
        }
    }
}

/// A new filter is kept. The selected protocol stays while the filter shows it.
/// Otherwise the first shown account that it does show is selected.
pub proof fn law_filter_selects_what_it_shows(s: SnapshotModel, filter: InboxFilter, i: int)
    ensures
        s.filtering(filter).filter == filter,
        s.filtering(filter).conversations == s.conversations,
        s.filtering(filter).messages == s.messages,
        filter_matches(filter, s.selected_protocol) ==> s.filtering(filter).selected_protocol
            == s.selected_protocol && s.filtering(filter).selected_conversation
            == s.selected_conversation && s.filtering(filter).compose == s.compose,
        s.filter != filter && !filter_matches(filter, s.selected_protocol) && 0 <= i
            < s.accounts.len() && filter_matches(filter, s.accounts[i].id) && s.shows(
            s.accounts[i].id,
        ) ==> filter_matches(filter, s.filtering(filter).selected_protocol) && s.shows(
            s.filtering(filter).selected_protocol,
        ),
{
    reveal(SnapshotModel::filtering);
    if s.filter != filter {
        let next = SnapshotModel { filter, ..s };
        let p = next.passes(filter);
        lemma_first_index(next.accounts, p);
        let at = first_index(next.accounts, p);
        if at < next.accounts.len() {
            assert(p(next.accounts[at]));
            lemma_selecting_protocol_frame(next, next.accounts[at].id);
            law_picked_protocol_is_selected(next, next.accounts[at].id);
        }
        if 0 <= i < s.accounts.len() && filter_matches(filter, s.accounts[i].id) && s.shows(
            s.accounts[i].id,
        ) {
            assert(p(next.accounts[i]));
        }
    }
}

// ---- commands ----

proof fn lemma_refreshing_frame(s: SnapshotModel, n: nat)
    requires
        n <= s.accounts.len(),
    ensures
        s.refreshing(n) == (SnapshotModel {
            chat_list_loading: s.refreshing(n).chat_list_loading,
            pending: s.refreshing(n).pending,
            ..s
        }),
        forall|p: ProtocolId| #[trigger] s.refreshing(n).linked(p) == s.linked(p),
        forall|p: ProtocolId| #[trigger] s.refreshing(n).shows(p) == s.shows(p),
    decreases n,
{
    if n > 0 {
        lemma_refreshing_frame(s, (n - 1) as nat);
    }
}

/// The command that a refresh owes this account, if any.
pub open spec fn refresh_of(s: SnapshotModel, row: AccountModel) -> Option<CommandModel> {
    if !filter_matches(s.filter, row.id) || !s.shows(row.id) {
        None
    } else if s.linked(row.id) {
        Some(CommandModel::LoadChats { protocol: row.id })
    } else if row.id != ProtocolId::Slack {
        Some(CommandModel::Connect { protocol: row.id })
    } else {
        None
    }
}

proof fn lemma_refreshing_asks(s: SnapshotModel, n: nat, i: int, command: CommandModel)
    requires
        n <= s.accounts.len(),
        s.one_row_per_protocol(),
    ensures
        0 <= i < n && refresh_of(s, s.accounts[i]).is_some() ==> s.refreshing(n).pending.contains(
            refresh_of(s, s.accounts[i]).unwrap(),
        ),
        0 <= i < n && refresh_of(s, s.accounts[i]).is_some() && s.linked(s.accounts[i].id)
            ==> s.refreshing(n).chat_list_loading.contains(s.accounts[i].id),
        s.pending.contains(command) ==> s.refreshing(n).pending.contains(command),
        s.refreshing(n).pending.contains(command) ==> s.pending.contains(command) || exists|k: int|
            0 <= k < n && refresh_of(s, #[trigger] s.accounts[k]) == Some(command),
    decreases n,
{
    if n > 0 {
        let m = (n - 1) as nat;
        lemma_refreshing_asks(s, m, i, command);
        lemma_refreshing_frame(s, m);
        let before = s.refreshing(m);
        let row = s.accounts[n - 1];
        let front = s.accounts.take(n - 1);
        lemma_some_row(front, account_is(row.id));
        assert(!some_row(front, account_is(row.id))) by {
            if some_row(front, account_is(row.id)) {
                let k = choose|k: int|
                    0 <= k < front.len() && account_is(row.id)(#[trigger] front[k]);
                assert(s.accounts[k].id != s.accounts[n - 1].id);
            }
        }
        let next = before.refreshing_one(row);
        assert(s.refreshing(n) == next);
        assert(before.linked(row.id) == s.linked(row.id));
        assert(before.shows(row.id) == s.shows(row.id));
        if let Some(asked) = refresh_of(s, row) {
            assert(next.pending == before.pending.push(asked));
            assert(next.pending[before.pending.len() as int] == asked);
            if before.pending.contains(command) {
                let k = choose|k: int|
                    0 <= k < before.pending.len() && before.pending[k] == command;
                assert(next.pending[k] == command);
            }
            if 0 <= i < n - 1 && refresh_of(s, s.accounts[i]).is_some() {
                let old = refresh_of(s, s.accounts[i]).unwrap();
                let k = choose|k: int| 0 <= k < before.pending.len() && before.pending[k] == old;
                assert(next.pending[k] == old);
            }
            if next.pending.contains(command) {
                let k = choose|k: int| 0 <= k < next.pending.len() && next.pending[k] == command;
                if k < before.pending.len() {
                    assert(before.pending[k] == command);
                } else {
                    assert(refresh_of(s, s.accounts[n - 1]) == Some(command));
                }
            }
        } else {
            assert(next.pending == before.pending);
        }
    }
}

/// A refresh asks every account that the filter shows: a linked one for its
/// chats, another one to connect. Slack connects only from its own button.
/// Nobody else is asked, and what waited still waits.
pub proof fn law_refresh_asks_every_shown_account(s: SnapshotModel, i: int, command: CommandModel)
    requires
        s.one_row_per_protocol(),
        0 <= i < s.accounts.len(),
    ensures
        ({
            let next = s.refreshed();
            let row = s.accounts[i];
            let shown = filter_matches(s.filter, row.id) && s.shows(row.id);
            &&& shown && s.linked(row.id) ==> next.pending.contains(
                CommandModel::LoadChats { protocol: row.id },
            ) && next.chat_list_loading.contains(row.id)
            &&& shown && !s.linked(row.id) && row.id != ProtocolId::Slack
                ==> next.pending.contains(CommandModel::Connect { protocol: row.id })
            &&& s.pending.contains(command) ==> next.pending.contains(command)
            &&& next.pending.contains(command) && !s.pending.contains(command) ==> command
                is LoadChats || command is Connect
            &&& next.conversations == s.conversations && next.messages == s.messages && next.compose
                == s.compose && next.error == s.error
        }),
{
    reveal(SnapshotModel::refreshed);
    lemma_refreshing_asks(s, s.accounts.len(), i, command);
    lemma_refreshing_frame(s, s.accounts.len());
}

/// The adapters learn of a change of the viewed chat: the old protocol that
/// nothing of it shows, and the new one which chat does. Without a change
/// nothing goes out.
pub proof fn law_viewed_chat_is_told(s: SnapshotModel)
    ensures
        s.syncing_viewed().viewed == s.viewed_now(),
        s.viewed == s.viewed_now() ==> s.syncing_viewed() == s,
        s.viewed != s.viewed_now() && s.viewed_now().is_some() ==> {
            let sent = s.syncing_viewed().pending;
            let chat = s.viewed_now().unwrap();
            &&& sent.len() > s.pending.len()
            &&& sent[sent.len() - 1] == (CommandModel::ViewChat {
                protocol: chat.0,
                conversation_id: Some(chat.1),
            })
        },
        s.viewed.is_some() && (s.viewed_now().is_none() || s.viewed_now().unwrap().0
            != s.viewed.unwrap().0) ==> s.syncing_viewed().pending.len() > s.pending.len()
            && s.syncing_viewed().pending[s.pending.len() as int] == (CommandModel::ViewChat {
            protocol: s.viewed.unwrap().0,
            conversation_id: None,
        }),
        forall|i: int|
            0 <= i < s.pending.len() ==> #[trigger] s.syncing_viewed().pending[i] == s.pending[i],
{
    reveal(SnapshotModel::syncing_viewed);
}

/// A connect asks that protocol, and an older page asks for what comes before
/// the oldest message of the selected chat, once.
pub proof fn law_asked_commands_go_out(s: SnapshotModel, protocol: ProtocolId, now: u64)
    ensures
        s.connecting(protocol).pending == s.pending.push(CommandModel::Connect { protocol }),
        s.connecting(protocol).error == s.error,
        s.without_error().error.is_none(),
        s.without_error().pending == s.pending && s.without_error().compose == s.compose,
        s.older_anchor(now).is_some() ==> {
            let (id, oldest) = s.older_anchor(now).unwrap();
            let next = s.loading_older(now);
            &&& next.pending == s.pending.push(
                CommandModel::LoadOlderMessages {
                    protocol: s.selected_protocol,
                    conversation_id: id,
                    before_message_id: oldest,
                },
            )
            &&& next.older_loading == s.older_loading.insert((s.selected_protocol, id))
            &&& next.messages == s.messages
        },
        s.older_anchor(now).is_none() ==> s.loading_older(now) == s,
{
    reveal(SnapshotModel::connecting);
    reveal(SnapshotModel::without_error);
    reveal(SnapshotModel::loading_older);
}

// ---- smaller events ----

/// The end of a load takes its own mark, and no other.
pub proof fn law_load_ends_alone(
    s: SnapshotModel,
    protocol: ProtocolId,
    conversation_id: String,
    now: u64,
    other: ProtocolId,
    chat: ChatId,
)
    requires
        s.has_session(protocol),
    ensures
        ({
            let list = s.applied(AdapterEvent::ChatListLoaded { protocol }, now);
            let page = s.applied(AdapterEvent::HistoryLoaded { protocol, conversation_id }, now);
            &&& list.chat_list_loading.contains(other) == (s.chat_list_loading.contains(other)
                && other != protocol)
            &&& list.history_loading == s.history_loading && list.conversations == s.conversations
                && list.pending == s.pending && list.error == s.error
            &&& page.history_loading.contains(chat) == (s.history_loading.contains(chat) && chat
                != (protocol, conversation_id@))
            &&& page.chat_list_loading == s.chat_list_loading && page.messages == s.messages
                && page.pending == s.pending && page.error == s.error
        }),
{
    reveal(SnapshotModel::applied);
    reveal(SnapshotModel::applied_kept);
    reveal(SnapshotModel::list_loaded);
    reveal(SnapshotModel::history_loaded);
}

/// The end of an older page frees its chat. Without more to come the start of
/// the chat is known. A page that brought nothing older lets its anchor wait,
/// longer with each such page; any other page ends that wait.
pub proof fn law_older_page_ends(
    s: SnapshotModel,
    protocol: ProtocolId,
    conversation_id: String,
    before_message_id: String,
    more: bool,
    note: Option<String>,
    now: u64,
    other: Text,
)
    requires
        s.has_session(protocol),
        protocol == ProtocolId::Telegram || protocol == ProtocolId::Signal,
        other != conversation_id@,
    ensures
        ({
            let next = s.applied(
                AdapterEvent::OlderHistoryLoaded {
                    protocol,
                    conversation_id,
                    before_message_id,
                    more,
                    note,
                },
                now,
            );
            let chat = (protocol, conversation_id@);
            let nothing = s.thread(chat).len() > 0 && s.thread(chat)[0].id == before_message_id@;
            &&& !next.older_loading.contains(chat)
            &&& !more ==> next.older_at_start.contains(chat.1)
            &&& more ==> next.older_at_start == s.older_at_start
            &&& more && nothing ==> next.older_retry.contains_key(chat.1)
                && next.older_retry[chat.1].anchor == before_message_id@
                && next.older_retry[chat.1].at == now
            &&& more && nothing && s.older_retry.contains_key(chat.1)
                && s.older_retry[chat.1].anchor == before_message_id@
                && s.older_retry[chat.1].tries < u32::MAX ==> next.older_retry[chat.1].tries
                == s.older_retry[chat.1].tries + 1
            &&& more && nothing && !s.older_retry.contains_key(chat.1)
                ==> next.older_retry[chat.1].tries == 1
            &&& !more || !nothing ==> !next.older_retry.contains_key(chat.1)
            &&& next.older_retry.contains_key(other) == s.older_retry.contains_key(other)
            &&& next.older_at_start.contains(other) == s.older_at_start.contains(other)
            &&& next.messages == s.messages && next.pending == s.pending
        }),
{
    reveal(SnapshotModel::applied);
    reveal(SnapshotModel::applied_kept);
    reveal(SnapshotModel::older_loaded);
}

/// A failed command names its protocol in the error, says the detail, and ends
/// the loads it may have started: of its chat, or of the whole protocol. The
/// inbox, the texts, and the sends stay.
pub proof fn law_failed_command_says_so(
    s: SnapshotModel,
    protocol: ProtocolId,
    conversation_id: Option<String>,
    detail: String,
    now: u64,
    chat: ChatId,
)
    ensures
        ({
            let next = s.applied(
                AdapterEvent::CommandFailed { protocol, conversation_id, detail },
                now,
            );
            let hit = chat.0 == protocol && (conversation_id.is_none() || conversation_id.unwrap()@
                == chat.1);
            &&& next.error == Some(
                ErrorModel {
                    happened: name_of(protocol) + ": the last action did not finish."@,
                    why: detail@,
                    next: "Try again. The inbox stays open."@,
                },
            )
            &&& next.history_loading.contains(chat) == (s.history_loading.contains(chat) && !hit)
            &&& next.older_loading.contains(chat) == (s.older_loading.contains(chat) && !hit)
            &&& next.conversations == s.conversations && next.messages == s.messages && next.sends
                == s.sends && next.compose == s.compose && next.drafts == s.drafts && next.accounts
                == s.accounts && next.pending == s.pending
        }),
{
    reveal(SnapshotModel::applied);
    reveal(SnapshotModel::applied_kept);
    reveal(SnapshotModel::without_spinners);
}

/// A status line stands in the account row of its protocol, and in no other. It
/// changes no link state. A Telegram line that is ready or bad reaches the
/// status strip.
pub proof fn law_status_line_stands_in_its_row(
    s: SnapshotModel,
    protocol: ProtocolId,
    status: AdapterStatus,
    detail: String,
    now: u64,
    i: int,
)
    requires
        s.one_row_per_protocol(),
        0 <= i < s.accounts.len(),
    ensures
        ({
            let next = s.applied(AdapterEvent::Status { protocol, status, detail }, now);
            let bad = status == AdapterStatus::Error || status == AdapterStatus::Refused;
            let row = s.accounts[i];
            &&& next.accounts.len() == s.accounts.len()
            &&& row.id == protocol ==> next.accounts[i] == (AccountModel {
                status,
                detail: detail@,
                ..row
            })
            &&& row.id != protocol ==> next.accounts[i] == row
            &&& protocol == ProtocolId::Telegram && (bad || status == AdapterStatus::Ready)
                ==> next.status_text == detail@
            &&& protocol != ProtocolId::Telegram ==> next.status_text == s.status_text
            &&& protocol == ProtocolId::Telegram && status == AdapterStatus::Ready
                ==> next.ready_status == Some(detail@)
            &&& protocol == ProtocolId::Telegram && bad ==> next.ready_status.is_none()
                && next.resume == Resume::Settled
            &&& bad ==> !next.chat_list_loading.contains(protocol)
            &&& next.conversations == s.conversations && next.messages == s.messages && next.sends
                == s.sends && next.compose == s.compose && next.pending == s.pending
        }),
{
    reveal(SnapshotModel::applied);
    reveal(SnapshotModel::applied_kept);
    reveal(SnapshotModel::with_adapter_status);
    reveal(SnapshotModel::without_spinners);
    lemma_first_index(s.accounts, account_is(protocol));
    let at = first_index(s.accounts, account_is(protocol));
    if at < s.accounts.len() {
        assert(account_is(protocol)(s.accounts[at]));
        if at != i {
            if at < i {
                assert(s.accounts[at].id != s.accounts[i].id);
            } else {
                assert(s.accounts[i].id != s.accounts[at].id);
            }
        }
    } else {
        assert(!account_is(protocol)(s.accounts[i]));
    }
}

/// The smaller events change the one thing that they are about.
pub proof fn law_small_events_change_one_thing(
    s: SnapshotModel,
    protocol: ProtocolId,
    text: String,
    error: TelegramAuthError,
    via: TelegramCodeVia,
    other: ProtocolId,
    now: u64,
)
    ensures
        ({
            let noted = s.applied(AdapterEvent::Notice { protocol, text }, now);
            let stopped = s.applied(AdapterEvent::Stopped { protocol }, now);
            let flush = s.applied(AdapterEvent::FlushSecrets, now);
            let rejected = s.applied(AdapterEvent::TelegramAuthRejected { error }, now);
            let sent = s.applied(AdapterEvent::TelegramCodeSent { via }, now);
            let moved = s.applied(AdapterEvent::TelegramDataReset { moved_to: text }, now);
            &&& noted == (SnapshotModel { notices: noted.notices, ..s })
            &&& noted.notices.contains_key(protocol) && noted.notices[protocol] == text@
            &&& other != protocol ==> noted.notices.get(other) == s.notices.get(other)
            &&& stopped == (SnapshotModel { stopped: stopped.stopped, ..s })
            &&& stopped.stopped.contains(other) == (s.stopped.contains(other) || other == protocol)
            &&& flush == (SnapshotModel { marks: flush.marks, ..s })
            &&& flush.marks.contains(Mark::KeychainFlush)
            &&& rejected == (SnapshotModel { auth_rejection: Some(error), ..s })
            &&& sent == (SnapshotModel { code_via: Some(via), ..s })
            &&& moved == (SnapshotModel { data_reset: Some(text@), ..s })
        }),
{
    reveal(SnapshotModel::applied);
    reveal(SnapshotModel::applied_kept);
    reveal(SnapshotModel::noticed);
    reveal(SnapshotModel::adapter_stopped);
    reveal(SnapshotModel::flush_asked);
    reveal(SnapshotModel::step_rejected);
    reveal(SnapshotModel::code_sent);
    reveal(SnapshotModel::data_moved);
}

/// A code of the pairing that runs shows, in a build with that part. Every other
/// code changes nothing.
pub proof fn law_code_of_the_running_pairing_shows(
    s: SnapshotModel,
    code: RedactedPairingSecret,
    generation: u64,
    now: u64,
)
    ensures
        ({
            let qr = s.applied(AdapterEvent::WhatsAppQr { code, generation }, now);
            let pair = s.applied(AdapterEvent::WhatsAppPairCode { code, generation }, now);
            let signal = s.applied(AdapterEvent::SignalQr { code, generation }, now);
            let runs = s.pairing_generation == Some(generation);
            &&& runs && s.build.whatsapp_web ==> qr == (SnapshotModel {
                whatsapp_qr: Some(code.revealed()),
                ..s
            }) && pair == (SnapshotModel { whatsapp_pair_code: Some(code.revealed()), ..s })
            &&& !runs || !s.build.whatsapp_web ==> qr == s && pair == s
            &&& runs && s.build.signal_local ==> signal == (SnapshotModel {
                signal_qr: Some(code.revealed()),
                ..s
            })
            &&& !runs || !s.build.signal_local ==> signal == s
        }),
{
    reveal(SnapshotModel::applied);
    reveal(SnapshotModel::applied_kept);
    reveal(SnapshotModel::whatsapp_qr_shown);
    reveal(SnapshotModel::whatsapp_code_shown);
    reveal(SnapshotModel::signal_qr_shown);
}

/// An account event changes the link state of its protocol, and a login phase
/// the login.
pub proof fn law_link_and_login_events_reach_their_rule(
    s: SnapshotModel,
    protocol: ProtocolId,
    state: AccountState,
    phase: TelegramAuthPhase,
    now: u64,
)
    ensures
        s.applied(AdapterEvent::Account { protocol, state }, now) == s.with_account(protocol, state),
        s.applied(AdapterEvent::TelegramAuth { phase }, now) == s.in_phase(phase),
        s.applied(AdapterEvent::TelegramSessionEnded, now) == s.telegram_ended(),
{
    reveal(SnapshotModel::applied);
    reveal(SnapshotModel::applied_kept);
}

} // verus!
