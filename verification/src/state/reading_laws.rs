//! What the shell reads from the state, said over the rows themselves: which
//! accounts, chats, and messages there are, and what follows from them.

use crate::keyed::owner_in;
use crate::lists::{
    every, lemma_filter_contains, lemma_filter_every, lemma_filter_pairwise, lemma_first_index,
    lemma_some_row, some_row,
};
use crate::protocol::{AccountState, ChatId, ConversationModel, Delivery, ProtocolId, Text, name_of};
use crate::sends::{of_chat, of_owner};
use crate::state::model::{
    SnapshotModel, chat_is, filter_matches, linked_is, loud_sum, message_is, real_chat_is,
    search_hits, sender_is, text_is, unread_sum, wait_after,
};
use crate::state::order::text_le;
use crate::state::soundness::{chats_in_order, list_in_order, thread_in_order};
use crate::state::{
    AuthScreen, CenterView, InboxFilter, InboxState, LOADING_CHATS_STATUS, LOADING_MESSAGES_STATUS,
    LOADING_OLDER_STATUS, Mark, OlderState, Resume, SENDING_STATUS, ThreadState,
};
use crate::text::{lowercase, occurs, trim};
use vstd::prelude::*;
use vstd::string::*;

verus! {

// ---- accounts ----

/// A protocol is linked exactly when an account row says so. It sends text when
/// that row's adapter does. It has a session when it is linked, or was and did
/// not end.
pub proof fn law_link_state_stands_in_the_rows(s: SnapshotModel, protocol: ProtocolId)
    ensures
        s.linked(protocol) == exists|i: int|
            0 <= i < s.accounts.len() && (#[trigger] s.accounts[i]).id == protocol
                && s.accounts[i].state == AccountState::Linked,
        s.sends_text(protocol) == exists|i: int|
            0 <= i < s.accounts.len() && (#[trigger] s.accounts[i]).id == protocol
                && s.accounts[i].state == AccountState::Linked && s.accounts[i].sends_text,
        s.sends_text(protocol) ==> s.linked(protocol),
        s.has_session(protocol) == (s.linked(protocol) || s.sessions.contains(protocol)),
{
    lemma_some_row(s.accounts, linked_is(protocol));
    lemma_some_row(s.accounts, sender_is(protocol));
    if s.linked(protocol) {
        let i = choose|i: int|
            0 <= i < s.accounts.len() && linked_is(protocol)(#[trigger] s.accounts[i]);
        assert(s.accounts[i].id == protocol);
    }
    if s.sends_text(protocol) {
        let i = choose|i: int|
            0 <= i < s.accounts.len() && sender_is(protocol)(#[trigger] s.accounts[i]);
        assert(s.accounts[i].id == protocol);
        assert(linked_is(protocol)(s.accounts[i]));
    }
    if exists|i: int|
        0 <= i < s.accounts.len() && (#[trigger] s.accounts[i]).id == protocol
            && s.accounts[i].state == AccountState::Linked {
        let i = choose|i: int|
            0 <= i < s.accounts.len() && (#[trigger] s.accounts[i]).id == protocol
                && s.accounts[i].state == AccountState::Linked;
        assert(linked_is(protocol)(s.accounts[i]));
        if s.accounts[i].sends_text {
            assert(sender_is(protocol)(s.accounts[i]));
        }
    }
    if exists|i: int|
        0 <= i < s.accounts.len() && (#[trigger] s.accounts[i]).id == protocol
            && s.accounts[i].state == AccountState::Linked && s.accounts[i].sends_text {
        let i = choose|i: int|
            0 <= i < s.accounts.len() && (#[trigger] s.accounts[i]).id == protocol
                && s.accounts[i].state == AccountState::Linked && s.accounts[i].sends_text;
        assert(sender_is(protocol)(s.accounts[i]));
    }
}

/// The shell shows Telegram always, a protocol that was made visible, and every
/// other one exactly when the build holds its part.
pub proof fn law_build_parts_show_their_protocol(s: SnapshotModel, protocol: ProtocolId)
    ensures
        s.shows(ProtocolId::Telegram),
        s.extra_visible.contains(protocol) ==> s.shows(protocol),
        !s.extra_visible.contains(ProtocolId::Slack) ==> s.shows(ProtocolId::Slack)
            == s.build.slack_oauth,
        !s.extra_visible.contains(ProtocolId::WhatsApp) ==> s.shows(ProtocolId::WhatsApp)
            == s.build.whatsapp_web,
        !s.extra_visible.contains(ProtocolId::Discord) ==> s.shows(ProtocolId::Discord)
            == s.build.discord_bot,
        !s.extra_visible.contains(ProtocolId::Signal) ==> s.shows(ProtocolId::Signal)
            == s.build.signal_local,
{
}

/// Something is linked for the shell exactly when an account row of a shown
/// protocol has a session.
pub proof fn law_any_linked_needs_a_shown_session(s: SnapshotModel)
    ensures
        s.any_linked() == exists|i: int|
            0 <= i < s.accounts.len() && s.has_session((#[trigger] s.accounts[i]).id) && s.shows(
                s.accounts[i].id,
            ),
{
    lemma_some_row(s.accounts, s.shows_session());
    if s.any_linked() {
        let i = choose|i: int|
            0 <= i < s.accounts.len() && s.shows_session()(#[trigger] s.accounts[i]);
        assert(s.has_session(s.accounts[i].id) && s.shows(s.accounts[i].id));
    }
    if exists|i: int|
        0 <= i < s.accounts.len() && s.has_session((#[trigger] s.accounts[i]).id) && s.shows(
            s.accounts[i].id,
        ) {
        let i = choose|i: int|
            0 <= i < s.accounts.len() && s.has_session((#[trigger] s.accounts[i]).id) && s.shows(
                s.accounts[i].id,
            );
        assert(s.shows_session()(s.accounts[i]));
    }
}

/// The center panel shows the login form while one is open, then the thread
/// once something is linked, then a failed keychain, then a resume, and the
/// first-run screen only when none of these holds.
pub proof fn law_center_shows_the_first_that_holds(s: SnapshotModel)
    ensures
        (s.center() == CenterView::Auth) == (s.auth != AuthScreen::Idle),
        s.auth == AuthScreen::Idle ==> (s.center() == CenterView::Thread) == s.any_linked(),
        s.center() == CenterView::KeychainFailed ==> s.marks.contains(Mark::KeychainFailed)
            && !s.marks.contains(Mark::KeychainRetry) && !s.any_linked(),
        s.auth == AuthScreen::Idle && !s.any_linked() && s.marks.contains(Mark::KeychainFailed)
            && !s.marks.contains(Mark::KeychainRetry) ==> s.center() == CenterView::KeychainFailed,
        s.center() == (CenterView::Resuming { connecting: true }) ==> s.resume
            == Resume::Connecting,
        s.center() == (CenterView::Resuming { connecting: false }) ==> s.resume == Resume::Waiting
            && s.build.telegram_tdlib,
        s.center() == CenterView::FirstRun ==> !s.any_linked() && s.resume != Resume::Connecting
            && !(s.resume == Resume::Waiting && s.build.telegram_tdlib),
{
}

// ---- chats ----

/// A filter shows its own protocol and no other. All shows every one.
pub proof fn law_filter_shows_its_protocol(protocol: ProtocolId)
    ensures
        filter_matches(InboxFilter::All, protocol),
        filter_matches(InboxFilter::Telegram, protocol) == (protocol == ProtocolId::Telegram),
        filter_matches(InboxFilter::Slack, protocol) == (protocol == ProtocolId::Slack),
{
}

/// The inbox shows a row exactly when it is a row of the selected protocol, the
/// protocol is shown and has a session, and the row matches the search: its
/// title or its participant holds the search text, whatever the case and the
/// white space around the search. An empty search hides nothing.
pub proof fn law_inbox_shows_what_matches(s: SnapshotModel, row: ConversationModel)
    ensures
        ({
            let query = lowercase(trim(s.search));
            let hit = query.len() == 0 || occurs(lowercase(row.title), query) || occurs(
                lowercase(row.participant),
                query,
            );
            s.visible().contains(row) == (s.shows(s.selected_protocol) && s.has_session(
                s.selected_protocol,
            ) && s.conversations.contains_key(s.selected_protocol)
                && s.conversations[s.selected_protocol].contains(row) && hit)
        }),
        s.visible_ids().len() == s.visible().len(),
        forall|i: int|
            0 <= i < s.visible().len() ==> #[trigger] s.visible_ids()[i] == s.visible()[i].id,
{
    lemma_filter_contains(s.rows(s.selected_protocol), search_hits(s.search), row);
}

proof fn lemma_filter_all<A>(list: Seq<A>, p: spec_fn(A) -> bool)
    requires
        every(list, p),
    ensures
        list.filter(p) == list,
    decreases list.len(),
{
    reveal(Seq::filter);
    if list.len() > 0 {
        let rest = list.drop_last();
        assert forall|i: int| 0 <= i < rest.len() implies p(#[trigger] rest[i]) by {
            assert(p(list[i]));
        }
        lemma_filter_all(rest, p);
        assert(p(list[list.len() - 1]));
        assert(rest.push(list.last()) =~= list);
    }
}

/// Without a search text the inbox shows every row of the selected protocol, in
/// its order.
pub proof fn law_empty_search_shows_every_row(s: SnapshotModel)
    requires
        trim(s.search).len() == 0,
        s.shows(s.selected_protocol),
        s.has_session(s.selected_protocol),
        s.conversations.contains_key(s.selected_protocol),
    ensures
        s.visible() == s.conversations[s.selected_protocol],
{
    let rows = s.rows(s.selected_protocol);
    assert(every(rows, search_hits(s.search)));
    lemma_filter_all(rows, search_hits(s.search));
}

/// In every sound state each inbox list stands by its order numbers, the
/// highest first, and by id among equal ones. What the inbox shows stands in
/// the same order. Each chat stands there once, and belongs to the protocol.
pub proof fn law_inbox_stands_by_order(s: SnapshotModel, protocol: ProtocolId)
    requires
        s.sound(),
        s.conversations.contains_key(protocol),
    ensures
        forall|i: int, j: int|
            #![trigger s.conversations[protocol][i], s.conversations[protocol][j]]
            0 <= i < j < s.conversations[protocol].len() ==> {
                let a = s.conversations[protocol][i];
                let b = s.conversations[protocol][j];
                &&& a.order >= b.order
                &&& a.order == b.order ==> text_le(a.id, b.id)
                &&& a.id != b.id
            },
        forall|i: int|
            0 <= i < s.conversations[protocol].len() ==> (
            #[trigger] s.conversations[protocol][i]).protocol == protocol,
        forall|i: int, j: int|
            #![trigger s.visible()[i], s.visible()[j]]
            0 <= i < j < s.visible().len() ==> s.visible()[i].order >= s.visible()[j].order,
{
    reveal(SnapshotModel::lists_in_order);
    reveal(list_in_order);
    let list = s.conversations[protocol];
    assert(list_in_order(list, protocol));
    assert forall|i: int, j: int| #![trigger list[i], list[j]] 0 <= i < j < list.len() implies {
        let a = list[i];
        let b = list[j];
        &&& a.order >= b.order
        &&& a.order == b.order ==> text_le(a.id, b.id)
        &&& a.id != b.id
    } by {
        assert(crate::state::soundness::chats_in_order()(list[i], list[j]));
        assert(crate::state::soundness::chats_differ()(list[i], list[j]));
    }
    assert forall|i: int| 0 <= i < list.len() implies (#[trigger] list[i]).protocol == protocol by {
        assert(crate::state::soundness::chat_of(protocol)(list[i]));
    }
    if s.conversations.contains_key(s.selected_protocol) {
        let rows = s.conversations[s.selected_protocol];
        assert(list_in_order(rows, s.selected_protocol));
        lemma_filter_pairwise(rows, search_hits(s.search), chats_in_order());
        let seen = rows.filter(search_hits(s.search));
        assert forall|i: int, j: int| #![trigger seen[i], seen[j]] 0 <= i < j < seen.len() implies seen[i].order
            >= seen[j].order by {
            assert(chats_in_order()(seen[i], seen[j]));
        }
    } else {
        lemma_filter_every(
            s.rows(s.selected_protocol),
            search_hits(s.search),
            |row: ConversationModel| false,
        );
        if s.visible().len() > 0 {
            assert((|row: ConversationModel| false)(s.visible()[0]));
        }
    }
}

/// In every sound state, each thread of every protocol stands by the time its
/// messages were sent, the oldest first, and by the number in the id among
/// those of one time. Each message stands there once, in its own chat.
pub proof fn law_thread_stands_by_time(s: SnapshotModel, chat: ChatId)
    requires
        s.sound(),
        s.messages.contains_key(chat),
    ensures
        forall|i: int, j: int|
            #![trigger s.messages[chat][i], s.messages[chat][j]]
            0 <= i < j < s.messages[chat].len() ==> {
                let a = s.messages[chat][i];
                let b = s.messages[chat][j];
                &&& a.sent_at <= b.sent_at
                &&& a.sent_at == b.sent_at ==> crate::state::model::rank_of(a.id)
                    <= crate::state::model::rank_of(b.id)
                &&& a.id != b.id
            },
        forall|i: int|
            0 <= i < s.messages[chat].len() ==> (#[trigger] s.messages[chat][i]).protocol == chat.0
                && s.messages[chat][i].conversation_id == chat.1,
{
    reveal(SnapshotModel::threads_in_order);
    reveal(thread_in_order);
    let list = s.messages[chat];
    assert(thread_in_order(list, chat));
    assert forall|i: int, j: int| #![trigger list[i], list[j]] 0 <= i < j < list.len() implies {
        let a = list[i];
        let b = list[j];
        &&& a.sent_at <= b.sent_at
        &&& a.sent_at == b.sent_at ==> crate::state::model::rank_of(a.id)
            <= crate::state::model::rank_of(b.id)
        &&& a.id != b.id
    } by {
        assert(crate::state::soundness::messages_in_order()(list[i], list[j]));
        assert(crate::state::soundness::messages_differ()(list[i], list[j]));
    }
    assert forall|i: int| 0 <= i < list.len() implies (#[trigger] list[i]).protocol == chat.0
        && list[i].conversation_id == chat.1 by {
        assert(crate::state::soundness::message_of(chat)(list[i]));
    }
}

/// The row of the selected chat is a row of the selected protocol with that id.
/// There is none exactly when no row has it.
pub proof fn law_selected_row_has_the_selected_id(s: SnapshotModel)
    ensures
        match s.selected_row() {
            Some(row) => s.selected_conversation == Some(row.id) && s.conversations.contains_key(
                s.selected_protocol,
            ) && s.conversations[s.selected_protocol].contains(row),
            None => s.selected_conversation.is_some() ==> forall|i: int|
                0 <= i < s.rows(s.selected_protocol).len() ==> (#[trigger] s.rows(
                    s.selected_protocol,
                )[i]).id != s.selected_conversation.unwrap(),
        },
        s.selected_conversation.is_none() ==> s.selected_row().is_none(),
{
    if let Some(id) = s.selected_conversation {
        let list = s.rows(s.selected_protocol);
        lemma_first_index(list, chat_is(id));
        if some_row(list, chat_is(id)) {
            assert(chat_is(id)(list[crate::lists::first_index(list, chat_is(id))]));
        } else {
            assert forall|i: int| 0 <= i < list.len() implies (#[trigger] list[i]).id != id by {
                assert(!chat_is(id)(list[i]));
            }
        }
    }
}

/// A message is found by its id in the thread of its chat, or nowhere.
pub proof fn law_message_is_found_by_id(s: SnapshotModel, chat: ChatId, id: Text)
    ensures
        match s.message(chat, id) {
            Some(row) => row.id == id && s.messages.contains_key(chat)
                && s.messages[chat].contains(row) && s.delivery(chat, id) == Some(row.delivery),
            None => s.delivery(chat, id) == None::<Delivery> && forall|i: int|
                0 <= i < s.thread(chat).len() ==> (#[trigger] s.thread(chat)[i]).id != id,
        },
        s.messages.contains_key(chat) ==> s.thread(chat) == s.messages[chat],
        !s.messages.contains_key(chat) ==> s.thread(chat).len() == 0,
{
    let list = s.thread(chat);
    lemma_first_index(list, message_is(id));
    if some_row(list, message_is(id)) {
        assert(message_is(id)(list[crate::lists::first_index(list, message_is(id))]));
    } else {
        assert forall|i: int| 0 <= i < list.len() implies (#[trigger] list[i]).id != id by {
            assert(!message_is(id)(list[i]));
        }
    }
}

/// The thread shows rows, a load, or nothing, by what there is.
pub proof fn law_thread_shows_what_there_is(s: SnapshotModel)
    ensures
        (s.thread_state() == ThreadState::NoSelection) == s.selected_conversation.is_none(),
        s.selected_conversation.is_some() ==> {
            let chat = (s.selected_protocol, s.selected_conversation.unwrap());
            &&& (s.thread_state() == ThreadState::Rows) == (s.thread(chat).len() > 0)
            &&& (s.thread_state() == ThreadState::Loading) == (s.thread(chat).len() == 0
                && s.history_loading.contains(chat))
        },
{
}

/// The inbox says no match only when rows are there and none matches, and that
/// it loads only while the list of a session loads.
pub proof fn law_inbox_says_why_it_is_empty(s: SnapshotModel)
    ensures
        (s.inbox() == InboxState::Rows) == (s.visible().len() > 0),
        s.inbox() == InboxState::NoMatch ==> s.rows(s.selected_protocol).len() > 0
            && s.visible().len() == 0 && s.has_session(s.selected_protocol),
        s.inbox() == InboxState::Loading ==> s.chat_list_loading.contains(s.selected_protocol)
            && s.has_session(s.selected_protocol) && s.rows(s.selected_protocol).len() == 0,
        s.inbox() == InboxState::Empty ==> s.visible().len() == 0 && (s.has_session(
            s.selected_protocol,
        ) ==> s.rows(s.selected_protocol).len() == 0 && !s.chat_list_loading.contains(
            s.selected_protocol,
        )),
{
}

// ---- unread messages ----

/// What one row adds to the unread number.
pub open spec fn loud_row(row: ConversationModel) -> int {
    if row.muted {
        0
    } else {
        row.unread as int
    }
}

proof fn lemma_loud_update(rows: Seq<ConversationModel>, i: int, row: ConversationModel)
    requires
        0 <= i < rows.len(),
    ensures
        loud_sum(rows.update(i, row)) == loud_sum(rows) - loud_row(rows[i]) + loud_row(row),
        loud_sum(rows) >= loud_row(rows[i]),
    decreases rows.len(),
{
    let next = rows.update(i, row);
    if i == rows.len() - 1 {
        assert(next.drop_last() =~= rows.drop_last());
    } else {
        assert(next.drop_last() =~= rows.drop_last().update(i, row));
        lemma_loud_update(rows.drop_last(), i, row);
    }
}

proof fn lemma_unread_update(rows: Seq<ConversationModel>, i: int, row: ConversationModel)
    requires
        0 <= i < rows.len(),
    ensures
        unread_sum(rows.update(i, row)) == unread_sum(rows) - rows[i].unread + row.unread,
        unread_sum(rows) >= rows[i].unread,
    decreases rows.len(),
{
    let next = rows.update(i, row);
    if i == rows.len() - 1 {
        assert(next.drop_last() =~= rows.drop_last());
    } else {
        assert(next.drop_last() =~= rows.drop_last().update(i, row));
        lemma_unread_update(rows.drop_last(), i, row);
    }
}

proof fn lemma_loud_frame(s: SnapshotModel, next: SnapshotModel, protocol: ProtocolId)
    requires
        s.accounts == next.accounts,
        s.sessions == next.sessions,
        s.rows(protocol) == next.rows(protocol),
    ensures
        s.has_session(protocol) == next.has_session(protocol),
        s.loud(protocol) == next.loud(protocol),
{
}

/// One more unread message of one protocol makes the total one more, or leaves
/// it at the end of its range.
proof fn lemma_total_grows(s: SnapshotModel, next: SnapshotModel, protocol: ProtocolId)
    requires
        forall|other: ProtocolId| other != protocol ==> #[trigger] next.loud(other) == s.loud(other),
        next.loud(protocol) == s.loud(protocol) + 1,
    ensures
        next.unread_total() == (if s.unread_total() == u32::MAX {
            u32::MAX as int
        } else {
            s.unread_total() + 1
        }),
{
    assert(ProtocolId::Telegram != protocol ==> next.loud(ProtocolId::Telegram) == s.loud(
        ProtocolId::Telegram,
    ));
    assert(ProtocolId::Slack != protocol ==> next.loud(ProtocolId::Slack) == s.loud(
        ProtocolId::Slack,
    ));
    assert(ProtocolId::WhatsApp != protocol ==> next.loud(ProtocolId::WhatsApp) == s.loud(
        ProtocolId::WhatsApp,
    ));
    assert(ProtocolId::Discord != protocol ==> next.loud(ProtocolId::Discord) == s.loud(
        ProtocolId::Discord,
    ));
    assert(ProtocolId::Signal != protocol ==> next.loud(ProtocolId::Signal) == s.loud(
        ProtocolId::Signal,
    ));
}

/// Every chat that is not muted counts, in every protocol with a session: the
/// total is at least its number, and one more unread message of it makes the
/// total one more, up to the end of the range.
pub proof fn law_every_loud_chat_counts(s: SnapshotModel, protocol: ProtocolId, i: int)
    requires
        s.has_session(protocol),
        s.conversations.contains_key(protocol),
        0 <= i < s.conversations[protocol].len(),
        !s.conversations[protocol][i].muted,
    ensures
        s.unread_total() >= s.conversations[protocol][i].unread,
        s.conversations[protocol][i].unread < u32::MAX ==> {
            let rows = s.conversations[protocol];
            let row = ConversationModel { unread: (rows[i].unread + 1) as u32, ..rows[i] };
            let next = SnapshotModel {
                conversations: s.conversations.insert(protocol, rows.update(i, row)),
                ..s
            };
            next.unread_total() == (if s.unread_total() == u32::MAX {
                u32::MAX as int
            } else {
                s.unread_total() + 1
            })
        },
{
    let rows = s.conversations[protocol];
    let row = ConversationModel { unread: (rows[i].unread + 1) as u32, ..rows[i] };
    lemma_loud_update(rows, i, row);
    let next = SnapshotModel {
        conversations: s.conversations.insert(protocol, rows.update(i, row)),
        ..s
    };
    assert(s.loud(protocol) == loud_sum(rows));
    assert(s.unread_total() >= rows[i].unread) by {
        let other: ProtocolId = protocol;
        match other {
            ProtocolId::Telegram => {},
            ProtocolId::Slack => {},
            ProtocolId::WhatsApp => {},
            ProtocolId::Discord => {},
            ProtocolId::Signal => {},
        }
    }
    if rows[i].unread < u32::MAX {
        assert forall|other: ProtocolId| other != protocol implies #[trigger] next.loud(other)
            == s.loud(other) by {
            assert(next.rows(other) == s.rows(other));
            lemma_loud_frame(s, next, other);
        }
        assert(next.rows(protocol) == rows.update(i, row));
        lemma_total_grows(s, next, protocol);
    }
}

/// A muted chat does not count, and neither does any chat of a protocol without
/// a session: whatever their rows hold, the total stays.
pub proof fn law_quiet_chats_do_not_count(
    s: SnapshotModel,
    protocol: ProtocolId,
    i: int,
    unread: u32,
    rows: Seq<ConversationModel>,
)
    ensures
        s.conversations.contains_key(protocol) && 0 <= i < s.conversations[protocol].len()
            && s.conversations[protocol][i].muted ==> {
            let list = s.conversations[protocol];
            let row = ConversationModel { unread, ..list[i] };
            (SnapshotModel {
                conversations: s.conversations.insert(protocol, list.update(i, row)),
                ..s
            }).unread_total() == s.unread_total()
        },
        !s.has_session(protocol) ==> (SnapshotModel {
            conversations: s.conversations.insert(protocol, rows),
            ..s
        }).unread_total() == s.unread_total(),
{
    if s.conversations.contains_key(protocol) && 0 <= i < s.conversations[protocol].len()
        && s.conversations[protocol][i].muted {
        let list = s.conversations[protocol];
        let row = ConversationModel { unread, ..list[i] };
        lemma_loud_update(list, i, row);
        let next = SnapshotModel {
            conversations: s.conversations.insert(protocol, list.update(i, row)),
            ..s
        };
        assert forall|other: ProtocolId| #[trigger] next.loud(other) == s.loud(other) by {
            assert(next.has_session(other) == s.has_session(other));
        }
    }
    let next = SnapshotModel { conversations: s.conversations.insert(protocol, rows), ..s };
    if !s.has_session(protocol) {
        assert forall|other: ProtocolId| #[trigger] next.loud(other) == s.loud(other) by {
            assert(next.has_session(other) == s.has_session(other));
        }
    }
}

/// With no rows at all, nothing is unread.
pub proof fn law_no_chats_nothing_unread(s: SnapshotModel)
    requires
        s.conversations == Map::<ProtocolId, Seq<ConversationModel>>::empty(),
    ensures
        s.unread_total() == 0,
{
}

/// The unread number of one protocol counts every row, muted or not: one more
/// unread message of a row makes it one more.
pub proof fn law_every_row_of_a_protocol_counts(rows: Seq<ConversationModel>, i: int)
    requires
        0 <= i < rows.len(),
        rows[i].unread < u32::MAX,
    ensures
        unread_sum(rows) >= rows[i].unread,
        unread_sum(
            rows.update(i, ConversationModel { unread: (rows[i].unread + 1) as u32, ..rows[i] }),
        ) == unread_sum(rows) + 1,
        unread_sum(Seq::empty()) == 0,
{
    lemma_unread_update(
        rows,
        i,
        ConversationModel { unread: (rows[i].unread + 1) as u32, ..rows[i] },
    );
}

// ---- loads and status ----

/// The line of a protocol's load names the load that runs: its chat list first,
/// then a history, then older messages, then a send. No load of another
/// protocol gives it a line.
pub proof fn law_load_line_names_the_load(s: SnapshotModel, protocol: ProtocolId, id: Text)
    ensures
        s.chat_list_loading.contains(protocol) ==> s.load_line(protocol) == Some(
            LOADING_CHATS_STATUS@,
        ),
        !s.chat_list_loading.contains(protocol) && s.history_loading.contains((protocol, id))
            ==> s.load_line(protocol) == Some(LOADING_MESSAGES_STATUS@),
        !s.chat_list_loading.contains(protocol) && !owner_in(s.history_loading, protocol)
            && s.older_loading.contains((protocol, id)) ==> s.load_line(protocol) == Some(
            LOADING_OLDER_STATUS@,
        ),
        !s.chat_list_loading.contains(protocol) && !owner_in(s.history_loading, protocol)
            && !owner_in(s.older_loading, protocol) && (exists|i: int|
            0 <= i < s.sends.open.len() && (#[trigger] s.sends.open[i]).chat.0 == protocol)
            ==> s.load_line(protocol) == Some(SENDING_STATUS@),
        !s.chat_list_loading.contains(protocol) && (forall|chat: ChatId|
            #![trigger s.history_loading.contains(chat)]
            #![trigger s.older_loading.contains(chat)]
            chat.0 == protocol ==> !s.history_loading.contains(chat) && !s.older_loading.contains(
                chat,
            )) && (forall|i: int|
            0 <= i < s.sends.open.len() ==> (#[trigger] s.sends.open[i]).chat.0 != protocol)
            ==> s.load_line(protocol) == None::<Text>,
{
    lemma_some_row(s.sends.open, of_owner(protocol));
    if s.history_loading.contains((protocol, id)) {
        assert(owner_in(s.history_loading, protocol));
    }
    if s.older_loading.contains((protocol, id)) {
        assert(owner_in(s.older_loading, protocol));
    }
    if exists|i: int| 0 <= i < s.sends.open.len() && (#[trigger] s.sends.open[i]).chat.0 == protocol {
        let i = choose|i: int|
            0 <= i < s.sends.open.len() && (#[trigger] s.sends.open[i]).chat.0 == protocol;
        assert(of_owner(protocol)(s.sends.open[i]));
    }
    if some_row(s.sends.open, of_owner(protocol)) {
        let i = choose|i: int|
            0 <= i < s.sends.open.len() && of_owner(protocol)(#[trigger] s.sends.open[i]);
        assert(s.sends.open[i].chat.0 == protocol);
    }
}

/// The status strip shows the load of the selected protocol, else the load of
/// another shown one with its name, and the last status only when none runs.
pub proof fn law_status_strip_shows_a_running_load(s: SnapshotModel, i: int)
    ensures
        s.load_line(s.selected_protocol).is_some() ==> s.status() == s.load_line(
            s.selected_protocol,
        ).unwrap(),
        s.load_line(s.selected_protocol).is_none() && 0 <= i < s.accounts.len()
            && s.accounts[i].id != s.selected_protocol && s.shows(s.accounts[i].id) && s.load_line(
            s.accounts[i].id,
        ).is_some() ==> exists|k: int|
            0 <= k <= i && s.load_line((#[trigger] s.accounts[k]).id).is_some() && s.shows(
                s.accounts[k].id,
            ) && s.status() == name_of(s.accounts[k].id) + ": "@ + s.load_line(
                s.accounts[k].id,
            ).unwrap(),
        (forall|k: int|
            0 <= k < s.accounts.len() && s.shows((#[trigger] s.accounts[k]).id) ==> s.load_line(
                s.accounts[k].id,
            ).is_none()) && s.load_line(s.selected_protocol).is_none() ==> s.status()
            == s.status_text,
{
    let p = s.loads_elsewhere();
    lemma_first_index(s.accounts, p);
    let at = crate::lists::first_index(s.accounts, p);
    if at < s.accounts.len() {
        assert(p(s.accounts[at]));
    }
    if 0 <= i < s.accounts.len() && s.accounts[i].id != s.selected_protocol && s.shows(
        s.accounts[i].id,
    ) && s.load_line(s.accounts[i].id).is_some() {
        assert(p(s.accounts[i]));
        assert(at <= i);
    }
}

// ---- paging, focus, and words ----

/// An older page is asked for only in a chat that pages, with its oldest message
/// as the anchor, while neither its history nor an older page loads, its start
/// is not known, and the anchor does not wait.
pub proof fn law_older_request_names_the_oldest_message(s: SnapshotModel, now: u64)
    ensures
        match s.older_anchor(now) {
            Some((id, oldest)) => {
                let chat = (s.selected_protocol, id);
                &&& s.selected_conversation == Some(id)
                &&& s.messages.contains_key(chat) && s.messages[chat].len() > 0
                &&& oldest == s.messages[chat][0].id
                &&& !s.history_loading.contains(chat) && !s.older_loading.contains(chat)
                &&& !s.older_at_start.contains(id)
                &&& s.selected_protocol == ProtocolId::Telegram ==> s.telegram_authorized
                &&& s.selected_protocol == ProtocolId::Telegram || (s.selected_protocol
                    == ProtocolId::Signal && s.linked(ProtocolId::Signal))
                &&& s.older_retry.contains_key(id) && s.older_retry[id].anchor == oldest ==> now
                    >= s.older_retry[id].at + wait_after(s.older_retry[id].tries)
            },
            None => true,
        },
        s.selected_conversation.is_some() && s.pages_older() ==> {
            let id = s.selected_conversation.unwrap();
            let chat = (s.selected_protocol, id);
            &&& s.thread(chat).len() > 0 && !s.history_loading.contains(chat)
                && !s.older_loading.contains(chat) && !s.older_at_start.contains(id)
                && !s.older_retry.contains_key(id) ==> s.older_anchor(now).is_some()
            &&& (s.older() == OlderState::Loading) == s.older_loading.contains(chat)
            &&& !s.older_loading.contains(chat) ==> (s.older() == OlderState::StartOfChat)
                == s.older_at_start.contains(id)
        },
        s.selected_protocol == ProtocolId::Telegram ==> s.pages_older() == s.telegram_authorized,
        s.selected_protocol == ProtocolId::Signal ==> s.pages_older() == s.linked(
            ProtocolId::Signal,
        ),
        !s.pages_older() ==> s.older() == OlderState::Idle && s.older_anchor(now).is_none(),
{
}

/// The first wait is two seconds. Each try doubles it, up to one minute.
pub proof fn law_older_wait_doubles(tries: u32)
    requires
        0 < tries < u32::MAX,
    ensures
        wait_after(0) == 2_000,
        wait_after(1) == 2_000,
        wait_after((tries + 1) as u32) == (if 2 * wait_after(tries) <= 60_000 {
            2 * wait_after(tries)
        } else {
            60_000
        }),
{
}

/// A key move lands on a visible row: that many rows from the highlight, or
/// from the selection without one, and at the end of the list when it goes
/// beyond. Without either it starts at the end that it comes from.
pub proof fn law_key_move_lands_in_the_list(s: SnapshotModel, delta: int, at: int)
    requires
        delta != 0,
        s.visible_ids().len() > 0,
    ensures
        s.move_target(delta).is_some() ==> s.visible_ids().contains(s.move_target(delta).unwrap())
            && s.focused_row != s.move_target(delta),
        s.focused_row == Some(s.visible_ids()[at]) && 0 <= at < s.visible_ids().len() && (forall|
            k: int,
        |
            0 <= k < at ==> s.visible_ids()[k] != #[trigger] s.visible_ids()[at]) && 0 <= at + delta
            < s.visible_ids().len() && s.visible_ids()[at + delta] != s.visible_ids()[at]
            ==> s.move_target(delta) == Some(s.visible_ids()[at + delta]),
        s.focused_row.is_none() && s.selected_conversation.is_none() && delta > 0 ==> s.move_target(
            delta,
        ) == Some(s.visible_ids()[0]),
        s.focused_row.is_none() && s.selected_conversation.is_none() && delta < 0 ==> s.move_target(
            delta,
        ) == Some(s.visible_ids()[s.visible_ids().len() - 1]),
        s.move_target(0) == None::<Text>,
{
    let ids = s.visible_ids();
    if let Some(id) = s.focused_row {
        lemma_first_index(ids, text_is(id));
        if 0 <= at < ids.len() && id == ids[at] && (forall|k: int|
            0 <= k < at ==> ids[k] != #[trigger] ids[at]) {
            assert forall|j: int| 0 <= j < at implies !text_is(id)(#[trigger] ids[j]) by {
                assert(ids[j] != ids[at]);
            }
            crate::lists::lemma_first_index_is(ids, text_is(id), at);
        }
    } else if let Some(id) = s.selected_conversation {
        lemma_first_index(ids, text_is(id));
    }
}

/// A chat goes by the title of its row, and by its id when the row is gone.
pub proof fn law_chat_goes_by_its_title(s: SnapshotModel, chat: ChatId, i: int)
    requires
        s.sound(),
    ensures
        s.conversations.contains_key(chat.0) && 0 <= i < s.conversations[chat.0].len()
            && s.conversations[chat.0][i].id == chat.1 ==> s.title_of(chat)
            == s.conversations[chat.0][i].title,
        (forall|k: int| 0 <= k < s.rows(chat.0).len() ==> (#[trigger] s.rows(chat.0)[k]).id != chat.1)
            ==> s.title_of(chat) == chat.1,
{
    let rows = s.rows(chat.0);
    lemma_first_index(rows, chat_is(chat.1));
    let at = crate::lists::first_index(rows, chat_is(chat.1));
    if at < rows.len() {
        assert(chat_is(chat.1)(rows[at]));
    }
    if s.conversations.contains_key(chat.0) && 0 <= i < rows.len() && rows[i].id == chat.1 {
        assert(chat_is(chat.1)(rows[i]));
        law_inbox_stands_by_order(s, chat.0);
        if at < i {
            assert(s.conversations[chat.0][at].id != s.conversations[chat.0][i].id);
        }
    }
}

/// The hint on unsent text says where it is: in the compose field of the
/// selected chat, or in the draft of the chat that it names. A retry is a press
/// of Retry, in that chat.
pub proof fn law_hint_names_the_place_of_the_text(s: SnapshotModel, chat: ChatId)
    ensures
        s.selected_protocol == chat.0 && s.selected_conversation == Some(chat.1) ==> s.hint(
            chat,
            false,
        ) == "The text is still in the compose field. Send it again."@ && s.hint(chat, true)
            == "Press Retry to send it again."@,
        s.selected_protocol != chat.0 || s.selected_conversation != Some(chat.1) ==> s.hint(
            chat,
            false,
        ) == "The text is in the draft of "@ + s.title_of(chat) + ". Send it again."@ && s.hint(
            chat,
            true,
        ) == "Open "@ + s.title_of(chat) + " and press Retry to send it again."@,
{
}

/// A chat counts as viewed only while its thread shows: it is the selected chat
/// of a shown protocol with a session, and its row is a real chat.
pub proof fn law_viewed_chat_is_on_screen(s: SnapshotModel, i: int)
    ensures
        match s.viewed_now() {
            Some(chat) => {
                &&& s.selected_protocol == chat.0 && s.selected_conversation == Some(chat.1)
                &&& s.center() == CenterView::Thread
                &&& s.has_session(chat.0) && s.shows(chat.0)
                &&& exists|k: int|
                    0 <= k < s.rows(chat.0).len() && (#[trigger] s.rows(chat.0)[k]).id == chat.1
                        && !s.rows(chat.0)[k].placeholder
            },
            None => true,
        },
        s.center() == CenterView::Thread && s.has_session(s.selected_protocol) && s.shows(
            s.selected_protocol,
        ) && 0 <= i < s.rows(s.selected_protocol).len() && s.selected_conversation == Some(
            s.rows(s.selected_protocol)[i].id,
        ) && !s.rows(s.selected_protocol)[i].placeholder ==> s.viewed_now() == Some(
            (s.selected_protocol, s.rows(s.selected_protocol)[i].id),
        ),
{
    if let Some(id) = s.selected_conversation {
        let rows = s.rows(s.selected_protocol);
        lemma_some_row(rows, real_chat_is(id));
        if some_row(rows, real_chat_is(id)) {
            let k = choose|k: int| 0 <= k < rows.len() && real_chat_is(id)(#[trigger] rows[k]);
            assert(rows[k].id == id && !rows[k].placeholder);
        }
        if 0 <= i < rows.len() && rows[i].id == id && !rows[i].placeholder {
            assert(real_chat_is(id)(rows[i]));
        }
    }
}

/// A send is possible exactly when the selected protocol is linked and sends
/// text, the selected chat has a row that is writable, the compose text is more
/// than white space, and nothing of the chat is in flight.
pub proof fn law_send_is_possible_when(s: SnapshotModel)
    ensures
        s.can_send() ==> {
            &&& s.sends_text(s.selected_protocol)
            &&& s.selected_row().is_some() && s.selected_row().unwrap().writable
            &&& trim(s.compose).len() > 0
            &&& forall|i: int|
                0 <= i < s.sends.open.len() ==> (#[trigger] s.sends.open[i]).chat != (
                    s.selected_protocol,
                    s.selected_row().unwrap().id,
                )
        },
        s.sends_text(s.selected_protocol) && s.selected_row().is_some()
            && s.selected_row().unwrap().writable && trim(s.compose).len() > 0 && (forall|i: int|
            0 <= i < s.sends.open.len() ==> (#[trigger] s.sends.open[i]).chat != (
                s.selected_protocol,
                s.selected_row().unwrap().id,
            )) ==> s.can_send(),
{
    if let Some(row) = s.selected_row() {
        let chat = (s.selected_protocol, row.id);
        lemma_some_row(s.sends.open, of_chat(chat));
        if some_row(s.sends.open, of_chat(chat)) {
            let i = choose|i: int|
                0 <= i < s.sends.open.len() && of_chat(chat)(#[trigger] s.sends.open[i]);
            assert(s.sends.open[i].chat == chat);
        } else {
            assert forall|i: int| 0 <= i < s.sends.open.len() implies (
            #[trigger] s.sends.open[i]).chat != chat by {
                assert(!of_chat(chat)(s.sends.open[i]));
            }
        }
    }
}

/// A message may be sent again exactly when the selected chat is writable and
/// its protocol sends text, the message is the user's own and failed, and
/// nothing of the chat is in flight.
pub proof fn law_retry_is_possible_when(s: SnapshotModel, message_id: Text)
    ensures
        s.can_retry(message_id) == (s.sends_text(s.selected_protocol) && s.selected_row().is_some()
            && s.selected_row().unwrap().writable && {
            let chat = (s.selected_protocol, s.selected_row().unwrap().id);
            &&& s.message(chat, message_id).is_some()
            &&& s.message(chat, message_id).unwrap().outbound
            &&& s.message(chat, message_id).unwrap().delivery == Delivery::Failed
            &&& forall|i: int|
                0 <= i < s.sends.open.len() ==> (#[trigger] s.sends.open[i]).chat != chat
        }),
{
    if let Some(row) = s.selected_row() {
        let chat = (s.selected_protocol, row.id);
        lemma_some_row(s.sends.open, of_chat(chat));
        if some_row(s.sends.open, of_chat(chat)) {
            let i = choose|i: int|
                0 <= i < s.sends.open.len() && of_chat(chat)(#[trigger] s.sends.open[i]);
            assert(s.sends.open[i].chat == chat);
        } else {
            assert forall|i: int| 0 <= i < s.sends.open.len() implies (
            #[trigger] s.sends.open[i]).chat != chat by {
                assert(!of_chat(chat)(s.sends.open[i]));
            }
        }
    }
}

} // verus!
