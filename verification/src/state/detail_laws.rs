//! What follows a list, a wait, or a late answer, said over the rows and the
//! texts themselves.

use crate::lists::{first_index, lemma_filter_contains, lemma_first_index, lemma_some_row};
use crate::protocol::{
    AccountState, AdapterStatus, ChatId, ConversationModel, Delivery, MessageModel, ProtocolId,
    Text,
};
use crate::sends::{FlightModel, PendingModel, not_retry_of};
use crate::state::model::{
    ErrorModel, SnapshotModel, account_is, chat_is, find_index, message_is, text_is, wait_after,
};
use crate::state::reading_laws::{law_link_state_stands_in_the_rows, law_thread_stands_by_time};
use crate::state::send_laws::lemma_expiring_all_notes;
use crate::state::{AuthScreen, FocusFollow, Mark, SignalScreen, WhatsAppScreen};
use crate::text::{is_space, law_trim_drops_only_the_ends, middle_of, trim};
use vstd::prelude::*;
use vstd::string::*;

verus! {

// ---- the highlight ----

/// The id stands first at this place of the list.
pub open spec fn stands_first(ids: Seq<Text>, id: Text, at: int) -> bool {
    &&& 0 <= at < ids.len()
    &&& ids[at] == id
    &&& forall|k: int| 0 <= k < at ==> #[trigger] ids[k] != id
}

proof fn lemma_place(ids: Seq<Text>, id: Text, at: int)
    ensures
        stands_first(ids, id, at) ==> find_index(ids, text_is(id)) == Some(at),
        !ids.contains(id) ==> find_index(ids, text_is(id)).is_none(),
        find_index(ids, text_is(id)).is_some() ==> stands_first(
            ids,
            id,
            find_index(ids, text_is(id)).unwrap(),
        ),
{
    lemma_first_index(ids, text_is(id));
    let first = first_index(ids, text_is(id));
    if first < ids.len() {
        assert(text_is(id)(ids[first]));
        assert(ids[first] == id);
        assert forall|k: int| 0 <= k < first implies #[trigger] ids[k] != id by {
            assert(!text_is(id)(ids[k]));
        }
        if stands_first(ids, id, at) && at != first {
            assert(text_is(id)(ids[at]));
            assert(first < at);
            assert(ids[first] != id);
        }
    } else if stands_first(ids, id, at) {
        assert(!text_is(id)(ids[at]));
    }
}

/// The highlight stays on its row while the list shows it, and goes with it.
/// When the row stays, the view scrolls to it if the user moved or searched, and
/// else only if the row stands at another place than before. The list that was
/// shown is remembered.
pub proof fn law_highlight_follows_its_row(
    s: SnapshotModel,
    reason: FocusFollow,
    before: int,
    after: int,
)
    ensures
        ({
            let next = s.refocused(reason);
            let shown = s.visible_ids();
            &&& next.seen_visible_ids == shown
            &&& next == (SnapshotModel {
                focused_row: next.focused_row,
                marks: next.marks,
                seen_visible_ids: next.seen_visible_ids,
                ..s
            })
            &&& s.focused_row.is_none() ==> next.focused_row.is_none() && next.marks == s.marks
            &&& s.focused_row.is_some() && !shown.contains(s.focused_row.unwrap())
                ==> next.focused_row.is_none() && next.marks == s.marks
            &&& s.focused_row.is_some() && stands_first(shown, s.focused_row.unwrap(), after) ==> {
                let id = s.focused_row.unwrap();
                &&& next.focused_row == Some(id)
                &&& reason != FocusFollow::List ==> next.marks == s.marks.insert(
                    Mark::ScrollToFocused,
                )
                &&& reason == FocusFollow::List && !s.seen_visible_ids.contains(id) ==> next.marks
                    == s.marks
                &&& reason == FocusFollow::List && stands_first(s.seen_visible_ids, id, before)
                    && before == after ==> next.marks == s.marks
                &&& reason == FocusFollow::List && stands_first(s.seen_visible_ids, id, before)
                    && before != after ==> next.marks == s.marks.insert(Mark::ScrollToFocused)
            }
        }),
{
    if let Some(id) = s.focused_row {
        lemma_place(s.visible_ids(), id, after);
        lemma_place(s.seen_visible_ids, id, before);
    }
}

// ---- older messages ----

/// A page that brought nothing makes only its own place wait: a chat with
/// another oldest message, or whose wait is over, may be asked again.
pub proof fn law_only_the_same_place_waits(s: SnapshotModel, now: u64)
    requires
        s.selected_conversation.is_some(),
        s.pages_older(),
    ensures
        ({
            let id = s.selected_conversation.unwrap();
            let chat = (s.selected_protocol, id);
            s.messages.contains_key(chat) && s.messages[chat].len() > 0
                && !s.history_loading.contains(chat) && !s.older_loading.contains(chat)
                && !s.older_at_start.contains(id) && s.older_retry.contains_key(id) && (
            s.older_retry[id].anchor != s.messages[chat][0].id || now >= s.older_retry[id].at
                + wait_after(s.older_retry[id].tries)) ==> s.older_anchor(now) == Some(
                (id, s.messages[chat][0].id),
            )
        }),
{
}

// ---- the keychain and the login form ----

/// The keychain wait reads as an opening for one second, and asks to unlock from
/// then on.
pub proof fn law_long_keychain_wait_asks_to_unlock(s: SnapshotModel, now: u64)
    ensures
        s.keychain_wait_started.is_none() ==> s.wait_text(now) == "Opening the keychain…"@,
        s.keychain_wait_started.is_some() && now < s.keychain_wait_started.unwrap() + 1_000
            ==> s.wait_text(now) == "Opening the keychain…"@,
        s.keychain_wait_started.is_some() && now >= s.keychain_wait_started.unwrap() + 1_000
            ==> s.wait_text(now) == "Waiting for the keychain. Unlock it to continue."@,
{
}

/// A blank field stops its step, and the error names the field. Nothing else
/// changes.
pub proof fn law_blank_field_is_named(s: SnapshotModel)
    requires
        !s.auth_busy,
    ensures
        s.advancing().error.is_some() && s.advancing().error != s.error
            ==> s.advancing() == (SnapshotModel { error: s.advancing().error, ..s }),
        s.auth == AuthScreen::TelegramApi && trim(s.telegram_api_id).len() == 0
            ==> s.advancing().error == Some(blank_error("api_id"@)),
        s.auth == AuthScreen::TelegramApi && trim(s.telegram_api_id).len() > 0 && trim(
            s.telegram_api_hash,
        ).len() == 0 ==> s.advancing().error == Some(blank_error("api_hash"@)),
        s.auth == AuthScreen::TelegramPhone && trim(s.telegram_phone).len() == 0
            ==> s.advancing().error == Some(blank_error("phone number"@)),
        s.auth == AuthScreen::TelegramCode && trim(s.telegram_code).len() == 0
            ==> s.advancing().error == Some(blank_error("login code"@)),
{
    reveal(SnapshotModel::advancing);
}

/// The error block of a blank field.
pub open spec fn blank_error(name: Text) -> ErrorModel {
    ErrorModel {
        happened: "Telegram login did not advance."@,
        why: "The "@ + name + " field is empty."@,
        next: "Fill the field, or press Cancel. Values are not logged."@,
    }
}

// ---- rejected and late answers ----

/// The text of a rejected send and the text of a rejected retry are remembered
/// side by side: neither takes the place of the other, and other chats keep
/// theirs.
pub proof fn law_rejected_texts_stand_side_by_side(
    s: SnapshotModel,
    chat: ChatId,
    text: Text,
    other: ChatId,
)
    requires
        text.len() > 0,
        other != chat,
    ensures
        ({
            let sent = s.remembering_compose(chat, text);
            let tried = s.remembering_row(chat, text);
            let known = s.rejected_bodies.contains_key(chat);
            &&& sent.rejected_bodies.contains_key(chat) && sent.rejected_bodies[chat].compose
                == Some(text)
            &&& tried.rejected_bodies.contains_key(chat) && tried.rejected_bodies[chat].row == Some(
                text,
            )
            &&& known ==> sent.rejected_bodies[chat].row == s.rejected_bodies[chat].row
                && tried.rejected_bodies[chat].compose == s.rejected_bodies[chat].compose
            &&& !known ==> sent.rejected_bodies[chat].row.is_none()
                && tried.rejected_bodies[chat].compose.is_none()
            &&& sent.rejected_bodies.contains_key(other) == s.rejected_bodies.contains_key(other)
            &&& tried.rejected_bodies.contains_key(other) == s.rejected_bodies.contains_key(other)
            &&& s.rejected_bodies.contains_key(other) ==> sent.rejected_bodies[other]
                == s.rejected_bodies[other] && tried.rejected_bodies[other]
                == s.rejected_bodies[other]
        }),
{
}

/// A rejected send remembers its own text, and a rejected retry the text of its
/// message without the white space around it.
pub proof fn law_rejection_remembers_its_text(
    s: SnapshotModel,
    chat: ChatId,
    request: u64,
    i: int,
)
    requires
        s.sound(),
    ensures
        s.sends.answered(chat, request).is_some() && s.sends.answered(chat, request).unwrap() is Send
            && s.sends.answered(chat, request).unwrap()->Send_body.len() > 0 ==> {
            let next = s.rejected(chat, request);
            &&& next.rejected_bodies.contains_key(chat)
            &&& next.rejected_bodies[chat].compose == Some(
                s.sends.answered(chat, request).unwrap()->Send_body,
            )
        },
        s.sends.answered(chat, request).is_some() && s.sends.answered(
            chat,
            request,
        ).unwrap() is Retry && s.messages.contains_key(chat) && 0 <= i < s.messages[chat].len()
            && s.messages[chat][i].id == s.sends.answered(
            chat,
            request,
        ).unwrap()->Retry_message_id && trim(s.messages[chat][i].body).len() > 0 ==> {
            let next = s.rejected(chat, request);
            &&& next.rejected_bodies.contains_key(chat)
            &&& next.rejected_bodies[chat].row == Some(trim(s.messages[chat][i].body))
        },
{
    reveal(SnapshotModel::rejected);
    reveal(SnapshotModel::delivering);
    match s.sends.answered(chat, request) {
        Some(PendingModel::Retry { message_id, .. }) => {
            let list = s.thread(chat);
            lemma_first_index(list, message_is(message_id));
            let at = first_index(list, message_is(message_id));
            if s.messages.contains_key(chat) {
                law_thread_stands_by_time(s, chat);
            }
            if s.messages.contains_key(chat) && 0 <= i < list.len() && list[i].id == message_id {
                assert(message_is(message_id)(list[i]));
                assert(message_is(message_id)(list[at]));
                if at < i {
                    assert(s.messages[chat][at].id != s.messages[chat][i].id);
                }
                assert(at == i);
                let settled = SnapshotModel { sends: s.sends.settled(chat, request), ..s };
                let failed = settled.delivering(chat, message_id, Delivery::Failed);
                let after = failed.thread(chat);
                lemma_first_index(after, message_is(message_id));
                let again = first_index(after, message_is(message_id));
                assert(message_is(message_id)(after[at]));
                if again < at {
                    assert(message_is(message_id)(after[again]));
                    assert(!message_is(message_id)(list[again]));
                }
                assert(again == at);
            }
        },
        _ => {},
    }
}

/// A retry that was accepted after it expired marks its message as sent, and no
/// newer retry of that message is left open. Every other send stays open.
pub proof fn law_late_retry_is_sent(
    s: SnapshotModel,
    chat: ChatId,
    request: u64,
    i: int,
    entry: FlightModel,
)
    requires
        s.sound(),
        s.sends.answered_late(chat, request).is_some(),
        s.sends.answered_late(chat, request).unwrap() is Retry,
    ensures
        ({
            let next = s.accepted_late(chat, request);
            let id = s.sends.answered_late(chat, request).unwrap()->Retry_message_id;
            let of_message = entry.chat == chat && entry.pending is Retry
                && entry.pending->Retry_message_id == id;
            &&& of_message ==> !next.sends.open.contains(entry)
            &&& !of_message ==> next.sends.open.contains(entry) == s.sends.open.contains(entry)
            &&& s.messages.contains_key(chat) && 0 <= i < s.messages[chat].len()
                ==> next.messages.contains_key(chat) && next.messages[chat].len()
                == s.messages[chat].len() && (s.messages[chat][i].id == id
                ==> next.messages[chat][i] == (MessageModel {
                delivery: Delivery::Sent,
                ..s.messages[chat][i]
            })) && (s.messages[chat][i].id != id ==> next.messages[chat][i]
                == s.messages[chat][i])
        }),
{
    reveal(SnapshotModel::delivering);
    let id = s.sends.answered_late(chat, request).unwrap()->Retry_message_id;
    lemma_filter_contains(s.sends.open, not_retry_of(chat, id), entry);
    let list = s.thread(chat);
    lemma_first_index(list, message_is(id));
    let at = first_index(list, message_is(id));
    if s.messages.contains_key(chat) && 0 <= i < list.len() {
        law_thread_stands_by_time(s, chat);
        if at < list.len() {
            assert(message_is(id)(list[at]));
            if i < at {
                assert(s.messages[chat][i].id != s.messages[chat][at].id);
            } else if at < i {
                assert(s.messages[chat][at].id != s.messages[chat][i].id);
            }
        } else {
            assert(!message_is(id)(list[i]));
        }
    }
}

// ---- what runs ----

/// Something runs exactly when a chat list, a history, or a page of older
/// messages loads, or a send is open.
pub proof fn law_every_load_and_send_runs(s: SnapshotModel, protocol: ProtocolId, chat: ChatId)
    ensures
        s.chat_list_loading.contains(protocol) ==> s.loading(),
        s.history_loading.contains(chat) ==> s.loading(),
        s.older_loading.contains(chat) ==> s.loading(),
        s.sends.open.len() > 0 ==> s.loading(),
        (forall|p: ProtocolId| !#[trigger] s.chat_list_loading.contains(p)) && (forall|c: ChatId|
            !#[trigger] s.history_loading.contains(c)) && (forall|c: ChatId|
            !#[trigger] s.older_loading.contains(c)) && s.sends.open.len() == 0 ==> !s.loading(),
{
    if forall|p: ProtocolId| !#[trigger] s.chat_list_loading.contains(p) {
        assert(s.chat_list_loading =~= Set::empty());
    }
    if forall|c: ChatId| !#[trigger] s.history_loading.contains(c) {
        assert(s.history_loading =~= Set::empty());
    }
    if forall|c: ChatId| !#[trigger] s.older_loading.contains(c) {
        assert(s.older_loading =~= Set::empty());
    }
}

// ---- the end ----

/// The clients are closed when the adapter of every account row said so, and not
/// before.
pub proof fn law_closed_when_every_adapter_stopped(s: SnapshotModel, i: int)
    ensures
        s.all_stopped() && 0 <= i < s.accounts.len() ==> s.stopped.contains(s.accounts[i].id),
        (forall|k: int|
            0 <= k < s.accounts.len() ==> s.stopped.contains((#[trigger] s.accounts[k]).id))
            ==> s.all_stopped(),
{
}

// ---- sessions and pairings ----

/// The text of a rejected retry outlives its session where the user wrote
/// nothing else in that chat. A rejected text that is still there goes before
/// it, and other text of the user is not kept.
pub proof fn law_rejected_retry_outlives_its_session(
    s: SnapshotModel,
    protocol: ProtocolId,
    chat: ChatId,
    row: Text,
)
    requires
        protocol != ProtocolId::Telegram,
        chat.0 == protocol,
        s.rejected_bodies.contains_key(chat),
        s.rejected_bodies[chat].row == Some(row),
        !s.is_selected(chat),
    ensures
        ({
            let next = s.session_dropped(protocol);
            let written = if s.drafts.contains_key(chat) {
                trim(s.drafts[chat])
            } else {
                Seq::empty()
            };
            let sent = s.rejected_bodies[chat].compose;
            &&& sent == Some(written) ==> next.drafts.contains_key(chat) && next.drafts[chat]
                == written
            &&& sent != Some(written) && written.len() == 0 ==> next.drafts.contains_key(chat)
                && next.drafts[chat] == row
            &&& sent.is_none() && written == row ==> next.drafts.contains_key(chat)
                && next.drafts[chat] == row
            &&& sent != Some(written) && written.len() > 0 && written != row
                ==> !next.drafts.contains_key(chat)
        }),
{
    reveal(SnapshotModel::session_dropped);
    reveal(SnapshotModel::rows_dropped);
    reveal(SnapshotModel::work_dropped);
}

/// The end of a session ends everything that ran for it: its loads, its note,
/// and its sends. What other protocols run goes on.
pub proof fn law_session_end_ends_its_work(
    s: SnapshotModel,
    protocol: ProtocolId,
    chat: ChatId,
    other: ProtocolId,
)
    requires
        other != protocol,
    ensures
        ({
            let next = s.session_dropped(protocol);
            &&& !next.sessions.contains(protocol) && !next.conversations.contains_key(protocol)
            &&& !next.notices.contains_key(protocol) && !next.chat_list_loading.contains(protocol)
            &&& chat.0 == protocol ==> !next.history_loading.contains(chat)
                && !next.older_loading.contains(chat) && !next.messages.contains_key(chat)
                && !next.rejected_bodies.contains_key(chat)
            &&& chat.0 == other ==> next.history_loading.contains(chat)
                == s.history_loading.contains(chat) && next.older_loading.contains(chat)
                == s.older_loading.contains(chat) && next.messages.contains_key(chat)
                == s.messages.contains_key(chat) && next.rejected_bodies.contains_key(chat)
                == s.rejected_bodies.contains_key(chat)
            &&& next.sessions.contains(other) == s.sessions.contains(other)
            &&& next.notices.contains_key(other) == s.notices.contains_key(other)
            &&& s.notices.contains_key(other) ==> next.notices[other] == s.notices[other]
            &&& next.chat_list_loading.contains(other) == s.chat_list_loading.contains(other)
            &&& protocol == ProtocolId::Telegram ==> !next.older_at_start.contains(chat.1)
                && !next.older_retry.contains_key(chat.1)
            &&& protocol != ProtocolId::Telegram ==> next.older_at_start == s.older_at_start
                && next.older_retry == s.older_retry
        }),
{
    reveal(SnapshotModel::session_dropped);
    reveal(SnapshotModel::rows_dropped);
    reveal(SnapshotModel::work_dropped);
}

/// A link closes the pairing screen that asked for it, and what that screen
/// showed and held goes with it. A screen at another step stays.
pub proof fn law_link_closes_its_screen(s: SnapshotModel)
    ensures
        s.whatsapp_started && s.whatsapp_screen == WhatsAppScreen::Pair ==> {
            let next = s.whatsapp_linked();
            &&& next.whatsapp_screen == WhatsAppScreen::Hidden
            &&& next.whatsapp_phone.len() == 0 && next.whatsapp_qr.is_none()
                && next.whatsapp_pair_code.is_none() && next.pairing_generation.is_none()
        },
        !s.whatsapp_started || s.whatsapp_screen != WhatsAppScreen::Pair ==> s.whatsapp_linked()
            == s,
        s.signal_screen == SignalScreen::Hidden ==> s.signal_linked() == s,
{
    reveal(SnapshotModel::whatsapp_linked);
    reveal(SnapshotModel::signal_linked);
}

/// The phone number of a pairing is what the user typed, without the white space
/// around it, or none. Without a pairing the old one stays.
pub proof fn law_pairing_takes_the_typed_phone(s: SnapshotModel, held: Option<Text>)
    ensures
        !s.may_pair_whatsapp() ==> s.phone_after_pairing(held) == held && s.pairing_whatsapp()
            == s,
        s.may_pair_whatsapp() <==> s.whatsapp_screen == WhatsAppScreen::Pair && s.marks.contains(
            Mark::WhatsAppRiskAccepted,
        ) && !s.whatsapp_started,
        s.may_pair_whatsapp() ==> {
            let phone = s.phone_after_pairing(held);
            &&& phone.is_some() == (exists|k: int|
                0 <= k < s.whatsapp_phone.len() && !is_space(#[trigger] s.whatsapp_phone[k]))
            &&& phone.is_some() ==> (exists|lead: int| #[trigger]
                middle_of(s.whatsapp_phone, phone.unwrap(), lead)) && !is_space(phone.unwrap()[0])
                && !is_space(phone.unwrap()[phone.unwrap().len() - 1])
            &&& s.pairing_whatsapp().whatsapp_phone.len() == 0
            &&& s.pairing_whatsapp().whatsapp_started
        },
{
    reveal(SnapshotModel::pairing_whatsapp);
    let typed = s.whatsapp_phone;
    law_trim_drops_only_the_ends(typed);
    let lead = choose|lead: int| #[trigger] middle_of(typed, trim(typed), lead);
    if s.may_pair_whatsapp() {
        if let Some(phone) = s.phone_after_pairing(held) {
            assert(middle_of(typed, phone, lead));
            assert(phone[0] == typed[lead + 0]);
            assert(!is_space(typed[lead]));
        }
    }
}

/// A Signal link that fails before the account is linked says so, with the
/// reason.
pub proof fn law_failed_signal_link_says_why(s: SnapshotModel, refused: bool, detail: Text)
    requires
        s.build.signal_local,
        s.signal_started,
        !s.linked(ProtocolId::Signal),
    ensures
        s.with_adapter_status(
            ProtocolId::Signal,
            if refused {
                AdapterStatus::Refused
            } else {
                AdapterStatus::Error
            },
            detail,
        ).error == Some(
            ErrorModel {
                happened: "Signal linking failed."@,
                why: detail,
                next: "Start linking again."@,
            },
        ),
{
    reveal(SnapshotModel::with_adapter_status);
    reveal(SnapshotModel::without_spinners);
    let status = if refused {
        AdapterStatus::Refused
    } else {
        AdapterStatus::Error
    };
    lemma_first_index(s.accounts, account_is(ProtocolId::Signal));
    let noted = s.status_noted(ProtocolId::Signal, status, detail);
    let calm = noted.without_spinners(ProtocolId::Signal, None);
    law_link_state_stands_in_the_rows(s, ProtocolId::Signal);
    law_link_state_stands_in_the_rows(calm, ProtocolId::Signal);
    if calm.linked(ProtocolId::Signal) {
        let i = choose|i: int|
            0 <= i < calm.accounts.len() && (#[trigger] calm.accounts[i]).id == ProtocolId::Signal
                && calm.accounts[i].state == AccountState::Linked;
        assert(s.accounts[i].id == ProtocolId::Signal && s.accounts[i].state
            == AccountState::Linked);
    }
}

/// When a chat row moves the selected row to another place, the view scrolls to
/// it. When the row keeps its place, or another protocol shows, it does not.
pub proof fn law_moved_selection_is_scrolled_to(
    s: SnapshotModel,
    row: ConversationModel,
    before: int,
    after: int,
)
    requires
        s.selected_conversation.is_some(),
        ({
            let id = s.selected_conversation.unwrap();
            let old_rows = s.rows(row.protocol);
            let new_rows = s.chat_put(row).rows(row.protocol);
            &&& 0 <= before < old_rows.len() && old_rows[before].id == id
            &&& forall|k: int| 0 <= k < before ==> (#[trigger] old_rows[k]).id != id
            &&& 0 <= after < new_rows.len() && new_rows[after].id == id
            &&& forall|k: int| 0 <= k < after ==> (#[trigger] new_rows[k]).id != id
        }),
    ensures
        s.selected_protocol == row.protocol && before != after ==> s.chat_put(row).marks
            == s.marks.insert(Mark::ScrollToSelected),
        s.selected_protocol != row.protocol || before == after ==> s.chat_put(row).marks
            == s.marks,
{
    let id = s.selected_conversation.unwrap();
    let old_rows = s.rows(row.protocol);
    let new_rows = s.chat_put(row).rows(row.protocol);
    lemma_row_place(old_rows, id, before);
    lemma_row_place(new_rows, id, after);
    lemma_some_row(old_rows, chat_is(id));
    assert(chat_is(id)(old_rows[before]));
}

proof fn lemma_row_place(rows: Seq<ConversationModel>, id: Text, at: int)
    requires
        0 <= at < rows.len(),
        rows[at].id == id,
        forall|k: int| 0 <= k < at ==> (#[trigger] rows[k]).id != id,
    ensures
        find_index(rows, chat_is(id)) == Some(at),
{
    lemma_first_index(rows, chat_is(id));
    let first = first_index(rows, chat_is(id));
    assert(chat_is(id)(rows[at]));
    assert(chat_is(id)(rows[first]));
    if first < at {
        assert(rows[first].id != id);
    }
}

/// Timeouts add up while their error shows: what timed out before stays in the
/// list, in front of what times out now. Once the error is gone, the list starts
/// again.
pub proof fn law_shown_timeouts_add_up(s: SnapshotModel, now: u64, i: int)
    ensures
        s.error == s.timeout_error ==> s.expiring(now).timed_out.len() == s.timed_out.len()
            + s.sends.due_at(now).len() && (0 <= i < s.timed_out.len() ==> s.expiring(now)
            .timed_out[i] == s.timed_out[i]),
        s.error != s.timeout_error && s.sends.due_at(now).len() > 0 ==> s.expiring(now)
            .timed_out.len() == s.sends.due_at(now).len(),
        s.sends.due_at(now).len() == 0 ==> s.expiring(now).timed_out == s.timed_out
            && s.expiring(now).error == s.error,
{
    reveal(SnapshotModel::expiring);
    let due = s.sends.due_at(now);
    let next = SnapshotModel { sends: s.sends.expired_at(now), ..s };
    lemma_expiring_all_notes(next.timeouts_restarted(), due, i);
}

} // verus!
