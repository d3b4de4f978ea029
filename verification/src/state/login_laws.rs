//! What the Telegram login does, step by step, said over the form, the commands,
//! and the stored secrets.

use crate::intent::AuthField;
use crate::lists::{first_index, lemma_first_index, lemma_some_row};
use crate::protocol::{
    AccountState, CommandModel, ProtocolId, TelegramAuthError, TelegramAuthPhase, TelegramAuthStep,
    Text,
};
use crate::secrets::{AttachPhase, SecretKey, StoreModel};
use crate::state::laws::lemma_selecting_protocol_frame;
use crate::state::model::{SnapshotModel, account_is, find, linked_is, login_error, wait_minutes};
use crate::state::action_laws::law_picked_protocol_is_selected;
use crate::state::{AuthKey, AuthScreen, CenterView, Mark, Resume, SESSION_ENDED_NOTICE};
use crate::text::trim;
use vstd::prelude::*;
use vstd::string::*;

verus! {

/// The text of one login field.
pub open spec fn field_text(s: SnapshotModel, field: AuthField) -> Text {
    match field {
        AuthField::ApiId => s.telegram_api_id,
        AuthField::ApiHash => s.telegram_api_hash,
        AuthField::Phone => s.telegram_phone,
        AuthField::Code => s.telegram_code,
        AuthField::Password => s.telegram_2fa,
    }
}

/// What the user types stands in its own field, whole, and in no other. Without
/// a form nothing is typed.
pub proof fn law_typed_text_stands_in_its_field(
    s: SnapshotModel,
    field: AuthField,
    other: AuthField,
    text: Text,
)
    ensures
        s.auth != AuthScreen::Idle ==> field_text(s.with_field(field, text), field) == text,
        other != field ==> field_text(s.with_field(field, text), other) == field_text(s, other),
        s.auth == AuthScreen::Idle ==> s.with_field(field, text) == s,
        s.with_field(field, text).pending == s.pending,
        s.with_field(field, text).auth == s.auth,
        s.with_field(field, text).compose == s.compose,
{
    reveal(SnapshotModel::with_field);
}

/// Telegram sign-in starts only with a keychain that was read: a failed read
/// says so, and an unfinished one is waited for. With credentials it connects,
/// and without it asks for them. Whatever was typed before is gone.
pub proof fn law_sign_in_starts(s: SnapshotModel, store: StoreModel, field: AuthField)
    ensures
        ({
            let next = s.opening_telegram(store);
            let api = s.api_source.is_some() || (store.values.contains_key(SecretKey::ApiId)
                && store.values.contains_key(SecretKey::ApiHash));
            &&& store.phase == AttachPhase::ReadFailed ==> next.error.is_some() && next.pending
                == s.pending && next.auth == s.auth
            &&& store.phase == AttachPhase::Detached || store.phase == AttachPhase::Attaching
                ==> next.pending == s.pending && next.auth == s.auth && next.error == s.error
            &&& store.settled() && api ==> next.auth == AuthScreen::TelegramConnecting
                && next.auth_busy && next.pending == s.pending.push(
                CommandModel::TelegramAuth { step: TelegramAuthStep::ApiCredentials, epoch: 0 },
            )
            &&& store.settled() && !api ==> next.auth == AuthScreen::NeedCredentials
                && !next.auth_busy && next.pending == s.pending
            &&& store.settled() ==> field_text(next, field).len() == 0 && next.error.is_none()
                && next.resume == Resume::Settled
            &&& next.conversations == s.conversations && next.accounts == s.accounts
        }),
{
    reveal(SnapshotModel::opening_telegram);
}

/// Add account opens the sign-in only while Telegram is not signed in.
pub proof fn law_add_account_needs_no_session(s: SnapshotModel, store: StoreModel)
    ensures
        s.telegram_authorized ==> s.adding_account(store) == s && s.store_adding_account(store)
            == store && s.opening_override(store) == s,
        !s.telegram_authorized ==> s.adding_account(store) == s.opening_telegram(store),
        !s.telegram_authorized ==> s.opening_override(store).auth == AuthScreen::TelegramApi
            && s.opening_override(store).pending == s.pending,
        !s.telegram_authorized && store.values.contains_key(SecretKey::ApiId)
            ==> s.opening_override(store).telegram_api_id == store.values[SecretKey::ApiId],
        !s.telegram_authorized && store.values.contains_key(SecretKey::ApiHash)
            ==> s.opening_override(store).telegram_api_hash == store.values[SecretKey::ApiHash],
{
    reveal(SnapshotModel::adding_account);
    reveal(SnapshotModel::opening_override);
    reveal(SnapshotModel::at_api_form);
}

/// The step that a filled form sends.
pub open spec fn step_of(screen: AuthScreen) -> Option<(TelegramAuthStep, SecretKey)> {
    match screen {
        AuthScreen::TelegramPhone => Some((TelegramAuthStep::Phone, SecretKey::Phone)),
        AuthScreen::TelegramCode => Some((TelegramAuthStep::Code, SecretKey::Code)),
        AuthScreen::Telegram2fa => Some((TelegramAuthStep::TwoFactor, SecretKey::Password)),
        _ => None,
    }
}

/// The text of the step that shows.
pub open spec fn step_text(s: SnapshotModel) -> Text {
    match s.auth {
        AuthScreen::TelegramPhone => s.telegram_phone,
        AuthScreen::TelegramCode => s.telegram_code,
        _ => s.telegram_2fa,
    }
}

/// A submitted step sends its own command, once, and puts its text into the
/// store under its own key. A phone number or a code of white space only is
/// refused with an error, and nothing goes out. While a step runs, nothing is
/// submitted.
pub proof fn law_submitted_step_goes_out(s: SnapshotModel, store: StoreModel, other: SecretKey)
    ensures
        ({
            let next = s.advancing();
            let kept = s.store_advancing(store);
            let text = step_text(s);
            &&& s.auth_busy ==> next == s && kept == store
            &&& !s.auth_busy && step_of(s.auth).is_some() && trim(text).len() > 0 ==> {
                let (step, key) = step_of(s.auth).unwrap();
                &&& next.pending == s.pending.push(CommandModel::TelegramAuth { step, epoch: 0 })
                &&& next.auth_busy && next.error.is_none() && next.auth == s.auth
                &&& kept.values.contains_key(key) && kept.values[key] == trim(text)
                &&& other != key ==> kept.value(other) == store.value(other)
            }
            &&& !s.auth_busy && (s.auth == AuthScreen::TelegramPhone || s.auth
                == AuthScreen::TelegramCode) && trim(text).len() == 0 ==> next.pending == s.pending
                && next.error.is_some() && !next.auth_busy && kept == store
            &&& !s.auth_busy && s.auth == AuthScreen::Telegram2fa && text.len() == 0 ==> next == s
                && kept == store
            &&& s.auth == AuthScreen::Idle || s.auth == AuthScreen::NeedCredentials ==> next == s
                && kept == store
            &&& next.telegram_phone == s.telegram_phone && next.telegram_code == s.telegram_code
                && next.telegram_2fa == s.telegram_2fa
        }),
{
    reveal(SnapshotModel::advancing);
}

/// Submitted API credentials need both fields. They go to the store, the store
/// to the keychain, and the client starts with them.
pub proof fn law_submitted_credentials_are_stored(s: SnapshotModel, store: StoreModel)
    requires
        !s.auth_busy,
        s.auth == AuthScreen::TelegramApi,
    ensures
        ({
            let next = s.advancing();
            let kept = s.store_advancing(store);
            let filled = trim(s.telegram_api_id).len() > 0 && trim(s.telegram_api_hash).len() > 0;
            &&& filled ==> next.pending == s.pending.push(
                CommandModel::TelegramAuth { step: TelegramAuthStep::ApiCredentials, epoch: 0 },
            ) && next.marks.contains(Mark::KeychainFlush) && next.auth_busy
            &&& filled ==> kept.values.contains_key(SecretKey::ApiId)
                && kept.values[SecretKey::ApiId] == trim(s.telegram_api_id)
                && kept.values.contains_key(SecretKey::ApiHash) && kept.values[SecretKey::ApiHash]
                == trim(s.telegram_api_hash)
            &&& !filled ==> next.error.is_some() && next.pending == s.pending && kept == store
                && next.marks == s.marks
        }),
{
    reveal(SnapshotModel::advancing);
}

/// Submitting again while the client connects starts a new client: the old one
/// is told to go first.
pub proof fn law_connect_again_replaces_the_client(s: SnapshotModel, store: StoreModel)
    requires
        !s.auth_busy,
        s.auth == AuthScreen::TelegramConnecting,
    ensures
        s.advancing().pending == s.pending.push(
            CommandModel::Disconnect { protocol: ProtocolId::Telegram },
        ).push(CommandModel::TelegramAuth { step: TelegramAuthStep::ApiCredentials, epoch: 0 }),
        s.store_advancing(store) == store,
{
    reveal(SnapshotModel::advancing);
}

/// Cancel closes the form and empties it. Without a session the client goes; a
/// live session stays, and nothing goes out.
pub proof fn law_cancel_closes_the_form(s: SnapshotModel, field: AuthField)
    ensures
        s.cancelling().auth == AuthScreen::Idle,
        !s.cancelling().auth_busy,
        s.cancelling().error.is_none(),
        s.cancelling().resume == Resume::Settled,
        field_text(s.cancelling(), field).len() == 0,
        !s.telegram_authorized ==> s.cancelling().pending == s.pending.push(
            CommandModel::Disconnect { protocol: ProtocolId::Telegram },
        ),
        s.telegram_authorized ==> s.cancelling().pending == s.pending,
        s.cancelling().conversations == s.conversations && s.cancelling().accounts == s.accounts,
{
    reveal(SnapshotModel::cancelling);
}

/// From the code step the user can go back to the number, or ask for a new code.
/// Either way the typed code goes. On any other step nothing happens.
pub proof fn law_code_step_goes_back_or_asks_again(s: SnapshotModel)
    ensures
        s.auth == AuthScreen::TelegramCode ==> s.changing_number().auth
            == AuthScreen::TelegramPhone && s.changing_number().telegram_code.len() == 0
            && !s.changing_number().auth_busy && s.changing_number().pending == s.pending
            && s.changing_number().telegram_phone == s.telegram_phone,
        s.auth != AuthScreen::TelegramCode ==> s.changing_number() == s && s.resending_code() == s,
        s.auth_busy ==> s.resending_code() == s,
        s.auth == AuthScreen::TelegramCode && !s.auth_busy ==> s.resending_code().pending
            == s.pending.push(
            CommandModel::TelegramAuth { step: TelegramAuthStep::ResendCode, epoch: 0 },
        ) && s.resending_code().telegram_code.len() == 0 && s.resending_code().auth_busy
            && s.resending_code().auth == s.auth,
{
    reveal(SnapshotModel::changing_number);
    reveal(SnapshotModel::resending_code);
}

/// Each phase of the login shows its own step, and no step runs any more. A step
/// that asks for something shows no old error.
pub proof fn law_phase_shows_its_step(s: SnapshotModel)
    ensures
        s.in_phase(TelegramAuthPhase::NeedPhone).auth == AuthScreen::TelegramPhone,
        s.in_phase(TelegramAuthPhase::NeedCode).auth == AuthScreen::TelegramCode,
        s.in_phase(TelegramAuthPhase::NeedTwoFactor).auth == AuthScreen::Telegram2fa,
        s.in_phase(TelegramAuthPhase::Unavailable).auth == AuthScreen::Idle,
        !s.in_phase(TelegramAuthPhase::NeedPhone).auth_busy,
        !s.in_phase(TelegramAuthPhase::NeedCode).auth_busy,
        !s.in_phase(TelegramAuthPhase::NeedTwoFactor).auth_busy,
        !s.in_phase(TelegramAuthPhase::Failed).auth_busy,
        s.in_phase(TelegramAuthPhase::NeedPhone).error.is_none(),
        s.in_phase(TelegramAuthPhase::NeedCode).error.is_none(),
        s.in_phase(TelegramAuthPhase::NeedTwoFactor).error.is_none(),
        s.in_phase(TelegramAuthPhase::NeedPhone).telegram_code.len() == 0,
        s.in_phase(TelegramAuthPhase::NeedPhone).telegram_2fa.len() == 0,
        s.in_phase(TelegramAuthPhase::NeedCode).telegram_phone == s.telegram_phone,
        s.in_phase(TelegramAuthPhase::NeedPhone).pending == s.pending,
        s.in_phase(TelegramAuthPhase::NeedCode).pending == s.pending,
        s.in_phase(TelegramAuthPhase::NeedTwoFactor).pending == s.pending,
        s.data_reset.is_none() && s.resume == Resume::Connecting ==> s.in_phase(
            TelegramAuthPhase::NeedPhone,
        ).auth_notice == Some(SESSION_ENDED_NOTICE@),
        s.data_reset.is_some() ==> s.in_phase(TelegramAuthPhase::NeedPhone).auth_notice.is_some()
            && s.in_phase(TelegramAuthPhase::NeedPhone).data_reset.is_none(),
        s.data_reset.is_none() && s.resume != Resume::Connecting ==> s.in_phase(
            TelegramAuthPhase::NeedPhone,
        ).auth_notice.is_none(),
{
    reveal(SnapshotModel::in_phase);
    reveal(SnapshotModel::entering_phase);
    reveal(SnapshotModel::at_phone_step);
    reveal(SnapshotModel::at_code_step);
    reveal(SnapshotModel::at_password_step);
    reveal(SnapshotModel::step_refused);
    reveal(SnapshotModel::login_unavailable);
}

/// A refused step shows why. It keeps the form, unless the client could not be
/// set up: then the form closes, empty, and the client goes.
pub proof fn law_refused_step_says_why(s: SnapshotModel, code: i32, field: AuthField)
    ensures
        ({
            let next = s.in_phase(TelegramAuthPhase::Failed);
            &&& next.error == Some(login_error(s.auth_rejection))
            &&& !(s.auth_rejection matches Some(TelegramAuthError::ClientSetup { .. }))
                ==> next.auth == s.auth && next.pending == s.pending && field_text(next, field)
                == field_text(s, field)
            &&& s.auth_rejection == Some(TelegramAuthError::ClientSetup { code }) ==> next.auth
                == AuthScreen::Idle && field_text(next, field).len() == 0 && next.pending
                == s.pending.push(CommandModel::Disconnect { protocol: ProtocolId::Telegram })
        }),
{
    reveal(SnapshotModel::in_phase);
    reveal(SnapshotModel::entering_phase);
    reveal(SnapshotModel::step_refused);
}

/// When the login is ready, Telegram is signed in and linked, its chats load,
/// the form closes, and nothing that was typed is left. Its inbox shows, unless
/// the user looks at another session.
pub proof fn law_ready_login_opens_the_inbox(s: SnapshotModel, field: AuthField, i: int)
    requires
        s.one_row_per_protocol(),
        0 <= i < s.accounts.len(),
    ensures
        ({
            let next = s.in_phase(TelegramAuthPhase::Ready);
            &&& next.telegram_authorized
            &&& next.sessions.contains(ProtocolId::Telegram)
            &&& next.chat_list_loading.contains(ProtocolId::Telegram)
            &&& next.auth == AuthScreen::Idle && !next.auth_busy && next.error.is_none()
            &&& field_text(next, field).len() == 0
            &&& s.accounts[i].id == ProtocolId::Telegram ==> next.accounts[i].state
                == AccountState::Linked
            &&& s.accounts[i].id != ProtocolId::Telegram ==> next.accounts[i] == s.accounts[i]
            &&& s.selected_protocol != ProtocolId::Telegram && s.has_session(s.selected_protocol)
                ==> next.selected_protocol == s.selected_protocol && next.selected_conversation
                == s.selected_conversation
            &&& s.selected_protocol == ProtocolId::Telegram || !s.has_session(s.selected_protocol)
                ==> next.selected_protocol == ProtocolId::Telegram
        }),
{
    reveal(SnapshotModel::in_phase);
    reveal(SnapshotModel::entering_phase);
    reveal(SnapshotModel::login_ready);
    reveal(SnapshotModel::telegram_started);
    let entered = s.entering_phase(TelegramAuthPhase::Ready);
    let linked = entered.telegram_started();
    lemma_selecting_protocol_frame(linked, ProtocolId::Telegram);
    law_picked_protocol_is_selected(linked, ProtocolId::Telegram);
    lemma_first_index(s.accounts, account_is(ProtocolId::Telegram));
    let at = first_index(s.accounts, account_is(ProtocolId::Telegram));
    if at < s.accounts.len() {
        assert(account_is(ProtocolId::Telegram)(s.accounts[at]));
        if at < i {
            assert(s.accounts[at].id != s.accounts[i].id);
        } else if i < at {
            assert(s.accounts[i].id != s.accounts[at].id);
        }
    } else {
        assert(!account_is(ProtocolId::Telegram)(s.accounts[i]));
    }
    lemma_session_of_another(s, linked, s.selected_protocol);
}

/// A link state of Telegram changes no session of another protocol.
proof fn lemma_session_of_another(s: SnapshotModel, next: SnapshotModel, protocol: ProtocolId)
    requires
        next.accounts == s.with_state(ProtocolId::Telegram, AccountState::Linked).accounts,
        next.sessions == s.sessions.insert(ProtocolId::Telegram),
    ensures
        protocol != ProtocolId::Telegram ==> next.has_session(protocol) == s.has_session(protocol),
{
    if protocol != ProtocolId::Telegram {
        lemma_some_row(s.accounts, linked_is(protocol));
        lemma_some_row(next.accounts, linked_is(protocol));
        lemma_first_index(s.accounts, account_is(ProtocolId::Telegram));
        assert forall|k: int| 0 <= k < s.accounts.len() implies linked_is(protocol)(
            #[trigger] next.accounts[k],
        ) == linked_is(protocol)(s.accounts[k]) by {}
        if s.linked(protocol) {
            let k = choose|k: int|
                0 <= k < s.accounts.len() && linked_is(protocol)(#[trigger] s.accounts[k]);
            assert(linked_is(protocol)(next.accounts[k]));
        }
        if next.linked(protocol) {
            let k = choose|k: int|
                0 <= k < next.accounts.len() && linked_is(protocol)(#[trigger] next.accounts[k]);
            assert(linked_is(protocol)(s.accounts[k]));
        }
    }
}

/// A Telegram session that ended elsewhere signs out and starts a new client. A
/// Telegram that was not signed in has no session to end.
pub proof fn law_ended_telegram_session_signs_out(s: SnapshotModel)
    ensures
        !s.telegram_authorized ==> s.telegram_ended() == s,
        s.telegram_authorized ==> {
            let next = s.telegram_ended();
            &&& !next.telegram_authorized
            &&& next.resume == Resume::Connecting
            &&& next.auth == AuthScreen::Idle
            &&& next.pending.len() > 0
            &&& next.pending[next.pending.len() - 1] == (CommandModel::TelegramAuth {
                step: TelegramAuthStep::ApiCredentials,
                epoch: 0,
            })
            &&& next.status_text == SESSION_ENDED_NOTICE@
        },
{
    reveal(SnapshotModel::telegram_ended);
    let out = SnapshotModel { telegram_authorized: false, ..s };
    lemma_ending_keeps_sign_in(out, ProtocolId::Telegram);
}

proof fn lemma_ending_keeps_sign_in(s: SnapshotModel, protocol: ProtocolId)
    ensures
        s.ending(protocol).telegram_authorized == s.telegram_authorized,
{
    reveal(SnapshotModel::ending);
    reveal(SnapshotModel::session_dropped);
    reveal(SnapshotModel::rows_dropped);
    reveal(SnapshotModel::work_dropped);
    let free = SnapshotModel {
        compose: Seq::empty(),
        selected_conversation: None,
        ..s.session_dropped(protocol)
    };
    match find(free.accounts, free.shows_session()) {
        Some(row) => lemma_selecting_protocol_frame(free, row.id),
        None => {},
    }
}

/// A saved session starts by itself when the keychain was read, it holds the
/// session and credentials, the build holds the client, and no login runs. It
/// starts once, and otherwise never.
pub proof fn law_saved_session_starts_by_itself(s: SnapshotModel, store: StoreModel, live: bool)
    ensures
        ({
            let next = s.resuming(store, live);
            let api = s.api_source.is_some() || (store.values.contains_key(SecretKey::ApiId)
                && store.values.contains_key(SecretKey::ApiHash));
            let may = live && store.values.contains_key(SecretKey::Session) && s.auth
                == AuthScreen::Idle && !s.telegram_authorized && api;
            let settled = store.phase == AttachPhase::Ready || store.phase
                == AttachPhase::MemoryOnly;
            &&& s.resume == Resume::Waiting && settled && may ==> next.resume == Resume::Connecting
                && next.pending == s.pending.push(
                CommandModel::TelegramAuth { step: TelegramAuthStep::ApiCredentials, epoch: 0 },
            )
            &&& s.resume == Resume::Waiting && settled && !may ==> next.resume == Resume::Settled
                && next.pending == s.pending
            &&& s.resume != Resume::Waiting || !settled ==> next == s
        }),
{
    reveal(SnapshotModel::resuming);
}

/// A frame notes a failed keychain read, and when the wait for a read began.
pub proof fn law_frame_notes_the_keychain(s: SnapshotModel, failed: bool, settled: bool, now: u64)
    ensures
        s.keychain_seen(failed, settled, now).marks.contains(Mark::KeychainFailed) == failed,
        !settled && s.keychain_wait_started.is_none() ==> s.keychain_seen(
            failed,
            settled,
            now,
        ).keychain_wait_started == Some(now),
        settled || s.keychain_wait_started.is_some() ==> s.keychain_seen(
            failed,
            settled,
            now,
        ).keychain_wait_started == s.keychain_wait_started,
        s.keychain_seen(failed, settled, now).pending == s.pending,
        s.retrying_keychain().marks.contains(Mark::KeychainRetry),
        s.retrying_keychain().keychain_wait_started.is_none(),
        s.retrying_keychain().error.is_none() && s.retrying_keychain().pending == s.pending,
{
    reveal(SnapshotModel::keychain_seen);
    reveal(SnapshotModel::retrying_keychain);
}

/// Enter and Escape do what the screen that shows offers: sign in on the first
/// run, submit or cancel on a form, try again on a failed keychain. On the
/// thread they do nothing.
pub proof fn law_keys_act_on_the_screen(s: SnapshotModel, store: StoreModel)
    ensures
        s.center() == CenterView::FirstRun ==> s.screen_key(AuthKey::Enter, store)
            == s.adding_account(store) && s.screen_key(AuthKey::Escape, store) == s,
        s.center() == CenterView::Auth ==> s.screen_key(AuthKey::Escape, store) == s.cancelling(),
        s.center() == CenterView::Auth && s.auth != AuthScreen::NeedCredentials ==> s.screen_key(
            AuthKey::Enter,
            store,
        ) == s.advancing() && s.store_screen_key(AuthKey::Enter, store) == s.store_advancing(store),
        s.center() == CenterView::Auth && s.auth == AuthScreen::NeedCredentials ==> s.screen_key(
            AuthKey::Enter,
            store,
        ) == s.opening_override(store),
        s.center() == CenterView::KeychainFailed ==> s.screen_key(AuthKey::Enter, store)
            == s.retrying_keychain() && s.screen_key(AuthKey::Escape, store) == s,
        s.center() == CenterView::Thread ==> s.screen_key(AuthKey::Enter, store) == s
            && s.screen_key(AuthKey::Escape, store) == s && s.store_screen_key(
            AuthKey::Enter,
            store,
        ) == store,
        s.center() == CenterView::Auth ==> s.store_screen_key(AuthKey::Escape, store).value(
            SecretKey::Password,
        ).is_none(),
{
    reveal(SnapshotModel::screen_key);
    reveal(SnapshotModel::login_key);
}

/// The wait that the login names is whole minutes: enough for the seconds that
/// are left, and no minute more, but at least one.
pub proof fn law_login_wait_covers_the_seconds(seconds: u32)
    ensures
        wait_minutes(seconds) >= 1,
        wait_minutes(seconds) * 60 >= seconds,
        seconds > 60 ==> (wait_minutes(seconds) - 1) * 60 < seconds,
        seconds <= 60 ==> wait_minutes(seconds) == 1,
{
}

/// Each refusal has its own words for what happened, why, and what to do, and
/// those of an unknown one name its number.
pub proof fn law_refusals_differ(code: i32, other: i32)
    ensures
        login_error(Some(TelegramAuthError::PhoneInvalid)).why
            == "The number format is not valid."@,
        login_error(Some(TelegramAuthError::CodeInvalid)).why == "The code is wrong."@,
        login_error(Some(TelegramAuthError::CodeExpired)).why == "The code expired."@,
        login_error(Some(TelegramAuthError::PasswordInvalid)).why == "The password is wrong."@,
        login_error(Some(TelegramAuthError::CodeExpired)).next == "Press Send a new code."@,
        login_error(Some(TelegramAuthError::Other { code })).why
            == "Telegram did not accept this step (error "@ + crate::text::signed_decimal(
            code as int,
        ) + ")."@,
        login_error(None).why == "Telegram did not accept this step."@,
{
}

} // verus!
