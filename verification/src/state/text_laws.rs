//! What the status strip and the error block say after each action, word by
//! word, and what a closed form leaves behind.

use crate::protocol::{TelegramAuthError, TelegramAuthPhase, Text};
use crate::secrets::{AttachPhase, StoreModel};
use crate::state::model::{ErrorModel, SnapshotModel, login_error, reset_notice, wait_minutes};
use crate::state::{AuthScreen, Mark, Resume, SignalScreen, WhatsAppScreen};
use crate::text::{decimal, signed_decimal, trim};
use vstd::prelude::*;
use vstd::string::*;

verus! {

/// A send, a retry, and a refresh say that they run.
pub proof fn law_inbox_actions_say_what_runs(s: SnapshotModel, id: Text, now: u64)
    ensures
        s.can_send() ==> s.sending(now).status_text == "Sending…"@ && s.sending(now).error.is_none(),
        s.can_retry(id) ==> s.retrying(id, now).status_text == "Sending…"@ && s.retrying(
            id,
            now,
        ).error.is_none(),
        s.refreshed().status_text == "Refreshing…"@,
{
    reveal(SnapshotModel::sending);
    reveal(SnapshotModel::retrying);
    reveal(SnapshotModel::refreshed);
}

/// Each submitted login step says what was stored and what is waited for. The
/// error and the reason of the last refusal go.
pub proof fn law_login_steps_say_what_waits(s: SnapshotModel)
    requires
        !s.auth_busy,
    ensures
        s.advancing().auth_busy ==> s.advancing().error.is_none()
            && s.advancing().auth_rejection.is_none(),
        s.auth == AuthScreen::TelegramApi && trim(s.telegram_api_id).len() > 0 && trim(
            s.telegram_api_hash,
        ).len() > 0 ==> s.advancing().status_text
            == "Telegram: api credentials stored. Waiting for the next login step."@,
        s.auth == AuthScreen::TelegramConnecting ==> s.advancing().status_text
            == "Connecting to Telegram…"@,
        s.auth == AuthScreen::TelegramPhone && trim(s.telegram_phone).len() > 0
            ==> s.advancing().status_text == "Telegram: phone stored. Waiting for a login code."@,
        s.auth == AuthScreen::TelegramCode && trim(s.telegram_code).len() > 0
            ==> s.advancing().status_text
            == "Telegram: login code stored. Waiting for the next step."@,
        s.auth == AuthScreen::Telegram2fa && s.telegram_2fa.len() > 0 ==> s.advancing().status_text
            == "Telegram: password sent. Waiting for Telegram."@,
        s.auth == AuthScreen::TelegramCode ==> s.resending_code().status_text
            == "Telegram: asking for a new code."@ && s.changing_number().status_text
            == "Telegram: enter a phone number."@,
{
    reveal(SnapshotModel::advancing);
    reveal(SnapshotModel::resending_code);
    reveal(SnapshotModel::changing_number);
}

/// Each login phase says what to enter. A moved data folder is named in the
/// status line and in the note of the form.
pub proof fn law_login_phases_say_what_to_enter(s: SnapshotModel, folder: Text)
    ensures
        s.in_phase(TelegramAuthPhase::NeedCode).status_text
            == "Telegram: enter the login code. It stays in the secret store."@,
        s.in_phase(TelegramAuthPhase::NeedTwoFactor).status_text
            == "Telegram: enter your Telegram password."@,
        s.in_phase(TelegramAuthPhase::Ready).status_text
            == "Telegram is ready. Loading the chat list."@,
        s.data_reset == Some(folder) ==> s.in_phase(TelegramAuthPhase::NeedPhone).status_text
            == reset_notice(folder) && s.in_phase(TelegramAuthPhase::NeedPhone).auth_notice == Some(
            reset_notice(folder),
        ),
        s.data_reset.is_none() && s.resume == Resume::Connecting ==> s.in_phase(
            TelegramAuthPhase::NeedPhone,
        ).status_text == "Your Telegram session ended. Sign in again."@,
        s.data_reset.is_none() && s.resume != Resume::Connecting ==> s.in_phase(
            TelegramAuthPhase::NeedPhone,
        ).status_text == "Telegram: enter a phone number. It stays in the secret store."@,
        s.telegram_authorized ==> s.telegram_ended().status_text
            == "Your Telegram session ended. Sign in again."@,
{
    reveal(SnapshotModel::in_phase);
    reveal(SnapshotModel::at_phone_step);
    reveal(SnapshotModel::at_code_step);
    reveal(SnapshotModel::at_password_step);
    reveal(SnapshotModel::entering_phase);
    reveal(SnapshotModel::login_ready);
    reveal(SnapshotModel::telegram_ended);
}

/// The name of a moved folder stands whole in its notice.
pub proof fn law_moved_folder_is_named(folder: Text)
    ensures
        reset_notice(folder)
            == "Telegram data on this device could not be opened. It was moved to \""@ + folder
            + "\" in the thinwire data folder and kept. Sign in again."@,
{
}

/// A sign-in that cannot start says why: the keychain failed, is still read, or
/// holds no credentials. One that starts says that it connects.
pub proof fn law_sign_in_says_why_it_waits(s: SnapshotModel, store: StoreModel)
    ensures
        store.phase == AttachPhase::ReadFailed ==> s.opening_telegram(store).error == Some(
            ErrorModel {
                happened: "Telegram sign-in did not start."@,
                why:
                    "The keychain could not be read, so thinwire does not know your saved sign-in."@,
                next: "Unlock the keychain, then press Try again."@,
            },
        ),
        store.phase == AttachPhase::Detached || store.phase == AttachPhase::Attaching
            ==> s.opening_telegram(store).status_text
            == "Reading the keychain. Try again in a moment."@,
        store.settled() && s.has_api(store) ==> s.opening_telegram(store).status_text
            == "Connecting to Telegram…"@,
        s.telegram_authorized ==> s.cancelling().status_text == "Telegram is ready."@,
        !s.telegram_authorized ==> s.cancelling().status_text == "Account linking cancelled."@,
{
    reveal(SnapshotModel::opening_telegram);
    reveal(SnapshotModel::cancelling);
}

/// A closed or restarted login form leaves nothing behind: no note, no reason of
/// a refusal, and no word of where a code went.
pub proof fn law_closed_form_leaves_no_notes(s: SnapshotModel, store: StoreModel)
    ensures
        s.cancelling().auth_notice.is_none() && s.cancelling().auth_rejection.is_none()
            && s.cancelling().code_via.is_none(),
        store.settled() ==> s.opening_telegram(store).auth_notice.is_none()
            && s.opening_telegram(store).auth_rejection.is_none() && s.opening_telegram(
            store,
        ).code_via.is_none(),
        !s.telegram_authorized ==> s.opening_override(store).auth_notice.is_none()
            && s.opening_override(store).auth_rejection.is_none() && s.opening_override(
            store,
        ).code_via.is_none(),
        s.auth == AuthScreen::TelegramCode ==> s.changing_number().code_via.is_none()
            && s.changing_number().auth_rejection.is_none(),
{
    reveal(SnapshotModel::cancelling);
    reveal(SnapshotModel::opening_telegram);
    reveal(SnapshotModel::opening_override);
    reveal(SnapshotModel::at_api_form);
    reveal(SnapshotModel::changing_number);
}

/// What a refused login step says, and what to do: each reason has its own
/// words. A pause names whole minutes, and one minute is one.
pub proof fn law_refusals_say_what_to_do(seconds: u32, code: i32)
    ensures
        login_error(Some(TelegramAuthError::PhoneInvalid)).happened
            == "Telegram did not accept the phone number."@,
        login_error(Some(TelegramAuthError::PhoneInvalid)).next
            == "Check the number. Use + and the country code."@,
        login_error(Some(TelegramAuthError::CodeInvalid)).happened
            == "Telegram did not accept the code."@,
        login_error(Some(TelegramAuthError::CodeInvalid)).next == "Type it again."@,
        login_error(Some(TelegramAuthError::CodeExpired)).happened
            == "Telegram did not accept the code."@,
        login_error(Some(TelegramAuthError::PasswordInvalid)).happened
            == "Telegram did not accept the password."@,
        login_error(Some(TelegramAuthError::PasswordInvalid)).next == "Type it again."@,
        login_error(Some(TelegramAuthError::FloodWait { seconds })).happened
            == "Telegram paused the login."@,
        login_error(Some(TelegramAuthError::FloodWait { seconds })).why == "Too many tries."@,
        seconds <= 60 ==> login_error(Some(TelegramAuthError::FloodWait { seconds })).next
            == "Wait "@ + decimal(1) + " minute"@ + ", then try again."@,
        seconds > 60 ==> login_error(Some(TelegramAuthError::FloodWait { seconds })).next
            == "Wait "@ + decimal(wait_minutes(seconds)) + " minutes"@ + ", then try again."@,
        login_error(Some(TelegramAuthError::ClientSetup { code })).happened
            == "Telegram could not start."@,
        login_error(Some(TelegramAuthError::ClientSetup { code })).why
            == "The local Telegram data could not be opened (error "@ + signed_decimal(code as int)
            + ")."@,
        login_error(Some(TelegramAuthError::Other { code })).happened
            == "Telegram login did not advance."@,
        login_error(Some(TelegramAuthError::Other { code })).next
            == "Correct the field, or press Cancel."@,
        login_error(None).next == "Correct the field, or press Cancel."@,
{
}

/// The pairing actions say where the pairing stands.
pub proof fn law_pairings_say_where_they_stand(s: SnapshotModel)
    ensures
        s.cancelling_whatsapp().status_text == "WhatsApp pairing cancelled."@,
        s.whatsapp_screen == WhatsAppScreen::RiskGate ==> s.accepting_whatsapp_risk().status_text
            == "WhatsApp ban gate accepted. Pairing has not started."@,
        s.whatsapp_screen == WhatsAppScreen::Pair && s.marks.contains(Mark::WhatsAppRiskAccepted)
            && !s.whatsapp_started ==> s.pairing_whatsapp().status_text
            == "WhatsApp pairing requested."@,
        s.cancelling_signal().status_text == "Signal linking cancelled."@,
        s.signal_screen == SignalScreen::Notice ==> s.accepting_signal_notice().status_text
            == "Signal local-build notice accepted. Linking has not started."@,
        s.signal_screen == SignalScreen::Link && s.marks.contains(Mark::SignalNoticeAccepted)
            && !s.signal_started ==> s.linking_signal().status_text
            == "Signal linking requested."@,
{
    reveal(SnapshotModel::cancelling_whatsapp);
    reveal(SnapshotModel::accepting_whatsapp_risk);
    reveal(SnapshotModel::pairing_whatsapp);
    reveal(SnapshotModel::cancelling_signal);
    reveal(SnapshotModel::accepting_signal_notice);
    reveal(SnapshotModel::linking_signal);
}

/// A chat that is opened before its protocol is linked waits for the link, and
/// nothing is asked for until then.
pub proof fn law_unlinked_chat_waits(s: SnapshotModel, id: Text)
    requires
        s.selected_conversation == Some(id),
        !s.linked(s.selected_protocol),
    ensures
        s.opening().open_on_link == Some((s.selected_protocol, id)),
        s.opening().pending == s.pending,
        s.opening().history_loading == s.history_loading,
{
    reveal(SnapshotModel::opening);
}

} // verus!
