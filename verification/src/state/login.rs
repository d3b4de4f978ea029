//! The Telegram login, the start-up resume, and the keychain screens.

use crate::intent::AuthField;
use crate::protocol::{
    AccountState, AdapterCommand, ProtocolId, TelegramAuthError, TelegramAuthPhase,
    TelegramAuthStep,
};
use crate::secrets::{SecretError, SecretKey, SecretStore, StoreModel};
use crate::state::model::SnapshotModel;
use crate::state::{
    AuthKey, AuthScreen, CenterView, CONNECTING_STATUS, KEYCHAIN_LOADING_STATUS, KEYCHAIN_OPENING,
    KEYCHAIN_SLOW_AFTER, KEYCHAIN_WAITING, Mark, RESUME_CONNECTING, Resume, SESSION_ENDED_NOTICE,
    Snapshot, auth_user_error, data_reset_notice, tdlib_compiled,
};
use crate::text::is_blank;
use vstd::prelude::*;
use vstd::string::*;

verus! {

/// Store both halves of the keychain's own Telegram API credentials.
fn persist_api(store: &mut SecretStore, api_id: &str, api_hash: &str) -> (r: Result<(), SecretError>)
    ensures
        r.is_ok(),
        final(store)@ == old(store)@.set(SecretKey::ApiId, api_id@).set(
            SecretKey::ApiHash,
            api_hash@,
        ),
{
    match store.set(SecretKey::ApiId, api_id) {
        Ok(()) => store.set(SecretKey::ApiHash, api_hash),
        Err(error) => Err(error),
    }
}

/// What a login typed has no part in the API credentials.
proof fn lemma_ephemeral_keeps_api(store: StoreModel)
    ensures
        store.without_ephemeral().has_api_override() == store.has_api_override(),
{
}

impl Snapshot {
    /// Telegram is signed in.
    pub fn telegram_ready(&self) -> (r: bool)
        ensures
            r == self@.telegram_authorized,
    {
        self.telegram_authorized
    }

    /// Add account is offered only while Telegram is not signed in: one
    /// Telegram account is supported.
    pub fn can_add_account(&self) -> (r: bool)
        ensures
            r == !self@.telegram_authorized,
    {
        !self.telegram_authorized
    }

    /// The submit button is enabled. The password step needs a password.
    pub fn can_submit_auth(&self) -> (r: bool)
        ensures
            r == (!self@.auth_busy && !(self@.auth == AuthScreen::Telegram2fa
                && self@.telegram_2fa.len() == 0)),
    {
        !self.auth_busy && !(self.auth == AuthScreen::Telegram2fa
            && self.telegram_2fa.as_str().is_empty())
    }

    /// Telegram API credentials exist: built in, or in the keychain.
    pub fn has_api_credentials(&self, store: &SecretStore) -> (r: bool)
        ensures
            r == self@.has_api(store@),
    {
        self.api_source.has_publisher() || (store.holds(SecretKey::ApiId) && store.holds(
            SecretKey::ApiHash,
        ))
    }

    /// Queue one login step. The host stamps the client that it belongs to.
    fn queue_telegram_step(&mut self, step: TelegramAuthStep)
        ensures
            final(self)@ == old(self)@.queue_step(step),
    {
        self.queue(AdapterCommand::TelegramAuth { step, epoch: 0 });
    }

    /// A login step runs.
    fn mark_auth_busy(&mut self, status: &str)
        ensures
            final(self)@ == old(self)@.busy(status@),
    {
        self.auth_busy = true;
        self.auth_rejection = None;
        self.error = None;
        self.status_text = status.to_owned();
    }

    /// Say that a login field is empty.
    fn missing_field(&mut self, name: &str)
        ensures
            final(self)@ == old(self)@.missing_field(name@),
    {
        let mut why = "The ".to_owned();
        why.append(name);
        why.append(" field is empty.");
        self.set_error(
            "Telegram login did not advance.",
            why.as_str(),
            "Fill the field, or press Cancel. Values are not logged.",
        );
    }

    /// Empty every login field and note.
    pub fn clear_secrets(&mut self)
        ensures
            final(self)@ == old(self)@.without_secrets(),
    {
        self.auth_notice = None;
        self.auth_rejection = None;
        self.code_via = None;
        self.telegram_api_id = String::new();
        self.telegram_api_hash = String::new();
        self.telegram_phone = String::new();
        self.telegram_code = String::new();
        self.telegram_2fa = String::new();
    }

    fn type_api_id(&mut self, text: String)
        ensures
            final(self)@ == (SnapshotModel { telegram_api_id: text@, ..old(self)@ }),
    {
        self.telegram_api_id = text;
    }

    fn type_api_hash(&mut self, text: String)
        ensures
            final(self)@ == (SnapshotModel { telegram_api_hash: text@, ..old(self)@ }),
    {
        self.telegram_api_hash = text;
    }

    fn type_phone(&mut self, text: String)
        ensures
            final(self)@ == (SnapshotModel { telegram_phone: text@, ..old(self)@ }),
    {
        self.telegram_phone = text;
    }

    fn type_code(&mut self, text: String)
        ensures
            final(self)@ == (SnapshotModel { telegram_code: text@, ..old(self)@ }),
    {
        self.telegram_code = text;
    }

    fn type_password(&mut self, text: String)
        ensures
            final(self)@ == (SnapshotModel { telegram_2fa: text@, ..old(self)@ }),
    {
        self.telegram_2fa = text;
    }

    /// New text in one login field.
    fn type_into(&mut self, field: AuthField, text: String)
        ensures
            final(self)@ == old(self)@.typing(field, text@),
    {
        match field {
            AuthField::ApiId => self.type_api_id(text),
            AuthField::ApiHash => self.type_api_hash(text),
            AuthField::Phone => self.type_phone(text),
            AuthField::Code => self.type_code(text),
            AuthField::Password => self.type_password(text),
        }
    }

    /// New text in one login field. Without a login form it is dropped.
    pub fn set_auth_field(&mut self, field: AuthField, text: String)
        ensures
            final(self)@ == old(self)@.with_field(field, text@),
    {
        proof {
            reveal(SnapshotModel::with_field);
        }
        if self.auth != AuthScreen::Idle {
            self.type_into(field, text);
        }
    }

    /// Start the client with no click when the keychain holds a saved session.
    /// Call it once per frame: it acts only after the keychain read settles,
    /// and only once.
    pub fn poll_resume(&mut self, store: &SecretStore, now: u64)
        ensures
            final(self)@ == old(self)@.polling(store@, now),
    {
        proof {
            reveal(SnapshotModel::polling);
        }
        let live = tdlib_compiled(self.build);
        self.see_keychain(store.read_failed(), store.attach_settled(), now);
        self.try_resume(store, live);
    }

    /// Note a failed keychain read, and when the wait for the read began.
    fn see_keychain(&mut self, failed: bool, settled: bool, now: u64)
        ensures
            final(self)@ == old(self)@.keychain_seen(failed, settled, now),
    {
        proof {
            reveal(SnapshotModel::keychain_seen);
        }
        if failed {
            self.marks.insert(Mark::KeychainFailed);
        } else {
            self.marks.remove(&Mark::KeychainFailed);
        }
        if !settled && self.keychain_wait_started.is_none() {
            self.keychain_wait_started = Some(now);
        }
    }

    /// A saved session can be resumed. `live`: the build holds the client.
    fn may_resume(&self, store: &SecretStore, live: bool) -> (r: bool)
        ensures
            r == self@.may_resume(store@, live),
    {
        live && store.holds(SecretKey::Session) && self.auth == AuthScreen::Idle
            && !self.telegram_authorized && self.has_api_credentials(store)
    }

    /// Resume a saved session once. `live`: the build holds the client.
    pub fn try_resume(&mut self, store: &SecretStore, live: bool)
        ensures
            final(self)@ == old(self)@.resuming(store@, live),
    {
        proof {
            reveal(SnapshotModel::resuming);
        }
        if self.resume == Resume::Waiting && store.attach_settled() {
            if self.may_resume(store, live) {
                self.resume = Resume::Connecting;
                self.status_text = RESUME_CONNECTING.to_owned();
                self.queue_telegram_step(TelegramAuthStep::ApiCredentials);
            } else {
                self.resume = Resume::Settled;
            }
        }
    }

    /// Copy under the spinner while the keychain read runs. After a second it
    /// asks the user to unlock the keychain.
    pub fn keychain_wait_text(&self, now: u64) -> (r: &'static str)
        ensures
            r@ == self@.wait_text(now),
    {
        match self.keychain_wait_started {
            Some(started) => if now >= started && now - started >= KEYCHAIN_SLOW_AFTER {
                KEYCHAIN_WAITING
            } else {
                KEYCHAIN_OPENING
            },
            None => KEYCHAIN_OPENING,
        }
    }

    /// Try again after a failed keychain read. The app starts the read.
    pub fn retry_keychain(&mut self)
        ensures
            final(self)@ == old(self)@.retrying_keychain(),
    {
        proof {
            reveal(SnapshotModel::retrying_keychain);
        }
        self.marks.insert(Mark::KeychainRetry);
        self.keychain_wait_started = None;
        self.error = None;
    }

    /// True once after Try again: read the keychain again.
    pub fn take_keychain_retry(&mut self) -> (r: bool)
        ensures
            r == old(self)@.marks.contains(Mark::KeychainRetry),
            final(self)@ == old(self)@.unmarked(Mark::KeychainRetry),
    {
        let taken = self.marks.contains(&Mark::KeychainRetry);
        self.marks.remove(&Mark::KeychainRetry);
        taken
    }

    /// Start Add account, while Telegram is not signed in.
    pub fn open_add_account(&mut self, store: &mut SecretStore)
        ensures
            final(self)@ == old(self)@.adding_account(old(store)@),
            final(store)@ == old(self)@.store_adding_account(old(store)@),
    {
        proof {
            reveal(SnapshotModel::adding_account);
        }
        if self.can_add_account() {
            self.open_telegram(store);
        }
    }

    /// The client starts: the phone step shows after it asks for the number.
    fn start_phone_login(&mut self)
        ensures
            final(self)@ == (SnapshotModel {
                auth: AuthScreen::TelegramConnecting,
                ..old(self)@
            }).queue_step(TelegramAuthStep::ApiCredentials).busy(CONNECTING_STATUS@),
    {
        self.auth = AuthScreen::TelegramConnecting;
        self.queue_telegram_step(TelegramAuthStep::ApiCredentials);
        self.mark_auth_busy(CONNECTING_STATUS);
    }

    /// Open the Telegram sign-in. Until the keychain read ends, a saved key
    /// looks missing, so nothing starts before that.
    pub fn open_telegram(&mut self, store: &mut SecretStore)
        ensures
            final(self)@ == old(self)@.opening_telegram(old(store)@),
            final(store)@ == old(self)@.store_opening_telegram(old(store)@),
    {
        proof {
            reveal(SnapshotModel::opening_telegram);
        }
        if store.read_failed() {
            self.set_error(
                "Telegram sign-in did not start.",
                "The keychain could not be read, so thinwire does not know your saved sign-in.",
                "Unlock the keychain, then press Try again.",
            );
            return ;
        }
        if !store.attach_settled() {
            self.status_text = KEYCHAIN_LOADING_STATUS.to_owned();
            return ;
        }
        self.clear_secrets();
        self.resume = Resume::Settled;
        store.clear_ephemeral();
        self.error = None;
        self.auth_busy = false;
        proof {
            lemma_ephemeral_keeps_api(old(store)@);
        }
        if self.has_api_credentials(store) {
            self.start_phone_login();
            return ;
        }
        self.auth = AuthScreen::NeedCredentials;
        self.status_text = if self.api_source.has_publisher() {
            "Telegram API credentials are missing from the keychain override. Set Advanced credentials or Cancel.".to_owned()
        } else {
            "Credentials missing. Official binaries inject TELEGRAM_API_ID / TELEGRAM_API_HASH at release time. Dev: rebuild with those env vars, or set a keychain override in Advanced.".to_owned()
        };
    }

    /// Show the API credential form with the stored override in it.
    fn show_api_form(&mut self, api_id: Option<String>, api_hash: Option<String>)
        ensures
            final(self)@ == old(self)@.at_api_form(api_id.deep_view(), api_hash.deep_view()),
    {
        proof {
            reveal(SnapshotModel::at_api_form);
        }
        self.clear_secrets();
        self.error = None;
        self.auth_busy = false;
        if let Some(text) = api_id {
            self.telegram_api_id = text;
        }
        if let Some(text) = api_hash {
            self.telegram_api_hash = text;
        }
        self.auth = AuthScreen::TelegramApi;
        self.status_text =
        "Advanced: custom Telegram API credentials. The keychain override wins over the publisher pair. Values are not logged.".to_owned();
    }

    /// Open the API credential override. It applies to a new client only, so
    /// it is offered only while Telegram is not signed in.
    pub fn open_api_override(&mut self, store: &SecretStore)
        ensures
            final(self)@ == old(self)@.opening_override(store@),
    {
        proof {
            reveal(SnapshotModel::opening_override);
        }
        if self.can_add_account() {
            let api_id = store.get_secret(SecretKey::ApiId);
            let api_hash = store.get_secret(SecretKey::ApiHash);
            self.show_api_form(api_id, api_hash);
        }
    }

    /// Leave the login flow and clear every typed field. A form over a live
    /// session closes the form only.
    pub fn cancel_auth(&mut self, store: &mut SecretStore)
        ensures
            final(self)@ == old(self)@.cancelling(),
            final(store)@ == old(store)@.without_ephemeral(),
    {
        proof {
            reveal(SnapshotModel::cancelling);
        }
        self.clear_secrets();
        self.resume = Resume::Settled;
        store.clear_ephemeral();
        self.auth = AuthScreen::Idle;
        self.auth_busy = false;
        self.error = None;
        if self.telegram_authorized {
            self.status_text = "Telegram is ready.".to_owned();
            return ;
        }
        self.status_text = "Account linking cancelled.".to_owned();
        self.queue(AdapterCommand::Disconnect { protocol: ProtocolId::Telegram });
    }

    /// Submit the API credential form.
    fn submit_api(&mut self, store: &mut SecretStore)
        requires
            !old(self).auth_busy,
            old(self).auth == AuthScreen::TelegramApi,
        ensures
            final(self)@ == old(self)@.advancing(),
            final(store)@ == old(self)@.store_advancing(old(store)@),
    {
        proof {
            reveal(SnapshotModel::advancing);
        }
        if is_blank(self.telegram_api_id.as_str()) {
            self.missing_field("api_id");
            return ;
        }
        if is_blank(self.telegram_api_hash.as_str()) {
            self.missing_field("api_hash");
            return ;
        }
        let stored = persist_api(
            store,
            self.telegram_api_id.as_str(),
            self.telegram_api_hash.as_str(),
        );
        match stored {
            Ok(()) => {
                self.marks.insert(Mark::KeychainFlush);
                self.queue_telegram_step(TelegramAuthStep::ApiCredentials);
                self.mark_auth_busy(
                    "Telegram: api credentials stored. Waiting for the next login step.",
                );
            },
            Err(error) => self.set_error(
                "Telegram credentials were not stored.",
                error.message.as_str(),
                "Cancel and try again. Values are not logged.",
            ),
        }
    }

    /// Submit the current login step.
    pub fn advance_telegram(&mut self, store: &mut SecretStore)
        ensures
            final(self)@ == old(self)@.advancing(),
            final(store)@ == old(self)@.store_advancing(old(store)@),
    {
        proof {
            reveal(SnapshotModel::advancing);
        }
        if self.auth_busy {
            return ;
        }
        match self.auth {
            AuthScreen::TelegramApi => self.submit_api(store),
            AuthScreen::TelegramConnecting => {
                // Try again after a failed start: close the old client, then
                // start a new one.
                self.queue(AdapterCommand::Disconnect { protocol: ProtocolId::Telegram });
                self.queue_telegram_step(TelegramAuthStep::ApiCredentials);
                self.mark_auth_busy(CONNECTING_STATUS);
            },
            AuthScreen::TelegramPhone => {
                if is_blank(self.telegram_phone.as_str()) {
                    self.missing_field("phone number");
                    return ;
                }
                store.set_secret(SecretKey::Phone, self.telegram_phone.as_str());
                self.queue_telegram_step(TelegramAuthStep::Phone);
                self.mark_auth_busy("Telegram: phone stored. Waiting for a login code.");
            },
            AuthScreen::TelegramCode => {
                if is_blank(self.telegram_code.as_str()) {
                    self.missing_field("login code");
                    return ;
                }
                store.set_secret(SecretKey::Code, self.telegram_code.as_str());
                self.queue_telegram_step(TelegramAuthStep::Code);
                self.mark_auth_busy("Telegram: login code stored. Waiting for the next step.");
            },
            AuthScreen::Telegram2fa => {
                if self.telegram_2fa.as_str().is_empty() {
                    return ;
                }
                store.set_secret(SecretKey::Password, self.telegram_2fa.as_str());
                self.queue_telegram_step(TelegramAuthStep::TwoFactor);
                self.mark_auth_busy("Telegram: password sent. Waiting for Telegram.");
            },
            AuthScreen::NeedCredentials => {},
            AuthScreen::Idle => {},
        }
    }

    /// Enter submits the current login step. Escape cancels the login.
    pub fn auth_key(&mut self, key: AuthKey, store: &mut SecretStore)
        ensures
            final(self)@ == old(self)@.login_key(key, old(store)@),
            final(store)@ == old(self)@.store_login_key(key, old(store)@),
    {
        proof {
            reveal(SnapshotModel::login_key);
        }
        if self.auth == AuthScreen::Idle {
            return ;
        }
        match key {
            AuthKey::Escape => self.cancel_auth(store),
            AuthKey::Enter => if self.auth == AuthScreen::NeedCredentials {
                self.open_api_override(store);
            } else {
                self.advance_telegram(store);
            },
        }
    }

    /// Enter runs the main button of the center screen. Escape cancels a
    /// login. Compose handles its own Enter, so the thread view ignores keys.
    pub fn center_key(&mut self, key: AuthKey, store: &mut SecretStore)
        ensures
            final(self)@ == old(self)@.screen_key(key, old(store)@),
            final(store)@ == old(self)@.store_screen_key(key, old(store)@),
    {
        proof {
            reveal(SnapshotModel::screen_key);
        }
        match self.center_view() {
            CenterView::FirstRun => if key == AuthKey::Enter {
                self.open_add_account(store);
            },
            CenterView::Auth => self.auth_key(key, store),
            CenterView::KeychainFailed => if key == AuthKey::Enter {
                self.retry_keychain();
            },
            CenterView::Resuming { .. } => {},
            CenterView::Thread => {},
        }
    }

    /// Back from the code step to the phone step. No command: the next phone
    /// submit moves the client to the new number.
    pub fn change_number(&mut self)
        ensures
            final(self)@ == old(self)@.changing_number(),
    {
        proof {
            reveal(SnapshotModel::changing_number);
        }
        if self.auth != AuthScreen::TelegramCode {
            return ;
        }
        self.auth = AuthScreen::TelegramPhone;
        self.auth_busy = false;
        self.telegram_code = String::new();
        self.code_via = None;
        self.auth_rejection = None;
        self.error = None;
        self.status_text = "Telegram: enter a phone number.".to_owned();
    }

    /// Ask Telegram for a new code. The code step stays on screen.
    pub fn resend_code(&mut self)
        ensures
            final(self)@ == old(self)@.resending_code(),
    {
        proof {
            reveal(SnapshotModel::resending_code);
        }
        if self.auth != AuthScreen::TelegramCode || self.auth_busy {
            return ;
        }
        self.telegram_code = String::new();
        self.queue_telegram_step(TelegramAuthStep::ResendCode);
        self.mark_auth_busy("Telegram: asking for a new code.");
    }

    /// Set the link state of the first account row of a protocol.
    pub(crate) fn put_state(&mut self, protocol: ProtocolId, state: AccountState)
        ensures
            final(self)@ == old(self)@.with_state(protocol, state),
    {
        if let Some(i) = self.account_at(protocol) {
            let ghost before = self@.accounts;
            let ghost row = self.accounts@[i as int];
            self.accounts[i].state = state;
            proof {
                assert(before[i as int] == row.deep_view());
                assert(self@.accounts =~= before.update(
                    i as int,
                    crate::state::model::AccountModel { state, ..before[i as int] },
                ));
            }
        }
    }

    /// Telegram is signed in: its session starts and its chat list loads.
    fn start_telegram_session(&mut self)
        ensures
            final(self)@ == old(self)@.telegram_started(),
    {
        proof {
            reveal(SnapshotModel::telegram_started);
        }
        self.clear_secrets();
        self.put_state(ProtocolId::Telegram, AccountState::Linked);
        self.sessions.insert(ProtocolId::Telegram);
        self.telegram_authorized = true;
        self.chat_list_loading.insert(ProtocolId::Telegram);
    }

    /// The login reached Ready: Telegram is linked, and its inbox shows unless
    /// the user looks at another session.
    fn finish_telegram_ready(&mut self)
        ensures
            final(self)@ == old(self)@.login_ready(),
    {
        proof {
            reveal(SnapshotModel::login_ready);
        }
        self.start_telegram_session();
        let keep = self.selected_protocol != ProtocolId::Telegram && self.has_session(
            self.selected_protocol,
        );
        if !keep {
            self.select_protocol(ProtocolId::Telegram);
        }
        self.auth = AuthScreen::Idle;
        self.auth_busy = false;
        self.error = None;
        self.status_text = "Telegram is ready. Loading the chat list.".to_owned();
    }

    /// The build has no live client: the form is discarded.
    fn finish_telegram_unavailable(&mut self)
        ensures
            final(self)@ == old(self)@.login_unavailable(),
    {
        proof {
            reveal(SnapshotModel::login_unavailable);
        }
        self.clear_secrets();
        self.put_state(ProtocolId::Telegram, AccountState::Unlinked);
        self.sessions.remove(&ProtocolId::Telegram);
        self.auth = AuthScreen::Idle;
        self.auth_busy = false;
        self.telegram_authorized = false;
        self.error = None;
        self.status_text =
        "TDLib unavailable in this build. No live Telegram session was opened; form fields were discarded.".to_owned();
    }

    /// What every login phase changes.
    fn enter_phase(&mut self, phase: TelegramAuthPhase)
        ensures
            final(self)@ == old(self)@.entering_phase(phase),
    {
        proof {
            reveal(SnapshotModel::entering_phase);
        }
        self.auth_busy = false;
        if phase != TelegramAuthPhase::Failed {
            self.error = None;
            self.auth_rejection = None;
        }
        self.resume = Resume::Settled;
        self.auth_notice = None;
        if phase == TelegramAuthPhase::NeedPhone {
            // Back at the phone step: an old code or password is stale.
            self.telegram_code = String::new();
            self.telegram_2fa = String::new();
        }
    }

    /// Show the phone step. `resuming`: a saved session no longer works.
    fn show_phone_step(&mut self, resuming: bool)
        ensures
            final(self)@ == old(self)@.at_phone_step(resuming),
    {
        proof {
            reveal(SnapshotModel::at_phone_step);
        }
        self.auth = AuthScreen::TelegramPhone;
        match self.data_reset.take() {
            Some(folder) => {
                let notice = data_reset_notice(folder.as_str());
                self.status_text = notice.clone();
                self.auth_notice = Some(notice);
            },
            None => {
                if resuming {
                    self.auth_notice = Some(SESSION_ENDED_NOTICE.to_owned());
                    self.status_text = SESSION_ENDED_NOTICE.to_owned();
                } else {
                    self.status_text =
                    "Telegram: enter a phone number. It stays in the secret store.".to_owned();
                }
            },
        }
    }

    /// Show the code step.
    fn show_code_step(&mut self)
        ensures
            final(self)@ == old(self)@.at_code_step(),
    {
        proof {
            reveal(SnapshotModel::at_code_step);
        }
        self.auth = AuthScreen::TelegramCode;
        self.status_text =
        "Telegram: enter the login code. It stays in the secret store.".to_owned();
    }

    /// Show the password step.
    fn show_password_step(&mut self)
        ensures
            final(self)@ == old(self)@.at_password_step(),
    {
        proof {
            reveal(SnapshotModel::at_password_step);
        }
        self.auth = AuthScreen::Telegram2fa;
        self.status_text = "Telegram: enter your Telegram password.".to_owned();
    }

    /// Telegram refused the last step. After a failed client set-up no step
    /// can run: the form closes, and so does the client.
    fn refuse_step(&mut self)
        ensures
            final(self)@ == old(self)@.step_refused(),
    {
        proof {
            reveal(SnapshotModel::step_refused);
        }
        self.error = Some(auth_user_error(self.auth_rejection));
        let dead = match self.auth_rejection {
            Some(TelegramAuthError::ClientSetup { .. }) => true,
            _ => false,
        };
        if dead {
            self.auth = AuthScreen::Idle;
            self.clear_secrets();
            self.queue(AdapterCommand::Disconnect { protocol: ProtocolId::Telegram });
        }
    }

    /// The login reached a phase.
    pub(crate) fn apply_telegram_phase(&mut self, phase: TelegramAuthPhase)
        ensures
            final(self)@ == old(self)@.in_phase(phase),
    {
        proof {
            reveal(SnapshotModel::in_phase);
        }
        let resuming = self.resume == Resume::Connecting;
        self.enter_phase(phase);
        match phase {
            TelegramAuthPhase::NeedPhone => self.show_phone_step(resuming),
            TelegramAuthPhase::NeedCode => self.show_code_step(),
            TelegramAuthPhase::NeedTwoFactor => self.show_password_step(),
            TelegramAuthPhase::Ready => self.finish_telegram_ready(),
            TelegramAuthPhase::Unavailable => self.finish_telegram_unavailable(),
            TelegramAuthPhase::Failed => self.refuse_step(),
        }
    }

    /// The live session ended elsewhere. Drop the old inbox, then start a new
    /// client: the next phone step says that the session ended.
    pub(crate) fn end_telegram_session(&mut self)
        ensures
            final(self)@ == old(self)@.telegram_ended(),
    {
        proof {
            reveal(SnapshotModel::telegram_ended);
        }
        if !self.telegram_authorized {
            return ;
        }
        self.telegram_authorized = false;
        self.end_session(ProtocolId::Telegram);
        self.auth = AuthScreen::Idle;
        self.auth_busy = false;
        self.error = None;
        self.resume = Resume::Connecting;
        self.queue_telegram_step(TelegramAuthStep::ApiCredentials);
        self.status_text = SESSION_ENDED_NOTICE.to_owned();
    }
}

} // verus!
