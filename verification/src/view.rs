//! Read-only view of the core for one frame or one redraw.

use crate::app_core::Core;
use crate::clock::{Clock, ViewNow, now_of};
use crate::secrets::{Persistence, SecretStore};
use crate::settings::Settings;
use crate::state::Snapshot;
use crate::theme::ThemeMode;
use vstd::prelude::*;

verus! {

/// Borrow of the core. A frontend reads it; changes go through an intent.
pub struct CoreView<'a> {
    pub state: &'a Snapshot,
    pub secrets: &'a SecretStore,
    pub settings: &'a Settings,
    pub clock: Clock,
}

impl<'a> CoreView<'a> {
    /// A view over these parts, with the system clock.
    pub fn from_parts(
        state: &'a Snapshot,
        secrets: &'a SecretStore,
        settings: &'a Settings,
    ) -> (r: Self)
        ensures
            r == (CoreView { state, secrets, settings, clock: Clock::System }),
    {
        CoreView { state, secrets, settings, clock: Clock::System }
    }

    /// The same view with another clock.
    pub fn with_clock(self, clock: Clock) -> (r: Self)
        ensures
            r == (CoreView { clock, ..self }),
    {
        CoreView { state: self.state, secrets: self.secrets, settings: self.settings, clock }
    }

    /// Telegram API credentials exist: built in, or in the keychain.
    pub fn has_api_credentials(&self) -> (r: bool)
        ensures
            r == self.state@.has_api(self.secrets@),
    {
        self.state.has_api_credentials(self.secrets)
    }

    /// How long a sign-in lasts with the secret store in use.
    pub fn persistence(&self) -> (r: Persistence)
        ensures
            r == self.secrets@.lasts(),
    {
        self.secrets.persistence()
    }

    /// Now, in the zone of the clock. `system`: the Unix seconds of the system
    /// clock.
    pub fn now(&self, system: i64) -> (r: ViewNow)
        ensures
            r == now_of(self.clock, system),
    {
        self.clock.now(system)
    }

    /// The stored light or dark preference.
    pub fn theme(&self) -> (r: ThemeMode)
        ensures
            r == self.settings@.theme,
    {
        self.settings.theme()
    }
}

impl Core {
    /// The state for this redraw.
    pub fn view_at(&self, clock: Clock) -> (r: CoreView<'_>)
        ensures
            r.state@ == self@.state,
            r.secrets@ == self@.secrets,
            r.settings@ == self@.settings,
            r.clock == clock,
    {
        CoreView::from_parts(&self.state, &self.secrets, &self.settings).with_clock(clock)
    }
}

} // verus!
