//! The frontend-independent core of a small multi-protocol messenger.
//!
//! A frontend sends [`intent::Intent`] values to [`app_core::Core`] and draws
//! its [`view::CoreView`]. The core owns the state, the secret store, and the
//! settings. It never does I/O: each call says in its effects what a host does
//! next.

pub mod app_core;
pub mod clock;
pub mod core_laws;
pub mod demo;
pub mod demo_laws;
pub mod flush;
pub mod intent;
pub mod keychain;
pub mod keyed;
pub mod lists;
pub mod notifier;
pub mod notify;
pub mod protocol;
pub mod secret_text;
pub mod secrets;
pub mod sends;
pub mod settings;
pub mod signal;
pub mod stage;
pub mod state;
pub mod store_laws;
pub mod text;
pub mod theme;
pub mod view;
