//! The secret store and the keychain worker's decisions.

use thinwire_core::flush::{AfterRead, FlushReply, FlushStep, TellAfterFlush};
use thinwire_core::keychain::{
    AttachError, AttachTurn, BusSource, IoKind, KeyringKind, LinuxFallback, LinuxNext,
    ServiceFault, StoreFault, add_read, after_fallback_store, after_primary_store, linux_fallback,
    map_keyring_error, no_bus_at_connect,
};
use thinwire_core::secrets::{
    AfterProbe, AttachPhase, DISCORD_SECRET_BOT_TOKEN, FlushAction, FlushNext, OsBackend,
    Persistence, SecretError, SecretKey, SecretStore, SlackSecretKey, TDLIB_FOLDER,
    TDLIB_KEYUTILS_FOLDER, linux_backends,
};

fn pairs(os: &[(SecretKey, &str)]) -> Vec<(SecretKey, String)> {
    os.iter()
        .map(|(key, value)| (*key, (*value).to_string()))
        .collect()
}

fn ready_attach(store: &mut SecretStore, os: &[(SecretKey, &str)]) -> bool {
    store.finish_ready(&pairs(os), None)
}

fn finish_in_flight_flush(store: &mut SecretStore) {
    store.flush_in_flight = false;
    store.flush_pending = false;
}

#[test]
fn memory_round_trip_does_not_leak_in_debug() {
    let mut store = SecretStore::memory();
    store.set(SecretKey::ApiId, "  12345  ").expect("set id");
    store
        .set(SecretKey::ApiHash, "super-secret-hash")
        .expect("set hash");
    store
        .set(SecretKey::Session, "super-secret-session")
        .expect("set session");
    assert_eq!(
        store.get(SecretKey::ApiId).expect("get id").as_deref(),
        Some("12345")
    );
    let debug = store.debug_text();
    assert!(debug.contains("memory"));
    assert!(debug.contains("<redacted>"));
    assert!(!debug.contains("12345"));
    assert!(!debug.contains("super-secret-hash"));
    assert!(!debug.contains("super-secret-session"));
    store.delete(SecretKey::ApiHash).expect("delete hash");
    assert_eq!(store.get(SecretKey::ApiHash).expect("get hash"), None);
}

#[test]
fn discord_hydrate_hook_waits_until_a_token_is_stored() {
    let mut store = SecretStore::blank(AttachPhase::Detached);
    assert!(!store.on_discord_token_hydrated());
    store.store_hydrated_discord_token(Ok(None));
    assert!(!store.signal_discord_hydrated());
}

#[test]
fn discord_hydrate_hook_fires_after_the_token_is_stored() {
    let mut store = SecretStore::blank(AttachPhase::Detached);
    assert!(!store.on_discord_token_hydrated());
    store.store_hydrated_discord_token(Ok(Some("fixture-bot-token".into())));
    assert!(store.signal_discord_hydrated());
    assert!(!store.signal_discord_hydrated(), "the hook runs once");
    let debug = store.debug_text();
    assert!(!debug.contains("fixture-bot-token"));
}

#[test]
fn discord_hydrate_hook_fires_when_registered_after_attach() {
    let mut store = SecretStore::blank(AttachPhase::Detached);
    store.store_hydrated_discord_token(Ok(Some("fixture-bot-token".into())));
    assert!(!store.signal_discord_hydrated(), "nobody waits yet");
    assert!(store.on_discord_token_hydrated());
    assert!(!store.debug_text().contains("fixture-bot-token"));
}

#[test]
fn memory_only_store_does_not_emit_a_discord_hydrate_hook() {
    let mut store = SecretStore::memory();
    store
        .set_discord_bot_token("fixture-bot-token")
        .expect("memory token");
    assert!(!store.on_discord_token_hydrated());
}

#[test]
fn discord_bot_token_stays_in_memory_and_out_of_debug() {
    let mut store = SecretStore::memory();
    store
        .set_discord_bot_token("  fixture-bot-token  ")
        .expect("set");
    assert_eq!(
        store.discord_bot_token().expect("get").as_deref(),
        Some("fixture-bot-token")
    );
    store.set_discord_bot_token(" ").expect("clear");
    assert_eq!(store.discord_bot_token().expect("cleared"), None);
    store
        .set_discord_bot_token("fixture-bot-token")
        .expect("set again");
    let debug = store.debug_text();
    assert!(debug.contains("<redacted>"));
    assert!(!debug.contains("fixture-bot-token"));
    assert_eq!(DISCORD_SECRET_BOT_TOKEN, "discord.bot_token");
}

#[test]
fn slack_install_stays_in_memory_and_out_of_debug() {
    let mut store = SecretStore::memory();
    store.set_slack(SlackSecretKey::BotToken, "  xoxb-fixture  ");
    store.set_slack(SlackSecretKey::TeamId, "T1");
    store.set_slack(SlackSecretKey::AppId, "A1");
    store.set_slack(SlackSecretKey::OAuthState, "one-time");
    assert_eq!(
        store.slack_secret(SlackSecretKey::BotToken).as_deref(),
        Some("xoxb-fixture")
    );
    assert_eq!(
        store.slack_secret(SlackSecretKey::OAuthState).as_deref(),
        Some("one-time")
    );
    store.set_slack(SlackSecretKey::BotToken, " ");
    assert_eq!(store.slack_secret(SlackSecretKey::BotToken), None);
    let shown = store.debug_text();
    assert!(!shown.contains("xoxb-fixture"));
    assert!(!shown.contains("one-time"));
    assert!(!SlackSecretKey::OAuthState.persist_to_os());
    assert!(SlackSecretKey::BotToken.persist_to_os());
    assert_eq!(store.request_flush(), FlushAction::Ignore);
}

#[test]
fn a_failed_slack_flush_requeues_every_unwritten_key() {
    let mut store = SecretStore::blank(AttachPhase::Ready);
    let pending = vec![
        SlackSecretKey::BotToken,
        SlackSecretKey::TeamId,
        SlackSecretKey::ClientId,
    ];
    store.requeue_slack(&pending);
    assert!(store.slack_dirty.contains(&SlackSecretKey::BotToken));
    assert!(store.slack_dirty.contains(&SlackSecretKey::TeamId));
    assert!(store.slack_dirty.contains(&SlackSecretKey::ClientId));
}

#[test]
fn a_failed_slack_keychain_read_leaves_attach_unsettled() {
    let mut store = SecretStore::blank(AttachPhase::Attaching);
    assert!(!store.on_slack_token_hydrated());
    let turn = store.store_probed_secrets(
        OsBackend::SecretService,
        Ok(pairs(&[(SecretKey::Session, "saved-session")])),
        Ok(None),
        Err(SecretError::new("OS keychain: platform failure")),
    );
    assert!(!turn.flush);
    assert!(!turn.signal, "the reconnect stays waiting");
    assert_eq!(store.phase, AttachPhase::ReadFailed);
    assert!(store.read_failed());
    assert!(!store.attach_settled());
    assert_eq!(store.slack_secret(SlackSecretKey::BotToken), None);
    assert_eq!(store.get(SecretKey::Session).expect("get"), None);

    let turn = store.store_probed_secrets(
        OsBackend::SecretService,
        Ok(pairs(&[(SecretKey::Session, "saved-session")])),
        Ok(None),
        Ok(vec![(SlackSecretKey::BotToken, "xoxb-fixture".to_string())]),
    );
    assert!(turn.signal);
    assert!(store.attach_settled());
    assert!(store.signal_slack_hydrated());
    assert_eq!(
        store.slack_secret(SlackSecretKey::BotToken).as_deref(),
        Some("xoxb-fixture")
    );
}

#[test]
fn ephemeral_keys_are_memory_only() {
    let mut store = SecretStore::memory();
    store.set(SecretKey::Phone, "+15551234567").expect("phone");
    store.set(SecretKey::Code, "12345").expect("code");
    store.set(SecretKey::Password, "2fa-secret").expect("2fa");
    assert!(!SecretKey::Phone.persist_to_os());
    assert!(!SecretKey::Code.persist_to_os());
    assert!(!SecretKey::Password.persist_to_os());
    assert_eq!(store.request_flush(), FlushAction::Ignore);
    let debug = store.debug_text();
    assert!(!debug.contains("+15551234567"));
    assert!(!debug.contains("12345"));
    assert!(!debug.contains("2fa-secret"));
}

#[test]
fn empty_value_deletes_key() {
    let mut store = SecretStore::memory();
    store.set(SecretKey::Session, "keep").expect("set");
    store.set(SecretKey::Session, "  ").expect("clear");
    assert_eq!(store.get(SecretKey::Session).expect("get"), None);
}

#[test]
fn only_a_memory_only_store_asks_for_a_throwaway_tdlib_folder() {
    assert!(!SecretStore::memory().persists());
    let mut ready = SecretStore::blank(AttachPhase::Detached);
    assert!(ready.persists(), "loading counts as saved");
    ready_attach(&mut ready, &[]);
    ready.os_backend = Some(OsBackend::KernelKeyring);
    assert!(
        ready.persists(),
        "keyutils keeps the key until restart; the stale-folder move covers that"
    );
}

/// What a keychain worker reads off an error of the keychain crates.
fn service_fault(error: &keyring_core::Error) -> ServiceFault {
    let keyring_core::Error::PlatformFailure(inner) = error else {
        return ServiceFault::NotTheService;
    };
    match inner.downcast_ref::<secret_service::Error>() {
        Some(secret_service::Error::Unavailable) => ServiceFault::Unavailable,
        Some(secret_service::Error::Zbus(zbus)) => ServiceFault::Bus {
            sources: bus_sources(zbus),
        },
        Some(_) => ServiceFault::Service,
        None => ServiceFault::NotTheService,
    }
}

fn bus_sources(error: &(dyn std::error::Error + 'static)) -> Vec<BusSource> {
    let mut sources = Vec::new();
    let mut next = error.source();
    while let Some(source) = next {
        let io = source.downcast_ref::<std::io::Error>().or_else(|| {
            source
                .downcast_ref::<std::sync::Arc<std::io::Error>>()
                .map(AsRef::as_ref)
        });
        sources.push(match io.map(std::io::Error::kind) {
            Some(std::io::ErrorKind::NotFound) => BusSource::Io(IoKind::NotFound),
            Some(std::io::ErrorKind::ConnectionRefused) => {
                BusSource::Io(IoKind::ConnectionRefused)
            }
            Some(_) => BusSource::Io(IoKind::Other),
            None => BusSource::Other,
        });
        next = source.source();
    }
    sources
}

#[test]
fn only_a_missing_secret_service_falls_back_to_keyutils() {
    let absent =
        keyring_core::Error::PlatformFailure(Box::new(secret_service::Error::Unavailable));
    assert_eq!(
        linux_fallback(&service_fault(&absent)),
        LinuxFallback::UseKeyutils
    );
    for failing in [
        keyring_core::Error::NoStorageAccess(Box::new(secret_service::Error::Locked)),
        keyring_core::Error::NoStorageAccess(Box::new(secret_service::Error::Prompt)),
        keyring_core::Error::PlatformFailure(Box::new(
            secret_service::Error::PromptDisconnected,
        )),
        keyring_core::Error::PlatformFailure(Box::new(std::io::Error::new(
            std::io::ErrorKind::TimedOut,
            "D-Bus call timed out",
        ))),
        keyring_core::Error::NoEntry,
    ] {
        assert_eq!(
            linux_fallback(&service_fault(&failing)),
            LinuxFallback::ReadFailed,
            "{failing:?} must not look like missing keys"
        );
        let fault = StoreFault {
            kind: KeyringKind::PlatformFailure,
            service: service_fault(&failing),
        };
        assert!(
            matches!(
                after_primary_store(Err(fault)),
                LinuxNext::Fail(AttachError::ReadFailed(_))
            ),
            "a failing Secret Service never reaches keyutils"
        );
    }
}

#[test]
fn a_bus_that_is_not_there_falls_back_to_keyutils() {
    for (kind, missing) in [
        (std::io::ErrorKind::NotFound, true),
        (std::io::ErrorKind::ConnectionRefused, true),
        (std::io::ErrorKind::BrokenPipe, false),
        (std::io::ErrorKind::TimedOut, false),
    ] {
        let io = std::io::Error::new(kind, "bus");
        let bus = zbus::Error::InputOutput(std::sync::Arc::new(io));
        let error =
            keyring_core::Error::PlatformFailure(Box::new(secret_service::Error::Zbus(bus)));
        let expected = if missing {
            LinuxFallback::UseKeyutils
        } else {
            LinuxFallback::ReadFailed
        };
        assert_eq!(linux_fallback(&service_fault(&error)), expected, "{kind:?}");
    }
    assert!(!no_bus_at_connect(&vec![]));
    assert!(!no_bus_at_connect(&vec![
        BusSource::Io(IoKind::Other),
        BusSource::Io(IoKind::NotFound)
    ]));
    assert!(no_bus_at_connect(&vec![
        BusSource::Other,
        BusSource::Io(IoKind::NotFound)
    ]));
}

#[test]
fn the_linux_stores_are_tried_in_order() {
    assert!(matches!(
        after_primary_store(Ok(())),
        LinuxNext::Use(OsBackend::SecretService)
    ));
    let absent = StoreFault {
        kind: KeyringKind::PlatformFailure,
        service: ServiceFault::Unavailable,
    };
    assert!(matches!(
        after_primary_store(Err(absent)),
        LinuxNext::Try(OsBackend::KernelKeyring)
    ));
    assert!(matches!(
        after_fallback_store(Ok(())),
        Ok(OsBackend::KernelKeyring)
    ));
    let Err(AttachError::Absent(error)) = after_fallback_store(Err(KeyringKind::NoStorageAccess))
    else {
        panic!("absent");
    };
    assert_eq!(error.to_text(), "OS keychain: no storage access");
    let failed = AttachError::ReadFailed(SecretError::new("OS keychain: locked"));
    assert_eq!(failed.into_secret_error().to_text(), "OS keychain: locked");
}

#[test]
fn a_keyring_error_names_its_kind_only() {
    for (kind, text) in [
        (KeyringKind::NoEntry, "OS keychain: not found"),
        (KeyringKind::NoStorageAccess, "OS keychain: no storage access"),
        (KeyringKind::PlatformFailure, "OS keychain: platform failure"),
        (KeyringKind::TooLong, "OS keychain: value too long"),
        (KeyringKind::Invalid, "OS keychain: invalid attribute"),
        (KeyringKind::Ambiguous, "OS keychain: ambiguous entry"),
        (KeyringKind::NoDefaultStore, "OS keychain: no default store"),
        (
            KeyringKind::NotSupportedByStore,
            "OS keychain: unsupported by store",
        ),
        (KeyringKind::Other, "OS keychain: keychain error"),
    ] {
        assert_eq!(map_keyring_error(kind).to_text(), text);
    }
}

#[test]
fn a_part_of_the_keys_is_never_taken_for_all() {
    let mut found = Vec::new();
    assert!(add_read(&mut found, SecretKey::ApiId, Ok(Some("1".into()))).is_ok());
    assert!(add_read(&mut found, SecretKey::ApiHash, Ok(None)).is_ok());
    assert!(
        add_read(
            &mut found,
            SecretKey::Session,
            Err(SecretError::new("OS keychain: platform failure"))
        )
        .is_err()
    );
    assert_eq!(found, vec![(SecretKey::ApiId, "1".to_string())]);
}

#[test]
fn the_worker_attaches_in_turns() {
    let mut store = SecretStore::blank(AttachPhase::Detached);
    assert!(matches!(store.attach_os_keychain(false), AttachTurn::Probe));
    assert_eq!(store.phase, AttachPhase::Attaching);
    assert!(matches!(
        store.attach_probed(Ok(OsBackend::Native)),
        AttachTurn::Read {
            backend: OsBackend::Native
        }
    ));
    let failed = AttachError::ReadFailed(SecretError::new("OS keychain: platform failure"));
    assert!(matches!(store.attach_probed(Err(failed)), AttachTurn::Stop));
    assert!(store.read_failed());
    assert!(matches!(store.attach_os_keychain(false), AttachTurn::Probe));
    let absent = AttachError::Absent(SecretError::new("OS keychain: no default store"));
    assert!(matches!(
        store.attach_probed(Err(absent)),
        AttachTurn::Wake {
            discord: false,
            slack: false
        }
    ));
    assert_eq!(store.persistence(), Persistence::ThisSession);
    assert!(matches!(store.attach_os_keychain(false), AttachTurn::Stop));

    let mut asked = SecretStore::blank(AttachPhase::Detached);
    assert!(matches!(
        asked.attach_os_keychain(true),
        AttachTurn::Wake { .. }
    ));
    assert_eq!(asked.persistence(), Persistence::ThisSession);
}

#[test]
fn a_keyutils_store_uses_its_own_tdlib_folder() {
    let mut store = SecretStore::blank(AttachPhase::Detached);
    ready_attach(&mut store, &[]);
    store.os_backend = Some(OsBackend::SecretService);
    assert_eq!(store.tdlib_folder_name(), TDLIB_FOLDER);
    store.os_backend = Some(OsBackend::KernelKeyring);
    assert_eq!(
        store.tdlib_folder_name(),
        TDLIB_KEYUTILS_FOLDER,
        "a keyutils lost-key move can never touch the Secret Service session"
    );
    assert_ne!(TDLIB_FOLDER, TDLIB_KEYUTILS_FOLDER);
}

#[test]
fn linux_tries_secret_service_before_keyutils_and_only_keyutils_expires() {
    assert_eq!(
        linux_backends(),
        [OsBackend::SecretService, OsBackend::KernelKeyring]
    );
    assert!(OsBackend::SecretService.survives_restart());
    assert!(OsBackend::Native.survives_restart());
    assert!(!OsBackend::KernelKeyring.survives_restart());
    assert_eq!(
        SecretStore::memory().persistence(),
        Persistence::ThisSession
    );
    assert_eq!(
        SecretStore::blank(AttachPhase::Detached).persistence(),
        Persistence::Loading
    );
}

#[test]
fn ui_set_does_not_require_os_keychain() {
    let mut store = SecretStore::memory();
    assert_eq!(store.backend_name(), "memory");
    store.set(SecretKey::ApiId, "11111").expect("memory set");
    assert_eq!(
        store.get(SecretKey::ApiId).expect("get").as_deref(),
        Some("11111")
    );
}

#[test]
fn secret_error_display_has_no_value() {
    let err = SecretError::new("OS keychain: no storage access");
    assert!(!err.to_text().contains("api_hash"));
    assert!(!format!("{err:?}").contains("password"));
}

/// A settled, persisting vault with no database key. A hydrate error must not
/// satisfy it.
fn keyless_recovery_allowed(store: &SecretStore) -> bool {
    store.attach_settled()
        && store.persists()
        && store.get_secret(SecretKey::DbEncryption).is_none()
}

#[test]
fn hydrate_error_does_not_finish_ready_with_a_missing_db_key() {
    let mut store = SecretStore::blank(AttachPhase::Attaching);
    let partial = pairs(&[
        (SecretKey::Session, "saved-session"),
        (SecretKey::ApiId, "12345"),
    ]);
    let should_flush = store.settle_after_probe(OsBackend::SecretService, &partial, true);
    assert!(!should_flush);
    assert_eq!(store.phase, AttachPhase::ReadFailed);
    assert!(
        store.read_failed(),
        "the UI offers Try again, not a spinner"
    );
    assert!(!store.attach_settled());
    assert_eq!(store.get(SecretKey::Session).expect("session"), None);
    assert_eq!(store.get(SecretKey::DbEncryption).expect("db key"), None);
    assert!(
        !keyless_recovery_allowed(&store),
        "a read error must not move a valid TDLib folder aside"
    );
}

#[test]
fn a_failed_read_defers_writes_and_a_retry_settles_the_store() {
    let mut store = SecretStore::blank(AttachPhase::Detached);
    store.finish_read_failed();
    assert!(store.read_failed());
    assert_eq!(store.persistence(), Persistence::Loading);
    assert_eq!(
        store.request_flush(),
        FlushAction::Defer,
        "no write on a failed read"
    );
    ready_attach(&mut store, &[(SecretKey::DbEncryption, "saved-key")]);
    assert!(!store.read_failed());
    assert!(store.attach_settled());
    assert_eq!(
        store.get(SecretKey::DbEncryption).expect("get").as_deref(),
        Some("saved-key")
    );
}

#[test]
fn confirmed_missing_db_key_allows_keyless_recovery() {
    let mut store = SecretStore::blank(AttachPhase::Attaching);
    let os_values = pairs(&[(SecretKey::Session, "saved-session")]);
    let should_flush = store.settle_after_probe(OsBackend::SecretService, &os_values, false);
    assert!(!should_flush);
    assert_eq!(store.phase, AttachPhase::Ready);
    assert!(store.attach_settled());
    assert!(store.persists());
    assert_eq!(
        store.get(SecretKey::Session).expect("session").as_deref(),
        Some("saved-session")
    );
    assert_eq!(
        store.get_secret(SecretKey::DbEncryption),
        None,
        "a missing entry stays a confirmed missing entry"
    );
    assert!(keyless_recovery_allowed(&store));
}

#[test]
fn hydrate_does_not_overwrite_dirty_ui_writes() {
    let mut store = SecretStore::blank(AttachPhase::Attaching);
    store.set(SecretKey::ApiId, "11111").expect("ui write");
    let should_flush = ready_attach(
        &mut store,
        &[
            (SecretKey::ApiId, "stale-os-id"),
            (SecretKey::ApiHash, "placeholder-hash"),
        ],
    );
    assert!(should_flush);
    assert_eq!(store.backend_name(), "os-keychain");
    assert_eq!(
        store.get(SecretKey::ApiId).expect("id").as_deref(),
        Some("11111")
    );
    assert_eq!(
        store.get(SecretKey::ApiHash).expect("hash").as_deref(),
        Some("placeholder-hash")
    );
    let debug = store.debug_text();
    assert!(!debug.contains("11111"));
    assert!(!debug.contains("stale-os-id"));
    assert!(!debug.contains("placeholder-hash"));
}

#[test]
fn flush_during_attach_is_deferred_until_ready() {
    let mut store = SecretStore::blank(AttachPhase::Attaching);
    store.set(SecretKey::ApiId, "11111").expect("ui write");
    assert_eq!(store.request_flush(), FlushAction::Defer);
    assert_eq!(store.backend_name(), "memory");
    let should_flush = ready_attach(&mut store, &[(SecretKey::ApiId, "stale-os-id")]);
    assert!(should_flush);
    assert_eq!(store.request_flush(), FlushAction::Defer);
    finish_in_flight_flush(&mut store);
    assert_eq!(store.request_flush(), FlushAction::Spawn);
    assert_eq!(
        store.get(SecretKey::ApiId).expect("id").as_deref(),
        Some("11111")
    );
}

#[test]
fn flush_while_memory_only_is_ignored() {
    let mut store = SecretStore::memory();
    store.set(SecretKey::ApiId, "11111").expect("ui write");
    assert_eq!(store.request_flush(), FlushAction::Ignore);
    assert_eq!(store.backend_name(), "memory");
}

#[test]
fn attaching_phase_stays_memory_until_ready() {
    let mut store = SecretStore::blank(AttachPhase::Detached);
    assert!(store.begin_attach());
    assert_eq!(store.backend_name(), "memory");
    assert_eq!(store.phase, AttachPhase::Attaching);
}

#[test]
fn second_ready_flush_is_deferred_while_one_is_in_flight() {
    let mut store = SecretStore::blank(AttachPhase::Ready);
    store.set(SecretKey::ApiId, "11111").expect("set");
    assert_eq!(store.request_flush(), FlushAction::Spawn);
    assert_eq!(store.request_flush(), FlushAction::Defer);
    finish_in_flight_flush(&mut store);
    assert_eq!(store.request_flush(), FlushAction::Spawn);
}

#[test]
fn overlapping_flush_is_coalesced_and_commits_latest() {
    let mut store = SecretStore::blank(AttachPhase::Ready);
    store.set(SecretKey::ApiId, "old-id").expect("old id");
    store.set(SecretKey::ApiHash, "old-hash").expect("old hash");
    assert_eq!(store.request_flush(), FlushAction::Spawn);

    let mut commits = Vec::new();
    loop {
        let snapshot = store.take_flush_snapshot().expect("ready");
        commits.push(snapshot);
        if commits.len() == 1 {
            // While the first write runs.
            store.set(SecretKey::ApiId, "new-id").expect("new id");
            store.set(SecretKey::ApiHash, "new-hash").expect("new hash");
            store
                .set(SecretKey::Session, "new-session")
                .expect("new session");
            assert_eq!(store.request_flush(), FlushAction::Defer);
        }
        match store.after_commit(false) {
            FlushNext::Again => {}
            FlushNext::Done => break,
            FlushNext::Failed => panic!("no write failed"),
        }
    }

    assert!(
        commits.len() >= 2,
        "stale snapshot plus a repeat after the overlapping request"
    );
    let last = commits.last().expect("last commit");
    let value = |key: SecretKey| {
        last.iter()
            .find(|(item, _)| *item == key)
            .and_then(|(_, value)| value.clone())
    };
    assert_eq!(value(SecretKey::ApiId).as_deref(), Some("new-id"));
    assert_eq!(value(SecretKey::ApiHash).as_deref(), Some("new-hash"));
    assert_eq!(value(SecretKey::Session).as_deref(), Some("new-session"));
}

#[test]
fn a_failed_write_ends_the_flush_or_repeats_it() {
    let mut store = SecretStore::blank(AttachPhase::Ready);
    assert_eq!(store.request_flush(), FlushAction::Spawn);
    assert!(store.take_flush_snapshot().is_some());
    assert_eq!(store.after_commit(true), FlushNext::Failed);
    assert_eq!(store.request_flush(), FlushAction::Spawn);
    assert_eq!(store.request_flush(), FlushAction::Defer);
    assert_eq!(store.after_commit(true), FlushNext::Again);
}

#[test]
fn a_failed_token_write_stays_dirty() {
    let mut store = SecretStore::blank(AttachPhase::Ready);
    store.set_discord_bot_token("token").expect("set");
    assert_eq!(store.take_discord_write(), Some(Some("token".to_string())));
    assert_eq!(store.take_discord_write(), None);
    store.discord_write_failed();
    assert_eq!(store.take_discord_write(), Some(Some("token".to_string())));
    store.set_slack(SlackSecretKey::TeamId, "T1");
    assert_eq!(
        store.take_slack_writes(),
        vec![(SlackSecretKey::TeamId, Some("T1".to_string()))]
    );
    assert!(store.take_slack_writes().is_empty());
}

#[test]
fn retry_leaves_read_failed_before_the_worker_runs() {
    let mut store = SecretStore::blank(AttachPhase::Detached);
    store.finish_read_failed();
    assert!(store.read_failed());
    store.leave_read_failed();
    assert!(!store.read_failed(), "a new watch does not stop at once");
    assert!(!store.attach_settled());
    assert_eq!(store.persistence(), Persistence::Loading);
}

#[test]
fn a_flush_writes_the_keys_then_the_tokens() {
    let mut store = SecretStore::blank(AttachPhase::Ready);
    store.set(SecretKey::ApiId, "12345").expect("set");
    store.set_discord_bot_token("token").expect("set");
    store.set_slack(SlackSecretKey::TeamId, "T1");
    store.set_slack(SlackSecretKey::AppId, "A1");
    assert_eq!(store.request_flush(), FlushAction::Spawn);
    let FlushStep::Keys(rows) = store.flush_os() else {
        panic!("the keys go first");
    };
    assert_eq!(
        rows,
        vec![
            (SecretKey::ApiId, Some("12345".to_string())),
            (SecretKey::ApiHash, None),
            (SecretKey::Session, None),
            (SecretKey::DbEncryption, None),
        ]
    );
    let FlushStep::Discord(token) = store.flush_replied(FlushReply::Keys { failed: false }) else {
        panic!("then the Discord token");
    };
    assert_eq!(token.as_deref(), Some("token"));
    let FlushStep::Slack(writes) = store.flush_replied(FlushReply::Discord { failed: false })
    else {
        panic!("then the Slack install");
    };
    assert_eq!(writes.len(), 2);
    assert!(writes.contains(&(SlackSecretKey::TeamId, Some("T1".to_string()))));
    assert!(writes.contains(&(SlackSecretKey::AppId, Some("A1".to_string()))));
    let end = store.flush_replied(FlushReply::Slack {
        writes,
        failed_at: None,
    });
    assert!(matches!(end, FlushStep::Done));
    assert_eq!(store.request_flush(), FlushAction::Spawn);
}

#[test]
fn a_failed_flush_keeps_what_was_not_written() {
    let mut store = SecretStore::blank(AttachPhase::Ready);
    store.set_discord_bot_token("token").expect("set");
    store.set_slack(SlackSecretKey::TeamId, "T1");
    store.set_slack(SlackSecretKey::AppId, "A1");
    assert!(matches!(
        store.flush_replied(FlushReply::Keys { failed: true }),
        FlushStep::Failed
    ));
    assert!(matches!(
        store.flush_replied(FlushReply::Keys { failed: false }),
        FlushStep::Discord(Some(_))
    ));
    assert!(matches!(
        store.flush_replied(FlushReply::Discord { failed: true }),
        FlushStep::Failed
    ));
    assert!(store.discord_token_dirty);
    assert_eq!(store.take_slack_writes().len(), 2, "Slack was not reached");
    let writes = vec![
        (SlackSecretKey::TeamId, Some("T1".to_string())),
        (SlackSecretKey::AppId, Some("A1".to_string())),
    ];
    let end = store.flush_replied(FlushReply::Slack {
        writes,
        failed_at: Some(1),
    });
    assert!(matches!(end, FlushStep::Failed));
    assert_eq!(
        store.take_slack_writes(),
        vec![(SlackSecretKey::AppId, Some("A1".to_string()))]
    );
}

#[test]
fn a_flush_of_an_unsettled_store_writes_nothing() {
    let mut store = SecretStore::blank(AttachPhase::ReadFailed);
    store.set_discord_bot_token("token").expect("set");
    assert_eq!(store.request_flush(), FlushAction::Defer);
    assert!(matches!(store.flush_os(), FlushStep::Done));
    assert!(store.discord_token_dirty);
}

#[test]
fn stored_values_hold_no_white_space_at_their_ends() {
    let mut store = SecretStore::blank(AttachPhase::Detached);
    store.set(SecretKey::ApiId, "\t12345\n").expect("set");
    ready_attach(
        &mut store,
        &[(SecretKey::ApiHash, "  hash "), (SecretKey::Session, "   ")],
    );
    assert_eq!(store.get(SecretKey::ApiId), Ok(Some("12345".to_string())));
    assert_eq!(store.get(SecretKey::ApiHash), Ok(Some("hash".to_string())));
    assert_eq!(store.get(SecretKey::Session), Ok(None), "a blank value is none");
}

#[test]
fn a_reconnect_waits_through_a_failed_telegram_read() {
    let mut store = SecretStore::blank(AttachPhase::Detached);
    assert!(!store.on_slack_token_hydrated());
    let next = store.store_probed_secrets(
        OsBackend::SecretService,
        Err(SecretError::new("OS keychain: locked")),
        Ok(None),
        Ok(Vec::new()),
    );
    assert!(store.read_failed());
    assert_eq!(next, AfterProbe { flush: false, signal: false });

    let next = store.store_probed_secrets(
        OsBackend::SecretService,
        Ok(Vec::new()),
        Ok(None),
        Ok(vec![(SlackSecretKey::BotToken, "xoxb-fixture".into())]),
    );
    assert!(store.attach_settled());
    assert!(next.signal);
    assert!(store.signal_slack_hydrated(), "Try again brought the token");
    assert!(!store.signal_slack_hydrated(), "it runs once");
}

#[test]
fn a_log_shows_the_backend_in_quotes() {
    assert_eq!(
        SecretStore::memory().debug_text(),
        "SecretStore { backend: \"memory\", secrets: \"<redacted>\" }"
    );
}

#[test]
fn reconnects_are_told_after_the_flush_of_their_read() {
    let mut told = TellAfterFlush::new();
    assert!(!told.stepped(&FlushStep::Done), "nobody waits");
    let owed = AfterProbe { flush: true, signal: true };
    assert_eq!(told.stored(owed), AfterRead::Flush);
    assert!(!told.stepped(&FlushStep::Discord(None)), "not before it ended");
    assert!(told.stepped(&FlushStep::Failed), "also after a failure");
    assert!(!told.stepped(&FlushStep::Done), "once");
    assert_eq!(
        told.stored(AfterProbe { flush: false, signal: true }),
        AfterRead::Tell
    );
    assert_eq!(
        told.stored(AfterProbe { flush: false, signal: false }),
        AfterRead::Rest
    );
}
