//! How the keychain worker attaches a store: which OS store it takes, what a
//! failure means, and what the secret store does with each answer.
//!
//! The worker asks the OS. It hands what came back to these functions as plain
//! values, and does what they answer.

use crate::secrets::{AttachPhase, OsBackend, SecretError, SecretStore, StoreModel, linux_backends};
use crate::protocol::Text;
use vstd::prelude::*;
use vstd::string::*;

verus! {

/// The kind of a keychain failure. It never holds a value.
#[derive(Debug, Clone, Copy, PartialEq, Eq, Structural)]
pub enum KeyringKind {
    NoEntry,
    NoStorageAccess,
    PlatformFailure,
    TooLong,
    Invalid,
    Ambiguous,
    NoDefaultStore,
    NotSupportedByStore,
    Other,
}

/// The words for a kind of failure.
pub open spec fn kind_text(kind: KeyringKind) -> Text {
    match kind {
        KeyringKind::NoEntry => "not found"@,
        KeyringKind::NoStorageAccess => "no storage access"@,
        KeyringKind::PlatformFailure => "platform failure"@,
        KeyringKind::TooLong => "value too long"@,
        KeyringKind::Invalid => "invalid attribute"@,
        KeyringKind::Ambiguous => "ambiguous entry"@,
        KeyringKind::NoDefaultStore => "no default store"@,
        KeyringKind::NotSupportedByStore => "unsupported by store"@,
        KeyringKind::Other => "keychain error"@,
    }
}

/// The error of a keychain failure. It names the kind only.
pub fn map_keyring_error(kind: KeyringKind) -> (r: SecretError)
    ensures
        r.message@ == "OS keychain: "@ + kind_text(kind),
{
    let words: &str = match kind {
        KeyringKind::NoEntry => "not found",
        KeyringKind::NoStorageAccess => "no storage access",
        KeyringKind::PlatformFailure => "platform failure",
        KeyringKind::TooLong => "value too long",
        KeyringKind::Invalid => "invalid attribute",
        KeyringKind::Ambiguous => "ambiguous entry",
        KeyringKind::NoDefaultStore => "no default store",
        KeyringKind::NotSupportedByStore => "unsupported by store",
        KeyringKind::Other => "keychain error",
    };
    let mut message = "OS keychain: ".to_owned();
    message.append(words);
    SecretError::new(message.as_str())
}

/// Why no OS store settled.
pub enum AttachError {
    /// No usable OS store: memory-only for this session.
    Absent(SecretError),
    /// A store is present but failed. Its keys are unknown, never missing: the
    /// shell offers Try again.
    ReadFailed(SecretError),
}

impl AttachError {
    pub open spec fn text(self) -> Text {
        match self {
            AttachError::Absent(error) => error.message@,
            AttachError::ReadFailed(error) => error.message@,
        }
    }

    /// The failure itself, without what it means.
    pub fn into_secret_error(self) -> (r: SecretError)
        ensures
            r.message@ == self.text(),
    {
        match self {
            AttachError::Absent(error) => error,
            AttachError::ReadFailed(error) => error,
        }
    }
}

/// The kind of an I/O error below a bus error.
#[derive(Debug, Clone, Copy, PartialEq, Eq, Structural)]
pub enum IoKind {
    NotFound,
    ConnectionRefused,
    Other,
}

/// One source below a bus error.
#[derive(Debug, Clone, Copy, PartialEq, Eq, Structural)]
pub enum BusSource {
    Io(IoKind),
    Other,
}

/// How the Secret Service failed.
#[derive(Debug, Clone)]
pub enum ServiceFault {
    /// The failure is no platform failure of the Secret Service.
    NotTheService,
    /// No provider and no session on this system.
    Unavailable,
    /// A bus error, with the sources below it from the top down.
    Bus { sources: Vec<BusSource> },
    /// Any other failure of the service: a lock, a prompt, a timeout.
    Service,
}

/// What the Linux attach does after the Secret Service failed.
#[derive(Debug, Clone, Copy, PartialEq, Eq, Structural)]
pub enum LinuxFallback {
    /// The Secret Service is not on this system.
    UseKeyutils,
    /// The Secret Service is there but failed. The kernel keyring would show
    /// no keys and could make a saved session look lost, so it is not used.
    ReadFailed,
}

/// The first I/O error below a bus error.
pub open spec fn first_io(sources: Seq<BusSource>) -> Option<IoKind>
    decreases sources.len(),
{
    if sources.len() == 0 {
        None
    } else {
        match sources[0] {
            BusSource::Io(kind) => Some(kind),
            BusSource::Other => first_io(sources.drop_first()),
        }
    }
}

/// A bus that is not there: its socket is missing, or refuses the connection.
pub open spec fn bus_missing(sources: Seq<BusSource>) -> bool {
    first_io(sources) == Some(IoKind::NotFound) || first_io(sources) == Some(
        IoKind::ConnectionRefused,
    )
}

/// Only a socket that is not there, or that refuses the connection, means
/// that there is no bus. Other failures are failures of a live session.
pub fn no_bus_at_connect(sources: &Vec<BusSource>) -> (r: bool)
    ensures
        r == bus_missing(sources@),
{
    let mut i: usize = 0;
    assert(sources@.skip(0) =~= sources@);
    while i < sources.len()
        invariant
            i <= sources.len(),
            first_io(sources@) == first_io(sources@.skip(i as int)),
        decreases sources.len() - i,
    {
        proof {
            assert(sources@.skip(i as int)[0] == sources@[i as int]);
            assert(sources@.skip(i as int).drop_first() =~= sources@.skip(i + 1));
        }
        match sources[i] {
            BusSource::Io(kind) => {
                return kind == IoKind::NotFound || kind == IoKind::ConnectionRefused;
            },
            BusSource::Other => {},
        }
        i = i + 1;
    }
    false
}

/// The Secret Service is not on this system.
pub open spec fn service_missing(fault: ServiceFault) -> bool {
    match fault {
        ServiceFault::NotTheService => false,
        ServiceFault::Unavailable => true,
        ServiceFault::Bus { sources } => bus_missing(sources@),
        ServiceFault::Service => false,
    }
}

/// Only a Secret Service that is not present falls back to the kernel keyring.
pub fn linux_fallback(fault: &ServiceFault) -> (r: LinuxFallback)
    ensures
        r == (if service_missing(*fault) {
            LinuxFallback::UseKeyutils
        } else {
            LinuxFallback::ReadFailed
        }),
{
    match fault {
        ServiceFault::Unavailable => LinuxFallback::UseKeyutils,
        ServiceFault::Bus { sources } => if no_bus_at_connect(sources) {
            LinuxFallback::UseKeyutils
        } else {
            LinuxFallback::ReadFailed
        },
        _ => LinuxFallback::ReadFailed,
    }
}

/// How a try of a store failed.
pub struct StoreFault {
    pub kind: KeyringKind,
    pub service: ServiceFault,
}

/// What the Linux attach does after the first store.
pub enum LinuxNext {
    /// The store works.
    Use(OsBackend),
    /// Try this store.
    Try(OsBackend),
    /// Attach ends here.
    Fail(AttachError),
}

/// The Secret Service was tried. A failing one never reaches the kernel
/// keyring.
pub fn after_primary_store(tried: Result<(), StoreFault>) -> (r: LinuxNext)
    ensures
        match tried {
            Ok(()) => r == LinuxNext::Use(OsBackend::SecretService),
            Err(fault) => if service_missing(fault.service) {
                r == LinuxNext::Try(OsBackend::KernelKeyring)
            } else {
                r matches LinuxNext::Fail(AttachError::ReadFailed(error)) && error.message@
                    == "OS keychain: "@ + kind_text(fault.kind)
            },
        },
{
    let backends = linux_backends();
    match tried {
        Ok(()) => LinuxNext::Use(backends[0]),
        Err(fault) => match linux_fallback(&fault.service) {
            LinuxFallback::UseKeyutils => LinuxNext::Try(backends[1]),
            LinuxFallback::ReadFailed => LinuxNext::Fail(
                AttachError::ReadFailed(map_keyring_error(fault.kind)),
            ),
        },
    }
}

/// The kernel keyring was tried: without it there is no OS store.
pub fn after_fallback_store(tried: Result<(), KeyringKind>) -> (r: Result<OsBackend, AttachError>)
    ensures
        match tried {
            Ok(()) => r == Ok::<OsBackend, AttachError>(OsBackend::KernelKeyring),
            Err(kind) => r matches Err(AttachError::Absent(error)) && error.message@
                == "OS keychain: "@ + kind_text(kind),
        },
{
    match tried {
        Ok(()) => Ok(linux_backends()[1]),
        Err(kind) => Err(AttachError::Absent(map_keyring_error(kind))),
    }
}

/// Add one key that was read. A missing entry adds nothing. A failed read ends
/// the reading, so a part of the keys is never taken for all of them.
pub fn add_read<K>(
    found: &mut Vec<(K, String)>,
    key: K,
    read: Result<Option<String>, SecretError>,
) -> (r: Result<(), SecretError>)
    ensures
        match read {
            Ok(Some(value)) => r.is_ok() && final(found)@ == old(found)@.push((key, value)),
            Ok(None) => r.is_ok() && final(found)@ == old(found)@,
            Err(error) => r == Err::<(), SecretError>(error) && final(found)@ == old(found)@,
        },
{
    match read {
        Ok(Some(value)) => {
            found.push((key, value));
            Ok(())
        },
        Ok(None) => Ok(()),
        Err(error) => Err(error),
    }
}

/// What the keychain worker does next.
pub enum AttachTurn {
    /// Attach is over.
    Stop,
    /// Attach is over; these reconnects waited for it.
    Wake { discord: bool, slack: bool },
    /// Ask the OS for a store.
    Probe,
    /// Read the keys of this store.
    Read { backend: OsBackend },
}

impl StoreModel {
    /// The store after it settled without the OS keychain, and told so.
    pub open spec fn settled_in_memory(self) -> StoreModel {
        self.memory_only().discord_told().slack_told()
    }
}

impl SecretStore {
    /// Settle without the OS keychain.
    fn settle_in_memory(&mut self) -> (r: AttachTurn)
        ensures
            final(self)@ == old(self)@.settled_in_memory(),
            r == (AttachTurn::Wake {
                discord: old(self)@.wakes_discord(),
                slack: old(self)@.wakes_slack(),
            }),
    {
        self.finish_memory_only();
        let discord = self.signal_discord_hydrated();
        let slack = self.signal_slack_hydrated();
        AttachTurn::Wake { discord, slack }
    }

    /// The worker starts. `memory_requested`: the process environment asks for a store
    /// without the OS keychain.
    pub fn attach_os_keychain(&mut self, memory_requested: bool) -> (r: AttachTurn)
        ensures
            old(self)@.settled() ==> r == AttachTurn::Stop && final(self)@ == old(self)@,
            !old(self)@.settled() && memory_requested ==> final(self)@ == old(
                self,
            )@.settled_in_memory() && r == (AttachTurn::Wake {
                discord: old(self)@.wakes_discord(),
                slack: old(self)@.wakes_slack(),
            }),
            !old(self)@.settled() && !memory_requested ==> r == AttachTurn::Probe && final(self)@
                == (StoreModel { phase: AttachPhase::Attaching, ..old(self)@ }),
    {
        if !self.begin_attach() {
            return AttachTurn::Stop;
        }
        if memory_requested {
            return self.settle_in_memory();
        }
        AttachTurn::Probe
    }

    /// The OS answered with a store, or without one. A store that is present
    /// but fails keeps attach unsettled: its keys are unknown, not missing.
    pub fn attach_probed(&mut self, probed: Result<OsBackend, AttachError>) -> (r: AttachTurn)
        ensures
            match probed {
                Ok(backend) => r == (AttachTurn::Read { backend }) && final(self)@ == old(self)@,
                Err(AttachError::ReadFailed(_)) => r == AttachTurn::Stop && final(self)@ == old(
                    self,
                )@.failed(),
                Err(AttachError::Absent(_)) => final(self)@ == old(self)@.settled_in_memory() && r
                    == (AttachTurn::Wake {
                    discord: old(self)@.wakes_discord(),
                    slack: old(self)@.wakes_slack(),
                }),
            },
    {
        match probed {
            Ok(backend) => AttachTurn::Read { backend },
            Err(AttachError::ReadFailed(_)) => {
                self.finish_read_failed();
                AttachTurn::Stop
            },
            Err(AttachError::Absent(_)) => self.settle_in_memory(),
        }
    }
}

/// A Secret Service that fails is never taken for one that is missing: attach
/// ends with a failed read, and the kernel keyring is not tried.
pub proof fn law_failing_service_is_not_missing(fault: ServiceFault)
    requires
        fault == ServiceFault::Service || fault == ServiceFault::NotTheService,
    ensures
        !service_missing(fault),
{
}

/// A store without the OS keychain is settled, and a store whose read failed
/// is not.
pub proof fn law_failed_read_is_not_settled(store: StoreModel)
    ensures
        store.settled_in_memory().settled(),
        !store.failed().settled(),
        store.failed().values == store.values,
        store.failed().dirty == store.dirty,
{
}

} // verus!
