//! What a log may show of the state: link states, screens, and counts. No
//! name, no text, and nothing that the user typed.

use crate::keyed::KeyMap;
use crate::keyed::Key;
use crate::protocol::{AccountState, AdapterStatus, ProtocolId};
use crate::state::{AuthScreen, InboxFilter, SignalScreen, Snapshot, WhatsAppScreen};
use vstd::prelude::*;

verus! {

/// The state without anything private.
#[derive(Debug, Clone, PartialEq, Eq)]
pub struct SnapshotFacts {
    pub accounts: Vec<(ProtocolId, AdapterStatus, AccountState)>,
    pub selected_protocol: ProtocolId,
    pub filter: InboxFilter,
    pub auth: AuthScreen,
    pub auth_busy: bool,
    pub telegram_authorized: bool,
    /// Chat rows in all.
    pub conversations: usize,
    /// Messages in all.
    pub messages: usize,
    pub has_error: bool,
    pub pending_commands: usize,
    /// The WhatsApp screen, in a build with the WhatsApp part.
    pub whatsapp: Option<(WhatsAppScreen, bool)>,
    /// The Signal screen, in a build with the Signal part.
    pub signal: Option<(SignalScreen, bool)>,
}

/// The length of all lists together.
pub open spec fn total_len<K, A>(rows: Seq<(K, Seq<A>)>) -> nat
    decreases rows.len(),
{
    if rows.len() == 0 {
        0
    } else {
        total_len(rows.drop_last()) + rows.last().1.len()
    }
}

/// `n`, or the end of its range.
pub open spec fn counted(n: nat) -> usize {
    if n <= usize::MAX {
        n as usize
    } else {
        usize::MAX
    }
}

/// How many entries the lists of a map have together.
fn count_all<K: Key, T: DeepView>(map: &KeyMap<K, Vec<T>>) -> (r: usize)
    ensures
        r == counted(total_len(map.rows_model())),
{
    let n = map.len();
    let ghost rows = map.rows_model();
    let mut r: usize = 0;
    let mut i: usize = 0;
    assert(rows.take(0) =~= Seq::empty());
    while i < n
        invariant
            i <= n,
            n == rows.len(),
            rows == map.rows_model(),
            r == counted(total_len(rows.take(i as int))),
        decreases n - i,
    {
        let list = map.row(i).1;
        proof {
            assert(list.deep_view().len() == list.len());
            let next = rows.take(i + 1);
            assert(next.drop_last() =~= rows.take(i as int));
            assert(next.last() == rows[i as int]);
        }
        r = r.saturating_add(list.len());
        i = i + 1;
    }
    assert(rows.take(i as int) =~= rows);
    r
}

impl Snapshot {
    /// The link state of every account.
    fn account_facts(&self) -> (r: Vec<(ProtocolId, AdapterStatus, AccountState)>)
        ensures
            r@.len() == self@.accounts.len(),
            forall|i: int|
                0 <= i < r@.len() ==> #[trigger] r@[i] == (
                    self@.accounts[i].id,
                    self@.accounts[i].status,
                    self@.accounts[i].state,
                ),
    {
        let mut r: Vec<(ProtocolId, AdapterStatus, AccountState)> = Vec::new();
        let mut i: usize = 0;
        while i < self.accounts.len()
            invariant
                i <= self.accounts.len(),
                self@.accounts == self.accounts.deep_view(),
                r@.len() == i,
                forall|j: int|
                    0 <= j < i ==> #[trigger] r@[j] == (
                        self@.accounts[j].id,
                        self@.accounts[j].status,
                        self@.accounts[j].state,
                    ),
            decreases self.accounts.len() - i,
        {
            let row = &self.accounts[i];
            proof {
                assert(self@.accounts[i as int] == row.deep_view());
            }
            r.push((row.caps.id, row.status, row.state));
            i = i + 1;
        }
        proof {
            assert(self@.accounts.len() == self.accounts.len());
        }
        r
    }

    /// What a log may show of this state.
    pub fn facts(&self) -> (r: SnapshotFacts)
        ensures
            r.accounts@.len() == self@.accounts.len(),
            forall|i: int|
                0 <= i < r.accounts@.len() ==> #[trigger] r.accounts@[i] == (
                    self@.accounts[i].id,
                    self@.accounts[i].status,
                    self@.accounts[i].state,
                ),
            r.selected_protocol == self@.selected_protocol,
            r.filter == self@.filter,
            r.auth == self@.auth,
            r.auth_busy == self@.auth_busy,
            r.telegram_authorized == self@.telegram_authorized,
            r.conversations == counted(total_len(self.conversations.rows_model())),
            r.messages == counted(total_len(self.messages.rows_model())),
            r.has_error == self@.error.is_some(),
            r.pending_commands == self@.pending.len(),
            r.whatsapp == (if self@.build.whatsapp_web {
                Some((self@.whatsapp_screen, self@.whatsapp_started))
            } else {
                None
            }),
            r.signal == (if self@.build.signal_local {
                Some((self@.signal_screen, self@.signal_started))
            } else {
                None
            }),
    {
        proof {
            assert(self.pending.deep_view().len() == self.pending.len());
        }
        SnapshotFacts {
            accounts: self.account_facts(),
            selected_protocol: self.selected_protocol,
            filter: self.filter,
            auth: self.auth,
            auth_busy: self.auth_busy,
            telegram_authorized: self.telegram_authorized,
            conversations: count_all(&self.conversations),
            messages: count_all(&self.messages),
            has_error: self.error.is_some(),
            pending_commands: self.pending.len(),
            whatsapp: if self.build.whatsapp_web {
                Some((self.whatsapp_screen, self.whatsapp_started))
            } else {
                None
            },
            signal: if self.build.signal_local {
                Some((self.signal_screen, self.signal_started))
            } else {
                None
            },
        }
    }
}

} // verus!
