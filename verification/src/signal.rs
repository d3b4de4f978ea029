//! Change signal: the core bumps a revision, frontends wait on it.
//!
//! The signal carries no state. It only says "read the view again". A frontend
//! that wakes late sees one change, not a queue of them.

use std::sync::Arc;
use tokio::sync::watch;
use vstd::prelude::*;

verus! {

/// The sending half of a tokio watch channel.
#[verifier::external_type_specification]
#[verifier::external_body]
#[verifier::reject_recursive_types(T)]
pub struct ExWatchSender<T>(watch::Sender<T>);

/// The receiving half of a tokio watch channel.
#[verifier::external_type_specification]
#[verifier::external_body]
#[verifier::reject_recursive_types(T)]
pub struct ExWatchReceiver<T>(watch::Receiver<T>);

/// The channel that a sending half belongs to.
pub uninterp spec fn sender_channel(tx: watch::Sender<u64>) -> int;

/// The channel that a receiving half belongs to.
pub uninterp spec fn receiver_channel(rx: watch::Receiver<u64>) -> int;

/// The revision after this one. It starts over at the end of its range.
pub open spec fn revision_after(revision: u64) -> u64 {
    if revision == u64::MAX {
        0
    } else {
        (revision + 1) as u64
    }
}

/// The revision after this one.
pub fn next_revision(revision: u64) -> (r: u64)
    ensures
        r == revision_after(revision),
        r != revision,
{
    if revision == u64::MAX {
        0
    } else {
        revision + 1
    }
}

/// Calls `tokio::sync::watch::channel` with revision 0. Trusted: the two halves
/// belong to one channel. Nothing is promised of the revision that they see
/// later: other threads can use them at any time.
#[verifier::external_body]
fn open_channel() -> (r: (watch::Sender<u64>, watch::Receiver<u64>))
    ensures
        sender_channel(r.0) == receiver_channel(r.1),
{
    watch::channel(0)
}

/// Calls `tokio::sync::watch::Sender::send_modify` with [`next_revision`]. The
/// new revision is visible to the receivers only, so nothing is promised here.
#[verifier::external_body]
fn bump(tx: &watch::Sender<u64>) {
    tx.send_modify(|revision| *revision = next_revision(*revision));
}

/// Calls `tokio::sync::watch::Sender::subscribe`. Trusted: the receiver belongs
/// to the channel of the sender. Nothing is promised of what it has seen: a
/// sender can bump the revision at any time.
#[verifier::external_body]
fn new_receiver(tx: &watch::Sender<u64>) -> (r: watch::Receiver<u64>)
    ensures
        receiver_channel(r) == sender_channel(*tx),
{
    tx.subscribe()
}

/// Calls `tokio::sync::watch::Receiver::has_changed`; no answer means that the
/// senders are gone. Nothing is promised of the answer: it rests on what other
/// threads did.
#[verifier::external_body]
fn receiver_changed(rx: &watch::Receiver<u64>) -> (r: Option<bool>) {
    rx.has_changed().ok()
}

/// Whether an answer of the channel shows a change. A channel whose senders
/// are gone shows none.
pub fn shows_change(answer: Option<bool>) -> (r: bool)
    ensures
        r == (answer == Some(true)),
{
    match answer {
        Some(changed) => changed,
        None => false,
    }
}

/// Calls `tokio::sync::watch::Receiver::borrow_and_update`. Trusted: the
/// receiver stays in its channel. Nothing is promised of the revision: it rests
/// on what other threads did.
#[verifier::external_body]
fn receiver_seen(rx: &mut watch::Receiver<u64>) -> (r: u64)
    ensures
        receiver_channel(*final(rx)) == receiver_channel(*old(rx)),
{
    *rx.borrow_and_update()
}

/// Producer side. The core and its workers hold clones of it.
pub struct ChangeNotifier {
    tx: Arc<watch::Sender<u64>>,
}

impl ChangeNotifier {
    /// The channel of this notifier.
    pub closed spec fn channel(&self) -> int {
        sender_channel(*self.tx)
    }

    /// Tell every waiting frontend that the view changed. Never blocks and
    /// never fails. A frontend that is gone is ignored.
    pub fn notify(&self) {
        bump(&*self.tx);
    }

    /// A new consumer. It sees the current revision as already read.
    pub fn subscribe(&self) -> (r: ChangeSignal)
        ensures
            r.channel() == self.channel(),
    {
        ChangeSignal { rx: new_receiver(&*self.tx) }
    }
}

/// Consumer side. One per frontend loop or repaint task.
pub struct ChangeSignal {
    pub rx: watch::Receiver<u64>,
}

impl ChangeSignal {
    /// The channel of this signal.
    pub open spec fn channel(&self) -> int {
        receiver_channel(self.rx)
    }

    /// True when a change came after the last read. Does not wait.
    pub fn has_changed(&self) -> (r: bool) {
        shows_change(receiver_changed(&self.rx))
    }

    /// Mark the current revision as read and return it.
    pub fn mark_seen(&mut self) -> (r: u64)
        ensures
            final(self).channel() == old(self).channel(),
    {
        receiver_seen(&mut self.rx)
    }
}

/// Make a connected notifier and signal pair.
pub fn change_channel() -> (r: (ChangeNotifier, ChangeSignal))
    ensures
        r.0.channel() == r.1.channel(),
{
    let (tx, rx) = open_channel();
    (ChangeNotifier { tx: Arc::new(tx) }, ChangeSignal { rx })
}

/// Revisions go up by one, and start over behind the last.
pub proof fn law_revision_changes_with_each_notice(revision: u64)
    ensures
        revision_after(revision) != revision,
        revision < u64::MAX ==> revision_after(revision) == revision + 1,
{
}

} // verus!
