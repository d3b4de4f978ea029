//! One keychain write from its start to its end, as turns: the store says what
//! to write, the worker writes it and hands back how that went. The persistent
//! keys go first, then the Discord token, then the Slack install. A failure
//! ends the flush, and what was not written stays to be written.

use crate::secrets::{
    AfterProbe, AttachPhase, FlushNext, SecretKey, SecretStore, SlackSecretKey, StoreModel,
    persistent_keys,
};
use vstd::prelude::*;

verus! {

/// What the flush worker does next.
pub enum FlushStep {
    /// Write these keys. No value deletes the key.
    Keys(Vec<(SecretKey, Option<String>)>),
    /// Write the Discord token, or delete it.
    Discord(Option<String>),
    /// Write these Slack keys in this order. No value deletes the key.
    Slack(Vec<(SlackSecretKey, Option<String>)>),
    /// Everything is written.
    Done,
    /// The flush ends with a failure.
    Failed,
}

/// What the flush worker did.
pub enum FlushReply {
    /// The persistent keys were written, or one write failed.
    Keys { failed: bool },
    /// The Discord token was written, or the write failed.
    Discord { failed: bool },
    /// The Slack keys were written up to the end, or up to the one that
    /// failed.
    Slack { writes: Vec<(SlackSecretKey, Option<String>)>, failed_at: Option<usize> },
}

/// What the host does when a keychain read was stored.
#[derive(Debug, Clone, Copy, PartialEq, Eq, Structural)]
pub enum AfterRead {
    /// Write the keychain first.
    Flush,
    /// Tell the reconnects that wait for a token.
    Tell,
    /// Nothing: the reconnects wait on.
    Rest,
}

/// The reconnects that are told of a keychain read once its write ended.
pub struct TellAfterFlush {
    pub waits: bool,
}

impl TellAfterFlush {
    /// Nobody waits.
    pub fn new() -> (r: Self)
        ensures
            !r.waits,
    {
        TellAfterFlush { waits: false }
    }

    /// A read was stored. A write that is owed goes first, and the reconnects
    /// are told after it. Without one they are told now.
    pub fn stored(&mut self, next: AfterProbe) -> (r: AfterRead)
        ensures
            r == (if next.flush {
                AfterRead::Flush
            } else if next.signal {
                AfterRead::Tell
            } else {
                AfterRead::Rest
            }),
            final(self).waits == (old(self).waits || (next.flush && next.signal)),
    {
        if next.flush {
            if next.signal {
                self.waits = true;
            }
            AfterRead::Flush
        } else if next.signal {
            AfterRead::Tell
        } else {
            AfterRead::Rest
        }
    }

    /// A write took this step. True when the reconnects are told now: the
    /// write ended, whether it failed or not, and they wait for it. They are
    /// told once.
    pub fn stepped(&mut self, step: &FlushStep) -> (tell: bool)
        ensures
            tell == (old(self).waits && (*step == FlushStep::Done || *step == FlushStep::Failed)),
            final(self).waits == (old(self).waits && !tell),
    {
        let ended = match step {
            FlushStep::Done => true,
            FlushStep::Failed => true,
            _ => false,
        };
        let tell = ended && self.waits;
        if tell {
            self.waits = false;
        }
        tell
    }
}

/// The rows hold every persistent key with its value, in the order of the keys.
pub open spec fn holds_keys(store: StoreModel, rows: Seq<(SecretKey, Option<String>)>) -> bool {
    &&& rows.len() == persistent_keys().len()
    &&& forall|i: int|
        0 <= i < rows.len() ==> (#[trigger] rows[i]).0 == persistent_keys()[i]
            && rows[i].1.deep_view() == store.value(persistent_keys()[i])
}

/// The rows hold every dirty Slack key once, with its value.
pub open spec fn holds_slack(
    store: StoreModel,
    rows: Seq<(SlackSecretKey, Option<String>)>,
) -> bool {
    &&& forall|i: int|
        0 <= i < rows.len() ==> store.slack_dirty.contains((#[trigger] rows[i]).0)
            && rows[i].1.deep_view() == store.slack.get(rows[i].0)
    &&& forall|i: int, j: int|
        0 <= i < j < rows.len() ==> (#[trigger] rows[i]).0 != (#[trigger] rows[j]).0
    &&& forall|key: SlackSecretKey| #[trigger]
        store.slack_dirty.contains(key) ==> exists|i: int|
            0 <= i < rows.len() && (#[trigger] rows[i]).0 == key
}

/// The keys of the rows from one index on.
pub open spec fn keys_from(
    rows: Seq<(SlackSecretKey, Option<String>)>,
    from: int,
) -> Set<SlackSecretKey> {
    Set::new(
        |key: SlackSecretKey|
            exists|i: int| from <= i < rows.len() && (#[trigger] rows[i]).0 == key,
    )
}

impl StoreModel {
    /// The turn that writes the Slack install, if it is dirty.
    pub open spec fn slack_turn(self, next: StoreModel, step: FlushStep) -> bool {
        if self.phase == AttachPhase::Ready && self.slack_dirty != Set::<SlackSecretKey>::empty() {
            &&& step matches FlushStep::Slack(rows)
            &&& holds_slack(self, rows@)
            &&& next == (StoreModel { slack_dirty: Set::empty(), ..self })
        } else {
            step == FlushStep::Done && next == self
        }
    }

    /// The turn that writes the Discord token, if it is dirty, and else the
    /// Slack install.
    pub open spec fn token_turn(self, next: StoreModel, step: FlushStep) -> bool {
        if self.phase == AttachPhase::Ready && self.discord_token_dirty {
            &&& step matches FlushStep::Discord(token)
            &&& token.deep_view() == self.discord_bot_token
            &&& next == (StoreModel { discord_token_dirty: false, ..self })
        } else {
            self.slack_turn(next, step)
        }
    }

    /// The turn that writes the persistent keys. A store that left `Ready`
    /// writes nothing.
    pub open spec fn keys_turn(self, next: StoreModel, step: FlushStep) -> bool {
        if self.phase == AttachPhase::Ready {
            &&& step matches FlushStep::Keys(rows)
            &&& holds_keys(self, rows@)
            &&& next == (StoreModel { flush_pending: false, ..self })
        } else {
            &&& step == FlushStep::Done
            &&& next == (StoreModel { flush_pending: false, flush_in_flight: false, ..self })
        }
    }

    /// The turn after a reply of the worker. A flush that was asked for
    /// meanwhile starts over with the keys, also after a failure.
    pub open spec fn reply_turn(self, reply: FlushReply, next: StoreModel, step: FlushStep) -> bool {
        match reply {
            FlushReply::Keys { failed } => {
                let ended = StoreModel { flush_in_flight: false, ..self };
                if self.phase == AttachPhase::Ready && self.flush_pending {
                    (StoreModel { flush_pending: false, ..self }).keys_turn(next, step)
                } else if failed {
                    step == FlushStep::Failed && next == ended
                } else {
                    ended.token_turn(next, step)
                }
            },
            FlushReply::Discord { failed } => if failed {
                step == FlushStep::Failed && next == (StoreModel {
                    discord_token_dirty: true,
                    ..self
                })
            } else {
                self.slack_turn(next, step)
            },
            FlushReply::Slack { writes, failed_at } => match failed_at {
                Some(index) => step == FlushStep::Failed && next == (StoreModel {
                    slack_dirty: self.slack_dirty.union(keys_from(writes@, index as int)),
                    ..self
                }),
                None => step == FlushStep::Done && next == self,
            },
        }
    }
}

/// The keys of the rows from one index on.
fn unwritten_from(writes: &Vec<(SlackSecretKey, Option<String>)>, from: usize) -> (r: Vec<
    SlackSecretKey,
>)
    ensures
        r@.to_set() == keys_from(writes@, from as int),
{
    let mut r: Vec<SlackSecretKey> = Vec::new();
    let mut i: usize = from;
    while i < writes.len()
        invariant
            from <= i,
            from <= writes.len() ==> i <= writes.len(),
            from > writes.len() ==> i == from,
            r@.len() == i - from,
            forall|j: int| 0 <= j < r@.len() ==> #[trigger] r@[j] == writes@[from + j].0,
        decreases writes.len() - i,
    {
        r.push(writes[i].0);
        i = i + 1;
    }
    proof {
        assert forall|key: SlackSecretKey| r@.to_set().contains(key) == #[trigger] keys_from(
            writes@,
            from as int,
        ).contains(key) by {
            if r@.contains(key) {
                let j = choose|j: int| 0 <= j < r@.len() && r@[j] == key;
                assert(writes@[from + j].0 == key);
            }
            if keys_from(writes@, from as int).contains(key) {
                let n = choose|n: int| from <= n < writes@.len() && (#[trigger] writes@[n]).0 == key;
                assert(r@[n - from] == key);
            }
        }
        assert(r@.to_set() =~= keys_from(writes@, from as int));
    }
    r
}

impl SecretStore {
    fn write_slack(&mut self) -> (step: FlushStep)
        ensures
            old(self)@.slack_turn(final(self)@, step),
    {
        let ghost before = self@;
        let rows = self.take_slack_writes();
        if rows.is_empty() {
            proof {
                if before.phase == AttachPhase::Ready {
                    assert forall|key: SlackSecretKey| !before.slack_dirty.contains(key) by {
                        if before.slack_dirty.contains(key) {
                            let i = choose|i: int| 0 <= i < rows@.len() && (#[trigger] rows@[i]).0
                                == key;
                            assert(0 <= i < rows@.len());
                        }
                    }
                    assert(before.slack_dirty =~= Set::empty());
                }
            }
            FlushStep::Done
        } else {
            proof {
                assert(before.slack_dirty.contains(rows@[0].0));
            }
            FlushStep::Slack(rows)
        }
    }

    fn write_tokens(&mut self) -> (step: FlushStep)
        ensures
            old(self)@.token_turn(final(self)@, step),
    {
        match self.take_discord_write() {
            Some(token) => FlushStep::Discord(token),
            None => self.write_slack(),
        }
    }

    fn write_keys(&mut self) -> (step: FlushStep)
        ensures
            old(self)@.keys_turn(final(self)@, step),
    {
        match self.take_flush_snapshot() {
            Some(rows) => FlushStep::Keys(rows),
            None => FlushStep::Done,
        }
    }

    /// A flush worker starts.
    pub fn flush_os(&mut self) -> (step: FlushStep)
        ensures
            old(self)@.keys_turn(final(self)@, step),
    {
        self.write_keys()
    }

    /// The flush worker did one step.
    pub fn flush_replied(&mut self, reply: FlushReply) -> (step: FlushStep)
        ensures
            old(self)@.reply_turn(reply, final(self)@, step),
    {
        match reply {
            FlushReply::Keys { failed } => match self.after_commit(failed) {
                FlushNext::Again => self.write_keys(),
                FlushNext::Failed => FlushStep::Failed,
                FlushNext::Done => self.write_tokens(),
            },
            FlushReply::Discord { failed } => if failed {
                self.discord_write_failed();
                FlushStep::Failed
            } else {
                self.write_slack()
            },
            FlushReply::Slack { writes, failed_at } => match failed_at {
                Some(index) => {
                    let unwritten = unwritten_from(&writes, index);
                    self.requeue_slack(&unwritten);
                    FlushStep::Failed
                },
                None => FlushStep::Done,
            },
        }
    }
}

/// A failed write is not forgotten: the Discord token is dirty again, and so
/// is each Slack key that was not written.
pub proof fn law_failed_write_stays_dirty(
    store: StoreModel,
    reply: FlushReply,
    next: StoreModel,
    step: FlushStep,
)
    requires
        store.reply_turn(reply, next, step),
    ensures
        reply == (FlushReply::Discord { failed: true }) ==> next.discord_token_dirty,
        reply matches FlushReply::Slack { writes, failed_at: Some(index) } ==> (forall|i: int|
            index <= i < writes@.len() ==> next.slack_dirty.contains((#[trigger] writes@[i]).0)),
{
    if let FlushReply::Slack { writes, failed_at: Some(index) } = reply {
        assert forall|i: int| index <= i < writes@.len() implies next.slack_dirty.contains(
            (#[trigger] writes@[i]).0,
        ) by {
            assert(keys_from(writes@, index as int).contains(writes@[i].0));
        }
    }
}

/// A flush changes no secret: the values, the tokens, and the phase stay.
pub proof fn law_flush_keeps_the_secrets(
    store: StoreModel,
    reply: FlushReply,
    next: StoreModel,
    step: FlushStep,
)
    requires
        store.keys_turn(next, step) || store.reply_turn(reply, next, step),
    ensures
        next.values == store.values,
        next.discord_bot_token == store.discord_bot_token,
        next.slack == store.slack,
        next.phase == store.phase,
        next.os_backend == store.os_backend,
{
}

/// A flush that was asked for while the keys were written is done next.
pub proof fn law_flush_request_starts_over(
    store: StoreModel,
    failed: bool,
    next: StoreModel,
    step: FlushStep,
)
    requires
        store.phase == AttachPhase::Ready,
        store.flush_pending,
        store.reply_turn(FlushReply::Keys { failed }, next, step),
    ensures
        step is Keys,
        !next.flush_pending,
        next.flush_in_flight == store.flush_in_flight,
{
}

} // verus!
