//! What the secret store keeps, what a keychain read brings, and what a keychain
//! write hands to the OS.

use crate::flush::{FlushReply, FlushStep};
use crate::keychain::{
    BusSource, IoKind, KeyringKind, ServiceFault, bus_missing, first_io, kind_text,
    service_missing,
};
use crate::protocol::Text;
use crate::secrets::{
    AttachPhase, Hydrate, OsBackend, Persistence, SecretKey, SlackSecretKey, StoreModel,
    account_of, ephemeral_keys, hydrated, persistent_keys, token_of,
};
use crate::text::{is_space, law_trim_drops_only_the_ends, middle_of, trim};
use vstd::prelude::*;
use vstd::string::*;

verus! {

/// The text holds something besides white space.
pub open spec fn holds_text(s: Text) -> bool {
    exists|k: int| 0 <= k < s.len() && !is_space(#[trigger] s[k])
}

proof fn lemma_trimmed(value: Text)
    ensures
        holds_text(value) == (trim(value).len() > 0),
        exists|lead: int| #[trigger] middle_of(value, trim(value), lead),
        trim(value).len() > 0 ==> !is_space(trim(value)[0]) && !is_space(
            trim(value)[trim(value).len() - 1],
        ),
{
    law_trim_drops_only_the_ends(value);
    if trim(value).len() > 0 {
        let lead = choose|lead: int| #[trigger] middle_of(value, trim(value), lead);
        assert(trim(value)[0] == value[lead + 0]);
        assert(!is_space(value[lead]));
    }
}

/// A written secret is kept whole: what was written, without the white space
/// around it. A blank one removes the key. The key waits to be written to the
/// keychain, and every other key stays as it is.
pub proof fn law_written_secret_is_kept(
    store: StoreModel,
    key: SecretKey,
    value: Text,
    other: SecretKey,
)
    requires
        other != key,
    ensures
        ({
            let next = store.set(key, value);
            &&& holds_text(value) ==> next.values.contains_key(key) && (exists|lead: int|
                #[trigger] middle_of(value, next.values[key], lead)) && !is_space(
                next.values[key][0],
            ) && !is_space(next.values[key][next.values[key].len() - 1])
            &&& !holds_text(value) ==> !next.values.contains_key(key)
            &&& next.dirty.contains(key)
            &&& next.values.contains_key(other) == store.values.contains_key(other)
            &&& store.values.contains_key(other) ==> next.values[other] == store.values[other]
            &&& next.dirty.contains(other) == store.dirty.contains(other)
            &&& next == (StoreModel { values: next.values, dirty: next.dirty, ..store })
        }),
{
    lemma_trimmed(value);
}

/// What a login typed leaves the store at its end, and the saved secrets stay.
pub proof fn law_typed_secrets_leave(store: StoreModel, key: SecretKey)
    ensures
        ({
            let next = store.without_ephemeral();
            &&& !next.values.contains_key(SecretKey::Phone) && !next.values.contains_key(
                SecretKey::Code,
            ) && !next.values.contains_key(SecretKey::Password)
            &&& key != SecretKey::Phone && key != SecretKey::Code && key != SecretKey::Password
                ==> next.values.contains_key(key) == store.values.contains_key(key) && (
            store.values.contains_key(key) ==> next.values[key] == store.values[key])
                && next.dirty.contains(key) == store.dirty.contains(key)
            &&& next.discord_bot_token == store.discord_bot_token && next.slack == store.slack
        }),
{
    assert(trim(Seq::<char>::empty()).len() == 0);
}

/// No pair from here on names the key.
pub open spec fn none_from<K>(pairs: Seq<(K, Text)>, key: K, from: int) -> bool {
    forall|i: int| from <= i < pairs.len() ==> (#[trigger] pairs[i]).0 != key
}

proof fn lemma_absent_stays<K>(
    map: Map<K, Text>,
    dirty: Set<K>,
    pairs: Seq<(K, Text)>,
    key: K,
)
    requires
        none_from(pairs, key, 0) || dirty.contains(key),
    ensures
        hydrated(map, dirty, pairs).contains_key(key) == map.contains_key(key),
        map.contains_key(key) ==> hydrated(map, dirty, pairs)[key] == map[key],
    decreases pairs.len(),
{
    if pairs.len() > 0 {
        let front = pairs.drop_last();
        if !dirty.contains(key) {
            assert(pairs[pairs.len() - 1].0 != key);
            assert forall|i: int| 0 <= i < front.len() implies (#[trigger] front[i]).0 != key by {
                assert(front[i] == pairs[i]);
            }
        }
        lemma_absent_stays(map, dirty, front, key);
    }
}

/// A keychain read brings each entry: a key that the shell did not write holds
/// the last value that was read for it, without the white space around it, and
/// nothing when that value is blank. A key that the shell wrote keeps what it
/// wrote, and so does one that was not read.
pub proof fn law_read_brings_each_entry<K>(
    map: Map<K, Text>,
    dirty: Set<K>,
    pairs: Seq<(K, Text)>,
    key: K,
    i: int,
)
    ensures
        dirty.contains(key) || none_from(pairs, key, 0) ==> hydrated(
            map,
            dirty,
            pairs,
        ).contains_key(key) == map.contains_key(key) && (map.contains_key(key) ==> hydrated(
            map,
            dirty,
            pairs,
        )[key] == map[key]),
        !dirty.contains(key) && 0 <= i < pairs.len() && pairs[i].0 == key && none_from(
            pairs,
            key,
            i + 1,
        ) ==> {
            let next = hydrated(map, dirty, pairs);
            &&& next.contains_key(key) == holds_text(pairs[i].1)
            &&& holds_text(pairs[i].1) ==> (exists|lead: int| #[trigger]
                middle_of(pairs[i].1, next[key], lead)) && !is_space(next[key][0]) && !is_space(
                next[key][next[key].len() - 1],
            )
        },
    decreases pairs.len(),
{
    if dirty.contains(key) || none_from(pairs, key, 0) {
        lemma_absent_stays(map, dirty, pairs, key);
    }
    if !dirty.contains(key) && 0 <= i < pairs.len() && pairs[i].0 == key && none_from(
        pairs,
        key,
        i + 1,
    ) {
        lemma_trimmed(pairs[i].1);
        if i < pairs.len() - 1 {
            let front = pairs.drop_last();
            assert(pairs[pairs.len() - 1].0 != key);
            assert(front[i] == pairs[i]);
            assert forall|k: int| i + 1 <= k < front.len() implies (#[trigger] front[k]).0
                != key by {
                assert(front[k] == pairs[k]);
            }
            law_read_brings_each_entry(map, dirty, front, key, i);
        }
    }
}

/// A token is what was read, without the white space around it, or none when it
/// is blank. A token that the shell wrote is not overwritten by a read, and a
/// read without a token, or a failed one, changes nothing.
pub proof fn law_token_is_what_was_read(store: StoreModel, raw: Text, error: Text)
    ensures
        token_of(raw).is_some() == holds_text(raw),
        token_of(raw).is_some() ==> (exists|lead: int| #[trigger]
            middle_of(raw, token_of(raw).unwrap(), lead)),
        store.discord_token_dirty ==> store.with_discord_token(Ok(Some(raw))) == store,
        !store.discord_token_dirty ==> store.with_discord_token(Ok(Some(raw))) == (StoreModel {
            discord_bot_token: token_of(raw),
            ..store
        }),
        store.with_discord_token(Ok(None)) == store,
        store.with_discord_token(Err(error)) == store,
{
    lemma_trimmed(raw);
    if let Some(token) = token_of(raw) {
        let lead = choose|lead: int| #[trigger] middle_of(raw, trim(raw), lead);
        assert(middle_of(raw, token, lead));
    }
}

/// A finished read makes the store ready, and keeps the tokens. A write that
/// waited for it starts at once; without one nothing is written.
pub proof fn law_finished_read_makes_ready(
    store: StoreModel,
    pairs: Seq<(SecretKey, Text)>,
    backend: Option<OsBackend>,
)
    ensures
        ({
            let next = store.ready(pairs, backend);
            &&& next.phase == AttachPhase::Ready && !next.flush_pending
            &&& next.values == hydrated(store.values, store.dirty, pairs)
            &&& next.dirty == Set::<SecretKey>::empty()
            &&& backend.is_some() ==> next.os_backend == backend
            &&& backend.is_none() ==> next.os_backend == store.os_backend
            &&& next.discord_bot_token == store.discord_bot_token
            &&& next.discord_token_dirty == store.discord_token_dirty
            &&& next.slack == store.slack && next.slack_dirty == store.slack_dirty
            &&& next.discord_hydrate == store.discord_hydrate
            &&& store.flush_pending || store.discord_token_dirty || (exists|key: SecretKey|
                #[trigger] store.dirty.contains(key)) || (exists|key: SlackSecretKey|
                #[trigger] store.slack_dirty.contains(key)) ==> next.flush_in_flight
            &&& !store.flush_in_flight && !store.flush_pending && !store.discord_token_dirty && (
            forall|key: SecretKey| !#[trigger] store.dirty.contains(key)) && (forall|
                key: SlackSecretKey,
            |
                !#[trigger] store.slack_dirty.contains(key)) ==> !next.flush_in_flight
        }),
{
    if forall|key: SecretKey| !#[trigger] store.dirty.contains(key) {
        assert(store.dirty =~= Set::empty());
    }
    if forall|key: SlackSecretKey| !#[trigger] store.slack_dirty.contains(key) {
        assert(store.slack_dirty =~= Set::empty());
    }
}

/// How long a sign-in lasts: this session without a keychain, until a restart in
/// the kernel keyring, for good in any other keychain. While the keychain is not
/// read that is open. Both halves of the API credentials make an override.
pub proof fn law_sign_in_lasts_with_its_store(store: StoreModel)
    ensures
        store.phase == AttachPhase::MemoryOnly ==> store.lasts() == Persistence::ThisSession,
        store.phase == AttachPhase::Ready && store.os_backend == Some(OsBackend::KernelKeyring)
            ==> store.lasts() == Persistence::UntilRestart,
        store.phase == AttachPhase::Ready && store.os_backend != Some(OsBackend::KernelKeyring)
            ==> store.lasts() == Persistence::Saved,
        store.phase == AttachPhase::Detached || store.phase == AttachPhase::Attaching
            || store.phase == AttachPhase::ReadFailed ==> store.lasts() == Persistence::Loading,
        store.settled() <==> store.phase == AttachPhase::Ready || store.phase
            == AttachPhase::MemoryOnly,
        store.has_api_override() <==> store.values.contains_key(SecretKey::ApiId)
            && store.values.contains_key(SecretKey::ApiHash),
        store.memory_only().phase == AttachPhase::MemoryOnly,
        store.memory_only().values == store.values && store.memory_only().discord_bot_token
            == store.discord_bot_token && store.memory_only().slack == store.slack,
        store.failed() == (StoreModel { phase: AttachPhase::ReadFailed, ..store }),
        store.phase == AttachPhase::ReadFailed ==> store.retried() == (StoreModel {
            phase: AttachPhase::Attaching,
            ..store
        }),
        store.phase != AttachPhase::ReadFailed ==> store.retried() == store,
{
}

/// An empty store holds no secret and owes no write. Without a keychain nobody
/// waits for one; else a reconnect can.
pub proof fn law_blank_store_is_empty(phase: AttachPhase, key: SecretKey, slack: SlackSecretKey)
    ensures
        ({
            let store = StoreModel::blank(phase);
            &&& store.phase == phase && store.os_backend.is_none()
            &&& !store.values.contains_key(key) && !store.slack.contains_key(slack)
            &&& !store.dirty.contains(key) && !store.slack_dirty.contains(slack)
            &&& store.discord_bot_token.is_none() && !store.discord_token_dirty
            &&& !store.flush_pending && !store.flush_in_flight && !store.owes_write()
            &&& phase == AttachPhase::MemoryOnly ==> store.discord_hydrate == (Hydrate::Settled {
                notify: false,
            }) && store.slack_hydrate == (Hydrate::Settled { notify: false })
            &&& phase != AttachPhase::MemoryOnly ==> store.discord_hydrate == (Hydrate::Waiting {
                waiter: false,
            }) && store.slack_hydrate == (Hydrate::Waiting { waiter: false })
        }),
        StoreModel::demo_saved().settled(),
        StoreModel::demo_read_failed().phase == AttachPhase::ReadFailed,
{
}

/// A reconnect that waits wakes at the end of the read exactly when its token is
/// there. One that asks later runs at once when the read brought the token.
pub proof fn law_reconnect_wakes_with_its_token(store: StoreModel)
    ensures
        store.discord_waited().discord_told().discord_fires_now() ==> store.discord_bot_token
            .is_some(),
        store.discord_hydrate is Waiting ==> {
            &&& !store.discord_fires_now()
            &&& store.discord_waited().wakes_discord() == store.discord_bot_token.is_some()
            &&& store.discord_told().discord_fires_now() == store.discord_bot_token.is_some()
            &&& !store.discord_told().wakes_discord()
        },
        store.discord_hydrate == (Hydrate::Waiting { waiter: false }) ==> !store.wakes_discord(),
        store.slack_hydrate == (Hydrate::Waiting { waiter: true }) ==> store.wakes_slack()
            == store.slack.contains_key(SlackSecretKey::BotToken),
        store.slack_hydrate != (Hydrate::Waiting { waiter: true }) ==> !store.wakes_slack(),
        !store.slack_told().wakes_slack(),
        store.discord_told().discord_bot_token == store.discord_bot_token,
        store.slack_told().slack == store.slack,
        store.discord_told().slack_hydrate == store.slack_hydrate,
        store.slack_told().discord_hydrate == store.discord_hydrate,
{
}

/// The four saved Telegram keys go to the keychain, and the three that a login
/// types never do. No two keys share an account.
pub proof fn law_each_key_has_its_place(a: SecretKey, b: SecretKey)
    ensures
        persistent_keys().contains(a) <==> a == SecretKey::ApiId || a == SecretKey::ApiHash || a
            == SecretKey::Session || a == SecretKey::DbEncryption,
        ephemeral_keys().contains(a) <==> a == SecretKey::Phone || a == SecretKey::Code || a
            == SecretKey::Password,
        a != b ==> account_of(a) != account_of(b),
{
    let saved = persistent_keys();
    assert(saved[0] == SecretKey::ApiId && saved[1] == SecretKey::ApiHash && saved[2]
        == SecretKey::Session && saved[3] == SecretKey::DbEncryption);
    let typed = ephemeral_keys();
    assert(typed[0] == SecretKey::Phone && typed[1] == SecretKey::Code && typed[2]
        == SecretKey::Password);
    reveal_strlit("telegram.api_id");
    reveal_strlit("telegram.api_hash");
    reveal_strlit("telegram.session");
    reveal_strlit("telegram.db_encryption");
    reveal_strlit("telegram.phone");
    reveal_strlit("telegram.code");
    reveal_strlit("telegram.password");
    assert(a != b ==> account_of(a).len() != account_of(b).len() || account_of(a)[9]
        != account_of(b)[9]);
}

/// A flush of a ready store writes each saved Telegram key with its value, and
/// deletes the ones without a value. It writes no key that a login typed.
pub proof fn law_flush_writes_each_saved_key(
    store: StoreModel,
    next: StoreModel,
    step: FlushStep,
    key: SecretKey,
)
    requires
        store.phase == AttachPhase::Ready,
        store.keys_turn(next, step),
    ensures
        step is Keys,
        key == SecretKey::ApiId || key == SecretKey::ApiHash || key == SecretKey::Session || key
            == SecretKey::DbEncryption ==> exists|i: int|
            0 <= i < step->Keys_0@.len() && (#[trigger] step->Keys_0@[i]).0 == key
                && step->Keys_0@[i].1.deep_view() == store.values.get(key),
        forall|i: int|
            0 <= i < step->Keys_0@.len() ==> (#[trigger] step->Keys_0@[i]).0 != SecretKey::Phone
                && step->Keys_0@[i].0 != SecretKey::Code && step->Keys_0@[i].0
                != SecretKey::Password,
        !next.flush_pending,
        next.flush_in_flight == store.flush_in_flight,
{
    let rows = step->Keys_0@;
    let saved = persistent_keys();
    assert(saved.len() == 4 && saved[0] == SecretKey::ApiId && saved[1] == SecretKey::ApiHash
        && saved[2] == SecretKey::Session && saved[3] == SecretKey::DbEncryption);
    assert(rows[0].0 == saved[0] && rows[1].0 == saved[1] && rows[2].0 == saved[2] && rows[3].0
        == saved[3]);
}

/// After the Telegram keys were written, a Discord token that changed is
/// written, and after it each Slack key that changed, with its value. What did
/// not change is left alone, and then the flush is done.
pub proof fn law_flush_goes_on_in_order(
    store: StoreModel,
    next: StoreModel,
    step: FlushStep,
    key: SlackSecretKey,
)
    requires
        store.phase == AttachPhase::Ready,
        !store.flush_pending,
    ensures
        store.reply_turn(FlushReply::Keys { failed: false }, next, step) ==> !next.flush_in_flight,
        store.reply_turn(FlushReply::Keys { failed: false }, next, step)
            && store.discord_token_dirty ==> step is Discord && step->Discord_0.deep_view()
            == store.discord_bot_token && !next.discord_token_dirty && next.slack_dirty
            == store.slack_dirty,
        store.reply_turn(FlushReply::Keys { failed: false }, next, step)
            && !store.discord_token_dirty && store.slack_dirty.contains(key) ==> step is Slack,
        store.reply_turn(FlushReply::Keys { failed: true }, next, step) ==> step is Failed
            && !next.flush_in_flight,
        store.reply_turn(FlushReply::Discord { failed: false }, next, step)
            && store.slack_dirty.contains(key) ==> step is Slack && !next.slack_dirty.contains(key)
            && (exists|i: int|
            0 <= i < step->Slack_0@.len() && (#[trigger] step->Slack_0@[i]).0 == key
                && step->Slack_0@[i].1.deep_view() == store.slack.get(key)),
        store.reply_turn(FlushReply::Discord { failed: false }, next, step) && (forall|
            k: SlackSecretKey,
        |
            !#[trigger] store.slack_dirty.contains(k)) ==> step is Done && next == store,
        store.reply_turn(FlushReply::Discord { failed: true }, next, step) ==> step is Failed
            && next.discord_token_dirty,
{
    if forall|k: SlackSecretKey| !#[trigger] store.slack_dirty.contains(k) {
        assert(store.slack_dirty =~= Set::empty());
    }
    if store.slack_dirty.contains(key) {
        assert(store.slack_dirty != Set::<SlackSecretKey>::empty());
    }
}

/// A store that is not ready writes nothing: its flush ends at once.
pub proof fn law_unready_store_writes_nothing(store: StoreModel, next: StoreModel, step: FlushStep)
    requires
        store.phase != AttachPhase::Ready,
        store.keys_turn(next, step),
    ensures
        step is Done,
        !next.flush_pending && !next.flush_in_flight,
        next.dirty == store.dirty && next.slack_dirty == store.slack_dirty,
        next.discord_token_dirty == store.discord_token_dirty,
{
}

/// There is no bus exactly when the topmost I/O error below the failure says
/// that its socket is not there or refuses the connection.
pub proof fn law_topmost_io_error_decides(sources: Seq<BusSource>, i: int)
    ensures
        0 <= i < sources.len() && sources[i] is Io && (forall|k: int|
            0 <= k < i ==> (#[trigger] sources[k]) is Other) ==> bus_missing(sources) == (
        sources[i]->Io_0 == IoKind::NotFound || sources[i]->Io_0 == IoKind::ConnectionRefused),
        (forall|k: int| 0 <= k < sources.len() ==> (#[trigger] sources[k]) is Other)
            ==> !bus_missing(sources),
    decreases sources.len(),
{
    if sources.len() > 0 && sources[0] is Other {
        let rest = sources.drop_first();
        assert forall|k: int| 0 <= k < rest.len() implies #[trigger] rest[k] == sources[k + 1] by {}
        law_topmost_io_error_decides(rest, i - 1);
        assert(first_io(sources) == first_io(rest));
        if 0 < i < sources.len() {
            assert(rest[i - 1] == sources[i]);
        }
    }
}

/// Only a service that is not on the system is missing: one without a provider,
/// or one without a bus. A failing service is there.
pub proof fn law_service_is_missing_when(fault: ServiceFault)
    ensures
        service_missing(fault) <==> fault is Unavailable || (fault is Bus && bus_missing(
            fault->Bus_sources@,
        )),
{
}

/// Two kinds of keychain failure never read the same.
pub proof fn law_failure_words_differ(a: KeyringKind, b: KeyringKind)
    requires
        a != b,
    ensures
        kind_text(a) != kind_text(b),
{
    reveal_strlit("not found");
    reveal_strlit("no storage access");
    reveal_strlit("platform failure");
    reveal_strlit("value too long");
    reveal_strlit("invalid attribute");
    reveal_strlit("ambiguous entry");
    reveal_strlit("no default store");
    reveal_strlit("unsupported by store");
    reveal_strlit("keychain error");
    assert(kind_text(a).len() != kind_text(b).len() || kind_text(a)[0] != kind_text(b)[0]
        || kind_text(a)[3] != kind_text(b)[3]);
}

} // verus!
