//! Plays a demo scenario: hands the commands of a core to the demo adapters,
//! and their answers to the core, until nothing more comes.

use crate::app_core::{
    Core, CoreConfig, CoreModel, law_core_starts_sound, law_every_action_keeps_the_core_sound,
    law_every_pump_keeps_the_core_sound,
};
use crate::demo::{
    DemoEvent, DemoScript, Scenario, ScriptModel, events_of, reaches, scripts_of, visible_of,
};
use crate::intent::Intent;
use crate::protocol::{
    AdapterCommand, AdapterEvent, Build, CommandModel, ProtocolId, TelegramApiSource,
    publisher_pair,
};
use crate::secrets::{SecretStore, StoreModel};
use crate::settings::{Settings, SettingsModel};
use crate::state::model::SnapshotModel;
use crate::state::soundness::law_other_changes_keep_the_state_sound;
use vstd::prelude::*;
use vstd::string::*;

verus! {

/// Most rounds of answers after one step.
pub const ROUNDS: usize = 100;

/// The invented Telegram API credentials of the demo.
pub const DEMO_API_ID: &'static str = "12345";

pub const DEMO_API_HASH: &'static str = "demo-api-hash";

/// What the adapters of these scripts answer to one command: the adapter of its
/// protocol answers.
pub open spec fn answers_to(scripts: Seq<ScriptModel>, command: CommandModel) -> Seq<DemoEvent>
    decreases scripts.len(),
{
    if scripts.len() == 0 {
        Seq::empty()
    } else {
        answers_to(scripts.drop_last(), command) + if scripts.last().protocol == command.target() {
            scripts.last().answer(command)
        } else {
            Seq::empty()
        }
    }
}

/// What the adapters of these scripts answer to commands, in order.
pub open spec fn answers_to_all(scripts: Seq<ScriptModel>, commands: Seq<CommandModel>) -> Seq<
    DemoEvent,
>
    decreases commands.len(),
{
    if commands.len() == 0 {
        Seq::empty()
    } else {
        answers_to_all(scripts, commands.drop_last()) + answers_to(scripts, commands.last())
    }
}

/// A script whose start events are played.
pub open spec fn opened(script: ScriptModel) -> ScriptModel {
    ScriptModel { start: Seq::empty(), ..script }
}

/// The adapters of a scenario after their start.
pub open spec fn stage_of(scripts: Seq<ScriptModel>) -> Seq<ScriptModel> {
    scripts.map_values(|script: ScriptModel| opened(script))
}

/// The start events of every script, in order.
pub open spec fn first_events(scripts: Seq<ScriptModel>) -> Seq<DemoEvent>
    decreases scripts.len(),
{
    if scripts.len() == 0 {
        Seq::empty()
    } else {
        first_events(scripts.drop_last()) + scripts.last().start
    }
}

/// `after` is the core after these events, and after every answer to what the
/// core asked for then, for at most so many rounds.
pub open spec fn settles(
    core: CoreModel,
    stage: Seq<ScriptModel>,
    events: Seq<AdapterEvent>,
    now: u64,
    rounds: nat,
    after: CoreModel,
) -> bool
    decreases rounds,
{
    if rounds == 0 {
        after == core
    } else {
        let told = core.accepting_all(events, now).checked(now);
        let answers = answers_to_all(stage, told.commands_out().outbox);
        if answers.len() == 0 {
            after == told.flushed()
        } else {
            exists|more: Seq<AdapterEvent>| #[trigger]
                events_of(more) == answers && settles(
                    told.flushed(),
                    stage,
                    more,
                    now,
                    (rounds - 1) as nat,
                    after,
                )
        }
    }
}

/// `after` is the core after one user action and every answer to it.
pub open spec fn plays_one(
    core: CoreModel,
    stage: Seq<ScriptModel>,
    intent: Intent,
    now: u64,
    after: CoreModel,
) -> bool {
    let told = core.dispatched(intent, now);
    exists|more: Seq<AdapterEvent>| #[trigger]
        events_of(more) == answers_to_all(stage, told.commands_out().outbox) && settles(
            told.flushed(),
            stage,
            more,
            now,
            ROUNDS as nat,
            after,
        )
}

/// `after` is the core after these user actions, each with every answer to it.
/// An action that needs a number when none is left ends the play.
pub open spec fn plays(
    core: CoreModel,
    stage: Seq<ScriptModel>,
    intents: Seq<Intent>,
    now: u64,
    after: CoreModel,
) -> bool
    decreases intents.len(),
{
    if intents.len() == 0 || !core.has_number_for(intents.first()) {
        after == core
    } else {
        exists|mid: CoreModel| #[trigger]
            plays_one(core, stage, intents.first(), now, mid) && plays(
                mid,
                stage,
                intents.drop_first(),
                now,
                after,
            )
    }
}

/// The core of a scenario before its adapters start.
pub open spec fn opening_core(scenario: Scenario, build: Build) -> CoreModel {
    let core = CoreModel::started(
        SettingsModel::memory(),
        if scenario == Scenario::KeychainTryAgain {
            StoreModel::demo_read_failed()
        } else {
            StoreModel::demo_saved()
        },
        build,
        publisher_pair(DEMO_API_ID@, DEMO_API_HASH@),
    );
    core.with_state(
        SnapshotModel {
            extra_visible: core.state.extra_visible.union(visible_of(scenario).to_set()),
            ..core.state
        },
    )
}

/// `core` is at the screen of a scenario: its adapters started, its user
/// actions were played, and every answer came.
pub open spec fn is_staged(scenario: Scenario, build: Build, now: u64, core: CoreModel) -> bool {
    exists|events: Seq<AdapterEvent>, ready: CoreModel, intents: Seq<Intent>|
        #![trigger events_of(events), plays(ready, stage_of(scripts_of(scenario)), intents, now, core)]
        events_of(events) == first_events(scripts_of(scenario)) && settles(
            opening_core(scenario, build),
            stage_of(scripts_of(scenario)),
            events,
            now,
            ROUNDS as nat,
            ready,
        ) && reaches(scenario, intents) && plays(
            ready,
            stage_of(scripts_of(scenario)),
            intents,
            now,
            core,
        )
}

proof fn lemma_events_join(a: Seq<AdapterEvent>, b: Seq<AdapterEvent>)
    ensures
        events_of(a + b) == events_of(a) + events_of(b),
{
    assert(events_of(a + b) =~= events_of(a) + events_of(b));
}

/// What the adapters answer to one command.
fn answer_one(stage: &Vec<DemoScript>, command: &AdapterCommand) -> (r: Vec<AdapterEvent>)
    ensures
        events_of(r@) == answers_to(stage.deep_view(), command.deep_view()),
{
    let mut r: Vec<AdapterEvent> = Vec::new();
    let mut i: usize = 0;
    let ghost all = stage.deep_view();
    proof {
        assert(all.take(0) =~= Seq::empty());
        assert(events_of(r@) =~= Seq::empty());
    }
    while i < stage.len()
        invariant
            i <= stage.len(),
            all == stage.deep_view(),
            events_of(r@) == answers_to(all.take(i as int), command.deep_view()),
        decreases stage.len() - i,
    {
        proof {
            assert(all.take(i + 1).drop_last() =~= all.take(i as int));
            assert(all.take(i + 1).last() == stage@[i as int].deep_view());
        }
        if stage[i].protocol == command.target() {
            let mut more = stage[i].answer(command);
            proof {
                lemma_events_join(r@, more@);
            }
            r.append(&mut more);
        } else {
            proof {
                assert(events_of(r@) + Seq::<DemoEvent>::empty() =~= events_of(r@));
            }
        }
        i = i + 1;
    }
    assert(all.take(i as int) =~= all);
    r
}

/// What the adapters answer to commands, in order.
pub fn answers(stage: &Vec<DemoScript>, commands: &Vec<AdapterCommand>) -> (r: Vec<AdapterEvent>)
    ensures
        events_of(r@) == answers_to_all(stage.deep_view(), commands.deep_view()),
        r@.len() == answers_to_all(stage.deep_view(), commands.deep_view()).len(),
{
    let mut r: Vec<AdapterEvent> = Vec::new();
    let mut i: usize = 0;
    let ghost all = commands.deep_view();
    proof {
        assert(all.take(0) =~= Seq::empty());
        assert(events_of(r@) =~= Seq::empty());
    }
    while i < commands.len()
        invariant
            i <= commands.len(),
            all == commands.deep_view(),
            events_of(r@) == answers_to_all(stage.deep_view(), all.take(i as int)),
        decreases commands.len() - i,
    {
        proof {
            assert(all.take(i + 1).drop_last() =~= all.take(i as int));
            assert(all.take(i + 1).last() == commands@[i as int].deep_view());
        }
        let mut more = answer_one(stage, &commands[i]);
        proof {
            lemma_events_join(r@, more@);
        }
        r.append(&mut more);
        i = i + 1;
    }
    proof {
        assert(all.take(i as int) =~= all);
        assert(events_of(r@).len() == r@.len());
    }
    r
}

/// Hand these events to the core, and each answer to what it asks for.
fn settle(
    core: &mut Core,
    stage: &Vec<DemoScript>,
    events: Vec<AdapterEvent>,
    now: u64,
    rounds: usize,
)
    ensures
        settles(old(core)@, stage.deep_view(), events@, now, rounds as nat, final(core)@),
    decreases rounds,
{
    if rounds == 0 {
        return ;
    }
    let (_, effects) = core.pump(events, now);
    let more = answers(stage, &effects.commands);
    if more.is_empty() {
        return ;
    }
    settle(core, stage, more, now, rounds - 1);
}

/// Play user actions, each with every answer to it.
fn play(core: &mut Core, stage: &Vec<DemoScript>, intents: Vec<Intent>, now: u64)
    ensures
        plays(old(core)@, stage.deep_view(), intents@, now, final(core)@),
    decreases intents.len(),
{
    let mut rest = intents;
    if rest.is_empty() || !core.has_number(&rest[0]) {
        return ;
    }
    let ghost all = intents@;
    let ghost start = core@;
    let intent = rest.remove(0);
    proof {
        assert(intent == all.first());
        assert(rest@ =~= all.drop_first());
    }
    let effects = core.dispatch(intent, now);
    let more = answers(stage, &effects.commands);
    settle(core, stage, more, now, ROUNDS);
    proof {
        assert(plays_one(start, stage.deep_view(), all.first(), now, core@));
    }
    play(core, stage, rest, now);
}

/// The adapters of these scripts, and their start events.
fn open_stage(scripts: Vec<DemoScript>) -> (r: (Vec<DemoScript>, Vec<AdapterEvent>))
    ensures
        r.0.deep_view() == stage_of(scripts.deep_view()),
        events_of(r.1@) == first_events(scripts.deep_view()),
{
    let ghost all = scripts.deep_view();
    let ghost mut done: int = 0;
    let mut rest = scripts;
    let mut stage: Vec<DemoScript> = Vec::new();
    let mut events: Vec<AdapterEvent> = Vec::new();
    proof {
        assert(all.take(0) =~= Seq::empty());
        assert(all.skip(0) =~= all);
        assert(events_of(events@) =~= Seq::empty());
        assert(stage.deep_view() =~= stage_of(all.take(0)));
    }
    while rest.len() > 0
        invariant
            0 <= done <= all.len(),
            rest.deep_view() == all.skip(done),
            stage.deep_view() == stage_of(all.take(done)),
            events_of(events@) == first_events(all.take(done)),
        decreases rest.len(),
    {
        let ghost left = rest@;
        let ghost models = rest.deep_view();
        let ghost before = stage.deep_view();
        proof {
            assert(models.len() == left.len());
            assert(forall|i: int| 0 <= i < left.len() ==> models[i] == left[i].deep_view());
        }
        let script = rest.remove(0);
        let ghost model = script.deep_view();
        proof {
            assert(models[0] == left[0].deep_view());
            assert(model == all[done]);
            assert forall|i: int| 0 <= i < rest@.len() implies #[trigger] rest.deep_view()[i]
                == all.skip(done + 1)[i] by {
                assert(rest@[i] == left[i + 1]);
                assert(models[i + 1] == left[i + 1].deep_view());
                assert(models[i + 1] == all.skip(done)[i + 1]);
            }
            assert(rest.deep_view() =~= all.skip(done + 1));
            assert(all.take(done + 1).drop_last() =~= all.take(done));
            assert(all.take(done + 1).last() == model);
        }
        let DemoScript { protocol, start, history, page, older, send, login } = script;
        let mut start = start;
        proof {
            lemma_events_join(events@, start@);
        }
        events.append(&mut start);
        let quiet = DemoScript {
            protocol,
            start: Vec::new(),
            history,
            page,
            older,
            send,
            login,
        };
        proof {
            assert(quiet.deep_view().start =~= Seq::empty());
            assert(quiet.deep_view() == opened(model));
        }
        stage.push(quiet);
        proof {
            assert(stage.deep_view() =~= before.push(opened(model)));
            assert(stage_of(all.take(done + 1)) =~= stage_of(all.take(done)).push(opened(model)));
            done = done + 1;
        }
    }
    proof {
        assert(rest.deep_view().len() == rest.len());
        assert(all.take(done) =~= all);
    }
    (stage, events)
}

/// Show these protocols even when the build does not hold them.
fn show(core: &mut Core, protocols: &Vec<ProtocolId>)
    ensures
        final(core)@ == old(core)@.with_state(
            SnapshotModel {
                extra_visible: old(core)@.state.extra_visible.union(protocols@.to_set()),
                ..old(core)@.state
            },
        ),
{
    let ghost all = protocols@;
    let ghost start = core@;
    let mut i: usize = 0;
    proof {
        assert(start.state.extra_visible.union(all.take(0).to_set())
            =~= start.state.extra_visible);
    }
    while i < protocols.len()
        invariant
            i <= protocols.len(),
            all == protocols@,
            start == old(core)@,
            core@ == start.with_state(
                SnapshotModel {
                    extra_visible: start.state.extra_visible.union(all.take(i as int).to_set()),
                    ..start.state
                },
            ),
        decreases protocols.len() - i,
    {
        core.state.extra_visible.insert(protocols[i]);
        proof {
            let before = all.take(i as int);
            assert(all.take(i + 1) =~= before.push(all[i as int]));
            before.lemma_push_to_set_commute(all[i as int]);
            assert(start.state.extra_visible.union(all.take(i + 1).to_set())
                =~= start.state.extra_visible.union(before.to_set()).insert(all[i as int]));
        }
        i = i + 1;
    }
    assert(all.take(i as int) =~= all);
}

impl Scenario {
    /// A core at the screen of this scenario.
    pub fn build(self, build: Build, now: u64) -> (core: Core)
        ensures
            is_staged(self, build, now, core@),
    {
        let setup = self.setup();
        let secrets = if setup.keychain_failed {
            SecretStore::demo_read_failed()
        } else {
            SecretStore::demo_saved()
        };
        let config = CoreConfig::new(Settings::in_memory()).with_memory_secrets();
        let api = TelegramApiSource::with_publisher(DEMO_API_ID, DEMO_API_HASH);
        let mut core = Core::with_store(config, secrets, build, api);
        show(&mut core, &setup.visible);
        let ghost opening = core@;
        let (stage, events) = open_stage(setup.scripts);
        let ghost first = events@;
        settle(&mut core, &stage, events, now, ROUNDS);
        let ghost ready = core@;
        let ghost steps = setup.intents@;
        play(&mut core, &stage, setup.intents, now);
        proof {
            assert(opening == opening_core(self, build));
            assert(events_of(first) == first_events(scripts_of(self)));
            assert(plays(ready, stage_of(scripts_of(self)), steps, now, core@));
        }
        core
    }
}

proof fn lemma_settles_sound(
    core: CoreModel,
    stage: Seq<ScriptModel>,
    events: Seq<AdapterEvent>,
    now: u64,
    rounds: nat,
    after: CoreModel,
)
    requires
        core.state.sound(),
        settles(core, stage, events, now, rounds, after),
    ensures
        after.state.sound(),
    decreases rounds,
{
    if rounds > 0 {
        law_every_pump_keeps_the_core_sound(core, events, now);
        let told = core.accepting_all(events, now).checked(now);
        let answers = answers_to_all(stage, told.commands_out().outbox);
        if answers.len() > 0 {
            let more = choose|more: Seq<AdapterEvent>| #[trigger]
                events_of(more) == answers && settles(
                    told.flushed(),
                    stage,
                    more,
                    now,
                    (rounds - 1) as nat,
                    after,
                );
            lemma_settles_sound(told.flushed(), stage, more, now, (rounds - 1) as nat, after);
        }
    }
}

proof fn lemma_plays_sound(
    core: CoreModel,
    stage: Seq<ScriptModel>,
    intents: Seq<Intent>,
    now: u64,
    after: CoreModel,
)
    requires
        core.state.sound(),
        plays(core, stage, intents, now, after),
    ensures
        after.state.sound(),
    decreases intents.len(),
{
    if intents.len() > 0 && core.has_number_for(intents.first()) {
        let mid = choose|mid: CoreModel| #[trigger]
            plays_one(core, stage, intents.first(), now, mid) && plays(
                mid,
                stage,
                intents.drop_first(),
                now,
                after,
            );
        law_every_action_keeps_the_core_sound(core, intents.first(), now);
        let told = core.dispatched(intents.first(), now);
        let more = choose|more: Seq<AdapterEvent>| #[trigger]
            events_of(more) == answers_to_all(stage, told.commands_out().outbox) && settles(
                told.flushed(),
                stage,
                more,
                now,
                ROUNDS as nat,
                mid,
            );
        lemma_settles_sound(told.flushed(), stage, more, now, ROUNDS as nat, mid);
        lemma_plays_sound(mid, stage, intents.drop_first(), now, after);
    }
}

/// The core at the screen of a scenario is sound.
pub proof fn law_staged_core_is_sound(
    scenario: Scenario,
    build: Build,
    now: u64,
    core: CoreModel,
)
    requires
        is_staged(scenario, build, now, core),
    ensures
        core.state.sound(),
{
    let stage = stage_of(scripts_of(scenario));
    let (events, ready, intents) = choose|
        events: Seq<AdapterEvent>,
        ready: CoreModel,
        intents: Seq<Intent>,
    |
        #![trigger events_of(events), plays(ready, stage, intents, now, core)]
        events_of(events) == first_events(scripts_of(scenario)) && settles(
            opening_core(scenario, build),
            stage,
            events,
            now,
            ROUNDS as nat,
            ready,
        ) && reaches(scenario, intents) && plays(ready, stage, intents, now, core);
    let opening = opening_core(scenario, build);
    let secrets = if scenario == Scenario::KeychainTryAgain {
        StoreModel::demo_read_failed()
    } else {
        StoreModel::demo_saved()
    };
    let api = publisher_pair(DEMO_API_ID@, DEMO_API_HASH@);
    law_core_starts_sound(SettingsModel::memory(), secrets, build, api);
    let started = CoreModel::started(SettingsModel::memory(), secrets, build, api);
    law_other_changes_keep_the_state_sound(started.state, opening.state);
    lemma_settles_sound(opening, stage, events, now, ROUNDS as nat, ready);
    lemma_plays_sound(ready, stage, intents, now, core);
}

} // verus!
