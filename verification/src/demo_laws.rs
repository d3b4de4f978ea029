//! What the demo adapters answer, said over the messages of their scripts.

use crate::demo::{
    DemoEvent, DemoLogin, DemoOlder, DemoSend, Scenario, ScriptModel, login_answer, pair_chat,
    scripts_of,
};
use crate::lists::{first_index, lemma_first_index};
use crate::protocol::{
    CommandModel, Delivery, MessageModel, ProtocolId, TelegramAuthPhase, TelegramAuthStep, Text,
};
use crate::stage::{answers_to, answers_to_all};
use crate::state::model::message_is;
use crate::text::{decimal, law_decimal_reads_back};
use vstd::prelude::*;
use vstd::string::*;

verus! {

/// The events bring the messages from `from` to `to`, oldest first, and then end
/// with one more event.
pub open spec fn brings(
    events: Seq<DemoEvent>,
    rows: Seq<MessageModel>,
    from: int,
    to: int,
) -> bool {
    &&& 0 <= from <= to <= rows.len()
    &&& events.len() == to - from + 1
    &&& forall|k: int|
        0 <= k < to - from ==> #[trigger] events[k] == (DemoEvent::Message { row: rows[from + k] })
}

/// An opened chat brings its newest messages, oldest first: a whole page, or all
/// of them when there are fewer. The end of the load comes last.
pub proof fn law_opened_chat_brings_its_last_page(
    script: ScriptModel,
    protocol: ProtocolId,
    id: Text,
)
    requires
        script.history.contains_key(id),
    ensures
        ({
            let events = script.answer(CommandModel::OpenChat { protocol, conversation_id: id });
            let rows = script.history[id];
            let n = rows.len() as int;
            &&& n > script.page ==> brings(events, rows, n - script.page, n)
            &&& n <= script.page ==> brings(events, rows, 0, n)
            &&& events.last() == (DemoEvent::HistoryLoaded { chat: (protocol, id) })
        }),
{
}

/// A page of older messages ends right before the message that it names, and
/// holds a whole page, or all that there are. It says whether more are left. A
/// script that holds answers nothing.
pub proof fn law_older_page_ends_before_its_message(
    script: ScriptModel,
    protocol: ProtocolId,
    id: Text,
    before: Text,
    at: int,
)
    requires
        script.history.contains_key(id),
        0 <= at < script.history[id].len(),
        script.history[id][at].id == before,
        forall|k: int| 0 <= k < at ==> (#[trigger] script.history[id][k]).id != before,
    ensures
        ({
            let events = script.answer(
                CommandModel::LoadOlderMessages {
                    protocol,
                    conversation_id: id,
                    before_message_id: before,
                },
            );
            let rows = script.history[id];
            &&& script.older == DemoOlder::Hold ==> events.len() == 0
            &&& script.older == DemoOlder::Page && at > script.page ==> brings(
                events,
                rows,
                at - script.page,
                at,
            )
            &&& script.older == DemoOlder::Page && at <= script.page ==> brings(events, rows, 0, at)
            &&& script.older == DemoOlder::Page ==> events.last() == (DemoEvent::OlderLoaded {
                chat: (protocol, id),
                before,
                more: at > script.page,
                note: None,
            })
        }),
{
    let rows = script.history[id];
    lemma_first_index(rows, message_is(before));
    let first = first_index(rows, message_is(before));
    assert(message_is(before)(rows[at]));
    assert(message_is(before)(rows[first]));
    if first < at {
        assert(rows[first].id != before);
    }
}

/// A sent text comes back as one message of the user in its chat, whole, with
/// how far it came, and then the answer to its own request. A script that holds
/// sends no answer. Two requests make two messages.
pub proof fn law_sent_text_comes_back(
    script: ScriptModel,
    protocol: ProtocolId,
    id: Text,
    body: Text,
    request: u64,
    other: u64,
)
    ensures
        ({
            let events = script.answer(
                CommandModel::SendText { protocol, conversation_id: id, body, request },
            );
            let again = script.answer(
                CommandModel::SendText { protocol, conversation_id: id, body, request: other },
            );
            let row = events[0]->Message_row;
            &&& events.len() > 0 && events[0] is Message
            &&& row.body == body && row.conversation_id == id && row.outbound && row.sender
                == "You"@
            &&& script.send == DemoSend::Accept ==> events.len() == 2 && row.delivery
                == Delivery::Sent && events[1] == (DemoEvent::Accepted {
                chat: (protocol, id),
                request,
            })
            &&& script.send == DemoSend::Reject ==> events.len() == 2 && row.delivery
                == Delivery::Failed && events[1] == (DemoEvent::Rejected {
                chat: (protocol, id),
                request,
            })
            &&& script.send == DemoSend::Hold ==> events.len() == 1 && row.delivery
                == Delivery::Pending
            &&& request != other ==> again[0]->Message_row.id != row.id
        }),
{
    law_decimal_reads_back(request as nat);
    law_decimal_reads_back(other as nat);
    let front = id + ":sent-"@;
    let a = decimal(request as nat);
    let b = decimal(other as nat);
    if request != other && front + a == front + b {
        assert((front + a).skip(front.len() as int) =~= a);
        assert((front + b).skip(front.len() as int) =~= b);
    }
}

/// A login step gets the first answer that the script has for it, under the
/// client that asked: the next phase, or the refusal and the failed phase. A
/// step without an answer gets none.
pub proof fn law_login_step_gets_its_answer(
    script: ScriptModel,
    step: TelegramAuthStep,
    epoch: u64,
    i: int,
)
    ensures
        0 <= i < script.login.len() && script.login[i].0 == step && (forall|k: int|
            0 <= k < i ==> (#[trigger] script.login[k]).0 != step) ==> script.answer(
            CommandModel::TelegramAuth { step, epoch },
        ) == (match script.login[i].1 {
            DemoLogin::Phase(phase) => seq![DemoEvent::LoginPhase { epoch, phase }],
            DemoLogin::Reject(error) => seq![
                DemoEvent::LoginRejected { epoch, error },
                DemoEvent::LoginPhase { epoch, phase: TelegramAuthPhase::Failed },
            ],
        }),
        (forall|k: int| 0 <= k < script.login.len() ==> (#[trigger] script.login[k]).0 != step)
            ==> script.answer(CommandModel::TelegramAuth { step, epoch }).len() == 0,
{
    lemma_login_answer(script.login, step, i);
}

proof fn lemma_login_answer(
    login: Seq<(TelegramAuthStep, DemoLogin)>,
    step: TelegramAuthStep,
    i: int,
)
    ensures
        0 <= i < login.len() && login[i].0 == step && (forall|k: int|
            0 <= k < i ==> (#[trigger] login[k]).0 != step) ==> login_answer(login, step) == Some(
            login[i].1,
        ),
        (forall|k: int| 0 <= k < login.len() ==> (#[trigger] login[k]).0 != step) ==> login_answer(
            login,
            step,
        ).is_none(),
    decreases login.len(),
{
    if login.len() > 0 {
        let rest = login.drop_first();
        assert forall|k: int| 0 <= k < rest.len() implies #[trigger] rest[k] == login[k + 1] by {}
        lemma_login_answer(rest, step, i - 1);
        if 0 < i < login.len() {
            assert(rest[i - 1] == login[i]);
        }
    }
}

/// A shutdown is answered with the end of that adapter.
pub proof fn law_shutdown_is_answered(script: ScriptModel, protocol: ProtocolId)
    ensures
        script.answer(CommandModel::Shutdown { protocol }) == seq![
            DemoEvent::Stopped { protocol },
        ],
{
}

proof fn lemma_nobody_answers(scripts: Seq<ScriptModel>, command: CommandModel)
    requires
        forall|k: int|
            0 <= k < scripts.len() ==> (#[trigger] scripts[k]).protocol != command.target(),
    ensures
        answers_to(scripts, command) == Seq::<DemoEvent>::empty(),
    decreases scripts.len(),
{
    if scripts.len() > 0 {
        let front = scripts.drop_last();
        assert forall|k: int| 0 <= k < front.len() implies (#[trigger] front[k]).protocol
            != command.target() by {
            assert(front[k] == scripts[k]);
        }
        lemma_nobody_answers(front, command);
        assert(scripts[scripts.len() - 1].protocol != command.target());
        assert(answers_to(scripts, command) =~= Seq::empty());
    }
}

/// The adapter of the command's protocol answers it, and no other one.
pub proof fn law_its_own_adapter_answers(
    scripts: Seq<ScriptModel>,
    command: CommandModel,
    i: int,
)
    requires
        0 <= i < scripts.len(),
        scripts[i].protocol == command.target(),
        forall|k: int|
            0 <= k < scripts.len() && k != i ==> (#[trigger] scripts[k]).protocol
                != command.target(),
    ensures
        answers_to(scripts, command) == scripts[i].answer(command),
    decreases scripts.len(),
{
    let front = scripts.drop_last();
    assert forall|k: int| 0 <= k < front.len() implies #[trigger] front[k] == scripts[k] by {}
    if i == scripts.len() - 1 {
        lemma_nobody_answers(front, command);
        assert(answers_to(scripts, command) =~= scripts[i].answer(command));
    } else {
        law_its_own_adapter_answers(front, command, i);
        assert(scripts[scripts.len() - 1].protocol != command.target());
        assert(answers_to(scripts, command) =~= scripts[i].answer(command));
    }
}

/// Commands are answered one after the other.
pub proof fn law_answers_come_in_order(
    scripts: Seq<ScriptModel>,
    first: Seq<CommandModel>,
    second: Seq<CommandModel>,
)
    ensures
        answers_to_all(scripts, first + second) == answers_to_all(scripts, first)
            + answers_to_all(scripts, second),
        second.len() == 1 ==> answers_to_all(scripts, second) == answers_to(scripts, second[0]),
    decreases second.len(),
{
    if second.len() == 0 {
        assert(first + second =~= first);
        assert(answers_to_all(scripts, first) + answers_to_all(scripts, second) =~= answers_to_all(
            scripts,
            first,
        ));
    } else {
        let front = second.drop_last();
        law_answers_come_in_order(scripts, first, front);
        assert((first + second).drop_last() =~= first + front);
        assert((first + second).last() == second.last());
        assert(answers_to_all(scripts, first + second) =~= answers_to_all(scripts, first)
            + answers_to_all(scripts, second));
        if second.len() == 1 {
            assert(front =~= Seq::empty());
            assert(answers_to_all(scripts, second) =~= answers_to(scripts, second[0]));
        }
    }
}

/// In each scenario every protocol has one adapter.
pub proof fn law_scripts_are_of_different_protocols(scenario: Scenario, i: int, j: int)
    requires
        0 <= i < j < scripts_of(scenario).len(),
    ensures
        scripts_of(scenario)[i].protocol != scripts_of(scenario)[j].protocol,
        scripts_of(scenario)[0].protocol == ProtocolId::Telegram,
{
}

/// A demo chat of two people holds as many messages as it should, oldest first,
/// twenty minutes apart, up to one hour and twenty minutes before the fixed time.
/// Each has an id of its own, and is the user's exactly when the user is its
/// sender.
pub proof fn law_demo_chat_is_in_order(chat: Text, count: nat, i: int, j: int)
    requires
        count <= 1_000_000,
        0 <= i < j < count,
    ensures
        ({
            let rows = pair_chat(chat, count);
            &&& rows.len() == count
            &&& rows[j].sent_at - rows[i].sent_at == (j - i) * 1_200
            &&& rows[count - 1].sent_at == 1_772_445_600 - 3_600 - 1_200
            &&& rows[i].id != rows[j].id
            &&& rows[i].conversation_id == chat
            &&& rows[i].outbound == (rows[i].sender == "You"@)
            &&& i % 3 == 1 ==> rows[i].outbound
            &&& rows[i].delivery == Delivery::Sent
        }),
{
    law_decimal_reads_back(i as nat);
    law_decimal_reads_back(j as nat);
    let front = chat.push(':');
    let a = decimal(i as nat);
    let b = decimal(j as nat);
    if front + a == front + b {
        assert((front + a).skip(front.len() as int) =~= a);
        assert((front + b).skip(front.len() as int) =~= b);
    }
}

} // verus!
