//! What holds of a [`SerialWorker`](crate::serial_worker::SerialWorker) over many calls.
use crate::interface::{Command, DivansOutputResult, PredictionModeContextMap};
use crate::memory::{AllocatedMemoryPrefix, AllocatedMemoryRange};
use crate::serial_worker::{Mailbox, SLOTS};
use crate::threading::{CommandResult, ThreadData};
use vstd::prelude::*;

verus! {

/// A call of a serial worker, with what went in and what came out.
#[allow(inconsistent_fields)]
pub ghost enum Exchange {
    PushContextMap {
        cm: PredictionModeContextMap<AllocatedMemoryPrefix>,
        answer: Result<(), ()>,
    },
    PushData { data: AllocatedMemoryRange, left: AllocatedMemoryRange, answer: Result<(), ()> },
    Pull {
        cmd: Command<AllocatedMemoryPrefix>,
        consumed: AllocatedMemoryRange,
        cmd_left: Command<AllocatedMemoryPrefix>,
        consumed_left: AllocatedMemoryRange,
        answer: CommandResult,
    },
    PullData { answer: ThreadData },
    PullContextMap { answer: Result<PredictionModeContextMap<AllocatedMemoryPrefix>, ()> },
    PushCmd {
        cmd: Command<AllocatedMemoryPrefix>,
        left: Command<AllocatedMemoryPrefix>,
        answer: DivansOutputResult,
    },
    PushConsumedData {
        data: AllocatedMemoryRange,
        left: AllocatedMemoryRange,
        answer: DivansOutputResult,
    },
    PushEof { answer: DivansOutputResult },
}

impl Exchange {
    /// The call may have taken the mailbox from `pre` to `post`.
    pub open spec fn links(self, pre: Mailbox, post: Mailbox) -> bool {
        match self {
            Exchange::PushContextMap { cm, answer } => pre.context_map_pushed(cm, post, answer),
            Exchange::PushData { data, left, answer } => {
                &&& data.wf() || pre.data.len() == SLOTS
                &&& pre.data_pushed(data, post, left, answer)
            },
            Exchange::Pull { cmd, consumed, cmd_left, consumed_left, answer } => pre.pulled(
                cmd,
                consumed,
                post,
                cmd_left,
                consumed_left,
                answer,
            ),
            Exchange::PullData { answer } => pre.data_pulled(post, answer),
            Exchange::PullContextMap { answer } => pre.context_map_pulled(post, answer),
            Exchange::PushCmd { cmd, left, answer } => pre.cmd_pushed(cmd, post, left, answer),
            Exchange::PushConsumedData { data, left, answer } => pre.consumed_data_pushed(
                data,
                post,
                left,
                answer,
            ),
            Exchange::PushEof { answer } => pre.eof_pushed(post, answer),
        }
    }

    /// The input that the call put in the queue.
    pub open spec fn data_in(self) -> Seq<AllocatedMemoryRange> {
        match self {
            Exchange::PushData { data, answer: Ok(_), .. } => seq![data],
            _ => Seq::empty(),
        }
    }

    /// The input that the call took from the queue.
    pub open spec fn data_out(self) -> Seq<AllocatedMemoryRange> {
        match self {
            Exchange::PullData { answer: ThreadData::Data(range) } => seq![range],
            _ => Seq::empty(),
        }
    }

    /// The context maps that the call put with those that wait.
    pub open spec fn context_map_in(self) -> Seq<PredictionModeContextMap<AllocatedMemoryPrefix>> {
        match self {
            Exchange::PushContextMap { cm, answer: Ok(_) } => seq![cm],
            _ => Seq::empty(),
        }
    }

    /// The context maps that the call took from those that wait.
    pub open spec fn context_map_out(self) -> Seq<PredictionModeContextMap<AllocatedMemoryPrefix>> {
        match self {
            Exchange::PullContextMap { answer: Ok(cm) } => seq![cm],
            _ => Seq::empty(),
        }
    }

    /// The command that the call put in the queue.
    pub open spec fn command_in(self) -> Seq<Command<AllocatedMemoryPrefix>> {
        match self {
            Exchange::PushCmd { cmd, answer: DivansOutputResult::Success, .. } => seq![cmd],
            _ => Seq::empty(),
        }
    }

    /// The command that the call took from the queue.
    pub open spec fn command_out(self) -> Seq<Command<AllocatedMemoryPrefix>> {
        match self {
            Exchange::Pull { cmd_left, answer: CommandResult::Cmd, .. } => seq![cmd_left],
            _ => Seq::empty(),
        }
    }

    /// The spent buffer that the call put in the queue.
    pub open spec fn consumed_in(self) -> Seq<AllocatedMemoryRange> {
        match self {
            Exchange::PushConsumedData { data, answer: DivansOutputResult::Success, .. } => seq![
                data,
            ],
            _ => Seq::empty(),
        }
    }

    /// The spent buffer that the call took from the queue.
    pub open spec fn consumed_out(self) -> Seq<AllocatedMemoryRange> {
        match self {
            Exchange::Pull { consumed_left, answer: CommandResult::ProcessedData, .. } => seq![
                consumed_left,
            ],
            _ => Seq::empty(),
        }
    }
}

/// What each call of a sequence contributes, one after the other.
pub open spec fn gathered<Call, T>(calls: Seq<Call>, part: spec_fn(Call) -> Seq<T>) -> Seq<T>
    decreases calls.len(),
{
    if calls.len() == 0 {
        Seq::empty()
    } else {
        gathered(calls.drop_last(), part) + part(calls.last())
    }
}

/// The mailbox went through `states` by `calls`, each from one state to the next.
pub open spec fn is_run(states: Seq<Mailbox>, calls: Seq<Exchange>) -> bool {
    &&& states.len() == calls.len() + 1
    &&& forall|i: int|
        0 <= i < calls.len() ==> (#[trigger] calls[i]).links(states[i], states[i + 1])
}

/// Where each call takes from the front of a queue and adds to its end, what was taken,
/// followed by what waits at the end, is what waited at the start, followed by what was added.
pub(crate) proof fn lemma_in_order<State, Call, T>(
    states: Seq<State>,
    calls: Seq<Call>,
    queue: spec_fn(State) -> Seq<T>,
    out: spec_fn(Call) -> Seq<T>,
    given: spec_fn(Call) -> Seq<T>,
)
    requires
        states.len() == calls.len() + 1,
        forall|i: int|
            0 <= i < calls.len() ==> out(#[trigger] calls[i]) + queue(states[i + 1]) == queue(
                states[i],
            ) + given(calls[i]),
    ensures
        gathered(calls, out) + queue(states.last()) == queue(states.first()) + gathered(
            calls,
            given,
        ),
    decreases calls.len(),
{
    if calls.len() == 0 {
        assert(gathered(calls, out) + queue(states.last()) =~= queue(states.first()) + gathered(
            calls,
            given,
        ));
    } else {
        let n = calls.len() - 1;
        let before = calls.drop_last();
        assert forall|i: int| 0 <= i < before.len() implies out(#[trigger] before[i]) + queue(
            states.drop_last()[i + 1],
        ) == queue(states.drop_last()[i]) + given(before[i]) by {
            assert(calls[i] == before[i]);
        }
        lemma_in_order(states.drop_last(), before, queue, out, given);
        let outs = gathered(before, out);
        let ins = gathered(before, given);
        let call = calls[n];
        assert(gathered(calls, out) + queue(states.last()) =~= outs + (out(call) + queue(
            states[n + 1],
        )));
        assert(outs + (queue(states[n]) + given(call)) =~= (outs + queue(states[n])) + given(call));
        assert((queue(states.first()) + ins) + given(call) =~= queue(states.first()) + gathered(
            calls,
            given,
        ));
    }
}

/// No call takes a mailbox out of its bounds: no queue ever holds more than it has room
/// for, and no input in it is without bytes.
pub proof fn law_bounds_are_kept(states: Seq<Mailbox>, calls: Seq<Exchange>)
    requires
        is_run(states, calls),
        states.first().wf(),
    ensures
        forall|i: int| 0 <= i < states.len() ==> (#[trigger] states[i]).wf(),
{
    assert forall|i: int| 0 <= i < states.len() implies (#[trigger] states[i]).wf() by {
        lemma_bounds_are_kept_up_to(states, calls, i);
    }
}

/// The mailbox is within its bounds at each state of a run.
proof fn lemma_bounds_are_kept_up_to(states: Seq<Mailbox>, calls: Seq<Exchange>, i: int)
    requires
        is_run(states, calls),
        states.first().wf(),
        0 <= i < states.len(),
    ensures
        states[i].wf(),
    decreases i,
{
    if i > 0 {
        lemma_bounds_are_kept_up_to(states, calls, i - 1);
        assert(calls[i - 1].links(states[i - 1], states[i]));
    }
}

/// Input comes out in the order in which it went in, each range once and none left out:
/// what was taken, followed by what waits at the end, is what waited at the start, followed
/// by what was put in.
pub proof fn law_input_in_order(states: Seq<Mailbox>, calls: Seq<Exchange>)
    requires
        is_run(states, calls),
    ensures
        gathered(calls, |call: Exchange| call.data_out()) + states.last().data
            == states.first().data + gathered(calls, |call: Exchange| call.data_in()),
{
    let out = |call: Exchange| call.data_out();
    let given = |call: Exchange| call.data_in();
    let queue = |state: Mailbox| state.data;
    assert forall|i: int| 0 <= i < calls.len() implies out(#[trigger] calls[i]) + queue(
        states[i + 1],
    ) == queue(states[i]) + given(calls[i]) by {
        assert(calls[i].links(states[i], states[i + 1]));
        assert(out(calls[i]) + states[i + 1].data =~= states[i].data + given(calls[i]));
    }
    lemma_in_order(states, calls, queue, out, given);
}

/// Commands come out in the order in which they went in, each once and none left out.
pub proof fn law_commands_in_order(states: Seq<Mailbox>, calls: Seq<Exchange>)
    requires
        is_run(states, calls),
    ensures
        gathered(calls, |call: Exchange| call.command_out()) + states.last().commands
            == states.first().commands + gathered(calls, |call: Exchange| call.command_in()),
{
    let out = |call: Exchange| call.command_out();
    let given = |call: Exchange| call.command_in();
    let queue = |state: Mailbox| state.commands;
    assert forall|i: int| 0 <= i < calls.len() implies out(#[trigger] calls[i]) + queue(
        states[i + 1],
    ) == queue(states[i]) + given(calls[i]) by {
        assert(calls[i].links(states[i], states[i + 1]));
        assert(out(calls[i]) + states[i + 1].commands =~= states[i].commands + given(calls[i]));
    }
    lemma_in_order(states, calls, queue, out, given);
}

/// Spent buffers come out in the order in which they went in, each once and none left out.
pub proof fn law_spent_buffers_in_order(states: Seq<Mailbox>, calls: Seq<Exchange>)
    requires
        is_run(states, calls),
    ensures
        gathered(calls, |call: Exchange| call.consumed_out()) + states.last().consumed
            == states.first().consumed + gathered(calls, |call: Exchange| call.consumed_in()),
{
    let out = |call: Exchange| call.consumed_out();
    let given = |call: Exchange| call.consumed_in();
    let queue = |state: Mailbox| state.consumed;
    assert forall|i: int| 0 <= i < calls.len() implies out(#[trigger] calls[i]) + queue(
        states[i + 1],
    ) == queue(states[i]) + given(calls[i]) by {
        assert(calls[i].links(states[i], states[i + 1]));
        assert(out(calls[i]) + states[i + 1].consumed =~= states[i].consumed + given(calls[i]));
    }
    lemma_in_order(states, calls, queue, out, given);
}

/// No context maps are lost or doubled, in whatever order they come and go: those taken and
/// those that wait at the end are together those that waited at the start and those put in.
pub proof fn law_context_maps_are_kept(states: Seq<Mailbox>, calls: Seq<Exchange>)
    requires
        is_run(states, calls),
    ensures
        gathered(calls, |call: Exchange| call.context_map_out()).to_multiset().add(
            states.last().context_maps.to_multiset(),
        ) == states.first().context_maps.to_multiset().add(
            gathered(calls, |call: Exchange| call.context_map_in()).to_multiset(),
        ),
    decreases calls.len(),
{
    broadcast use vstd::seq_lib::group_to_multiset_ensures;

    let out = |call: Exchange| call.context_map_out();
    let given = |call: Exchange| call.context_map_in();
    if calls.len() == 0 {
        assert(gathered(calls, out) == gathered(calls, given));
        assert(states.first() == states.last());
        assert(gathered(calls, out).to_multiset().add(states.last().context_maps.to_multiset())
            =~= states.first().context_maps.to_multiset().add(
            gathered(calls, given).to_multiset(),
        ));
    } else {
        let n = calls.len() - 1;
        let before = calls.drop_last();
        assert forall|i: int| 0 <= i < before.len() implies (#[trigger] before[i]).links(
            states.drop_last()[i],
            states.drop_last()[i + 1],
        ) by {
            assert(calls[i].links(states[i], states[i + 1]));
        }
        law_context_maps_are_kept(states.drop_last(), before);
        let call = calls[n];
        let pre = states[n].context_maps;
        let post = states[n + 1].context_maps;
        assert(call.links(states[n], states[n + 1]));
        vstd::seq_lib::lemma_multiset_commutative(pre, call.context_map_in());
        vstd::seq_lib::lemma_multiset_commutative(gathered(before, out), call.context_map_out());
        vstd::seq_lib::lemma_multiset_commutative(gathered(before, given), call.context_map_in());
        vstd::seq_lib::lemma_multiset_commutative(post, call.context_map_out());
        match call {
            Exchange::PullContextMap { answer: Ok(cm) } => {
                assert(post + call.context_map_out() =~= pre);
                assert(pre + call.context_map_in() =~= pre);
            },
            _ => {
                assert(post + call.context_map_out() =~= post);
                assert(post =~= pre + call.context_map_in());
            },
        }
        let outs = gathered(before, out).to_multiset();
        let ins = gathered(before, given).to_multiset();
        let first = states.first().context_maps.to_multiset();
        assert(gathered(calls, out).to_multiset().add(post.to_multiset()) =~= outs.add(
            pre.to_multiset(),
        ).add(call.context_map_in().to_multiset()));
        assert(states.drop_last().last() == states[n]);
        assert(states.drop_last().first() == states.first());
        assert(outs.add(pre.to_multiset()) == first.add(ins));
        assert(first.add(ins).add(call.context_map_in().to_multiset()) =~= first.add(
            gathered(calls, given).to_multiset(),
        ));
    }
}

/// The end, once announced, is never taken back.
pub proof fn law_announced_end_stays(states: Seq<Mailbox>, calls: Seq<Exchange>, i: int, j: int)
    requires
        is_run(states, calls),
        0 <= i <= j < states.len(),
        states[i].eof,
    ensures
        states[j].eof,
    decreases j - i,
{
    if i < j {
        law_announced_end_stays(states, calls, i, j - 1);
        assert(calls[j - 1].links(states[j - 1], states[j]));
    }
}

/// The main thread is told of the end only after it has been announced, and after every
/// command and every spent buffer that was handed over by then has been taken.
pub proof fn law_end_is_told_last(states: Seq<Mailbox>, calls: Seq<Exchange>)
    requires
        is_run(states, calls),
        states.first() == Mailbox::empty(),
        calls.len() > 0,
        calls.last() matches Exchange::Pull { answer, .. } && answer == CommandResult::Eof,
    ensures
        states.last().eof,
        gathered(calls, |call: Exchange| call.command_out()) == gathered(
            calls,
            |call: Exchange| call.command_in(),
        ),
        gathered(calls, |call: Exchange| call.consumed_out()) == gathered(
            calls,
            |call: Exchange| call.consumed_in(),
        ),
{
    let n = calls.len() - 1;
    assert(calls[n].links(states[n], states[n + 1]));
    law_commands_in_order(states, calls);
    law_spent_buffers_in_order(states, calls);
    assert(gathered(calls, |call: Exchange| call.command_out()) + states.last().commands
        =~= gathered(calls, |call: Exchange| call.command_out()));
    assert(states.first().commands + gathered(calls, |call: Exchange| call.command_in())
        =~= gathered(calls, |call: Exchange| call.command_in()));
    assert(gathered(calls, |call: Exchange| call.consumed_out()) + states.last().consumed
        =~= gathered(calls, |call: Exchange| call.consumed_out()));
    assert(states.first().consumed + gathered(calls, |call: Exchange| call.consumed_in())
        =~= gathered(calls, |call: Exchange| call.consumed_in()));
}

/// Context maps are taken back last in, first out: a pull undoes the push before it.
pub proof fn law_context_map_pull_undoes_push(
    pre: Mailbox,
    cm: PredictionModeContextMap<AllocatedMemoryPrefix>,
    pushed: Mailbox,
    post: Mailbox,
    answer: Result<PredictionModeContextMap<AllocatedMemoryPrefix>, ()>,
)
    requires
        pre.context_map_pushed(cm, pushed, Ok(())),
        pushed.context_map_pulled(post, answer),
    ensures
        answer == Ok::<PredictionModeContextMap<AllocatedMemoryPrefix>, ()>(cm),
        post == pre,
{
    assert(pre.context_maps.push(cm).drop_last() =~= pre.context_maps);
}

/// A call that is refused changes neither the worker nor what the caller offered.
pub proof fn law_refusal_changes_nothing(call: Exchange, pre: Mailbox, post: Mailbox)
    requires
        call.links(pre, post),
        match call {
            Exchange::PushContextMap { answer, .. } => answer is Err,
            Exchange::PushData { answer, .. } => answer is Err,
            Exchange::Pull { answer, .. } => answer == CommandResult::Yield || answer
                == CommandResult::Eof,
            Exchange::PullData { answer } => answer !is Data,
            Exchange::PullContextMap { answer } => answer is Err,
            Exchange::PushCmd { answer, .. } => answer != DivansOutputResult::Success,
            Exchange::PushConsumedData { answer, .. } => answer != DivansOutputResult::Success,
            Exchange::PushEof { answer } => answer != DivansOutputResult::Success,
        },
    ensures
        post == pre,
        match call {
            Exchange::PushData { data, left, .. } => left == data,
            Exchange::Pull { cmd, consumed, cmd_left, consumed_left, .. } => cmd_left == cmd
                && consumed_left == consumed,
            Exchange::PushCmd { cmd, left, .. } => left == cmd,
            Exchange::PushConsumedData { data, left, .. } => left == data,
            _ => true,
        },
{
}

/// A call that hands something over is refused only for want of room in its own queue, or,
/// for input, for want of bytes in it; what waits in the other queues makes no difference.
/// Announcing the end is never refused.
pub proof fn law_refused_only_for_want_of_room(call: Exchange, pre: Mailbox, post: Mailbox)
    requires
        pre.wf(),
        call.links(pre, post),
    ensures
        call matches Exchange::PushContextMap { answer, .. } ==> (answer is Ok
            <==> pre.context_maps.len() < 2),
        call matches Exchange::PushData { data, answer, .. } ==> (answer is Ok <==> pre.data.len()
            < 2 && data.1.start < data.1.end),
        call matches Exchange::PushCmd { answer, .. } ==> (answer is Success
            <==> pre.commands.len() < 2),
        call matches Exchange::PushConsumedData { answer, .. } ==> (answer is Success
            <==> pre.consumed.len() < 2),
        call matches Exchange::PushEof { answer } ==> answer is Success,
{
}

/// A call that takes something out gets it whenever any waits. The main thread gets a spent
/// buffer if one waits, and else a command if one waits; it is told of the end, or to yield,
/// if and only if neither does.
pub proof fn law_what_waits_is_handed_out(call: Exchange, pre: Mailbox, post: Mailbox)
    requires
        call.links(pre, post),
    ensures
        call matches Exchange::Pull { answer, .. } ==> {
            &&& answer is ProcessedData <==> pre.consumed.len() > 0
            &&& answer is Cmd <==> pre.consumed.len() == 0 && pre.commands.len() > 0
            &&& answer is Eof <==> pre.consumed.len() == 0 && pre.commands.len() == 0 && pre.eof
            &&& answer is Yield <==> pre.consumed.len() == 0 && pre.commands.len() == 0 && !pre.eof
        },
        call matches Exchange::PullData { answer } ==> {
            &&& answer is Data <==> pre.data.len() > 0
            &&& answer is Yield <==> pre.data.len() == 0
        },
        call matches Exchange::PullContextMap { answer } ==> (answer is Ok
            <==> pre.context_maps.len() > 0),
{
}

/// Once the end has been announced, with whatever still under way, every later pull that
/// finds neither a spent buffer nor a command tells the main thread of it.
pub proof fn law_announced_end_is_told(states: Seq<Mailbox>, calls: Seq<Exchange>, i: int, j: int)
    requires
        is_run(states, calls),
        0 <= i < j < calls.len(),
        calls[i] is PushEof,
        calls[j] is Pull,
        states[j].consumed.len() == 0,
        states[j].commands.len() == 0,
    ensures
        calls[j] matches Exchange::Pull { answer, .. } && answer is Eof,
{
    assert(calls[i].links(states[i], states[i + 1]));
    law_announced_end_stays(states, calls, i + 1, j);
    assert(calls[j].links(states[j], states[j + 1]));
}

/// Input that was refused for want of room is taken once the worker has pulled.
pub proof fn law_pull_makes_room_for_input(
    pre: Mailbox,
    pulled: Mailbox,
    got: ThreadData,
    data: AllocatedMemoryRange,
    post: Mailbox,
    left: AllocatedMemoryRange,
    answer: Result<(), ()>,
)
    requires
        pre.wf(),
        data.unread().len() > 0,
        pre.data_pulled(pulled, got),
        pulled.data_pushed(data, post, left, answer),
    ensures
        answer is Ok,
{
}

/// A command that was refused is taken once the main thread has pulled with no spent
/// buffer in front of the commands.
pub proof fn law_pull_makes_room_for_commands(
    pre: Mailbox,
    pulled: Mailbox,
    call: Exchange,
    cmd: Command<AllocatedMemoryPrefix>,
    post: Mailbox,
    left: Command<AllocatedMemoryPrefix>,
    answer: DivansOutputResult,
)
    requires
        pre.wf(),
        pre.consumed.len() == 0,
        call is Pull,
        call.links(pre, pulled),
        pulled.cmd_pushed(cmd, post, left, answer),
    ensures
        answer == DivansOutputResult::Success,
{
}

/// A spent buffer that was refused is taken once the main thread has pulled.
pub proof fn law_pull_makes_room_for_spent_buffers(
    pre: Mailbox,
    pulled: Mailbox,
    call: Exchange,
    data: AllocatedMemoryRange,
    post: Mailbox,
    left: AllocatedMemoryRange,
    answer: DivansOutputResult,
)
    requires
        pre.wf(),
        call is Pull,
        call.links(pre, pulled),
        pulled.consumed_data_pushed(data, post, left, answer),
    ensures
        answer == DivansOutputResult::Success,
{
}

} // verus!
