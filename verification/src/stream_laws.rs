//! What holds of a [`ThreadToMainDemuxer`](crate::demuxer::ThreadToMainDemuxer) over many
//! calls, of any worker or of a serial one.
use crate::demuxer::{Demuxing, ThreadToMainDemuxer};
use crate::interface::{Allocator, Command, DivansOutputResult, WellFormed};
use crate::laws::{gathered, lemma_in_order, Exchange};
use crate::memory::{AllocatedMemoryPrefix, AllocatedMemoryRange};
use crate::serial_worker::{Mailbox, SerialWorker, SLOTS};
use crate::threading::{CommandResult, MainToThread, ThreadData, ThreadToMain};
use core::ops::Range;
use vstd::prelude::*;

verus! {

/// The worker of a demuxer is within its bounds, and so is the range being read.
pub open spec fn sound<AllocU8: Allocator>(state: Demuxing<SerialWorker<AllocU8>>) -> bool {
    &&& state.worker@.wf()
    &&& state.slice.wf()
}

/// A demuxer over a serial worker is sound whenever it is usable and no range that was
/// lent has been left outside its buffer.
pub proof fn law_usable_demuxer_is_sound<AllocU8: Allocator>(
    demuxer: ThreadToMainDemuxer<AllocU8, SerialWorker<AllocU8>>,
)
    requires
        demuxer.wf(),
        demuxer@.slice.wf(),
    ensures
        sound(demuxer@),
{
    demuxer@.worker.law_mailbox_is_bounded();
}

/// The bytes that a codec has still to read, in order: those at hand and those that wait.
pub open spec fn bytes_ahead<AllocU8: Allocator>(
    state: Demuxing<SerialWorker<AllocU8>>,
) -> Seq<u8> {
    state.slice.unread() + gathered(
        state.worker@.data,
        |range: AllocatedMemoryRange| range.unread(),
    )
}

/// The memory of a range, if it has any.
pub open spec fn memory_of(range: AllocatedMemoryRange) -> Seq<Vec<u8>> {
    if range.0@.len() != 0 {
        seq![range.0]
    } else {
        Seq::empty()
    }
}

/// The buffers that the main thread has given and not taken back, in order: the spent ones,
/// the one being read, and those that wait.
pub open spec fn buffers_out<AllocU8: Allocator>(
    state: Demuxing<SerialWorker<AllocU8>>,
) -> Seq<Vec<u8>> {
    gathered(state.worker@.consumed, |range: AllocatedMemoryRange| memory_of(range)) + memory_of(
        state.slice,
    ) + gathered(state.worker@.data, |range: AllocatedMemoryRange| memory_of(range))
}

/// What a sequence contributes begins with what its first element does.
proof fn lemma_gathered_first<Call, T>(calls: Seq<Call>, part: spec_fn(Call) -> Seq<T>)
    requires
        calls.len() > 0,
    ensures
        gathered(calls, part) == part(calls.first()) + gathered(calls.drop_first(), part),
    decreases calls.len(),
{
    if calls.len() == 1 {
        assert(calls.drop_last() =~= Seq::<Call>::empty());
        assert(calls.drop_first() =~= Seq::<Call>::empty());
        assert(gathered(calls.drop_last(), part) =~= Seq::<T>::empty());
        assert(gathered(calls.drop_first(), part) =~= Seq::<T>::empty());
        assert(gathered(calls, part) =~= part(calls.first()) + gathered(calls.drop_first(), part));
    } else {
        lemma_gathered_first(calls.drop_last(), part);
        assert(calls.drop_last().drop_first() =~= calls.drop_first().drop_last());
        assert(calls.drop_last().first() == calls.first());
        assert(calls.drop_first().last() == calls.last());
        assert(gathered(calls, part) =~= part(calls.first()) + gathered(calls.drop_first(), part));
    }
}

/// What a sequence contributes ends with what an element added to it does.
proof fn lemma_gathered_push<Call, T>(calls: Seq<Call>, call: Call, part: spec_fn(Call) -> Seq<T>)
    ensures
        gathered(calls.push(call), part) == gathered(calls, part) + part(call),
{
    assert(calls.push(call).drop_last() =~= calls);
}

/// Offering a spent buffer to the worker keeps the bytes ahead and the buffers out as they
/// were, whether the worker takes it or not.
pub proof fn law_offering_spent_buffer_loses_nothing<AllocU8: Allocator>(
    pre: Demuxing<SerialWorker<AllocU8>>,
    post: Demuxing<SerialWorker<AllocU8>>,
    answer: DivansOutputResult,
)
    requires
        sound(pre),
        pre.spent_offered::<AllocU8>(post, answer),
    ensures
        sound(post),
        bytes_ahead(post) == bytes_ahead(pre),
        buffers_out(post) == buffers_out(pre),
        post.worker@.data == pre.worker@.data,
        post.slice.unread() == pre.slice.unread(),
        post.eof == pre.eof,
{
    if pre.slice.is_spent() && pre.worker@.consumed.len() != SLOTS {
        let memory = |range: AllocatedMemoryRange| memory_of(range);
        lemma_gathered_push(pre.worker@.consumed, pre.slice, memory);
        assert(post.slice.unread() =~= pre.slice.unread());
        assert(buffers_out(post) =~= buffers_out(pre));
    }
}

/// Refilling the buffer keeps the bytes ahead and the buffers out as they were: no byte is
/// lost, doubled or moved, and no buffer is dropped.
pub proof fn law_refill_loses_nothing<AllocU8: Allocator>(
    pre: Demuxing<SerialWorker<AllocU8>>,
    post: Demuxing<SerialWorker<AllocU8>>,
    answer: DivansOutputResult,
)
    requires
        sound(pre),
        pre.refilled::<AllocU8>(post, answer),
    ensures
        sound(post),
        bytes_ahead(post) == bytes_ahead(pre),
        buffers_out(post) == buffers_out(pre),
{
    if pre.slice.unread().len() != 0 {
    } else if answer != DivansOutputResult::Success {
        law_offering_spent_buffer_loses_nothing(pre, post, answer);
    } else {
        let offered = choose|offered: Demuxing<SerialWorker<AllocU8>>|
            {
                &&& #[trigger] pre.spent_offered::<AllocU8>(offered, DivansOutputResult::Success)
                &&& offered.asked::<AllocU8>(post)
            };
        law_offering_spent_buffer_loses_nothing(pre, offered, DivansOutputResult::Success);
        assert(memory_of(offered.slice) =~= Seq::<Vec<u8>>::empty());
        if offered.worker@.data.len() > 0 {
            let waiting = offered.worker@.data;
            let bytes = |range: AllocatedMemoryRange| range.unread();
            let memory = |range: AllocatedMemoryRange| memory_of(range);
            lemma_gathered_first(waiting, bytes);
            lemma_gathered_first(waiting, memory);
            assert(waiting[0].wf());
            assert forall|i: int| 0 <= i < waiting.drop_first().len() implies (
            #[trigger] waiting.drop_first()[i]).wf() && waiting.drop_first()[i].unread().len()
                > 0 by {
                assert(waiting[i + 1].wf());
            }
            assert(bytes_ahead(post) =~= bytes_ahead(offered));
            assert(buffers_out(post) =~= buffers_out(offered));
        }
    }
}

/// A refill brings bytes if there are any ahead, unless a spent buffer is in the way: one
/// that the worker has no room for.
pub proof fn law_refill_brings_bytes<AllocU8: Allocator>(
    pre: Demuxing<SerialWorker<AllocU8>>,
    post: Demuxing<SerialWorker<AllocU8>>,
    answer: DivansOutputResult,
)
    requires
        sound(pre),
        pre.refilled::<AllocU8>(post, answer),
    ensures
        if pre.slice.is_spent() && pre.worker@.consumed.len() == SLOTS {
            &&& answer == DivansOutputResult::NeedsMoreOutput
            &&& post.worker@ == pre.worker@
            &&& post == (Demuxing { worker: post.worker, ..pre })
        } else {
            &&& answer == DivansOutputResult::Success
            &&& post.slice.unread().len() == 0 <==> bytes_ahead(pre).len() == 0
        },
{
    law_refill_loses_nothing(pre, post, answer);
    let bytes = |range: AllocatedMemoryRange| range.unread();
    if pre.slice.unread().len() == 0 && answer == DivansOutputResult::Success {
        let offered = choose|offered: Demuxing<SerialWorker<AllocU8>>|
            {
                &&& #[trigger] pre.spent_offered::<AllocU8>(offered, DivansOutputResult::Success)
                &&& offered.asked::<AllocU8>(post)
            };
        law_offering_spent_buffer_loses_nothing(pre, offered, DivansOutputResult::Success);
        if offered.worker@.data.len() > 0 {
            assert(offered.worker@.data[0].unread().len() > 0);
        } else {
            assert(gathered(offered.worker@.data, bytes) =~= Seq::<u8>::empty());
        }
    }
}

/// Reading on in the buffer takes as many bytes from the front of those ahead.
proof fn lemma_advanced<AllocU8: Allocator>(state: Demuxing<SerialWorker<AllocU8>>, count: int)
    requires
        sound(state),
        0 <= count <= state.slice.unread().len(),
    ensures
        sound(state.advanced(count)),
        state.slice.unread().take(count) + bytes_ahead(state.advanced(count)) == bytes_ahead(state),
        buffers_out(state.advanced(count)) == buffers_out(state),
{
    assert(state.advanced(count).slice.unread() =~= state.slice.unread().skip(count));
    assert(state.slice.unread().take(count) + bytes_ahead(state.advanced(count)) =~= bytes_ahead(
        state,
    ));
}

/// Consuming bytes takes just these from the front of those ahead and keeps the buffers out
/// as they were.
pub proof fn law_consume_takes_from_the_front<AllocU8: Allocator>(
    pre: Demuxing<SerialWorker<AllocU8>>,
    count: int,
    post: Demuxing<SerialWorker<AllocU8>>,
    answer: DivansOutputResult,
)
    requires
        sound(pre),
        0 <= count <= pre.slice.unread().len(),
        pre.advanced(count).spent_offered::<AllocU8>(post, answer),
    ensures
        sound(post),
        bytes_ahead(post) == bytes_ahead(pre).skip(count),
        post.slice.unread() == pre.slice.unread().skip(count),
        buffers_out(post) == buffers_out(pre),
{
    lemma_advanced(pre, count);
    law_offering_spent_buffer_loses_nothing(pre.advanced(count), post, answer);
    assert(bytes_ahead(post) =~= bytes_ahead(pre).skip(count));
    assert(pre.advanced(count).slice.unread() =~= pre.slice.unread().skip(count));
}

/// A buffer whose last byte is consumed is handed back, whole, if the worker has room for
/// it, and the demuxer is left without one.
pub proof fn law_spent_buffer_is_handed_back<AllocU8: Allocator>(
    pre: Demuxing<SerialWorker<AllocU8>>,
    post: Demuxing<SerialWorker<AllocU8>>,
    answer: DivansOutputResult,
)
    requires
        sound(pre),
        pre.slice.unread().len() > 0,
        pre.worker@.consumed.len() < SLOTS,
        pre.advanced(pre.slice.unread().len() as int).spent_offered::<AllocU8>(post, answer),
    ensures
        answer == DivansOutputResult::Success,
        post.slice.is_vacant(),
        post.worker@.consumed.drop_last() == pre.worker@.consumed,
        post.worker@.consumed.last().0 == pre.slice.0,
{
    let spent = pre.advanced(pre.slice.unread().len() as int);
    assert(spent.slice.unread().len() == 0);
    assert(pre.worker@.consumed.push(spent.slice).drop_last() =~= pre.worker@.consumed);
}

/// Giving up the buffer keeps the buffers out as they were: it is handed back whole or, if
/// the worker has no room for it, kept.
pub proof fn law_free_drops_no_buffer<AllocU8: Allocator>(
    pre: Demuxing<SerialWorker<AllocU8>>,
    post: Demuxing<SerialWorker<AllocU8>>,
    answer: DivansOutputResult,
)
    requires
        pre.worker@.wf(),
        pre.slice.0@.len() != 0,
        pre.offered::<AllocU8>(post, answer),
    ensures
        post.worker@.wf(),
        buffers_out(post) == buffers_out(pre),
        pre.worker@.consumed.len() < SLOTS ==> post.slice.is_vacant(),
        pre.worker@.consumed.len() == SLOTS ==> post.slice == pre.slice,
        answer == DivansOutputResult::Success <==> pre.worker@.consumed.len() < SLOTS,
{
    if pre.worker@.consumed.len() != SLOTS {
        let memory = |range: AllocatedMemoryRange| memory_of(range);
        lemma_gathered_push(pre.worker@.consumed, pre.slice, memory);
        assert(buffers_out(post) =~= buffers_out(pre));
    }
}

/// A step in the use of a demuxer by the main thread and a codec.
#[allow(inconsistent_fields)]
pub ghost enum Step {
    /// The main thread pushes a buffer of input.
    Give { data: AllocatedMemoryRange, left: AllocatedMemoryRange, answer: Result<(), ()> },
    /// The demuxer gets bytes from the worker if none are at hand.
    Refill { answer: DivansOutputResult },
    /// The codec gets the read buffer, reads `bytes` off it and moves the read position on.
    Read { bytes: Seq<u8> },
    /// The codec gets the read buffer, to read or to edit, and leaves any range of it as the
    /// unread one: it may go back, or even out of the buffer.
    Reposition { range: Range<usize> },
    /// The codec consumes `bytes`, after it has peeked at them.
    Consume { bytes: Seq<u8> },
    /// The main thread pulls.
    TakeBack {
        cmd: Command<AllocatedMemoryPrefix>,
        consumed: AllocatedMemoryRange,
        cmd_left: Command<AllocatedMemoryPrefix>,
        consumed_left: AllocatedMemoryRange,
        answer: CommandResult,
    },
    /// The codec frees the demuxer and gives up the bytes left in the buffer, if it goes.
    Free { given_up: Seq<u8> },
    /// A call that moves no input and no spent buffer.
    Other { call: Exchange },
}

impl Step {
    /// The step may have taken the demuxer from `pre` to `post`.
    pub open spec fn links<AllocU8: Allocator>(
        self,
        pre: Demuxing<SerialWorker<AllocU8>>,
        post: Demuxing<SerialWorker<AllocU8>>,
    ) -> bool {
        match self {
            Step::Give { data, left, answer } => {
                &&& data.wf() || pre.worker.refuses_unseen()
                &&& SerialWorker::<AllocU8>::data_pushed(
                    pre.worker,
                    data,
                    post.worker,
                    left,
                    answer,
                )
                &&& post == (Demuxing { worker: post.worker, ..pre })
            },
            Step::Refill { answer } => {
                &&& pre.slice.wf()
                &&& pre.refilled::<AllocU8>(post, answer)
            },
            Step::Read { bytes } => {
                &&& pre.slice.wf()
                &&& exists|refilled: Demuxing<SerialWorker<AllocU8>>, answer: DivansOutputResult|
                    {
                        &&& #[trigger] pre.refilled::<AllocU8>(refilled, answer)
                        &&& bytes.len() <= refilled.slice.unread().len()
                        &&& bytes == refilled.slice.unread().take(bytes.len() as int)
                        &&& post == (Demuxing {
                            unused: post.unused,
                            ..refilled.advanced(bytes.len() as int)
                        })
                    }
            },
            Step::Reposition { range } => {
                &&& pre.slice.wf()
                &&& exists|refilled: Demuxing<SerialWorker<AllocU8>>, answer: DivansOutputResult|
                    {
                        &&& #[trigger] pre.refilled::<AllocU8>(refilled, answer)
                        &&& post == (Demuxing {
                            slice: AllocatedMemoryRange(refilled.slice.0, range),
                            unused: post.unused,
                            ..refilled
                        })
                    }
            },
            Step::Consume { bytes } => {
                &&& pre.slice.wf()
                &&& bytes.len() <= pre.slice.unread().len()
                &&& bytes == pre.slice.unread().take(bytes.len() as int)
                &&& exists|answer: DivansOutputResult| #[trigger]
                    pre.advanced(bytes.len() as int).spent_offered::<AllocU8>(post, answer)
            },
            Step::TakeBack { cmd, consumed, cmd_left, consumed_left, answer } => {
                &&& SerialWorker::<AllocU8>::pulled(
                    pre.worker,
                    cmd,
                    consumed,
                    post.worker,
                    cmd_left,
                    consumed_left,
                    answer,
                )
                &&& post == (Demuxing { worker: post.worker, ..pre })
            },
            Step::Free { given_up } => {
                &&& if pre.slice.0@.len() != 0 {
                    exists|answer: DivansOutputResult| #[trigger]
                        pre.offered::<AllocU8>(post, answer)
                } else {
                    post == pre
                }
                &&& given_up + post.slice.unread() == pre.slice.unread()
            },
            Step::Other { call } => {
                &&& call is PushContextMap || call is PullContextMap || call is PushCmd
                    || call is PushEof
                &&& call.links(pre.worker@, post.worker@)
                &&& post == (Demuxing { worker: post.worker, ..pre })
            },
        }
    }

    /// The bytes that the main thread gave.
    pub open spec fn bytes_in(self) -> Seq<u8> {
        match self {
            Step::Give { data, answer: Ok(_), .. } => data.unread(),
            _ => Seq::empty(),
        }
    }

    /// The bytes that the codec read, or gave up.
    pub open spec fn bytes_out(self) -> Seq<u8> {
        match self {
            Step::Read { bytes } => bytes,
            Step::Consume { bytes } => bytes,
            Step::Free { given_up } => given_up,
            _ => Seq::empty(),
        }
    }

    /// The buffer that the main thread gave.
    pub open spec fn buffer_given(self) -> Seq<Vec<u8>> {
        match self {
            Step::Give { data, answer: Ok(_), .. } => seq![data.0],
            _ => Seq::empty(),
        }
    }

    /// The buffer that the main thread got back, if it has memory.
    pub open spec fn buffer_returned(self) -> Seq<Vec<u8>> {
        match self {
            Step::TakeBack { consumed_left, answer: CommandResult::ProcessedData, .. } => memory_of(
                consumed_left,
            ),
            _ => Seq::empty(),
        }
    }
}

/// The demuxer went through `states` by `steps`, each from one state to the next.
pub open spec fn is_session<AllocU8: Allocator>(
    states: Seq<Demuxing<SerialWorker<AllocU8>>>,
    steps: Seq<Step>,
) -> bool {
    &&& states.len() == steps.len() + 1
    &&& forall|i: int|
        0 <= i < steps.len() ==> (#[trigger] steps[i]).links(states[i], states[i + 1])
}

/// One step keeps the worker within its bounds, takes buffers from the front of those out and
/// adds to their end, and, unless the codec goes elsewhere in the buffer, does so with the
/// bytes ahead.
proof fn lemma_step<AllocU8: Allocator>(
    step: Step,
    pre: Demuxing<SerialWorker<AllocU8>>,
    post: Demuxing<SerialWorker<AllocU8>>,
)
    requires
        pre.worker@.wf(),
        step.links(pre, post),
    ensures
        post.worker@.wf(),
        step !is Reposition ==> step.bytes_out() + bytes_ahead(post) == bytes_ahead(pre)
            + step.bytes_in(),
        step.buffer_returned() + buffers_out(post) == buffers_out(pre) + step.buffer_given(),
{
    let bytes_part = |range: AllocatedMemoryRange| range.unread();
    let memory = |range: AllocatedMemoryRange| memory_of(range);
    match step {
        Step::Give { data, left, answer } => {
            if answer is Ok {
                lemma_gathered_push(pre.worker@.data, data, bytes_part);
                lemma_gathered_push(pre.worker@.data, data, memory);
            }
        },
        Step::Refill { answer } => {
            law_refill_loses_nothing(pre, post, answer);
        },
        Step::Reposition { range } => {
            let (refilled, answer) = choose|
                refilled: Demuxing<SerialWorker<AllocU8>>,
                answer: DivansOutputResult,
            |
                {
                    &&& #[trigger] pre.refilled::<AllocU8>(refilled, answer)
                    &&& post == (Demuxing {
                        slice: AllocatedMemoryRange(refilled.slice.0, range),
                        unused: post.unused,
                        ..refilled
                    })
                };
            law_refill_loses_nothing(pre, refilled, answer);
        },
        Step::Read { bytes } => {
            let (refilled, answer) = choose|
                refilled: Demuxing<SerialWorker<AllocU8>>,
                answer: DivansOutputResult,
            |
                {
                    &&& #[trigger] pre.refilled::<AllocU8>(refilled, answer)
                    &&& bytes.len() <= refilled.slice.unread().len()
                    &&& bytes == refilled.slice.unread().take(bytes.len() as int)
                    &&& post == (Demuxing {
                        unused: post.unused,
                        ..refilled.advanced(bytes.len() as int)
                    })
                };
            law_refill_loses_nothing(pre, refilled, answer);
            lemma_advanced(refilled, bytes.len() as int);
        },
        Step::Consume { bytes } => {
            let answer = choose|answer: DivansOutputResult| #[trigger]
                pre.advanced(bytes.len() as int).spent_offered::<AllocU8>(post, answer);
            lemma_advanced(pre, bytes.len() as int);
            law_offering_spent_buffer_loses_nothing(
                pre.advanced(bytes.len() as int),
                post,
                answer,
            );
        },
        Step::Free { given_up } => {
            if pre.slice.0@.len() != 0 {
                let answer = choose|answer: DivansOutputResult| #[trigger]
                    pre.offered::<AllocU8>(post, answer);
                law_free_drops_no_buffer(pre, post, answer);
                assert(post.worker@.data == pre.worker@.data);
            }
            assert((given_up + post.slice.unread()) + gathered(post.worker@.data, bytes_part)
                =~= given_up + bytes_ahead(post));
        },
        Step::TakeBack { answer, .. } => {
            if answer == CommandResult::ProcessedData {
                lemma_gathered_first(pre.worker@.consumed, memory);
            }
        },
        Step::Other { .. } => {},
    }
    if step !is Reposition {
        assert(step.bytes_out() + bytes_ahead(post) =~= bytes_ahead(pre) + step.bytes_in());
    }
    assert(step.buffer_returned() + buffers_out(post) =~= buffers_out(pre) + step.buffer_given());
}

/// The worker is within its bounds at every state of a session that starts so.
proof fn lemma_worker_stays_bounded<AllocU8: Allocator>(
    states: Seq<Demuxing<SerialWorker<AllocU8>>>,
    steps: Seq<Step>,
    i: int,
)
    requires
        is_session(states, steps),
        states.first().worker@.wf(),
        0 <= i < states.len(),
    ensures
        states[i].worker@.wf(),
    decreases i,
{
    if i > 0 {
        lemma_worker_stays_bounded(states, steps, i - 1);
        assert(steps[i - 1].links(states[i - 1], states[i]));
        lemma_step(steps[i - 1], states[i - 1], states[i]);
    }
}

/// The codec reads the bytes that the main thread gives, in order, each once and none left
/// out but those that it gives up by freeing the demuxer: what has been read or given up,
/// followed by what is ahead at the end, is what was ahead at the start, followed by what
/// was given. It holds as long as the codec does not go elsewhere in the buffer than on.
pub proof fn law_bytes_in_order<AllocU8: Allocator>(
    states: Seq<Demuxing<SerialWorker<AllocU8>>>,
    steps: Seq<Step>,
)
    requires
        is_session(states, steps),
        states.first().worker@.wf(),
        forall|i: int| 0 <= i < steps.len() ==> #[trigger] steps[i] !is Reposition,
    ensures
        gathered(steps, |step: Step| step.bytes_out()) + bytes_ahead(states.last()) == bytes_ahead(
            states.first(),
        ) + gathered(steps, |step: Step| step.bytes_in()),
{
    let out = |step: Step| step.bytes_out();
    let given = |step: Step| step.bytes_in();
    let queue = |state: Demuxing<SerialWorker<AllocU8>>| bytes_ahead(state);
    assert forall|i: int| 0 <= i < steps.len() implies out(#[trigger] steps[i]) + queue(
        states[i + 1],
    ) == queue(states[i]) + given(steps[i]) by {
        lemma_worker_stays_bounded(states, steps, i);
        lemma_step(steps[i], states[i], states[i + 1]);
    }
    lemma_in_order(states, steps, queue, out, given);
}

/// The main thread gets its buffers back in the order in which it gave them, each once, and
/// none is dropped: those returned, followed by those still out at the end, are those out at
/// the start, followed by those given. Where the codec goes in a buffer makes no difference.
pub proof fn law_buffers_come_back_in_order<AllocU8: Allocator>(
    states: Seq<Demuxing<SerialWorker<AllocU8>>>,
    steps: Seq<Step>,
)
    requires
        is_session(states, steps),
        states.first().worker@.wf(),
    ensures
        gathered(steps, |step: Step| step.buffer_returned()) + buffers_out(states.last())
            == buffers_out(states.first()) + gathered(steps, |step: Step| step.buffer_given()),
{
    let out = |step: Step| step.buffer_returned();
    let given = |step: Step| step.buffer_given();
    let queue = |state: Demuxing<SerialWorker<AllocU8>>| buffers_out(state);
    assert forall|i: int| 0 <= i < steps.len() implies out(#[trigger] steps[i]) + queue(
        states[i + 1],
    ) == queue(states[i]) + given(steps[i]) by {
        lemma_worker_stays_bounded(states, steps, i);
        lemma_step(steps[i], states[i], states[i + 1]);
    }
    lemma_in_order(states, steps, queue, out, given);
}

/// From a new demuxer on, each buffer that the main thread gave is in one place: returned, or
/// among the spent ones, being read or waiting; and the buffers are returned in the order in
/// which they were given.
pub proof fn law_every_buffer_is_in_one_place<AllocU8: Allocator>(
    states: Seq<Demuxing<SerialWorker<AllocU8>>>,
    steps: Seq<Step>,
)
    requires
        is_session(states, steps),
        states.first().worker@ == Mailbox::empty(),
        states.first().slice.is_vacant(),
    ensures
        gathered(steps, |step: Step| step.buffer_returned()) + buffers_out(states.last())
            == gathered(steps, |step: Step| step.buffer_given()),
{
    law_buffers_come_back_in_order(states, steps);
    assert(buffers_out(states.first()) + gathered(steps, |step: Step| step.buffer_given())
        =~= gathered(steps, |step: Step| step.buffer_given()));
}

/// Over any worker, the end of the stream stays on record once it is, and is put on record
/// only by a worker that says so.
pub proof fn law_end_of_stream_stays<AllocU8: Allocator, WorkerInterface: ThreadToMain<AllocU8>>(
    pre: Demuxing<WorkerInterface>,
    post: Demuxing<WorkerInterface>,
    answer: DivansOutputResult,
)
    requires
        pre.refilled::<AllocU8>(post, answer),
    ensures
        pre.eof ==> post.eof,
        post.eof && !pre.eof ==> exists|worker: WorkerInterface| #[trigger]
            WorkerInterface::data_pulled(worker, post.worker, ThreadData::Eof),
{
    if post.eof && !pre.eof {
        let offered = choose|offered: Demuxing<WorkerInterface>|
            {
                &&& #[trigger] pre.spent_offered::<AllocU8>(offered, DivansOutputResult::Success)
                &&& offered.asked::<AllocU8>(post)
            };
        let data = choose|data: ThreadData|
            {
                &&& #[trigger] WorkerInterface::data_pulled(offered.worker, post.worker, data)
                &&& post == offered.with_pulled(post.worker, data)
            };
        assert(data is Eof);
        assert(WorkerInterface::data_pulled(offered.worker, post.worker, ThreadData::Eof));
    }
}

/// A serial worker yields rather than end its input, so a stream over one does not end.
pub proof fn law_serial_stream_does_not_end<AllocU8: Allocator>(
    pre: Demuxing<SerialWorker<AllocU8>>,
    post: Demuxing<SerialWorker<AllocU8>>,
    answer: DivansOutputResult,
)
    requires
        pre.refilled::<AllocU8>(post, answer),
    ensures
        post.eof == pre.eof,
{
}

/// Over any worker, bytes at hand are not disturbed: a refill does nothing until they are read.
pub proof fn law_refill_waits_for_reader<
    AllocU8: Allocator,
    WorkerInterface: ThreadToMain<AllocU8>,
>(pre: Demuxing<WorkerInterface>, post: Demuxing<WorkerInterface>, answer: DivansOutputResult)
    requires
        pre.refilled::<AllocU8>(post, answer),
        pre.slice.unread().len() > 0,
    ensures
        post == pre,
        answer == DivansOutputResult::Success,
{
}

} // verus!
