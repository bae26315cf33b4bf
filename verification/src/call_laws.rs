//! What each call of a buffer, a command or a [`SerialWorker`] does, one call at a time and
//! whatever the state it is made in: when it succeeds, what it hands over, and what it
//! leaves alone.
use crate::demuxer::NopEncoderOrDecoderRecoderSpecialization;
use crate::interface::{
    Allocator, Command, CopyCommand, DivansOutputResult, EncoderOrDecoderRecoderSpecialization,
    PredictionModeContextMap, WellFormed,
};
use crate::memory::{AllocatedMemoryPrefix, AllocatedMemoryRange};
use crate::serial_worker::SerialWorker;
use crate::threading::{
    empty_prediction_mode_context_map, CommandResult, MainToThread, ThreadData, ThreadToMain,
};
use vstd::prelude::*;

verus! {

/// The slice of a range holds the bytes of its memory from the start of the range on, up to
/// its end. Any range whose start is not past its end, nor its end past the memory, has one.
pub proof fn law_slice_is_the_part_in_range(range: &AllocatedMemoryRange, bytes: &[u8])
    requires
        range.1.start <= range.1.end <= range.0@.len(),
    ensures
        call_requires(AllocatedMemoryRange::slice, (range,)),
        call_ensures(AllocatedMemoryRange::slice, (range,), bytes) ==> {
            &&& bytes@.len() == range.1.end - range.1.start
            &&& forall|i: int|
                0 <= i < bytes@.len() ==> #[trigger] bytes@[i] == range.0@[range.1.start + i]
        },
{
}

/// What contracts call the unread part of a range is that part of its memory, and a range is
/// spent when none is left though there is memory.
pub proof fn law_unread_part(range: AllocatedMemoryRange)
    requires
        range.1.start <= range.1.end <= range.0@.len(),
    ensures
        range.wf(),
        range.unread().len() == range.1.end - range.1.start,
        forall|i: int|
            0 <= i < range.unread().len() ==> #[trigger] range.unread()[i] == range.0@[range.1.start
                + i],
        range.is_spent() <==> range.1.start == range.1.end && range.0@.len() > 0,
{
}

/// A range is valid only if its start is not past its end, nor its end past the memory, and
/// it is vacant when there is no memory and both are at zero.
pub proof fn law_valid_and_vacant_ranges(range: AllocatedMemoryRange)
    ensures
        range.wf() <==> range.1.start <= range.1.end && range.1.end <= range.0@.len(),
        range.is_vacant() <==> range.0@.len() == 0 && range.1.start == 0 && range.1.end == 0,
{
    assert(range.0@.len() == 0 ==> range.0@ =~= Seq::<u8>::empty());
}

/// The default values of this crate hold no memory, and a default input is a buffer.
pub proof fn law_defaults_hold_nothing(
    range: AllocatedMemoryRange,
    prefix: AllocatedMemoryPrefix,
    data: ThreadData,
)
    ensures
        call_ensures(<AllocatedMemoryRange as Default>::default, (), range) ==> range.0@.len() == 0
            && range.1.start == 0 && range.1.end == 0,
        call_ensures(<AllocatedMemoryPrefix as Default>::default, (), prefix) ==> prefix.0@.len()
            == 0 && prefix.1 == 0,
        call_ensures(<ThreadData as Default>::default, (), data) ==> (data matches ThreadData::Data(
            held,
        ) && held.0@.len() == 0 && held.1.start == 0 && held.1.end == 0),
{
}

/// Empty context maps hold a default of their type each, whatever the type; those that
/// a worker uses hold no memory.
pub proof fn law_empty_context_maps<ISl: Default>(
    map: PredictionModeContextMap<ISl>,
    worker_map: PredictionModeContextMap<AllocatedMemoryPrefix>,
)
    ensures
        call_ensures(empty_prediction_mode_context_map::<ISl>, (), map) ==> call_ensures(
            ISl::default,
            (),
            map.literal_context_map,
        ) && call_ensures(ISl::default, (), map.predmode_speed_and_distance_context_map),
        call_ensures(empty_prediction_mode_context_map::<AllocatedMemoryPrefix>, (), worker_map) ==> {
            &&& worker_map.literal_context_map.0@.len() == 0
            &&& worker_map.literal_context_map.1 == 0
            &&& worker_map.predmode_speed_and_distance_context_map.0@.len() == 0
            &&& worker_map.predmode_speed_and_distance_context_map.1 == 0
        },
{
}

/// The command without effect is a copy, of no bytes, from one byte back.
pub proof fn law_nop_copies_nothing<SliceType>(command: Command<SliceType>)
    ensures
        call_ensures(Command::<SliceType>::nop, (), command) ==> (command matches Command::Copy(
            copy,
        ) && copy.num_bytes == 0 && copy.distance == 1),
        Command::<SliceType>::spec_nop() == Command::<SliceType>::Copy(
            CopyCommand { distance: 1, num_bytes: 0 },
        ),
{
}

/// The recoder that writes nothing lends no room, leaves the buffer and the position passed
/// in as they are, and moves the spare position only.
pub proof fn law_nop_recoder_writes_nowhere(
    recoder: &mut NopEncoderOrDecoderRecoderSpecialization,
    passed_in: &mut [u8],
    output: &mut [u8],
    same_recoder: &NopEncoderOrDecoderRecoderSpecialization,
    passed_in_offset: &mut usize,
    backing: &mut usize,
    offset: &mut usize,
)
    requires
        call_ensures(
            <NopEncoderOrDecoderRecoderSpecialization as EncoderOrDecoderRecoderSpecialization>::get_recoder_output,
            (recoder, passed_in),
            output,
        ),
        call_ensures(
            <NopEncoderOrDecoderRecoderSpecialization as EncoderOrDecoderRecoderSpecialization>::get_recoder_output_offset,
            (same_recoder, passed_in_offset, backing),
            offset,
        ),
    ensures
        old(output)@.len() == 0,
        final(passed_in)@ == old(passed_in)@,
        *old(offset) == *old(backing),
        *final(offset) == *final(backing),
        *final(passed_in_offset) == *old(passed_in_offset),
{
}

/// A usable worker has at most two items in each queue, and each input in it is a valid range
/// with bytes left to read.
pub proof fn law_worker_bounds<AllocU8: Allocator>(worker: SerialWorker<AllocU8>)
    requires
        worker.wf(),
    ensures
        worker@.data.len() <= 2,
        worker@.context_maps.len() <= 2,
        worker@.commands.len() <= 2,
        worker@.consumed.len() <= 2,
        forall|i: int|
            0 <= i < worker@.data.len() ==> (#[trigger] worker@.data[i]).1.start
                < worker@.data[i].1.end && worker@.data[i].1.end <= worker@.data[i].0@.len(),
{
    worker.law_mailbox_is_bounded();
    assert forall|i: int| 0 <= i < worker@.data.len() implies (#[trigger] worker@.data[i]).1.start
        < worker@.data[i].1.end && worker@.data[i].1.end <= worker@.data[i].0@.len() by {
        assert(worker@.data[i].wf());
        assert(worker@.data[i].unread().len() > 0);
    }
}

/// A default worker can be used and has nothing under way.
pub proof fn law_default_worker_is_empty<AllocU8: Allocator>(worker: SerialWorker<AllocU8>)
    requires
        call_ensures(<SerialWorker<AllocU8> as Default>::default, (), worker),
    ensures
        worker.wf(),
        worker@.data.len() == 0,
        worker@.context_maps.len() == 0,
        worker@.commands.len() == 0,
        worker@.consumed.len() == 0,
        !worker@.eof,
{
}

/// A usable worker takes every call at any time, with any arguments; only a range of input
/// for which there is room has to be a valid one.
pub proof fn law_worker_takes_every_call<
    AllocU8: Allocator,
    Specialization: EncoderOrDecoderRecoderSpecialization,
>(
    worker: &mut SerialWorker<AllocU8>,
    cm: PredictionModeContextMap<AllocatedMemoryPrefix>,
    data: &mut AllocatedMemoryRange,
    cmd: &mut Command<AllocatedMemoryPrefix>,
    consumed: &mut AllocatedMemoryRange,
    m8: Option<&mut AllocU8::RepurposingAlloc>,
    recoder: Option<&mut AllocU8::RecodeState>,
    specialization: &mut Specialization,
    output: &mut [u8],
    output_offset: &mut usize,
)
    requires
        old(worker).wf(),
    ensures
        call_requires(
            <SerialWorker<AllocU8> as MainToThread>::push_context_map,
            (worker, cm),
        ),
        old(worker)@.data.len() == 2 || old(data).1.start <= old(data).1.end && old(data).1.end
            <= old(data).0@.len() ==> call_requires(
            <SerialWorker<AllocU8> as MainToThread>::push,
            (worker, data),
        ),
        call_requires(<SerialWorker<AllocU8> as MainToThread>::pull, (worker, cmd, consumed)),
        call_requires(<SerialWorker<AllocU8> as ThreadToMain<AllocU8>>::pull_data, (worker,)),
        call_requires(
            <SerialWorker<AllocU8> as ThreadToMain<AllocU8>>::pull_context_map,
            (worker, m8),
        ),
        call_requires(
            <SerialWorker<AllocU8> as ThreadToMain<AllocU8>>::push_cmd::<Specialization>,
            (worker, cmd, m8, recoder, specialization, output, output_offset),
        ),
        call_requires(
            <SerialWorker<AllocU8> as ThreadToMain<AllocU8>>::push_consumed_data,
            (worker, consumed, m8),
        ),
        call_requires(<SerialWorker<AllocU8> as ThreadToMain<AllocU8>>::push_eof, (worker,)),
{
}

/// Context maps are refused only for want of room for them, whatever waits elsewhere; taken,
/// they go on top of those that wait. Nothing else moves.
pub proof fn law_push_context_map<AllocU8: Allocator>(
    worker: &mut SerialWorker<AllocU8>,
    cm: PredictionModeContextMap<AllocatedMemoryPrefix>,
    answer: Result<(), ()>,
)
    requires
        old(worker).wf(),
        call_ensures(
            <SerialWorker<AllocU8> as MainToThread>::push_context_map,
            (worker, cm),
            answer,
        ),
    ensures
        final(worker).wf(),
        answer is Ok <==> old(worker)@.context_maps.len() < 2,
        answer is Ok ==> final(worker)@.context_maps == old(worker)@.context_maps + seq![cm],
        answer is Err ==> final(worker)@.context_maps == old(worker)@.context_maps,
        final(worker)@.data == old(worker)@.data,
        final(worker)@.commands == old(worker)@.commands,
        final(worker)@.consumed == old(worker)@.consumed,
        final(worker)@.eof == old(worker)@.eof,
{
    law_worker_bounds(*old(worker));
    assert(old(worker)@.context_maps.push(cm) =~= old(worker)@.context_maps + seq![cm]);
}

/// Input is refused only for want of room for it or for want of bytes in it, whatever waits
/// elsewhere, and is then still the caller's. Taken, it goes behind the input that waits,
/// and the caller is left with no memory. Nothing else moves.
pub proof fn law_push<AllocU8: Allocator>(
    worker: &mut SerialWorker<AllocU8>,
    data: &mut AllocatedMemoryRange,
    answer: Result<(), ()>,
)
    requires
        old(worker).wf(),
        call_ensures(<SerialWorker<AllocU8> as MainToThread>::push, (worker, data), answer),
        old(worker)@.data.len() == 2 || old(data).1.start <= old(data).1.end && old(data).1.end
            <= old(data).0@.len(),
    ensures
        final(worker).wf(),
        answer is Ok <==> old(worker)@.data.len() < 2 && old(data).1.start < old(data).1.end,
        answer is Ok ==> {
            &&& final(worker)@.data == old(worker)@.data + seq![*old(data)]
            &&& final(data).0@.len() == 0
            &&& final(data).1.start == 0
            &&& final(data).1.end == 0
        },
        answer is Err ==> {
            &&& final(worker)@.data == old(worker)@.data
            &&& *final(data) == *old(data)
        },
        final(worker)@.context_maps == old(worker)@.context_maps,
        final(worker)@.commands == old(worker)@.commands,
        final(worker)@.consumed == old(worker)@.consumed,
        final(worker)@.eof == old(worker)@.eof,
{
    law_worker_bounds(*old(worker));
    assert(old(worker)@.data.push(*old(data)) =~= old(worker)@.data + seq![*old(data)]);
}

/// The main thread gets a spent buffer if one waits, else a command if one waits, and is told
/// of the end or to yield only if neither does. What waited is what came out, followed by
/// what still waits; what does not come out leaves the caller's value alone.
pub proof fn law_pull<AllocU8: Allocator>(
    worker: &mut SerialWorker<AllocU8>,
    cmd: &mut Command<AllocatedMemoryPrefix>,
    consumed: &mut AllocatedMemoryRange,
    answer: CommandResult,
)
    requires
        old(worker).wf(),
        call_ensures(
            <SerialWorker<AllocU8> as MainToThread>::pull,
            (worker, cmd, consumed),
            answer,
        ),
    ensures
        final(worker).wf(),
        answer is ProcessedData <==> old(worker)@.consumed.len() > 0,
        answer is Cmd <==> old(worker)@.consumed.len() == 0 && old(worker)@.commands.len() > 0,
        answer is Eof <==> old(worker)@.consumed.len() == 0 && old(worker)@.commands.len() == 0
            && old(worker)@.eof,
        answer is Yield <==> old(worker)@.consumed.len() == 0 && old(worker)@.commands.len() == 0
            && !old(worker)@.eof,
        answer is ProcessedData ==> old(worker)@.consumed == seq![*final(consumed)] + final(worker)@.consumed,
        answer !is ProcessedData ==> {
            &&& *final(consumed) == *old(consumed)
            &&& final(worker)@.consumed == old(worker)@.consumed
        },
        answer is Cmd ==> old(worker)@.commands == seq![*final(cmd)] + final(worker)@.commands,
        answer !is Cmd ==> {
            &&& *final(cmd) == *old(cmd)
            &&& final(worker)@.commands == old(worker)@.commands
        },
        final(worker)@.data == old(worker)@.data,
        final(worker)@.context_maps == old(worker)@.context_maps,
        final(worker)@.eof == old(worker)@.eof,
{
    let consumed_before = old(worker)@.consumed;
    let commands_before = old(worker)@.commands;
    if consumed_before.len() > 0 {
        assert(consumed_before =~= seq![consumed_before[0]] + consumed_before.drop_first());
    }
    if commands_before.len() > 0 {
        assert(commands_before =~= seq![commands_before[0]] + commands_before.drop_first());
    }
}

/// The worker gets the oldest input if any waits and is told to yield if none does; it is
/// never told of an end. What waited is what came out, followed by what still waits.
pub proof fn law_pull_data<AllocU8: Allocator>(
    worker: &mut SerialWorker<AllocU8>,
    answer: ThreadData,
)
    requires
        old(worker).wf(),
        call_ensures(
            <SerialWorker<AllocU8> as ThreadToMain<AllocU8>>::pull_data,
            (worker,),
            answer,
        ),
    ensures
        final(worker).wf(),
        answer is Data <==> old(worker)@.data.len() > 0,
        answer is Yield <==> old(worker)@.data.len() == 0,
        answer matches ThreadData::Data(range) ==> old(worker)@.data == seq![range] + final(worker)@.data,
        answer is Yield ==> final(worker)@.data == old(worker)@.data,
        final(worker)@.context_maps == old(worker)@.context_maps,
        final(worker)@.commands == old(worker)@.commands,
        final(worker)@.consumed == old(worker)@.consumed,
        final(worker)@.eof == old(worker)@.eof,
{
    let before = old(worker)@.data;
    if before.len() > 0 {
        assert(before =~= seq![before[0]] + before.drop_first());
    }
}

/// The worker gets the context maps that were put in last, if any wait. What waited is what
/// still waits, with what came out on top. The allocator is left alone.
pub proof fn law_pull_context_map<AllocU8: Allocator>(
    worker: &mut SerialWorker<AllocU8>,
    m8: Option<&mut AllocU8::RepurposingAlloc>,
    answer: Result<PredictionModeContextMap<AllocatedMemoryPrefix>, ()>,
)
    requires
        old(worker).wf(),
        call_ensures(
            <SerialWorker<AllocU8> as ThreadToMain<AllocU8>>::pull_context_map,
            (worker, m8),
            answer,
        ),
    ensures
        final(worker).wf(),
        answer is Ok <==> old(worker)@.context_maps.len() > 0,
        answer matches Ok(cm) ==> old(worker)@.context_maps == final(worker)@.context_maps + seq![
            cm,
        ],
        answer is Err ==> final(worker)@.context_maps == old(worker)@.context_maps,
        m8 matches Some(alloc) ==> *final(alloc) == *alloc,
        final(worker)@.data == old(worker)@.data,
        final(worker)@.commands == old(worker)@.commands,
        final(worker)@.consumed == old(worker)@.consumed,
        final(worker)@.eof == old(worker)@.eof,
{
    let before = old(worker)@.context_maps;
    if before.len() > 0 {
        assert(before =~= before.drop_last() + seq![before.last()]);
    }
}

/// A command is refused only for want of room for it, whatever waits elsewhere, and is then
/// still the caller's. Taken, it goes behind the commands that wait, and the caller is left
/// with a copy of no bytes. Nothing else that the caller lends is touched.
pub proof fn law_push_cmd<
    AllocU8: Allocator,
    Specialization: EncoderOrDecoderRecoderSpecialization,
>(
    worker: &mut SerialWorker<AllocU8>,
    cmd: &mut Command<AllocatedMemoryPrefix>,
    m8: Option<&mut AllocU8::RepurposingAlloc>,
    recoder: Option<&mut AllocU8::RecodeState>,
    specialization: &mut Specialization,
    output: &mut [u8],
    output_offset: &mut usize,
    answer: DivansOutputResult,
)
    requires
        old(worker).wf(),
        call_ensures(
            <SerialWorker<AllocU8> as ThreadToMain<AllocU8>>::push_cmd::<Specialization>,
            (worker, cmd, m8, recoder, specialization, output, output_offset),
            answer,
        ),
    ensures
        final(worker).wf(),
        answer is Success <==> old(worker)@.commands.len() < 2,
        answer is Success ==> {
            &&& final(worker)@.commands == old(worker)@.commands + seq![*old(cmd)]
            &&& *final(cmd) matches Command::Copy(copy)
            &&& copy.num_bytes == 0
            &&& copy.distance == 1
        },
        answer is NeedsMoreOutput ==> {
            &&& final(worker)@.commands == old(worker)@.commands
            &&& *final(cmd) == *old(cmd)
        },
        m8 matches Some(alloc) ==> *final(alloc) == *alloc,
        recoder matches Some(state) ==> *final(state) == *state,
        *final(specialization) == *old(specialization),
        final(output)@ == old(output)@,
        *final(output_offset) == *old(output_offset),
        final(worker)@.data == old(worker)@.data,
        final(worker)@.context_maps == old(worker)@.context_maps,
        final(worker)@.consumed == old(worker)@.consumed,
        final(worker)@.eof == old(worker)@.eof,
{
    law_worker_bounds(*old(worker));
    assert(old(worker)@.commands.push(*old(cmd)) =~= old(worker)@.commands + seq![*old(cmd)]);
}

/// A buffer is refused only for want of room for it, whatever waits elsewhere, and is then
/// still the caller's. Taken, as it is, it goes behind the spent buffers that wait, and the
/// caller is left with no memory. The allocator is left alone.
pub proof fn law_push_consumed_data<AllocU8: Allocator>(
    worker: &mut SerialWorker<AllocU8>,
    data: &mut AllocatedMemoryRange,
    m8: Option<&mut AllocU8::RepurposingAlloc>,
    answer: DivansOutputResult,
)
    requires
        old(worker).wf(),
        call_ensures(
            <SerialWorker<AllocU8> as ThreadToMain<AllocU8>>::push_consumed_data,
            (worker, data, m8),
            answer,
        ),
    ensures
        final(worker).wf(),
        answer is Success <==> old(worker)@.consumed.len() < 2,
        answer is Success ==> {
            &&& final(worker)@.consumed == old(worker)@.consumed + seq![*old(data)]
            &&& final(data).0@.len() == 0
            &&& final(data).1.start == 0
            &&& final(data).1.end == 0
        },
        answer is NeedsMoreOutput ==> {
            &&& final(worker)@.consumed == old(worker)@.consumed
            &&& *final(data) == *old(data)
        },
        m8 matches Some(alloc) ==> *final(alloc) == *alloc,
        final(worker)@.data == old(worker)@.data,
        final(worker)@.context_maps == old(worker)@.context_maps,
        final(worker)@.commands == old(worker)@.commands,
        final(worker)@.eof == old(worker)@.eof,
{
    law_worker_bounds(*old(worker));
    assert(old(worker)@.consumed.push(*old(data)) =~= old(worker)@.consumed + seq![*old(data)]);
}

/// An announcement of the end always succeeds and is on record afterwards, whatever waits.
/// Nothing else changes.
pub proof fn law_push_eof<AllocU8: Allocator>(
    worker: &mut SerialWorker<AllocU8>,
    answer: DivansOutputResult,
)
    requires
        old(worker).wf(),
        call_ensures(
            <SerialWorker<AllocU8> as ThreadToMain<AllocU8>>::push_eof,
            (worker,),
            answer,
        ),
    ensures
        final(worker).wf(),
        answer is Success,
        final(worker)@.eof,
        final(worker)@.data == old(worker)@.data,
        final(worker)@.context_maps == old(worker)@.context_maps,
        final(worker)@.commands == old(worker)@.commands,
        final(worker)@.consumed == old(worker)@.consumed,
{
}

} // verus!
