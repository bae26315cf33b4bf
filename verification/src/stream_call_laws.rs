//! What each call of a [`ThreadToMainDemuxer`] does, one call at a time, over any worker:
//! what it asks of the worker, what it takes up of the answer, and what it leaves alone.
use crate::demuxer::{Demuxing, ThreadToMainDemuxer};
use crate::interface::{
    Allocator, Command, DivansOutputResult, EncoderOrDecoderRecoderSpecialization,
    PredictionModeContextMap, ReadableBytes, StreamDemuxer, StreamID, WellFormed, NUM_STREAMS,
};
use crate::memory::{AllocatedMemoryPrefix, AllocatedMemoryRange};
use crate::threading::{CommandLoan, CommandResult, MainToThread, ThreadData, ThreadToMain};
use core::ops::Range;
use vstd::prelude::*;

verus! {

/// What the worker gives is taken up: input becomes the buffer, an end is put on record, and
/// there is no change but that.
pub proof fn law_pulled_data_is_taken_up<WorkerInterface>(
    pre: Demuxing<WorkerInterface>,
    worker: WorkerInterface,
    data: ThreadData,
)
    ensures
        pre.with_pulled(worker, data).worker == worker,
        pre.with_pulled(worker, data).slice == match data {
            ThreadData::Data(range) => range,
            _ => pre.slice,
        },
        pre.with_pulled(worker, data).eof <==> pre.eof || data is Eof,
        pre.with_pulled(worker, data).unused == pre.unused,
{
}

/// Reading on moves the start of the unread range, and nothing else.
pub proof fn law_reading_on_moves_the_start<WorkerInterface>(
    pre: Demuxing<WorkerInterface>,
    count: int,
)
    requires
        0 <= count,
        pre.slice.1.start + count <= usize::MAX,
    ensures
        pre.advanced(count).slice.1.start == pre.slice.1.start + count,
        pre.advanced(count).slice.1.end == pre.slice.1.end,
        pre.advanced(count).slice.0 == pre.slice.0,
        pre.advanced(count).worker == pre.worker,
        pre.advanced(count).unused == pre.unused,
        pre.advanced(count).eof == pre.eof,
{
}

/// A buffer with memory of which nothing is left to read is offered to the worker, as it is
/// and without an allocator, and the worker's answer is the answer. Any other buffer stays,
/// and the worker is not called.
pub proof fn law_only_spent_buffers_are_offered<
    AllocU8: Allocator,
    WorkerInterface: ThreadToMain<AllocU8>,
>(pre: Demuxing<WorkerInterface>, post: Demuxing<WorkerInterface>, answer: DivansOutputResult)
    requires
        pre.slice.1.start <= pre.slice.1.end <= pre.slice.0@.len(),
        pre.spent_offered::<AllocU8>(post, answer),
    ensures
        pre.slice.1.start == pre.slice.1.end && pre.slice.0@.len() > 0
            ==> WorkerInterface::consumed_data_pushed(
            pre.worker,
            pre.slice,
            None,
            post.worker,
            post.slice,
            None,
            answer,
        ),
        pre.slice.1.start < pre.slice.1.end || pre.slice.0@.len() == 0 ==> {
            &&& post.worker == pre.worker
            &&& post.slice == pre.slice
            &&& answer is Success
        },
        post.unused == pre.unused,
        post.eof == pre.eof,
{
}

/// A refill, whatever the worker: bytes at hand are left alone. Without any, a buffer with
/// memory is offered to the worker first, and if the worker does not take it, that is the
/// answer and the end of it. Otherwise the worker is asked once, after the offer; input that
/// it gives becomes the buffer, an end that it gives is on record afterwards, and else the
/// record and the buffer are as they were after the offer.
pub proof fn law_refill<AllocU8: Allocator, WorkerInterface: ThreadToMain<AllocU8>>(
    pre: Demuxing<WorkerInterface>,
    post: Demuxing<WorkerInterface>,
    answer: DivansOutputResult,
)
    requires
        pre.slice.1.start <= pre.slice.1.end <= pre.slice.0@.len(),
        pre.refilled::<AllocU8>(post, answer),
    ensures
        post.unused == pre.unused,
        pre.slice.1.start < pre.slice.1.end ==> {
            &&& answer is Success
            &&& post.worker == pre.worker
            &&& post.slice == pre.slice
            &&& post.eof == pre.eof
        },
        pre.slice.1.start == pre.slice.1.end && pre.slice.0@.len() == 0 ==> {
            &&& answer is Success
            &&& exists|data: ThreadData|
                {
                    &&& #[trigger] WorkerInterface::data_pulled(pre.worker, post.worker, data)
                    &&& post.slice == match data {
                        ThreadData::Data(range) => range,
                        _ => pre.slice,
                    }
                    &&& post.eof <==> pre.eof || data is Eof
                }
        },
        pre.slice.1.start == pre.slice.1.end && pre.slice.0@.len() > 0 && answer !is Success ==> {
            &&& WorkerInterface::consumed_data_pushed(
                pre.worker,
                pre.slice,
                None,
                post.worker,
                post.slice,
                None,
                answer,
            )
            &&& post.eof == pre.eof
        },
        pre.slice.1.start == pre.slice.1.end && pre.slice.0@.len() > 0 && answer is Success
            ==> exists|worker: WorkerInterface, left: AllocatedMemoryRange, data: ThreadData|
            {
                &&& #[trigger] WorkerInterface::consumed_data_pushed(
                    pre.worker,
                    pre.slice,
                    None,
                    worker,
                    left,
                    None,
                    DivansOutputResult::Success,
                )
                &&& #[trigger] WorkerInterface::data_pulled(worker, post.worker, data)
                &&& post.slice == match data {
                    ThreadData::Data(range) => range,
                    _ => left,
                }
                &&& post.eof <==> pre.eof || data is Eof
            },
{
    if pre.slice.unread().len() == 0 && answer is Success {
        let offered = choose|offered: Demuxing<WorkerInterface>|
            {
                &&& #[trigger] pre.spent_offered::<AllocU8>(offered, DivansOutputResult::Success)
                &&& offered.asked::<AllocU8>(post)
            };
        let data = choose|data: ThreadData|
            {
                &&& #[trigger] WorkerInterface::data_pulled(offered.worker, post.worker, data)
                &&& post == offered.with_pulled(post.worker, data)
            };
        law_only_spent_buffers_are_offered::<AllocU8, WorkerInterface>(
            pre,
            offered,
            DivansOutputResult::Success,
        );
        law_pulled_data_is_taken_up(offered, post.worker, data);
        assert(WorkerInterface::data_pulled(offered.worker, post.worker, data));
        if pre.slice.0@.len() > 0 {
            assert(WorkerInterface::consumed_data_pushed(
                pre.worker,
                pre.slice,
                None,
                offered.worker,
                offered.slice,
                None,
                DivansOutputResult::Success,
            ));
        }
    }
}

/// Whenever a refill that asks the worker for bytes can only have been answered with the end,
/// the end is on record afterwards, whether or not a spent buffer went back first.
pub proof fn law_told_end_is_on_record<AllocU8: Allocator, WorkerInterface: ThreadToMain<AllocU8>>(
    pre: Demuxing<WorkerInterface>,
    post: Demuxing<WorkerInterface>,
    answer: DivansOutputResult,
)
    requires
        pre.slice.1.start == pre.slice.1.end,
        pre.slice.1.end <= pre.slice.0@.len(),
        pre.refilled::<AllocU8>(post, answer),
        answer is Success,
        forall|worker: WorkerInterface, data: ThreadData| #[trigger]
            WorkerInterface::data_pulled(worker, post.worker, data) ==> data is Eof,
    ensures
        post.eof,
{
    law_refill::<AllocU8, WorkerInterface>(pre, post, answer);
}

/// A new demuxer holds the worker it is given, no buffer, and no record of an end; the
/// default one does so over a default worker.
pub proof fn law_new_demuxer<
    AllocU8: Allocator,
    WorkerInterface: ThreadToMain<AllocU8> + Default,
>(
    worker: WorkerInterface,
    demuxer: ThreadToMainDemuxer<AllocU8, WorkerInterface>,
    default_demuxer: ThreadToMainDemuxer<AllocU8, WorkerInterface>,
)
    requires
        call_ensures(
            ThreadToMainDemuxer::<AllocU8, WorkerInterface>::new,
            (worker,),
            demuxer,
        ),
        call_ensures(
            <ThreadToMainDemuxer<AllocU8, WorkerInterface> as Default>::default,
            (),
            default_demuxer,
        ),
    ensures
        demuxer@.worker == worker,
        demuxer@.slice.0@.len() == 0,
        demuxer@.slice.1.start == 0,
        demuxer@.slice.1.end == 0,
        demuxer@.unused == 0,
        !demuxer@.eof,
        call_ensures(WorkerInterface::default, (), default_demuxer@.worker),
        default_demuxer@.slice.0@.len() == 0,
        default_demuxer@.slice.1.start == 0,
        default_demuxer@.slice.1.end == 0,
        default_demuxer@.unused == 0,
        !default_demuxer@.eof,
{
}

/// The main thread is lent the worker itself: what it does there is done to the demuxer's
/// worker, and to nothing else.
pub proof fn law_worker_is_lent<
    AllocU8: Allocator,
    WorkerInterface: ThreadToMain<AllocU8> + MainToThread,
>(
    demuxer: &mut ThreadToMainDemuxer<AllocU8, WorkerInterface>,
    worker: &mut WorkerInterface,
)
    requires
        call_ensures(
            ThreadToMainDemuxer::<AllocU8, WorkerInterface>::get_main_to_thread,
            (demuxer,),
            worker,
        ),
    ensures
        call_requires(
            ThreadToMainDemuxer::<AllocU8, WorkerInterface>::get_main_to_thread,
            (demuxer,),
        ),
        *old(worker) == old(demuxer)@.worker,
        final(demuxer)@.worker == *final(worker),
        final(demuxer)@.slice == old(demuxer)@.slice,
        final(demuxer)@.unused == old(demuxer)@.unused,
        final(demuxer)@.eof == old(demuxer)@.eof,
{
}

/// Which calls a demuxer takes: with a usable worker and the unread range within the buffer,
/// every call on stream 0 that consumes no more than is at hand. Freeing it, and asking how
/// much the other stream has, takes no regard of the range, nor does asking for the end
/// before one is on record.
pub proof fn law_demuxer_takes_calls<AllocU8: Allocator, WorkerInterface: ThreadToMain<AllocU8>>(
    demuxer: &mut ThreadToMainDemuxer<AllocU8, WorkerInterface>,
    reading: &ThreadToMainDemuxer<AllocU8, WorkerInterface>,
    stream_id: StreamID,
    count: usize,
    m8: &mut AllocU8,
)
    requires
        old(demuxer)@.worker.wf(),
    ensures
        old(demuxer)@.slice.1.start <= old(demuxer)@.slice.1.end && old(demuxer)@.slice.1.end
            <= old(demuxer)@.slice.0@.len() ==> {
            &&& call_requires(
                ThreadToMainDemuxer::<
                    AllocU8,
                    WorkerInterface,
                >::send_any_empty_data_buffer_to_main,
                (demuxer,),
            )
            &&& call_requires(
                ThreadToMainDemuxer::<AllocU8, WorkerInterface>::pull_if_necessary,
                (demuxer,),
            )
            &&& call_requires(
                <ThreadToMainDemuxer<AllocU8, WorkerInterface> as StreamDemuxer<
                    AllocU8,
                >>::read_buffer,
                (demuxer,),
            )
            &&& stream_id == 0 ==> call_requires(
                <ThreadToMainDemuxer<AllocU8, WorkerInterface> as StreamDemuxer<AllocU8>>::edit,
                (demuxer, stream_id),
            )
            &&& stream_id == 0 && count <= old(demuxer)@.slice.1.end - old(demuxer)@.slice.1.start
                ==> call_requires(
                <ThreadToMainDemuxer<AllocU8, WorkerInterface> as StreamDemuxer<AllocU8>>::consume,
                (demuxer, stream_id, count),
            )
        },
        call_requires(
            <ThreadToMainDemuxer<AllocU8, WorkerInterface> as StreamDemuxer<AllocU8>>::free_demux,
            (demuxer, m8),
        ),
        reading@.slice.1.start <= reading@.slice.1.end && reading@.slice.1.end
            <= reading@.slice.0@.len() || stream_id != 0 ==> call_requires(
            <ThreadToMainDemuxer<AllocU8, WorkerInterface> as StreamDemuxer<AllocU8>>::data_ready,
            (reading, stream_id),
        ),
        reading@.slice.1.start <= reading@.slice.1.end && reading@.slice.1.end
            <= reading@.slice.0@.len() && stream_id == 0 ==> call_requires(
            <ThreadToMainDemuxer<AllocU8, WorkerInterface> as StreamDemuxer<AllocU8>>::peek,
            (reading, stream_id),
        ),
        reading@.slice.1.start <= reading@.slice.1.end && reading@.slice.1.end
            <= reading@.slice.0@.len() || !reading@.eof ==> {
            &&& call_requires(
                <ThreadToMainDemuxer<AllocU8, WorkerInterface> as StreamDemuxer<
                    AllocU8,
                >>::encountered_eof,
                (reading,),
            )
            &&& call_requires(
                <ThreadToMainDemuxer<AllocU8, WorkerInterface> as StreamDemuxer<
                    AllocU8,
                >>::consumed_all_streams_until_eof,
                (reading,),
            )
        },
{
    if old(demuxer)@.slice.wf() {
        assert(old(demuxer)@.slice.unread().len() == old(demuxer)@.slice.1.end
            - old(demuxer)@.slice.1.start);
    }
}

/// A buffer with memory of which nothing is left to read is offered to the worker; any other
/// is not.
pub proof fn law_send_any_empty_data_buffer_to_main<
    AllocU8: Allocator,
    WorkerInterface: ThreadToMain<AllocU8>,
>(
    demuxer: &mut ThreadToMainDemuxer<AllocU8, WorkerInterface>,
    answer: DivansOutputResult,
)
    requires
        old(demuxer)@.slice.1.start <= old(demuxer)@.slice.1.end <= old(demuxer)@.slice.0@.len(),
        call_ensures(
            ThreadToMainDemuxer::<AllocU8, WorkerInterface>::send_any_empty_data_buffer_to_main,
            (demuxer,),
            answer,
        ),
    ensures
        final(demuxer)@.worker.wf(),
        final(demuxer)@.slice.1.start <= final(demuxer)@.slice.1.end <= final(demuxer)@.slice.0@.len(),
        old(demuxer)@.slice.1.start == old(demuxer)@.slice.1.end && old(demuxer)@.slice.0@.len() > 0
            ==> WorkerInterface::consumed_data_pushed(
            old(demuxer)@.worker,
            old(demuxer)@.slice,
            None,
            final(demuxer)@.worker,
            final(demuxer)@.slice,
            None,
            answer,
        ),
        old(demuxer)@.slice.1.start < old(demuxer)@.slice.1.end || old(demuxer)@.slice.0@.len() == 0
            ==> {
            &&& final(demuxer)@.worker == old(demuxer)@.worker
            &&& final(demuxer)@.slice == old(demuxer)@.slice
            &&& answer is Success
        },
        final(demuxer)@.unused == old(demuxer)@.unused,
        final(demuxer)@.eof == old(demuxer)@.eof,
{
    law_only_spent_buffers_are_offered::<AllocU8, WorkerInterface>(
        old(demuxer)@,
        final(demuxer)@,
        answer,
    );
}

/// What the demuxer does when it needs bytes is a refill, as [`law_refill`] tells it, and it
/// is left with a valid range.
pub proof fn law_pull_if_necessary<AllocU8: Allocator, WorkerInterface: ThreadToMain<AllocU8>>(
    demuxer: &mut ThreadToMainDemuxer<AllocU8, WorkerInterface>,
    answer: DivansOutputResult,
)
    requires
        call_ensures(
            ThreadToMainDemuxer::<AllocU8, WorkerInterface>::pull_if_necessary,
            (demuxer,),
            answer,
        ),
    ensures
        old(demuxer)@.refilled::<AllocU8>(final(demuxer)@, answer),
        final(demuxer)@.worker.wf(),
        final(demuxer)@.slice.1.start <= final(demuxer)@.slice.1.end <= final(demuxer)@.slice.0@.len(),
{
}

/// The codec is lent, after a refill, the memory up to the end of the unread range with the
/// start of the range as the read position, and a stream without bytes beside it. Where it
/// leaves the two positions is where they are afterwards; nothing else can change by them.
pub proof fn law_read_buffer<AllocU8: Allocator, WorkerInterface: ThreadToMain<AllocU8>>(
    demuxer: &mut ThreadToMainDemuxer<AllocU8, WorkerInterface>,
    buffers: [ReadableBytes<'_>; NUM_STREAMS],
)
    requires
        call_ensures(
            <ThreadToMainDemuxer<AllocU8, WorkerInterface> as StreamDemuxer<AllocU8>>::read_buffer,
            (demuxer,),
            buffers,
        ),
    ensures
        exists|refilled: Demuxing<WorkerInterface>, answer: DivansOutputResult|
            {
                &&& #[trigger] old(demuxer)@.refilled::<AllocU8>(refilled, answer)
                &&& buffers@[0].data@.len() == refilled.slice.1.end
                &&& forall|i: int|
                    0 <= i < refilled.slice.1.end ==> #[trigger] buffers@[0].data@[i]
                        == refilled.slice.0@[i]
                &&& *buffers@[0].read_offset == refilled.slice.1.start
                &&& *buffers@[1].read_offset == refilled.unused
                &&& final(demuxer)@.slice.0 == refilled.slice.0
                &&& final(demuxer)@.slice.1.end == refilled.slice.1.end
                &&& final(demuxer)@.worker == refilled.worker
                &&& final(demuxer)@.eof == refilled.eof
            },
        buffers@.len() == 2,
        *buffers@[0].read_offset <= buffers@[0].data@.len(),
        buffers@[1].data@.len() == 0,
        final(demuxer)@.slice.1.start == *final(buffers@[0].read_offset),
        final(demuxer)@.unused == *final(buffers@[1].read_offset),
        final(demuxer)@.worker.wf(),
        final(demuxer)@.slice.1.end <= final(demuxer)@.slice.0@.len(),
{
    let (refilled, answer) = choose|
        refilled: Demuxing<WorkerInterface>,
        answer: DivansOutputResult,
    |
        {
            &&& #[trigger] old(demuxer)@.refilled::<AllocU8>(refilled, answer)
            &&& refilled.worker.wf()
            &&& refilled.slice.wf()
            &&& buffers@[0].data@ == refilled.slice.0@.take(refilled.slice.1.end as int)
            &&& *buffers@[0].read_offset == refilled.slice.1.start
            &&& buffers@[1].data@ == Seq::<u8>::empty()
            &&& *buffers@[1].read_offset == refilled.unused
            &&& final(demuxer)@ == (Demuxing {
                slice: AllocatedMemoryRange(
                    refilled.slice.0,
                    Range { start: *final(buffers@[0].read_offset), end: refilled.slice.1.end },
                ),
                unused: *final(buffers@[1].read_offset),
                ..refilled
            })
        };
    assert(old(demuxer)@.refilled::<AllocU8>(refilled, answer));
}

/// The codec is lent, after a refill, the whole buffer with its range, which is a valid one,
/// and what it leaves there is the buffer afterwards. Nothing else can change by that.
pub proof fn law_edit<AllocU8: Allocator, WorkerInterface: ThreadToMain<AllocU8>>(
    demuxer: &mut ThreadToMainDemuxer<AllocU8, WorkerInterface>,
    stream_id: StreamID,
    range: &mut AllocatedMemoryRange,
)
    requires
        call_ensures(
            <ThreadToMainDemuxer<AllocU8, WorkerInterface> as StreamDemuxer<AllocU8>>::edit,
            (demuxer, stream_id),
            range,
        ),
    ensures
        exists|refilled: Demuxing<WorkerInterface>, answer: DivansOutputResult|
            {
                &&& #[trigger] old(demuxer)@.refilled::<AllocU8>(refilled, answer)
                &&& *old(range) == refilled.slice
                &&& final(demuxer)@.worker == refilled.worker
                &&& final(demuxer)@.unused == refilled.unused
                &&& final(demuxer)@.eof == refilled.eof
            },
        old(range).1.start <= old(range).1.end <= old(range).0@.len(),
        final(demuxer)@.slice == *final(range),
        final(demuxer)@.worker.wf(),
{
}

/// Stream 0 has as many bytes at hand as its unread range is long, and these are the bytes of
/// the memory in that range; any other stream has none.
pub proof fn law_bytes_at_hand<AllocU8: Allocator, WorkerInterface: ThreadToMain<AllocU8>>(
    demuxer: &ThreadToMainDemuxer<AllocU8, WorkerInterface>,
    stream_id: StreamID,
    count: usize,
    bytes: &[u8],
)
    requires
        demuxer@.slice.1.start <= demuxer@.slice.1.end <= demuxer@.slice.0@.len(),
    ensures
        call_ensures(
            <ThreadToMainDemuxer<AllocU8, WorkerInterface> as StreamDemuxer<AllocU8>>::data_ready,
            (demuxer, stream_id),
            count,
        ) ==> count == if stream_id == 0 {
            demuxer@.slice.1.end - demuxer@.slice.1.start
        } else {
            0
        },
        stream_id == 0 && call_ensures(
            <ThreadToMainDemuxer<AllocU8, WorkerInterface> as StreamDemuxer<AllocU8>>::peek,
            (demuxer, stream_id),
            bytes,
        ) ==> {
            &&& bytes@.len() == demuxer@.slice.1.end - demuxer@.slice.1.start
            &&& forall|i: int|
                0 <= i < bytes@.len() ==> #[trigger] bytes@[i]
                    == demuxer@.slice.0@[demuxer@.slice.1.start + i]
        },
{
}

/// A stream without bytes has none at hand whatever the range.
pub proof fn law_other_streams_have_no_bytes<
    AllocU8: Allocator,
    WorkerInterface: ThreadToMain<AllocU8>,
>(
    demuxer: &ThreadToMainDemuxer<AllocU8, WorkerInterface>,
    stream_id: StreamID,
    count: usize,
)
    requires
        stream_id != 0,
        call_ensures(
            <ThreadToMainDemuxer<AllocU8, WorkerInterface> as StreamDemuxer<AllocU8>>::data_ready,
            (demuxer, stream_id),
            count,
        ),
    ensures
        count == 0,
{
}

/// Consuming bytes moves the start of the unread range on by their number. If bytes are left,
/// or there is no memory, that is all; else the worker is offered the buffer with nothing left
/// in range.
pub proof fn law_consume<AllocU8: Allocator, WorkerInterface: ThreadToMain<AllocU8>>(
    demuxer: &mut ThreadToMainDemuxer<AllocU8, WorkerInterface>,
    stream_id: StreamID,
    count: usize,
)
    requires
        old(demuxer)@.slice.1.start <= old(demuxer)@.slice.1.end <= old(demuxer)@.slice.0@.len(),
        count <= old(demuxer)@.slice.1.end - old(demuxer)@.slice.1.start,
        call_ensures(
            <ThreadToMainDemuxer<AllocU8, WorkerInterface> as StreamDemuxer<AllocU8>>::consume,
            (demuxer, stream_id, count),
            (),
        ),
    ensures
        final(demuxer)@.worker.wf(),
        final(demuxer)@.slice.1.start <= final(demuxer)@.slice.1.end <= final(demuxer)@.slice.0@.len(),
        count < old(demuxer)@.slice.1.end - old(demuxer)@.slice.1.start || old(demuxer)@.slice.0@.len() == 0 ==> {
            &&& final(demuxer)@.slice.0 == old(demuxer)@.slice.0
            &&& final(demuxer)@.slice.1.start == old(demuxer)@.slice.1.start + count
            &&& final(demuxer)@.slice.1.end == old(demuxer)@.slice.1.end
            &&& final(demuxer)@.worker == old(demuxer)@.worker
        },
        count == old(demuxer)@.slice.1.end - old(demuxer)@.slice.1.start && old(demuxer)@.slice.0@.len() > 0 ==> exists|answer: DivansOutputResult| #[trigger]
            WorkerInterface::consumed_data_pushed(
                old(demuxer)@.worker,
                AllocatedMemoryRange(
                    old(demuxer)@.slice.0,
                    Range { start: old(demuxer)@.slice.1.end, end: old(demuxer)@.slice.1.end },
                ),
                None,
                final(demuxer)@.worker,
                final(demuxer)@.slice,
                None,
                answer,
            ),
        final(demuxer)@.unused == old(demuxer)@.unused,
        final(demuxer)@.eof == old(demuxer)@.eof,
{
    let pre = old(demuxer)@;
    let post = final(demuxer)@;
    let answer = choose|answer: DivansOutputResult| #[trigger]
        pre.advanced(count as int).spent_offered::<AllocU8>(post, answer);
    law_reading_on_moves_the_start(pre, count as int);
    law_only_spent_buffers_are_offered::<AllocU8, WorkerInterface>(
        pre.advanced(count as int),
        post,
        answer,
    );
}

/// Both questions about the end are answered yes just when the end is on record and nothing
/// is left to read.
pub proof fn law_end_of_streams<AllocU8: Allocator, WorkerInterface: ThreadToMain<AllocU8>>(
    demuxer: &ThreadToMainDemuxer<AllocU8, WorkerInterface>,
    consumed_all: bool,
    encountered: bool,
)
    requires
        demuxer@.eof ==> demuxer@.slice.1.start <= demuxer@.slice.1.end && demuxer@.slice.1.end
            <= demuxer@.slice.0@.len(),
        call_ensures(
            <ThreadToMainDemuxer<AllocU8, WorkerInterface> as StreamDemuxer<
                AllocU8,
            >>::consumed_all_streams_until_eof,
            (demuxer,),
            consumed_all,
        ),
        call_ensures(
            <ThreadToMainDemuxer<AllocU8, WorkerInterface> as StreamDemuxer<
                AllocU8,
            >>::encountered_eof,
            (demuxer,),
            encountered,
        ),
    ensures
        consumed_all <==> demuxer@.eof && demuxer@.slice.1.start == demuxer@.slice.1.end,
        encountered <==> demuxer@.eof && demuxer@.slice.1.start == demuxer@.slice.1.end,
{
}

/// Freeing offers the buffer to the worker as it is, read or not, if there is memory to it,
/// and else does nothing. The allocator is left alone.
pub proof fn law_free_demux<AllocU8: Allocator, WorkerInterface: ThreadToMain<AllocU8>>(
    demuxer: &mut ThreadToMainDemuxer<AllocU8, WorkerInterface>,
    m8: &mut AllocU8,
)
    requires
        old(demuxer)@.worker.wf(),
        call_ensures(
            <ThreadToMainDemuxer<AllocU8, WorkerInterface> as StreamDemuxer<AllocU8>>::free_demux,
            (demuxer, m8),
            (),
        ),
    ensures
        final(demuxer)@.worker.wf(),
        *final(m8) == *old(m8),
        old(demuxer)@.slice.0@.len() > 0 ==> exists|answer: DivansOutputResult| #[trigger]
            WorkerInterface::consumed_data_pushed(
                old(demuxer)@.worker,
                old(demuxer)@.slice,
                None,
                final(demuxer)@.worker,
                final(demuxer)@.slice,
                None,
                answer,
            ),
        old(demuxer)@.slice.0@.len() == 0 ==> {
            &&& final(demuxer)@.worker == old(demuxer)@.worker
            &&& final(demuxer)@.slice == old(demuxer)@.slice
        },
        final(demuxer)@.unused == old(demuxer)@.unused,
        final(demuxer)@.eof == old(demuxer)@.eof,
{
    if old(demuxer)@.slice.0@.len() != 0 {
        let answer = choose|answer: DivansOutputResult| #[trigger]
            old(demuxer)@.offered::<AllocU8>(final(demuxer)@, answer);
        assert(old(demuxer)@.offered::<AllocU8>(final(demuxer)@, answer));
    }
}

/// A request for input is the worker's to answer, and leaves the demuxer's buffer alone.
pub proof fn law_pull_data_goes_to_the_worker<AllocU8: Allocator, WorkerInterface: ThreadToMain<AllocU8>>(
    demuxer: &mut ThreadToMainDemuxer<AllocU8, WorkerInterface>,
    answer: ThreadData,
)
    requires
        old(demuxer)@.worker.wf(),
    ensures
        call_requires(
            <ThreadToMainDemuxer<AllocU8, WorkerInterface> as ThreadToMain<AllocU8>>::pull_data,
            (demuxer,),
        ),
        call_ensures(
            <ThreadToMainDemuxer<AllocU8, WorkerInterface> as ThreadToMain<AllocU8>>::pull_data,
            (demuxer,),
            answer,
        ) ==> {
            &&& final(demuxer)@.worker.wf()
            &&& WorkerInterface::data_pulled(old(demuxer)@.worker, final(demuxer)@.worker, answer)
            &&& final(demuxer)@.slice == old(demuxer)@.slice
            &&& final(demuxer)@.unused == old(demuxer)@.unused
            &&& final(demuxer)@.eof == old(demuxer)@.eof
        },
{
}

/// A request for context maps is the worker's to answer, with the allocator that the caller lends.
pub proof fn law_pull_context_map_goes_to_the_worker<AllocU8: Allocator, WorkerInterface: ThreadToMain<AllocU8>>(
    demuxer: &mut ThreadToMainDemuxer<AllocU8, WorkerInterface>,
    m8: Option<&mut AllocU8::RepurposingAlloc>,
    answer: Result<PredictionModeContextMap<AllocatedMemoryPrefix>, ()>,
)
    requires
        old(demuxer)@.worker.wf(),
    ensures
        call_requires(
            <ThreadToMainDemuxer<AllocU8, WorkerInterface> as ThreadToMain<AllocU8>>::pull_context_map,
            (demuxer, m8),
        ),
        call_ensures(
            <ThreadToMainDemuxer<AllocU8, WorkerInterface> as ThreadToMain<AllocU8>>::pull_context_map,
            (demuxer, m8),
            answer,
        ) ==> {
            &&& final(demuxer)@.worker.wf()
            &&& WorkerInterface::context_map_pulled(
                old(demuxer)@.worker,
                match m8 {
                    Some(alloc) => Some(*alloc),
                    None => None,
                },
                final(demuxer)@.worker,
                match m8 {
                    Some(alloc) => Some(*final(alloc)),
                    None => None,
                },
                answer,
            )
            &&& final(demuxer)@.slice == old(demuxer)@.slice
            &&& final(demuxer)@.unused == old(demuxer)@.unused
            &&& final(demuxer)@.eof == old(demuxer)@.eof
        },
{
}

/// A command is the worker's to take, with all that the caller lends for it.
pub proof fn law_push_cmd_goes_to_the_worker<AllocU8: Allocator, WorkerInterface: ThreadToMain<AllocU8>, Specialization: EncoderOrDecoderRecoderSpecialization>(
    demuxer: &mut ThreadToMainDemuxer<AllocU8, WorkerInterface>,
    cmd: &mut Command<AllocatedMemoryPrefix>,
    m8: Option<&mut AllocU8::RepurposingAlloc>,
    recoder: Option<&mut AllocU8::RecodeState>,
    specialization: &mut Specialization,
    output: &mut [u8],
    output_offset: &mut usize,
    answer: DivansOutputResult,
)
    requires
        old(demuxer)@.worker.wf(),
    ensures
        call_requires(
            <ThreadToMainDemuxer<AllocU8, WorkerInterface> as ThreadToMain<AllocU8>>::push_cmd::<Specialization>,
            (demuxer, cmd, m8, recoder, specialization, output, output_offset),
        ),
        call_ensures(
            <ThreadToMainDemuxer<AllocU8, WorkerInterface> as ThreadToMain<AllocU8>>::push_cmd::<Specialization>,
            (demuxer, cmd, m8, recoder, specialization, output, output_offset),
            answer,
        ) ==> {
            &&& final(demuxer)@.worker.wf()
            &&& WorkerInterface::cmd_pushed(
                old(demuxer)@.worker,
                (CommandLoan {
                    cmd: *old(cmd),
                    m8: match m8 {
                    Some(alloc) => Some(*alloc),
                    None => None,
                },
                    recoder: match recoder {
                    Some(state) => Some(*state),
                    None => None,
                },
                    specialization: old(specialization).model(),
                    output: old(output)@,
                    output_offset: *old(output_offset),
                }),
                final(demuxer)@.worker,
                (CommandLoan {
                    cmd: *final(cmd),
                    m8: match m8 {
                    Some(alloc) => Some(*final(alloc)),
                    None => None,
                },
                    recoder: match recoder {
                    Some(state) => Some(*final(state)),
                    None => None,
                },
                    specialization: final(specialization).model(),
                    output: final(output)@,
                    output_offset: *final(output_offset),
                }),
                *final(specialization) == *old(specialization),
                answer,
            )
            &&& final(demuxer)@.slice == old(demuxer)@.slice
            &&& final(demuxer)@.unused == old(demuxer)@.unused
            &&& final(demuxer)@.eof == old(demuxer)@.eof
        },
{
}

/// A spent buffer is the worker's to take, with the allocator that the caller lends.
pub proof fn law_push_consumed_data_goes_to_the_worker<AllocU8: Allocator, WorkerInterface: ThreadToMain<AllocU8>>(
    demuxer: &mut ThreadToMainDemuxer<AllocU8, WorkerInterface>,
    data: &mut AllocatedMemoryRange,
    m8: Option<&mut AllocU8::RepurposingAlloc>,
    answer: DivansOutputResult,
)
    requires
        old(demuxer)@.worker.wf(),
    ensures
        call_requires(
            <ThreadToMainDemuxer<AllocU8, WorkerInterface> as ThreadToMain<AllocU8>>::push_consumed_data,
            (demuxer, data, m8),
        ),
        call_ensures(
            <ThreadToMainDemuxer<AllocU8, WorkerInterface> as ThreadToMain<AllocU8>>::push_consumed_data,
            (demuxer, data, m8),
            answer,
        ) ==> {
            &&& final(demuxer)@.worker.wf()
            &&& WorkerInterface::consumed_data_pushed(
                old(demuxer)@.worker,
                *old(data),
                match m8 {
                    Some(alloc) => Some(*alloc),
                    None => None,
                },
                final(demuxer)@.worker,
                *final(data),
                match m8 {
                    Some(alloc) => Some(*final(alloc)),
                    None => None,
                },
                answer,
            )
            &&& final(demuxer)@.slice == old(demuxer)@.slice
            &&& final(demuxer)@.unused == old(demuxer)@.unused
            &&& final(demuxer)@.eof == old(demuxer)@.eof
        },
{
}

/// An announcement of the end is the worker's to take; it is no end of the demuxer's own stream.
pub proof fn law_push_eof_goes_to_the_worker<AllocU8: Allocator, WorkerInterface: ThreadToMain<AllocU8>>(
    demuxer: &mut ThreadToMainDemuxer<AllocU8, WorkerInterface>,
    answer: DivansOutputResult,
)
    requires
        old(demuxer)@.worker.wf(),
    ensures
        call_requires(
            <ThreadToMainDemuxer<AllocU8, WorkerInterface> as ThreadToMain<AllocU8>>::push_eof,
            (demuxer,),
        ),
        call_ensures(
            <ThreadToMainDemuxer<AllocU8, WorkerInterface> as ThreadToMain<AllocU8>>::push_eof,
            (demuxer,),
            answer,
        ) ==> {
            &&& final(demuxer)@.worker.wf()
            &&& WorkerInterface::eof_pushed(old(demuxer)@.worker, final(demuxer)@.worker, answer)
            &&& final(demuxer)@.slice == old(demuxer)@.slice
            &&& final(demuxer)@.unused == old(demuxer)@.unused
            &&& final(demuxer)@.eof == old(demuxer)@.eof
        },
{
}

/// Context maps are the worker's to take.
pub proof fn law_push_context_map_goes_to_the_worker<AllocU8: Allocator, WorkerInterface: ThreadToMain<AllocU8> + MainToThread>(
    demuxer: &mut ThreadToMainDemuxer<AllocU8, WorkerInterface>,
    cm: PredictionModeContextMap<AllocatedMemoryPrefix>,
    answer: Result<(), ()>,
)
    requires
        old(demuxer)@.worker.wf(),
    ensures
        call_requires(
            <ThreadToMainDemuxer<AllocU8, WorkerInterface> as MainToThread>::push_context_map,
            (demuxer, cm),
        ),
        call_ensures(
            <ThreadToMainDemuxer<AllocU8, WorkerInterface> as MainToThread>::push_context_map,
            (demuxer, cm),
            answer,
        ) ==> {
            &&& final(demuxer)@.worker.wf()
            &&& WorkerInterface::context_map_pushed(old(demuxer)@.worker, cm, final(demuxer)@.worker, answer)
            &&& final(demuxer)@.slice == old(demuxer)@.slice
            &&& final(demuxer)@.unused == old(demuxer)@.unused
            &&& final(demuxer)@.eof == old(demuxer)@.eof
        },
{
}

/// Input is the worker's to take.
pub proof fn law_push_goes_to_the_worker<AllocU8: Allocator, WorkerInterface: ThreadToMain<AllocU8> + MainToThread>(
    demuxer: &mut ThreadToMainDemuxer<AllocU8, WorkerInterface>,
    data: &mut AllocatedMemoryRange,
    answer: Result<(), ()>,
)
    requires
        old(demuxer)@.worker.wf(),
        old(data).1.start <= old(data).1.end && old(data).1.end <= old(data).0@.len() || old(demuxer)@.worker.refuses_unseen(),
    ensures
        call_requires(
            <ThreadToMainDemuxer<AllocU8, WorkerInterface> as MainToThread>::push,
            (demuxer, data),
        ),
        call_ensures(
            <ThreadToMainDemuxer<AllocU8, WorkerInterface> as MainToThread>::push,
            (demuxer, data),
            answer,
        ) ==> {
            &&& final(demuxer)@.worker.wf()
            &&& WorkerInterface::data_pushed(
                old(demuxer)@.worker,
                *old(data),
                final(demuxer)@.worker,
                *final(data),
                answer,
            )
            &&& final(demuxer)@.slice == old(demuxer)@.slice
            &&& final(demuxer)@.unused == old(demuxer)@.unused
            &&& final(demuxer)@.eof == old(demuxer)@.eof
        },
{
}

/// What the main thread pulls is the worker's to give.
pub proof fn law_pull_goes_to_the_worker<AllocU8: Allocator, WorkerInterface: ThreadToMain<AllocU8> + MainToThread>(
    demuxer: &mut ThreadToMainDemuxer<AllocU8, WorkerInterface>,
    cmd: &mut Command<AllocatedMemoryPrefix>,
    consumed: &mut AllocatedMemoryRange,
    answer: CommandResult,
)
    requires
        old(demuxer)@.worker.wf(),
    ensures
        call_requires(
            <ThreadToMainDemuxer<AllocU8, WorkerInterface> as MainToThread>::pull,
            (demuxer, cmd, consumed),
        ),
        call_ensures(
            <ThreadToMainDemuxer<AllocU8, WorkerInterface> as MainToThread>::pull,
            (demuxer, cmd, consumed),
            answer,
        ) ==> {
            &&& final(demuxer)@.worker.wf()
            &&& WorkerInterface::pulled(
                old(demuxer)@.worker,
                *old(cmd),
                *old(consumed),
                final(demuxer)@.worker,
                *final(cmd),
                *final(consumed),
                answer,
            )
            &&& final(demuxer)@.slice == old(demuxer)@.slice
            &&& final(demuxer)@.unused == old(demuxer)@.unused
            &&& final(demuxer)@.eof == old(demuxer)@.eof
        },
{
}

} // verus!
