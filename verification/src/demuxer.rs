//! Any worker as the input stream of a codec.
use crate::interface::{
    Allocator, Command, DivansOutputResult, EncoderOrDecoderRecoderSpecialization,
    PredictionModeContextMap, ReadableBytes, SpecializationModel, StreamDemuxer, StreamID, WellFormed,
    NUM_STREAMS,
};
use crate::memory::{AllocatedMemoryPrefix, AllocatedMemoryRange};
use crate::threading::{CommandLoan, CommandResult, MainToThread, ThreadData, ThreadToMain};
use core::marker::PhantomData;
use core::ops::Range;
use vstd::prelude::*;

verus! {

/// The read position of a stream that never has bytes.
type NopUsize = usize;

/// What a [`ThreadToMainDemuxer`] holds.
pub ghost struct Demuxing<WorkerInterface> {
    /// The worker that the bytes come from.
    pub worker: WorkerInterface,
    /// The buffer being read, with the unread range of it.
    pub slice: AllocatedMemoryRange,
    /// The read position of the stream that never has bytes.
    pub unused: usize,
    /// The worker has said that no more bytes will come.
    pub eof: bool,
}

impl<WorkerInterface> Demuxing<WorkerInterface> {
    /// What the worker gave becomes the buffer being read, or the end of the stream.
    pub open spec fn with_pulled(self, worker: WorkerInterface, data: ThreadData) -> Self {
        match data {
            ThreadData::Data(range) => Demuxing { worker, slice: range, ..self },
            ThreadData::Yield => Demuxing { worker, ..self },
            ThreadData::Eof => Demuxing { worker, eof: true, ..self },
        }
    }

    /// The first `count` unread bytes of the buffer have been read.
    pub open spec fn advanced(self, count: int) -> Self {
        Demuxing {
            slice: AllocatedMemoryRange(
                self.slice.0,
                Range { start: (self.slice.1.start + count) as usize, end: self.slice.1.end },
            ),
            ..self
        }
    }

    /// The worker was offered the buffer, whatever is left of it, and answered.
    pub open spec fn offered<AllocU8: Allocator>(
        self,
        next: Self,
        answer: DivansOutputResult,
    ) -> bool where WorkerInterface: ThreadToMain<AllocU8> {
        &&& WorkerInterface::consumed_data_pushed(
            self.worker,
            self.slice,
            None,
            next.worker,
            next.slice,
            None,
            answer,
        )
        &&& next == (Demuxing { worker: next.worker, slice: next.slice, ..self })
    }

    /// A spent buffer was offered to the worker; nothing happened to any other.
    pub open spec fn spent_offered<AllocU8: Allocator>(
        self,
        next: Self,
        answer: DivansOutputResult,
    ) -> bool where WorkerInterface: ThreadToMain<AllocU8> {
        if self.slice.is_spent() {
            self.offered::<AllocU8>(next, answer)
        } else {
            &&& next == self
            &&& answer == DivansOutputResult::Success
        }
    }

    /// The worker was asked for bytes, and what it gave was taken up.
    pub open spec fn asked<AllocU8: Allocator>(self, next: Self) -> bool where
        WorkerInterface: ThreadToMain<AllocU8>,
     {
        exists|data: ThreadData|
            {
                &&& #[trigger] WorkerInterface::data_pulled(self.worker, next.worker, data)
                &&& next == self.with_pulled(next.worker, data)
            }
    }

    /// Where bytes were at hand nothing happened. Otherwise a spent buffer was offered to
    /// the worker; if the worker did not take it, its answer stands, and else the worker
    /// was asked for bytes.
    pub open spec fn refilled<AllocU8: Allocator>(
        self,
        next: Self,
        answer: DivansOutputResult,
    ) -> bool where WorkerInterface: ThreadToMain<AllocU8> {
        if self.slice.unread().len() != 0 {
            &&& next == self
            &&& answer == DivansOutputResult::Success
        } else if answer != DivansOutputResult::Success {
            self.spent_offered::<AllocU8>(next, answer)
        } else {
            exists|offered: Self|
                {
                    &&& #[trigger] self.spent_offered::<AllocU8>(
                        offered,
                        DivansOutputResult::Success,
                    )
                    &&& offered.asked::<AllocU8>(next)
                }
        }
    }
}

/// A worker as an input stream: stream 0 holds the bytes that the worker is given, and
/// the other one nothing.
pub struct ThreadToMainDemuxer<AllocU8: Allocator, WorkerInterface: ThreadToMain<AllocU8>> {
    worker: WorkerInterface,
    slice: AllocatedMemoryRange,
    unused: NopUsize,
    eof: bool,
    alloc: PhantomData<AllocU8>,
}

impl<AllocU8: Allocator, WorkerInterface: ThreadToMain<AllocU8>> View for ThreadToMainDemuxer<
    AllocU8,
    WorkerInterface,
> {
    type V = Demuxing<WorkerInterface>;

    closed spec fn view(&self) -> Demuxing<WorkerInterface> {
        Demuxing {
            worker: self.worker,
            slice: self.slice,
            unused: self.unused,
            eof: self.eof,
        }
    }
}

impl<
    AllocU8: Allocator,
    WorkerInterface: ThreadToMain<AllocU8>,
> WellFormed for ThreadToMainDemuxer<AllocU8, WorkerInterface> {
    /// The worker can be used.
    open spec fn wf(&self) -> bool {
        self@.worker.wf()
    }
}

impl<
    AllocU8: Allocator,
    WorkerInterface: ThreadToMain<AllocU8> + Default,
> Default for ThreadToMainDemuxer<AllocU8, WorkerInterface> {
    /// A stream over the default worker.
    fn default() -> (demuxer: Self)
        ensures
            call_ensures(WorkerInterface::default, (), demuxer@.worker),
            demuxer@.slice.is_vacant(),
            demuxer@.unused == 0,
            !demuxer@.eof,
    {
        Self::new(WorkerInterface::default())
    }
}

impl<AllocU8: Allocator, WorkerInterface: ThreadToMain<AllocU8>> ThreadToMainDemuxer<
    AllocU8,
    WorkerInterface,
> {
    /// A stream over `w`, of which nothing has been read.
    pub fn new(w: WorkerInterface) -> (demuxer: Self)
        ensures
            demuxer@.worker == w,
            demuxer@.slice.is_vacant(),
            demuxer@.unused == 0,
            !demuxer@.eof,
    {
        Self {
            worker: w,
            slice: AllocatedMemoryRange::default(),
            unused: NopUsize::default(),
            eof: false,
            alloc: PhantomData,
        }
    }

    /// Offers the buffer to the worker if every byte of it has been read.
    pub fn send_any_empty_data_buffer_to_main(&mut self) -> (answer: DivansOutputResult)
        requires
            old(self).wf(),
            old(self)@.slice.wf(),
        ensures
            final(self).wf(),
            final(self)@.slice.wf(),
            old(self)@.spent_offered::<AllocU8>(final(self)@, answer),
    {
        if self.slice.slice().len() == 0 && self.slice.0.len() != 0 {
            return self.worker.push_consumed_data(&mut self.slice, None);
        }
        DivansOutputResult::Success
    }

    /// Gets bytes from the worker if none are at hand.
    pub fn pull_if_necessary(&mut self) -> (answer: DivansOutputResult)
        requires
            old(self).wf(),
            old(self)@.slice.wf(),
        ensures
            final(self).wf(),
            final(self)@.slice.wf(),
            old(self)@.refilled::<AllocU8>(final(self)@, answer),
    {
        if self.slice.slice().len() == 0 {
            let sent = self.send_any_empty_data_buffer_to_main();
            match sent {
                DivansOutputResult::Success => {},
                need_something => return need_something,
            }
            let ghost offered = self@;
            let data = self.worker.pull_data();
            let ghost pulled = data;
            match data {
                ThreadData::Eof => {
                    self.eof = true;
                },
                ThreadData::Data(array) => {
                    self.slice = array;
                },
                ThreadData::Yield => {},
            }
            assert(self@ == offered.with_pulled(self@.worker, pulled));
            assert(offered.asked::<AllocU8>(self@));
        }
        DivansOutputResult::Success
    }
}

impl<
    AllocU8: Allocator,
    WorkerInterface: ThreadToMain<AllocU8> + MainToThread,
> ThreadToMainDemuxer<AllocU8, WorkerInterface> {
    /// The worker, for the main thread to use.
    pub fn get_main_to_thread(&mut self) -> (worker: &mut WorkerInterface)
        ensures
            *worker == old(self)@.worker,
            final(self)@ == (Demuxing { worker: *final(worker), ..old(self)@ }),
    {
        &mut self.worker
    }
}

/// A recoder that writes nothing.
pub struct NopEncoderOrDecoderRecoderSpecialization {}

impl EncoderOrDecoderRecoderSpecialization for NopEncoderOrDecoderRecoderSpecialization {
    open spec fn model(&self) -> SpecializationModel {
        SpecializationModel { code: 0 }
    }

    /// A buffer without room.
    fn get_recoder_output<'a>(
        &'a mut self,
        _passed_in_output_bytes: &'a mut [u8],
    ) -> (output: &'a mut [u8])
        ensures
            output@ == Seq::<u8>::empty(),
            final(_passed_in_output_bytes)@ == old(_passed_in_output_bytes)@,
    {
        &mut []
    }

    /// The spare position; the one passed in stays as it is.
    fn get_recoder_output_offset<'a>(
        &self,
        _passed_in_output_bytes: &'a mut usize,
        backing: &'a mut usize,
    ) -> (offset: &'a mut usize)
        ensures
            *offset == *old(backing),
            *final(backing) == *final(offset),
            *final(_passed_in_output_bytes) == *old(_passed_in_output_bytes),
    {
        backing
    }
}

impl<
    AllocU8: Allocator,
    WorkerInterface: ThreadToMain<AllocU8>,
> StreamDemuxer<AllocU8> for ThreadToMainDemuxer<AllocU8, WorkerInterface> {
    open spec fn serves(stream_id: StreamID) -> bool {
        stream_id == 0
    }

    open spec fn in_range(&self) -> bool {
        self@.slice.wf()
    }

    open spec fn end_on_record(&self) -> bool {
        self@.eof
    }

    open spec fn unread(&self, stream_id: StreamID) -> Seq<u8> {
        if stream_id == 0 {
            self@.slice.unread()
        } else {
            Seq::empty()
        }
    }

    /// Refills the buffer if need be, and lends it up to the end of its range with the
    /// start of the range as the read position. The other stream has no bytes.
    fn read_buffer(&mut self) -> (buffers: [ReadableBytes<'_>; NUM_STREAMS])
        ensures
            exists|refilled: Demuxing<WorkerInterface>, answer: DivansOutputResult|
                {
                    &&& #[trigger] old(self)@.refilled::<AllocU8>(refilled, answer)
                    &&& refilled.worker.wf()
                    &&& refilled.slice.wf()
                    &&& buffers@[0].data@ == refilled.slice.0@.take(refilled.slice.1.end as int)
                    &&& *buffers@[0].read_offset == refilled.slice.1.start
                    &&& buffers@[1].data@ == Seq::<u8>::empty()
                    &&& *buffers@[1].read_offset == refilled.unused
                    &&& final(self)@ == (Demuxing {
                        slice: AllocatedMemoryRange(
                            refilled.slice.0,
                            Range {
                                start: *final(buffers@[0].read_offset),
                                end: refilled.slice.1.end,
                            },
                        ),
                        unused: *final(buffers@[1].read_offset),
                        ..refilled
                    })
                },
            *final(buffers@[0].read_offset) <= buffers@[0].data@.len() ==> final(self).in_range(),
    {
        let answer = self.pull_if_necessary();
        let ghost refilled = self@;
        assert(old(self)@.refilled::<AllocU8>(refilled, answer));
        let data = self.slice.0.as_slice().split_at(self.slice.1.end).0;
        [
            ReadableBytes { data: data, read_offset: &mut self.slice.1.start },
            ReadableBytes { data: &[], read_offset: &mut self.unused },
        ]
    }

    /// Only stream 0 ever has bytes.
    fn data_ready(&self, stream_id: StreamID) -> (count: usize) {
        if stream_id != 0 {
            return 0;
        }
        self.slice.slice().len()
    }

    fn peek(&self, stream_id: StreamID) -> (bytes: &[u8]) {
        self.slice.slice()
    }

    /// Refills the buffer if need be, and lends it with its range.
    fn edit(&mut self, stream_id: StreamID) -> (range: &mut AllocatedMemoryRange)
        ensures
            exists|refilled: Demuxing<WorkerInterface>, answer: DivansOutputResult|
                {
                    &&& #[trigger] old(self)@.refilled::<AllocU8>(refilled, answer)
                    &&& refilled.worker.wf()
                    &&& *range == refilled.slice
                    &&& final(self)@ == (Demuxing { slice: *final(range), ..refilled })
                },
            range.wf(),
            final(range).wf() ==> final(self).in_range(),
    {
        let answer = self.pull_if_necessary();
        assert(old(self)@.refilled::<AllocU8>(self@, answer));
        &mut self.slice
    }

    /// Moves the start of the range on, and offers the buffer to the worker if that was
    /// the last of it.
    fn consume(&mut self, stream_id: StreamID, count: usize)
        ensures
            exists|answer: DivansOutputResult| #[trigger]
                old(self)@.advanced(count as int).spent_offered::<AllocU8>(final(self)@, answer),
    {
        self.slice.1.start += count;
        assert(self@ == old(self)@.advanced(count as int));
        self.send_any_empty_data_buffer_to_main();
    }

    /// The worker has said that no more bytes will come, and those that came are read.
    fn consumed_all_streams_until_eof(&self) -> (done: bool)
        ensures
            done <==> self@.eof && self@.slice.unread().len() == 0,
    {
        self.eof && self.slice.slice().len() == 0
    }

    /// The worker has said that no more bytes will come, and those that came are read.
    fn encountered_eof(&self) -> (done: bool)
        ensures
            done <==> self@.eof && self@.slice.unread().len() == 0,
    {
        self.eof && self.slice.slice().len() == 0
    }

    /// Offers the buffer to the worker, read or not, if there is memory to it. The allocator
    /// is not needed for that.
    fn free_demux(&mut self, _m8: &mut AllocU8)
        ensures
            *final(_m8) == *old(_m8),
            if old(self)@.slice.0@.len() != 0 {
                exists|answer: DivansOutputResult| #[trigger]
                    old(self)@.offered::<AllocU8>(final(self)@, answer)
            } else {
                final(self)@ == old(self)@
            },
    {
        if self.slice.0.len() != 0 {
            let answer = self.worker.push_consumed_data(&mut self.slice, None);
            assert(old(self)@.offered::<AllocU8>(self@, answer));
        }
    }
}

impl<
    AllocU8: Allocator,
    WorkerInterface: ThreadToMain<AllocU8>,
> ThreadToMain<AllocU8> for ThreadToMainDemuxer<AllocU8, WorkerInterface> {
    const COOPERATIVE: bool = WorkerInterface::COOPERATIVE;

    const ISOLATED: bool = WorkerInterface::ISOLATED;

    open spec fn data_pulled(pre: Self, post: Self, answer: ThreadData) -> bool {
        &&& WorkerInterface::data_pulled(pre@.worker, post@.worker, answer)
        &&& post@ == (Demuxing { worker: post@.worker, ..pre@ })
    }

    open spec fn context_map_pulled(
        pre: Self,
        m8: Option<AllocU8::RepurposingAlloc>,
        post: Self,
        m8_left: Option<AllocU8::RepurposingAlloc>,
        answer: Result<PredictionModeContextMap<AllocatedMemoryPrefix>, ()>,
    ) -> bool {
        &&& WorkerInterface::context_map_pulled(pre@.worker, m8, post@.worker, m8_left, answer)
        &&& post@ == (Demuxing { worker: post@.worker, ..pre@ })
    }

    open spec fn cmd_pushed(
        pre: Self,
        lent: CommandLoan<AllocU8>,
        post: Self,
        left: CommandLoan<AllocU8>,
        specialization_kept: bool,
        answer: DivansOutputResult,
    ) -> bool {
        &&& WorkerInterface::cmd_pushed(
            pre@.worker,
            lent,
            post@.worker,
            left,
            specialization_kept,
            answer,
        )
        &&& post@ == (Demuxing { worker: post@.worker, ..pre@ })
    }

    open spec fn consumed_data_pushed(
        pre: Self,
        data: AllocatedMemoryRange,
        m8: Option<AllocU8::RepurposingAlloc>,
        post: Self,
        left: AllocatedMemoryRange,
        m8_left: Option<AllocU8::RepurposingAlloc>,
        answer: DivansOutputResult,
    ) -> bool {
        &&& WorkerInterface::consumed_data_pushed(
            pre@.worker,
            data,
            m8,
            post@.worker,
            left,
            m8_left,
            answer,
        )
        &&& post@ == (Demuxing { worker: post@.worker, ..pre@ })
    }

    open spec fn eof_pushed(pre: Self, post: Self, answer: DivansOutputResult) -> bool {
        &&& WorkerInterface::eof_pushed(pre@.worker, post@.worker, answer)
        &&& post@ == (Demuxing { worker: post@.worker, ..pre@ })
    }

    fn pull_data(&mut self) -> (answer: ThreadData) {
        self.worker.pull_data()
    }

    fn pull_context_map(
        &mut self,
        m8: Option<&mut AllocU8::RepurposingAlloc>,
    ) -> (answer: Result<PredictionModeContextMap<AllocatedMemoryPrefix>, ()>) {
        self.worker.pull_context_map(m8)
    }

    fn push_cmd<Specialization: EncoderOrDecoderRecoderSpecialization>(
        &mut self,
        cmd: &mut Command<AllocatedMemoryPrefix>,
        m8: Option<&mut AllocU8::RepurposingAlloc>,
        recoder: Option<&mut AllocU8::RecodeState>,
        specialization: &mut Specialization,
        output: &mut [u8],
        output_offset: &mut usize,
    ) -> (answer: DivansOutputResult) {
        self.worker.push_cmd(cmd, m8, recoder, specialization, output, output_offset)
    }

    fn push_consumed_data(
        &mut self,
        data: &mut AllocatedMemoryRange,
        m8: Option<&mut AllocU8::RepurposingAlloc>,
    ) -> (answer: DivansOutputResult) {
        self.worker.push_consumed_data(data, m8)
    }

    fn push_eof(&mut self) -> (answer: DivansOutputResult) {
        self.worker.push_eof()
    }
}

impl<
    AllocU8: Allocator,
    WorkerInterface: ThreadToMain<AllocU8> + MainToThread,
> MainToThread for ThreadToMainDemuxer<AllocU8, WorkerInterface> {
    const COOPERATIVE_MAIN: bool = WorkerInterface::COOPERATIVE_MAIN;

    open spec fn refuses_unseen(&self) -> bool {
        self@.worker.refuses_unseen()
    }

    open spec fn context_map_pushed(
        pre: Self,
        cm: PredictionModeContextMap<AllocatedMemoryPrefix>,
        post: Self,
        answer: Result<(), ()>,
    ) -> bool {
        &&& WorkerInterface::context_map_pushed(pre@.worker, cm, post@.worker, answer)
        &&& post@ == (Demuxing { worker: post@.worker, ..pre@ })
    }

    open spec fn data_pushed(
        pre: Self,
        data: AllocatedMemoryRange,
        post: Self,
        left: AllocatedMemoryRange,
        answer: Result<(), ()>,
    ) -> bool {
        &&& WorkerInterface::data_pushed(pre@.worker, data, post@.worker, left, answer)
        &&& post@ == (Demuxing { worker: post@.worker, ..pre@ })
    }

    open spec fn pulled(
        pre: Self,
        cmd: Command<AllocatedMemoryPrefix>,
        consumed: AllocatedMemoryRange,
        post: Self,
        cmd_left: Command<AllocatedMemoryPrefix>,
        consumed_left: AllocatedMemoryRange,
        answer: CommandResult,
    ) -> bool {
        &&& WorkerInterface::pulled(
            pre@.worker,
            cmd,
            consumed,
            post@.worker,
            cmd_left,
            consumed_left,
            answer,
        )
        &&& post@ == (Demuxing { worker: post@.worker, ..pre@ })
    }

    fn push_context_map(
        &mut self,
        cm: PredictionModeContextMap<AllocatedMemoryPrefix>,
    ) -> (answer: Result<(), ()>) {
        self.worker.push_context_map(cm)
    }

    fn push(&mut self, data: &mut AllocatedMemoryRange) -> (answer: Result<(), ()>) {
        self.worker.push(data)
    }

    fn pull(
        &mut self,
        cmd: &mut Command<AllocatedMemoryPrefix>,
        consumed: &mut AllocatedMemoryRange,
    ) -> (answer: CommandResult) {
        self.worker.pull(cmd, consumed)
    }
}

/// A demuxer takes turns and shares as its worker does.
pub proof fn law_demuxer_cooperates_as_its_worker<
    AllocU8: Allocator,
    WorkerInterface: ThreadToMain<AllocU8> + MainToThread,
>()
    ensures
        ThreadToMainDemuxer::<AllocU8, WorkerInterface>::COOPERATIVE
            == WorkerInterface::COOPERATIVE,
        ThreadToMainDemuxer::<AllocU8, WorkerInterface>::ISOLATED == WorkerInterface::ISOLATED,
        ThreadToMainDemuxer::<AllocU8, WorkerInterface>::COOPERATIVE_MAIN
            == WorkerInterface::COOPERATIVE_MAIN,
{
}

} // verus!
