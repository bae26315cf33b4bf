//! What a codec and the threads around it agree on: results, commands, and the
//! interface through which a codec reads its input streams.
use crate::memory::AllocatedMemoryRange;
use vstd::prelude::*;

verus! {

/// Values that can be in an unusable state, and the predicate that rules it out.
pub trait WellFormed {
    spec fn wf(&self) -> bool;
}

/// The allocator of a codec, known here only by the types of the helpers built on it
/// that travel through a worker.
pub trait Allocator: Sized {
    /// The allocator that reuses freed buffers.
    type RepurposingAlloc;

    /// The state of the recoder that turns commands back into bytes.
    type RecodeState;
}

/// How an attempt to hand something on went.
#[derive(Debug, Clone, Copy, PartialEq, Eq, Structural)]
pub enum DivansOutputResult {
    /// It was taken.
    Success,
    /// There is no room until earlier output has been collected.
    NeedsMoreOutput,
}

/// The context maps that set up the prediction of literals and distances.
#[derive(Debug, PartialEq, Eq)]
pub struct PredictionModeContextMap<SliceType> {
    pub literal_context_map: SliceType,
    pub predmode_speed_and_distance_context_map: SliceType,
}

/// Copy `num_bytes` from `distance` bytes back.
#[derive(Debug, Clone, Copy, PartialEq, Eq)]
pub struct CopyCommand {
    pub distance: u32,
    pub num_bytes: u32,
}

/// Write a transformed word of the dictionary.
#[derive(Debug, Clone, Copy, PartialEq, Eq)]
pub struct DictCommand {
    pub word_size: u8,
    pub transform: u8,
    pub final_size: u8,
    pub word_id: u32,
}

/// Write bytes as they are.
#[derive(Debug, PartialEq, Eq)]
pub struct LiteralCommand<SliceType> {
    pub data: SliceType,
}

/// Switch to another block type.
#[derive(Debug, Clone, Copy, PartialEq, Eq)]
pub struct BlockSwitch(pub u8);

/// Switch to another block type of literals, with the stride to predict them by.
#[derive(Debug, Clone, Copy, PartialEq, Eq)]
pub struct LiteralBlockSwitch(pub BlockSwitch, pub u8);

/// One step of a decoded stream.
#[derive(Debug, PartialEq, Eq)]
pub enum Command<SliceType> {
    Copy(CopyCommand),
    Dict(DictCommand),
    Literal(LiteralCommand<SliceType>),
    BlockSwitchCommand(BlockSwitch),
    BlockSwitchLiteral(LiteralBlockSwitch),
    BlockSwitchDistance(BlockSwitch),
    PredictionMode(PredictionModeContextMap<SliceType>),
}

impl<SliceType> Command<SliceType> {
    /// The command without effect: a copy of no bytes.
    pub open spec fn spec_nop() -> Self {
        Command::Copy(CopyCommand { distance: 1, num_bytes: 0 })
    }

    /// The command without effect: a copy of no bytes.
    pub fn nop() -> (command: Self)
        ensures
            command == Self::spec_nop(),
    {
        Command::Copy(CopyCommand { distance: 1, num_bytes: 0 })
    }
}

/// What stands for a specialization of the recoder in contracts that hold for every type of
/// them. Specializations that contracts are to tell apart have different codes.
pub ghost struct SpecializationModel {
    pub code: int,
}

/// Where a recoder writes the bytes of the commands that pass it.
pub trait EncoderOrDecoderRecoderSpecialization {
    /// What stands for this specialization in contracts.
    spec fn model(&self) -> SpecializationModel;

    /// The buffer to write to, given the one that the caller passed in.
    fn get_recoder_output<'a>(
        &'a mut self,
        passed_in_output_bytes: &'a mut [u8],
    ) -> &'a mut [u8];

    /// The write position, given the one that the caller passed in and a spare one.
    fn get_recoder_output_offset<'a>(
        &self,
        passed_in_output_bytes: &'a mut usize,
        backing: &'a mut usize,
    ) -> &'a mut usize;
}

/// The number of one of the streams that a codec reads.
pub type StreamID = u8;

/// How many streams a codec reads.
pub const NUM_STREAMS: usize = 2;

/// The bytes at hand of a stream, and the position up to which they have been read.
pub struct ReadableBytes<'a> {
    pub data: &'a [u8],
    pub read_offset: &'a mut usize,
}

/// The input streams of a codec.
pub trait StreamDemuxer<AllocU8: Allocator>: WellFormed {
    /// Whether `stream_id` may be looked into, edited and consumed.
    spec fn serves(stream_id: StreamID) -> bool;

    /// Whether what is marked as unread lies within the bytes at hand. Whoever was lent
    /// a read position or a buffer may have left it otherwise.
    spec fn in_range(&self) -> bool;

    /// Whether the end of the streams is on record.
    spec fn end_on_record(&self) -> bool;

    /// The bytes at hand of a stream that have not been read.
    spec fn unread(&self, stream_id: StreamID) -> Seq<u8>;

    /// Fetches bytes if none are at hand, and lends the buffer of each stream.
    fn read_buffer(&mut self) -> (buffers: [ReadableBytes<'_>; NUM_STREAMS])
        requires
            old(self).wf(),
            old(self).in_range(),
        ensures
            final(self).wf(),
    ;

    /// How many unread bytes of a stream are at hand.
    fn data_ready(&self, stream_id: StreamID) -> (count: usize)
        requires
            Self::serves(stream_id) ==> self.in_range(),
        ensures
            count == self.unread(stream_id).len(),
    ;

    /// The unread bytes of a stream that are at hand.
    fn peek(&self, stream_id: StreamID) -> (bytes: &[u8])
        requires
            Self::serves(stream_id),
            self.in_range(),
        ensures
            bytes@ == self.unread(stream_id),
    ;

    /// Fetches bytes if none are at hand, and lends the buffer of a stream for change.
    fn edit(&mut self, stream_id: StreamID) -> (range: &mut AllocatedMemoryRange)
        requires
            old(self).wf(),
            old(self).in_range(),
            Self::serves(stream_id),
        ensures
            final(self).wf(),
    ;

    /// Counts the first `count` unread bytes of a stream as read.
    fn consume(&mut self, stream_id: StreamID, count: usize)
        requires
            old(self).wf(),
            old(self).in_range(),
            Self::serves(stream_id),
            count <= old(self).unread(stream_id).len(),
        ensures
            final(self).wf(),
            final(self).in_range(),
    ;

    /// Whether the streams have ended and every byte of them has been read.
    fn consumed_all_streams_until_eof(&self) -> bool
        requires
            self.end_on_record() ==> self.in_range(),
    ;

    /// Whether the end of the streams has been reached.
    fn encountered_eof(&self) -> bool
        requires
            self.end_on_record() ==> self.in_range(),
    ;

    /// Lets go of the memory held.
    fn free_demux(&mut self, m8: &mut AllocU8)
        requires
            old(self).wf(),
        ensures
            final(self).wf(),
            old(self).in_range() ==> final(self).in_range(),
    ;
}

} // verus!
