//! The two sides of a worker: what the main thread asks of it, and what the
//! thread that does the work asks of it.
//!
//! Each trait describes its calls by relations between the worker before and after
//! a call, the values lent to it before and after, and the answer. An implementation
//! says what the relations are; code that is generic over workers is stated in terms
//! of them. Relations rather than functions, since another thread may act on
//! a worker between two calls.
use crate::interface::{
    Allocator, Command, DivansOutputResult, EncoderOrDecoderRecoderSpecialization,
    PredictionModeContextMap, SpecializationModel, WellFormed,
};
use crate::memory::{AllocatedMemoryPrefix, AllocatedMemoryRange};
use vstd::prelude::*;

verus! {

/// What a worker gets when it asks for input.
#[derive(Debug, PartialEq, Eq)]
pub enum ThreadData {
    /// A buffer of input.
    Data(AllocatedMemoryRange),
    /// None at present.
    Yield,
    /// None any more.
    Eof,
}

impl Default for ThreadData {
    /// A buffer of nothing.
    fn default() -> (data: Self)
        ensures
            data matches ThreadData::Data(range) && range.is_vacant(),
    {
        ThreadData::Data(AllocatedMemoryRange::default())
    }
}

/// The pair of context maps that are each the default of their type.
pub fn empty_prediction_mode_context_map<ISl: Default>() -> (map: PredictionModeContextMap<ISl>)
    ensures
        call_ensures(ISl::default, (), map.literal_context_map),
        call_ensures(ISl::default, (), map.predmode_speed_and_distance_context_map),
{
    PredictionModeContextMap::<ISl> {
        literal_context_map: ISl::default(),
        predmode_speed_and_distance_context_map: ISl::default(),
    }
}

/// What the main thread gets when it asks a worker for output.
#[derive(Debug, Clone, Copy, PartialEq, Eq, Structural)]
pub enum CommandResult {
    /// A command.
    Cmd,
    /// Nothing, now and later.
    Eof,
    /// A buffer that the worker is done with.
    ProcessedData,
    /// Nothing at present.
    Yield,
}

/// The main thread's side of a worker.
pub trait MainToThread: WellFormed + Sized {
    /// Whether the main thread takes turns with the worker, and so may be told to yield.
    const COOPERATIVE_MAIN: bool;

    /// Whether `push` refuses any range at present, without looking into it.
    spec fn refuses_unseen(&self) -> bool;

    /// What a call of `push_context_map` may do.
    spec fn context_map_pushed(
        pre: Self,
        cm: PredictionModeContextMap<AllocatedMemoryPrefix>,
        post: Self,
        answer: Result<(), ()>,
    ) -> bool;

    /// What a call of `push` may do, with the caller's range before and after it.
    spec fn data_pushed(
        pre: Self,
        data: AllocatedMemoryRange,
        post: Self,
        left: AllocatedMemoryRange,
        answer: Result<(), ()>,
    ) -> bool;

    /// What a call of `pull` may do, with the caller's command and range before and after it.
    spec fn pulled(
        pre: Self,
        cmd: Command<AllocatedMemoryPrefix>,
        consumed: AllocatedMemoryRange,
        post: Self,
        cmd_left: Command<AllocatedMemoryPrefix>,
        consumed_left: AllocatedMemoryRange,
        answer: CommandResult,
    ) -> bool;

    /// Gives the worker context maps to work with.
    fn push_context_map(
        &mut self,
        cm: PredictionModeContextMap<AllocatedMemoryPrefix>,
    ) -> (answer: Result<(), ()>)
        requires
            old(self).wf(),
        ensures
            final(self).wf(),
            Self::context_map_pushed(*old(self), cm, *final(self), answer),
    ;

    /// Gives the worker a buffer of input.
    fn push(&mut self, data: &mut AllocatedMemoryRange) -> (answer: Result<(), ()>)
        requires
            old(self).wf(),
            old(data).wf() || old(self).refuses_unseen(),
        ensures
            final(self).wf(),
            old(data).wf() ==> final(data).wf(),
            Self::data_pushed(*old(self), *old(data), *final(self), *final(data), answer),
    ;

    /// Takes a command or a spent buffer from the worker.
    fn pull(
        &mut self,
        cmd: &mut Command<AllocatedMemoryPrefix>,
        consumed: &mut AllocatedMemoryRange,
    ) -> (answer: CommandResult)
        requires
            old(self).wf(),
        ensures
            final(self).wf(),
            Self::pulled(
                *old(self),
                *old(cmd),
                *old(consumed),
                *final(self),
                *final(cmd),
                *final(consumed),
                answer,
            ),
    ;
}

/// The values that a caller of [`ThreadToMain::push_cmd`] lends to it. Its specialization,
/// whose type each caller chooses, is known by its model.
pub ghost struct CommandLoan<AllocU8: Allocator> {
    pub cmd: Command<AllocatedMemoryPrefix>,
    pub m8: Option<AllocU8::RepurposingAlloc>,
    pub recoder: Option<AllocU8::RecodeState>,
    pub specialization: SpecializationModel,
    pub output: Seq<u8>,
    pub output_offset: usize,
}

/// The worker's own side, from which it takes input and to which it hands output.
pub trait ThreadToMain<AllocU8: Allocator>: WellFormed + Sized {
    /// Whether the thread takes turns with the main thread, and so may be told to yield.
    const COOPERATIVE: bool;

    /// Whether the thread shares nothing with the main thread but what the worker carries.
    const ISOLATED: bool;

    /// What a call of `pull_data` may do.
    spec fn data_pulled(pre: Self, post: Self, answer: ThreadData) -> bool;

    /// What a call of `pull_context_map` may do, with the lent allocator before and after it.
    spec fn context_map_pulled(
        pre: Self,
        m8: Option<AllocU8::RepurposingAlloc>,
        post: Self,
        m8_left: Option<AllocU8::RepurposingAlloc>,
        answer: Result<PredictionModeContextMap<AllocatedMemoryPrefix>, ()>,
    ) -> bool;

    /// What a call of `push_cmd` may do, with what the caller lent before and after it,
    /// and whether the specialization is the very same after it.
    spec fn cmd_pushed(
        pre: Self,
        lent: CommandLoan<AllocU8>,
        post: Self,
        left: CommandLoan<AllocU8>,
        specialization_kept: bool,
        answer: DivansOutputResult,
    ) -> bool;

    /// What a call of `push_consumed_data` may do, with the caller's range and the lent
    /// allocator before and after it.
    spec fn consumed_data_pushed(
        pre: Self,
        data: AllocatedMemoryRange,
        m8: Option<AllocU8::RepurposingAlloc>,
        post: Self,
        left: AllocatedMemoryRange,
        m8_left: Option<AllocU8::RepurposingAlloc>,
        answer: DivansOutputResult,
    ) -> bool;

    /// What a call of `push_eof` may do.
    spec fn eof_pushed(pre: Self, post: Self, answer: DivansOutputResult) -> bool;

    /// Takes a buffer of input.
    fn pull_data(&mut self) -> (answer: ThreadData)
        requires
            old(self).wf(),
        ensures
            final(self).wf(),
            answer matches ThreadData::Data(range) ==> range.wf(),
            Self::data_pulled(*old(self), *final(self), answer),
    ;

    /// Takes the context maps to work with.
    fn pull_context_map(
        &mut self,
        m8: Option<&mut AllocU8::RepurposingAlloc>,
    ) -> (answer: Result<PredictionModeContextMap<AllocatedMemoryPrefix>, ()>)
        requires
            old(self).wf(),
        ensures
            final(self).wf(),
            Self::context_map_pulled(
                *old(self),
                match m8 {
                    Some(alloc) => Some(*alloc),
                    None => None,
                },
                *final(self),
                match m8 {
                    Some(alloc) => Some(*final(alloc)),
                    None => None,
                },
                answer,
            ),
    ;

    /// Hands a command to the main thread.
    fn push_cmd<Specialization: EncoderOrDecoderRecoderSpecialization>(
        &mut self,
        cmd: &mut Command<AllocatedMemoryPrefix>,
        m8: Option<&mut AllocU8::RepurposingAlloc>,
        recoder: Option<&mut AllocU8::RecodeState>,
        specialization: &mut Specialization,
        output: &mut [u8],
        output_offset: &mut usize,
    ) -> (answer: DivansOutputResult)
        requires
            old(self).wf(),
        ensures
            final(self).wf(),
            Self::cmd_pushed(
                *old(self),
                (CommandLoan {
                    cmd: *old(cmd),
                    m8: match m8 {
                        Some(alloc) => Some(*alloc),
                        None => None,
                    },
                    recoder: match recoder {
                        Some(state) => Some(*state),
                        None => None,
                    },
                    specialization: old(specialization).model(),
                    output: old(output)@,
                    output_offset: *old(output_offset),
                }),
                *final(self),
                (CommandLoan {
                    cmd: *final(cmd),
                    m8: match m8 {
                        Some(alloc) => Some(*final(alloc)),
                        None => None,
                    },
                    recoder: match recoder {
                        Some(state) => Some(*final(state)),
                        None => None,
                    },
                    specialization: final(specialization).model(),
                    output: final(output)@,
                    output_offset: *final(output_offset),
                }),
                *final(specialization) == *old(specialization),
                answer,
            ),
    ;

    /// Hands a buffer that has been read back to the main thread.
    fn push_consumed_data(
        &mut self,
        data: &mut AllocatedMemoryRange,
        m8: Option<&mut AllocU8::RepurposingAlloc>,
    ) -> (answer: DivansOutputResult)
        requires
            old(self).wf(),
        ensures
            final(self).wf(),
            old(data).wf() ==> final(data).wf(),
            Self::consumed_data_pushed(
                *old(self),
                *old(data),
                match m8 {
                    Some(alloc) => Some(*alloc),
                    None => None,
                },
                *final(self),
                *final(data),
                match m8 {
                    Some(alloc) => Some(*final(alloc)),
                    None => None,
                },
                answer,
            ),
    ;

    /// Tells the main thread that nothing more will come.
    fn push_eof(&mut self) -> (answer: DivansOutputResult)
        requires
            old(self).wf(),
        ensures
            final(self).wf(),
            Self::eof_pushed(*old(self), *final(self), answer),
    ;
}

} // verus!
