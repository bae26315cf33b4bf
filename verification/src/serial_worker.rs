//! A worker for a main loop and a thread of work that take turns on one thread.
use crate::interface::{
    Allocator, Command, DivansOutputResult, EncoderOrDecoderRecoderSpecialization,
    PredictionModeContextMap, WellFormed,
};
use crate::memory::{replace, AllocatedMemoryPrefix, AllocatedMemoryRange};
use crate::threading::{
    empty_prediction_mode_context_map, CommandLoan, CommandResult, MainToThread, ThreadData,
    ThreadToMain,
};
use core::marker::PhantomData;
use vstd::prelude::*;

verus! {

/// How many items each queue of a [`SerialWorker`] has room for.
pub const SLOTS: usize = 2;

/// What is under way in a [`SerialWorker`], oldest items first.
#[verifier::ext_equal]
pub ghost struct Mailbox {
    /// Input that the worker has not taken yet.
    pub data: Seq<AllocatedMemoryRange>,
    /// Context maps that the worker has not taken yet.
    pub context_maps: Seq<PredictionModeContextMap<AllocatedMemoryPrefix>>,
    /// Commands that the main thread has not taken yet.
    pub commands: Seq<Command<AllocatedMemoryPrefix>>,
    /// Spent buffers that the main thread has not taken back yet.
    pub consumed: Seq<AllocatedMemoryRange>,
    /// The worker has announced that it is done.
    pub eof: bool,
}

impl Mailbox {
    /// Nothing is under way.
    pub open spec fn empty() -> Self {
        Mailbox {
            data: Seq::empty(),
            context_maps: Seq::empty(),
            commands: Seq::empty(),
            consumed: Seq::empty(),
            eof: false,
        }
    }

    /// No queue is over its capacity, and every input is a range with bytes in it.
    pub open spec fn wf(self) -> bool {
        &&& self.data.len() <= SLOTS
        &&& self.context_maps.len() <= SLOTS
        &&& self.commands.len() <= SLOTS
        &&& self.consumed.len() <= SLOTS
        &&& forall|i: int|
            0 <= i < self.data.len() ==> (#[trigger] self.data[i]).wf() && self.data[i].unread().len()
                > 0
    }

    /// Context maps are put on top of those that wait, unless there is no room.
    pub open spec fn context_map_pushed(
        self,
        cm: PredictionModeContextMap<AllocatedMemoryPrefix>,
        next: Self,
        answer: Result<(), ()>,
    ) -> bool {
        if self.context_maps.len() == SLOTS {
            &&& answer == Err::<(), ()>(())
            &&& next == self
        } else {
            &&& answer == Ok::<(), ()>(())
            &&& next == (Mailbox { context_maps: self.context_maps.push(cm), ..self })
        }
    }

    /// A range of input is moved to the end of the queue and leaves a vacant one behind,
    /// unless there is no room or nothing in the range.
    pub open spec fn data_pushed(
        self,
        data: AllocatedMemoryRange,
        next: Self,
        left: AllocatedMemoryRange,
        answer: Result<(), ()>,
    ) -> bool {
        if self.data.len() == SLOTS || data.unread().len() == 0 {
            &&& answer == Err::<(), ()>(())
            &&& next == self
            &&& left == data
        } else {
            &&& answer == Ok::<(), ()>(())
            &&& next == (Mailbox { data: self.data.push(data), ..self })
            &&& left.is_vacant()
        }
    }

    /// The oldest spent buffer is handed out; if there is none the oldest command; if there
    /// is none of either, the answer says whether any will follow. What is not handed out
    /// leaves the caller's value alone.
    pub open spec fn pulled(
        self,
        cmd: Command<AllocatedMemoryPrefix>,
        consumed: AllocatedMemoryRange,
        next: Self,
        cmd_left: Command<AllocatedMemoryPrefix>,
        consumed_left: AllocatedMemoryRange,
        answer: CommandResult,
    ) -> bool {
        if self.consumed.len() > 0 {
            &&& answer == CommandResult::ProcessedData
            &&& next == (Mailbox { consumed: self.consumed.drop_first(), ..self })
            &&& cmd_left == cmd
            &&& consumed_left == self.consumed.first()
        } else if self.commands.len() > 0 {
            &&& answer == CommandResult::Cmd
            &&& next == (Mailbox { commands: self.commands.drop_first(), ..self })
            &&& cmd_left == self.commands.first()
            &&& consumed_left == consumed
        } else {
            &&& answer == if self.eof {
                CommandResult::Eof
            } else {
                CommandResult::Yield
            }
            &&& next == self
            &&& cmd_left == cmd
            &&& consumed_left == consumed
        }
    }

    /// The oldest input is handed out, if there is any.
    pub open spec fn data_pulled(self, next: Self, answer: ThreadData) -> bool {
        if self.data.len() == 0 {
            &&& answer == ThreadData::Yield
            &&& next == self
        } else {
            &&& answer == ThreadData::Data(self.data.first())
            &&& next == (Mailbox { data: self.data.drop_first(), ..self })
        }
    }

    /// The context maps that came last are handed out, if there are any.
    pub open spec fn context_map_pulled(
        self,
        next: Self,
        answer: Result<PredictionModeContextMap<AllocatedMemoryPrefix>, ()>,
    ) -> bool {
        if self.context_maps.len() == 0 {
            &&& answer == Err::<PredictionModeContextMap<AllocatedMemoryPrefix>, ()>(())
            &&& next == self
        } else {
            &&& answer == Ok::<PredictionModeContextMap<AllocatedMemoryPrefix>, ()>(
                self.context_maps.last(),
            )
            &&& next == (Mailbox { context_maps: self.context_maps.drop_last(), ..self })
        }
    }

    /// A command is moved to the end of the queue and leaves one without effect behind,
    /// unless there is no room.
    pub open spec fn cmd_pushed(
        self,
        cmd: Command<AllocatedMemoryPrefix>,
        next: Self,
        left: Command<AllocatedMemoryPrefix>,
        answer: DivansOutputResult,
    ) -> bool {
        if self.commands.len() == SLOTS {
            &&& answer == DivansOutputResult::NeedsMoreOutput
            &&& next == self
            &&& left == cmd
        } else {
            &&& answer == DivansOutputResult::Success
            &&& next == (Mailbox { commands: self.commands.push(cmd), ..self })
            &&& left == Command::<AllocatedMemoryPrefix>::spec_nop()
        }
    }

    /// A buffer is moved to the end of the queue and leaves a vacant one behind, unless
    /// there is no room.
    pub open spec fn consumed_data_pushed(
        self,
        data: AllocatedMemoryRange,
        next: Self,
        left: AllocatedMemoryRange,
        answer: DivansOutputResult,
    ) -> bool {
        if self.consumed.len() == SLOTS {
            &&& answer == DivansOutputResult::NeedsMoreOutput
            &&& next == self
            &&& left == data
        } else {
            &&& answer == DivansOutputResult::Success
            &&& next == (Mailbox { consumed: self.consumed.push(data), ..self })
            &&& left.is_vacant()
        }
    }

    /// The end is on record.
    pub open spec fn eof_pushed(self, next: Self, answer: DivansOutputResult) -> bool {
        &&& answer == DivansOutputResult::Success
        &&& next == (Mailbox { eof: true, ..self })
    }
}

/// Both sides of a worker in one value, with room for two items each way.
pub struct SerialWorker<AllocU8: Allocator> {
    data_len: usize,
    data: [ThreadData; SLOTS],
    cm_len: usize,
    cm: [PredictionModeContextMap<AllocatedMemoryPrefix>; SLOTS],
    cmd_result_len: usize,
    cmd_result: [Command<AllocatedMemoryPrefix>; SLOTS],
    consumed_data_len: usize,
    consumed_data: [AllocatedMemoryRange; SLOTS],
    eof_to_main: bool,
    alloc: PhantomData<AllocU8>,
}

impl<AllocU8: Allocator> View for SerialWorker<AllocU8> {
    type V = Mailbox;

    closed spec fn view(&self) -> Mailbox {
        Mailbox {
            data: Seq::new(self.data_len as nat, |i: int| self.data@[i]->Data_0),
            context_maps: self.cm@.take(self.cm_len as int),
            commands: self.cmd_result@.take(self.cmd_result_len as int),
            consumed: self.consumed_data@.take(self.consumed_data_len as int),
            eof: self.eof_to_main,
        }
    }
}

impl<AllocU8: Allocator> WellFormed for SerialWorker<AllocU8> {
    closed spec fn wf(&self) -> bool {
        &&& self.data_len <= SLOTS
        &&& self.cm_len <= SLOTS
        &&& self.cmd_result_len <= SLOTS
        &&& self.consumed_data_len <= SLOTS
        &&& forall|i: int| 0 <= i < self.data_len ==> self.data@[i] is Data
        &&& self@.wf()
    }
}

impl<AllocU8: Allocator> SerialWorker<AllocU8> {
    /// A usable worker has a mailbox within its bounds: at most two items in each queue, and
    /// no input without bytes.
    pub proof fn law_mailbox_is_bounded(&self)
        requires
            self.wf(),
        ensures
            self@.wf(),
    {
    }
}

impl<AllocU8: Allocator> Default for SerialWorker<AllocU8> {
    /// A worker with nothing under way.
    fn default() -> (worker: Self)
        ensures
            worker.wf(),
            worker@ == Mailbox::empty(),
    {
        SerialWorker::<AllocU8> {
            data_len: 0,
            data: [ThreadData::default(), ThreadData::default()],
            cm_len: 0,
            cm: [
                empty_prediction_mode_context_map::<AllocatedMemoryPrefix>(),
                empty_prediction_mode_context_map::<AllocatedMemoryPrefix>(),
            ],
            cmd_result_len: 0,
            cmd_result: [Command::nop(), Command::nop()],
            consumed_data_len: 0,
            consumed_data: [AllocatedMemoryRange::default(), AllocatedMemoryRange::default()],
            eof_to_main: false,
            alloc: PhantomData,
        }
    }
}

impl<AllocU8: Allocator> MainToThread for SerialWorker<AllocU8> {
    const COOPERATIVE_MAIN: bool = true;

    open spec fn refuses_unseen(&self) -> bool {
        self@.data.len() == SLOTS
    }

    open spec fn context_map_pushed(
        pre: Self,
        cm: PredictionModeContextMap<AllocatedMemoryPrefix>,
        post: Self,
        answer: Result<(), ()>,
    ) -> bool {
        pre@.context_map_pushed(cm, post@, answer)
    }

    open spec fn data_pushed(
        pre: Self,
        data: AllocatedMemoryRange,
        post: Self,
        left: AllocatedMemoryRange,
        answer: Result<(), ()>,
    ) -> bool {
        pre@.data_pushed(data, post@, left, answer)
    }

    open spec fn pulled(
        pre: Self,
        cmd: Command<AllocatedMemoryPrefix>,
        consumed: AllocatedMemoryRange,
        post: Self,
        cmd_left: Command<AllocatedMemoryPrefix>,
        consumed_left: AllocatedMemoryRange,
        answer: CommandResult,
    ) -> bool {
        pre@.pulled(cmd, consumed, post@, cmd_left, consumed_left, answer)
    }

    fn push_context_map(
        &mut self,
        cm: PredictionModeContextMap<AllocatedMemoryPrefix>,
    ) -> (answer: Result<(), ()>) {
        if self.cm_len == self.cm.len() {
            return Err(());
        }
        self.cm[self.cm_len] = cm;
        self.cm_len += 1;
        assert(self@ =~= (Mailbox { context_maps: old(self)@.context_maps.push(cm), ..old(self)@ }));
        Ok(())
    }

    fn push(&mut self, data: &mut AllocatedMemoryRange) -> (answer: Result<(), ()>) {
        if self.data_len == self.data.len() || data.slice().len() == 0 {
            return Err(());
        }
        self.data[self.data_len] = ThreadData::Data(
            replace(data, AllocatedMemoryRange::default()),
        );
        self.data_len += 1;
        assert(self@ =~= (Mailbox { data: old(self)@.data.push(*old(data)), ..old(self)@ }));
        Ok(())
    }

    fn pull(
        &mut self,
        cmd: &mut Command<AllocatedMemoryPrefix>,
        consumed: &mut AllocatedMemoryRange,
    ) -> (answer: CommandResult) {
        if self.cmd_result_len == 0 && self.consumed_data_len == 0 {
            if self.eof_to_main == false {
                // Yielding is an answer for a main thread that takes turns.
                assert(Self::COOPERATIVE_MAIN);
                return CommandResult::Yield;
            } else {
                return CommandResult::Eof;
            }
        }
        if self.consumed_data_len != 0 {
            let first = replace(&mut self.consumed_data[1], AllocatedMemoryRange::default());
            *consumed = replace(&mut self.consumed_data[0], first);
            self.consumed_data_len -= 1;
            assert(self@ =~= (Mailbox { consumed: old(self)@.consumed.drop_first(), ..old(self)@ }));
            return CommandResult::ProcessedData;
        }
        let first = replace(&mut self.cmd_result[1], Command::nop());
        *cmd = replace(&mut self.cmd_result[0], first);
        self.cmd_result_len -= 1;
        assert(self@ =~= (Mailbox { commands: old(self)@.commands.drop_first(), ..old(self)@ }));
        CommandResult::Cmd
    }
}

impl<AllocU8: Allocator> ThreadToMain<AllocU8> for SerialWorker<AllocU8> {
    const COOPERATIVE: bool = true;

    const ISOLATED: bool = true;

    open spec fn data_pulled(pre: Self, post: Self, answer: ThreadData) -> bool {
        pre@.data_pulled(post@, answer)
    }

    open spec fn context_map_pulled(
        pre: Self,
        m8: Option<AllocU8::RepurposingAlloc>,
        post: Self,
        m8_left: Option<AllocU8::RepurposingAlloc>,
        answer: Result<PredictionModeContextMap<AllocatedMemoryPrefix>, ()>,
    ) -> bool {
        &&& pre@.context_map_pulled(post@, answer)
        &&& m8_left == m8
    }

    open spec fn cmd_pushed(
        pre: Self,
        lent: CommandLoan<AllocU8>,
        post: Self,
        left: CommandLoan<AllocU8>,
        specialization_kept: bool,
        answer: DivansOutputResult,
    ) -> bool {
        &&& pre@.cmd_pushed(lent.cmd, post@, left.cmd, answer)
        &&& left == (CommandLoan { cmd: left.cmd, ..lent })
        &&& specialization_kept
    }

    open spec fn consumed_data_pushed(
        pre: Self,
        data: AllocatedMemoryRange,
        m8: Option<AllocU8::RepurposingAlloc>,
        post: Self,
        left: AllocatedMemoryRange,
        m8_left: Option<AllocU8::RepurposingAlloc>,
        answer: DivansOutputResult,
    ) -> bool {
        &&& pre@.consumed_data_pushed(data, post@, left, answer)
        &&& m8_left == m8
    }

    open spec fn eof_pushed(pre: Self, post: Self, answer: DivansOutputResult) -> bool {
        pre@.eof_pushed(post@, answer)
    }

    fn pull_data(&mut self) -> (answer: ThreadData) {
        if self.data_len == 0 {
            return ThreadData::Yield;
        }
        assert(self.data@[0] is Data);
        assert(old(self)@.data[0].wf());
        let first = replace(&mut self.data[1], ThreadData::Eof);
        let answer = replace(&mut self.data[0], first);
        self.data_len -= 1;
        assert(self@ =~= (Mailbox { data: old(self)@.data.drop_first(), ..old(self)@ }));
        answer
    }

    fn pull_context_map(
        &mut self,
        m8: Option<&mut AllocU8::RepurposingAlloc>,
    ) -> (answer: Result<PredictionModeContextMap<AllocatedMemoryPrefix>, ()>) {
        if self.cm_len == 0 {
            return Err(());
        }
        let answer = replace(
            &mut self.cm[self.cm_len - 1],
            empty_prediction_mode_context_map::<AllocatedMemoryPrefix>(),
        );
        self.cm_len -= 1;
        assert(self@ =~= (Mailbox {
            context_maps: old(self)@.context_maps.drop_last(),
            ..old(self)@
        }));
        Ok(answer)
    }

    fn push_cmd<Specialization: EncoderOrDecoderRecoderSpecialization>(
        &mut self,
        cmd: &mut Command<AllocatedMemoryPrefix>,
        m8: Option<&mut AllocU8::RepurposingAlloc>,
        recoder: Option<&mut AllocU8::RecodeState>,
        specialization: &mut Specialization,
        output: &mut [u8],
        output_offset: &mut usize,
    ) -> (answer: DivansOutputResult) {
        if self.cmd_result_len == self.cmd_result.len() {
            return DivansOutputResult::NeedsMoreOutput;
        }
        self.cmd_result[self.cmd_result_len] = replace(cmd, Command::nop());
        self.cmd_result_len += 1;
        assert(self@ =~= (Mailbox { commands: old(self)@.commands.push(*old(cmd)), ..old(self)@ }));
        DivansOutputResult::Success
    }

    fn push_consumed_data(
        &mut self,
        data: &mut AllocatedMemoryRange,
        m8: Option<&mut AllocU8::RepurposingAlloc>,
    ) -> (answer: DivansOutputResult) {
        if self.consumed_data_len == self.consumed_data.len() {
            return DivansOutputResult::NeedsMoreOutput;
        }
        self.consumed_data[self.consumed_data_len] = replace(
            data,
            AllocatedMemoryRange::default(),
        );
        self.consumed_data_len += 1;
        assert(self@ =~= (Mailbox { consumed: old(self)@.consumed.push(*old(data)), ..old(self)@ }));
        DivansOutputResult::Success
    }

    fn push_eof(&mut self) -> (answer: DivansOutputResult) {
        self.eof_to_main = true;
        DivansOutputResult::Success
    }
}

/// A serial worker takes turns with the main thread, on both sides, and shares nothing else.
pub proof fn law_serial_worker_cooperates<AllocU8: Allocator>()
    ensures
        SerialWorker::<AllocU8>::COOPERATIVE,
        SerialWorker::<AllocU8>::ISOLATED,
        SerialWorker::<AllocU8>::COOPERATIVE_MAIN,
{
}

} // verus!
