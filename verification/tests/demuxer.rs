use divans_threading::demuxer::{NopEncoderOrDecoderRecoderSpecialization, ThreadToMainDemuxer};
use divans_threading::interface::{
    Allocator, BlockSwitch, Command, DivansOutputResult, EncoderOrDecoderRecoderSpecialization,
    PredictionModeContextMap, SpecializationModel, StreamDemuxer, WellFormed,
};
use divans_threading::memory::{AllocatedMemoryPrefix, AllocatedMemoryRange};
use divans_threading::serial_worker::SerialWorker;
use divans_threading::threading::{
    empty_prediction_mode_context_map, CommandLoan, CommandResult, MainToThread, ThreadData, ThreadToMain,
};

struct PlainAlloc;

impl Allocator for PlainAlloc {
    type RepurposingAlloc = u32;
    type RecodeState = u64;
}

type SerialDemuxer = ThreadToMainDemuxer<PlainAlloc, SerialWorker<PlainAlloc>>;

fn range(bytes: &[u8]) -> AllocatedMemoryRange {
    AllocatedMemoryRange(bytes.to_vec(), 0..bytes.len())
}

fn fed(inputs: &[&[u8]]) -> SerialDemuxer {
    let mut d = SerialDemuxer::default();
    for input in inputs {
        assert_eq!(d.push(&mut range(input)), Ok(()));
    }
    d
}

fn pull(d: &mut SerialDemuxer) -> (CommandResult, AllocatedMemoryRange) {
    let mut cmd: Command<AllocatedMemoryPrefix> = Command::nop();
    let mut consumed = AllocatedMemoryRange::default();
    let answer = d.get_main_to_thread().pull(&mut cmd, &mut consumed);
    (answer, consumed)
}

#[test]
fn new_stream_is_empty() {
    let d = SerialDemuxer::new(SerialWorker::default());
    assert_eq!(d.data_ready(0), 0);
    assert_eq!(d.data_ready(1), 0);
    assert_eq!(d.peek(0), &[] as &[u8]);
    assert!(!d.encountered_eof());
    assert!(!d.consumed_all_streams_until_eof());
}

#[test]
fn demuxer_cooperates_as_its_worker() {
    assert!(<SerialDemuxer as MainToThread>::COOPERATIVE_MAIN);
    assert!(<SerialDemuxer as ThreadToMain<PlainAlloc>>::COOPERATIVE);
    assert!(<SerialDemuxer as ThreadToMain<PlainAlloc>>::ISOLATED);
}

#[test]
fn read_buffer_fetches_and_tracks_the_position() {
    let mut d = fed(&[b"hello"]);
    assert_eq!(d.data_ready(0), 0);
    {
        let buffers = d.read_buffer();
        assert_eq!(buffers[0].data, b"hello");
        assert_eq!(*buffers[0].read_offset, 0);
        assert_eq!(buffers[1].data, b"");
        assert_eq!(*buffers[1].read_offset, 0);
        *buffers[0].read_offset = 2;
        *buffers[1].read_offset = 9;
    }
    assert_eq!(d.data_ready(0), 3);
    assert_eq!(d.peek(0), b"llo");
    let buffers = d.read_buffer();
    assert_eq!(buffers[0].data, b"hello");
    assert_eq!(*buffers[0].read_offset, 2);
    assert_eq!(*buffers[1].read_offset, 9);
}

#[test]
fn bytes_are_read_in_order_across_buffers() {
    let mut d = fed(&[b"abc", b"de"]);
    let mut seen = Vec::new();
    for _ in 0..6 {
        let next = {
            let buffers = d.read_buffer();
            let at = *buffers[0].read_offset;
            if at < buffers[0].data.len() {
                *buffers[0].read_offset = at + 1;
                Some(buffers[0].data[at])
            } else {
                None
            }
        };
        seen.extend(next);
    }
    assert_eq!(seen, b"abcde");
    assert_eq!(pull(&mut d), (CommandResult::ProcessedData, AllocatedMemoryRange(b"abc".to_vec(), 3..3)));
    assert_eq!(pull(&mut d), (CommandResult::ProcessedData, AllocatedMemoryRange(b"de".to_vec(), 2..2)));
    assert_eq!(pull(&mut d).0, CommandResult::Yield);
}

#[test]
fn consume_returns_a_buffer_with_its_last_byte() {
    let mut d = fed(&[b"abc"]);
    d.edit(0);
    d.consume(0, 2);
    assert_eq!(d.peek(0), b"c");
    assert_eq!(pull(&mut d).0, CommandResult::Yield);
    d.consume(0, 0);
    assert_eq!(pull(&mut d).0, CommandResult::Yield);
    d.consume(0, 1);
    assert_eq!(d.data_ready(0), 0);
    assert_eq!(pull(&mut d), (CommandResult::ProcessedData, AllocatedMemoryRange(b"abc".to_vec(), 3..3)));
}

#[test]
fn spent_buffer_stays_until_there_is_room() {
    let mut d = fed(&[b"a", b"b"]);
    d.edit(0);
    d.consume(0, 1);
    d.edit(0);
    d.consume(0, 1);
    assert_eq!(d.push(&mut range(b"c")), Ok(()));
    assert_eq!(d.push(&mut range(b"d")), Ok(()));
    d.edit(0);
    d.consume(0, 1);
    // Two spent buffers wait already, so the third is still held and nothing is fetched.
    assert_eq!(*d.edit(0), AllocatedMemoryRange(b"c".to_vec(), 1..1));
    assert_eq!(d.data_ready(0), 0);
    assert_eq!(pull(&mut d).1, AllocatedMemoryRange(b"a".to_vec(), 1..1));
    assert_eq!(*d.edit(0), range(b"d"));
    assert_eq!(pull(&mut d).1, AllocatedMemoryRange(b"b".to_vec(), 1..1));
    assert_eq!(pull(&mut d).1, AllocatedMemoryRange(b"c".to_vec(), 1..1));
}

#[test]
fn edit_lends_the_buffer() {
    let mut d = fed(&[b"abcd", b"next"]);
    {
        let lent = d.edit(0);
        assert_eq!(*lent, range(b"abcd"));
        lent.1.start = 3;
    }
    assert_eq!(d.peek(0), b"d");
    *d.edit(0) = AllocatedMemoryRange::default();
    assert_eq!(*d.edit(0), range(b"next"));
}

#[test]
fn freeing_hands_back_unread_memory() {
    let mut d = fed(&[b"abc"]);
    d.free_demux(&mut PlainAlloc);
    assert_eq!(pull(&mut d).0, CommandResult::Yield);
    d.edit(0);
    d.consume(0, 1);
    d.free_demux(&mut PlainAlloc);
    assert_eq!(d.data_ready(0), 0);
    assert_eq!(pull(&mut d), (CommandResult::ProcessedData, AllocatedMemoryRange(b"abc".to_vec(), 1..3)));
    d.free_demux(&mut PlainAlloc);
    assert_eq!(pull(&mut d).0, CommandResult::Yield);
}

#[test]
fn freeing_keeps_a_buffer_that_finds_no_room() {
    let mut d = fed(&[b"abc"]);
    d.edit(0);
    let mut spent = AllocatedMemoryRange(vec![1], 1..1);
    assert_eq!(d.push_consumed_data(&mut spent, None), DivansOutputResult::Success);
    let mut spent = AllocatedMemoryRange(vec![2], 1..1);
    assert_eq!(d.push_consumed_data(&mut spent, None), DivansOutputResult::Success);
    d.free_demux(&mut PlainAlloc);
    assert_eq!(d.peek(0), b"abc");
    assert_eq!(pull(&mut d).1, AllocatedMemoryRange(vec![1], 1..1));
    d.free_demux(&mut PlainAlloc);
    assert_eq!(d.data_ready(0), 0);
    assert_eq!(pull(&mut d).1, AllocatedMemoryRange(vec![2], 1..1));
    assert_eq!(pull(&mut d).1, range(b"abc"));
}

#[test]
fn unread_bytes_are_not_disturbed() {
    let mut d = fed(&[b"ab", b"cd"]);
    assert_eq!(*d.edit(0), range(b"ab"));
    d.consume(0, 1);
    assert_eq!(*d.edit(0), AllocatedMemoryRange(b"ab".to_vec(), 1..2));
    assert_eq!(d.read_buffer()[0].data, b"ab");
    assert_eq!(d.peek(0), b"b");
    assert_eq!(d.pull_data(), ThreadData::Data(range(b"cd")));
}

#[test]
fn going_back_reads_again_and_keeps_the_buffer() {
    let mut d = fed(&[b"abc", b"de"]);
    *d.read_buffer()[0].read_offset = 2;
    *d.read_buffer()[0].read_offset = 1;
    assert_eq!(d.peek(0), b"bc");
    *d.read_buffer()[0].read_offset = 3;
    assert_eq!(d.pull_if_necessary(), DivansOutputResult::Success);
    assert_eq!(d.peek(0), b"de");
    d.consume(0, 2);
    assert_eq!(pull(&mut d).1, AllocatedMemoryRange(b"abc".to_vec(), 3..3));
    assert_eq!(pull(&mut d).1, AllocatedMemoryRange(b"de".to_vec(), 2..2));
    assert_eq!(pull(&mut d).0, CommandResult::Yield);
}

#[test]
fn range_left_outside_its_buffer_can_be_freed() {
    let mut d = fed(&[b"abc"]);
    *d.read_buffer()[0].read_offset = 9;
    assert_eq!(d.data_ready(1), 0);
    assert!(!d.encountered_eof());
    assert!(!d.consumed_all_streams_until_eof());
    assert_eq!(d.push(&mut range(b"next")), Ok(()));
    d.free_demux(&mut PlainAlloc);
    assert_eq!(pull(&mut d), (CommandResult::ProcessedData, AllocatedMemoryRange(b"abc".to_vec(), 9..3)));
    assert_eq!(*d.edit(0), range(b"next"));
}

#[test]
fn refused_spent_buffer_is_the_answer_of_a_refill() {
    let mut d = scripted(vec![ThreadData::Data(range(b"x")), ThreadData::Data(range(b"y"))], 3);
    assert_eq!(d.send_any_empty_data_buffer_to_main(), DivansOutputResult::Success);
    assert_eq!(d.pull_if_necessary(), DivansOutputResult::Success);
    assert_eq!(d.send_any_empty_data_buffer_to_main(), DivansOutputResult::Success);
    d.consume(0, 1);
    assert_eq!(d.send_any_empty_data_buffer_to_main(), DivansOutputResult::NeedsMoreOutput);
    assert_eq!(d.pull_if_necessary(), DivansOutputResult::NeedsMoreOutput);
    assert_eq!(d.data_ready(0), 0);
    assert_eq!(d.pull_if_necessary(), DivansOutputResult::Success);
    assert_eq!(d.peek(0), b"y");
}

#[test]
fn serial_stream_does_not_end() {
    let mut d = fed(&[b"a"]);
    assert_eq!(d.push_eof(), DivansOutputResult::Success);
    d.edit(0);
    d.consume(0, 1);
    d.edit(0);
    assert!(!d.encountered_eof());
    assert_eq!(pull(&mut d).0, CommandResult::ProcessedData);
    assert_eq!(pull(&mut d).0, CommandResult::Eof);
}

#[test]
fn calls_pass_through_to_the_worker() {
    let mut d = fed(&[b"a", b"b"]);
    assert_eq!(d.push(&mut range(b"c")), Err(()));
    assert_eq!(d.pull_data(), ThreadData::Data(range(b"a")));
    assert_eq!(d.push_context_map(empty_prediction_mode_context_map()), Ok(()));
    assert_eq!(d.pull_context_map(None), Ok(empty_prediction_mode_context_map()));
    let mut cmd = Command::BlockSwitchDistance(BlockSwitch(2));
    let mut offset = 0usize;
    assert_eq!(
        d.push_cmd(
            &mut cmd,
            None,
            None,
            &mut NopEncoderOrDecoderRecoderSpecialization {},
            &mut [],
            &mut offset
        ),
        DivansOutputResult::Success
    );
    let mut spent = AllocatedMemoryRange(vec![5], 1..1);
    assert_eq!(d.push_consumed_data(&mut spent, None), DivansOutputResult::Success);
    let mut consumed = AllocatedMemoryRange::default();
    assert_eq!(d.pull(&mut cmd, &mut consumed), CommandResult::ProcessedData);
    assert_eq!(consumed, AllocatedMemoryRange(vec![5], 1..1));
    assert_eq!(d.pull(&mut cmd, &mut consumed), CommandResult::Cmd);
    assert_eq!(cmd, Command::BlockSwitchDistance(BlockSwitch(2)));
}

/// A worker that gives out a script of input, takes every buffer but the first offered, and
/// writes to what it is lent.
struct Scripted {
    script: Vec<ThreadData>,
    offered: Vec<AllocatedMemoryRange>,
    refuse: usize,
}

// The specification functions of the traits are never run.
impl WellFormed for Scripted {
    fn wf(&self) -> bool {
        unreachable!()
    }
}

impl ThreadToMain<PlainAlloc> for Scripted {
    const COOPERATIVE: bool = false;
    const ISOLATED: bool = false;

    fn data_pulled(_: Self, _: Self, _: ThreadData) -> bool {
        unreachable!()
    }

    fn context_map_pulled(
        _: Self,
        _: Option<u32>,
        _: Self,
        _: Option<u32>,
        _: Result<PredictionModeContextMap<AllocatedMemoryPrefix>, ()>,
    ) -> bool {
        unreachable!()
    }

    fn cmd_pushed(
        _: Self,
        _: CommandLoan<PlainAlloc>,
        _: Self,
        _: CommandLoan<PlainAlloc>,
        _: bool,
        _: DivansOutputResult,
    ) -> bool {
        unreachable!()
    }

    fn consumed_data_pushed(
        _: Self,
        _: AllocatedMemoryRange,
        _: Option<u32>,
        _: Self,
        _: AllocatedMemoryRange,
        _: Option<u32>,
        _: DivansOutputResult,
    ) -> bool {
        unreachable!()
    }

    fn eof_pushed(_: Self, _: Self, _: DivansOutputResult) -> bool {
        unreachable!()
    }

    fn pull_data(&mut self) -> ThreadData {
        if self.script.is_empty() {
            ThreadData::Yield
        } else {
            self.script.remove(0)
        }
    }

    fn pull_context_map(
        &mut self,
        m8: Option<&mut u32>,
    ) -> Result<PredictionModeContextMap<AllocatedMemoryPrefix>, ()> {
        *m8.unwrap() += 1;
        Err(())
    }

    fn push_cmd<Specialization: EncoderOrDecoderRecoderSpecialization>(
        &mut self,
        _cmd: &mut Command<AllocatedMemoryPrefix>,
        m8: Option<&mut u32>,
        recoder: Option<&mut u64>,
        specialization: &mut Specialization,
        output: &mut [u8],
        output_offset: &mut usize,
    ) -> DivansOutputResult {
        *m8.unwrap() += 1;
        *recoder.unwrap() += 2;
        if let Some(first) = specialization.get_recoder_output(output).first_mut() {
            *first = 3;
        }
        *output_offset += 4;
        DivansOutputResult::NeedsMoreOutput
    }

    fn push_consumed_data(
        &mut self,
        data: &mut AllocatedMemoryRange,
        m8: Option<&mut u32>,
    ) -> DivansOutputResult {
        assert!(m8.is_none());
        if self.refuse > 0 {
            self.refuse -= 1;
            return DivansOutputResult::NeedsMoreOutput;
        }
        self.offered.push(std::mem::take(data));
        DivansOutputResult::Success
    }

    fn push_eof(&mut self) -> DivansOutputResult {
        DivansOutputResult::NeedsMoreOutput
    }
}

/// A recoder that writes to the buffer passed in, and counts how often it was asked for it.
struct PassedIn {
    asked: usize,
}

impl EncoderOrDecoderRecoderSpecialization for PassedIn {
    fn model(&self) -> SpecializationModel {
        unreachable!()
    }

    fn get_recoder_output<'a>(&'a mut self, passed_in_output_bytes: &'a mut [u8]) -> &'a mut [u8] {
        self.asked += 1;
        passed_in_output_bytes
    }

    fn get_recoder_output_offset<'a>(
        &self,
        passed_in_output_bytes: &'a mut usize,
        _backing: &'a mut usize,
    ) -> &'a mut usize {
        passed_in_output_bytes
    }
}

#[test]
fn specialization_reaches_the_worker() {
    let mut d = scripted(Vec::new(), 0);
    let mut passed_in = PassedIn { asked: 0 };
    let mut output = [0u8; 2];
    let answer = d.push_cmd(
        &mut Command::nop(),
        Some(&mut 0),
        Some(&mut 0),
        &mut passed_in,
        &mut output,
        &mut 0,
    );
    assert_eq!(answer, DivansOutputResult::NeedsMoreOutput);
    assert_eq!((passed_in.asked, output), (1, [3, 0]));
    d.push_cmd(
        &mut Command::nop(),
        Some(&mut 0),
        Some(&mut 0),
        &mut NopEncoderOrDecoderRecoderSpecialization {},
        &mut output[1..],
        &mut 0,
    );
    assert_eq!(output, [3, 0]);
}

fn scripted(script: Vec<ThreadData>, refuse: usize) -> ThreadToMainDemuxer<PlainAlloc, Scripted> {
    ThreadToMainDemuxer::new(Scripted { script, offered: Vec::new(), refuse })
}

#[test]
fn end_of_stream_counts_once_all_is_read() {
    let mut d = scripted(
        vec![ThreadData::Data(range(b"xy")), ThreadData::Yield, ThreadData::Eof, ThreadData::Data(range(b"z"))],
        0,
    );
    assert_eq!(*d.edit(0), range(b"xy"));
    d.consume(0, 2);
    assert_eq!(*d.edit(0), AllocatedMemoryRange::default());
    assert!(!d.encountered_eof());
    d.edit(0);
    assert!(d.encountered_eof());
    assert!(d.consumed_all_streams_until_eof());
    // Input after the end is read, and the end stays on record meanwhile.
    assert_eq!(*d.edit(0), range(b"z"));
    assert!(!d.encountered_eof());
    assert!(!d.consumed_all_streams_until_eof());
    d.consume(0, 1);
    assert!(d.encountered_eof());
}

#[test]
fn refused_buffer_is_offered_again_before_input_is_fetched() {
    let mut d = scripted(vec![ThreadData::Data(range(b"x")), ThreadData::Data(range(b"y"))], 2);
    d.edit(0);
    d.consume(0, 1);
    assert_eq!(*d.edit(0), AllocatedMemoryRange(b"x".to_vec(), 1..1));
    assert_eq!(*d.edit(0), range(b"y"));
}

#[test]
fn lent_values_reach_the_worker() {
    let mut d = scripted(Vec::new(), 0);
    let mut m8 = 10u32;
    let mut recoder = 20u64;
    let mut output = [0u8; 2];
    let mut offset = 30usize;
    let mut cmd = Command::nop();
    assert_eq!(d.pull_context_map(Some(&mut m8)), Err(()));
    assert_eq!(
        d.push_cmd(
            &mut cmd,
            Some(&mut m8),
            Some(&mut recoder),
            &mut PassedIn { asked: 0 },
            &mut output,
            &mut offset
        ),
        DivansOutputResult::NeedsMoreOutput
    );
    assert_eq!((m8, recoder, output, offset), (12, 22, [3, 0], 34));
    assert_eq!(d.push_eof(), DivansOutputResult::NeedsMoreOutput);
    assert!(!<ThreadToMainDemuxer<PlainAlloc, Scripted> as ThreadToMain<PlainAlloc>>::COOPERATIVE);
}
