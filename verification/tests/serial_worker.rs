use divans_threading::interface::{
    Allocator, BlockSwitch, Command, CopyCommand, DictCommand, DivansOutputResult, LiteralBlockSwitch,
    LiteralCommand, PredictionModeContextMap,
};
use divans_threading::demuxer::NopEncoderOrDecoderRecoderSpecialization;
use divans_threading::interface::EncoderOrDecoderRecoderSpecialization;
use divans_threading::memory::{AllocatedMemoryPrefix, AllocatedMemoryRange};
use divans_threading::serial_worker::SerialWorker;
use divans_threading::threading::{
    empty_prediction_mode_context_map, CommandResult, MainToThread, ThreadData, ThreadToMain,
};

struct CountingAlloc;

impl Allocator for CountingAlloc {
    type RepurposingAlloc = u32;
    type RecodeState = u64;
}

type Worker = SerialWorker<CountingAlloc>;

fn worker() -> Worker {
    Worker::default()
}

fn range(bytes: &[u8]) -> AllocatedMemoryRange {
    AllocatedMemoryRange(bytes.to_vec(), 0..bytes.len())
}

fn prefix(bytes: &[u8]) -> AllocatedMemoryPrefix {
    AllocatedMemoryPrefix(bytes.to_vec(), bytes.len())
}

fn maps(tag: u8) -> PredictionModeContextMap<AllocatedMemoryPrefix> {
    PredictionModeContextMap {
        literal_context_map: prefix(&[tag]),
        predmode_speed_and_distance_context_map: prefix(&[tag, tag]),
    }
}

fn literal(bytes: &[u8]) -> Command<AllocatedMemoryPrefix> {
    Command::Literal(LiteralCommand { data: prefix(bytes) })
}

fn push_cmd(worker: &mut Worker, cmd: &mut Command<AllocatedMemoryPrefix>) -> DivansOutputResult {
    let mut output = [9u8, 8, 7];
    let mut output_offset = 1usize;
    let mut m8 = 5u32;
    let mut recoder = 6u64;
    let answer = worker.push_cmd(
        cmd,
        Some(&mut m8),
        Some(&mut recoder),
        &mut NopEncoderOrDecoderRecoderSpecialization {},
        &mut output,
        &mut output_offset,
    );
    assert_eq!(output, [9, 8, 7]);
    assert_eq!((output_offset, m8, recoder), (1, 5, 6));
    answer
}

fn pull(worker: &mut Worker) -> (CommandResult, Command<AllocatedMemoryPrefix>, AllocatedMemoryRange) {
    let mut cmd = literal(b"untouched");
    let mut consumed = range(b"untouched");
    let answer = worker.pull(&mut cmd, &mut consumed);
    (answer, cmd, consumed)
}

#[test]
fn defaults_are_empty() {
    assert_eq!(AllocatedMemoryRange::default(), AllocatedMemoryRange(Vec::new(), 0..0));
    assert_eq!(AllocatedMemoryPrefix::default(), AllocatedMemoryPrefix(Vec::new(), 0));
    assert_eq!(ThreadData::default(), ThreadData::Data(AllocatedMemoryRange(Vec::new(), 0..0)));
    let map = empty_prediction_mode_context_map::<AllocatedMemoryPrefix>();
    assert_eq!(map.literal_context_map, AllocatedMemoryPrefix(Vec::new(), 0));
    assert_eq!(map.predmode_speed_and_distance_context_map, AllocatedMemoryPrefix(Vec::new(), 0));
    let numbers = empty_prediction_mode_context_map::<u8>();
    assert_eq!((numbers.literal_context_map, numbers.predmode_speed_and_distance_context_map), (0, 0));
}

#[test]
fn slice_is_the_part_in_range() {
    assert_eq!(AllocatedMemoryRange(vec![1, 2, 3, 4, 5], 1..4).slice(), &[2, 3, 4]);
    assert_eq!(AllocatedMemoryRange(vec![1, 2, 3], 3..3).slice(), &[] as &[u8]);
}

#[test]
fn nop_is_a_copy_of_nothing() {
    let nop: Command<AllocatedMemoryPrefix> = Command::nop();
    assert_eq!(nop, Command::Copy(CopyCommand { distance: 1, num_bytes: 0 }));
}

#[test]
fn serial_worker_takes_turns() {
    assert!(<Worker as MainToThread>::COOPERATIVE_MAIN);
    assert!(<Worker as ThreadToMain<CountingAlloc>>::COOPERATIVE);
    assert!(<Worker as ThreadToMain<CountingAlloc>>::ISOLATED);
}

#[test]
fn input_comes_out_in_order() {
    let mut w = worker();
    assert_eq!(w.pull_data(), ThreadData::Yield);
    let mut first = range(b"first");
    let mut second = range(b"second");
    assert_eq!(w.push(&mut first), Ok(()));
    assert_eq!(first, AllocatedMemoryRange::default());
    assert_eq!(w.push(&mut second), Ok(()));
    assert_eq!(w.pull_data(), ThreadData::Data(range(b"first")));
    let mut third = range(b"third");
    assert_eq!(w.push(&mut third), Ok(()));
    assert_eq!(w.pull_data(), ThreadData::Data(range(b"second")));
    assert_eq!(w.pull_data(), ThreadData::Data(range(b"third")));
    assert_eq!(w.pull_data(), ThreadData::Yield);
    assert_eq!(w.pull_data(), ThreadData::Yield);
}

#[test]
fn third_input_is_refused_and_kept_by_the_caller() {
    let mut w = worker();
    assert_eq!(w.push(&mut range(b"a")), Ok(()));
    assert_eq!(w.push(&mut range(b"b")), Ok(()));
    let mut third = range(b"c");
    assert_eq!(w.push(&mut third), Err(()));
    assert_eq!(third, range(b"c"));
    assert_eq!(w.pull_data(), ThreadData::Data(range(b"a")));
    assert_eq!(w.push(&mut third), Ok(()));
    assert_eq!(w.pull_data(), ThreadData::Data(range(b"b")));
    assert_eq!(w.pull_data(), ThreadData::Data(range(b"c")));
}

#[test]
fn input_without_bytes_is_refused() {
    let mut w = worker();
    let mut spent = AllocatedMemoryRange(vec![1, 2, 3], 2..2);
    assert_eq!(w.push(&mut spent), Err(()));
    assert_eq!(spent, AllocatedMemoryRange(vec![1, 2, 3], 2..2));
    assert_eq!(w.push(&mut AllocatedMemoryRange::default()), Err(()));
    assert_eq!(w.pull_data(), ThreadData::Yield);
}

#[test]
fn full_queue_refuses_a_range_without_looking_into_it() {
    let mut w = worker();
    assert_eq!(w.push(&mut range(b"a")), Ok(()));
    assert_eq!(w.push(&mut range(b"b")), Ok(()));
    let mut outside = AllocatedMemoryRange(vec![1], 3..7);
    assert_eq!(w.push(&mut outside), Err(()));
    assert_eq!(outside, AllocatedMemoryRange(vec![1], 3..7));
}

#[test]
fn context_maps_are_neither_lost_nor_doubled() {
    let mut w = worker();
    let mut taken = Vec::new();
    for tag in 0..4 {
        assert_eq!(w.push_context_map(maps(tag)), Ok(()));
        if tag % 2 == 1 {
            taken.push(w.pull_context_map(None).unwrap().literal_context_map.0[0]);
            taken.push(w.pull_context_map(None).unwrap().literal_context_map.0[0]);
        }
    }
    assert_eq!(w.pull_context_map(None), Err(()));
    assert_eq!(taken, [1, 0, 3, 2]);
}

#[test]
fn context_maps_come_back_last_first() {
    let mut w = worker();
    assert_eq!(w.pull_context_map(None), Err(()));
    assert_eq!(w.push_context_map(maps(1)), Ok(()));
    assert_eq!(w.push_context_map(maps(2)), Ok(()));
    assert_eq!(w.push_context_map(maps(3)), Err(()));
    let mut m8 = 11u32;
    assert_eq!(w.pull_context_map(Some(&mut m8)), Ok(maps(2)));
    assert_eq!(m8, 11);
    assert_eq!(w.push_context_map(maps(4)), Ok(()));
    assert_eq!(w.pull_context_map(None), Ok(maps(4)));
    assert_eq!(w.pull_context_map(None), Ok(maps(1)));
    assert_eq!(w.pull_context_map(None), Err(()));
}

#[test]
fn commands_come_out_in_order() {
    let mut w = worker();
    let mut first = Command::Dict(DictCommand { word_size: 4, transform: 1, final_size: 5, word_id: 9 });
    assert_eq!(push_cmd(&mut w, &mut first), DivansOutputResult::Success);
    assert_eq!(first, Command::nop());
    let mut second = Command::BlockSwitchLiteral(LiteralBlockSwitch(BlockSwitch(3), 1));
    assert_eq!(push_cmd(&mut w, &mut second), DivansOutputResult::Success);
    let mut third = literal(b"xyz");
    assert_eq!(push_cmd(&mut w, &mut third), DivansOutputResult::NeedsMoreOutput);
    assert_eq!(third, literal(b"xyz"));

    let (answer, cmd, consumed) = pull(&mut w);
    assert_eq!(answer, CommandResult::Cmd);
    assert_eq!(cmd, Command::Dict(DictCommand { word_size: 4, transform: 1, final_size: 5, word_id: 9 }));
    assert_eq!(consumed, range(b"untouched"));
    assert_eq!(push_cmd(&mut w, &mut third), DivansOutputResult::Success);
    assert_eq!(pull(&mut w).1, Command::BlockSwitchLiteral(LiteralBlockSwitch(BlockSwitch(3), 1)));
    assert_eq!(pull(&mut w).1, literal(b"xyz"));
    assert_eq!(pull(&mut w), (CommandResult::Yield, literal(b"untouched"), range(b"untouched")));
}

#[test]
fn spent_buffers_come_out_in_order_and_before_commands() {
    let mut w = worker();
    let mut cmd = literal(b"c");
    assert_eq!(push_cmd(&mut w, &mut cmd), DivansOutputResult::Success);
    let mut a = AllocatedMemoryRange(vec![1, 2], 2..2);
    let mut m8 = 3u32;
    assert_eq!(w.push_consumed_data(&mut a, Some(&mut m8)), DivansOutputResult::Success);
    assert_eq!((a, m8), (AllocatedMemoryRange::default(), 3));
    let mut b = AllocatedMemoryRange(vec![3], 1..1);
    assert_eq!(w.push_consumed_data(&mut b, None), DivansOutputResult::Success);
    let mut c = AllocatedMemoryRange(vec![4], 0..1);
    assert_eq!(w.push_consumed_data(&mut c, None), DivansOutputResult::NeedsMoreOutput);
    assert_eq!(c, AllocatedMemoryRange(vec![4], 0..1));

    assert_eq!(
        pull(&mut w),
        (CommandResult::ProcessedData, literal(b"untouched"), AllocatedMemoryRange(vec![1, 2], 2..2))
    );
    assert_eq!(w.push_consumed_data(&mut c, None), DivansOutputResult::Success);
    assert_eq!(pull(&mut w).2, AllocatedMemoryRange(vec![3], 1..1));
    assert_eq!(pull(&mut w).2, AllocatedMemoryRange(vec![4], 0..1));
    assert_eq!(pull(&mut w), (CommandResult::Cmd, literal(b"c"), range(b"untouched")));
}

#[test]
fn end_is_told_when_all_has_been_taken() {
    let mut w = worker();
    assert_eq!(pull(&mut w).0, CommandResult::Yield);
    assert_eq!(push_cmd(&mut w, &mut literal(b"last")), DivansOutputResult::Success);
    assert_eq!(w.push_eof(), DivansOutputResult::Success);
    assert_eq!(pull(&mut w).0, CommandResult::Cmd);
    assert_eq!(pull(&mut w), (CommandResult::Eof, literal(b"untouched"), range(b"untouched")));
    assert_eq!(pull(&mut w).0, CommandResult::Eof);
    // Something handed over after the announcement is still delivered.
    let mut late = AllocatedMemoryRange(vec![1], 1..1);
    assert_eq!(w.push_consumed_data(&mut late, None), DivansOutputResult::Success);
    assert_eq!(pull(&mut w).0, CommandResult::ProcessedData);
    assert_eq!(pull(&mut w).0, CommandResult::Eof);
    // The input side does not end.
    assert_eq!(w.pull_data(), ThreadData::Yield);
}

#[test]
fn nop_specialization_writes_nowhere() {
    let mut nop = NopEncoderOrDecoderRecoderSpecialization {};
    let mut passed = [1u8, 2, 3];
    assert_eq!(nop.get_recoder_output(&mut passed).len(), 0);
    assert_eq!(passed, [1, 2, 3]);
    let mut offset = 4usize;
    let mut backing = 7usize;
    let chosen = nop.get_recoder_output_offset(&mut offset, &mut backing);
    assert_eq!(*chosen, 7);
    *chosen = 8;
    assert_eq!((offset, backing), (4, 8));
}
