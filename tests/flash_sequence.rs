use espflash::{Action, Command, CommandType, Esp8266Target, RomSegment, Sequence, Status, Step, Timeout, FLASH_WRITE_SIZE};

/// Drives `seq` to its end. `fails` decides, for each step that goes over the
/// connection (counted from 0 among such steps), whether it fails.
fn drive(seq: &mut Sequence, fails: impl Fn(&Step, usize) -> bool) -> (Vec<Step>, Result<(), ()>) {
    let mut performed = Vec::new();
    let mut ok = true;
    let mut connection_steps = 0usize;
    loop {
        match seq.advance(ok) {
            Action::Perform(step) => {
                ok = match &step {
                    Step::Command { .. } | Step::CommandNoResponse { .. } | Step::Reset => {
                        let failed = fails(&step, connection_steps);
                        connection_steps += 1;
                        !failed
                    }
                    _ => true,
                };
                performed.push(step);
            }
            Action::Complete => return (performed, Ok(())),
            Action::Abort => return (performed, Err(())),
        }
    }
}

fn never(_: &Step, _: usize) -> bool {
    false
}

fn data_sequences(steps: &[Step]) -> Vec<u32> {
    steps
        .iter()
        .filter_map(|s| match s {
            Step::Command { command: Command::FlashData { sequence, .. }, .. } => Some(*sequence),
            _ => None,
        })
        .collect()
}

fn updates(steps: &[Step]) -> Vec<usize> {
    steps
        .iter()
        .filter_map(|s| match s {
            Step::ProgressUpdate { current } => Some(*current),
            _ => None,
        })
        .collect()
}

fn payload(len: usize) -> Vec<u8> {
    (0..len).map(|i| (i % 251) as u8).collect()
}

#[test]
fn begin_sends_priming_flash_begin() {
    let target = Esp8266Target::new();
    let mut seq = target.begin();
    let (steps, result) = drive(&mut seq, never);
    assert_eq!(result, Ok(()));
    assert_eq!(
        steps,
        vec![Step::Command {
            command: Command::FlashBegin {
                size: 0,
                blocks: 0,
                block_size: FLASH_WRITE_SIZE as u32,
                offset: 0,
                supports_encryption: false,
            },
            timeout: Timeout::ConnectionDefault,
        }]
    );
    assert_eq!(seq.status(), Status::Completed);
}

#[test]
fn begin_failure_is_surfaced() {
    let target = Esp8266Target::new();
    let mut seq = target.begin();
    let (steps, result) = drive(&mut seq, |_, _| true);
    assert_eq!(steps.len(), 1);
    assert_eq!(result, Err(()));
    assert_eq!(seq.status(), Status::Aborted);
}

#[test]
fn empty_segment_sends_no_data() {
    let target = Esp8266Target::new();
    let mut seq = target.write_segment(RomSegment { addr: 0x2000, data: Vec::new() });
    let (steps, result) = drive(&mut seq, never);
    assert_eq!(result, Ok(()));
    assert_eq!(
        steps,
        vec![
            Step::Command {
                command: Command::FlashBegin {
                    size: 0,
                    blocks: 0,
                    block_size: 0x400,
                    offset: 0x2000,
                    supports_encryption: false,
                },
                timeout: Timeout::Scaled { kind: CommandType::FlashBegin, size: 0 },
            },
            Step::ProgressInit { addr: 0x2000, total: 0 },
            Step::ProgressFinish,
        ]
    );
}

#[test]
fn chunk_sized_segment_sends_one_command_per_chunk() {
    let target = Esp8266Target::new();
    let data = payload(5 * FLASH_WRITE_SIZE);
    let mut seq = target.write_segment(RomSegment { addr: 0, data: data.clone() });
    let (steps, result) = drive(&mut seq, never);
    assert_eq!(result, Ok(()));
    assert_eq!(data_sequences(&steps), vec![0, 1, 2, 3, 4]);
    assert_eq!(updates(&steps), vec![1, 2, 3, 4, 5]);
    assert_eq!(steps[1], Step::ProgressInit { addr: 0, total: 5 });
    assert_eq!(steps.last(), Some(&Step::ProgressFinish));
    let mut sent = Vec::new();
    for step in &steps {
        if let Step::Command { command: Command::FlashData { data, pad_to, pad_byte, .. }, timeout } = step {
            assert_eq!(*pad_to, FLASH_WRITE_SIZE);
            assert_eq!(*pad_byte, 0xff);
            assert_eq!(*timeout, Timeout::ConnectionDefault);
            assert_eq!(data.len(), FLASH_WRITE_SIZE);
            sent.extend_from_slice(data);
        }
    }
    assert_eq!(sent, data);
}

#[test]
fn segment_steps_alternate_data_and_update() {
    let target = Esp8266Target::new();
    let data = payload(3 * FLASH_WRITE_SIZE + 100);
    let mut seq = target.write_segment(RomSegment { addr: 0x1_0000, data: data.clone() });
    let (steps, result) = drive(&mut seq, never);
    assert_eq!(result, Ok(()));
    assert_eq!(steps.len(), 2 * 4 + 3);
    assert_eq!(
        steps[0],
        Step::Command {
            command: Command::FlashBegin {
                size: 4096,
                blocks: 4,
                block_size: 0x400,
                offset: 0x1_0000,
                supports_encryption: false,
            },
            timeout: Timeout::Scaled { kind: CommandType::FlashBegin, size: 4096 },
        }
    );
    assert_eq!(steps[1], Step::ProgressInit { addr: 0x1_0000, total: 4 });
    for i in 0..4usize {
        match &steps[2 + 2 * i] {
            Step::Command { command: Command::FlashData { sequence, data: chunk, .. }, .. } => {
                assert_eq!(*sequence, i as u32);
                let end = usize::min((i + 1) * FLASH_WRITE_SIZE, data.len());
                assert_eq!(chunk.as_slice(), &data[i * FLASH_WRITE_SIZE..end]);
            }
            other => panic!("expected a data command, got {other:?}"),
        }
        assert_eq!(steps[3 + 2 * i], Step::ProgressUpdate { current: i + 1 });
    }
    assert_eq!(steps[10], Step::ProgressFinish);
}

#[test]
fn large_segment_erase_size_and_blocks() {
    let target = Esp8266Target::new();
    let mut seq = target.write_segment(RomSegment { addr: 0, data: payload(65536) });
    match seq.advance(true) {
        Action::Perform(Step::Command { command: Command::FlashBegin { size, blocks, .. }, timeout }) => {
            assert_eq!(size, 32768);
            assert_eq!(blocks, 64);
            assert_eq!(timeout, Timeout::Scaled { kind: CommandType::FlashBegin, size: 32768 });
        }
        other => panic!("expected flash-begin, got {other:?}"),
    }
}

#[test]
fn failure_on_third_data_command_stops_after_two_chunks() {
    let target = Esp8266Target::new();
    let mut seq = target.write_segment(RomSegment { addr: 0, data: payload(6 * FLASH_WRITE_SIZE) });
    let (steps, result) = drive(&mut seq, |step, _| {
        matches!(step, Step::Command { command: Command::FlashData { sequence: 2, .. }, .. })
    });
    assert_eq!(result, Err(()));
    assert_eq!(data_sequences(&steps), vec![0, 1, 2]);
    assert_eq!(updates(&steps), vec![1, 2]);
    assert!(!steps.contains(&Step::ProgressFinish));
    assert_eq!(seq.status(), Status::Aborted);
}

#[test]
fn failed_segment_begin_sends_nothing_more() {
    let target = Esp8266Target::new();
    let mut seq = target.write_segment(RomSegment { addr: 0, data: payload(100) });
    let (steps, result) = drive(&mut seq, |_, n| n == 0);
    assert_eq!(result, Err(()));
    assert_eq!(steps.len(), 1);
}

#[test]
fn sequence_numbers_restart_per_segment() {
    let target = Esp8266Target::new();
    for addr in [0u32, 0x4000] {
        let mut seq = target.write_segment(RomSegment { addr, data: payload(2 * FLASH_WRITE_SIZE) });
        let (steps, _) = drive(&mut seq, never);
        assert_eq!(data_sequences(&steps), vec![0, 1]);
    }
}

fn flash_end() -> Step {
    Step::CommandNoResponse {
        command: Command::FlashEnd { reboot: false },
        timeout: Timeout::Fixed(CommandType::FlashEnd),
    }
}

#[test]
fn finish_with_reboot_ends_then_resets() {
    let target = Esp8266Target::new();
    let mut seq = target.finish(true);
    let (steps, result) = drive(&mut seq, never);
    assert_eq!(result, Ok(()));
    assert_eq!(steps, vec![flash_end(), Step::Reset]);
}

#[test]
fn finish_without_reboot_only_ends() {
    let target = Esp8266Target::new();
    let mut seq = target.finish(false);
    let (steps, result) = drive(&mut seq, never);
    assert_eq!(result, Ok(()));
    assert_eq!(steps, vec![flash_end()]);
}

#[test]
fn failed_flash_end_skips_reset() {
    let target = Esp8266Target::new();
    let mut seq = target.finish(true);
    let (steps, result) = drive(&mut seq, |_, _| true);
    assert_eq!(result, Err(()));
    assert_eq!(steps, vec![flash_end()]);
}

#[test]
fn failed_reset_is_surfaced() {
    let target = Esp8266Target::new();
    let mut seq = target.finish(true);
    let (steps, result) = drive(&mut seq, |step, _| matches!(step, Step::Reset));
    assert_eq!(result, Err(()));
    assert_eq!(steps, vec![flash_end(), Step::Reset]);
}
