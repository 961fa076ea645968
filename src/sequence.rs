//! The flash write sequence: begin, then each segment's erase-and-data
//! commands with progress reports, then end.
//!
//! Each operation is a fixed plan of steps. A `Sequence` hands the steps out
//! one at a time; whoever drives it performs each step on the connection (or
//! the progress reporter) and says whether it succeeded. The first step on
//! the connection that fails ends the operation, and nothing after it is
//! performed.
use crate::command::{Command, CommandType, CommandView, Timeout};
use crate::erase::{
    ceil_div, erase_window, get_erase_size, lemma_touched_below_length, FLASH_SECTORS_PER_BLOCK,
    FLASH_SECTOR_SIZE, FLASH_WRITE_SIZE,
};
use vstd::arithmetic::mul::lemma_mul_inequality;
use vstd::prelude::*;

verus! {

/// Bytes to be written at a flash address.
pub struct RomSegment {
    pub addr: u32,
    pub data: Vec<u8>,
}

/// One step of a flash operation.
#[derive(Debug, PartialEq, Eq)]
pub enum Step {
    /// Send the command and wait for the device's response.
    Command { command: Command, timeout: Timeout },
    /// Send the command without waiting for a response.
    CommandNoResponse { command: Command, timeout: Timeout },
    /// Reset the device through the connection.
    Reset,
    /// Tell the progress reporter that `total` chunks are about to go to `addr`.
    ProgressInit { addr: u32, total: usize },
    /// Tell the progress reporter that `current` chunks have been written.
    ProgressUpdate { current: usize },
    /// Tell the progress reporter that the segment is written.
    ProgressFinish,
}

/// A step as a mathematical value.
pub enum StepView {
    Command { command: CommandView, timeout: Timeout },
    CommandNoResponse { command: CommandView, timeout: Timeout },
    Reset,
    ProgressInit { addr: u32, total: usize },
    ProgressUpdate { current: usize },
    ProgressFinish,
}

impl StepView {
    /// Whether the step goes over the connection, and so can fail.
    /// Progress reports cannot.
    pub open spec fn uses_connection(self) -> bool {
        self is Command || self is CommandNoResponse || self is Reset
    }

    /// Whether the step sends a data command.
    pub open spec fn is_data(self) -> bool {
        self matches StepView::Command { command: CommandView::FlashData { .. }, .. }
    }
}

impl View for Step {
    type V = StepView;

    open spec fn view(&self) -> StepView {
        match self {
            Step::Command { command, timeout } => StepView::Command { command: command@, timeout: *timeout },
            Step::CommandNoResponse { command, timeout } => StepView::CommandNoResponse {
                command: command@,
                timeout: *timeout,
            },
            Step::Reset => StepView::Reset,
            Step::ProgressInit { addr, total } => StepView::ProgressInit { addr: *addr, total: *total },
            Step::ProgressUpdate { current } => StepView::ProgressUpdate { current: *current },
            Step::ProgressFinish => StepView::ProgressFinish,
        }
    }
}

/// What the driver of a `Sequence` is to do next.
#[derive(Debug, PartialEq, Eq)]
pub enum Action {
    /// Perform this step, then report whether it succeeded.
    Perform(Step),
    /// Every step succeeded: the operation is done.
    Complete,
    /// The last step failed: the operation ends with that step's error.
    Abort,
}

/// An action as a mathematical value.
pub enum ActionView {
    Perform(StepView),
    Complete,
    Abort,
}

impl View for Action {
    type V = ActionView;

    open spec fn view(&self) -> ActionView {
        match self {
            Action::Perform(step) => ActionView::Perform(step@),
            Action::Complete => ActionView::Complete,
            Action::Abort => ActionView::Abort,
        }
    }
}

/// Where an operation stands.
#[derive(Clone, Copy, Debug, PartialEq, Eq, Structural)]
pub enum Status {
    Running,
    Completed,
    Aborted,
}

/// The priming flash-begin command: nothing to erase, no blocks, at offset 0.
pub open spec fn priming_begin() -> CommandView {
    CommandView::FlashBegin {
        size: 0,
        blocks: 0,
        block_size: FLASH_WRITE_SIZE as u32,
        offset: 0,
        supports_encryption: false,
    }
}

/// Steps of `begin`: the priming flash-begin, under the connection's own timeout.
pub open spec fn begin_plan() -> Seq<StepView> {
    seq![StepView::Command { command: priming_begin(), timeout: Timeout::ConnectionDefault }]
}

/// Steps of `finish`: the flash-end command, which never asks the device
/// itself to reboot, then a connection reset if `reboot` is asked for.
pub open spec fn finish_plan(reboot: bool) -> Seq<StepView> {
    let end = StepView::CommandNoResponse {
        command: CommandView::FlashEnd { reboot: false },
        timeout: Timeout::Fixed(CommandType::FlashEnd),
    };
    if reboot {
        seq![end, StepView::Reset]
    } else {
        seq![end]
    }
}

/// Number of data commands for a payload of `len` bytes.
pub open spec fn chunk_count(len: int) -> int {
    ceil_div(len, FLASH_WRITE_SIZE as int)
}

/// Chunk `i` of a payload: at most `FLASH_WRITE_SIZE` bytes from `i * FLASH_WRITE_SIZE` on.
pub open spec fn chunk(data: Seq<u8>, i: int) -> Seq<u8> {
    let start = i * FLASH_WRITE_SIZE;
    let end = if start + FLASH_WRITE_SIZE < data.len() {
        start + FLASH_WRITE_SIZE
    } else {
        data.len() as int
    };
    data.subrange(start, end)
}

/// Bytes to erase before writing `len` bytes at `addr`, as sent to the device.
pub open spec fn segment_erase_size(addr: u32, len: int) -> u32 {
    erase_window(addr as int, len, FLASH_SECTOR_SIZE as int, FLASH_SECTORS_PER_BLOCK as int) as u32
}

/// The flash-begin step of a segment of `len` bytes at `addr`.
pub open spec fn segment_begin(addr: u32, len: int) -> StepView {
    let erase = segment_erase_size(addr, len);
    StepView::Command {
        command: CommandView::FlashBegin {
            size: erase,
            blocks: chunk_count(len) as u32,
            block_size: FLASH_WRITE_SIZE as u32,
            offset: addr,
            supports_encryption: false,
        },
        timeout: Timeout::Scaled { kind: CommandType::FlashBegin, size: erase },
    }
}

/// The data step for chunk `i` of `data`, padded with 0xff to a full chunk.
pub open spec fn data_step(data: Seq<u8>, i: int) -> StepView {
    StepView::Command {
        command: CommandView::FlashData {
            sequence: i as u32,
            pad_to: FLASH_WRITE_SIZE,
            pad_byte: 0xff,
            data: chunk(data, i),
        },
        timeout: Timeout::ConnectionDefault,
    }
}

/// Step `k` of writing `data` at `addr`: flash-begin, progress init, then
/// for each chunk its data command and a progress update, then progress finish.
pub open spec fn segment_step(addr: u32, data: Seq<u8>, k: int) -> StepView {
    let n = chunk_count(data.len() as int);
    if k == 0 {
        segment_begin(addr, data.len() as int)
    } else if k == 1 {
        StepView::ProgressInit { addr, total: n as usize }
    } else if k < 2 + 2 * n {
        if (k - 2) % 2 == 0 {
            data_step(data, (k - 2) / 2)
        } else {
            StepView::ProgressUpdate { current: ((k - 2) / 2 + 1) as usize }
        }
    } else {
        StepView::ProgressFinish
    }
}

/// Steps of `write_segment` for `data` at `addr`.
pub open spec fn segment_plan(addr: u32, data: Seq<u8>) -> Seq<StepView> {
    Seq::new((2 * chunk_count(data.len() as int) + 3) as nat, |k: int| segment_step(addr, data, k))
}

/// What a running operation does next, given its plan, how many steps have
/// been handed out, and whether the last of them succeeded.
pub open spec fn next_action(plan: Seq<StepView>, done: int, last_ok: bool) -> ActionView {
    if done > 0 && plan[done - 1].uses_connection() && !last_ok {
        ActionView::Abort
    } else if done < plan.len() {
        ActionView::Perform(plan[done])
    } else {
        ActionView::Complete
    }
}

/// A segment of `n` chunks is written as: flash-begin, progress init with
/// `n` chunks, then for each chunk `i` in order its data command, carrying
/// sequence number `i` and the chunk's bytes, followed by a progress update
/// reporting `i + 1` chunks written, and last progress finish. No other step
/// sends data or reports an update, so there are exactly `n` data commands and
/// `n` updates.
pub proof fn lemma_segment_plan_shape(addr: u32, data: Seq<u8>)
    requires
        data.len() <= u32::MAX,
    ensures
        ({
            let plan = segment_plan(addr, data);
            let n = chunk_count(data.len() as int);
            &&& plan.len() == 2 * n + 3
            &&& plan[0] == segment_begin(addr, data.len() as int)
            &&& plan[1] == (StepView::ProgressInit { addr, total: n as usize })
            &&& plan[2 * n + 2] == StepView::ProgressFinish
            &&& forall|i: int|
                0 <= i < n ==> {
                    &&& #[trigger] plan[2 + 2 * i] == data_step(data, i)
                    &&& (data_step(data, i)->Command_command matches CommandView::FlashData { sequence, .. } && sequence
                        == i)
                    &&& plan[3 + 2 * i] is ProgressUpdate
                    &&& plan[3 + 2 * i]->current == i + 1
                }
            &&& forall|k: int|
                0 <= k < plan.len() && #[trigger] plan[k].is_data() ==> 2 <= k < 2 + 2 * n && (k - 2) % 2
                    == 0
            &&& forall|k: int|
                0 <= k < plan.len() && #[trigger] plan[k] is ProgressUpdate ==> 3 <= k < 3 + 2 * n && (k
                    - 3) % 2 == 0
        }),
{
    let plan = segment_plan(addr, data);
    let n = chunk_count(data.len() as int);
    assert(n <= data.len());
    assert forall|i: int| 0 <= i < n implies #[trigger] plan[2 + 2 * i] == data_step(data, i) by {
        assert((2 + 2 * i - 2) / 2 == i);
        assert((3 + 2 * i - 2) / 2 == i);
    }
}

/// A write of no bytes erases nothing and sends no data command: flash-begin
/// with size and block count 0, then progress init with 0 chunks, then
/// progress finish.
pub proof fn lemma_empty_segment_plan(addr: u32)
    ensures
        segment_plan(addr, Seq::empty()) == seq![
            segment_begin(addr, 0),
            StepView::ProgressInit { addr, total: 0 },
            StepView::ProgressFinish,
        ],
        segment_erase_size(addr, 0) == 0,
        segment_begin(addr, 0)->Command_command matches CommandView::FlashBegin { size, blocks, .. } && size == 0
            && blocks == 0,
{
    crate::erase::lemma_erase_window_empty(addr as int, FLASH_SECTOR_SIZE as int, FLASH_SECTORS_PER_BLOCK as int);
    assert(segment_plan(addr, Seq::empty()) =~= seq![
        segment_begin(addr, 0),
        StepView::ProgressInit { addr, total: 0 },
        StepView::ProgressFinish,
    ]);
}

/// When the data command for chunk `i` fails, the write stops there: the
/// next action is to abort, by then exactly the chunks before `i` have been
/// reported written, and no data command for a later chunk was handed out.
pub proof fn lemma_failed_data_aborts(addr: u32, data: Seq<u8>, i: int)
    requires
        data.len() <= u32::MAX,
        0 <= i < chunk_count(data.len() as int),
    ensures
        ({
            let plan = segment_plan(addr, data);
            &&& plan[2 + 2 * i] == data_step(data, i)
            &&& next_action(plan, 3 + 2 * i, false) == ActionView::Abort
            &&& forall|k: int|
                0 <= k < 3 + 2 * i && #[trigger] plan[k] is ProgressUpdate ==> plan[k]->current < i + 1
            &&& i > 0 ==> plan[1 + 2 * i] == (StepView::ProgressUpdate { current: i as usize })
            &&& forall|k: int|
                0 <= k < 3 + 2 * i && #[trigger] plan[k].is_data() ==> k == 2 + 2 * ((k - 2) / 2) && (k
                    - 2) / 2 <= i
        }),
{
    lemma_segment_plan_shape(addr, data);
    let plan = segment_plan(addr, data);
    if i > 0 {
        assert(plan[3 + 2 * (i - 1)] == (StepView::ProgressUpdate { current: i as usize }));
    }
}

enum Operation {
    Begin,
    WriteSegment(RomSegment),
    Finish(bool),
}

/// One flash operation in progress.
pub struct Sequence {
    operation: Operation,
    done: usize,
    status: Status,
}

/// Number of data commands for `len` bytes.
fn chunk_total(len: usize) -> (r: usize)
    ensures
        r == chunk_count(len as int),
        r <= len,
{
    len / FLASH_WRITE_SIZE + if len % FLASH_WRITE_SIZE == 0 { 0usize } else { 1usize }
}

/// Copy of chunk `i` of `data`.
fn chunk_bytes(data: &Vec<u8>, i: usize) -> (r: Vec<u8>)
    requires
        i < chunk_count(data@.len() as int),
    ensures
        r@ == chunk(data@, i as int),
{
    let len: usize = data.len();
    proof {
        let n = chunk_count(data@.len() as int);
        lemma_touched_below_length(data@.len() as int, FLASH_WRITE_SIZE as int);
        assert((n - 1) * FLASH_WRITE_SIZE < data@.len());
        lemma_mul_inequality(i as int, n - 1, FLASH_WRITE_SIZE as int);
        assert(i * FLASH_WRITE_SIZE < data@.len());
    }
    let start: usize = i * FLASH_WRITE_SIZE;
    let end: usize = if len - start > FLASH_WRITE_SIZE {
        start + FLASH_WRITE_SIZE
    } else {
        len
    };
    let mut out: Vec<u8> = Vec::new();
    let mut j: usize = start;
    while j < end
        invariant
            start <= j <= end <= data@.len(),
            out@ == data@.subrange(start as int, j as int),
        decreases end - j,
    {
        out.push(data[j]);
        j = j + 1;
    }
    out
}

impl Sequence {
    /// The steps of this operation.
    pub closed spec fn plan(&self) -> Seq<StepView> {
        match self.operation {
            Operation::Begin => begin_plan(),
            Operation::WriteSegment(segment) => segment_plan(segment.addr, segment.data@),
            Operation::Finish(reboot) => finish_plan(reboot),
        }
    }

    /// How many steps have been handed out.
    pub closed spec fn steps_done(&self) -> nat {
        self.done as nat
    }

    /// Where the operation stands.
    pub closed spec fn state(&self) -> Status {
        self.status
    }

    /// No more steps handed out than the plan holds.
    pub closed spec fn wf(&self) -> bool {
        self.done <= self.plan().len()
    }

    fn new(operation: Operation) -> (r: Sequence)
        ensures
            r.wf(),
            r.steps_done() == 0,
            r.state() == Status::Running,
            r.operation == operation,
    {
        Sequence { operation, done: 0, status: Status::Running }
    }

    /// Where the operation stands.
    pub fn status(&self) -> (r: Status)
        ensures
            r == self.state(),
    {
        self.status
    }

    /// Whether step `k` goes over the connection.
    fn uses_connection_at(&self, k: usize) -> (r: bool)
        requires
            self.wf(),
            k < self.plan().len(),
        ensures
            r == self.plan()[k as int].uses_connection(),
    {
        match &self.operation {
            Operation::Begin => true,
            Operation::Finish(_) => true,
            Operation::WriteSegment(segment) => {
                let n = chunk_total(segment.data.len());
                k == 0 || (k >= 2 && k - 2 < 2 * n && (k - 2) % 2 == 0)
            },
        }
    }

    /// Step `k` of the plan.
    fn step_at(&self, k: usize) -> (r: Step)
        requires
            self.wf(),
            k < self.plan().len(),
        ensures
            r@ == self.plan()[k as int],
    {
        match &self.operation {
            Operation::Begin => Step::Command {
                command: Command::FlashBegin {
                    size: 0,
                    blocks: 0,
                    block_size: FLASH_WRITE_SIZE as u32,
                    offset: 0,
                    supports_encryption: false,
                },
                timeout: Timeout::ConnectionDefault,
            },
            Operation::Finish(_) => {
                if k == 0 {
                    Step::CommandNoResponse {
                        command: Command::FlashEnd { reboot: false },
                        timeout: Timeout::Fixed(CommandType::FlashEnd),
                    }
                } else {
                    Step::Reset
                }
            },
            Operation::WriteSegment(segment) => {
                let len = segment.data.len();
                let n = chunk_total(len);
                if k == 0 {
                    let erase = get_erase_size(segment.addr as usize, len) as u32;
                    Step::Command {
                        command: Command::FlashBegin {
                            size: erase,
                            blocks: n as u32,
                            block_size: FLASH_WRITE_SIZE as u32,
                            offset: segment.addr,
                            supports_encryption: false,
                        },
                        timeout: Timeout::Scaled { kind: CommandType::FlashBegin, size: erase },
                    }
                } else if k == 1 {
                    Step::ProgressInit { addr: segment.addr, total: n }
                } else if k - 2 < 2 * n {
                    let i = (k - 2) / 2;
                    if (k - 2) % 2 == 0 {
                        Step::Command {
                            command: Command::FlashData {
                                sequence: i as u32,
                                pad_to: FLASH_WRITE_SIZE,
                                pad_byte: 0xff,
                                data: chunk_bytes(&segment.data, i),
                            },
                            timeout: Timeout::ConnectionDefault,
                        }
                    } else {
                        Step::ProgressUpdate { current: i + 1 }
                    }
                } else {
                    Step::ProgressFinish
                }
            },
        }
    }

    /// Hands out the next step. `last_ok` says whether the step handed out
    /// last succeeded; it is ignored before the first step and after a
    /// progress report.
    pub fn advance(&mut self, last_ok: bool) -> (r: Action)
        requires
            old(self).wf(),
            old(self).state() == Status::Running,
        ensures
            final(self).wf(),
            final(self).plan() == old(self).plan(),
            r@ == next_action(old(self).plan(), old(self).steps_done() as int, last_ok),
            r is Perform ==> final(self).state() == Status::Running && final(self).steps_done()
                == old(self).steps_done() + 1,
            r is Complete ==> final(self).state() == Status::Completed && final(self).steps_done()
                == old(self).steps_done(),
            r is Abort ==> final(self).state() == Status::Aborted && final(self).steps_done()
                == old(self).steps_done(),
    {
        let done = self.done;
        if done > 0 && !last_ok && self.uses_connection_at(done - 1) {
            self.status = Status::Aborted;
            Action::Abort
        } else if done < self.plan_len() {
            let step = self.step_at(done);
            self.done = done + 1;
            Action::Perform(step)
        } else {
            self.status = Status::Completed;
            Action::Complete
        }
    }

    /// Number of steps in the plan.
    fn plan_len(&self) -> (r: usize)
        ensures
            r == self.plan().len(),
    {
        match &self.operation {
            Operation::Begin => 1,
            Operation::Finish(reboot) => if *reboot { 2 } else { 1 },
            Operation::WriteSegment(segment) => 2 * chunk_total(segment.data.len()) + 3,
        }
    }
}

/// Applications running from an ESP8266's flash.
pub struct Esp8266Target;

impl Esp8266Target {
    pub fn new() -> Self {
        Esp8266Target
    }

    /// Opens a flashing session with the priming flash-begin command.
    pub fn begin(&self) -> (r: Sequence)
        ensures
            r.wf(),
            r.plan() == begin_plan(),
            r.steps_done() == 0,
            r.state() == Status::Running,
    {
        Sequence::new(Operation::Begin)
    }

    /// Writes one segment: flash-begin with its erase window, then its
    /// chunks in order, reporting progress along the way.
    pub fn write_segment(&self, segment: RomSegment) -> (r: Sequence)
        ensures
            r.wf(),
            r.plan() == segment_plan(segment.addr, segment.data@),
            r.steps_done() == 0,
            r.state() == Status::Running,
    {
        Sequence::new(Operation::WriteSegment(segment))
    }

    /// Ends the session, resetting the device afterwards if `reboot`. The
    /// flash-end command itself always carries `reboot: false`: the device is
    /// rebooted by the connection's reset, never by that command.
    pub fn finish(&self, reboot: bool) -> (r: Sequence)
        ensures
            r.wf(),
            r.plan() == finish_plan(reboot),
            r.steps_done() == 0,
            r.state() == Status::Running,
    {
        Sequence::new(Operation::Finish(reboot))
    }
}

} // verus!
