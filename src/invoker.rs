use vstd::prelude::*;

verus! {

/// What the host is asked to do next while running the generated program.
#[derive(Debug, PartialEq, Eq, Structural, Clone, Copy)]
pub enum Step {
    /// Ask the generated program for the byte size of its entry point's result.
    QueryEntrySize,
    /// Allocate a buffer of exactly `size` bytes and report it.
    Allocate { size: usize },
    /// Run the entry point, writing its result into `output`.
    RunEntry { output: usize },
    /// Ask the generated program for the byte size of its effect's result.
    QueryResultSize,
    /// Run the effect continuation on `closure_data`, writing into `output`.
    RunContinuation { closure_data: usize, output: usize },
    /// Free the buffer `buffer`.
    Release { buffer: usize },
    /// All work is done: exit with status 0.
    Finish,
    /// The protocol cannot go on: terminate the process.
    Abort,
}

/// What the host reports back after doing what a `Step` asked.
#[derive(Debug, PartialEq, Eq, Structural, Clone, Copy)]
pub enum Signal {
    /// The host is ready to begin.
    Start,
    /// The answer to a size query.
    SizeReported { size: i64 },
    /// The address of a buffer that was allocated.
    Allocated { buffer: usize },
    /// A run or a release has returned.
    Completed,
}

/// Where a run stands: what the invoker waits for next.
#[derive(Debug, PartialEq, Eq, Structural, Clone, Copy)]
pub enum Stage {
    Idle,
    AwaitEntrySize,
    AwaitEntryBuffer,
    RunningEntry,
    AwaitResultSize,
    AwaitResultBuffer,
    RunningContinuation,
    ReleasingResult,
    ReleasingEntry,
    Finished,
    Aborted,
}

/// A size reported by the generated program, as a buffer length, when it can
/// be one: neither negative nor above the largest allocation size.
pub open spec fn usable(size: i64) -> bool {
    0 <= size <= isize::MAX
}

/// The buffer length for a reported size, or `None` when the size cannot be
/// allocated.
pub fn usable_size(size: i64) -> (r: Option<usize>)
    ensures
        r == (if usable(size) { Some(size as usize) } else { None::<usize> }),
{
    if size < 0 || size as i128 > isize::MAX as i128 {
        None
    } else {
        Some(size as usize)
    }
}

/// Drives the two-phase protocol that runs the generated program: the size of
/// each buffer is asked of the program itself, the buffer is allocated, the
/// entry point and then the continuation run, and both buffers are freed.
pub struct ClosureInvoker {
    pub stage: Stage,
    pub entry_size: usize,
    pub entry_buffer: usize,
    pub result_size: usize,
    pub result_buffer: usize,
    /// The signals received so far.
    pub signals: Ghost<Seq<Signal>>,
    /// The steps handed out so far.
    pub steps: Ghost<Seq<Step>>,
}

impl ClosureInvoker {
    /// The steps of a whole run, in order, for the given sizes and buffers.
    pub open spec fn run_steps(es: usize, eb: usize, rs: usize, rb: usize) -> Seq<Step> {
        seq![
            Step::QueryEntrySize,
            Step::Allocate { size: es },
            Step::RunEntry { output: eb },
            Step::QueryResultSize,
            Step::Allocate { size: rs },
            Step::RunContinuation { closure_data: eb, output: rb },
            Step::Release { buffer: rb },
            Step::Release { buffer: eb },
            Step::Finish,
        ]
    }

    /// The signals of a whole run, in order, for the given sizes and buffers.
    pub open spec fn run_signals(es: usize, eb: usize, rs: usize, rb: usize) -> Seq<Signal> {
        seq![
            Signal::Start,
            Signal::SizeReported { size: es as i64 },
            Signal::Allocated { buffer: eb },
            Signal::Completed,
            Signal::SizeReported { size: rs as i64 },
            Signal::Allocated { buffer: rb },
            Signal::Completed,
            Signal::Completed,
            Signal::Completed,
        ]
    }

    /// How many steps have been handed out in each stage but `Aborted`.
    pub open spec fn progress(stage: Stage) -> nat {
        match stage {
            Stage::Idle => 0,
            Stage::AwaitEntrySize => 1,
            Stage::AwaitEntryBuffer => 2,
            Stage::RunningEntry => 3,
            Stage::AwaitResultSize => 4,
            Stage::AwaitResultBuffer => 5,
            Stage::RunningContinuation => 6,
            Stage::ReleasingResult => 7,
            Stage::ReleasingEntry => 8,
            _ => 9,
        }
    }

    pub open spec fn wf(&self) -> bool {
        &&& self.entry_size <= isize::MAX
        &&& self.result_size <= isize::MAX
        &&& if self.stage == Stage::Aborted {
            self.steps@.len() > 0 && self.steps@.last() == Step::Abort
        } else {
            let ghost k = Self::progress(self.stage) as int;
            &&& self.steps@ == Self::run_steps(
                self.entry_size,
                self.entry_buffer,
                self.result_size,
                self.result_buffer,
            ).take(k)
            &&& self.signals@ == Self::run_signals(
                self.entry_size,
                self.entry_buffer,
                self.result_size,
                self.result_buffer,
            ).take(k)
        }
    }

    pub open spec fn is_finished(&self) -> bool {
        self.stage == Stage::Finished
    }

    pub fn new() -> (r: Self)
        ensures
            r.wf(),
            r.stage == Stage::Idle,
            r.steps@ == Seq::<Step>::empty(),
            r.signals@ == Seq::<Signal>::empty(),
    {
        let r = ClosureInvoker {
            stage: Stage::Idle,
            entry_size: 0,
            entry_buffer: 0,
            result_size: 0,
            result_buffer: 0,
            signals: Ghost(Seq::empty()),
            steps: Ghost(Seq::empty()),
        };
        assert(r.steps@ =~= Self::run_steps(0, 0, 0, 0).take(0));
        assert(r.signals@ =~= Self::run_signals(0, 0, 0, 0).take(0));
        r
    }

    /// The step that follows `signal` in the given stage, with the stored
    /// sizes and buffers.
    pub open spec fn next_step(&self, signal: Signal) -> Step {
        match (self.stage, signal) {
            (Stage::Idle, Signal::Start) => Step::QueryEntrySize,
            (Stage::AwaitEntrySize, Signal::SizeReported { size }) => if usable(size) {
                Step::Allocate { size: size as usize }
            } else {
                Step::Abort
            },
            (Stage::AwaitEntryBuffer, Signal::Allocated { buffer }) => Step::RunEntry {
                output: buffer,
            },
            (Stage::RunningEntry, Signal::Completed) => Step::QueryResultSize,
            (Stage::AwaitResultSize, Signal::SizeReported { size }) => if usable(size) {
                Step::Allocate { size: size as usize }
            } else {
                Step::Abort
            },
            (Stage::AwaitResultBuffer, Signal::Allocated { buffer }) => Step::RunContinuation {
                closure_data: self.entry_buffer,
                output: buffer,
            },
            (Stage::RunningContinuation, Signal::Completed) => Step::Release {
                buffer: self.result_buffer,
            },
            (Stage::ReleasingResult, Signal::Completed) => Step::Release {
                buffer: self.entry_buffer,
            },
            (Stage::ReleasingEntry, Signal::Completed) => Step::Finish,
            _ => Step::Abort,
        }
    }

    /// Takes what the host reports and says what it must do next. A signal
    /// that does not fit the stage, or a size that cannot be allocated,
    /// aborts the run.
    pub fn advance(&mut self, signal: Signal) -> (r: Step)
        requires
            old(self).wf(),
        ensures
            final(self).wf(),
            r == old(self).next_step(signal),
            final(self).steps@ == old(self).steps@.push(r),
            r == Step::Abort <==> final(self).stage == Stage::Aborted,
            r == Step::Finish <==> final(self).is_finished(),
            final(self).stage != Stage::Aborted ==> final(self).signals@ == old(
                self,
            ).signals@.push(signal),
    {
        let ghost es = self.entry_size;
        let ghost eb = self.entry_buffer;
        let ghost rs = self.result_size;
        let ghost rb = self.result_buffer;
        let step = match (self.stage, signal) {
            (Stage::Idle, Signal::Start) => {
                self.stage = Stage::AwaitEntrySize;
                Step::QueryEntrySize
            },
            (Stage::AwaitEntrySize, Signal::SizeReported { size }) => match usable_size(size) {
                Some(n) => {
                    self.entry_size = n;
                    self.stage = Stage::AwaitEntryBuffer;
                    Step::Allocate { size: n }
                },
                None => {
                    self.stage = Stage::Aborted;
                    Step::Abort
                },
            },
            (Stage::AwaitEntryBuffer, Signal::Allocated { buffer }) => {
                self.entry_buffer = buffer;
                self.stage = Stage::RunningEntry;
                Step::RunEntry { output: buffer }
            },
            (Stage::RunningEntry, Signal::Completed) => {
                self.stage = Stage::AwaitResultSize;
                Step::QueryResultSize
            },
            (Stage::AwaitResultSize, Signal::SizeReported { size }) => match usable_size(size) {
                Some(n) => {
                    self.result_size = n;
                    self.stage = Stage::AwaitResultBuffer;
                    Step::Allocate { size: n }
                },
                None => {
                    self.stage = Stage::Aborted;
                    Step::Abort
                },
            },
            (Stage::AwaitResultBuffer, Signal::Allocated { buffer }) => {
                self.result_buffer = buffer;
                self.stage = Stage::RunningContinuation;
                Step::RunContinuation { closure_data: self.entry_buffer, output: buffer }
            },
            (Stage::RunningContinuation, Signal::Completed) => {
                self.stage = Stage::ReleasingResult;
                Step::Release { buffer: self.result_buffer }
            },
            (Stage::ReleasingResult, Signal::Completed) => {
                self.stage = Stage::ReleasingEntry;
                Step::Release { buffer: self.entry_buffer }
            },
            (Stage::ReleasingEntry, Signal::Completed) => {
                self.stage = Stage::Finished;
                Step::Finish
            },
            _ => {
                self.stage = Stage::Aborted;
                Step::Abort
            },
        };
        self.steps = Ghost(self.steps@.push(step));
        if self.stage != Stage::Aborted {
            self.signals = Ghost(self.signals@.push(signal));
            let ghost k = Self::progress(self.stage) as int;
            assert(self.steps@ =~= Self::run_steps(
                self.entry_size,
                self.entry_buffer,
                self.result_size,
                self.result_buffer,
            ).take(k));
            assert(self.signals@ =~= Self::run_signals(
                self.entry_size,
                self.entry_buffer,
                self.result_size,
                self.result_buffer,
            ).take(k));
        }
        step
    }
}

/// The buffer law of the protocol: a run that finished allocated exactly two
/// buffers, whose sizes are the two sizes the generated program reported, in
/// that order; and it freed each of the two buffers it was given exactly
/// once, the result buffer and then the entry buffer, both after the
/// continuation returned, whatever that continuation did.
pub proof fn lemma_finished_run_balances_buffers(inv: &ClosureInvoker)
    requires
        inv.wf(),
        inv.is_finished(),
    ensures
        inv.signals@.len() == 9,
        inv.steps@.len() == 9,
        inv.signals@[1] == (Signal::SizeReported { size: inv.entry_size as i64 }),
        inv.signals@[2] == (Signal::Allocated { buffer: inv.entry_buffer }),
        inv.signals@[4] == (Signal::SizeReported { size: inv.result_size as i64 }),
        inv.signals@[5] == (Signal::Allocated { buffer: inv.result_buffer }),
        forall|i: int|
            0 <= i < 9 && (#[trigger] inv.steps@[i] is Allocate) ==> i == 1 || i == 4,
        inv.steps@[1] == (Step::Allocate { size: inv.entry_size }),
        inv.steps@[4] == (Step::Allocate { size: inv.result_size }),
        forall|i: int| 0 <= i < 9 && (#[trigger] inv.steps@[i] is Release) ==> i == 6 || i == 7,
        inv.steps@[6] == (Step::Release { buffer: inv.result_buffer }),
        inv.steps@[7] == (Step::Release { buffer: inv.entry_buffer }),
        inv.steps@[5] == (Step::RunContinuation {
            closure_data: inv.entry_buffer,
            output: inv.result_buffer,
        }),
{
    let s = ClosureInvoker::run_steps(
        inv.entry_size,
        inv.entry_buffer,
        inv.result_size,
        inv.result_buffer,
    );
    assert(s.take(9) =~= s);
    let g = ClosureInvoker::run_signals(
        inv.entry_size,
        inv.entry_buffer,
        inv.result_size,
        inv.result_buffer,
    );
    assert(g.take(9) =~= g);
}

} // verus!
