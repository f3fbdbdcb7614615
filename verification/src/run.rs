//! One run of a program, from the request for it to its end.
use vstd::prelude::*;

use crate::config::Config;
use crate::ext::{Ext, ExtView, PageAction};
use crate::ids::{PageNumber, ProgramId};
use crate::memory::BASIC_PAGE_SIZE;
use crate::message::{
    all_sent_by, incoming, message_views, outgoing_views, sent_by, IncomingMessage, IncomingView,
    Message, MessageView, OutgoingMessage,
};
use crate::program::{Program, ProgramView};
use crate::result::{accrued, nothing_handled, RunError, RunNextResult, RunResult, RunResultView};
use crate::runner::{Runner, RunnerView};
use crate::storage::{AllocationStorage, MessageQueue, ProgramStorage};

verus! {

/// Where a run enters the code of a program.
#[derive(Clone, Copy, Debug, PartialEq, Eq, Structural)]
pub enum EntryPoint {
    /// Handling of a message.
    Handle,
    /// Initialization.
    Init,
}

impl EntryPoint {
    /// Name of the function that the entry point stands for.
    pub open spec fn spec_name(self) -> &'static str {
        match self {
            EntryPoint::Handle => "handle",
            EntryPoint::Init => "init",
        }
    }
}

impl From<EntryPoint> for &'static str {
    fn from(entry_point: EntryPoint) -> (name: &'static str) {
        match entry_point {
            EntryPoint::Handle => "handle",
            EntryPoint::Init => "init",
        }
    }
}

impl vstd::std_specs::convert::FromSpecImpl<EntryPoint> for &'static str {
    open spec fn obeys_from_spec() -> bool {
        true
    }

    open spec fn from_spec(entry_point: EntryPoint) -> &'static str {
        entry_point.spec_name()
    }
}

/// What a [`PendingRun`] holds.
pub struct PendingView {
    pub program: ProgramView,
    pub message: IncomingView,
    pub entry_point: EntryPoint,
    pub gas_limit: u64,
}

/// A run that waits for the instrumented code of its program.
pub struct PendingRun {
    pub program: Program,
    pub message: IncomingMessage,
    pub entry_point: EntryPoint,
    pub gas_limit: u64,
}

impl View for PendingRun {
    type V = PendingView;

    open spec fn view(&self) -> PendingView {
        PendingView {
            program: self.program@,
            message: self.message@,
            entry_point: self.entry_point,
            gas_limit: self.gas_limit,
        }
    }
}

/// The run in which `program` handles `message`.
pub open spec fn handling(program: ProgramView, message: MessageView) -> PendingView {
    PendingView {
        program,
        message: incoming(message),
        entry_point: EntryPoint::Handle,
        gas_limit: message.gas_limit,
    }
}

/// The run that initializes `program` with a message of the system.
pub open spec fn initializing(
    program: ProgramView,
    id: Seq<u8>,
    payload: Seq<u8>,
    gas_limit: u64,
    value: u128,
) -> PendingView {
    PendingView {
        program,
        message: IncomingView { id, source: ProgramId::system(), payload, gas_limit, value },
        entry_point: EntryPoint::Init,
        gas_limit,
    }
}

impl PendingRun {
    /// Goes on with the instrumented code, or gives up if there is none.
    pub fn instrumented(self, binary: Result<Vec<u8>, String>) -> (run: Result<
        InstrumentedRun,
        RunError,
    >)
        ensures
            match binary {
                Ok(code) => run matches Ok(r) && r@ == (InstrumentedView {
                    run: self@,
                    binary: code@,
                }),
                Err(why) => run == Err::<InstrumentedRun, RunError>(RunError::Instrument(why)),
            },
    {
        match binary {
            Ok(binary) => Ok(
                InstrumentedRun {
                    program: self.program,
                    message: self.message,
                    entry_point: self.entry_point,
                    gas_limit: self.gas_limit,
                    binary,
                },
            ),
            Err(why) => Err(RunError::Instrument(why)),
        }
    }
}

/// What an [`InstrumentedRun`] holds.
pub struct InstrumentedView {
    pub run: PendingView,
    pub binary: Seq<u8>,
}

/// A run that is ready to be entered.
pub struct InstrumentedRun {
    pub program: Program,
    pub message: IncomingMessage,
    pub entry_point: EntryPoint,
    pub gas_limit: u64,
    pub binary: Vec<u8>,
}

impl View for InstrumentedRun {
    type V = InstrumentedView;

    open spec fn view(&self) -> InstrumentedView {
        InstrumentedView {
            run: PendingView {
                program: self.program@,
                message: self.message@,
                entry_point: self.entry_point,
                gas_limit: self.gas_limit,
            },
            binary: self.binary@,
        }
    }
}

/// What an [`Execution`] holds.
pub struct ExecutionView {
    pub config: Config,
    pub programs: Map<ProgramId, ProgramView>,
    pub queue: Seq<MessageView>,
    pub ext: ExtView,
    pub program: ProgramView,
    pub binary: Seq<u8>,
    pub static_area: Seq<u8>,
    pub entry_point: EntryPoint,
}

/// A run that is under way.
///
/// Whoever executes it writes `static_area` to the start of the memory, enters
/// `binary` at `entry_point`, answers what the program asks with `ext`, and
/// then ends the run.
pub struct Execution<AS, MQ, PS> {
    pub program_storage: PS,
    pub message_queue: MQ,
    pub config: Config,
    pub ext: Ext<AS>,
    pub program: Program,
    pub binary: Vec<u8>,
    pub static_area: Vec<u8>,
    pub entry_point: EntryPoint,
    pub gas_limit: u64,
}

impl<AS: AllocationStorage, MQ: MessageQueue, PS: ProgramStorage> View for Execution<AS, MQ, PS> {
    type V = ExecutionView;

    open spec fn view(&self) -> ExecutionView {
        ExecutionView {
            config: self.config,
            programs: self.program_storage.programs(),
            queue: self.message_queue.messages(),
            ext: self.ext@,
            program: self.program@,
            binary: self.binary@,
            static_area: self.static_area@,
            entry_point: self.entry_point,
        }
    }
}

/// The surroundings in which a run starts.
pub open spec fn ext_at_start(runner: RunnerView, run: PendingView) -> ExtView {
    ExtView {
        program_id: run.program.id,
        static_pages: runner.config.static_pages,
        max_pages: runner.config.max_pages,
        memory: runner.memory,
        owners: runner.owners,
        message: run.message,
        outgoing: Seq::empty(),
        reply: None,
        nonce: run.program.message_nonce,
        gas_limit: run.gas_limit,
        gas_left: run.gas_limit,
    }
}

/// Whether `ext` is what surrounds the program `program_id` under `config`.
pub open spec fn surrounds(ext: ExtView, config: Config, program_id: ProgramId) -> bool {
    &&& ext.program_id == program_id
    &&& ext.static_pages == config.static_pages
    &&& ext.max_pages == config.max_pages
    &&& config.static_size() <= ext.memory.len()
}

/// What entering `run` hands to whoever executes it.
pub open spec fn entered(runner: RunnerView, run: InstrumentedView) -> ExecutionView {
    ExecutionView {
        config: runner.config,
        programs: runner.programs,
        queue: runner.queue,
        ext: ext_at_start(runner, run.run),
        program: run.run.program,
        binary: run.binary,
        static_area: run.run.program.static_pages,
        entry_point: run.run.entry_point,
    }
}

/// The program of a run that succeeded, with the state to keep of it.
pub open spec fn program_after(execution: ExecutionView) -> ProgramView {
    ProgramView {
        static_pages: execution.ext.memory.take(execution.config.static_size()),
        message_nonce: execution.ext.nonce,
        ..execution.program
    }
}

/// What a run that succeeded reports.
pub open spec fn reported(
    execution: ExecutionView,
    touched: Seq<(PageNumber, PageAction)>,
) -> RunResultView {
    RunResultView {
        touched,
        messages: execution.ext.outgoing,
        reply: execution.ext.reply,
        gas_left: execution.ext.gas_left,
        gas_spent: (execution.ext.gas_limit - execution.ext.gas_left) as u64,
    }
}

/// The runner after a run that succeeded.
pub open spec fn after_success(execution: ExecutionView) -> RunnerView {
    RunnerView {
        config: execution.config,
        programs: execution.programs.insert(execution.program.id, program_after(execution)),
        queue: execution.queue + all_sent_by(execution.ext.outgoing, execution.program.id),
        memory: execution.ext.memory,
        owners: execution.ext.owners,
    }
}

/// The runner after a run that failed.
pub open spec fn after_failure(execution: ExecutionView) -> RunnerView {
    RunnerView {
        config: execution.config,
        programs: execution.programs,
        queue: execution.queue,
        memory: execution.ext.memory,
        owners: execution.ext.owners,
    }
}

impl<AS: AllocationStorage, MQ: MessageQueue, PS: ProgramStorage> Execution<AS, MQ, PS> {
    /// The parts are in good order, the surroundings are those of the program
    /// under the configuration and the gas limit of the run, and the memory
    /// covers the static pages.
    pub open spec fn wf(&self) -> bool {
        &&& self.program_storage.wf()
        &&& self.message_queue.wf()
        &&& self.ext.wf()
        &&& self.ext@.gas_limit == self.gas_limit
        &&& surrounds(self.ext@, self.config, self.program@.id)
    }

    /// Ends the run.
    ///
    /// `outcome` and `touched` are what executing the program came to. If it
    /// succeeded, the state of the program is saved and its messages are
    /// queued. If it failed, only memory and allocations stay as it left them.
    pub fn end_run(
        self,
        outcome: Result<(), String>,
        touched: Vec<(PageNumber, PageAction)>,
    ) -> (ended: (Runner<AS, MQ, PS>, Result<RunResult, RunError>))
        requires
            self.wf(),
        ensures
            ended.0.wf(),
            ended.0.config == self.config,
            ended.0.memory == self.ext.memory_context.memory,
            ended.0.allocations == self.ext.memory_context.allocations,
            match outcome {
                Ok(()) => {
                    &&& ended.0@ == after_success(self@)
                    &&& ended.0@.memory == self@.ext.memory
                    &&& ended.1 matches Ok(result) && {
                        &&& result@ == reported(self@, touched@)
                        &&& result.touched == touched
                        &&& result.reply == self.ext.messages.reply
                        &&& outgoing_views(result.messages@) == outgoing_views(
                            self.ext.messages.outgoing@,
                        )
                        &&& result.gas_left == self@.ext.gas_left
                        &&& result.gas_left + result.gas_spent == self.gas_limit
                    }
                },
                Err(why) => {
                    &&& ended.0@ == after_failure(self@)
                    &&& ended.0.program_storage == self.program_storage
                    &&& ended.0.message_queue == self.message_queue
                    &&& ended.1 == Err::<RunResult, RunError>(RunError::Execution(why))
                },
            },
    {
        let ghost execution = self@;
        let mut program = self.program;
        let mut program_storage = self.program_storage;
        let mut message_queue = self.message_queue;
        let memory_context = self.ext.memory_context;
        let context = self.ext.messages;
        let result = match outcome {
            Ok(()) => {
                let static_size: usize = self.config.static_pages.raw() as usize * BASIC_PAGE_SIZE;
                program.set_static_pages(memory_context.memory.read(0, static_size));
                program.set_message_nonce(context.nonce());
                assert(program@ == program_after(execution));
                let id = program.id();
                let (outgoing, reply) = context.drain();
                let (messages, queued) = split_outgoing(outgoing, id);
                message_queue.queue_many(queued);
                program_storage.set(program);
                let gas_left: u64 = self.ext.gas_counter.left();
                let gas_spent: u64 = self.gas_limit - gas_left;
                Ok(RunResult { touched, messages, reply, gas_left, gas_spent })
            },
            Err(why) => Err(RunError::Execution(why)),
        };
        (
            Runner {
                program_storage,
                message_queue,
                memory: memory_context.memory,
                allocations: memory_context.allocations,
                config: self.config,
            },
            result,
        )
    }

    /// Ends a run in which a queued message was handled.
    ///
    /// The gas of the run is reported under the source of the message.
    pub fn end_run_next(
        self,
        outcome: Result<(), String>,
        touched: Vec<(PageNumber, PageAction)>,
    ) -> (ended: (Runner<AS, MQ, PS>, Result<RunNextResult, RunError>))
        requires
            self.wf(),
        ensures
            ended.0.wf(),
            ended.0.config == self.config,
            ended.0.memory == self.ext.memory_context.memory,
            ended.0.allocations == self.ext.memory_context.allocations,
            match outcome {
                Ok(()) => {
                    &&& ended.0@ == after_success(self@)
                    &&& ended.1 matches Ok(result) && {
                        &&& result@ == accrued(
                            nothing_handled(),
                            self@.ext.message.source,
                            reported(self@, touched@),
                        )
                        &&& result.handled == 1
                        &&& result.touched@ == touched@
                        &&& result.gas_left@ == seq![
                            (self.ext.messages.current.source, self@.ext.gas_left),
                        ]
                        &&& result.gas_spent@ == seq![
                            (
                                self.ext.messages.current.source,
                                (self.gas_limit - self@.ext.gas_left) as u64,
                            ),
                        ]
                    }
                },
                Err(why) => {
                    &&& ended.0@ == after_failure(self@)
                    &&& ended.0.program_storage == self.program_storage
                    &&& ended.0.message_queue == self.message_queue
                    &&& ended.1 == Err::<RunNextResult, RunError>(RunError::Execution(why))
                },
            },
    {
        let source = self.ext.source();
        let (runner, result) = self.end_run(outcome, touched);
        match result {
            Ok(result) => (runner, Ok(RunNextResult::from_single(source, result))),
            Err(e) => (runner, Err(e)),
        }
    }
}

/// The messages to report and the messages to queue, for what `source` sent.
fn split_outgoing(outgoing: Vec<OutgoingMessage>, source: ProgramId) -> (split: (
    Vec<OutgoingMessage>,
    Vec<Message>,
))
    ensures
        outgoing_views(split.0@) == outgoing_views(outgoing@),
        message_views(split.1@) == all_sent_by(outgoing_views(outgoing@), source),
{
    let ghost all = outgoing@;
    let mut messages: Vec<OutgoingMessage> = Vec::new();
    let mut queued: Vec<Message> = Vec::new();
    for outgoing_msg in it: outgoing
        invariant
            it.seq() == all,
            messages@.len() == it.index(),
            queued@.len() == it.index(),
            forall|j: int| 0 <= j < it.index() ==> (#[trigger] messages@[j])@ == all[j]@,
            forall|j: int|
                0 <= j < it.index() ==> (#[trigger] queued@[j])@ == sent_by(all[j]@, source),
    {
        assert(outgoing_msg == all[it.index() as int]);
        messages.push(outgoing_msg.clone());
        queued.push(outgoing_msg.into_message(source));
    }
    assert(outgoing_views(messages@) =~= outgoing_views(all));
    assert(message_views(queued@) =~= all_sent_by(outgoing_views(all), source));
    (messages, queued)
}

} // verus!
