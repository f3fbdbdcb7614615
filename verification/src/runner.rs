//! Running programs on queued messages.
use vstd::prelude::*;
use vstd::slice::slice_to_vec;

use crate::allocation::{Allocations, MemoryContext};
use crate::config::Config;
use crate::context::MessageContext;
use crate::ext::Ext;
use crate::gas::GasCounterLimited;
use crate::id_generator::{id_bytes, BlakeMessageIdGenerator};
use crate::ids::{MessageId, PageNumber, ProgramId};
use crate::laws::{performs, Operation};
use crate::memory::{pages_fit, zeros, LinearMemory, BASIC_PAGE_SIZE};
use crate::message::{outgoing_views, IncomingMessage, Message, MessageView, OutgoingView};
use crate::program::{fresh_program, Program, ProgramView};
use crate::result::{nothing_handled, one_logged, RunError, RunNextResult};
use crate::run::{
    entered, handling, initializing, EntryPoint, Execution, InstrumentedRun, PendingRun,
};
use crate::storage::{AllocationStorage, MessageQueue, ProgramStorage, Storage};

verus! {

/// What is to be done about the next message.
pub enum NextStep {
    /// Nothing more; the queue was empty.
    Done(RunNextResult),
    /// The message is to be logged; there is nothing else to do about it.
    Log(Message, RunNextResult),
    /// The program is to be run.
    Execute(PendingRun),
}

/// What a [`Runner`] holds.
pub struct RunnerView {
    pub config: Config,
    pub programs: Map<ProgramId, ProgramView>,
    pub queue: Seq<MessageView>,
    pub memory: Seq<u8>,
    pub owners: Map<PageNumber, ProgramId>,
}

/// Runner instance.
///
/// This instance allows to handle multiple messages using underlying
/// allocation, message and program storage.
pub struct Runner<AS, MQ, PS> {
    pub program_storage: PS,
    pub message_queue: MQ,
    pub memory: LinearMemory,
    pub allocations: Allocations<AS>,
    pub config: Config,
}

impl<AS: AllocationStorage, MQ: MessageQueue, PS: ProgramStorage> View for Runner<AS, MQ, PS> {
    type V = RunnerView;

    open spec fn view(&self) -> RunnerView {
        RunnerView {
            config: self.config,
            programs: self.program_storage.programs(),
            queue: self.message_queue.messages(),
            memory: self.memory@,
            owners: self.allocations.owners(),
        }
    }
}

/// The memory that a runner starts with: static pages, then what persists.
pub open spec fn initial_memory(config: Config, persistent_memory: Seq<u8>) -> Seq<u8> {
    zeros(config.static_size() as nat) + persistent_memory
}

/// The part of a memory that outlives the runner.
pub open spec fn persistent_part(config: Config, memory: Seq<u8>) -> Seq<u8> {
    memory.skip(config.static_size())
}

/// The program that messages of the system are named after.
pub open spec fn system_program(programs: Map<ProgramId, ProgramView>) -> ProgramView {
    if programs.contains_key(ProgramId::system()) {
        programs[ProgramId::system()]
    } else {
        fresh_program(ProgramId::system(), Seq::empty())
    }
}

/// Bytes of the identifier of the next message of the system.
pub open spec fn next_system_id(programs: Map<ProgramId, ProgramView>) -> Seq<u8> {
    id_bytes(ProgramId::system(), system_program(programs).message_nonce)
}

/// `programs` once the system has named one more message.
pub open spec fn system_advanced(programs: Map<ProgramId, ProgramView>) -> Map<
    ProgramId,
    ProgramView,
> {
    programs.insert(
        ProgramId::system(),
        ProgramView {
            message_nonce: (system_program(programs).message_nonce + 1) as u64,
            ..system_program(programs)
        },
    )
}

/// `runner` with the next message, if there is one, taken out of the queue.
pub open spec fn after_dequeue(runner: RunnerView) -> RunnerView {
    if runner.queue.len() == 0 {
        runner
    } else {
        RunnerView { queue: runner.queue.skip(1), ..runner }
    }
}

/// `runner` once the system has queued a message.
pub open spec fn after_queueing(
    runner: RunnerView,
    destination: ProgramId,
    payload: Seq<u8>,
    gas_limit: u64,
    value: u128,
) -> RunnerView {
    RunnerView {
        programs: system_advanced(runner.programs),
        queue: runner.queue.push(
            MessageView {
                id: next_system_id(runner.programs),
                source: ProgramId::system(),
                dest: destination,
                payload,
                gas_limit,
                value,
            },
        ),
        ..runner
    }
}

/// `runner` once the program `program_id` has been put in place and the message
/// that initializes it has been named.
pub open spec fn after_init(runner: RunnerView, program_id: ProgramId, code: Seq<u8>) -> RunnerView {
    RunnerView {
        programs: system_advanced(
            runner.programs.insert(program_id, fresh_program(program_id, code)),
        ),
        ..runner
    }
}

impl<AS: AllocationStorage, MQ: MessageQueue, PS: ProgramStorage> Runner<AS, MQ, PS> {
    /// The parts are in good order, and the memory covers the static pages.
    pub open spec fn wf(&self) -> bool {
        &&& self.program_storage.wf()
        &&& self.message_queue.wf()
        &&& self.memory.wf()
        &&& self.allocations.wf()
        &&& self.config.static_size() <= self.memory@.len()
    }

    /// New runner instance.
    ///
    /// Provide configuration, storage and memory state.
    pub fn new(config: &Config, storage: Storage<AS, MQ, PS>, persistent_memory: &[u8]) -> (runner:
        Self)
        requires
            storage.wf(),
            persistent_memory@.len() % (BASIC_PAGE_SIZE as nat) == 0,
            pages_fit(config.static_pages.raw + persistent_memory@.len() / (BASIC_PAGE_SIZE as nat)),
        ensures
            runner.wf(),
            runner@ == (RunnerView {
                config: *config,
                programs: storage.program_storage.programs(),
                queue: storage.message_queue.messages(),
                memory: initial_memory(*config, persistent_memory@),
                owners: storage.allocation_storage.owners(),
            }),
            runner.config == *config,
            runner.memory@.len() == config.static_pages.raw * 65536 + persistent_memory@.len(),
            runner.memory@.skip(config.static_pages.raw * 65536) == persistent_memory@,
            runner.program_storage == storage.program_storage,
            runner.message_queue == storage.message_queue,
            runner.allocations.record() == storage.allocation_storage,
    {
        // memory need to be at least static_pages + persistent_memory length (in pages)
        let persistent_pages: usize = persistent_memory.len() / BASIC_PAGE_SIZE;
        let total_pages: u32 = config.static_pages.raw() + persistent_pages as u32;
        let mut memory = LinearMemory::new(total_pages);
        let persistent_region_start: usize = config.static_pages.raw() as usize * BASIC_PAGE_SIZE;
        let _ = memory.write(persistent_region_start, persistent_memory);
        assert(memory@ =~= initial_memory(*config, persistent_memory@));
        Runner {
            program_storage: storage.program_storage,
            message_queue: storage.message_queue,
            memory,
            allocations: Allocations::new(storage.allocation_storage),
            config: *config,
        }
    }

    /// Drop this runner.
    ///
    /// This will return underlying storage and memory state.
    pub fn complete(self) -> (completed: (Storage<AS, MQ, PS>, Vec<u8>))
        requires
            self.wf(),
        ensures
            completed.0.wf(),
            completed.0.program_storage == self.program_storage,
            completed.0.message_queue == self.message_queue,
            completed.0.allocation_storage == self.allocations.record(),
            completed.0.allocation_storage.owners() == self@.owners,
            completed.1@ == persistent_part(self@.config, self@.memory),
            completed.1@ == self.memory@.subrange(
                self.config.static_pages.raw * 65536,
                self.memory@.len() as int,
            ),
    {
        let start: usize = self.static_pages().raw() as usize * BASIC_PAGE_SIZE;
        let size: usize = self.memory.data_size() - start;
        let persistent_memory: Vec<u8> = self.memory.read(start, size);
        assert(persistent_memory@ =~= persistent_part(self@.config, self@.memory));
        (
            Storage {
                allocation_storage: self.allocations.drain(),
                message_queue: self.message_queue,
                program_storage: self.program_storage,
            },
            persistent_memory,
        )
    }

    /// Static pages configuration of this runner.
    pub fn static_pages(&self) -> (pages: PageNumber)
        ensures
            pages == self@.config.static_pages,
    {
        self.config.static_pages
    }

    /// Max pages configuration of this runner.
    pub fn max_pages(&self) -> (pages: PageNumber)
        ensures
            pages == self@.config.max_pages,
    {
        self.config.max_pages
    }

    /// Handles the next message in the queue, as far as that takes no program.
    ///
    /// A message for the system is only to be logged. One for a program is
    /// taken out of the queue and handed on together with that program.
    pub fn run_next(&mut self) -> (step: Result<NextStep, RunError>)
        requires
            old(self).wf(),
        ensures
            final(self).wf(),
            final(self)@ == after_dequeue(old(self)@),
            performs(old(self)@, Operation::Dequeueing, final(self)@),
            final(self).program_storage == old(self).program_storage,
            final(self).memory == old(self).memory,
            final(self).allocations == old(self).allocations,
            final(self).config == old(self).config,
            step matches Ok(NextStep::Execute(run)) ==> {
                &&& run.program@ == old(self)@.programs[old(self)@.queue[0].dest]
                &&& run.message.id.bytes@ == old(self)@.queue[0].id
                &&& run.message.source == old(self)@.queue[0].source
                &&& run.message.payload@ == old(self)@.queue[0].payload
                &&& run.message.gas_limit == old(self)@.queue[0].gas_limit
                &&& run.message.value == old(self)@.queue[0].value
                &&& run.gas_limit == old(self)@.queue[0].gas_limit
                &&& run.entry_point == EntryPoint::Handle
            },
            if old(self)@.queue.len() == 0 {
                step matches Ok(NextStep::Done(result)) && result@ == nothing_handled()
            } else if old(self)@.queue[0].dest == ProgramId::system() {
                step matches Ok(NextStep::Log(message, result)) && message@ == old(self)@.queue[0]
                    && result@ == one_logged()
            } else if !old(self)@.programs.contains_key(old(self)@.queue[0].dest) {
                step matches Err(RunError::ProgramNotFound)
            } else {
                step matches Ok(NextStep::Execute(run)) && run@ == handling(
                    old(self)@.programs[old(self)@.queue[0].dest],
                    old(self)@.queue[0],
                )
            },
    {
        let next_message = match self.message_queue.dequeue() {
            Some(msg) => msg,
            None => {
                return Ok(NextStep::Done(RunNextResult::empty()));
            },
        };
        if next_message.dest() == ProgramId::default() {
            Ok(NextStep::Log(next_message, RunNextResult::log()))
        } else {
            let program = match self.program_storage.get(next_message.dest()) {
                Some(program) => program,
                None => {
                    return Err(RunError::ProgramNotFound);
                },
            };
            let gas_limit: u64 = next_message.gas_limit();
            Ok(
                NextStep::Execute(
                    PendingRun {
                        program,
                        message: next_message.into(),
                        entry_point: EntryPoint::Handle,
                        gas_limit,
                    },
                ),
            )
        }
    }

    /// Initialize new program.
    ///
    /// This includes putting this program in the storage and dispatching
    /// initialization message for it.
    pub fn init_program(
        &mut self,
        program_id: ProgramId,
        code: Vec<u8>,
        init_msg: Vec<u8>,
        gas_limit: u64,
        value: u128,
    ) -> (run: PendingRun)
        requires
            old(self).wf(),
            system_program(
                old(self)@.programs.insert(program_id, fresh_program(program_id, code@)),
            ).message_nonce < u64::MAX,
        ensures
            final(self).wf(),
            final(self)@ == after_init(old(self)@, program_id, code@),
            performs(
                old(self)@,
                (Operation::Initializing { program_id, code: code@ }),
                final(self)@,
            ),
            run@ == initializing(
                fresh_program(program_id, code@),
                next_system_id(
                    old(self)@.programs.insert(program_id, fresh_program(program_id, code@)),
                ),
                init_msg@,
                gas_limit,
                value,
            ),
            final(self).message_queue == old(self).message_queue,
            final(self).memory == old(self).memory,
            final(self).allocations == old(self).allocations,
            final(self).config == old(self).config,
            run.program@.id == program_id,
            run.program@.code == code@,
            run.program@.static_pages.len() == 0,
            run.program@.message_nonce == 0,
            run.message.source == ProgramId::system(),
            run.message.payload == init_msg,
            run.message.gas_limit == gas_limit,
            run.message.value == value,
            run.gas_limit == gas_limit,
            run.entry_point == EntryPoint::Init,
    {
        proof {
            self.program_storage.keyed_by_id();
        }
        let program = match self.program_storage.get(program_id) {
            Some(mut program) => {
                program.reset(code);
                program
            },
            None => Program::new(program_id, code, Vec::new()),
        };
        assert(program@ == fresh_program(program_id, code@));
        self.program_storage.set(program.clone());
        let id = self.next_system_message_id();
        PendingRun {
            program,
            message: IncomingMessage::new_system(id, init_msg, gas_limit, value),
            entry_point: EntryPoint::Init,
            gas_limit,
        }
    }

    /// Names the next message of the system.
    fn next_system_message_id(&mut self) -> (id: MessageId)
        requires
            old(self).wf(),
            system_program(old(self)@.programs).message_nonce < u64::MAX,
        ensures
            final(self).wf(),
            id.bytes@ == next_system_id(old(self)@.programs),
            final(self)@ == (RunnerView {
                programs: system_advanced(old(self)@.programs),
                ..old(self)@
            }),
            final(self).message_queue == old(self).message_queue,
            final(self).memory == old(self).memory,
            final(self).allocations == old(self).allocations,
            final(self).config == old(self).config,
    {
        proof {
            self.program_storage.keyed_by_id();
        }
        let system: ProgramId = ProgramId::default();
        let mut system_program = match self.program_storage.get(system) {
            Some(program) => program,
            None => {
                let program = Program::new(system, Vec::new(), Vec::new());
                assert(program@ == fresh_program(ProgramId::system(), Seq::empty()));
                program
            },
        };
        let mut id_generator = BlakeMessageIdGenerator {
            program_id: system,
            nonce: system_program.message_nonce(),
        };
        let id = id_generator.next();
        system_program.set_message_nonce(id_generator.nonce);
        self.program_storage.set(system_program);
        id
    }

    /// Queue message for the underlying message queue.
    pub fn queue_message(
        &mut self,
        destination: ProgramId,
        payload: Vec<u8>,
        gas_limit: u64,
        value: u128,
    )
        requires
            old(self).wf(),
            system_program(old(self)@.programs).message_nonce < u64::MAX,
        ensures
            final(self).wf(),
            final(self)@ == after_queueing(
                old(self)@,
                destination,
                payload@,
                gas_limit,
                value,
            ),
            performs(
                old(self)@,
                (Operation::Queueing { destination, payload: payload@, gas_limit, value }),
                final(self)@,
            ),
            final(self).memory == old(self).memory,
            final(self).allocations == old(self).allocations,
            final(self).config == old(self).config,
            final(self)@.queue.drop_last() == old(self)@.queue,
            final(self)@.queue.last().source == ProgramId::system(),
            final(self)@.queue.last().dest == destination,
            final(self)@.queue.last().payload == payload@,
            final(self)@.queue.last().gas_limit == gas_limit,
            final(self)@.queue.last().value == value,
    {
        let message_id = self.next_system_message_id();
        self.message_queue.queue(
            Message::new_system(message_id, destination, payload, gas_limit, value),
        );
    }

    /// Enters a run: memory and allocations pass to the surroundings of the
    /// program, and come back when the run ends.
    pub fn begin_run(self, run: InstrumentedRun) -> (execution: Execution<AS, MQ, PS>)
        requires
            self.wf(),
        ensures
            execution.wf(),
            execution@ == entered(self@, run@),
            execution.program_storage == self.program_storage,
            execution.message_queue == self.message_queue,
            execution.config == self.config,
            execution.ext.memory_context.memory == self.memory,
            execution.ext.memory_context.allocations == self.allocations,
            execution.ext.memory_context.program_id == run.program@.id,
            execution.ext.messages.current == run.message,
            execution.ext@.gas_left == run.gas_limit,
            execution.program == run.program,
            execution.binary == run.binary,
            execution.static_area@ == run.program@.static_pages,
            execution.entry_point == run.entry_point,
            execution.gas_limit == run.gas_limit,
    {
        let program = run.program;
        let id_generator = BlakeMessageIdGenerator {
            program_id: program.id(),
            nonce: program.message_nonce(),
        };
        let messages = MessageContext::new(run.message, id_generator);
        assert(outgoing_views(messages.outgoing@) =~= Seq::<OutgoingView>::empty());
        let ext = Ext {
            memory_context: MemoryContext {
                program_id: program.id(),
                memory: self.memory,
                allocations: self.allocations,
                static_pages: self.config.static_pages,
                max_pages: self.config.max_pages,
            },
            messages,
            gas_counter: GasCounterLimited::new(run.gas_limit),
        };
        // Set static pages from saved program state.
        let static_area: Vec<u8> = slice_to_vec(program.static_pages());
        Execution {
            program_storage: self.program_storage,
            message_queue: self.message_queue,
            config: self.config,
            ext,
            program,
            binary: run.binary,
            static_area,
            entry_point: run.entry_point,
            gas_limit: run.gas_limit,
        }
    }
}

} // verus!
