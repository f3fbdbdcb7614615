//! Runs of programs whose behaviour is written in Rust.
use gear_runner::config::Config;
use gear_runner::context::OUTGOING_LIMIT;
use gear_runner::ext::{Ext, PageAction};
use gear_runner::id_generator::BlakeMessageIdGenerator;
use gear_runner::ids::{MessageId, PageNumber, ProgramId};
use gear_runner::message::{OutgoingPacket, ReplyPacket};
use gear_runner::result::{RunError, RunNextResult, RunResult};
use gear_runner::run::EntryPoint;
use gear_runner::runner::{NextStep, Runner};
use gear_runner::storage::{
    new_in_memory, InMemoryAllocationStorage, InMemoryMessageQueue, InMemoryProgramStorage,
    MessageQueue, ProgramStorage,
};

type MemRunner = Runner<InMemoryAllocationStorage, InMemoryMessageQueue, InMemoryProgramStorage>;
type MemExt = Ext<InMemoryAllocationStorage>;
type Outcome = Result<(), String>;

const PAGE: usize = 65536;

fn page(raw: u32) -> PageNumber {
    PageNumber::from(raw)
}

fn runner_with(static_pages: u32, max_pages: u32, persistent_memory: &[u8]) -> MemRunner {
    let config = Config { static_pages: page(static_pages), max_pages: page(max_pages) };
    Runner::new(&config, new_in_memory(), persistent_memory)
}

fn init(
    mut runner: MemRunner,
    id: u64,
    gas_limit: u64,
    body: impl FnOnce(&mut MemExt) -> Outcome,
) -> (MemRunner, Result<RunResult, RunError>) {
    let run = runner.init_program(id.into(), vec![id as u8], b"init".to_vec(), gas_limit, 1);
    assert_eq!(run.entry_point, EntryPoint::Init);
    let run = run.instrumented(Ok(vec![0xaa])).expect("code");
    let mut execution = runner.begin_run(run);
    assert_eq!(execution.binary, vec![0xaa]);
    let outcome = body(&mut execution.ext);
    execution.end_run(outcome, vec![])
}

fn next(
    mut runner: MemRunner,
    touched: Vec<(PageNumber, PageAction)>,
    body: impl FnOnce(&mut MemExt, &[u8]) -> Outcome,
) -> (MemRunner, Result<RunNextResult, RunError>) {
    match runner.run_next() {
        Ok(NextStep::Execute(run)) => {
            assert_eq!(run.entry_point, EntryPoint::Handle);
            let code = run.program.code().to_vec();
            let run = run.instrumented(Ok(code)).expect("code");
            let mut execution = runner.begin_run(run);
            let static_area = execution.static_area.clone();
            execution.ext.set_mem(0, &static_area);
            let outcome = body(&mut execution.ext, &static_area);
            execution.end_run_next(outcome, touched)
        }
        _ => panic!("there should be a program to run"),
    }
}

fn packet(dest: u64, payload: &[u8]) -> OutgoingPacket {
    OutgoingPacket { dest: dest.into(), payload: payload.to_vec(), gas_limit: 3, value: 4 }
}

fn name(program: u64, nonce: u64) -> MessageId {
    BlakeMessageIdGenerator { program_id: program.into(), nonce }.next()
}

// What is done without running a program.

#[test]
fn empty_queue_handles_nothing() {
    let mut runner = runner_with(1, 3, &[]);
    match runner.run_next() {
        Ok(NextStep::Done(result)) => assert_eq!(result.handled, 0),
        _ => panic!("there should be nothing to do"),
    }
}

#[test]
fn message_for_the_system_is_logged() {
    let mut runner = runner_with(1, 3, &[]);
    runner.queue_message(0.into(), b"note".to_vec(), 1, 2);
    match runner.run_next() {
        Ok(NextStep::Log(message, result)) => {
            assert_eq!(message.payload(), b"note");
            assert_eq!(result.handled, 1);
            assert!(result.gas_left.is_empty());
        }
        _ => panic!("the message should be logged"),
    }
    assert!(matches!(runner.run_next(), Ok(NextStep::Done(_))));
}

#[test]
fn unknown_program() {
    let mut runner = runner_with(1, 3, &[]);
    runner.queue_message(5.into(), vec![], 1, 0);
    match runner.run_next() {
        Err(error) => assert_eq!(error.message(), "Program not found"),
        Ok(_) => panic!("the program should not be found"),
    }
    // The message is gone.
    assert!(matches!(runner.run_next(), Ok(NextStep::Done(_))));
}

#[test]
fn code_that_cannot_be_instrumented() {
    let mut runner = runner_with(1, 3, &[]);
    let run = runner.init_program(1.into(), vec![1], vec![], 1, 0);
    match run.instrumented(Err("why".to_string())) {
        Err(error) => assert_eq!(error.message(), "Error instrumenting: why"),
        Ok(_) => panic!("there is no code to run"),
    }
    assert_eq!(runner.program_storage.get(1.into()).expect("a program").code(), &[1]);
}

#[test]
fn messages_of_the_system_are_numbered() {
    let mut runner = runner_with(1, 3, &[]);
    runner.queue_message(1.into(), b"a".to_vec(), 7, 8);
    let run = runner.init_program(1.into(), vec![1], vec![], 1, 0);
    runner.queue_message(2.into(), b"b".to_vec(), 9, 10);
    assert_eq!(run.message.id(), name(0, 1));
    assert_eq!(run.message.source(), ProgramId::default());
    let first = runner.message_queue.dequeue().expect("a message");
    let second = runner.message_queue.dequeue().expect("a message");
    assert_eq!((first.id(), first.dest(), first.gas_limit(), first.value()), (name(0, 0), 1.into(), 7, 8));
    assert_eq!((second.id(), second.dest(), second.payload()), (name(0, 2), 2.into(), &b"b"[..]));
    assert_eq!(runner.program_storage.get(0.into()).expect("the system").message_nonce(), 3);
}

#[test]
fn system_can_be_initialized() {
    let mut runner = runner_with(1, 3, &[]);
    runner.queue_message(1.into(), vec![], 1, 0);
    // The program of the system starts afresh, and so do its names.
    let run = runner.init_program(0.into(), vec![9], vec![], 1, 0);
    assert_eq!(run.message.id(), name(0, 0));
    assert_eq!(run.program.message_nonce(), 0);
    let system = runner.program_storage.get(0.into()).expect("the system");
    assert_eq!((system.message_nonce(), system.code()), (1, &[9][..]));
}

// Memory that persists.

#[test]
fn persistent_memory_goes_through() {
    let mut memory = vec![0u8; 2 * PAGE];
    memory[0] = 1;
    memory[2 * PAGE - 1] = 2;
    let runner = runner_with(3, 8, &memory);
    assert_eq!(runner.memory.size().raw(), 5);
    assert_eq!((runner.static_pages(), runner.max_pages()), (page(3), page(8)));
    assert_eq!(runner.memory.read(3 * PAGE, 1), vec![1]);
    let (_, back) = runner.complete();
    assert_eq!(back, memory);
}

#[test]
fn completed_runner_restarts() {
    let (runner, result) = init(runner_with(1, 3, &[]), 1, 10, |ext| {
        assert_eq!(ext.alloc_pages(page(1)), Ok(page(1)));
        ext.set_mem(PAGE + 5, &[42]);
        ext.set_mem(5, &[43]);
        ext.send(packet(1, b"later")).map_err(|e| e.to_string())
    });
    assert!(result.is_ok());
    let (storage, memory) = runner.complete();
    assert_eq!(memory.len(), PAGE);
    let config = Config { static_pages: page(1), max_pages: page(3) };
    let runner = Runner::new(&config, storage, &memory);
    assert_eq!(runner.memory.read(PAGE + 5, 1), vec![42]);
    assert_eq!(runner.memory.read(5, 1), vec![0]);
    assert_eq!(runner.allocations.get(page(1)), Some(1.into()));

    // The static memory of the program comes back when the program runs.
    let (_, result) = next(runner, vec![], |ext, static_area| {
        assert_eq!(static_area.len(), PAGE);
        assert_eq!(static_area[5], 43);
        assert_eq!(ext.msg(), b"later");
        Ok(())
    });
    assert_eq!(result.expect("a result").handled, 1);
}

// Requests during a run.

#[test]
fn current_message_is_seen() {
    let (_, result) = init(runner_with(1, 3, &[]), 1, 10, |ext| {
        assert_eq!(ext.msg(), b"init");
        assert_eq!(ext.source(), ProgramId::default());
        assert_eq!(ext.message_id(), name(0, 0));
        assert_eq!(ext.value(), 1);
        Ok(())
    });
    assert!(result.is_ok());
}

#[test]
fn memory_is_written_and_read_by_the_program() {
    let (_, result) = init(runner_with(1, 3, &[]), 1, 10, |ext| {
        ext.set_mem(PAGE - 2, &[1, 2]);
        let mut buffer = [9u8; 3];
        ext.get_mem(PAGE - 3, &mut buffer);
        assert_eq!(buffer, [0, 1, 2]);
        Ok(())
    });
    assert!(result.is_ok());
}

#[test]
fn errors_that_a_program_gets() {
    let (_, result) = init(runner_with(1, 3, &[]), 1, 10, |ext| {
        assert_eq!(ext.alloc_pages(page(3)), Err("Allocation error"));
        assert_eq!(ext.free(page(1)), Err("Free error"));
        assert_eq!(ext.gas(11), Err("Gas limit exceeded"));
        for _ in 0..OUTGOING_LIMIT {
            assert_eq!(ext.send(packet(2, b"")), Ok(()));
        }
        assert_eq!(ext.send(packet(2, b"")), Err("Message send error"));
        let reply = || ReplyPacket { payload: vec![1], gas_limit: 2, value: 3 };
        assert_eq!(ext.reply(reply()), Ok(()));
        assert_eq!(ext.reply(reply()), Err("Reply error"));
        Ok(())
    });
    let result = result.expect("a result");
    assert_eq!(result.messages.len(), OUTGOING_LIMIT);
    let reply = result.reply.expect("a reply");
    assert_eq!((reply.id, reply.payload), (name(1, OUTGOING_LIMIT as u64), vec![1]));
    assert_eq!((result.gas_left, result.gas_spent), (10, 0));
}

#[test]
fn pages_have_one_writer() {
    let (runner, _) = init(runner_with(1, 3, &[]), 1, 10, |ext| {
        assert_eq!(ext.memory_access(page(1)), PageAction::NoAccess);
        assert_eq!(ext.alloc_pages(page(1)), Ok(page(1)));
        assert_eq!(ext.memory_access(page(1)), PageAction::Write);
        Ok(())
    });
    let (runner, _) = init(runner, 2, 10, |ext| {
        assert_eq!(ext.memory_access(page(1)), PageAction::Read);
        assert_eq!(ext.free(page(1)), Err("Free error"));
        assert_eq!(ext.alloc_pages(page(1)), Ok(page(2)));
        Ok(())
    });
    let (_, _) = init(runner, 1, 10, |ext| {
        assert_eq!(ext.free(page(1)), Ok(()));
        assert_eq!(ext.memory_access(page(1)), PageAction::NoAccess);
        assert_eq!(ext.memory_access(page(2)), PageAction::Read);
        assert_eq!(ext.free(page(1)), Err("Free error"));
        Ok(())
    });
}

// Ends of runs.

#[test]
fn success_queues_and_saves() {
    let (runner, result) = init(runner_with(1, 3, &[]), 1, 10, |ext| {
        ext.set_mem(3, &[5]);
        ext.send(packet(1, b"a")).map_err(|e| e.to_string())?;
        ext.send(packet(1, b"b")).map_err(|e| e.to_string())?;
        ext.gas(4).map_err(|e| e.to_string())
    });
    let result = result.expect("a result");
    assert_eq!((result.gas_left, result.gas_spent), (6, 4));
    assert_eq!(result.messages[1].payload, b"b");
    let program = runner.program_storage.get(1.into()).expect("a program");
    assert_eq!(program.message_nonce(), 2);
    assert_eq!(program.static_pages().len(), PAGE);
    assert_eq!(program.static_pages()[3], 5);
    assert_eq!(program.code(), &[1]);

    // The first message goes out first; what comes of it waits behind the second.
    let touched = vec![(page(2), PageAction::Read)];
    let (mut runner, result) = next(runner, touched.clone(), |ext, _| {
        assert_eq!((ext.msg(), ext.message_id(), ext.value()), (&b"a"[..], name(1, 0), 4));
        ext.send(packet(9, b"c")).map_err(|e| e.to_string())
    });
    let result = result.expect("a result");
    assert_eq!(result.touched, touched);
    assert_eq!(result.gas_left, vec![(1.into(), 3)]);
    assert_eq!(result.gas_spent, vec![(1.into(), 0)]);
    let second = runner.message_queue.dequeue().expect("a message");
    let third = runner.message_queue.dequeue().expect("a message");
    assert_eq!((second.payload(), second.id()), (&b"b"[..], name(1, 1)));
    assert_eq!((third.payload(), third.id(), third.dest()), (&b"c"[..], name(1, 2), 9.into()));
}

#[test]
fn gas_is_reported_under_the_source() {
    let (mut runner, _) = init(runner_with(1, 3, &[]), 1, 10, |_| Ok(()));
    runner.queue_message(1.into(), vec![], 20, 0);
    let (_, result) = next(runner, vec![], |ext, _| ext.gas(15).map_err(|e| e.to_string()));
    let result = result.expect("a result");
    assert_eq!(result.gas_left, vec![(0.into(), 5)]);
    assert_eq!(result.gas_spent, vec![(0.into(), 15)]);
}

#[test]
fn failure_keeps_programs_and_queue() {
    let (mut runner, _) = init(runner_with(1, 3, &[]), 1, 10, |_| Ok(()));
    runner.queue_message(1.into(), b"x".to_vec(), 10, 0);
    runner.queue_message(1.into(), b"y".to_vec(), 10, 0);
    let (mut runner, result) = next(runner, vec![], |ext, _| {
        ext.set_mem(0, &[1]);
        assert_eq!(ext.alloc_pages(page(1)), Ok(page(1)));
        assert_eq!(ext.send(packet(2, b"lost")), Ok(()));
        Err("trap".to_string())
    });
    match result {
        Err(RunError::Execution(why)) => assert_eq!(why, "trap"),
        _ => panic!("the run should have failed"),
    }
    let program = runner.program_storage.get(1.into()).expect("a program");
    assert_eq!(program.message_nonce(), 0);
    assert_eq!(program.static_pages()[0], 0);
    assert_eq!(runner.message_queue.dequeue().expect("a message").payload(), b"y");
    assert!(runner.message_queue.dequeue().is_none());
    // Memory and allocations stay as the program left them.
    assert_eq!(runner.memory.read(0, 1), vec![1]);
    assert_eq!(runner.allocations.get(page(1)), Some(1.into()));
}

#[test]
fn failed_initialization_leaves_the_program() {
    let (mut runner, result) = init(runner_with(1, 3, &[]), 1, 10, |ext| {
        ext.send(packet(1, b"lost")).map_err(|e| e.to_string())?;
        Err("trap".to_string())
    });
    assert_eq!(result.unwrap_err().message(), "trap");
    let program = runner.program_storage.get(1.into()).expect("a program");
    assert_eq!((program.message_nonce(), program.static_pages().len()), (0, 0));
    assert!(runner.message_queue.dequeue().is_none());
}

#[test]
fn initializing_again_starts_afresh() {
    let (runner, _) = init(runner_with(1, 3, &[]), 1, 10, |ext| {
        ext.set_mem(0, &[1]);
        ext.send(packet(2, b"")).map_err(|e| e.to_string())
    });
    assert_eq!(runner.program_storage.get(1.into()).expect("a program").message_nonce(), 1);
    let mut runner = runner;
    let run = runner.init_program(1.into(), vec![7], vec![], 1, 0);
    assert_eq!((run.program.message_nonce(), run.program.static_pages().len()), (0, 0));
    assert_eq!(run.program.code(), &[7]);
    assert_eq!(run.message.id(), name(0, 1));
    // Other messages and programs are as they were.
    assert_eq!(runner.message_queue.dequeue().expect("a message").dest(), 2.into());
}

#[test]
fn run_that_sends_nothing() {
    let (mut runner, _) = init(runner_with(1, 3, &[]), 1, 10, |ext| {
        ext.send(packet(2, b"waiting")).map_err(|e| e.to_string())
    });
    let before = runner.program_storage.get(1.into()).expect("a program");
    runner.queue_message(1.into(), b"later".to_vec(), 1, 0);
    let (mut runner, result) = init(runner, 2, 10, |_| Ok(()));
    assert!(result.expect("a result").messages.is_empty());
    let after = runner.program_storage.get(1.into()).expect("a program");
    assert_eq!(after.message_nonce(), before.message_nonce());
    assert_eq!(after.static_pages(), before.static_pages());
    assert_eq!(runner.message_queue.dequeue().expect("a message").payload(), b"waiting");
    assert_eq!(runner.message_queue.dequeue().expect("a message").payload(), b"later");
    assert!(runner.message_queue.dequeue().is_none());
}

// Histories of a runner.

#[test]
fn system_names_ascend_whatever_is_done() {
    let mut runner = runner_with(1, 3, &[]);
    runner.queue_message(0.into(), b"0".to_vec(), 1, 0);
    let (mut runner, _) = init(runner, 1, 10, |ext| {
        assert_eq!(ext.message_id(), name(0, 1));
        ext.send(packet(1, b"")).map_err(|e| e.to_string())
    });
    assert!(matches!(runner.run_next(), Ok(NextStep::Log(_, _))));
    runner.queue_message(1.into(), b"2".to_vec(), 1, 0);
    let (runner, _) = next(runner, vec![], |_, _| Err("trap".to_string()));
    let (runner, _) = init(runner, 2, 10, |ext| {
        assert_eq!(ext.message_id(), name(0, 3));
        Err("trap".to_string())
    });
    let (storage, memory) = runner.complete();
    let config = Config { static_pages: page(2), max_pages: page(4) };
    let mut runner: MemRunner = Runner::new(&config, storage, &memory);
    runner.queue_message(1.into(), b"4".to_vec(), 1, 0);
    let second = runner.message_queue.dequeue().expect("a message");
    let fourth = runner.message_queue.dequeue().expect("a message");
    assert_eq!((second.payload(), second.id()), (&b"2"[..], name(0, 2)));
    assert_eq!((fourth.payload(), fourth.id()), (&b"4"[..], name(0, 4)));
}

#[test]
fn saved_state_outlives_other_programs() {
    let (runner, _) = init(runner_with(1, 3, &[]), 1, 10, |ext| {
        ext.set_mem(9, &[77]);
        ext.send(packet(8, b"")).map_err(|e| e.to_string())
    });
    let (runner, _) = init(runner, 2, 10, |ext| {
        ext.set_mem(9, &[1]);
        ext.send(packet(2, b"")).map_err(|e| e.to_string())
    });
    let mut runner = runner;
    assert!(matches!(runner.run_next(), Err(RunError::ProgramNotFound)));
    let (runner, _) = next(runner, vec![], |ext, _| {
        ext.set_mem(9, &[2]);
        Err("trap".to_string())
    });
    let (storage, memory) = runner.complete();
    let config = Config { static_pages: page(1), max_pages: page(3) };
    let mut runner: MemRunner = Runner::new(&config, storage, &memory);
    runner.queue_message(1.into(), vec![], 10, 0);
    let (_, result) = next(runner, vec![], |ext, static_area| {
        assert_eq!(static_area.len(), PAGE);
        assert_eq!(static_area[9], 77);
        assert_eq!(ext.messages.nonce(), 1);
        Ok(())
    });
    assert_eq!(result.expect("a result").handled, 1);
}

#[test]
fn messages_leave_in_the_order_they_came() {
    let mut runner = runner_with(1, 3, &[]);
    runner.queue_message(0.into(), b"a".to_vec(), 1, 0);
    let (mut runner, _) = init(runner, 1, 10, |ext| {
        ext.send(packet(0, b"b")).map_err(|e| e.to_string())?;
        ext.send(packet(0, b"c")).map_err(|e| e.to_string())
    });
    let mut seen: Vec<Vec<u8>> = vec![];
    for _ in 0..2 {
        if let Ok(NextStep::Log(message, _)) = runner.run_next() {
            seen.push(message.payload().to_vec());
        }
    }
    runner.queue_message(0.into(), b"d".to_vec(), 1, 0);
    while let Ok(NextStep::Log(message, _)) = runner.run_next() {
        seen.push(message.payload().to_vec());
    }
    assert_eq!(seen, vec![b"a".to_vec(), b"b".to_vec(), b"c".to_vec(), b"d".to_vec()]);
}

#[test]
fn names_of_a_program_ascend_over_its_runs() {
    let (mut runner, result) = init(runner_with(1, 3, &[]), 1, 10, |ext| {
        ext.send(packet(0, b"a")).map_err(|e| e.to_string())
    });
    assert_eq!(result.expect("a result").messages[0].id, name(1, 0));
    assert!(matches!(runner.run_next(), Ok(NextStep::Log(_, _))));

    runner.queue_message(1.into(), vec![], 10, 0);
    let (mut runner, _) = next(runner, vec![], |ext, _| {
        let reply = ReplyPacket { payload: vec![], gas_limit: 0, value: 0 };
        ext.reply(reply).map_err(|e| e.to_string())?;
        ext.send(packet(0, b"b")).map_err(|e| e.to_string())
    });
    assert_eq!(runner.message_queue.dequeue().expect("a message").id(), name(1, 2));

    // A run that fails names nothing that is kept, so its numbers are free.
    runner.queue_message(1.into(), vec![], 10, 0);
    let (runner, _) = next(runner, vec![], |ext, _| {
        ext.send(packet(0, b"lost")).map_err(|e| e.to_string())?;
        Err("trap".to_string())
    });
    let (storage, memory) = runner.complete();
    let config = Config { static_pages: page(1), max_pages: page(3) };
    let mut runner: MemRunner = Runner::new(&config, storage, &memory);
    runner.queue_message(1.into(), vec![], 10, 0);
    let (mut runner, _) = next(runner, vec![], |ext, _| {
        ext.send(packet(0, b"c")).map_err(|e| e.to_string())
    });
    assert_eq!(runner.message_queue.dequeue().expect("a message").id(), name(1, 3));
}

#[test]
fn configuration_stays() {
    let mut runner = runner_with(1, 3, &[]);
    runner.queue_message(7.into(), vec![], 1, 0);
    assert!(runner.run_next().is_err());
    let (runner, _) = init(runner, 1, 10, |ext| {
        assert_eq!(ext.alloc_pages(page(2)), Ok(page(1)));
        Ok(())
    });
    let (runner, _) = init(runner, 2, 10, |_| Err("trap".to_string()));
    assert_eq!((runner.static_pages(), runner.max_pages()), (page(1), page(3)));
}
