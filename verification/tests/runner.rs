//! Programs in WebAssembly, run by a small interpreter.
use gear_runner::config::Config;
use gear_runner::ext::PageAction;
use gear_runner::ids::{PageNumber, ProgramId};
use gear_runner::message::OutgoingPacket;
use gear_runner::result::{RunError, RunNextResult, RunResult};
use gear_runner::run::{Execution, PendingRun};
use gear_runner::runner::{NextStep, Runner};
use gear_runner::storage::{
    new_in_memory, InMemoryAllocationStorage, InMemoryMessageQueue, InMemoryProgramStorage,
    MessageQueue,
};

type MemRunner = Runner<InMemoryAllocationStorage, InMemoryMessageQueue, InMemoryProgramStorage>;
type MemExecution =
    Execution<InMemoryAllocationStorage, InMemoryMessageQueue, InMemoryProgramStorage>;

fn parse_wat(source: &str) -> Vec<u8> {
    wat::parse_str(source).expect("failed to parse module")
}

/// Reads a module, or a body of code, from its bytes.
struct Reader<'a> {
    bytes: &'a [u8],
    at: usize,
}

impl<'a> Reader<'a> {
    fn new(bytes: &'a [u8]) -> Reader<'a> {
        Reader { bytes, at: 0 }
    }

    fn done(&self) -> bool {
        self.at >= self.bytes.len()
    }

    fn byte(&mut self) -> u8 {
        self.at += 1;
        self.bytes[self.at - 1]
    }

    fn take(&mut self, len: usize) -> &'a [u8] {
        self.at += len;
        &self.bytes[self.at - len..self.at]
    }

    fn unsigned(&mut self) -> usize {
        let mut value = 0;
        let mut shift = 0;
        loop {
            let byte = self.byte();
            value |= ((byte & 0x7f) as usize) << shift;
            shift += 7;
            if byte & 0x80 == 0 {
                return value;
            }
        }
    }

    fn signed(&mut self) -> i64 {
        let mut value = 0i64;
        let mut shift = 0;
        loop {
            let byte = self.byte();
            value |= ((byte & 0x7f) as i64) << shift;
            shift += 7;
            if byte & 0x80 == 0 {
                if shift < 64 && byte & 0x40 != 0 {
                    value |= -1i64 << shift;
                }
                return value;
            }
        }
    }

    fn name(&mut self) -> String {
        let len = self.unsigned();
        String::from_utf8(self.take(len).to_vec()).expect("a name in UTF-8")
    }
}

struct Code {
    locals: usize,
    body: Vec<u8>,
}

/// The parts of a module that the interpreter needs.
struct Module {
    imports: Vec<String>,
    exports: Vec<(String, usize)>,
    codes: Vec<Code>,
    data: Vec<(usize, Vec<u8>)>,
}

fn parse_module(binary: &[u8]) -> Module {
    let mut module = Module { imports: vec![], exports: vec![], codes: vec![], data: vec![] };
    let mut sections = Reader::new(&binary[8..]);
    while !sections.done() {
        let id = sections.byte();
        let len = sections.unsigned();
        let mut r = Reader::new(sections.take(len));
        let count = if id == 0 { 0 } else { r.unsigned() };
        for _ in 0..count {
            match id {
                2 => {
                    r.name();
                    let name = r.name();
                    match r.byte() {
                        0 => {
                            r.unsigned();
                            module.imports.push(name);
                        }
                        2 => {
                            if r.byte() & 1 == 1 {
                                r.unsigned();
                            }
                            r.unsigned();
                        }
                        kind => panic!("import of kind {}", kind),
                    }
                }
                7 => {
                    let name = r.name();
                    assert_eq!(r.byte(), 0);
                    let index = r.unsigned();
                    module.exports.push((name, index));
                }
                10 => {
                    let size = r.unsigned();
                    let mut code = Reader::new(r.take(size));
                    let mut locals = 0;
                    for _ in 0..code.unsigned() {
                        locals += code.unsigned();
                        code.byte();
                    }
                    let body = code.bytes[code.at..].to_vec();
                    module.codes.push(Code { locals, body });
                }
                11 => {
                    assert_eq!(r.byte(), 0);
                    assert_eq!(r.byte(), 0x41);
                    let offset = r.signed() as usize;
                    assert_eq!(r.byte(), 0x0b);
                    let size = r.unsigned();
                    module.data.push((offset, r.take(size).to_vec()));
                }
                _ => break,
            }
        }
    }
    module
}

fn read_mem(execution: &MemExecution, ptr: usize, len: usize) -> Result<Vec<u8>, String> {
    if ptr + len > execution.ext.memory_context.memory.data_size() {
        return Err("memory out of bounds".to_string());
    }
    let mut buffer = vec![0u8; len];
    execution.ext.get_mem(ptr, &mut buffer);
    Ok(buffer)
}

fn write_mem(execution: &mut MemExecution, ptr: usize, val: &[u8]) -> Result<(), String> {
    if ptr + val.len() > execution.ext.memory_context.memory.data_size() {
        return Err("memory out of bounds".to_string());
    }
    execution.ext.set_mem(ptr, val);
    Ok(())
}

/// Notes that the program touches the page at `ptr`, if it may.
fn touch(
    execution: &MemExecution,
    touched: &mut Vec<(PageNumber, PageAction)>,
    ptr: usize,
    action: PageAction,
) -> Result<(), String> {
    let page = PageNumber::from((ptr / 65536) as u32);
    if page.raw() < execution.config.static_pages.raw() {
        return Ok(());
    }
    match (execution.ext.memory_access(page), action) {
        (PageAction::Write, _) | (PageAction::Read, PageAction::Read) => {}
        _ => return Err("page is protected".to_string()),
    }
    if !touched.contains(&(page, action)) {
        touched.push((page, action));
    }
    Ok(())
}

/// Answers a call of an imported function.
fn call_host(
    execution: &mut MemExecution,
    name: &str,
    stack: &mut Vec<i64>,
) -> Result<(), String> {
    let mut pop = || stack.pop().expect("an argument") as u32 as usize;
    match name {
        "gr_read" => {
            let (dest, len, at) = (pop(), pop(), pop());
            let part = match execution.ext.msg().get(at..at + len) {
                Some(part) => part.to_vec(),
                None => return Err("message out of bounds".to_string()),
            };
            write_mem(execution, dest, &part)
        }
        "gr_send" => {
            let value_ptr = pop();
            let gas_limit = stack.pop().expect("an argument") as u64;
            let mut pop = || stack.pop().expect("an argument") as u32 as usize;
            let (payload_len, payload_ptr, program_ptr) = (pop(), pop(), pop());
            let mut value = [0u8; 16];
            value.copy_from_slice(&read_mem(execution, value_ptr, 16)?);
            let packet = OutgoingPacket {
                dest: ProgramId::from_slice(&read_mem(execution, program_ptr, 32)?),
                payload: read_mem(execution, payload_ptr, payload_len)?,
                gas_limit,
                value: u128::from_le_bytes(value),
            };
            execution.ext.send(packet).map_err(|e| e.to_string())
        }
        "gr_size" => {
            stack.push(execution.ext.msg().len() as i64);
            Ok(())
        }
        "alloc" => {
            let pages = PageNumber::from(pop() as u32);
            let start = execution.ext.alloc_pages(pages).map_err(|e| e.to_string())?;
            stack.push(start.raw() as i64);
            Ok(())
        }
        "free" => {
            let page = PageNumber::from(pop() as u32);
            // A program learns nothing of a page that it could not free.
            let _ = execution.ext.free(page);
            Ok(())
        }
        _ => Err(format!("unknown import: {}", name)),
    }
}

/// Interprets the code of the function with the given index.
fn interpret(
    execution: &mut MemExecution,
    module: &Module,
    index: usize,
    touched: &mut Vec<(PageNumber, PageAction)>,
) -> Result<(), String> {
    let code = &module.codes[index - module.imports.len()];
    let mut locals = vec![0i64; code.locals];
    let mut stack: Vec<i64> = vec![];
    let mut r = Reader::new(&code.body);
    loop {
        execution.ext.gas(1).map_err(|e| e.to_string())?;
        match r.byte() {
            0x0b => return Ok(()),
            0x10 => {
                let callee = r.unsigned();
                assert!(callee < module.imports.len());
                call_host(execution, &module.imports[callee], &mut stack)?;
            }
            0x1a => {
                stack.pop().expect("an operand");
            }
            0x20 => stack.push(locals[r.unsigned()]),
            0x21 => locals[r.unsigned()] = stack.pop().expect("an operand"),
            0x22 => locals[r.unsigned()] = *stack.last().expect("an operand"),
            0x28 => {
                r.unsigned();
                let ptr = r.unsigned() + stack.pop().expect("an operand") as u32 as usize;
                touch(execution, touched, ptr, PageAction::Read)?;
                let mut word = [0u8; 4];
                word.copy_from_slice(&read_mem(execution, ptr, 4)?);
                stack.push(i32::from_le_bytes(word) as i64);
            }
            0x36 => {
                r.unsigned();
                let word = stack.pop().expect("an operand") as i32;
                let ptr = r.unsigned() + stack.pop().expect("an operand") as u32 as usize;
                touch(execution, touched, ptr, PageAction::Write)?;
                write_mem(execution, ptr, &word.to_le_bytes())?;
            }
            0x41 | 0x42 => stack.push(r.signed()),
            0x71 => {
                let b = stack.pop().expect("an operand");
                let a = stack.pop().expect("an operand");
                stack.push(a & b);
            }
            opcode => return Err(format!("unknown opcode: {}", opcode)),
        }
    }
}

/// Sets the program up and runs it from its entry point.
fn execute(
    execution: &mut MemExecution,
) -> (Result<(), String>, Vec<(PageNumber, PageAction)>) {
    let module = parse_module(&execution.binary);
    let mut touched = vec![];
    for (offset, bytes) in &module.data {
        if let Err(e) = write_mem(execution, *offset, bytes) {
            return (Err(e), touched);
        }
    }
    let static_area = execution.static_area.clone();
    if let Err(e) = write_mem(execution, 0, &static_area) {
        return (Err(e), touched);
    }
    let entry_point: &'static str = execution.entry_point.into();
    let outcome = match module.exports.iter().find(|(name, _)| name == entry_point) {
        Some((_, index)) => interpret(execution, &module, *index, &mut touched),
        None => Err(format!("no export: {}", entry_point)),
    };
    (outcome, touched)
}

/// Code that is a module is its own instrumented code: the interpreter meters it.
fn instrument(run: &PendingRun) -> Result<Vec<u8>, String> {
    if run.program.code().starts_with(b"\0asm") {
        Ok(run.program.code().to_vec())
    } else {
        Err("not a module".to_string())
    }
}

fn run_next(mut runner: MemRunner) -> (MemRunner, Result<RunNextResult, RunError>) {
    match runner.run_next() {
        Ok(NextStep::Done(result)) => (runner, Ok(result)),
        Ok(NextStep::Log(_, result)) => (runner, Ok(result)),
        Ok(NextStep::Execute(run)) => {
            let binary = instrument(&run);
            match run.instrumented(binary) {
                Ok(run) => {
                    let mut execution = runner.begin_run(run);
                    let (outcome, touched) = execute(&mut execution);
                    execution.end_run_next(outcome, touched)
                }
                Err(e) => (runner, Err(e)),
            }
        }
        Err(e) => (runner, Err(e)),
    }
}

fn init_program(
    mut runner: MemRunner,
    program_id: ProgramId,
    code: Vec<u8>,
    init_msg: Vec<u8>,
    gas_limit: u64,
    value: u128,
) -> (MemRunner, Result<RunResult, RunError>) {
    let run = runner.init_program(program_id, code, init_msg, gas_limit, value);
    let binary = instrument(&run);
    match run.instrumented(binary) {
        Ok(run) => {
            let mut execution = runner.begin_run(run);
            let (outcome, touched) = execute(&mut execution);
            execution.end_run(outcome, touched)
        }
        Err(e) => (runner, Err(e)),
    }
}

#[test]
fn runner_simple() {
    // Sends "ok" on init, then sends back the message it retrieved from the handle
    let wat = r#"
        (module
            (import "env" "gr_read"  (func $read (param i32 i32 i32)))
            (import "env" "gr_send"  (func $send (param i32 i32 i32 i64 i32)))
            (import "env" "gr_size"  (func $size (result i32)))
            (import "env" "memory" (memory 1))
            (data (i32.const 0) "ok")
            (export "handle" (func $handle))
            (export "init" (func $init))
            (func $handle
              (local $var0 i32)
              (local $id i32)
                (i32.store offset=12
                    (get_local $id)
                    (i32.const 1)
                )
              i32.const 0
              call $size
              tee_local $var0
              i32.const 0
              call $read
              i32.const 12
              i32.const 0
              get_local $var0
              i32.const 255
              i32.and
              i64.const 0
              i32.const 32768
              call $send
            )
            (func $init
                (local $id i32)
                (i32.store offset=12
                    (get_local $id)
                    (i32.const 1)
                )
                i32.const 12
                i32.const 0
                i32.const 2
                i64.const 18446744073709551615
                i32.const 0
                call $send
              )
          )"#;

    let runner = Runner::new(&Config::default(), new_in_memory(), &[]);

    let (runner, result) = init_program(
        runner,
        1.into(),
        parse_wat(wat),
        "init".as_bytes().to_vec(),
        u64::max_value(),
        0,
    );
    result.expect("failed to init program");

    let (mut runner, result) = run_next(runner);
    result.expect("Failed to process next message");

    assert_eq!(
        runner
            .message_queue
            .dequeue()
            .map(|m| (m.payload().to_vec(), m.source(), m.dest())),
        Some((b"ok".to_vec(), 1.into(), 1.into()))
    );

    runner.queue_message(1.into(), "test".as_bytes().to_vec(), u64::max_value(), 0);

    let (mut runner, result) = run_next(runner);
    result.expect("Failed to process next message");

    assert_eq!(
        runner
            .message_queue
            .dequeue()
            .map(|m| (m.payload().to_vec(), m.source(), m.dest())),
        Some((b"test".to_vec(), 1.into(), 1.into()))
    );
}

#[test]
fn runner_allocations() {
    // alloc 1 page in init
    // free page num from message in handle and send it back
    let wat = r#"
        (module
            (import "env" "gr_read"  (func $read (param i32 i32 i32)))
            (import "env" "gr_send"  (func $send (param i32 i32 i32 i64 i32)))
            (import "env" "gr_size"  (func $size (result i32)))
            (import "env" "alloc"  (func $alloc (param i32) (result i32)))
            (import "env" "free"  (func $free (param i32)))
            (import "env" "memory" (memory 1))
  				(data (i32.const 0) "ok")
            (export "handle" (func $handle))
            (export "init" (func $init))
            (func $handle
              (local $p i32)
              (local $var0 i32)
              (local $id i32)
              (i32.store offset=12
                (get_local $id)
                (i32.const 1)
              )
              i32.const 0
              call $size
              tee_local $var0
              i32.const 0
              call $read
              i32.const 12
              i32.const 0
              get_local $var0
              i32.const 255
              i32.and
              i64.const 18446744073709551615
              i32.const 32768
              call $send
              i32.const 256
              call $free
            )
            (func $init
            (local $id i32)
              (local $msg_size i32)
              (local $alloc_pages i32)
              (local $pages_offset i32)
              (local.set $pages_offset (call $alloc (i32.const 1)))
              (i32.store offset=12
                (get_local $id)
                (i32.const 1)
              )
              (call $send (i32.const 12) (i32.const 0) (i32.const 2) (i64.const 18446744073709551615) (i32.const 32768))
            )
          )"#;

    let runner = Runner::new(&Config::default(), new_in_memory(), &[]);

    let (runner, result) =
        init_program(runner, 1.into(), parse_wat(wat), vec![], u64::max_value(), 0);
    result.expect("Failed to init program");

    // check if page belongs to the program
    assert_eq!(runner.allocations.get(256.into()), Some(ProgramId::from(1)));

    let (mut runner, result) = run_next(runner);
    result.expect("Failed to process next message");

    assert_eq!(
        runner
            .message_queue
            .dequeue()
            .map(|m| (m.payload().to_vec(), m.source(), m.dest())),
        Some((b"ok".to_vec(), 1.into(), 1.into()))
    );

    // send page num to be freed
    runner.queue_message(1.into(), vec![256u32 as _], u64::max_value(), 0);

    let (mut runner, result) = run_next(runner);
    result.expect("Failed to process next message");

    assert_eq!(
        runner
            .message_queue
            .dequeue()
            .map(|m| (m.payload().to_vec(), m.source(), m.dest())),
        Some((vec![256u32 as _], 1.into(), 1.into()))
    );

    // page is now deallocated
    assert_eq!(runner.allocations.get(256.into()), None);
}

#[test]
fn mem_rw_access() {
    // Read in new allocatted page
    let wat_r = r#"
        (module
            (import "env" "alloc"  (func $alloc (param i32) (result i32)))
            (import "env" "memory" (memory 1))
            (export "handle" (func $handle))
            (export "init" (func $init))
            (func $handle
            )
            (func $init
                (local $alloc_pages i32)
                (local $pages_offset i32)
                (local.set $pages_offset (call $alloc (i32.const 1)))

                i32.const 0
                i32.load offset=65536

                drop
              )
          )"#;

    // Write in new allocatted page
    let wat_w = r#"
        (module
            (import "env" "alloc"  (func $alloc (param i32) (result i32)))
            (import "env" "memory" (memory 1))
            (export "handle" (func $handle))
            (export "init" (func $init))
            (func $handle
            )
            (func $init
                (local $alloc_pages i32)
                (local $pages_offset i32)
                (local.set $pages_offset (call $alloc (i32.const 1)))
                (i32.store offset=131072
                    (i32.const 0)
                    (i32.const 10)
                )
              )
          )"#;

    let runner = Runner::new(
        &Config {
            static_pages: 1.into(),
            max_pages: 3.into(),
        },
        new_in_memory(),
        &[],
    );

    let (runner, result) = init_program(
        runner,
        1.into(),
        parse_wat(wat_r),
        "init".as_bytes().to_vec(),
        u64::max_value(),
        0,
    );
    let result = result.expect("failed to init program 1");

    assert_eq!(result.touched[0], (1.into(), PageAction::Read));

    let (runner, result) = init_program(
        runner,
        2.into(),
        parse_wat(wat_w),
        "init".as_bytes().to_vec(),
        u64::max_value(),
        0,
    );
    let result = result.expect("failed to init program 2");

    assert_eq!(result.touched[0], (2.into(), PageAction::Write));

    let (_, persistent_memory) = runner.complete();

    assert_eq!(persistent_memory[0], 0);
}

/// Stores where no page is allocated to the program.
const WAT_STRAY: &str = r#"
    (module
        (import "env" "memory" (memory 1))
        (export "init" (func $init))
        (func $init
            (i32.store offset=65536 (i32.const 0) (i32.const 7))
        )
    )"#;

fn small() -> MemRunner {
    let config = Config { static_pages: 1.into(), max_pages: 3.into() };
    Runner::new(&config, new_in_memory(), &[0u8; 65536])
}

#[test]
fn stray_store_fails() {
    let (runner, result) =
        init_program(small(), 1.into(), parse_wat(WAT_STRAY), vec![], u64::MAX, 0);
    assert_eq!(result.unwrap_err().message(), "page is protected");
    let (_, persistent_memory) = runner.complete();
    assert_eq!(persistent_memory, vec![0u8; 65536]);
}

#[test]
fn gas_runs_out() {
    // Three instructions, of which the limit pays for two.
    let (_, result) = init_program(small(), 1.into(), parse_wat(WAT_STRAY), vec![], 2, 0);
    match result {
        Err(RunError::Execution(why)) => assert_eq!(why, "Gas limit exceeded"),
        _ => panic!("the run should have failed"),
    }
}

#[test]
fn gas_is_reported_per_instruction() {
    let wat = r#"
    (module
        (import "env" "memory" (memory 1))
        (export "init" (func $init))
        (func $init
            (i32.store offset=4 (i32.const 0) (i32.const 7))
        )
    )"#;
    let (_, result) = init_program(small(), 1.into(), parse_wat(wat), vec![], 10, 0);
    let result = result.expect("the run should succeed");
    assert_eq!((result.gas_left, result.gas_spent), (6, 4));
    assert!(result.touched.is_empty());
}

#[test]
fn code_that_is_no_module() {
    let (mut runner, result) =
        init_program(small(), 1.into(), b"code".to_vec(), vec![], u64::MAX, 0);
    let error = result.unwrap_err();
    assert!(matches!(error, RunError::Instrument(_)));
    assert_eq!(error.message(), "Error instrumenting: not a module");

    // The program is there all the same, and so is its message when it comes.
    runner.queue_message(1.into(), b"hello".to_vec(), 1, 0);
    let (mut runner, result) = run_next(runner);
    assert_eq!(result.unwrap_err().message(), "Error instrumenting: not a module");
    assert!(runner.message_queue.dequeue().is_none());
}

#[test]
fn missing_entry_point() {
    let (mut runner, result) =
        init_program(small(), 1.into(), parse_wat("(module)"), vec![], u64::MAX, 0);
    assert_eq!(result.unwrap_err().message(), "no export: init");
    runner.queue_message(1.into(), vec![], u64::MAX, 0);
    let (_, result) = run_next(runner);
    assert_eq!(result.unwrap_err().message(), "no export: handle");
}
