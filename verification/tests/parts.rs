//! The parts of the library, one by one.
use gear_runner::allocation::{Allocations, MemoryContext};
use gear_runner::config::Config;
use gear_runner::context::{MessageContext, MessageError, OUTGOING_LIMIT};
use gear_runner::ext::PageAction;
use gear_runner::gas::{ChargeResult, GasCounterLimited};
use gear_runner::id_generator::{message_id_data, BlakeMessageIdGenerator};
use gear_runner::ids::{to_le_bytes, MessageId, PageNumber, ProgramId};
use gear_runner::memory::{LinearMemory, MemoryError};
use gear_runner::message::{IncomingMessage, Message, OutgoingPacket, ReplyPacket};
use gear_runner::program::Program;
use gear_runner::result::{RunError, RunNextResult, RunResult};
use gear_runner::run::EntryPoint;
use gear_runner::storage::{
    AllocationStorage, InMemoryAllocationStorage, InMemoryMessageQueue, InMemoryProgramStorage,
    MessageQueue, ProgramStorage,
};

fn page(raw: u32) -> PageNumber {
    PageNumber::from(raw)
}

fn memory_context(id: u64, static_pages: u32, max_pages: u32) -> MemoryContext<InMemoryAllocationStorage> {
    MemoryContext {
        program_id: id.into(),
        memory: LinearMemory::new(static_pages),
        allocations: Allocations::new(InMemoryAllocationStorage::new()),
        static_pages: page(static_pages),
        max_pages: page(max_pages),
    }
}

fn message_context(nonce: u64) -> MessageContext {
    MessageContext::new(
        IncomingMessage::new_system(MessageId { bytes: [9; 32] }, b"in".to_vec(), 5, 6),
        BlakeMessageIdGenerator { program_id: 1.into(), nonce },
    )
}

fn packet(dest: u64, payload: &[u8]) -> OutgoingPacket {
    OutgoingPacket { dest: dest.into(), payload: payload.to_vec(), gas_limit: 3, value: 4 }
}

// Identifiers.

#[test]
fn little_endian_bytes() {
    assert_eq!(to_le_bytes(0x0102030405060708), [8, 7, 6, 5, 4, 3, 2, 1]);
    assert_eq!(to_le_bytes(u64::MAX), [255; 8]);
    assert_eq!(to_le_bytes(0), [0; 8]);
}

#[test]
fn program_id_from_number() {
    let id = ProgramId::from(0x0201);
    assert_eq!(id.as_slice()[..3], [1, 2, 0]);
    assert!(id.as_slice()[3..].iter().all(|b| *b == 0));
    assert_eq!(ProgramId::from(0), ProgramId::default());
    assert_ne!(ProgramId::from(1), ProgramId::default());
    assert_eq!(ProgramId::from_slice(id.as_slice()), id);
}

#[test]
fn message_id_keeps_its_bytes() {
    let bytes: Vec<u8> = (0..32).collect();
    let id = MessageId::from_slice(&bytes);
    assert_eq!(id.as_slice(), bytes.as_slice());
    assert_eq!(id, MessageId::from_slice(&bytes));
    assert_ne!(id, MessageId { bytes: [0; 32] });
}

#[test]
fn data_that_a_message_is_named_after() {
    let mut expected = vec![0u8; 40];
    expected[0] = 7;
    expected[32] = 2;
    expected[33] = 1;
    assert_eq!(message_id_data(7.into(), 0x0102), expected);
}

#[test]
fn names_are_digests() {
    let mut generator = BlakeMessageIdGenerator { program_id: 7.into(), nonce: 0x0102030405060708 };
    let id = generator.next();
    let expected: [u8; 32] = [
        209, 62, 246, 150, 6, 93, 247, 145, 56, 78, 207, 225, 0, 167, 220, 47, 204, 111, 108, 103,
        146, 186, 133, 24, 243, 155, 98, 40, 5, 123, 199, 143,
    ];
    assert_eq!(id.bytes, expected);
    let data = message_id_data(7.into(), 0x0102030405060708);
    assert_ne!(id.as_slice(), &data[..32]);
    assert_eq!(id.as_slice(), blake2_rfc::blake2b::blake2b(32, &[], &data).as_bytes());
    assert_eq!(generator.current(), 0x0102030405060709);
}

#[test]
fn names_of_the_system() {
    let mut generator = BlakeMessageIdGenerator { program_id: ProgramId::default(), nonce: 0 };
    let first: [u8; 32] = [
        74, 25, 49, 128, 53, 97, 244, 49, 222, 202, 176, 2, 231, 66, 95, 10, 133, 49, 213, 228, 86,
        161, 164, 127, 217, 153, 138, 37, 48, 192, 248, 0,
    ];
    let second: [u8; 32] = [
        74, 197, 155, 124, 179, 245, 44, 6, 141, 103, 30, 70, 79, 15, 32, 19, 80, 205, 200, 120,
        131, 225, 241, 99, 56, 219, 104, 48, 245, 17, 207, 61,
    ];
    assert_eq!(generator.next().bytes, first);
    assert_eq!(generator.next().bytes, second);
    assert_eq!(generator.current(), 2);
}

#[test]
fn entry_points_have_names() {
    let handle: &'static str = EntryPoint::Handle.into();
    let init: &'static str = EntryPoint::Init.into();
    assert_eq!((handle, init), ("handle", "init"));
}

// Configuration.

#[test]
fn default_configuration() {
    let config = Config::default();
    assert_eq!(config.static_pages.raw(), 256);
    assert_eq!(config.max_pages.raw(), 16384);
}

// Results.

#[test]
fn results_accrue() {
    let run = |left: u64, spent: u64, touched: Vec<(PageNumber, PageAction)>| RunResult {
        touched,
        gas_left: left,
        gas_spent: spent,
        ..RunResult::default()
    };
    let mut total = RunNextResult::empty();
    assert_eq!(total.handled, 0);
    assert!(total.touched.is_empty() && total.gas_left.is_empty() && total.gas_spent.is_empty());

    total.accrue(1.into(), run(3, 4, vec![(page(1), PageAction::Read)]));
    total.accrue(2.into(), run(5, 6, vec![(page(2), PageAction::Write), (page(1), PageAction::Read)]));
    assert_eq!(total.handled, 2);
    assert_eq!(
        total.touched,
        vec![(page(1), PageAction::Read), (page(2), PageAction::Write), (page(1), PageAction::Read)]
    );
    assert_eq!(total.gas_left, vec![(1.into(), 3), (2.into(), 5)]);
    assert_eq!(total.gas_spent, vec![(1.into(), 4), (2.into(), 6)]);
}

#[test]
fn result_of_a_single_run() {
    let run = RunResult { gas_left: 8, gas_spent: 2, ..RunResult::default() };
    let result = RunNextResult::from_single(5.into(), run);
    assert_eq!(result.handled, 1);
    assert!(result.touched.is_empty());
    assert_eq!(result.gas_left, vec![(5.into(), 8)]);
    assert_eq!(result.gas_spent, vec![(5.into(), 2)]);
}

#[test]
fn result_of_a_logged_message() {
    let result = RunNextResult::log();
    assert_eq!(result.handled, 1);
    assert!(result.touched.is_empty() && result.gas_left.is_empty() && result.gas_spent.is_empty());
}

#[test]
fn runs_accrue_to_a_logged_message() {
    let mut total = RunNextResult::log();
    for n in 1..4u64 {
        let run = RunResult { gas_left: n, gas_spent: 10 - n, ..RunResult::default() };
        total.accrue(n.into(), run);
        assert_eq!(total.handled as usize, total.gas_left.len() + 1);
    }
    assert_eq!(total.gas_left, vec![(1.into(), 1), (2.into(), 2), (3.into(), 3)]);
    assert_eq!(total.gas_spent, vec![(1.into(), 9), (2.into(), 8), (3.into(), 7)]);
}

#[test]
fn errors_in_words() {
    assert_eq!(RunError::ProgramNotFound.message(), "Program not found");
    assert_eq!(RunError::Instrument("bad".to_string()).message(), "Error instrumenting: bad");
    assert_eq!(RunError::Execution("trap".to_string()).message(), "trap");
}

// Gas.

#[test]
fn gas_counts_down() {
    let mut counter = GasCounterLimited::new(10);
    assert_eq!(counter.charge(4), ChargeResult::Enough);
    assert_eq!(counter.left(), 6);
    assert_eq!(counter.charge(7), ChargeResult::NotEnough);
    assert_eq!(counter.left(), 6);
    assert_eq!(counter.charge(6), ChargeResult::Enough);
    assert_eq!(counter.charge(0), ChargeResult::Enough);
    assert_eq!(counter.charge(1), ChargeResult::NotEnough);
    assert_eq!(counter.left(), 0);
}

#[test]
fn charges_in_either_order() {
    let mut a = GasCounterLimited::new(u64::MAX);
    let mut b = GasCounterLimited::new(u64::MAX);
    a.charge(u32::MAX);
    a.charge(1);
    b.charge(1);
    b.charge(u32::MAX);
    assert_eq!(a.left(), u64::MAX - (1u64 << 32));
    assert_eq!(a.left(), b.left());
}

// Memory.

#[test]
fn memory_reads_what_was_written() {
    let mut memory = LinearMemory::new(2);
    assert_eq!(memory.data_size(), 131072);
    assert_eq!(memory.size().raw(), 2);
    assert_eq!(memory.write(65534, &[1, 2, 3, 4]), Ok(()));
    assert_eq!(memory.read(65533, 6), vec![0, 1, 2, 3, 4, 0]);
    assert_eq!(memory.write(131072, &[]), Ok(()));
    assert_eq!(memory.data_size(), 131072);
}

#[test]
fn write_past_the_end() {
    let mut memory = LinearMemory::new(1);
    assert_eq!(memory.write(65535, &[1, 2]), Err(MemoryError::OutOfBounds));
    assert_eq!(memory.write(usize::MAX, &[1]), Err(MemoryError::OutOfBounds));
    assert_eq!(memory.read(65535, 1), vec![0]);
    assert_eq!(LinearMemory::new(0).write(0, &[1]), Err(MemoryError::OutOfBounds));
}

#[test]
fn memory_grows_and_never_shrinks() {
    let mut memory = LinearMemory::new(1);
    assert_eq!(memory.write(65535, &[7]), Ok(()));
    assert_eq!(memory.grow_to(3), Ok(()));
    assert_eq!(memory.size().raw(), 3);
    assert_eq!(memory.read(65534, 4), vec![0, 7, 0, 0]);
    assert_eq!(memory.grow_to(2), Ok(()));
    assert_eq!(memory.size().raw(), 3);
    assert_eq!(memory.grow_to(65537), Err(MemoryError::OutOfMemory));
    assert_eq!(memory.size().raw(), 3);
}

// Pages.

#[test]
fn pages_are_found_first_fit() {
    let mut context = memory_context(1, 1, 6);
    assert_eq!(context.alloc_pages(page(1)), Ok(page(1)));
    assert_eq!(context.alloc_pages(page(2)), Ok(page(2)));
    assert_eq!(context.alloc_pages(page(1)), Ok(page(4)));
    assert_eq!(context.memory.size().raw(), 5);

    // A gap is used only by what fits into it.
    assert_eq!(context.free(page(2)), Ok(()));
    assert_eq!(context.alloc_pages(page(2)), Err(MemoryError::OutOfMemory));
    assert_eq!(context.free(page(3)), Ok(()));
    assert_eq!(context.alloc_pages(page(2)), Ok(page(2)));
    assert_eq!(context.alloc_pages(page(1)), Ok(page(5)));
    assert_eq!(context.alloc_pages(page(1)), Err(MemoryError::OutOfMemory));
    assert_eq!(context.memory.size().raw(), 6);
}

#[test]
fn no_pages_at_all() {
    let mut context = memory_context(1, 2, 2);
    assert_eq!(context.alloc_pages(page(0)), Ok(page(2)));
    assert_eq!(context.alloc_pages(page(1)), Err(MemoryError::OutOfMemory));
    assert_eq!(context.alloc_pages(page(u32::MAX)), Err(MemoryError::OutOfMemory));
    assert!(!context.allocations.occupied(page(2)));
}

#[test]
fn more_pages_than_a_memory_has() {
    let mut context = memory_context(1, 1, u32::MAX);
    assert_eq!(context.alloc_pages(page(65536)), Err(MemoryError::OutOfMemory));
    assert_eq!(context.memory.size().raw(), 1);
    assert!(!context.allocations.occupied(page(1)));
}

#[test]
fn freeing_gives_pages_back() {
    let mut context = memory_context(1, 1, 4);
    assert_eq!(context.alloc_pages(page(3)), Ok(page(1)));
    for n in 1..4 {
        assert_eq!(context.allocations.get(page(n)), Some(1.into()));
        assert_eq!(context.free(page(n)), Ok(()));
        assert_eq!(context.allocations.get(page(n)), None);
    }
    assert_eq!(context.alloc_pages(page(3)), Ok(page(1)));
}

#[test]
fn frees_that_are_refused() {
    let mut context = memory_context(1, 1, 4);
    context.allocations.insert(2.into(), page(1));
    context.allocations.insert(1.into(), page(0));
    context.allocations.insert(1.into(), page(4));
    context.allocations.insert(1.into(), page(5));
    assert_eq!(context.free(page(1)), Err(MemoryError::InvalidFree));
    assert_eq!(context.free(page(2)), Err(MemoryError::InvalidFree));
    assert_eq!(context.free(page(0)), Err(MemoryError::InvalidFree));
    assert_eq!(context.free(page(5)), Err(MemoryError::InvalidFree));
    assert_eq!(context.allocations.get(page(1)), Some(2.into()));
    assert_eq!(context.free(page(4)), Ok(()));
    assert_eq!(context.free(page(4)), Err(MemoryError::InvalidFree));
}

#[test]
fn pages_of_others_are_passed_over() {
    let mut context = memory_context(1, 1, 8);
    context.allocations.insert(2.into(), page(3));
    assert_eq!(context.alloc_pages(page(3)), Ok(page(4)));
    assert_eq!(context.allocations.get(page(3)), Some(2.into()));
    assert_eq!(context.alloc_pages(page(2)), Ok(page(1)));
}

#[test]
fn owners_are_handed_back() {
    let mut allocations = Allocations::new(InMemoryAllocationStorage::new());
    allocations.insert(1.into(), page(7));
    allocations.insert(2.into(), page(7));
    assert_eq!(allocations.remove(1.into(), page(7)), Err(MemoryError::InvalidFree));
    let storage = allocations.drain();
    assert_eq!(storage.get(page(7)), Some(2.into()));
}

// Messages of a run.

#[test]
fn messages_are_named_and_kept() {
    let mut context = message_context(0);
    assert_eq!(context.send(packet(2, b"one")), Ok(()));
    assert_eq!(
        context.reply(ReplyPacket { payload: b"re".to_vec(), gas_limit: 1, value: 2 }),
        Ok(())
    );
    assert_eq!(context.send(packet(3, b"two")), Ok(()));
    assert_eq!(context.nonce(), 3);
    assert_eq!(context.current().payload(), b"in");

    let mut names = BlakeMessageIdGenerator { program_id: 1.into(), nonce: 0 };
    let (first, second, third) = (names.next(), names.next(), names.next());
    let (outgoing, reply) = context.drain();
    assert_eq!(outgoing.len(), 2);
    assert_eq!((outgoing[0].id, outgoing[1].id), (first, third));
    assert_eq!(outgoing[0].payload, b"one");
    let reply = reply.expect("a reply");
    assert_eq!((reply.id, reply.payload, reply.gas_limit, reply.value), (second, b"re".to_vec(), 1, 2));

    let message = outgoing[1].clone().into_message(1.into());
    assert_eq!((message.source(), message.dest()), (1.into(), 3.into()));
    assert_eq!((message.payload(), message.gas_limit(), message.value()), (&b"two"[..], 3, 4));
    let arrived = IncomingMessage::from(message);
    assert_eq!((arrived.id(), arrived.source(), arrived.value()), (third, 1.into(), 4));
    assert_eq!(arrived.payload(), b"two");
}

#[test]
fn only_so_many_messages() {
    let mut context = message_context(0);
    for _ in 0..OUTGOING_LIMIT {
        assert_eq!(context.send(packet(2, b"")), Ok(()));
    }
    assert_eq!(context.send(packet(2, b"")), Err(MessageError::LimitExceeded));
    assert_eq!(context.nonce(), OUTGOING_LIMIT as u64);
    assert_eq!(context.drain().0.len(), OUTGOING_LIMIT);
}

#[test]
fn only_one_reply() {
    let mut context = message_context(5);
    let reply = |payload: &[u8]| ReplyPacket { payload: payload.to_vec(), gas_limit: 0, value: 0 };
    assert_eq!(context.reply(reply(b"a")), Ok(()));
    assert_eq!(context.reply(reply(b"b")), Err(MessageError::DuplicateReply));
    assert_eq!(context.nonce(), 6);
    assert_eq!(context.drain().1.expect("a reply").payload, b"a");
}

// Storage.

#[test]
fn queue_keeps_order() {
    let message = |n: u8| {
        Message::new_system(MessageId { bytes: [n; 32] }, 1.into(), vec![n], n as u64, n as u128)
    };
    let mut queue = InMemoryMessageQueue::new();
    assert!(queue.dequeue().is_none());
    queue.queue(message(1));
    queue.queue_many(vec![message(2), message(3)]);
    queue.queue_many(vec![]);
    queue.queue(message(4));
    for n in 1..5u8 {
        let next = queue.dequeue().expect("a message");
        assert_eq!(next.id().bytes, [n; 32]);
        assert_eq!(next.source(), ProgramId::default());
        assert_eq!((next.payload(), next.gas_limit(), next.value()), (&[n][..], n as u64, n as u128));
    }
    assert!(queue.dequeue().is_none());
}

#[test]
fn programs_are_kept_by_id() {
    let mut storage = InMemoryProgramStorage::new();
    assert!(storage.get(1.into()).is_none());
    storage.set(Program::new(1.into(), vec![1], vec![]));
    storage.set(Program::new(2.into(), vec![2], vec![]));
    storage.set(Program::new(1.into(), vec![3], vec![9]));
    let one = storage.get(1.into()).expect("a program");
    assert_eq!((one.id(), one.code(), one.static_pages()), (1.into(), &[3][..], &[9][..]));
    assert_eq!(storage.get(2.into()).expect("a program").code(), &[2]);
    assert!(storage.get(3.into()).is_none());
}

#[test]
fn program_is_reset() {
    let mut program = Program::new(1.into(), vec![1], vec![2]);
    program.set_message_nonce(5);
    program.set_static_pages(vec![3, 4]);
    assert_eq!((program.message_nonce(), program.static_pages()), (5, &[3, 4][..]));
    let copy = program.clone();
    program.reset(vec![6]);
    assert_eq!((program.id(), program.code()), (1.into(), &[6][..]));
    assert_eq!((program.message_nonce(), program.static_pages().len()), (0, 0));
    assert_eq!((copy.message_nonce(), copy.code()), (5, &[1][..]));
}

#[test]
fn owners_of_pages() {
    let mut storage = InMemoryAllocationStorage::new();
    assert_eq!(storage.get(page(1)), None);
    storage.set(page(1), 1.into());
    storage.set(page(1), 2.into());
    assert_eq!(storage.get(page(1)), Some(2.into()));
    assert_eq!(storage.remove(page(1)), Some(2.into()));
    assert_eq!(storage.remove(page(1)), None);
}
