//! What holds of the library as a whole.
use vstd::prelude::*;

use crate::allocation::{block_fits, block_free, block_reachable, first_fit};
use crate::config::Config;
use crate::context::OUTGOING_LIMIT;
use crate::ext::{
    access_of, allocated, can_free, charged, freed, reply_given, sent, written, ExtView, PageAction,
};
use crate::id_generator::{id_bytes, id_data, id_data_injective};
use crate::ids::{PageNumber, ProgramId};
use crate::memory::{pages_fit, BASIC_PAGE_SIZE};
use crate::message::{
    all_sent_by, incoming, outgoing, sent_by, IncomingView, MessageView, PacketView, ReplyPacketView,
};
use crate::program::{fresh_program, ProgramView};
use crate::result::{accrued, nothing_handled, one_logged, RunNextView, RunResultView};
use crate::run::{
    after_failure, after_success, entered, ext_at_start, handling, initializing, reported, surrounds,
    EntryPoint, ExecutionView, InstrumentedView, PendingView,
};
use crate::runner::{
    after_dequeue, after_init, after_queueing, initial_memory, next_system_id, persistent_part,
    system_advanced, system_program, RunnerView,
};

verus! {

// Memory that persists.

/// Completing a runner gives back the memory that the runner was made with.
pub proof fn persistent_memory_comes_back(config: Config, persistent_memory: Seq<u8>)
    ensures
        persistent_part(config, initial_memory(config, persistent_memory)) == persistent_memory,
{
    assert(persistent_part(config, initial_memory(config, persistent_memory))
        =~= persistent_memory);
}

/// What completing a runner gives back can start a runner again, and that
/// runner has the same memory behind its static pages, which are zero.
pub proof fn completed_memory_restarts(config: Config, memory: Seq<u8>, pages: int)
    requires
        memory.len() == pages * BASIC_PAGE_SIZE,
        pages_fit(pages),
        config.static_size() <= memory.len(),
    ensures
        persistent_part(config, memory).len() % (BASIC_PAGE_SIZE as nat) == 0,
        config.static_pages.raw + persistent_part(config, memory).len() / (BASIC_PAGE_SIZE as nat)
            == pages,
        initial_memory(config, persistent_part(config, memory)).len() == memory.len(),
        forall|i: int|
            0 <= i < memory.len() ==> initial_memory(config, persistent_part(config, memory))[i]
                == if i < config.static_size() {
                0u8
            } else {
                memory[i]
            },
{
}

// Results.

/// Whether `result` counts `logged` messages that were only logged, and beside
/// them one message for each run that it reports the gas of.
pub open spec fn well_counted(result: RunNextView, logged: nat) -> bool {
    &&& result.handled == result.gas_left.len() + logged
    &&& result.gas_spent.len() == result.gas_left.len()
    &&& forall|i: int|
        0 <= i < result.gas_left.len() ==> (#[trigger] result.gas_left[i]).0
            == result.gas_spent[i].0
}

/// `total` with all of `runs` added to it, one after the other.
pub open spec fn all_accrued(
    total: RunNextView,
    runs: Seq<(ProgramId, RunResultView)>,
) -> RunNextView
    decreases runs.len(),
{
    if runs.len() == 0 {
        total
    } else {
        accrued(all_accrued(total, runs.drop_last()), runs.last().0, runs.last().1)
    }
}

/// However many runs are accrued to a result, it has one entry of gas left and
/// one of gas spent for each of them, both under the same program. It counts
/// each run as a message handled, on top of those that were only logged: none
/// if the result began empty, one if it began with a logged message.
pub proof fn accruing_keeps_count(
    total: RunNextView,
    logged: nat,
    runs: Seq<(ProgramId, RunResultView)>,
)
    ensures
        well_counted(nothing_handled(), 0),
        well_counted(one_logged(), 1),
        well_counted(total, logged) ==> well_counted(all_accrued(total, runs), logged),
        all_accrued(total, runs).handled == total.handled + runs.len(),
        all_accrued(nothing_handled(), runs).handled == all_accrued(
            nothing_handled(),
            runs,
        ).gas_left.len(),
        all_accrued(one_logged(), runs).handled == all_accrued(one_logged(), runs).gas_left.len()
            + 1,
    decreases runs.len(),
{
    if runs.len() > 0 {
        accruing_keeps_count(total, logged, runs.drop_last());
    }
}

/// Accruing a run keeps what was reported before.
pub proof fn accruing_keeps_reports(total: RunNextView, program_id: ProgramId, run: RunResultView)
    ensures
        total.touched.is_prefix_of(accrued(total, program_id, run).touched),
        total.gas_left.is_prefix_of(accrued(total, program_id, run).gas_left),
        total.gas_spent.is_prefix_of(accrued(total, program_id, run).gas_spent),
{
}

/// The result of handling the next message tells how many messages have left
/// the queue for it, whether the message was logged or a program was run.
pub proof fn handled_is_counted(runner: RunnerView, program_id: ProgramId, run: RunResultView)
    ensures
        runner.queue.len() == 0 ==> runner.queue.len() - after_dequeue(runner).queue.len()
            == nothing_handled().handled,
        runner.queue.len() > 0 ==> {
            &&& runner.queue.len() - after_dequeue(runner).queue.len() == one_logged().handled
            &&& runner.queue.len() - after_dequeue(runner).queue.len() == accrued(
                nothing_handled(),
                program_id,
                run,
            ).handled
        },
{
}

// Gas.

/// The gas that a run leaves and the gas that it spends make up its limit.
pub proof fn gas_is_conserved(execution: ExecutionView, touched: Seq<(PageNumber, PageAction)>)
    requires
        execution.ext.gas_left <= execution.ext.gas_limit,
    ensures
        reported(execution, touched).gas_left + reported(execution, touched).gas_spent
            == execution.ext.gas_limit,
{
}

/// Two charges take as much gas as one charge of their sum, in either order.
pub proof fn charges_add_up(ext: ExtView, first: u32, second: u32)
    requires
        first + second <= ext.gas_left,
    ensures
        charged(charged(ext, first), second).gas_left == ext.gas_left - (first + second),
        charged(charged(ext, first), second) == charged(charged(ext, second), first),
{
}

// Pages.

/// There is at most one lowest place for a block.
pub proof fn first_fit_is_unique(
    owners: Map<PageNumber, ProgramId>,
    static_pages: PageNumber,
    max_pages: PageNumber,
    count: int,
    a: int,
    b: int,
)
    requires
        first_fit(owners, static_pages, max_pages, count, a),
        first_fit(owners, static_pages, max_pages, count, b),
    ensures
        a == b,
{
}

/// Where a block fits somewhere, there is a lowest place where it fits.
pub proof fn fit_has_first_fit(
    owners: Map<PageNumber, ProgramId>,
    static_pages: PageNumber,
    max_pages: PageNumber,
    count: int,
    at: int,
) -> (lowest: int)
    requires
        block_fits(owners, static_pages, max_pages, count, at),
    ensures
        first_fit(owners, static_pages, max_pages, count, lowest),
        lowest <= at,
    decreases at - static_pages.raw,
{
    if exists|lower: int|
        lower < at && block_fits(owners, static_pages, max_pages, count, lower) {
        let lower = choose|lower: int|
            lower < at && block_fits(owners, static_pages, max_pages, count, lower);
        fit_has_first_fit(owners, static_pages, max_pages, count, lower)
    } else {
        at
    }
}

/// A request for pages is granted whenever they fit somewhere that the memory
/// reaches or can grow to.
pub proof fn room_is_granted(
    before: ExtView,
    pages: PageNumber,
    start: Option<PageNumber>,
    after: ExtView,
    at: int,
)
    requires
        allocated(before, pages, start, after),
        block_fits(before.owners, before.static_pages, before.max_pages, pages.raw as int, at),
        block_reachable(before.memory, at, pages.raw as int),
    ensures
        start is Some,
{
    if pages.raw > 0 {
        let lowest = fit_has_first_fit(
            before.owners,
            before.static_pages,
            before.max_pages,
            pages.raw as int,
            at,
        );
        assert(block_reachable(before.memory, lowest, pages.raw as int));
    }
}

/// A page that was granted had no owner, is not a static page, is one that
/// programs may use, lies inside the memory, and can be written by the program.
pub proof fn granted_page_is_writable(
    before: ExtView,
    pages: PageNumber,
    start: PageNumber,
    after: ExtView,
    page: PageNumber,
)
    requires
        allocated(before, pages, Some(start), after),
        start.raw <= page.raw < start.raw + pages.raw,
    ensures
        !before.owners.contains_key(page),
        before.static_pages.raw <= page.raw < before.max_pages.raw,
        (page.raw + 1) * BASIC_PAGE_SIZE <= after.memory.len(),
        access_of(after.owners.get(page), after.program_id) == PageAction::Write,
{
    assert(block_free(before.owners, start.raw as int, pages.raw as int));
}

/// A request for pages keeps the owner of every page that has one, and the
/// content of the memory.
pub proof fn granting_keeps_others(
    before: ExtView,
    pages: PageNumber,
    start: Option<PageNumber>,
    after: ExtView,
    page: PageNumber,
)
    requires
        allocated(before, pages, start, after),
    ensures
        before.owners.contains_key(page) ==> after.owners.get(page) == before.owners.get(page),
        before.memory.is_prefix_of(after.memory),
{
    if start is Some && pages.raw > 0 {
        assert(block_free(before.owners, start->0.raw as int, pages.raw as int));
    }
}

/// `ext` once the `count` pages from `start` on have been freed one by one.
pub open spec fn freed_block(ext: ExtView, start: int, count: int) -> ExtView
    decreases count,
{
    if count <= 0 {
        ext
    } else {
        freed(
            freed_block(ext, start, count - 1),
            PageNumber { raw: (start + count - 1) as u32 },
        )
    }
}

/// The owners once a block has been freed are those outside of the block.
proof fn freed_block_owners(ext: ExtView, start: int, count: int)
    requires
        0 <= start,
        0 <= count,
        start + count <= u32::MAX,
    ensures
        freed_block(ext, start, count) == (ExtView {
            owners: freed_block(ext, start, count).owners,
            ..ext
        }),
        forall|page: PageNumber| #[trigger]
            freed_block(ext, start, count).owners.contains_key(page) == (ext.owners.contains_key(
                page,
            ) && !(start <= page.raw < start + count)),
        forall|page: PageNumber| #[trigger]
            freed_block(ext, start, count).owners.contains_key(page) ==> freed_block(
                ext,
                start,
                count,
            ).owners[page] == ext.owners[page],
    decreases count,
{
    if count > 0 {
        freed_block_owners(ext, start, count - 1);
    }
}

/// A program can free the pages that it was granted, one after the other, and
/// then every page has the owner that it had before.
pub proof fn freeing_undoes_granting(
    before: ExtView,
    pages: PageNumber,
    start: PageNumber,
    after: ExtView,
)
    requires
        allocated(before, pages, Some(start), after),
    ensures
        forall|i: int|
            0 <= i < pages.raw ==> can_free(
                #[trigger] freed_block(after, start.raw as int, i),
                PageNumber { raw: (start.raw + i) as u32 },
            ),
        freed_block(after, start.raw as int, pages.raw as int).owners == before.owners,
{
    let s = start.raw as int;
    let n = pages.raw as int;
    if n > 0 {
        assert(first_fit(before.owners, before.static_pages, before.max_pages, n, s));
        assert(block_free(before.owners, s, n));
        assert forall|i: int| 0 <= i < n implies can_free(
            #[trigger] freed_block(after, s, i),
            PageNumber { raw: (start.raw + i) as u32 },
        ) by {
            freed_block_owners(after, s, i);
            let page = PageNumber { raw: (start.raw + i) as u32 };
            assert(after.owners.contains_key(page));
            assert(freed_block(after, s, i).owners.contains_key(page));
        }
        freed_block_owners(after, s, n);
        assert(freed_block(after, s, n).owners =~= before.owners);
    }
}

/// Only the owner of a page can free it; then no program can use the page, no
/// program can free it again, and all other pages keep their owners.
pub proof fn freed_page_is_gone(ext: ExtView, page: PageNumber, other: PageNumber, reader: ProgramId)
    requires
        can_free(ext, page),
    ensures
        access_of(ext.owners.get(page), ext.program_id) == PageAction::Write,
        access_of(freed(ext, page).owners.get(page), reader) == PageAction::NoAccess,
        !can_free(freed(ext, page), page),
        other != page ==> freed(ext, page).owners.get(other) == ext.owners.get(other),
{
}

/// Of two programs, at most one can write a page.
pub proof fn page_has_one_writer(owner: Option<ProgramId>, a: ProgramId, b: ProgramId)
    requires
        access_of(owner, a) == PageAction::Write,
        access_of(owner, b) == PageAction::Write,
    ensures
        a == b,
{
}

/// What was written is read back, and the rest of the memory is as it was.
pub proof fn written_is_read_back(ext: ExtView, ptr: int, val: Seq<u8>)
    requires
        0 <= ptr,
        ptr + val.len() <= ext.memory.len(),
    ensures
        written(ext, ptr, val).memory.len() == ext.memory.len(),
        written(ext, ptr, val).memory.subrange(ptr, ptr + val.len()) == val,
        forall|i: int|
            0 <= i < ext.memory.len() && !(ptr <= i < ptr + val.len()) ==> written(
                ext,
                ptr,
                val,
            ).memory[i] == ext.memory[i],
{
    assert(written(ext, ptr, val).memory.subrange(ptr, ptr + val.len()) =~= val);
}

// Requests during a run.

/// Whether one request of the program can turn `before` into `after`.
pub open spec fn request(before: ExtView, after: ExtView) -> bool {
    ||| exists|pages: PageNumber, start: Option<PageNumber>|
        #[trigger] allocated(before, pages, start, after)
    ||| before.outgoing.len() < OUTGOING_LIMIT && before.nonce < u64::MAX && exists|
        packet: PacketView,
    | after == #[trigger] sent(before, packet)
    ||| before.reply is None && before.nonce < u64::MAX && exists|packet: ReplyPacketView|
        after == #[trigger] reply_given(before, packet)
    ||| exists|page: PageNumber| can_free(before, page) && after == #[trigger] freed(before, page)
    ||| exists|ptr: int, val: Seq<u8>|
        0 <= ptr && ptr + val.len() <= before.memory.len() && after == #[trigger] written(
            before,
            ptr,
            val,
        )
    ||| exists|val: u32| val <= before.gas_left && after == #[trigger] charged(before, val)
    ||| after == before
}

/// Whether `after` can be what has become of `before` during a run.
pub open spec fn follows(before: ExtView, after: ExtView) -> bool {
    &&& after.program_id == before.program_id
    &&& after.static_pages == before.static_pages
    &&& after.max_pages == before.max_pages
    &&& after.message == before.message
    &&& after.gas_limit == before.gas_limit
    &&& after.gas_left <= before.gas_left
    &&& before.outgoing.is_prefix_of(after.outgoing)
    &&& before.reply is Some ==> after.reply == before.reply
    &&& before.nonce <= after.nonce
    &&& before.memory.len() <= after.memory.len()
}

/// A request changes neither the program, the message that it handles, nor its
/// limits; it takes back no message and no gas, and the memory never shrinks.
pub proof fn request_follows(before: ExtView, after: ExtView)
    requires
        request(before, after),
    ensures
        follows(before, after),
{
}

/// What follows from a sequence of requests follows from each part of it.
pub proof fn following_goes_on(a: ExtView, b: ExtView, c: ExtView)
    ensures
        follows(a, a),
        follows(a, b) && follows(b, c) ==> follows(a, c),
{
}

/// A run that was entered in good order can be ended at any time.
pub proof fn run_can_always_end(
    config: Config,
    program_id: ProgramId,
    before: ExtView,
    after: ExtView,
)
    requires
        surrounds(before, config, program_id),
        before.gas_left <= before.gas_limit,
        follows(before, after),
    ensures
        surrounds(after, config, program_id),
        after.gas_left <= after.gas_limit,
{
}

// Names of messages.

/// Whether what the program of `ext` has sent is named by the numbers
/// `numbers`, which ascend, and its reply by `reply`, which is none of those;
/// all of them start at `first` and stay below the nonce.
pub open spec fn named_by(ext: ExtView, first: u64, numbers: Seq<u64>, reply: Option<u64>) -> bool {
    &&& first <= ext.nonce
    &&& numbers.len() == ext.outgoing.len()
    &&& forall|i: int|
        0 <= i < numbers.len() ==> {
            &&& first <= #[trigger] numbers[i] < ext.nonce
            &&& ext.outgoing[i].id == id_bytes(ext.program_id, numbers[i])
            &&& reply != Some(numbers[i])
        }
    &&& forall|i: int, j: int| 0 <= i < j < numbers.len() ==> numbers[i] < numbers[j]
    &&& match (ext.reply, reply) {
        (Some(message), Some(number)) => {
            &&& first <= number < ext.nonce
            &&& message.id == id_bytes(ext.program_id, number)
        },
        (None, None) => true,
        _ => false,
    }
}

/// Whether what the program of `ext` has sent and replied is named by
/// different numbers from `first` on.
pub open spec fn named_from(ext: ExtView, first: u64) -> bool {
    exists|numbers: Seq<u64>, reply: Option<u64>| named_by(ext, first, numbers, reply)
}

/// A run starts with its messages, none, named from the nonce of the program.
pub proof fn names_start_at_nonce(runner: RunnerView, run: PendingView)
    ensures
        named_from(ext_at_start(runner, run), run.program.message_nonce),
{
    assert(named_by(ext_at_start(runner, run), run.program.message_nonce, Seq::empty(), None));
}

/// No request gives a message a number that was used before in the run.
pub proof fn request_keeps_names(before: ExtView, after: ExtView, first: u64)
    requires
        named_from(before, first),
        request(before, after),
    ensures
        named_from(after, first),
{
    let (numbers, reply) = choose|numbers: Seq<u64>, reply: Option<u64>|
        named_by(before, first, numbers, reply);
    if before.outgoing.len() < OUTGOING_LIMIT && before.nonce < u64::MAX && exists|
        packet: PacketView,
    | after == #[trigger] sent(before, packet) {
        assert(named_by(after, first, numbers.push(before.nonce), reply));
    } else if before.reply is None && before.nonce < u64::MAX && exists|packet: ReplyPacketView|
        after == #[trigger] reply_given(before, packet) {
        assert(named_by(after, first, numbers, Some(before.nonce)));
    } else {
        request_follows(before, after);
        assert(after.outgoing == before.outgoing);
        assert(named_by(after, first, numbers, reply));
    }
}

/// Whether `states` are what a run passes through, one request after another.
pub open spec fn trace(states: Seq<ExtView>) -> bool {
    &&& states.len() > 0
    &&& forall|i: int|
        0 <= i < states.len() - 1 ==> request(#[trigger] states[i], states[i + 1])
}

/// Whatever a program asks for from the start of a run on, in any order and
/// any number: its last state follows from the first, and what it has sent and
/// replied is named by different numbers from its nonce on.
pub proof fn run_follows_from_its_start(
    runner: RunnerView,
    run: PendingView,
    states: Seq<ExtView>,
)
    requires
        trace(states),
        states[0] == ext_at_start(runner, run),
    ensures
        follows(states[0], states.last()),
        named_from(states.last(), run.program.message_nonce),
    decreases states.len(),
{
    if states.len() == 1 {
        names_start_at_nonce(runner, run);
    } else {
        let earlier = states.drop_last();
        assert forall|i: int| 0 <= i < earlier.len() - 1 implies request(
            #[trigger] earlier[i],
            earlier[i + 1],
        ) by {
            assert(request(states[i], states[i + 1]));
        }
        run_follows_from_its_start(runner, run, earlier);
        assert(request(states[states.len() - 2], states[states.len() - 2 + 1]));
        request_follows(earlier.last(), states.last());
        following_goes_on(states[0], earlier.last(), states.last());
        request_keeps_names(earlier.last(), states.last(), run.program.message_nonce);
    }
}

/// Two messages that a program sends in one run are named after different
/// bytes, and the reply after others again.
pub proof fn names_differ(
    ext: ExtView,
    first: u64,
    numbers: Seq<u64>,
    reply: Option<u64>,
    i: int,
    j: int,
)
    requires
        named_by(ext, first, numbers, reply),
        0 <= i < numbers.len(),
        0 <= j < numbers.len(),
    ensures
        i != j ==> id_data(ext.program_id, numbers[i]) != id_data(ext.program_id, numbers[j]),
        reply matches Some(number) ==> id_data(ext.program_id, numbers[i]) != id_data(
            ext.program_id,
            number,
        ),
{
    if id_data(ext.program_id, numbers[i]) == id_data(ext.program_id, numbers[j]) {
        id_data_injective(ext.program_id, numbers[i], ext.program_id, numbers[j]);
    }
    if let Some(number) = reply {
        if id_data(ext.program_id, numbers[i]) == id_data(ext.program_id, number) {
            id_data_injective(ext.program_id, numbers[i], ext.program_id, number);
        }
    }
}

/// What a program sends or replies in one run is named after other bytes than
/// whatever it sends once the nonce that the run left behind has been saved.
pub proof fn later_names_differ(
    ext: ExtView,
    first: u64,
    numbers: Seq<u64>,
    reply: Option<u64>,
    number: u64,
    later: u64,
)
    requires
        named_by(ext, first, numbers, reply),
        numbers.contains(number) || reply == Some(number),
        ext.nonce <= later,
    ensures
        id_data(ext.program_id, number) != id_data(ext.program_id, later),
{
    if id_data(ext.program_id, number) == id_data(ext.program_id, later) {
        id_data_injective(ext.program_id, number, ext.program_id, later);
    }
}

/// Naming a message of the system changes no program but the system, of which
/// it advances the nonce by one; the next name is made from other bytes.
pub proof fn system_names_advance(programs: Map<ProgramId, ProgramView>, id: ProgramId)
    requires
        system_program(programs).message_nonce < u64::MAX,
    ensures
        id != ProgramId::system() ==> system_advanced(programs).get(id) == programs.get(id),
        system_program(system_advanced(programs)) == (ProgramView {
            message_nonce: (system_program(programs).message_nonce + 1) as u64,
            ..system_program(programs)
        }),
        id_data(ProgramId::system(), system_program(programs).message_nonce) != id_data(
            ProgramId::system(),
            system_program(system_advanced(programs)).message_nonce,
        ),
{
    let now = system_program(programs).message_nonce;
    let next = system_program(system_advanced(programs)).message_nonce;
    if id_data(ProgramId::system(), now) == id_data(ProgramId::system(), next) {
        id_data_injective(ProgramId::system(), now, ProgramId::system(), next);
    }
}

// Runs.

/// Whether every program stands under its own identifier.
pub open spec fn keyed(programs: Map<ProgramId, ProgramView>) -> bool {
    forall|id: ProgramId| #[trigger] programs.contains_key(id) ==> programs[id].id == id
}

/// No single step takes a program away from its own identifier.
pub proof fn programs_stay_keyed(
    runner: RunnerView,
    execution: ExecutionView,
    program_id: ProgramId,
    code: Seq<u8>,
)
    ensures
        keyed(runner.programs) ==> keyed(system_advanced(runner.programs)),
        keyed(runner.programs) ==> keyed(after_init(runner, program_id, code).programs),
        keyed(execution.programs) ==> keyed(after_success(execution).programs),
        keyed(execution.programs) ==> keyed(after_failure(execution).programs),
{
}

/// Initializing a program twice is as good as doing it once with the last
/// code: nothing is left of the first program but the number of names that the
/// system has given.
pub proof fn initializing_starts_afresh(
    runner: RunnerView,
    program_id: ProgramId,
    first: Seq<u8>,
    code: Seq<u8>,
)
    requires
        program_id != ProgramId::system(),
    ensures
        after_init(runner, program_id, code).programs[program_id] == fresh_program(
            program_id,
            code,
        ),
        after_init(after_init(runner, program_id, first), program_id, code).programs
            == system_advanced(after_init(runner, program_id, code).programs),
{
    let fresh = fresh_program(program_id, code);
    let once = runner.programs.insert(program_id, fresh_program(program_id, first));
    let again = runner.programs.insert(program_id, fresh);
    assert(system_program(once) == system_program(again));
    assert(system_program(system_advanced(once).insert(program_id, fresh)) == system_program(
        system_advanced(again),
    ));
    assert(after_init(after_init(runner, program_id, first), program_id, code).programs
        =~= system_advanced(after_init(runner, program_id, code).programs));
}

/// A run that fails leaves programs and queue as they were when it was
/// entered, however the program behaved.
pub proof fn failure_keeps_programs_and_queue(
    runner: RunnerView,
    run: InstrumentedView,
    ext: ExtView,
)
    ensures
        after_failure(ExecutionView { ext, ..entered(runner, run) }).config == runner.config,
        after_failure(ExecutionView { ext, ..entered(runner, run) }).programs == runner.programs,
        after_failure(ExecutionView { ext, ..entered(runner, run) }).queue == runner.queue,
{
}

/// A run that succeeds changes no program but its own, keeps what was queued,
/// and puts the messages that it reports behind it, in order, from its program.
pub proof fn success_queues_what_it_reports(
    execution: ExecutionView,
    touched: Seq<(PageNumber, PageAction)>,
    other: ProgramId,
    i: int,
)
    ensures
        execution.queue.is_prefix_of(after_success(execution).queue),
        after_success(execution).queue.len() == execution.queue.len() + reported(
            execution,
            touched,
        ).messages.len(),
        0 <= i < reported(execution, touched).messages.len() ==> after_success(
            execution,
        ).queue[execution.queue.len() + i] == sent_by(
            reported(execution, touched).messages[i],
            execution.program.id,
        ),
        other != execution.program.id ==> after_success(execution).programs.get(other)
            == execution.programs.get(other),
{
}

/// The static memory and the nonce that a program leaves behind are what its
/// next run starts with.
pub proof fn saved_state_comes_back(
    execution: ExecutionView,
    message: MessageView,
    binary: Seq<u8>,
)
    requires
        surrounds(execution.ext, execution.config, execution.program.id),
        message.dest == execution.program.id,
    ensures
        ({
            let runner = after_success(execution);
            let run = InstrumentedView {
                run: handling(runner.programs[message.dest], message),
                binary,
            };
            &&& entered(runner, run).static_area == execution.ext.memory.take(
                execution.config.static_size(),
            )
            &&& entered(runner, run).static_area.len() == execution.config.static_size()
            &&& entered(runner, run).ext.nonce == execution.ext.nonce
        }),
{
}

/// A message arrives as it was sent: whoever handles it sees the content, gas
/// limit and value that were sent, and the program that sent it.
pub proof fn sent_message_arrives(packet: PacketView, id: Seq<u8>, source: ProgramId)
    ensures
        incoming(sent_by(outgoing(packet, id), source)) == (IncomingView {
            id,
            source,
            payload: packet.payload,
            gas_limit: packet.gas_limit,
            value: packet.value,
        }),
        sent_by(outgoing(packet, id), source).dest == packet.dest,
{
}

/// A message that is queued stands last, and it meets the program that it is
/// for as that program was; if the queue was empty, it is the next one.
pub proof fn queued_message_meets_its_program(
    runner: RunnerView,
    destination: ProgramId,
    payload: Seq<u8>,
    gas_limit: u64,
    value: u128,
)
    requires
        destination != ProgramId::system(),
        runner.programs.contains_key(destination),
    ensures
        ({
            let queued = after_queueing(runner, destination, payload, gas_limit, value);
            &&& queued.queue.last().dest == destination
            &&& queued.programs.contains_key(destination)
            &&& handling(queued.programs[destination], queued.queue.last()) == (PendingView {
                program: runner.programs[destination],
                message: IncomingView {
                    id: next_system_id(runner.programs),
                    source: ProgramId::system(),
                    payload,
                    gas_limit,
                    value,
                },
                entry_point: EntryPoint::Handle,
                gas_limit,
            })
            &&& runner.queue.len() == 0 ==> queued.queue[0] == queued.queue.last()
        }),
{
}

// Histories of a runner.

/// What can be done with a runner.
pub enum Operation {
    /// The system queues a message.
    Queueing { destination: ProgramId, payload: Seq<u8>, gas_limit: u64, value: u128 },
    /// The next message, if there is one, is taken out of the queue.
    Dequeueing,
    /// A program is put in place, and the message that initializes it is named.
    Initializing { program_id: ProgramId, code: Seq<u8> },
    /// A run is entered and, with `ext` as what surrounds the program, ended.
    Running { run: InstrumentedView, ext: ExtView, succeeded: bool },
    /// The runner is completed, and one is made of what that gives back.
    Restarting { config: Config },
}

/// The run that was entered as `run`, with `ext` as what has become of the
/// surroundings.
pub open spec fn underway(runner: RunnerView, run: InstrumentedView, ext: ExtView) -> ExecutionView {
    ExecutionView { ext, ..entered(runner, run) }
}

/// A runner under `config`, made of what completing `runner` gives back.
pub open spec fn restarted(runner: RunnerView, config: Config) -> RunnerView {
    RunnerView {
        config,
        memory: initial_memory(config, persistent_part(runner.config, runner.memory)),
        ..runner
    }
}

/// Whether `operation` turns `before` into `after`.
pub open spec fn performs(before: RunnerView, operation: Operation, after: RunnerView) -> bool {
    match operation {
        Operation::Queueing { destination, payload, gas_limit, value } => {
            &&& system_program(before.programs).message_nonce < u64::MAX
            &&& after == after_queueing(before, destination, payload, gas_limit, value)
        },
        Operation::Dequeueing => after == after_dequeue(before),
        Operation::Initializing { program_id, code } => {
            &&& system_program(
                before.programs.insert(program_id, fresh_program(program_id, code)),
            ).message_nonce < u64::MAX
            &&& after == after_init(before, program_id, code)
        },
        Operation::Running { run, ext, succeeded } => {
            &&& follows(ext_at_start(before, run.run), ext)
            &&& after == if succeeded {
                after_success(underway(before, run, ext))
            } else {
                after_failure(underway(before, run, ext))
            }
        },
        Operation::Restarting { config } => after == restarted(before, config),
    }
}

/// Whether a runner passes through `states` by `operations`, one after another.
pub open spec fn history(states: Seq<RunnerView>, operations: Seq<Operation>) -> bool {
    &&& states.len() == operations.len() + 1
    &&& forall|i: int|
        0 <= i < operations.len() ==> performs(
            states[i],
            #[trigger] operations[i],
            states[i + 1],
        )
}

/// Whether `operation` neither initializes nor runs the program `id`.
pub open spec fn beside(operation: Operation, id: ProgramId) -> bool {
    match operation {
        Operation::Initializing { program_id, .. } => program_id != id,
        Operation::Running { run, .. } => run.run.program.id != id,
        _ => true,
    }
}

/// Whether no operation of `operations` initializes or runs the program `id`.
pub open spec fn all_beside(operations: Seq<Operation>, id: ProgramId) -> bool {
    forall|i: int| 0 <= i < operations.len() ==> beside(#[trigger] operations[i], id)
}

/// Whether every restart in `operations` is one under `config`.
pub open spec fn all_under(operations: Seq<Operation>, config: Config) -> bool {
    forall|i: int|
        0 <= i < operations.len() ==> (#[trigger] operations[i] matches Operation::Restarting {
            config: next,
        } ==> next == config)
}

/// A history without its last operation is a history.
pub proof fn history_before_last(states: Seq<RunnerView>, operations: Seq<Operation>)
    requires
        history(states, operations),
        operations.len() > 0,
    ensures
        history(states.drop_last(), operations.drop_last()),
        performs(states.drop_last().last(), operations.last(), states.last()),
        states.drop_last()[0] == states[0],
        forall|id: ProgramId| #[trigger]
            all_beside(operations, id) ==> all_beside(operations.drop_last(), id) && beside(
                operations.last(),
                id,
            ),
        forall|config: Config| #[trigger]
            all_under(operations, config) ==> all_under(operations.drop_last(), config) && (
            operations.last() matches Operation::Restarting { config: next } ==> next == config),
{
    let earlier = operations.drop_last();
    assert forall|i: int| 0 <= i < earlier.len() implies performs(
        states.drop_last()[i],
        #[trigger] earlier[i],
        states.drop_last()[i + 1],
    ) by {
        assert(earlier[i] == operations[i]);
    }
    assert forall|id: ProgramId| #[trigger] all_beside(operations, id) implies all_beside(
        earlier,
        id,
    ) && beside(operations.last(), id) by {
        assert forall|i: int| 0 <= i < earlier.len() implies beside(#[trigger] earlier[i], id) by {
            assert(earlier[i] == operations[i]);
        }
    }
    assert forall|config: Config| #[trigger] all_under(operations, config) implies all_under(
        earlier,
        config,
    ) && (operations.last() matches Operation::Restarting { config: next } ==> next == config) by {
        assert forall|i: int| 0 <= i < earlier.len() implies (
        #[trigger] earlier[i] matches Operation::Restarting { config: next } ==> next == config) by {
            assert(earlier[i] == operations[i]);
        }
    }
    assert(operations[operations.len() - 1] == operations.last());
}

/// A run that is entered, makes any requests and is ended is one operation on
/// the runner.
pub proof fn ended_run_is_an_operation(
    runner: RunnerView,
    run: InstrumentedView,
    states: Seq<ExtView>,
)
    requires
        trace(states),
        states[0] == ext_at_start(runner, run.run),
    ensures
        performs(
            runner,
            Operation::Running { run, ext: states.last(), succeeded: true },
            after_success(underway(runner, run, states.last())),
        ),
        performs(
            runner,
            Operation::Running { run, ext: states.last(), succeeded: false },
            after_failure(underway(runner, run, states.last())),
        ),
{
    run_follows_from_its_start(runner, run.run, states);
}

/// Whatever is done with a runner, programs stay under their own identifiers.
pub proof fn history_keeps_programs_keyed(states: Seq<RunnerView>, operations: Seq<Operation>)
    requires
        history(states, operations),
        keyed(states[0].programs),
    ensures
        keyed(states.last().programs),
    decreases operations.len(),
{
    if operations.len() > 0 {
        history_before_last(states, operations);
        history_keeps_programs_keyed(states.drop_last(), operations.drop_last());
    }
}

/// The number that the next message of the system is named from.
pub open spec fn system_number(runner: RunnerView) -> u64 {
    system_program(runner.programs).message_nonce
}

/// The name that `operation` gives to a message of the system, if it gives one.
pub open spec fn system_name_given(before: RunnerView, operation: Operation) -> Option<Seq<u8>> {
    match operation {
        Operation::Queueing { .. } => Some(next_system_id(before.programs)),
        Operation::Initializing { program_id, code } => Some(
            next_system_id(before.programs.insert(program_id, fresh_program(program_id, code))),
        ),
        _ => None,
    }
}

/// As long as the system itself is neither initialized nor run, its number
/// never goes down.
proof fn system_number_never_falls(
    states: Seq<RunnerView>,
    operations: Seq<Operation>,
    i: int,
    j: int,
)
    requires
        history(states, operations),
        all_beside(operations, ProgramId::system()),
        0 <= i <= j < states.len(),
    ensures
        system_number(states[i]) <= system_number(states[j]),
    decreases j - i,
{
    if i < j {
        system_number_never_falls(states, operations, i, j - 1);
        assert(performs(states[j - 1], operations[j - 1], states[j - 1 + 1]));
        assert(beside(operations[j - 1], ProgramId::system()));
    }
}

/// Messages of the system are named from numbers that strictly ascend, and so
/// from different bytes, whatever is done in between: messages queued and taken
/// out, other programs initialized and run, the runner completed and made anew.
pub proof fn system_names_ascend(
    states: Seq<RunnerView>,
    operations: Seq<Operation>,
    i: int,
    j: int,
)
    requires
        history(states, operations),
        all_beside(operations, ProgramId::system()),
        0 <= i < j < operations.len(),
        system_name_given(states[i], operations[i]) is Some,
        system_name_given(states[j], operations[j]) is Some,
    ensures
        system_name_given(states[i], operations[i]) == Some(
            id_bytes(ProgramId::system(), system_number(states[i])),
        ),
        system_name_given(states[j], operations[j]) == Some(
            id_bytes(ProgramId::system(), system_number(states[j])),
        ),
        system_number(states[i]) < system_number(states[j]),
        id_data(ProgramId::system(), system_number(states[i])) != id_data(
            ProgramId::system(),
            system_number(states[j]),
        ),
{
    assert(performs(states[i], operations[i], states[i + 1]));
    assert(beside(operations[i], ProgramId::system()));
    assert(beside(operations[j], ProgramId::system()));
    system_number_never_falls(states, operations, i + 1, j);
    let a = system_number(states[i]);
    let b = system_number(states[j]);
    if id_data(ProgramId::system(), a) == id_data(ProgramId::system(), b) {
        id_data_injective(ProgramId::system(), a, ProgramId::system(), b);
    }
}

/// Whether `operation` does not initialize the program `id`, and runs it, if at
/// all, as it is stored in `before`.
pub open spec fn as_stored(before: RunnerView, operation: Operation, id: ProgramId) -> bool {
    match operation {
        Operation::Initializing { program_id, .. } => program_id != id,
        Operation::Running { run, .. } => run.run.program.id == id ==> {
            &&& before.programs.contains_key(id)
            &&& run.run.program == before.programs[id]
        },
        _ => true,
    }
}

/// Whether no operation of a history initializes the program `id`, and each
/// run of it is one of the program as it is stored.
pub open spec fn all_as_stored(
    states: Seq<RunnerView>,
    operations: Seq<Operation>,
    id: ProgramId,
) -> bool {
    forall|k: int|
        0 <= k < operations.len() ==> as_stored(states[k], #[trigger] operations[k], id)
}

/// The runs that are handed out are runs of programs as they are stored: the
/// run that handles the next message and, unless it is for the system, the run
/// that initializes a program.
pub proof fn handed_out_as_stored(
    runner: RunnerView,
    id: ProgramId,
    code: Seq<u8>,
    payload: Seq<u8>,
    gas_limit: u64,
    value: u128,
    binary: Seq<u8>,
    ext: ExtView,
    succeeded: bool,
)
    requires
        keyed(runner.programs),
    ensures
        runner.queue.len() > 0 && runner.programs.contains_key(runner.queue[0].dest) ==> as_stored(
            after_dequeue(runner),
            Operation::Running {
                run: InstrumentedView {
                    run: handling(runner.programs[runner.queue[0].dest], runner.queue[0]),
                    binary,
                },
                ext,
                succeeded,
            },
            runner.queue[0].dest,
        ),
        id != ProgramId::system() ==> as_stored(
            after_init(runner, id, code),
            Operation::Running {
                run: InstrumentedView {
                    run: initializing(
                        fresh_program(id, code),
                        next_system_id(runner.programs.insert(id, fresh_program(id, code))),
                        payload,
                        gas_limit,
                        value,
                    ),
                    binary,
                },
                ext,
                succeeded,
            },
            id,
        ),
{
}

/// The number that the next message of the program `id` is named from.
pub open spec fn program_number(runner: RunnerView, id: ProgramId) -> u64 {
    if runner.programs.contains_key(id) {
        runner.programs[id].message_nonce
    } else {
        0
    }
}

/// As long as a program is not initialized again and runs as it is stored, its
/// number never goes down, whatever else is done.
pub proof fn program_number_never_falls(
    states: Seq<RunnerView>,
    operations: Seq<Operation>,
    id: ProgramId,
    i: int,
    j: int,
)
    requires
        history(states, operations),
        all_as_stored(states, operations, id),
        0 <= i <= j < states.len(),
    ensures
        program_number(states[i], id) <= program_number(states[j], id),
    decreases j - i,
{
    if i < j {
        program_number_never_falls(states, operations, id, i, j - 1);
        assert(performs(states[j - 1], operations[j - 1], states[j - 1 + 1]));
        assert(as_stored(states[j - 1], operations[j - 1], id));
    }
}

/// A run, what surrounds its program in the end, the numbers that name what it
/// has sent and replied, and one of those numbers.
pub struct NamingRun {
    pub run: InstrumentedView,
    pub ext: ExtView,
    pub numbers: Seq<u64>,
    pub reply: Option<u64>,
    pub number: u64,
}

/// Whether what was sent and replied in a run is named by its numbers, of
/// which `number` is one.
pub open spec fn uses_number(naming: NamingRun) -> bool {
    &&& named_by(
        naming.ext,
        naming.run.run.program.message_nonce,
        naming.numbers,
        naming.reply,
    )
    &&& naming.numbers.contains(naming.number) || naming.reply == Some(naming.number)
}

/// The numbers that name what a program sends and replies in a run that
/// succeeded are all lower than those of any later run of it, and so the names
/// are made from different bytes, whatever is done in between: the program and
/// others run, other programs initialized, messages queued and taken out, the
/// runner completed and made anew.
pub proof fn program_names_ascend(
    states: Seq<RunnerView>,
    operations: Seq<Operation>,
    id: ProgramId,
    i: int,
    j: int,
    earlier: NamingRun,
    later: NamingRun,
    succeeded: bool,
)
    requires
        history(states, operations),
        all_as_stored(states, operations, id),
        0 <= i < j < operations.len(),
        operations[i] == (Operation::Running { run: earlier.run, ext: earlier.ext, succeeded: true }),
        operations[j] == (Operation::Running { run: later.run, ext: later.ext, succeeded }),
        earlier.run.run.program.id == id,
        later.run.run.program.id == id,
        uses_number(earlier),
        uses_number(later),
    ensures
        earlier.ext.program_id == id,
        later.ext.program_id == id,
        earlier.number < program_number(states[i + 1], id),
        program_number(states[i + 1], id) <= program_number(states[j], id),
        program_number(states[j], id) <= later.number,
        id_data(id, earlier.number) != id_data(id, later.number),
{
    assert(performs(states[i], operations[i], states[i + 1]));
    assert(performs(states[j], operations[j], states[j + 1]));
    assert(as_stored(states[j], operations[j], id));
    program_number_never_falls(states, operations, id, i + 1, j);
    if id_data(id, earlier.number) == id_data(id, later.number) {
        id_data_injective(id, earlier.number, id, later.number);
    }
}

/// Whatever is done with a runner, its configuration stays, unless a runner is
/// made under another one.
pub proof fn config_stays(states: Seq<RunnerView>, operations: Seq<Operation>)
    requires
        history(states, operations),
        all_under(operations, states[0].config),
    ensures
        states.last().config == states[0].config,
    decreases operations.len(),
{
    if operations.len() > 0 {
        history_before_last(states, operations);
        config_stays(states.drop_last(), operations.drop_last());
    }
}

/// A program that is neither initialized nor run stays what it is, but for the
/// nonce of the system.
pub proof fn program_stays(states: Seq<RunnerView>, operations: Seq<Operation>, id: ProgramId)
    requires
        history(states, operations),
        all_beside(operations, id),
        states[0].programs.contains_key(id),
    ensures
        states.last().programs.contains_key(id),
        states.last().programs[id] == (ProgramView {
            message_nonce: states.last().programs[id].message_nonce,
            ..states[0].programs[id]
        }),
        id != ProgramId::system() ==> states.last().programs[id] == states[0].programs[id],
    decreases operations.len(),
{
    if operations.len() > 0 {
        history_before_last(states, operations);
        program_stays(states.drop_last(), operations.drop_last(), id);
    }
}

/// The static memory and the nonce that a program leaves behind are what its
/// next run starts with, whatever is done in between beside the program. Of the
/// system only the static memory is, since its nonce counts the names it gives.
pub proof fn saved_state_survives(
    execution: ExecutionView,
    states: Seq<RunnerView>,
    operations: Seq<Operation>,
    message: MessageView,
    binary: Seq<u8>,
)
    requires
        surrounds(execution.ext, execution.config, execution.program.id),
        history(states, operations),
        states[0] == after_success(execution),
        all_beside(operations, execution.program.id),
        message.dest == execution.program.id,
    ensures
        states.last().programs.contains_key(message.dest),
        ({
            let run = InstrumentedView {
                run: handling(states.last().programs[message.dest], message),
                binary,
            };
            let next = entered(states.last(), run);
            &&& next.static_area == execution.ext.memory.take(execution.config.static_size())
            &&& next.static_area.len() == execution.config.static_size()
            &&& message.dest != ProgramId::system() ==> next.ext.nonce == execution.ext.nonce
            &&& all_under(operations, execution.config) ==> next.config == execution.config
        }),
{
    program_stays(states, operations, execution.program.id);
    if all_under(operations, execution.config) {
        config_stays(states, operations);
    }
}

/// The messages that `operation` puts at the end of the queue.
pub open spec fn put_by(before: RunnerView, operation: Operation) -> Seq<MessageView> {
    match operation {
        Operation::Queueing { destination, payload, gas_limit, value } => seq![
            MessageView {
                id: next_system_id(before.programs),
                source: ProgramId::system(),
                dest: destination,
                payload,
                gas_limit,
                value,
            },
        ],
        Operation::Running { run, ext, succeeded: true } => all_sent_by(
            ext.outgoing,
            run.run.program.id,
        ),
        _ => Seq::empty(),
    }
}

/// All messages that come into the queue during a history, in order.
pub open spec fn all_put(states: Seq<RunnerView>, operations: Seq<Operation>) -> Seq<MessageView>
    decreases operations.len(),
{
    if operations.len() == 0 {
        Seq::empty()
    } else {
        all_put(states.drop_last(), operations.drop_last()) + put_by(
            states.drop_last().last(),
            operations.last(),
        )
    }
}

/// How many messages are taken out of the queue during a history.
pub open spec fn taken(states: Seq<RunnerView>, operations: Seq<Operation>) -> nat
    decreases operations.len(),
{
    if operations.len() == 0 {
        0
    } else if operations.last() is Dequeueing && states.drop_last().last().queue.len() > 0 {
        taken(states.drop_last(), operations.drop_last()) + 1
    } else {
        taken(states.drop_last(), operations.drop_last())
    }
}

/// Messages leave the queue in the order in which they came, and none is lost
/// or made up: what is in the queue is what was there and what came since, in
/// order, without as many of the first as have been taken out.
pub proof fn queue_is_first_in_first_out(states: Seq<RunnerView>, operations: Seq<Operation>)
    requires
        history(states, operations),
    ensures
        taken(states, operations) <= states[0].queue.len() + all_put(states, operations).len(),
        states.last().queue == (states[0].queue + all_put(states, operations)).skip(
            taken(states, operations) as int,
        ),
    decreases operations.len(),
{
    if operations.len() > 0 {
        history_before_last(states, operations);
        queue_is_first_in_first_out(states.drop_last(), operations.drop_last());
        let before = states.drop_last().last();
        let put = put_by(before, operations.last());
        let came = states[0].queue + all_put(states.drop_last(), operations.drop_last());
        let n = taken(states.drop_last(), operations.drop_last()) as int;
        assert(states[0].queue + all_put(states, operations) =~= came + put);
        assert(before.queue == came.skip(n));
        if operations.last() is Dequeueing {
            assert(put =~= Seq::empty());
            assert(came + put =~= came);
            if before.queue.len() > 0 {
                assert(states.last().queue =~= came.skip(n + 1));
            }
        } else {
            assert(states.last().queue =~= before.queue + put);
            assert(before.queue + put =~= (came + put).skip(n));
        }
    } else {
        assert(states.last().queue =~= (states[0].queue + all_put(states, operations)).skip(0));
    }
}

} // verus!
