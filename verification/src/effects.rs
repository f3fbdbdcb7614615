//! What each operation does to what it is given, in terms of its inputs.
use vstd::prelude::*;
use vstd::std_specs::convert::FromSpec;

use crate::config::{Config, BASIC_PAGES, MAX_PAGES};
use crate::context::OUTGOING_LIMIT;
use crate::ext::{
    access_of, allocated, can_free, charged, freed, reply_given, sent, written, Ext, ExtView,
    PageAction,
};
use crate::id_generator::{blake2b_digest, id_bytes, id_data};
use crate::ids::{le_bytes, PageNumber, ProgramId};
use crate::laws::{
    all_under, following_goes_on, history, history_before_last, performs, request, request_follows,
    restarted, room_is_granted, trace, underway, Operation,
};
use crate::memory::{grown, overwritten, pages_fit, zeros, BASIC_PAGE_SIZE, MAX_MEMORY_PAGES};
use crate::message::{
    all_sent_by, incoming, message_views, outgoing, outgoing_views, replied, reply_view, sent_by,
    IncomingMessage, Message, MessageView, OutgoingMessage, OutgoingPacket, OutgoingView, PacketView,
    ReplyMessage, ReplyPacket, ReplyPacketView,
};
use crate::program::{fresh_program, ProgramView};
use crate::result::{
    accrued, nothing_handled, one_logged, RunError, RunNextResult, RunNextView, RunResult,
    RunResultView,
};
use crate::run::{
    after_failure, after_success, entered, ext_at_start, handling, initializing, reported, surrounds,
    EntryPoint, Execution, ExecutionView, InstrumentedRun, InstrumentedView, PendingRun,
};
use crate::runner::{
    after_dequeue, after_init, after_queueing, initial_memory, next_system_id, persistent_part,
    system_advanced, system_program, Runner, RunnerView,
};
use crate::storage::{AllocationStorage, MessageQueue, ProgramStorage};

verus! {

// Sizes, limits and identifiers.

/// A page has 65536 bytes, a memory at most 65536 pages, and a program sends at
/// most 1024 messages in a run; unless configured otherwise, there are 256
/// static pages and 16384 pages that programs may use.
pub proof fn sizes_and_limits(config: Config, pages: int)
    ensures
        BASIC_PAGE_SIZE == 65536,
        MAX_MEMORY_PAGES == 65536,
        OUTGOING_LIMIT == 1024,
        BASIC_PAGES == 256,
        MAX_PAGES == 16384,
        config.static_size() == config.static_pages.raw * 65536,
        pages_fit(pages) <==> 0 <= pages <= 65536 && pages * 65536 <= usize::MAX,
{
}

/// The identifier of the system has only zero bytes, and the number zero stands
/// for it. An identifier made from a number holds the number in its first eight
/// bytes and nothing else, so different numbers give different identifiers.
pub proof fn identifiers_of_numbers(v: u64, w: u64, raw: u32, i: int)
    ensures
        0 <= i < 32 ==> ProgramId::system().bytes[i] == 0,
        0 <= i < 8 ==> <ProgramId as FromSpec<u64>>::from_spec(v).bytes[i] == le_bytes(v)[i],
        8 <= i < 32 ==> <ProgramId as FromSpec<u64>>::from_spec(v).bytes[i] == 0,
        v != w ==> <ProgramId as FromSpec<u64>>::from_spec(v) != <ProgramId as FromSpec<
            u64,
        >>::from_spec(w),
        <ProgramId as FromSpec<u64>>::from_spec(v) == ProgramId::system() <==> v == 0,
        <PageNumber as FromSpec<u32>>::from_spec(raw).raw == raw,
{
    let a = <ProgramId as FromSpec<u64>>::from_spec(v);
    let b = <ProgramId as FromSpec<u64>>::from_spec(w);
    if a == b {
        assert forall|k: int| 0 <= k < 8 implies le_bytes(v)[k] == le_bytes(w)[k] by {
            assert(a.bytes[k] == b.bytes[k]);
        }
        assert(le_bytes(v) =~= le_bytes(w));
        crate::ids::le_bytes_injective(v, w);
    }
    let zero = <ProgramId as FromSpec<u64>>::from_spec(0);
    assert(zero.bytes =~= ProgramId::system().bytes);
    if a == ProgramId::system() {
        assert forall|k: int| 0 <= k < 8 implies le_bytes(v)[k] == le_bytes(0)[k] by {
            assert(a.bytes[k] == zero.bytes[k]);
        }
        assert(le_bytes(v) =~= le_bytes(0));
        crate::ids::le_bytes_injective(v, 0);
    }
}

/// A message is named by the 32-byte digest, without a key, of the 32 bytes of
/// the program and the eight little-endian bytes of the number after them.
pub proof fn names_are_digests(program_id: ProgramId, nonce: u64, i: int)
    ensures
        id_data(program_id, nonce).len() == 40,
        0 <= i < 32 ==> id_data(program_id, nonce)[i] == program_id.bytes[i],
        32 <= i < 40 ==> id_data(program_id, nonce)[i] == le_bytes(nonce)[i - 32],
        id_bytes(program_id, nonce) == blake2b_digest(
            32,
            Seq::empty(),
            id_data(program_id, nonce),
        ),
{
}

/// The two entry points are the functions `handle` and `init`.
pub proof fn entry_points_are_named(entry_point: EntryPoint)
    ensures
        <&'static str as FromSpec<EntryPoint>>::from_spec(entry_point)@ == match entry_point {
            EntryPoint::Handle => "handle"@,
            EntryPoint::Init => "init"@,
        },
{
}

/// An error says that there is no program, or what the environment said.
pub proof fn errors_say_why(why: String)
    ensures
        RunError::ProgramNotFound.text() == "Program not found"@,
        RunError::Instrument(why).text() == "Error instrumenting: "@ + why@,
        RunError::Execution(why).text() == why@,
{
}

// Memory.

/// New memory is zero; a write changes exactly the bytes that it covers; growing
/// keeps every byte and adds zeros up to the end of the last page.
pub proof fn memory_holds_what_is_put_in(
    memory: Seq<u8>,
    size: nat,
    offset: int,
    data: Seq<u8>,
    pages: int,
    i: int,
)
    requires
        0 <= offset,
        offset + data.len() <= memory.len(),
    ensures
        zeros(size).len() == size,
        0 <= i < size ==> zeros(size)[i] == 0,
        overwritten(memory, offset, data).len() == memory.len(),
        0 <= i < memory.len() ==> overwritten(memory, offset, data)[i] == if offset <= i < offset
            + data.len() {
            data[i - offset]
        } else {
            memory[i]
        },
        grown(memory, pages).len() == if memory.len() < pages * 65536 {
            pages * 65536
        } else {
            memory.len() as int
        },
        0 <= i < memory.len() ==> grown(memory, pages)[i] == memory[i],
        memory.len() <= i < grown(memory, pages).len() ==> grown(memory, pages)[i] == 0,
{
}

/// A runner starts with zero static pages and, behind them, the bytes it is
/// given; what outlives it are the bytes behind the static pages.
pub proof fn persistent_bytes_stand_behind_static_pages(
    config: Config,
    persistent: Seq<u8>,
    memory: Seq<u8>,
    i: int,
)
    requires
        config.static_pages.raw * 65536 <= memory.len(),
    ensures
        initial_memory(config, persistent).len() == config.static_pages.raw * 65536
            + persistent.len(),
        0 <= i < config.static_pages.raw * 65536 ==> initial_memory(config, persistent)[i] == 0,
        0 <= i < persistent.len() ==> initial_memory(config, persistent)[config.static_pages.raw
            * 65536 + i] == persistent[i],
        persistent_part(config, memory).len() == memory.len() - config.static_pages.raw * 65536,
        0 <= i < memory.len() - config.static_pages.raw * 65536 ==> persistent_part(
            config,
            memory,
        )[i] == memory[config.static_pages.raw * 65536 + i],
{
}

// Messages.

/// A message keeps every field on its way from a packet to an outgoing message,
/// to a queued message, and to what its destination is given; so does a reply.
pub proof fn messages_keep_their_fields(
    packet: PacketView,
    sending: OutgoingView,
    reply: ReplyPacketView,
    queued: MessageView,
    id: Seq<u8>,
    source: ProgramId,
)
    ensures
        outgoing(packet, id).id == id,
        outgoing(packet, id).dest == packet.dest,
        outgoing(packet, id).payload == packet.payload,
        outgoing(packet, id).gas_limit == packet.gas_limit,
        outgoing(packet, id).value == packet.value,
        sent_by(sending, source).id == sending.id,
        sent_by(sending, source).source == source,
        sent_by(sending, source).dest == sending.dest,
        sent_by(sending, source).payload == sending.payload,
        sent_by(sending, source).gas_limit == sending.gas_limit,
        sent_by(sending, source).value == sending.value,
        incoming(queued).id == queued.id,
        incoming(queued).source == queued.source,
        incoming(queued).payload == queued.payload,
        incoming(queued).gas_limit == queued.gas_limit,
        incoming(queued).value == queued.value,
        replied(reply, id).id == id,
        replied(reply, id).payload == reply.payload,
        replied(reply, id).gas_limit == reply.gas_limit,
        replied(reply, id).value == reply.value,
{
}

/// Messages taken together are the messages one by one, in their order.
pub proof fn messages_are_taken_one_by_one(
    messages: Seq<Message>,
    sendings: Seq<OutgoingMessage>,
    views: Seq<OutgoingView>,
    source: ProgramId,
    reply: Option<ReplyMessage>,
    i: int,
)
    ensures
        message_views(messages).len() == messages.len(),
        0 <= i < messages.len() ==> message_views(messages)[i] == messages[i]@,
        outgoing_views(sendings).len() == sendings.len(),
        0 <= i < sendings.len() ==> outgoing_views(sendings)[i] == sendings[i]@,
        all_sent_by(views, source).len() == views.len(),
        0 <= i < views.len() ==> all_sent_by(views, source)[i] == sent_by(views[i], source),
        reply is None ==> reply_view(reply) is None,
        reply matches Some(message) ==> reply_view(reply) == Some(message@),
{
}

/// What is said of messages, packets and replies is said of all their fields.
pub proof fn messages_are_seen_whole(
    message: Message,
    arrived: IncomingMessage,
    packet: OutgoingPacket,
    sending: OutgoingMessage,
    answer: ReplyPacket,
    reply: ReplyMessage,
)
    ensures
        message@.id == message.id.bytes@,
        message@.source == message.source,
        message@.dest == message.dest,
        message@.payload == message.payload@,
        message@.gas_limit == message.gas_limit,
        message@.value == message.value,
        arrived@.id == arrived.id.bytes@,
        arrived@.source == arrived.source,
        arrived@.payload == arrived.payload@,
        arrived@.gas_limit == arrived.gas_limit,
        arrived@.value == arrived.value,
        packet@.dest == packet.dest,
        packet@.payload == packet.payload@,
        packet@.gas_limit == packet.gas_limit,
        packet@.value == packet.value,
        sending@.id == sending.id.bytes@,
        sending@.dest == sending.dest,
        sending@.payload == sending.payload@,
        sending@.gas_limit == sending.gas_limit,
        sending@.value == sending.value,
        answer@.payload == answer.payload@,
        answer@.gas_limit == answer.gas_limit,
        answer@.value == answer.value,
        reply@.id == reply.id.bytes@,
        reply@.payload == reply.payload@,
        reply@.gas_limit == reply.gas_limit,
        reply@.value == reply.value,
        <IncomingMessage as FromSpec<Message>>::from_spec(message).id == message.id,
        <IncomingMessage as FromSpec<Message>>::from_spec(message).source == message.source,
        <IncomingMessage as FromSpec<Message>>::from_spec(message).payload == message.payload,
        <IncomingMessage as FromSpec<Message>>::from_spec(message).gas_limit == message.gas_limit,
        <IncomingMessage as FromSpec<Message>>::from_spec(message).value == message.value,
{
}

/// What is said of results and of runs that wait is said of all their fields.
pub proof fn results_and_runs_are_seen_whole(
    result: RunResult,
    total: RunNextResult,
    pending: PendingRun,
    ready: InstrumentedRun,
)
    ensures
        result@.touched == result.touched@,
        result@.messages == outgoing_views(result.messages@),
        result@.reply == reply_view(result.reply),
        result@.gas_left == result.gas_left,
        result@.gas_spent == result.gas_spent,
        total@.handled == total.handled,
        total@.touched == total.touched@,
        total@.gas_left == total.gas_left@,
        total@.gas_spent == total.gas_spent@,
        pending@.program == pending.program@,
        pending@.message == pending.message@,
        pending@.entry_point == pending.entry_point,
        pending@.gas_limit == pending.gas_limit,
        ready@.run.program == ready.program@,
        ready@.run.message == ready.message@,
        ready@.run.entry_point == ready.entry_point,
        ready@.run.gas_limit == ready.gas_limit,
        ready@.binary == ready.binary@,
{
}

/// What is said of a runner, of a run under way and of what surrounds it is
/// said of the stores, the memory and the messages that they have.
pub proof fn runners_are_seen_whole<AS: AllocationStorage, MQ: MessageQueue, PS: ProgramStorage>(
    runner: Runner<AS, MQ, PS>,
    execution: Execution<AS, MQ, PS>,
    ext: Ext<AS>,
)
    ensures
        runner@.config == runner.config,
        runner@.programs == runner.program_storage.programs(),
        runner@.queue == runner.message_queue.messages(),
        runner@.memory == runner.memory@,
        runner@.owners == runner.allocations.owners(),
        execution@.config == execution.config,
        execution@.programs == execution.program_storage.programs(),
        execution@.queue == execution.message_queue.messages(),
        execution@.ext == execution.ext@,
        execution@.program == execution.program@,
        execution@.binary == execution.binary@,
        execution@.static_area == execution.static_area@,
        execution@.entry_point == execution.entry_point,
        ext@.program_id == ext.memory_context.program_id,
        ext@.static_pages == ext.memory_context.static_pages,
        ext@.max_pages == ext.memory_context.max_pages,
        ext@.memory == ext.memory_context.memory@,
        ext@.owners == ext.memory_context.allocations.owners(),
        ext@.message == ext.messages.current@,
        ext@.outgoing == outgoing_views(ext.messages.outgoing@),
        ext@.reply == reply_view(ext.messages.reply),
        ext@.nonce == ext.messages.id_generator.nonce,
        ext@.gas_limit == ext.gas_counter.spec_limit(),
        ext@.gas_left == ext.gas_counter.spec_left(),
{
}

/// Runners, runs under way and what surrounds them are in good order whenever
/// their parts are, the memory covers the static pages, and what surrounds a run
/// is that of its program; no more is asked.
pub proof fn good_order_asks_no_more<AS: AllocationStorage, MQ: MessageQueue, PS: ProgramStorage>(
    runner: Runner<AS, MQ, PS>,
    execution: Execution<AS, MQ, PS>,
    ext: Ext<AS>,
)
    ensures
        runner.wf() <==> {
            &&& runner.program_storage.wf()
            &&& runner.message_queue.wf()
            &&& runner.memory.wf()
            &&& runner.allocations.wf()
            &&& runner.config.static_pages.raw * 65536 <= runner.memory@.len()
        },
        ext.wf() <==> {
            &&& ext.memory_context.memory.wf()
            &&& ext.memory_context.allocations.wf()
            &&& ext.gas_counter.spec_left() <= ext.gas_counter.spec_limit()
            &&& ext.messages.id_generator.program_id == ext.memory_context.program_id
        },
        execution.wf() <==> {
            &&& execution.program_storage.wf()
            &&& execution.message_queue.wf()
            &&& execution.ext.wf()
            &&& execution.ext.gas_counter.spec_limit() == execution.gas_limit
            &&& execution.ext.memory_context.program_id == execution.program@.id
            &&& execution.ext.memory_context.static_pages == execution.config.static_pages
            &&& execution.ext.memory_context.max_pages == execution.config.max_pages
            &&& execution.config.static_pages.raw * 65536
                <= execution.ext.memory_context.memory@.len()
        },
        runner.memory.wf() <==> {
            &&& runner.memory@.len() % 65536 == 0
            &&& runner.memory@.len() <= 65536 * 65536
            &&& runner.memory@.len() <= usize::MAX
        },
{
}

// Requests during a run.

/// Whether `before` and `after` differ at most in memory and owners of pages.
pub open spec fn same_messages_and_gas(before: ExtView, after: ExtView) -> bool {
    &&& after.program_id == before.program_id
    &&& after.static_pages == before.static_pages
    &&& after.max_pages == before.max_pages
    &&& after.message == before.message
    &&& after.outgoing == before.outgoing
    &&& after.reply == before.reply
    &&& after.nonce == before.nonce
    &&& after.gas_limit == before.gas_limit
    &&& after.gas_left == before.gas_left
}

/// Whether `before` and `after` differ at most in what was sent and replied, in
/// the nonce, and in the gas that is left.
pub open spec fn same_pages(before: ExtView, after: ExtView) -> bool {
    &&& after.program_id == before.program_id
    &&& after.static_pages == before.static_pages
    &&& after.max_pages == before.max_pages
    &&& after.memory == before.memory
    &&& after.owners == before.owners
    &&& after.message == before.message
    &&& after.gas_limit == before.gas_limit
}

/// Sending puts one message, with all that the packet holds, behind those sent
/// before, under the name that the nonce stands for; nothing else changes but
/// the nonce, which goes up by one.
pub proof fn sending_adds_the_packet(ext: ExtView, packet: PacketView, i: int)
    requires
        ext.nonce < u64::MAX,
    ensures
        sent(ext, packet).outgoing.len() == ext.outgoing.len() + 1,
        0 <= i < ext.outgoing.len() ==> sent(ext, packet).outgoing[i] == ext.outgoing[i],
        sent(ext, packet).outgoing.last().id == id_bytes(ext.program_id, ext.nonce),
        sent(ext, packet).outgoing.last().dest == packet.dest,
        sent(ext, packet).outgoing.last().payload == packet.payload,
        sent(ext, packet).outgoing.last().gas_limit == packet.gas_limit,
        sent(ext, packet).outgoing.last().value == packet.value,
        sent(ext, packet).reply == ext.reply,
        sent(ext, packet).nonce == ext.nonce + 1,
        sent(ext, packet).gas_left == ext.gas_left,
        same_pages(ext, sent(ext, packet)),
{
}

/// Replying records all that the packet holds, under the name that the nonce
/// stands for; nothing else changes but the nonce, which goes up by one.
pub proof fn replying_records_the_packet(ext: ExtView, packet: ReplyPacketView)
    requires
        ext.nonce < u64::MAX,
    ensures
        reply_given(ext, packet).reply matches Some(reply) && {
            &&& reply.id == id_bytes(ext.program_id, ext.nonce)
            &&& reply.payload == packet.payload
            &&& reply.gas_limit == packet.gas_limit
            &&& reply.value == packet.value
        },
        reply_given(ext, packet).outgoing == ext.outgoing,
        reply_given(ext, packet).nonce == ext.nonce + 1,
        reply_given(ext, packet).gas_left == ext.gas_left,
        same_pages(ext, reply_given(ext, packet)),
{
}

/// Gas that is taken is exactly what was asked for, and nothing else changes.
pub proof fn charging_takes_the_gas(ext: ExtView, val: u32)
    requires
        val <= ext.gas_left,
    ensures
        charged(ext, val).gas_left + val == ext.gas_left,
        charged(ext, val).outgoing == ext.outgoing,
        charged(ext, val).reply == ext.reply,
        charged(ext, val).nonce == ext.nonce,
        same_pages(ext, charged(ext, val)),
{
}

/// A write puts the given bytes where they are to go; no other byte, no owner
/// and nothing else changes.
pub proof fn writing_puts_the_bytes(ext: ExtView, ptr: int, val: Seq<u8>, i: int)
    requires
        0 <= ptr,
        ptr + val.len() <= ext.memory.len(),
    ensures
        written(ext, ptr, val).memory.len() == ext.memory.len(),
        0 <= i < ext.memory.len() ==> written(ext, ptr, val).memory[i] == if ptr <= i < ptr
            + val.len() {
            val[i - ptr]
        } else {
            ext.memory[i]
        },
        written(ext, ptr, val).owners == ext.owners,
        same_messages_and_gas(ext, written(ext, ptr, val)),
{
}

/// A page can be freed if and only if its owner is the program and its number
/// is between the number of static pages and that of pages that programs may
/// use. Then it has no owner; no other page, no byte and nothing else changes.
pub proof fn freeing_takes_the_owner(ext: ExtView, page: PageNumber, other: PageNumber)
    ensures
        can_free(ext, page) <==> {
            &&& ext.owners.contains_key(page)
            &&& ext.owners[page] == ext.program_id
            &&& ext.static_pages.raw <= page.raw <= ext.max_pages.raw
        },
        freed(ext, page).owners.get(other) == if other == page {
            None
        } else {
            ext.owners.get(other)
        },
        freed(ext, page).memory == ext.memory,
        same_messages_and_gas(ext, freed(ext, page)),
{
}

/// A page can be written by its owner, read by other programs, and not be
/// touched at all if it has no owner.
pub proof fn access_is_by_owner(owner: Option<ProgramId>, program_id: ProgramId)
    ensures
        access_of(owner, program_id) == PageAction::Write <==> owner == Some(program_id),
        access_of(owner, program_id) == PageAction::Read <==> owner is Some && owner != Some(
            program_id,
        ),
        access_of(owner, program_id) == PageAction::NoAccess <==> owner is None,
{
}

/// Pages that are granted lie above the static pages and below the end, had no
/// owner and now belong to the program; no other page changes its owner. The
/// memory reaches over them: old bytes stay, and new ones are zero. No lower
/// place would do: some page there has an owner. A request for no pages is
/// answered with the first page that is not static, and changes nothing.
pub proof fn granted_pages(
    before: ExtView,
    pages: PageNumber,
    start: PageNumber,
    after: ExtView,
    page: PageNumber,
    lower: int,
    i: int,
)
    requires
        allocated(before, pages, Some(start), after),
    ensures
        same_messages_and_gas(before, after),
        pages.raw == 0 ==> {
            &&& start == before.static_pages
            &&& after.owners == before.owners
            &&& after.memory == before.memory
        },
        pages.raw > 0 ==> before.static_pages.raw <= start.raw,
        pages.raw > 0 ==> start.raw + pages.raw <= before.max_pages.raw,
        start.raw <= page.raw < start.raw + pages.raw ==> {
            &&& !before.owners.contains_key(page)
            &&& after.owners.get(page) == Some(before.program_id)
        },
        !(start.raw <= page.raw < start.raw + pages.raw) ==> after.owners.get(page)
            == before.owners.get(page),
        pages.raw > 0 ==> after.memory.len() == if before.memory.len() < (start.raw + pages.raw)
            * 65536 {
            (start.raw + pages.raw) * 65536
        } else {
            before.memory.len() as int
        },
        0 <= i < before.memory.len() ==> after.memory[i] == before.memory[i],
        before.memory.len() <= i < after.memory.len() ==> after.memory[i] == 0,
        pages.raw > 0 && before.static_pages.raw <= lower < start.raw ==> exists|taken: PageNumber|
            lower <= taken.raw < lower + pages.raw && #[trigger] before.owners.contains_key(taken),
{
    if pages.raw > 0 && before.static_pages.raw <= lower < start.raw {
        assert(!crate::allocation::block_fits(
            before.owners,
            before.static_pages,
            before.max_pages,
            pages.raw as int,
            lower,
        ));
    }
}

/// A request for pages that is refused changes nothing, and there was no place
/// for them: wherever they would lie, some page there has an owner, or the
/// memory cannot grow so far.
pub proof fn refused_pages(before: ExtView, pages: PageNumber, after: ExtView, at: int)
    requires
        allocated(before, pages, None, after),
    ensures
        same_messages_and_gas(before, after),
        after.owners == before.owners,
        after.memory == before.memory,
        pages.raw > 0,
        before.static_pages.raw <= at && at + pages.raw <= before.max_pages.raw && (at + pages.raw
            <= 65536 && (at + pages.raw) * 65536 <= usize::MAX || (at + pages.raw) * 65536
            <= before.memory.len()) ==> exists|taken: PageNumber|
            at <= taken.raw < at + pages.raw && #[trigger] before.owners.contains_key(taken),
{
    if before.static_pages.raw <= at && at + pages.raw <= before.max_pages.raw && (at + pages.raw
        <= 65536 && (at + pages.raw) * 65536 <= usize::MAX || (at + pages.raw) * 65536
        <= before.memory.len()) && !(exists|taken: PageNumber|
        at <= taken.raw < at + pages.raw && #[trigger] before.owners.contains_key(taken)) {
        room_is_granted(before, pages, None, after, at);
    }
}

/// A byte of the memory changes during a request only if the program writes
/// over it, and a page loses its owner only if the program frees it.
pub proof fn requests_change_no_more(before: ExtView, after: ExtView, i: int, page: PageNumber)
    requires
        request(before, after),
    ensures
        0 <= i < before.memory.len() && after.memory[i] != before.memory[i] ==> exists|
            ptr: int,
            val: Seq<u8>,
        |
            ptr <= i < ptr + val.len() && after == #[trigger] written(before, ptr, val),
        before.owners.contains_key(page) && after.owners.get(page) != before.owners.get(page) ==> {
            &&& before.owners[page] == before.program_id
            &&& after == freed(before, page)
        },
{
    if exists|pages: PageNumber, start: Option<PageNumber>|
        #[trigger] allocated(before, pages, start, after) {
        let (pages, start) = choose|pages: PageNumber, start: Option<PageNumber>|
            #[trigger] allocated(before, pages, start, after);
        if let Some(s) = start {
            granted_pages(before, pages, s, after, page, 0, i);
        }
    }
}

/// Of the states that a run passes through, each follows from those before.
pub proof fn states_follow(states: Seq<ExtView>, i: int, j: int)
    requires
        trace(states),
        0 <= i <= j < states.len(),
    ensures
        crate::laws::follows(states[i], states[j]),
    decreases j - i,
{
    if i == j {
        following_goes_on(states[i], states[i], states[i]);
    } else {
        states_follow(states, i, j - 1);
        assert(request(states[j - 1], states[j - 1 + 1]));
        request_follows(states[j - 1], states[j]);
        following_goes_on(states[i], states[j - 1], states[j]);
    }
}

// Runs.

/// A program is entered on the memory, byte for byte, and on the owners of pages
/// that the runner has; with its saved static memory and nonce, the message
/// that the run is for, all the gas of the run, and nothing sent or replied.
pub proof fn run_starts_from_the_runner(runner: RunnerView, run: InstrumentedView)
    ensures
        entered(runner, run).ext.memory == runner.memory,
        entered(runner, run).ext.owners == runner.owners,
        entered(runner, run).ext.program_id == run.run.program.id,
        entered(runner, run).ext.static_pages == runner.config.static_pages,
        entered(runner, run).ext.max_pages == runner.config.max_pages,
        entered(runner, run).ext.message == run.run.message,
        entered(runner, run).ext.outgoing.len() == 0,
        entered(runner, run).ext.reply is None,
        entered(runner, run).ext.nonce == run.run.program.message_nonce,
        entered(runner, run).ext.gas_limit == run.run.gas_limit,
        entered(runner, run).ext.gas_left == run.run.gas_limit,
        entered(runner, run).config == runner.config,
        entered(runner, run).programs == runner.programs,
        entered(runner, run).queue == runner.queue,
        entered(runner, run).program == run.run.program,
        entered(runner, run).binary == run.binary,
        entered(runner, run).static_area == run.run.program.static_pages,
        entered(runner, run).entry_point == run.run.entry_point,
        ext_at_start(runner, run.run) == entered(runner, run).ext,
{
}

/// The run for a queued message enters the program that it is for at `handle`,
/// with everything that the message holds and with its gas limit.
pub proof fn handling_carries_the_message(program: ProgramView, message: MessageView)
    ensures
        handling(program, message).program == program,
        handling(program, message).message.id == message.id,
        handling(program, message).message.source == message.source,
        handling(program, message).message.payload == message.payload,
        handling(program, message).message.gas_limit == message.gas_limit,
        handling(program, message).message.value == message.value,
        handling(program, message).gas_limit == message.gas_limit,
        handling(program, message).entry_point == EntryPoint::Handle,
{
}

/// The run that initializes a program enters it at `init`, with a message from
/// the system that has the given content, gas limit and value, and with that
/// much gas.
pub proof fn initializing_carries_the_message(
    program: ProgramView,
    id: Seq<u8>,
    payload: Seq<u8>,
    gas_limit: u64,
    value: u128,
)
    ensures
        initializing(program, id, payload, gas_limit, value).program == program,
        initializing(program, id, payload, gas_limit, value).message.id == id,
        initializing(program, id, payload, gas_limit, value).message.source
            == ProgramId::system(),
        initializing(program, id, payload, gas_limit, value).message.payload == payload,
        initializing(program, id, payload, gas_limit, value).message.gas_limit == gas_limit,
        initializing(program, id, payload, gas_limit, value).message.value == value,
        initializing(program, id, payload, gas_limit, value).gas_limit == gas_limit,
        initializing(program, id, payload, gas_limit, value).entry_point == EntryPoint::Init,
{
}

/// A program that is initialized finds, when it is entered, the message that
/// was given for it, on the memory that the runner had, with no static memory
/// of its own, no name used and all the gas that was given.
pub proof fn initialized_program_finds_its_message(
    runner: RunnerView,
    program_id: ProgramId,
    code: Seq<u8>,
    init_msg: Seq<u8>,
    gas_limit: u64,
    value: u128,
    binary: Seq<u8>,
)
    ensures
        ({
            let named = runner.programs.insert(program_id, fresh_program(program_id, code));
            let run = InstrumentedView {
                run: initializing(
                    fresh_program(program_id, code),
                    next_system_id(named),
                    init_msg,
                    gas_limit,
                    value,
                ),
                binary,
            };
            let execution = entered(after_init(runner, program_id, code), run);
            &&& execution.ext.message.payload == init_msg
            &&& execution.ext.message.source == ProgramId::system()
            &&& execution.ext.message.gas_limit == gas_limit
            &&& execution.ext.message.value == value
            &&& execution.ext.gas_left == gas_limit
            &&& execution.ext.gas_limit == gas_limit
            &&& execution.ext.memory == runner.memory
            &&& execution.ext.owners == runner.owners
            &&& execution.ext.program_id == program_id
            &&& execution.ext.nonce == 0
            &&& execution.static_area.len() == 0
            &&& execution.entry_point == EntryPoint::Init
            &&& execution.program.code == code
            &&& execution.queue == runner.queue
        }),
{
}

/// A run that succeeded reports the touched pages that it is told of, all of
/// them and in order, the messages that were sent, the reply, and the gas left
/// and spent. Accrued to a result, all of that comes behind what is there.
pub proof fn results_report_everything(
    execution: ExecutionView,
    touched: Seq<(PageNumber, PageAction)>,
    total: RunNextView,
    id: ProgramId,
    run: RunResultView,
    i: int,
)
    requires
        execution.ext.gas_left <= execution.ext.gas_limit,
    ensures
        reported(execution, touched).touched.len() == touched.len(),
        0 <= i < touched.len() ==> reported(execution, touched).touched[i] == touched[i],
        reported(execution, touched).messages == execution.ext.outgoing,
        reported(execution, touched).reply == execution.ext.reply,
        reported(execution, touched).gas_left == execution.ext.gas_left,
        reported(execution, touched).gas_spent == execution.ext.gas_limit - execution.ext.gas_left,
        accrued(total, id, run).handled == total.handled + 1,
        accrued(total, id, run).touched.len() == total.touched.len() + run.touched.len(),
        0 <= i < total.touched.len() ==> accrued(total, id, run).touched[i] == total.touched[i],
        0 <= i < run.touched.len() ==> accrued(total, id, run).touched[total.touched.len() + i]
            == run.touched[i],
        accrued(total, id, run).gas_left.len() == total.gas_left.len() + 1,
        0 <= i < total.gas_left.len() ==> accrued(total, id, run).gas_left[i] == total.gas_left[i],
        accrued(total, id, run).gas_left.last() == (id, run.gas_left),
        accrued(total, id, run).gas_spent.len() == total.gas_spent.len() + 1,
        0 <= i < total.gas_spent.len() ==> accrued(total, id, run).gas_spent[i]
            == total.gas_spent[i],
        accrued(total, id, run).gas_spent.last() == (id, run.gas_spent),
        accrued(nothing_handled(), id, reported(execution, touched)).touched == touched,
        nothing_handled().handled == 0,
        nothing_handled().touched.len() == 0,
        nothing_handled().gas_left.len() == 0,
        nothing_handled().gas_spent.len() == 0,
        one_logged().handled == 1,
        one_logged().touched.len() == 0,
        one_logged().gas_left.len() == 0,
        one_logged().gas_spent.len() == 0,
{
    assert(accrued(nothing_handled(), id, reported(execution, touched)).touched =~= touched);
}

/// A run that succeeded leaves its program with the bytes of the static pages
/// and the nonce as they are at the end, and with the same code; other programs
/// stay. What was sent stands behind what was queued, from the program. Memory
/// and owners are as the run left them, and the configuration stays.
pub proof fn success_keeps_what_the_run_left(
    execution: ExecutionView,
    other: ProgramId,
    i: int,
)
    requires
        surrounds(execution.ext, execution.config, execution.program.id),
    ensures
        after_success(execution).config == execution.config,
        after_success(execution).memory == execution.ext.memory,
        after_success(execution).owners == execution.ext.owners,
        after_success(execution).programs.contains_key(execution.program.id),
        after_success(execution).programs[execution.program.id].id == execution.program.id,
        after_success(execution).programs[execution.program.id].code == execution.program.code,
        after_success(execution).programs[execution.program.id].message_nonce
            == execution.ext.nonce,
        after_success(execution).programs[execution.program.id].static_pages.len()
            == execution.config.static_pages.raw * 65536,
        0 <= i < execution.config.static_pages.raw * 65536 ==> after_success(
            execution,
        ).programs[execution.program.id].static_pages[i] == execution.ext.memory[i],
        other != execution.program.id ==> after_success(execution).programs.get(other)
            == execution.programs.get(other),
        after_success(execution).queue.len() == execution.queue.len()
            + execution.ext.outgoing.len(),
        0 <= i < execution.queue.len() ==> after_success(execution).queue[i] == execution.queue[i],
        0 <= i < execution.ext.outgoing.len() ==> {
            let queued = after_success(execution).queue[execution.queue.len() + i];
            &&& queued.id == execution.ext.outgoing[i].id
            &&& queued.source == execution.program.id
            &&& queued.dest == execution.ext.outgoing[i].dest
            &&& queued.payload == execution.ext.outgoing[i].payload
            &&& queued.gas_limit == execution.ext.outgoing[i].gas_limit
            &&& queued.value == execution.ext.outgoing[i].value
        },
{
}

/// A run that failed leaves only memory and owners of pages behind.
pub proof fn failure_keeps_memory_and_owners(execution: ExecutionView)
    ensures
        after_failure(execution).config == execution.config,
        after_failure(execution).programs == execution.programs,
        after_failure(execution).queue == execution.queue,
        after_failure(execution).memory == execution.ext.memory,
        after_failure(execution).owners == execution.ext.owners,
{
}

/// A message that was accepted for sending at any time during a run is, once
/// the run has succeeded, reported and queued with the destination, content,
/// gas limit and value of the packet; and its destination is entered with them.
pub proof fn sent_packet_reaches_its_destination(
    runner: RunnerView,
    run: InstrumentedView,
    states: Seq<ExtView>,
    k: int,
    packet: PacketView,
    touched: Seq<(PageNumber, PageAction)>,
    receiver: ProgramView,
    later: RunnerView,
    binary: Seq<u8>,
)
    requires
        trace(states),
        states[0] == ext_at_start(runner, run.run),
        0 <= k < states.len() - 1,
        states[k].nonce < u64::MAX,
        states[k + 1] == sent(states[k], packet),
    ensures
        ({
            let execution = underway(runner, run, states.last());
            let place = states[k].outgoing.len() as int;
            let message = reported(execution, touched).messages[place];
            let queued = after_success(execution).queue[runner.queue.len() + place];
            let found = entered(
                later,
                InstrumentedView { run: handling(receiver, queued), binary },
            ).ext;
            &&& place < reported(execution, touched).messages.len()
            &&& runner.queue.len() + place < after_success(execution).queue.len()
            &&& message.id == id_bytes(run.run.program.id, states[k].nonce)
            &&& message.dest == packet.dest
            &&& message.payload == packet.payload
            &&& message.gas_limit == packet.gas_limit
            &&& message.value == packet.value
            &&& queued.id == id_bytes(run.run.program.id, states[k].nonce)
            &&& queued.source == run.run.program.id
            &&& queued.dest == packet.dest
            &&& queued.payload == packet.payload
            &&& queued.gas_limit == packet.gas_limit
            &&& queued.value == packet.value
            &&& found.message.source == run.run.program.id
            &&& found.message.payload == packet.payload
            &&& found.message.value == packet.value
            &&& found.gas_left == packet.gas_limit
        }),
{
    states_follow(states, 0, k);
    states_follow(states, k + 1, states.len() - 1);
    let place = states[k].outgoing.len() as int;
    assert(states[k + 1].outgoing[place] == states.last().outgoing[place]);
}

/// A reply that was accepted at any time during a run is, once the run has
/// succeeded, reported with the content, gas limit and value of the packet.
pub proof fn reply_packet_is_reported(
    runner: RunnerView,
    run: InstrumentedView,
    states: Seq<ExtView>,
    k: int,
    packet: ReplyPacketView,
    touched: Seq<(PageNumber, PageAction)>,
)
    requires
        trace(states),
        states[0] == ext_at_start(runner, run.run),
        0 <= k < states.len() - 1,
        states[k + 1] == reply_given(states[k], packet),
    ensures
        reported(underway(runner, run, states.last()), touched).reply matches Some(reply) && {
            &&& reply.id == id_bytes(run.run.program.id, states[k].nonce)
            &&& reply.payload == packet.payload
            &&& reply.gas_limit == packet.gas_limit
            &&& reply.value == packet.value
        },
{
    states_follow(states, 0, k);
    states_follow(states, k + 1, states.len() - 1);
}

/// The gas that is taken on the way through `states`, step by step.
pub open spec fn gas_taken(states: Seq<ExtView>) -> int
    decreases states.len(),
{
    if states.len() <= 1 {
        0
    } else {
        gas_taken(states.drop_last()) + (states[states.len() - 2].gas_left
            - states.last().gas_left)
    }
}

/// The gas that a run reports as spent is what its requests took, one by one;
/// it starts with the limit of the run.
pub proof fn spent_gas_was_taken(
    runner: RunnerView,
    run: InstrumentedView,
    states: Seq<ExtView>,
    touched: Seq<(PageNumber, PageAction)>,
)
    requires
        trace(states),
        states[0] == ext_at_start(runner, run.run),
    ensures
        reported(underway(runner, run, states.last()), touched).gas_spent == gas_taken(states),
        reported(underway(runner, run, states.last()), touched).gas_left == run.run.gas_limit
            - gas_taken(states),
{
    gas_taken_adds_up(states);
    states_follow(states, 0, states.len() - 1);
}

/// What is taken step by step is what is missing in the end.
proof fn gas_taken_adds_up(states: Seq<ExtView>)
    requires
        states.len() > 0,
    ensures
        gas_taken(states) == states[0].gas_left - states.last().gas_left,
    decreases states.len(),
{
    if states.len() > 1 {
        gas_taken_adds_up(states.drop_last());
    }
}

// The runner.

/// Dequeueing takes the first message and nothing else.
pub proof fn dequeueing_takes_the_first(runner: RunnerView, i: int)
    ensures
        after_dequeue(runner).queue.len() == if runner.queue.len() == 0 {
            0int
        } else {
            runner.queue.len() - 1
        },
        0 <= i < runner.queue.len() - 1 ==> after_dequeue(runner).queue[i] == runner.queue[i + 1],
        after_dequeue(runner).config == runner.config,
        after_dequeue(runner).programs == runner.programs,
        after_dequeue(runner).memory == runner.memory,
        after_dequeue(runner).owners == runner.owners,
{
}

/// Queueing puts one message from the system behind the others, with what was
/// given for it; of the programs only the nonce of the system changes.
pub proof fn queueing_adds_the_message(
    runner: RunnerView,
    destination: ProgramId,
    payload: Seq<u8>,
    gas_limit: u64,
    value: u128,
    other: ProgramId,
    i: int,
)
    requires
        system_program(runner.programs).message_nonce < u64::MAX,
    ensures
        ({
            let after = after_queueing(runner, destination, payload, gas_limit, value);
            &&& after.queue.len() == runner.queue.len() + 1
            &&& 0 <= i < runner.queue.len() ==> after.queue[i] == runner.queue[i]
            &&& after.queue.last().id == id_bytes(
                ProgramId::system(),
                system_program(runner.programs).message_nonce,
            )
            &&& after.queue.last().source == ProgramId::system()
            &&& after.queue.last().dest == destination
            &&& after.queue.last().payload == payload
            &&& after.queue.last().gas_limit == gas_limit
            &&& after.queue.last().value == value
            &&& other != ProgramId::system() ==> after.programs.get(other) == runner.programs.get(
                other,
            )
            &&& after.programs.contains_key(ProgramId::system())
            &&& after.programs[ProgramId::system()].message_nonce == system_program(
                runner.programs,
            ).message_nonce + 1
            &&& after.config == runner.config
            &&& after.memory == runner.memory
            &&& after.owners == runner.owners
        }),
{
}

/// The system is the program under its identifier; until there is one, it has
/// neither code nor static memory, and has named no message. Naming a message
/// changes only its nonce.
pub proof fn system_is_a_program(programs: Map<ProgramId, ProgramView>)
    requires
        system_program(programs).message_nonce < u64::MAX,
    ensures
        programs.contains_key(ProgramId::system()) ==> system_program(programs)
            == programs[ProgramId::system()],
        !programs.contains_key(ProgramId::system()) ==> {
            &&& system_program(programs).id == ProgramId::system()
            &&& system_program(programs).code.len() == 0
            &&& system_program(programs).static_pages.len() == 0
            &&& system_program(programs).message_nonce == 0
        },
        system_advanced(programs)[ProgramId::system()].id == system_program(programs).id,
        system_advanced(programs)[ProgramId::system()].code == system_program(programs).code,
        system_advanced(programs)[ProgramId::system()].static_pages == system_program(
            programs,
        ).static_pages,
        system_advanced(programs)[ProgramId::system()].message_nonce == system_program(
            programs,
        ).message_nonce + 1,
        next_system_id(programs) == id_bytes(
            ProgramId::system(),
            system_program(programs).message_nonce,
        ),
{
}

/// Initializing a program stores it with the given code, no static memory and
/// no message named; of the other programs only the nonce of the system
/// changes, and queue, memory and owners stay.
pub proof fn initializing_stores_the_code(
    runner: RunnerView,
    program_id: ProgramId,
    code: Seq<u8>,
    other: ProgramId,
)
    ensures
        after_init(runner, program_id, code).programs.contains_key(program_id),
        after_init(runner, program_id, code).programs[program_id].id == program_id,
        after_init(runner, program_id, code).programs[program_id].code == code,
        after_init(runner, program_id, code).programs[program_id].static_pages.len() == 0,
        after_init(runner, program_id, code).programs[program_id].message_nonce == if program_id
            == ProgramId::system() {
            1int
        } else {
            0int
        },
        other != program_id && other != ProgramId::system() ==> after_init(
            runner,
            program_id,
            code,
        ).programs.get(other) == runner.programs.get(other),
        after_init(runner, program_id, code).config == runner.config,
        after_init(runner, program_id, code).queue == runner.queue,
        after_init(runner, program_id, code).memory == runner.memory,
        after_init(runner, program_id, code).owners == runner.owners,
        fresh_program(program_id, code).id == program_id,
        fresh_program(program_id, code).code == code,
        fresh_program(program_id, code).static_pages.len() == 0,
        fresh_program(program_id, code).message_nonce == 0,
{
}

/// Whether `operation` leaves byte `i` of the memory of `before` as it is: it
/// does not run a program, or one that has the same byte there in the end.
pub open spec fn leaves_byte(before: RunnerView, operation: Operation, i: int) -> bool {
    operation matches Operation::Running { ext, .. } ==> ext.memory[i] == before.memory[i]
}

/// A byte behind the static pages is found again by every later run, of any
/// program, and is given back when the runner is completed, as long as no run
/// in between has left another byte there; also after restarts.
pub proof fn heap_byte_is_found_again(
    states: Seq<RunnerView>,
    operations: Seq<Operation>,
    run: InstrumentedView,
    i: int,
)
    requires
        history(states, operations),
        all_under(operations, states[0].config),
        states[0].config.static_pages.raw * 65536 <= i < states[0].memory.len(),
        forall|k: int|
            0 <= k < operations.len() ==> leaves_byte(states[k], #[trigger] operations[k], i),
    ensures
        i < states.last().memory.len(),
        states.last().memory[i] == states[0].memory[i],
        i < entered(states.last(), run).ext.memory.len(),
        entered(states.last(), run).ext.memory[i] == states[0].memory[i],
        persistent_part(states[0].config, states.last().memory)[i
            - states[0].config.static_pages.raw * 65536] == states[0].memory[i],
        states.last().config == states[0].config,
    decreases operations.len(),
{
    if operations.len() > 0 {
        history_before_last(states, operations);
        let earlier = operations.drop_last();
        let before = states.drop_last();
        assert forall|k: int| 0 <= k < earlier.len() implies leaves_byte(
            before[k],
            #[trigger] earlier[k],
            i,
        ) by {
            assert(earlier[k] == operations[k]);
        }
        heap_byte_is_found_again(before, earlier, run, i);
        let last = operations.last();
        assert(operations[operations.len() - 1] == last);
        assert(performs(before.last(), last, states.last()));
        assert(leaves_byte(before.last(), last, i));
    }
}

/// A runner that is made of what another gave back has its programs, queue and
/// owners, zero static pages, and its bytes behind them.
pub proof fn restarting_keeps_everything_else(runner: RunnerView, i: int)
    requires
        runner.config.static_pages.raw * 65536 <= runner.memory.len(),
    ensures
        restarted(runner, runner.config).programs == runner.programs,
        restarted(runner, runner.config).queue == runner.queue,
        restarted(runner, runner.config).owners == runner.owners,
        restarted(runner, runner.config).config == runner.config,
        restarted(runner, runner.config).memory.len() == runner.memory.len(),
        0 <= i < runner.memory.len() ==> restarted(runner, runner.config).memory[i] == if i
            < runner.config.static_pages.raw * 65536 {
            0u8
        } else {
            runner.memory[i]
        },
{
}

} // verus!
