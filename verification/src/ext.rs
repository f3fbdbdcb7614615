//! What a program can ask of its surroundings during a run.
use vstd::prelude::*;

use crate::allocation::{alloc_outcome, may_free, MemoryContext};
use crate::context::{MessageContext, OUTGOING_LIMIT};
use crate::gas::{ChargeResult, GasCounterLimited};
use crate::id_generator::id_bytes;
use crate::ids::{MessageId, PageNumber, ProgramId};
use crate::laws::request;
use crate::memory::overwritten;
use crate::message::{
    outgoing, outgoing_views, replied, reply_view, IncomingView, OutgoingPacket, OutgoingView,
    PacketView, ReplyPacket, ReplyPacketView, ReplyView,
};
use crate::storage::AllocationStorage;

verus! {

/// How a program may touch, or has touched, a page.
#[derive(Clone, Copy, Debug, PartialEq, Eq, Structural)]
pub enum PageAction {
    /// The page can be read.
    Read,
    /// The page can be read and written.
    Write,
    /// The page is not allocated.
    NoAccess,
}

/// How the program `program_id` may touch a page with the given owner.
pub open spec fn access_of(owner: Option<ProgramId>, program_id: ProgramId) -> PageAction {
    match owner {
        Some(id) => if id == program_id {
            PageAction::Write
        } else {
            PageAction::Read
        },
        None => PageAction::NoAccess,
    }
}

/// What an [`Ext`] holds.
pub struct ExtView {
    pub program_id: ProgramId,
    pub static_pages: PageNumber,
    pub max_pages: PageNumber,
    pub memory: Seq<u8>,
    pub owners: Map<PageNumber, ProgramId>,
    pub message: IncomingView,
    pub outgoing: Seq<OutgoingView>,
    pub reply: Option<ReplyView>,
    pub nonce: u64,
    pub gas_limit: u64,
    pub gas_left: u64,
}

/// `ext` once the program has sent `packet`.
pub open spec fn sent(ext: ExtView, packet: PacketView) -> ExtView {
    ExtView {
        outgoing: ext.outgoing.push(outgoing(packet, id_bytes(ext.program_id, ext.nonce))),
        nonce: (ext.nonce + 1) as u64,
        ..ext
    }
}

/// `ext` once the program has replied with `packet`.
pub open spec fn reply_given(ext: ExtView, packet: ReplyPacketView) -> ExtView {
    ExtView {
        reply: Some(replied(packet, id_bytes(ext.program_id, ext.nonce))),
        nonce: (ext.nonce + 1) as u64,
        ..ext
    }
}

/// `ext` once `val` gas has been taken.
pub open spec fn charged(ext: ExtView, val: u32) -> ExtView {
    ExtView { gas_left: (ext.gas_left - val) as u64, ..ext }
}

/// `ext` once `val` has been written at `ptr`.
pub open spec fn written(ext: ExtView, ptr: int, val: Seq<u8>) -> ExtView {
    ExtView { memory: overwritten(ext.memory, ptr, val), ..ext }
}

/// Whether the program may free `page`.
pub open spec fn can_free(ext: ExtView, page: PageNumber) -> bool {
    may_free(ext.owners, ext.program_id, ext.static_pages, ext.max_pages, page)
}

/// `ext` once `page` has been freed.
pub open spec fn freed(ext: ExtView, page: PageNumber) -> ExtView {
    ExtView { owners: ext.owners.remove(page), ..ext }
}

/// Whether a request for `pages` pages turns `before` into `after` and finds
/// the pages at `start`, if it finds them.
pub open spec fn allocated(
    before: ExtView,
    pages: PageNumber,
    start: Option<PageNumber>,
    after: ExtView,
) -> bool {
    &&& alloc_outcome(
        before.memory,
        before.owners,
        before.program_id,
        before.static_pages,
        before.max_pages,
        pages,
        start,
        after.memory,
        after.owners,
    )
    &&& after == (ExtView { memory: after.memory, owners: after.owners, ..before })
}

/// The surroundings of a running program.
pub struct Ext<AS> {
    pub memory_context: MemoryContext<AS>,
    pub messages: MessageContext,
    pub gas_counter: GasCounterLimited,
}

impl<AS: AllocationStorage> View for Ext<AS> {
    type V = ExtView;

    open spec fn view(&self) -> ExtView {
        ExtView {
            program_id: self.memory_context.program_id,
            static_pages: self.memory_context.static_pages,
            max_pages: self.memory_context.max_pages,
            memory: self.memory_context.memory@,
            owners: self.memory_context.allocations.owners(),
            message: self.messages.current@,
            outgoing: outgoing_views(self.messages.outgoing@),
            reply: reply_view(self.messages.reply),
            nonce: self.messages.id_generator.nonce,
            gas_limit: self.gas_counter.spec_limit(),
            gas_left: self.gas_counter.spec_left(),
        }
    }
}

impl<AS: AllocationStorage> Ext<AS> {
    /// The parts are in good order, and messages are named after the program.
    pub open spec fn wf(&self) -> bool {
        &&& self.memory_context.wf()
        &&& self.gas_counter.wf()
        &&& self.messages.id_generator.program_id == self.memory_context.program_id
    }

    /// Allocates `pages` pages to the program; returns the first of them.
    pub fn alloc_pages(&mut self, pages: PageNumber) -> (result: Result<PageNumber, &'static str>)
        requires
            old(self).wf(),
        ensures
            final(self).wf(),
            request(old(self)@, final(self)@),
            match result {
                Ok(start) => {
                    &&& allocated(old(self)@, pages, Some(start), final(self)@)
                    &&& forall|page: PageNumber|
                        start.raw <= page.raw < start.raw + pages.raw
                            ==> #[trigger] final(self)@.owners.get(page) == Some(
                            old(self)@.program_id,
                        )
                },
                Err(e) => {
                    &&& e@ == "Allocation error"@
                    &&& allocated(old(self)@, pages, None, final(self)@)
                },
            },
    {
        match self.memory_context.alloc_pages(pages) {
            Ok(start) => {
                assert(allocated(old(self)@, pages, Some(start), self@));
                Ok(start)
            },
            Err(_) => {
                assert(allocated(old(self)@, pages, None, self@));
                Err("Allocation error")
            },
        }
    }

    /// Sends a message.
    pub fn send(&mut self, msg: OutgoingPacket) -> (result: Result<(), &'static str>)
        requires
            old(self).wf(),
            old(self)@.outgoing.len() < OUTGOING_LIMIT ==> old(self)@.nonce < u64::MAX,
        ensures
            final(self).wf(),
            request(old(self)@, final(self)@),
            match result {
                Ok(()) => {
                    &&& old(self)@.outgoing.len() < OUTGOING_LIMIT
                    &&& final(self)@ == sent(old(self)@, msg@)
                    &&& final(self).messages.outgoing@.drop_last() == old(self).messages.outgoing@
                    &&& final(self).messages.outgoing@.last().dest == msg.dest
                    &&& final(self).messages.outgoing@.last().payload == msg.payload
                    &&& final(self).messages.outgoing@.last().gas_limit == msg.gas_limit
                    &&& final(self).messages.outgoing@.last().value == msg.value
                    &&& final(self).messages.reply == old(self).messages.reply
                    &&& final(self).messages.current == old(self).messages.current
                    &&& final(self).memory_context == old(self).memory_context
                    &&& final(self).gas_counter == old(self).gas_counter
                },
                Err(e) => {
                    &&& e@ == "Message send error"@
                    &&& old(self)@.outgoing.len() >= OUTGOING_LIMIT
                    &&& final(self)@ == old(self)@
                },
            },
    {
        match self.messages.send(msg) {
            Ok(()) => Ok(()),
            Err(_) => Err("Message send error"),
        }
    }

    /// Replies to the current message.
    pub fn reply(&mut self, msg: ReplyPacket) -> (result: Result<(), &'static str>)
        requires
            old(self).wf(),
            old(self)@.reply is None ==> old(self)@.nonce < u64::MAX,
        ensures
            final(self).wf(),
            request(old(self)@, final(self)@),
            match result {
                Ok(()) => {
                    &&& old(self)@.reply is None
                    &&& final(self)@ == reply_given(old(self)@, msg@)
                    &&& final(self).messages.reply matches Some(reply) && {
                        &&& reply.payload == msg.payload
                        &&& reply.gas_limit == msg.gas_limit
                        &&& reply.value == msg.value
                    }
                    &&& final(self).messages.outgoing == old(self).messages.outgoing
                    &&& final(self).messages.current == old(self).messages.current
                    &&& final(self).memory_context == old(self).memory_context
                    &&& final(self).gas_counter == old(self).gas_counter
                },
                Err(e) => {
                    &&& e@ == "Reply error"@
                    &&& old(self)@.reply is Some
                    &&& final(self)@ == old(self)@
                },
            },
    {
        match self.messages.reply(msg) {
            Ok(()) => Ok(()),
            Err(_) => Err("Reply error"),
        }
    }

    /// The program that sent the current message.
    pub fn source(&self) -> (source: ProgramId)
        ensures
            source == self@.message.source,
    {
        self.messages.current().source()
    }

    /// Identifier of the current message.
    pub fn message_id(&self) -> (id: MessageId)
        ensures
            id.bytes@ == self@.message.id,
    {
        self.messages.current().id()
    }

    /// Frees a page of the program.
    pub fn free(&mut self, ptr: PageNumber) -> (result: Result<(), &'static str>)
        requires
            old(self).wf(),
        ensures
            final(self).wf(),
            request(old(self)@, final(self)@),
            match result {
                Ok(()) => {
                    &&& can_free(old(self)@, ptr)
                    &&& final(self)@ == freed(old(self)@, ptr)
                    &&& final(self)@.owners == old(self)@.owners.remove(ptr)
                    &&& final(self).memory_context.memory == old(self).memory_context.memory
                    &&& final(self).messages == old(self).messages
                    &&& final(self).gas_counter == old(self).gas_counter
                },
                Err(e) => {
                    &&& e@ == "Free error"@
                    &&& !can_free(old(self)@, ptr)
                    &&& final(self)@ == old(self)@
                },
            },
    {
        match self.memory_context.free(ptr) {
            Ok(()) => Ok(()),
            Err(_) => Err("Free error"),
        }
    }

    /// Writes `val` at `ptr`.
    pub fn set_mem(&mut self, ptr: usize, val: &[u8])
        requires
            old(self).wf(),
            ptr + val@.len() <= old(self)@.memory.len(),
        ensures
            final(self).wf(),
            request(old(self)@, final(self)@),
            final(self)@ == written(old(self)@, ptr as int, val@),
            final(self)@.memory.len() == old(self)@.memory.len(),
            forall|i: int|
                0 <= i < old(self)@.memory.len() ==> #[trigger] final(self)@.memory[i] == if ptr
                    <= i < ptr + val@.len() {
                    val@[i - ptr]
                } else {
                    old(self)@.memory[i]
                },
            final(self).memory_context.allocations == old(self).memory_context.allocations,
            final(self).messages == old(self).messages,
            final(self).gas_counter == old(self).gas_counter,
    {
        let _ = self.memory_context.memory.write(ptr, val);
    }

    /// Fills `buffer` with the bytes from `ptr` on.
    pub fn get_mem(&self, ptr: usize, buffer: &mut [u8])
        requires
            ptr + old(buffer)@.len() <= self@.memory.len(),
        ensures
            final(buffer)@ == self@.memory.subrange(ptr as int, ptr + old(buffer)@.len()),
    {
        let len: usize = buffer.len();
        let data: Vec<u8> = self.memory_context.memory.read(ptr, len);
        let mut i: usize = 0;
        while i < len
            invariant
                i <= len,
                len == buffer@.len(),
                len == data@.len(),
                forall|j: int| 0 <= j < i ==> buffer@[j] == data@[j],
            decreases len - i,
        {
            buffer[i] = data[i];
            i = i + 1;
        }
        assert(buffer@ =~= data@);
    }

    /// Content of the current message.
    pub fn msg(&self) -> (payload: &[u8])
        ensures
            payload@ == self@.message.payload,
    {
        self.messages.current().payload()
    }

    /// How the program may touch `page`.
    pub fn memory_access(&self, page: PageNumber) -> (action: PageAction)
        requires
            self.wf(),
        ensures
            action == access_of(self@.owners.get(page), self@.program_id),
            action == PageAction::Write <==> self@.owners.get(page) == Some(self@.program_id),
            action == PageAction::NoAccess <==> !self@.owners.contains_key(page),
    {
        if let Some(id) = self.memory_context.allocations.get(page) {
            if id == self.memory_context.program_id {
                PageAction::Write
            } else {
                PageAction::Read
            }
        } else {
            PageAction::NoAccess
        }
    }

    /// Takes `val` gas for the run.
    pub fn gas(&mut self, val: u32) -> (result: Result<(), &'static str>)
        requires
            old(self).wf(),
        ensures
            final(self).wf(),
            request(old(self)@, final(self)@),
            match result {
                Ok(()) => {
                    &&& val <= old(self)@.gas_left
                    &&& final(self)@ == charged(old(self)@, val)
                    &&& final(self)@.gas_left == old(self)@.gas_left - val
                    &&& final(self).messages == old(self).messages
                    &&& final(self).memory_context == old(self).memory_context
                },
                Err(e) => {
                    &&& e@ == "Gas limit exceeded"@
                    &&& val > old(self)@.gas_left
                    &&& final(self)@ == old(self)@
                },
            },
    {
        if self.gas_counter.charge(val) == ChargeResult::Enough {
            Ok(())
        } else {
            Err("Gas limit exceeded")
        }
    }

    /// Value that came with the current message.
    pub fn value(&self) -> (value: u128)
        ensures
            value == self@.message.value,
    {
        self.messages.current().value()
    }
}

} // verus!
