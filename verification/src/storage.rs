//! What a runner keeps: programs, queued messages and page owners.
use std::collections::{HashMap, VecDeque};

use vstd::prelude::*;

use crate::ids::{PageNumber, ProgramId};
use crate::message::{message_views, Message, MessageView};
use crate::program::{Program, ProgramView};

verus! {

/// A store of programs by their identifiers.
pub trait ProgramStorage: Sized {
    /// The programs in the store.
    spec fn programs(&self) -> Map<ProgramId, ProgramView>;

    /// The store is in good order.
    spec fn wf(&self) -> bool;

    /// A program is stored under its own identifier.
    proof fn keyed_by_id(&self)
        requires
            self.wf(),
        ensures
            forall|id: ProgramId| #[trigger]
                self.programs().contains_key(id) ==> self.programs()[id].id == id,
    ;

    /// A copy of the program `id`, if it is in the store.
    fn get(&self, id: ProgramId) -> (program: Option<Program>)
        requires
            self.wf(),
        ensures
            match program {
                Some(p) => self.programs().contains_key(id) && p@ == self.programs()[id],
                None => !self.programs().contains_key(id),
            },
    ;

    /// Puts a program into the store, in place of one with its identifier.
    fn set(&mut self, program: Program)
        requires
            old(self).wf(),
        ensures
            final(self).wf(),
            final(self).programs() == old(self).programs().insert(program@.id, program@),
    ;
}

/// A queue of messages.
pub trait MessageQueue: Sized {
    /// The messages in the queue, the next one first.
    spec fn messages(&self) -> Seq<MessageView>;

    /// The queue is in good order.
    spec fn wf(&self) -> bool;

    /// Takes the next message out of the queue.
    fn dequeue(&mut self) -> (message: Option<Message>)
        requires
            old(self).wf(),
        ensures
            final(self).wf(),
            match message {
                Some(m) => {
                    &&& old(self).messages().len() > 0
                    &&& m@ == old(self).messages()[0]
                    &&& final(self).messages() == old(self).messages().skip(1)
                },
                None => {
                    &&& old(self).messages().len() == 0
                    &&& final(self).messages() == old(self).messages()
                },
            },
    ;

    /// Puts a message at the end of the queue.
    fn queue(&mut self, message: Message)
        requires
            old(self).wf(),
        ensures
            final(self).wf(),
            final(self).messages() == old(self).messages().push(message@),
    ;

    /// Puts messages at the end of the queue, in their order.
    fn queue_many(&mut self, messages: Vec<Message>)
        requires
            old(self).wf(),
        ensures
            final(self).wf(),
            final(self).messages() == old(self).messages() + message_views(messages@),
    ;
}

/// A record of which program owns which page.
pub trait AllocationStorage: Sized {
    /// The owner of each allocated page.
    spec fn owners(&self) -> Map<PageNumber, ProgramId>;

    /// The record is in good order.
    spec fn wf(&self) -> bool;

    /// The owner of `page`, if it is allocated.
    fn get(&self, page: PageNumber) -> (owner: Option<ProgramId>)
        requires
            self.wf(),
        ensures
            owner == self.owners().get(page),
    ;

    /// Records `owner` as the owner of `page`.
    fn set(&mut self, page: PageNumber, owner: ProgramId)
        requires
            old(self).wf(),
        ensures
            final(self).wf(),
            final(self).owners() == old(self).owners().insert(page, owner),
    ;

    /// Forgets the owner of `page`, and returns it.
    fn remove(&mut self, page: PageNumber) -> (owner: Option<ProgramId>)
        requires
            old(self).wf(),
        ensures
            final(self).wf(),
            owner == old(self).owners().get(page),
            final(self).owners() == old(self).owners().remove(page),
    ;
}

/// Everything that outlives a runner but the memory.
pub struct Storage<AS, MQ, PS> {
    pub allocation_storage: AS,
    pub message_queue: MQ,
    pub program_storage: PS,
}

impl<AS: AllocationStorage, MQ: MessageQueue, PS: ProgramStorage> Storage<AS, MQ, PS> {
    /// All three stores are in good order.
    pub open spec fn wf(&self) -> bool {
        &&& self.allocation_storage.wf()
        &&& self.message_queue.wf()
        &&& self.program_storage.wf()
    }
}

/// Programs kept in memory.
#[derive(Debug)]
pub struct InMemoryProgramStorage {
    inner: Vec<Program>,
}

/// Position of the program `id` in `programs`.
pub closed spec fn position(programs: Seq<Program>, id: ProgramId) -> int {
    choose|i: int| 0 <= i < programs.len() && (#[trigger] programs[i])@.id == id
}

/// Whether `programs` has a program `id`.
pub closed spec fn present(programs: Seq<Program>, id: ProgramId) -> bool {
    exists|i: int| 0 <= i < programs.len() && (#[trigger] programs[i])@.id == id
}

impl InMemoryProgramStorage {
    /// A store without programs.
    pub fn new() -> (storage: InMemoryProgramStorage)
        ensures
            storage.wf(),
            storage.programs() == Map::<ProgramId, ProgramView>::empty(),
    {
        let storage = InMemoryProgramStorage { inner: Vec::new() };
        assert(storage.programs() =~= Map::<ProgramId, ProgramView>::empty());
        storage
    }

    /// Position of the program `id`, or the number of programs.
    fn find(&self, id: ProgramId) -> (at: usize)
        ensures
            at <= self.inner@.len(),
            at < self.inner@.len() ==> self.inner@[at as int]@.id == id,
            at == self.inner@.len() ==> !present(self.inner@, id),
    {
        let mut i: usize = 0;
        while i < self.inner.len()
            invariant
                i <= self.inner@.len(),
                forall|j: int| 0 <= j < i ==> (#[trigger] self.inner@[j])@.id != id,
            decreases self.inner@.len() - i,
        {
            if self.inner[i].id() == id {
                return i;
            }
            i = i + 1;
        }
        i
    }
}

impl ProgramStorage for InMemoryProgramStorage {
    closed spec fn programs(&self) -> Map<ProgramId, ProgramView> {
        Map::new(
            |id: ProgramId| present(self.inner@, id),
            |id: ProgramId| self.inner@[position(self.inner@, id)]@,
        )
    }

    closed spec fn wf(&self) -> bool {
        forall|i: int, j: int|
            0 <= i < j < self.inner@.len() ==> (#[trigger] self.inner@[i])@.id != (
            #[trigger] self.inner@[j])@.id
    }

    proof fn keyed_by_id(&self) {
    }

    fn get(&self, id: ProgramId) -> (program: Option<Program>) {
        let at: usize = self.find(id);
        if at < self.inner.len() {
            proof {
                assert(present(self.inner@, id));
                assert(position(self.inner@, id) == at);
            }
            Some(self.inner[at].clone())
        } else {
            None
        }
    }

    fn set(&mut self, program: Program) {
        let ghost before = self.inner@;
        let ghost old_programs = self.programs();
        let ghost id = program@.id;
        let at: usize = self.find(program.id());
        let ghost stored = program@;
        if at < self.inner.len() {
            self.inner[at] = program;
        } else {
            self.inner.push(program);
        }
        proof {
            assert(self.inner@[at as int]@ == stored);
            assert forall|other: ProgramId| #[trigger] self.programs().contains_key(other)
                == old_programs.insert(id, stored).contains_key(other) by {
                if other == id {
                    assert(self.inner@[at as int]@.id == id);
                } else {
                    if present(before, other) {
                        let i = position(before, other);
                        assert(self.inner@[i] == before[i]);
                    }
                    if present(self.inner@, other) {
                        let i = position(self.inner@, other);
                        assert(self.inner@[i] == before[i]);
                    }
                }
            }
            assert forall|other: ProgramId| #[trigger]
                self.programs().contains_key(other) implies self.programs()[other]
                == old_programs.insert(id, stored)[other] by {
                let i = position(self.inner@, other);
                if other == id {
                    assert(self.inner@[at as int]@.id == id);
                    assert(i == at);
                } else {
                    assert(self.inner@[i] == before[i]);
                    assert(position(before, other) == i);
                }
            }
            assert(self.programs() =~= old_programs.insert(id, stored));
        }
    }
}

/// Messages queued in memory.
#[derive(Debug)]
pub struct InMemoryMessageQueue {
    inner: VecDeque<Message>,
}

impl InMemoryMessageQueue {
    /// A queue without messages.
    pub fn new() -> (queue: InMemoryMessageQueue)
        ensures
            queue.wf(),
            queue.messages() == Seq::<MessageView>::empty(),
    {
        let queue = InMemoryMessageQueue { inner: VecDeque::new() };
        assert(queue.messages() =~= Seq::<MessageView>::empty());
        queue
    }
}

impl MessageQueue for InMemoryMessageQueue {
    closed spec fn messages(&self) -> Seq<MessageView> {
        message_views(self.inner@)
    }

    closed spec fn wf(&self) -> bool {
        true
    }

    fn dequeue(&mut self) -> (message: Option<Message>) {
        let message = self.inner.pop_front();
        assert(message is Some ==> self.messages() =~= old(self).messages().skip(1));
        message
    }

    fn queue(&mut self, message: Message) {
        self.inner.push_back(message);
        assert(self.messages() =~= old(self).messages().push(message@));
    }

    fn queue_many(&mut self, messages: Vec<Message>) {
        let ghost all = messages@;
        let ghost before = self.messages();
        for message in it: messages
            invariant
                it.seq() == all,
                self.messages() == before + message_views(all.take(it.index() as int)),
        {
            let ghost n = it.index() as int;
            let ghost inner = self.inner@;
            self.inner.push_back(message);
            proof {
                assert(message == all[n]);
                assert(all.take(n + 1) =~= all.take(n).push(all[n]));
                assert(message_views(inner.push(message)) =~= message_views(inner).push(message@));
                assert(self.messages() =~= before + message_views(all.take(n + 1)));
            }
        }
        assert(all.take(all.len() as int) =~= all);
    }
}

/// Page owners recorded in memory.
#[derive(Debug)]
pub struct InMemoryAllocationStorage {
    inner: HashMap<u32, ProgramId>,
}

impl InMemoryAllocationStorage {
    /// A record in which no page has an owner.
    pub fn new() -> (storage: InMemoryAllocationStorage)
        ensures
            storage.wf(),
            storage.owners() == Map::<PageNumber, ProgramId>::empty(),
    {
        let storage = InMemoryAllocationStorage { inner: HashMap::new() };
        assert(storage.owners() =~= Map::<PageNumber, ProgramId>::empty());
        storage
    }
}

impl AllocationStorage for InMemoryAllocationStorage {
    closed spec fn owners(&self) -> Map<PageNumber, ProgramId> {
        Map::new(
            |page: PageNumber| self.inner@.contains_key(page.raw),
            |page: PageNumber| self.inner@[page.raw],
        )
    }

    closed spec fn wf(&self) -> bool {
        true
    }

    fn get(&self, page: PageNumber) -> (owner: Option<ProgramId>) {
        broadcast use vstd::std_specs::hash::group_hash_axioms;

        match self.inner.get(&page.raw) {
            Some(owner) => Some(*owner),
            None => None,
        }
    }

    fn set(&mut self, page: PageNumber, owner: ProgramId) {
        broadcast use vstd::std_specs::hash::group_hash_axioms;

        self.inner.insert(page.raw, owner);
        assert(self.owners() =~= old(self).owners().insert(page, owner));
    }

    fn remove(&mut self, page: PageNumber) -> (owner: Option<ProgramId>) {
        broadcast use vstd::std_specs::hash::group_hash_axioms;

        let owner = self.inner.remove(&page.raw);
        assert(self.owners() =~= old(self).owners().remove(page));
        owner
    }
}

/// Empty storage, kept in memory.
pub fn new_in_memory() -> (storage: Storage<
    InMemoryAllocationStorage,
    InMemoryMessageQueue,
    InMemoryProgramStorage,
>)
    ensures
        storage.wf(),
        storage.allocation_storage.owners() == Map::<PageNumber, ProgramId>::empty(),
        storage.message_queue.messages() == Seq::<MessageView>::empty(),
        storage.program_storage.programs() == Map::<ProgramId, ProgramView>::empty(),
{
    Storage {
        allocation_storage: InMemoryAllocationStorage::new(),
        message_queue: InMemoryMessageQueue::new(),
        program_storage: InMemoryProgramStorage::new(),
    }
}

} // verus!
