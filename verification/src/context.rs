//! The messages that a program takes and gives during one run.
use vstd::prelude::*;

use crate::id_generator::{id_bytes, BlakeMessageIdGenerator};
use crate::message::{
    outgoing, outgoing_views, replied, reply_view, IncomingMessage, OutgoingMessage, OutgoingPacket,
    ReplyMessage, ReplyPacket,
};

verus! {

/// Largest number of messages that a program can send during one run.
pub const OUTGOING_LIMIT: usize = 1024;

/// Why a message was not taken.
#[derive(Clone, Copy, Debug, PartialEq, Eq, Structural)]
pub enum MessageError {
    /// The program has sent as many messages as it may.
    LimitExceeded,
    /// The program has replied before.
    DuplicateReply,
}

/// The messages of one run: the one that is handled, and those it leads to.
#[derive(Debug)]
pub struct MessageContext {
    pub current: IncomingMessage,
    pub outgoing: Vec<OutgoingMessage>,
    pub reply: Option<ReplyMessage>,
    pub id_generator: BlakeMessageIdGenerator,
}

impl MessageContext {
    /// A context for handling `current`, with nothing sent yet.
    pub fn new(current: IncomingMessage, id_generator: BlakeMessageIdGenerator) -> (context:
        MessageContext)
        ensures
            context.current == current,
            context.outgoing@.len() == 0,
            context.reply is None,
            context.id_generator == id_generator,
    {
        MessageContext { current, outgoing: Vec::new(), reply: None, id_generator }
    }

    /// Takes a message for sending, under the next identifier.
    pub fn send(&mut self, msg: OutgoingPacket) -> (result: Result<(), MessageError>)
        requires
            old(self).outgoing@.len() < OUTGOING_LIMIT ==> old(self).id_generator.nonce < u64::MAX,
        ensures
            final(self).current == old(self).current,
            final(self).reply == old(self).reply,
            match result {
                Ok(()) => {
                    &&& old(self).outgoing@.len() < OUTGOING_LIMIT
                    &&& outgoing_views(final(self).outgoing@) == outgoing_views(
                        old(self).outgoing@,
                    ).push(
                        outgoing(
                            msg@,
                            id_bytes(
                                old(self).id_generator.program_id,
                                old(self).id_generator.nonce,
                            ),
                        ),
                    )
                    &&& final(self).outgoing@.len() == old(self).outgoing@.len() + 1
                    &&& final(self).outgoing@.drop_last() == old(self).outgoing@
                    &&& final(self).outgoing@.last().dest == msg.dest
                    &&& final(self).outgoing@.last().payload == msg.payload
                    &&& final(self).outgoing@.last().gas_limit == msg.gas_limit
                    &&& final(self).outgoing@.last().value == msg.value
                    &&& final(self).id_generator.program_id == old(self).id_generator.program_id
                    &&& final(self).id_generator.nonce == old(self).id_generator.nonce + 1
                },
                Err(e) => {
                    &&& e == MessageError::LimitExceeded
                    &&& old(self).outgoing@.len() >= OUTGOING_LIMIT
                    &&& final(self).outgoing == old(self).outgoing
                    &&& final(self).id_generator == old(self).id_generator
                },
            },
    {
        if self.outgoing.len() >= OUTGOING_LIMIT {
            return Err(MessageError::LimitExceeded);
        }
        let id = self.id_generator.next();
        self.outgoing.push(msg.into_message(id));
        assert(outgoing_views(self.outgoing@) =~= outgoing_views(old(self).outgoing@).push(
            outgoing(msg@, id.bytes@),
        ));
        Ok(())
    }

    /// Takes the reply to the current message, under the next identifier.
    pub fn reply(&mut self, msg: ReplyPacket) -> (result: Result<(), MessageError>)
        requires
            old(self).reply is None ==> old(self).id_generator.nonce < u64::MAX,
        ensures
            final(self).current == old(self).current,
            final(self).outgoing == old(self).outgoing,
            match result {
                Ok(()) => {
                    &&& old(self).reply is None
                    &&& reply_view(final(self).reply) == Some(
                        replied(
                            msg@,
                            id_bytes(
                                old(self).id_generator.program_id,
                                old(self).id_generator.nonce,
                            ),
                        ),
                    )
                    &&& final(self).reply matches Some(reply) && {
                        &&& reply.payload == msg.payload
                        &&& reply.gas_limit == msg.gas_limit
                        &&& reply.value == msg.value
                    }
                    &&& final(self).id_generator.program_id == old(self).id_generator.program_id
                    &&& final(self).id_generator.nonce == old(self).id_generator.nonce + 1
                },
                Err(e) => {
                    &&& e == MessageError::DuplicateReply
                    &&& old(self).reply is Some
                    &&& final(self).reply == old(self).reply
                    &&& final(self).id_generator == old(self).id_generator
                },
            },
    {
        if self.reply.is_some() {
            return Err(MessageError::DuplicateReply);
        }
        let id = self.id_generator.next();
        self.reply = Some(msg.into_message(id));
        Ok(())
    }

    /// Number that the next message identifier will be made from.
    pub fn nonce(&self) -> (nonce: u64)
        ensures
            nonce == self.id_generator.nonce,
    {
        self.id_generator.current()
    }

    /// The message that is handled.
    pub fn current(&self) -> (current: &IncomingMessage)
        ensures
            *current == self.current,
    {
        &self.current
    }

    /// What was sent and replied.
    pub fn drain(self) -> (drained: (Vec<OutgoingMessage>, Option<ReplyMessage>))
        ensures
            drained.0 == self.outgoing,
            drained.1 == self.reply,
    {
        (self.outgoing, self.reply)
    }
}

} // verus!
