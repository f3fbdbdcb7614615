//! Messages between programs.
use vstd::prelude::*;

use crate::ids::{MessageId, ProgramId};

verus! {

/// What a [`Message`] holds.
pub struct MessageView {
    pub id: Seq<u8>,
    pub source: ProgramId,
    pub dest: ProgramId,
    pub payload: Seq<u8>,
    pub gas_limit: u64,
    pub value: u128,
}

/// A message on its way from one program to another.
#[derive(Debug)]
pub struct Message {
    pub id: MessageId,
    pub source: ProgramId,
    pub dest: ProgramId,
    pub payload: Vec<u8>,
    pub gas_limit: u64,
    pub value: u128,
}

impl View for Message {
    type V = MessageView;

    open spec fn view(&self) -> MessageView {
        MessageView {
            id: self.id.bytes@,
            source: self.source,
            dest: self.dest,
            payload: self.payload@,
            gas_limit: self.gas_limit,
            value: self.value,
        }
    }
}

impl Message {
    /// A message from the system.
    pub fn new_system(
        id: MessageId,
        dest: ProgramId,
        payload: Vec<u8>,
        gas_limit: u64,
        value: u128,
    ) -> (message: Message)
        ensures
            message@ == (MessageView {
                id: id.bytes@,
                source: ProgramId::system(),
                dest,
                payload: payload@,
                gas_limit,
                value,
            }),
            message.id == id,
            message.dest == dest,
            message.payload == payload,
            message.gas_limit == gas_limit,
            message.value == value,
    {
        Message { id, source: ProgramId::default(), dest, payload, gas_limit, value }
    }

    /// Identifier of the message.
    pub fn id(&self) -> (id: MessageId)
        ensures
            id == self.id,
    {
        self.id
    }

    /// The program that sent the message.
    pub fn source(&self) -> (source: ProgramId)
        ensures
            source == self.source,
    {
        self.source
    }

    /// The program that the message is for.
    pub fn dest(&self) -> (dest: ProgramId)
        ensures
            dest == self.dest,
    {
        self.dest
    }

    /// Content of the message.
    pub fn payload(&self) -> (payload: &[u8])
        ensures
            payload@ == self.payload@,
    {
        self.payload.as_slice()
    }

    /// Gas that handling the message may use.
    pub fn gas_limit(&self) -> (gas_limit: u64)
        ensures
            gas_limit == self.gas_limit,
    {
        self.gas_limit
    }

    /// Value that travels with the message.
    pub fn value(&self) -> (value: u128)
        ensures
            value == self.value,
    {
        self.value
    }
}

/// The views of a sequence of messages.
pub open spec fn message_views(messages: Seq<Message>) -> Seq<MessageView> {
    messages.map_values(|m: Message| m@)
}

/// What an [`IncomingMessage`] holds.
pub struct IncomingView {
    pub id: Seq<u8>,
    pub source: ProgramId,
    pub payload: Seq<u8>,
    pub gas_limit: u64,
    pub value: u128,
}

/// A message as the program that handles it sees it.
#[derive(Debug)]
pub struct IncomingMessage {
    pub id: MessageId,
    pub source: ProgramId,
    pub payload: Vec<u8>,
    pub gas_limit: u64,
    pub value: u128,
}

impl View for IncomingMessage {
    type V = IncomingView;

    open spec fn view(&self) -> IncomingView {
        IncomingView {
            id: self.id.bytes@,
            source: self.source,
            payload: self.payload@,
            gas_limit: self.gas_limit,
            value: self.value,
        }
    }
}

/// What the destination of `message` sees of it.
pub open spec fn incoming(message: MessageView) -> IncomingView {
    IncomingView {
        id: message.id,
        source: message.source,
        payload: message.payload,
        gas_limit: message.gas_limit,
        value: message.value,
    }
}

impl IncomingMessage {
    /// A message from the system.
    pub fn new_system(id: MessageId, payload: Vec<u8>, gas_limit: u64, value: u128) -> (message:
        IncomingMessage)
        ensures
            message@ == (IncomingView {
                id: id.bytes@,
                source: ProgramId::system(),
                payload: payload@,
                gas_limit,
                value,
            }),
            message.id == id,
            message.payload == payload,
            message.gas_limit == gas_limit,
            message.value == value,
    {
        IncomingMessage { id, source: ProgramId::default(), payload, gas_limit, value }
    }

    /// Identifier of the message.
    pub fn id(&self) -> (id: MessageId)
        ensures
            id == self.id,
    {
        self.id
    }

    /// The program that sent the message.
    pub fn source(&self) -> (source: ProgramId)
        ensures
            source == self.source,
    {
        self.source
    }

    /// Content of the message.
    pub fn payload(&self) -> (payload: &[u8])
        ensures
            payload@ == self.payload@,
    {
        self.payload.as_slice()
    }

    /// Value that came with the message.
    pub fn value(&self) -> (value: u128)
        ensures
            value == self.value,
    {
        self.value
    }
}

impl From<Message> for IncomingMessage {
    fn from(message: Message) -> (incoming: IncomingMessage) {
        IncomingMessage {
            id: message.id,
            source: message.source,
            payload: message.payload,
            gas_limit: message.gas_limit,
            value: message.value,
        }
    }
}

impl vstd::std_specs::convert::FromSpecImpl<Message> for IncomingMessage {
    open spec fn obeys_from_spec() -> bool {
        true
    }

    open spec fn from_spec(message: Message) -> IncomingMessage {
        IncomingMessage {
            id: message.id,
            source: message.source,
            payload: message.payload,
            gas_limit: message.gas_limit,
            value: message.value,
        }
    }
}

/// What an [`OutgoingPacket`] holds.
pub struct PacketView {
    pub dest: ProgramId,
    pub payload: Seq<u8>,
    pub gas_limit: u64,
    pub value: u128,
}

/// A message that a program asks to send; it has no identifier yet.
#[derive(Debug)]
pub struct OutgoingPacket {
    pub dest: ProgramId,
    pub payload: Vec<u8>,
    pub gas_limit: u64,
    pub value: u128,
}

impl View for OutgoingPacket {
    type V = PacketView;

    open spec fn view(&self) -> PacketView {
        PacketView {
            dest: self.dest,
            payload: self.payload@,
            gas_limit: self.gas_limit,
            value: self.value,
        }
    }
}

/// What an [`OutgoingMessage`] holds.
pub struct OutgoingView {
    pub id: Seq<u8>,
    pub dest: ProgramId,
    pub payload: Seq<u8>,
    pub gas_limit: u64,
    pub value: u128,
}

/// A message that a program has sent during a run.
#[derive(Debug)]
pub struct OutgoingMessage {
    pub id: MessageId,
    pub dest: ProgramId,
    pub payload: Vec<u8>,
    pub gas_limit: u64,
    pub value: u128,
}

impl View for OutgoingMessage {
    type V = OutgoingView;

    open spec fn view(&self) -> OutgoingView {
        OutgoingView {
            id: self.id.bytes@,
            dest: self.dest,
            payload: self.payload@,
            gas_limit: self.gas_limit,
            value: self.value,
        }
    }
}

/// The packet `packet` under the identifier `id`.
pub open spec fn outgoing(packet: PacketView, id: Seq<u8>) -> OutgoingView {
    OutgoingView {
        id,
        dest: packet.dest,
        payload: packet.payload,
        gas_limit: packet.gas_limit,
        value: packet.value,
    }
}

/// The outgoing message `message` as sent by `source`.
pub open spec fn sent_by(message: OutgoingView, source: ProgramId) -> MessageView {
    MessageView {
        id: message.id,
        source,
        dest: message.dest,
        payload: message.payload,
        gas_limit: message.gas_limit,
        value: message.value,
    }
}

/// The views of a sequence of outgoing messages.
pub open spec fn outgoing_views(messages: Seq<OutgoingMessage>) -> Seq<OutgoingView> {
    messages.map_values(|m: OutgoingMessage| m@)
}

/// Outgoing messages as sent by `source`, in the same order.
pub open spec fn all_sent_by(messages: Seq<OutgoingView>, source: ProgramId) -> Seq<MessageView> {
    messages.map_values(|m: OutgoingView| sent_by(m, source))
}

impl OutgoingPacket {
    /// The packet under an identifier.
    pub fn into_message(self, id: MessageId) -> (message: OutgoingMessage)
        ensures
            message@ == outgoing(self@, id.bytes@),
            message.id == id,
            message.dest == self.dest,
            message.payload == self.payload,
            message.gas_limit == self.gas_limit,
            message.value == self.value,
    {
        OutgoingMessage {
            id,
            dest: self.dest,
            payload: self.payload,
            gas_limit: self.gas_limit,
            value: self.value,
        }
    }
}

impl Clone for OutgoingMessage {
    fn clone(&self) -> (message: OutgoingMessage)
        ensures
            message@ == self@,
            message.id == self.id,
            message.dest == self.dest,
            message.payload@ == self.payload@,
            message.gas_limit == self.gas_limit,
            message.value == self.value,
    {
        let payload: Vec<u8> = self.payload.clone();
        assert(payload@ =~= self.payload@);
        OutgoingMessage {
            id: self.id,
            dest: self.dest,
            payload,
            gas_limit: self.gas_limit,
            value: self.value,
        }
    }
}

impl OutgoingMessage {
    /// The message as sent by `source`.
    pub fn into_message(self, source: ProgramId) -> (message: Message)
        ensures
            message@ == sent_by(self@, source),
            message.id == self.id,
            message.source == source,
            message.dest == self.dest,
            message.payload == self.payload,
            message.gas_limit == self.gas_limit,
            message.value == self.value,
    {
        Message {
            id: self.id,
            source,
            dest: self.dest,
            payload: self.payload,
            gas_limit: self.gas_limit,
            value: self.value,
        }
    }
}

/// What a [`ReplyPacket`] holds.
pub struct ReplyPacketView {
    pub payload: Seq<u8>,
    pub gas_limit: u64,
    pub value: u128,
}

/// A reply that a program asks to send; it has no identifier yet.
#[derive(Debug)]
pub struct ReplyPacket {
    pub payload: Vec<u8>,
    pub gas_limit: u64,
    pub value: u128,
}

impl View for ReplyPacket {
    type V = ReplyPacketView;

    open spec fn view(&self) -> ReplyPacketView {
        ReplyPacketView {
            payload: self.payload@,
            gas_limit: self.gas_limit,
            value: self.value,
        }
    }
}

/// What a [`ReplyMessage`] holds.
pub struct ReplyView {
    pub id: Seq<u8>,
    pub payload: Seq<u8>,
    pub gas_limit: u64,
    pub value: u128,
}

/// The reply of a program to the message that it handles.
#[derive(Clone, Debug)]
pub struct ReplyMessage {
    pub id: MessageId,
    pub payload: Vec<u8>,
    pub gas_limit: u64,
    pub value: u128,
}

impl View for ReplyMessage {
    type V = ReplyView;

    open spec fn view(&self) -> ReplyView {
        ReplyView {
            id: self.id.bytes@,
            payload: self.payload@,
            gas_limit: self.gas_limit,
            value: self.value,
        }
    }
}

/// The view of a reply that may be missing.
pub open spec fn reply_view(reply: Option<ReplyMessage>) -> Option<ReplyView> {
    match reply {
        Some(r) => Some(r@),
        None => None,
    }
}

/// The reply `packet` under the identifier `id`.
pub open spec fn replied(packet: ReplyPacketView, id: Seq<u8>) -> ReplyView {
    ReplyView { id, payload: packet.payload, gas_limit: packet.gas_limit, value: packet.value }
}

impl ReplyPacket {
    /// The packet under an identifier.
    pub fn into_message(self, id: MessageId) -> (message: ReplyMessage)
        ensures
            message@ == replied(self@, id.bytes@),
            message.id == id,
            message.payload == self.payload,
            message.gas_limit == self.gas_limit,
            message.value == self.value,
    {
        ReplyMessage { id, payload: self.payload, gas_limit: self.gas_limit, value: self.value }
    }
}

} // verus!
