//! The decisions of a routing client: which request it sends for a get or
//! a put, with which message id, and what it does with an incoming message.
//! Serialising a request, sending it and receiving messages happen outside
//! this crate.

use vstd::prelude::*;

use crate::bytes::random_u32;
use crate::dht_id::DhtId;
use crate::types::{
    Authority, DestinationAddress, MessageId, MessageTypeTag, NameAndTypeId, Signature,
    SourceAddress,
};

verus! {

/// Body of a request for the data stored under a name.
pub struct GetData {
    pub requester: SourceAddress,
    pub name_and_type_id: NameAndTypeId,
}

/// Body of a request to store data under a name.
pub struct PutData {
    pub name: Vec<u8>,
    pub data: Vec<u8>,
}

/// The routing information of a message.
pub struct MessageHeader {
    pub message_id: MessageId,
    pub destination: DestinationAddress,
    pub source: SourceAddress,
    pub authority: Authority,
    pub signature: Option<Signature>,
}

/// What a routing message carries.
pub enum MessageBody {
    GetData(GetData),
    PutData(PutData),
}

/// A routing message before it is serialised.
pub struct RoutingMessage {
    pub message_type: MessageTypeTag,
    pub message_header: MessageHeader,
    pub body: MessageBody,
}

/// What the client does with an incoming message.
#[derive(PartialEq, Eq, Structural, Clone, Copy, Debug)]
pub enum IncomingAction {
    /// Hand the message's body to the facade as the response to a get.
    DeliverGetResponse,
    /// The message is not addressed to this client: drop it.
    Ignore,
    /// The message is addressed to this client but of a kind it does not
    /// handle.
    Unhandled,
}

/// The message id that follows `id`, wrapping at the end of the range.
pub open spec fn next_message_id(id: MessageId) -> MessageId {
    if id == u32::MAX {
        0
    } else {
        (id + 1) as u32
    }
}

/// What a client holds, as plain values.
pub struct RoutingClientView {
    pub own_address: Seq<u8>,
    pub bootstrap_address: Seq<u8>,
    pub message_id: MessageId,
}

/// The source address of the client's requests: sent through the bootstrap
/// node, with replies going to the client's own address.
pub open spec fn is_client_source(source: SourceAddress, client: RoutingClientView) -> bool {
    &&& source.from_node@ == client.bootstrap_address
    &&& source.from_group is None
    &&& source.reply_to matches Some(reply_to) && reply_to@ == client.own_address
}

/// The action for a message with the given destination and type: a message
/// addressed to the bootstrap node with replies to the client is handled if
/// it is a get response; any other message is ignored.
pub open spec fn incoming_action_spec(
    client: RoutingClientView,
    destination: DestinationAddress,
    message_type: MessageTypeTag,
) -> IncomingAction {
    if destination.dest@ == client.bootstrap_address && (destination.reply_to matches Some(
        reply_to,
    ) && reply_to@ == client.own_address) {
        if message_type == MessageTypeTag::GetDataResponse {
            IncomingAction::DeliverGetResponse
        } else {
            IncomingAction::Unhandled
        }
    } else {
        IncomingAction::Ignore
    }
}

/// A client that reaches the network through a bootstrap node.
pub struct RoutingClient {
    own_address: DhtId,
    bootstrap_address: DhtId,
    message_id: MessageId,
}

impl View for RoutingClient {
    type V = RoutingClientView;

    closed spec fn view(&self) -> RoutingClientView {
        RoutingClientView {
            own_address: self.own_address@,
            bootstrap_address: self.bootstrap_address@,
            message_id: self.message_id,
        }
    }
}

impl RoutingClient {
    /// A client named `own_address` that bootstraps through
    /// `bootstrap_address`, starting from a random message id.
    pub fn new(own_address: DhtId, bootstrap_address: DhtId) -> (client: RoutingClient)
        ensures
            client@.own_address == own_address@,
            client@.bootstrap_address == bootstrap_address@,
    {
        RoutingClient { own_address, bootstrap_address, message_id: random_u32() }
    }

    /// The client's own address.
    pub fn own_address(&self) -> (address: DhtId)
        ensures
            address@ == self@.own_address,
    {
        self.own_address.copy()
    }

    /// The address of the node the client bootstraps through.
    pub fn bootstrap_address(&self) -> (address: DhtId)
        ensures
            address@ == self@.bootstrap_address,
    {
        self.bootstrap_address.copy()
    }

    /// The id that the next request will carry.
    pub fn message_id(&self) -> (id: MessageId)
        ensures
            id == self@.message_id,
    {
        self.message_id
    }

    /// The source address of the client's requests.
    fn source(&self) -> (source: SourceAddress)
        ensures
            is_client_source(source, self@),
    {
        SourceAddress {
            from_node: self.bootstrap_address.copy(),
            from_group: None,
            reply_to: Some(self.own_address.copy()),
        }
    }

    /// Takes the current message id and advances to the next one.
    fn take_message_id(&mut self) -> (id: MessageId)
        ensures
            id == old(self)@.message_id,
            final(self)@ == (RoutingClientView {
                message_id: next_message_id(old(self)@.message_id),
                ..old(self)@
            }),
    {
        let id = self.message_id;
        self.message_id = self.message_id.wrapping_add(1);
        id
    }

    /// The request that retrieves the data of type `type_id` named `name`
    /// (a direct, non-mutating call). It carries the current message id,
    /// which then advances.
    pub fn get(&mut self, type_id: u64, name: DhtId) -> (message: RoutingMessage)
        ensures
            final(self)@ == (RoutingClientView {
                message_id: next_message_id(old(self)@.message_id),
                ..old(self)@
            }),
            message.message_type == MessageTypeTag::GetData,
            message.message_header.message_id == old(self)@.message_id,
            message.message_header.destination.dest@ == name@,
            message.message_header.destination.reply_to is None,
            is_client_source(message.message_header.source, old(self)@),
            message.message_header.authority == Authority::Client,
            message.message_header.signature is None,
            message.body matches MessageBody::GetData(get_data) && {
                &&& is_client_source(get_data.requester, old(self)@)
                &&& get_data.name_and_type_id.name@ == name@
                &&& get_data.name_and_type_id.type_id == type_id as u32
            },
    {
        let get_data = GetData {
            requester: self.source(),
            name_and_type_id: NameAndTypeId {
                name: name.0.clone(),
                type_id: type_id as u32,
            },
        };
        let message_id = self.take_message_id();
        let header = MessageHeader {
            message_id,
            destination: DestinationAddress { dest: name, reply_to: None },
            source: self.source(),
            authority: Authority::Client,
            signature: None,
        };
        RoutingMessage {
            message_type: MessageTypeTag::GetData,
            message_header: header,
            body: MessageBody::GetData(get_data),
        }
    }

    /// The request that stores `content` under `name`; it always goes via
    /// the client's own ClientManager group. It carries the current message
    /// id, which then advances, and a signature of 32 random bytes.
    pub fn put(&mut self, name: DhtId, content: Vec<u8>) -> (message: RoutingMessage)
        ensures
            final(self)@ == (RoutingClientView {
                message_id: next_message_id(old(self)@.message_id),
                ..old(self)@
            }),
            message.message_type == MessageTypeTag::PutData,
            message.message_header.message_id == old(self)@.message_id,
            message.message_header.destination.dest@ == old(self)@.own_address,
            message.message_header.destination.reply_to is None,
            is_client_source(message.message_header.source, old(self)@),
            message.message_header.authority == Authority::Client,
            message.message_header.signature matches Some(signature)
                && signature.signature@.len() == 32,
            message.body matches MessageBody::PutData(put_data) && {
                &&& put_data.name@ == name@
                &&& put_data.data@ == content@
            },
    {
        let put_data = PutData { name: name.0, data: content };
        let message_id = self.take_message_id();
        let header = MessageHeader {
            message_id,
            destination: DestinationAddress { dest: self.own_address.copy(), reply_to: None },
            source: self.source(),
            authority: Authority::Client,
            signature: Some(Signature::generate_random()),
        };
        RoutingMessage {
            message_type: MessageTypeTag::PutData,
            message_header: header,
            body: MessageBody::PutData(put_data),
        }
    }

    /// What to do with an incoming message that has the given destination
    /// and type.
    pub fn incoming_action(
        &self,
        destination: &DestinationAddress,
        message_type: MessageTypeTag,
    ) -> (action: IncomingAction)
        ensures
            action == incoming_action_spec(self@, *destination, message_type),
            !(destination.dest@ == self@.bootstrap_address && (destination.reply_to matches Some(r)
                && r@ == self@.own_address)) ==> action == IncomingAction::Ignore,
    {
        let to_us = destination.dest.same_as(&self.bootstrap_address) && match &destination.reply_to {
            Some(reply_to) => reply_to.same_as(&self.own_address),
            None => false,
        };
        if to_us {
            match message_type {
                MessageTypeTag::GetDataResponse => IncomingAction::DeliverGetResponse,
                _ => IncomingAction::Unhandled,
            }
        } else {
            IncomingAction::Ignore
        }
    }
}

/// A message is ignored, whatever its type, unless it is addressed to the
/// bootstrap node with replies to the client; a message so addressed is
/// delivered if it is a get response and unhandled otherwise.
pub proof fn lemma_incoming_action_cases(
    client: RoutingClientView,
    destination: DestinationAddress,
    message_type: MessageTypeTag,
)
    ensures
        !(destination.dest@ == client.bootstrap_address && (destination.reply_to matches Some(r)
            && r@ == client.own_address)) ==> incoming_action_spec(client, destination, message_type)
            == IncomingAction::Ignore,
        (destination.dest@ == client.bootstrap_address && (destination.reply_to matches Some(r)
            && r@ == client.own_address)) ==> incoming_action_spec(client, destination, message_type)
            == (if message_type == MessageTypeTag::GetDataResponse {
            IncomingAction::DeliverGetResponse
        } else {
            IncomingAction::Unhandled
        }),
{
}

/// A get response sent back to where the client's requests come from (the
/// bootstrap node, replying to the client) is delivered to the client.
pub proof fn lemma_reply_to_request_is_delivered(
    client: RoutingClientView,
    source: SourceAddress,
    destination: DestinationAddress,
)
    requires
        is_client_source(source, client),
        destination.dest@ == source.from_node@,
        destination.reply_to == source.reply_to,
    ensures
        incoming_action_spec(client, destination, MessageTypeTag::GetDataResponse)
            == IncomingAction::DeliverGetResponse,
{
}

} // verus!
