//! What a server answers to the handshake command, and what a connection
//! keeps of the answer.

use crate::document::{Document, DocumentView};
use crate::metadata::text_of;
use vstd::prelude::*;

verus! {

/// A twelve-byte identifier.
#[derive(Debug, Clone, Copy, PartialEq, Eq)]
pub struct ObjectId {
    pub bytes: [u8; 12],
}

/// The texts of an optional list of strings.
pub open spec fn texts_of(list: Option<Vec<String>>) -> Option<Seq<Seq<char>>> {
    match list {
        Some(list) => Some(Seq::new(list@.len(), |i: int| list@[i]@)),
        None => None,
    }
}

/// The view of an optional document.
pub open spec fn document_of(document: Option<Document>) -> Option<DocumentView> {
    match document {
        Some(document) => Some(document@),
        None => None,
    }
}

/// What a server says of its place in a deployment.
#[derive(Debug, PartialEq, Eq)]
pub struct TopologyHints {
    pub is_writable_primary: Option<bool>,
    pub secondary: Option<bool>,
    pub set_name: Option<String>,
    pub msg: Option<String>,
}

/// The body of a server's answer to the handshake command.
#[derive(Debug, PartialEq, Eq)]
pub struct IsMasterCommandResponse {
    pub topology: TopologyHints,
    pub min_wire_version: Option<i32>,
    pub max_wire_version: Option<i32>,
    /// The mechanisms that the user named in the command may use.
    pub sasl_supported_mechs: Option<Vec<String>>,
    /// The service behind a load balancer that answered.
    pub service_id: Option<ObjectId>,
    /// The server's answer to a first authentication message.
    pub speculative_authenticate: Option<Document>,
}

/// A server's answer to the handshake command.
#[derive(Debug, PartialEq, Eq)]
pub struct IsMasterReply {
    pub server_address: String,
    pub command_response: IsMasterCommandResponse,
}

/// What a connection remembers of the server it is connected to.
#[derive(Debug, PartialEq, Eq)]
pub struct StreamDescription {
    pub server_address: String,
    pub topology: TopologyHints,
    pub min_wire_version: Option<i32>,
    pub max_wire_version: Option<i32>,
    pub sasl_supported_mechs: Option<Vec<String>>,
    pub service_id: Option<ObjectId>,
}

/// The state of a connection as far as a handshake touches it.
#[derive(Debug, PartialEq, Eq)]
pub struct Connection {
    pub address: String,
    /// Unset until a handshake has succeeded.
    pub stream_description: Option<StreamDescription>,
}

/// The mathematical value of a [`TopologyHints`].
pub struct TopologyHintsView {
    pub is_writable_primary: Option<bool>,
    pub secondary: Option<bool>,
    pub set_name: Option<Seq<char>>,
    pub msg: Option<Seq<char>>,
}

/// The mathematical value of a [`IsMasterCommandResponse`].
pub struct IsMasterCommandResponseView {
    pub topology: TopologyHintsView,
    pub min_wire_version: Option<i32>,
    pub max_wire_version: Option<i32>,
    pub sasl_supported_mechs: Option<Seq<Seq<char>>>,
    pub service_id: Option<ObjectId>,
    pub speculative_authenticate: Option<DocumentView>,
}

/// The mathematical value of a [`IsMasterReply`].
pub struct IsMasterReplyView {
    pub server_address: Seq<char>,
    pub command_response: IsMasterCommandResponseView,
}

/// The mathematical value of a [`StreamDescription`].
pub struct StreamDescriptionView {
    pub server_address: Seq<char>,
    pub topology: TopologyHintsView,
    pub min_wire_version: Option<i32>,
    pub max_wire_version: Option<i32>,
    pub sasl_supported_mechs: Option<Seq<Seq<char>>>,
    pub service_id: Option<ObjectId>,
}

/// The mathematical value of a [`Connection`].
pub struct ConnectionView {
    pub address: Seq<char>,
    pub stream_description: Option<StreamDescriptionView>,
}

impl View for TopologyHints {
    type V = TopologyHintsView;

    open spec fn view(&self) -> TopologyHintsView {
        TopologyHintsView {
            is_writable_primary: self.is_writable_primary,
            secondary: self.secondary,
            set_name: text_of(self.set_name),
            msg: text_of(self.msg),
        }
    }
}

impl View for IsMasterCommandResponse {
    type V = IsMasterCommandResponseView;

    open spec fn view(&self) -> IsMasterCommandResponseView {
        IsMasterCommandResponseView {
            topology: self.topology@,
            min_wire_version: self.min_wire_version,
            max_wire_version: self.max_wire_version,
            sasl_supported_mechs: texts_of(self.sasl_supported_mechs),
            service_id: self.service_id,
            speculative_authenticate: document_of(self.speculative_authenticate),
        }
    }
}

impl View for IsMasterReply {
    type V = IsMasterReplyView;

    open spec fn view(&self) -> IsMasterReplyView {
        IsMasterReplyView {
            server_address: self.server_address@,
            command_response: self.command_response@,
        }
    }
}

impl View for StreamDescription {
    type V = StreamDescriptionView;

    open spec fn view(&self) -> StreamDescriptionView {
        StreamDescriptionView {
            server_address: self.server_address@,
            topology: self.topology@,
            min_wire_version: self.min_wire_version,
            max_wire_version: self.max_wire_version,
            sasl_supported_mechs: texts_of(self.sasl_supported_mechs),
            service_id: self.service_id,
        }
    }
}

impl View for Connection {
    type V = ConnectionView;

    open spec fn view(&self) -> ConnectionView {
        ConnectionView {
            address: self.address@,
            stream_description: match self.stream_description {
                Some(description) => Some(description@),
                None => None,
            },
        }
    }
}

impl Clone for TopologyHints {
    fn clone(&self) -> (copy: TopologyHints)
        ensures
            copy == *self,
    {
        TopologyHints {
            is_writable_primary: self.is_writable_primary,
            secondary: self.secondary,
            set_name: self.set_name.clone(),
            msg: self.msg.clone(),
        }
    }
}

/// A copy of an optional list of strings.
fn clone_names(names: &Option<Vec<String>>) -> (copy: Option<Vec<String>>)
    ensures
        texts_of(copy) == texts_of(*names),
{
    match names {
        Some(list) => {
            let copy = list.clone();
            assert(texts_of(Some(copy))->0 =~= texts_of(*names)->0);
            Some(copy)
        },
        None => None,
    }
}

/// A copy of an optional document.
fn clone_document(document: &Option<Document>) -> (copy: Option<Document>)
    ensures
        document_of(copy) == document_of(*document),
{
    match document {
        Some(document) => Some(document.clone()),
        None => None,
    }
}

impl Clone for IsMasterCommandResponse {
    fn clone(&self) -> (copy: IsMasterCommandResponse)
        ensures
            copy@ == self@,
    {
        IsMasterCommandResponse {
            topology: self.topology.clone(),
            min_wire_version: self.min_wire_version,
            max_wire_version: self.max_wire_version,
            sasl_supported_mechs: clone_names(&self.sasl_supported_mechs),
            service_id: self.service_id,
            speculative_authenticate: clone_document(&self.speculative_authenticate),
        }
    }
}

impl Clone for IsMasterReply {
    fn clone(&self) -> (copy: IsMasterReply)
        ensures
            copy@ == self@,
    {
        IsMasterReply {
            server_address: self.server_address.clone(),
            command_response: self.command_response.clone(),
        }
    }
}

impl Clone for StreamDescription {
    fn clone(&self) -> (copy: StreamDescription)
        ensures
            copy@ == self@,
    {
        StreamDescription {
            server_address: self.server_address.clone(),
            topology: self.topology.clone(),
            min_wire_version: self.min_wire_version,
            max_wire_version: self.max_wire_version,
            sasl_supported_mechs: clone_names(&self.sasl_supported_mechs),
            service_id: self.service_id,
        }
    }
}

impl IsMasterReplyView {
    /// What a connection keeps of this reply: the server's address, its
    /// topology hints and wire versions, the mechanisms it offers and the
    /// service that answered, each as the reply states it.
    pub open spec fn stream_description(self) -> StreamDescriptionView {
        StreamDescriptionView {
            server_address: self.server_address,
            topology: self.command_response.topology,
            min_wire_version: self.command_response.min_wire_version,
            max_wire_version: self.command_response.max_wire_version,
            sasl_supported_mechs: self.command_response.sasl_supported_mechs,
            service_id: self.command_response.service_id,
        }
    }
}

impl StreamDescription {
    /// What a connection keeps of `reply`.
    pub fn from_is_master(reply: IsMasterReply) -> (description: StreamDescription)
        ensures
            description@ == reply@.stream_description(),
    {
        StreamDescription {
            server_address: reply.server_address,
            topology: reply.command_response.topology,
            min_wire_version: reply.command_response.min_wire_version,
            max_wire_version: reply.command_response.max_wire_version,
            sasl_supported_mechs: reply.command_response.sasl_supported_mechs,
            service_id: reply.command_response.service_id,
        }
    }
}

impl Connection {
    /// A connection to `address` on which no handshake has succeeded yet.
    pub fn new(address: String) -> (connection: Connection)
        ensures
            connection.address == address,
            connection.stream_description is None,
    {
        Connection { address, stream_description: None }
    }
}

} // verus!
