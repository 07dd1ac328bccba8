//! Types of the compact node front end: the names and states of managed
//! nodes, the user-facing server protocol, and the compact node's
//! persisted state of open invoices and payments.

use vstd::prelude::*;

use crate::crypto::{Currency, InvoiceId, NetAddress, PaymentId, PrivateKey, PublicKey, Uid};
use crate::messages::{Commit, FriendsRoute, Receipt};
use crate::report::AppPermissions;

verus! {

/// A locally chosen, human readable node name.
#[derive(Debug)]
pub struct NodeName {
    pub name: String,
}

/// A runtime handle to an open node.
#[derive(Clone, Copy, Debug, PartialEq, Eq, Structural)]
pub struct NodeId(pub u64);

impl NodeName {
    pub fn new(node_name: String) -> (r: NodeName)
        ensures
            r.name@ == node_name@,
    {
        NodeName { name: node_name }
    }

    pub fn as_str(&self) -> (r: &str)
        ensures
            r@ == self.name@,
    {
        self.name.as_str()
    }
}

/// A node that runs inside this process.
#[derive(Debug)]
pub struct NodeInfoLocal {
    pub node_public_key: PublicKey,
}

/// A node reached over the network.
#[derive(Debug)]
pub struct NodeInfoRemote {
    pub app_public_key: PublicKey,
    pub node_public_key: PublicKey,
    pub node_address: NetAddress,
}

/// Where a managed node lives.
#[derive(Debug)]
pub enum NodeInfo {
    Local(NodeInfoLocal),
    Remote(NodeInfoRemote),
}

/// A managed node and whether it is currently open.
#[derive(Debug)]
pub struct NodeStatus {
    pub is_open: bool,
    pub info: NodeInfo,
}

/// Create a node that runs inside this process.
#[derive(Debug)]
pub struct CreateNodeLocal {
    pub node_name: NodeName,
}

/// Register a node reached over the network.
#[derive(Debug)]
pub struct CreateNodeRemote {
    pub node_name: NodeName,
    pub app_private_key: PrivateKey,
    pub node_public_key: PublicKey,
    pub node_address: NetAddress,
}

/// The answer to a request to open a node.
#[derive(Debug)]
pub enum ResponseOpenNode {
    Success(NodeName, NodeId, AppPermissions),
    Failure(NodeName),
}

/// A request to create a node, local or remote.
#[derive(Debug)]
pub enum RequestCreateNode {
    CreateNodeLocal(CreateNodeLocal),
    CreateNodeRemote(CreateNodeRemote),
}

/// Everything the server sends the user.
#[derive(Debug)]
pub enum ServerToUser {
    ResponseOpenNode(ResponseOpenNode),
    /// All managed nodes and their current status
    NodesStatus(Vec<(NodeName, NodeStatus)>),
    /// A payload from a specific open node
    Node(NodeId, Vec<u8>),
}

/// A server message, or the acknowledgement of a user request.
#[derive(Debug)]
pub enum ServerToUserAck {
    ServerToUser(ServerToUser),
    Ack(Uid),
}

/// Everything the user sends the server.
#[derive(Debug)]
pub enum UserToServer {
    RequestCreateNode(RequestCreateNode),
    RequestRemoveNode(NodeName),
    RequestOpenNode(NodeName),
    RequestCloseNode(NodeId),
    /// A payload for a specific open node
    Node(NodeId, Vec<u8>),
}

/// A user request under the id its acknowledgement will carry.
#[derive(Debug)]
pub struct UserToServerAck {
    pub request_id: Uid,
    pub inner: UserToServer,
}

/// An invoice this seller has opened and still expects payment for.
#[derive(Debug)]
pub struct OpenInvoice {
    pub currency: Currency,
    pub total_dest_payment: u128,
    /// Invoice description
    pub description: String,
}

/// A payment whose transactions are in flight.
#[derive(Debug)]
pub struct OpenPaymentStatusSending {
    pub fees: u128,
    pub open_transactions: Vec<Uid>,
}

/// A payment for which a route was found but not yet confirmed.
#[derive(Debug)]
pub struct OpenPaymentStatusFoundRoute {
    pub confirm_id: Uid,
    pub routes: Vec<FriendsRoute>,
    pub fees: u128,
}

/// Where an open payment stands.
#[derive(Debug)]
pub enum OpenPaymentStatus {
    /// Waiting for routes under this request id
    SearchingRoute(Uid),
    FoundRoute(OpenPaymentStatusFoundRoute),
    Sending(OpenPaymentStatusSending),
    /// A commit to hand the seller, and the fees paid
    Commit(Commit, u128),
    /// A receipt, the fees paid, and an acknowledgement id
    Success(Receipt, u128, Uid),
    /// An acknowledgement id
    Failure(Uid),
}

/// A payment this buyer has started and not yet closed.
#[derive(Debug)]
pub struct OpenPayment {
    pub invoice_id: InvoiceId,
    pub currency: Currency,
    pub dest_public_key: PublicKey,
    pub dest_payment: u128,
    /// Invoice description, as obtained from the invoice
    pub description: String,
    /// Current status of the open payment
    pub status: OpenPaymentStatus,
}

/// The compact node's persisted state: the seller's open invoices and
/// the buyer's open payments.
#[derive(Debug)]
pub struct CompactState {
    /// Seller's open invoices:
    pub open_invoices: Vec<(InvoiceId, OpenInvoice)>,
    /// Buyer's open payments:
    pub open_payments: Vec<(PaymentId, OpenPayment)>,
}

impl CompactState {
    pub fn new() -> (r: CompactState)
        ensures
            r.open_invoices@.len() == 0,
            r.open_payments@.len() == 0,
    {
        CompactState { open_invoices: Vec::new(), open_payments: Vec::new() }
    }
}

} // verus!
