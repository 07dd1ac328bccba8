//! The application-facing surface: requests an application may send the
//! node, the node's answers, and the report of the node's state that
//! applications observe.

use vstd::prelude::*;

use crate::crypto::{Currency, InvoiceId, PaymentId, PublicKey, Uid, bytes_eq};
use crate::messages::{
    AckClosePayment, AddFriend, AddInvoice, CreatePayment, CreateTransaction, MultiCommit,
    NamedRelayAddress, ResetFriendChannel, ResponseClosePayment, SetFriendName, SetFriendRate,
    SetFriendRelays, SetFriendRemoteMaxDebt, TransactionResult,
};

verus! {

/// What an application connection is allowed to do. Requests outside the
/// granted set are dropped without any state-visible effect.
#[derive(Clone, Copy, Debug, PartialEq, Eq, Structural)]
pub struct AppPermissions {
    /// Can request routes
    pub routes: bool,
    /// Can send credits as a buyer
    pub buyer: bool,
    /// Can receive credits as a seller
    pub seller: bool,
    /// Can configure friends
    pub config: bool,
}

/// Open one currency of a friend's channel for the friend's requests.
#[derive(Debug)]
pub struct OpenFriend {
    pub friend_public_key: PublicKey,
    pub currency: Currency,
}

/// Close one currency of a friend's channel for the friend's requests.
#[derive(Debug)]
pub struct CloseFriend {
    pub friend_public_key: PublicKey,
    pub currency: Currency,
}

/// Every request an application can make.
#[derive(Debug)]
pub enum AppRequest {
    /// Manage locally used relays:
    AddRelay(NamedRelayAddress),
    RemoveRelay(PublicKey),
    /// Friend management:
    AddFriend(AddFriend),
    SetFriendRelays(SetFriendRelays),
    SetFriendName(SetFriendName),
    RemoveFriend(PublicKey),
    EnableFriend(PublicKey),
    DisableFriend(PublicKey),
    OpenFriend(OpenFriend),
    CloseFriend(CloseFriend),
    SetFriendRemoteMaxDebt(SetFriendRemoteMaxDebt),
    SetFriendRate(SetFriendRate),
    ResetFriendChannel(ResetFriendChannel),
    /// Buyer:
    CreatePayment(CreatePayment),
    CreateTransaction(CreateTransaction),
    RequestClosePayment(PaymentId),
    AckClosePayment(AckClosePayment),
    /// Seller:
    AddInvoice(AddInvoice),
    CancelInvoice(InvoiceId),
    CommitInvoice(MultiCommit),
}

/// A request together with the id the application chose for it; every
/// answer that causally follows carries the same id.
#[derive(Debug)]
pub struct AppToAppServer {
    pub app_request_id: Uid,
    pub app_request: AppRequest,
}

impl AppToAppServer {
    pub fn new(app_request_id: Uid, app_request: AppRequest) -> (r: AppToAppServer)
        ensures
            r.app_request_id@ == app_request_id@,
    {
        AppToAppServer { app_request_id, app_request }
    }
}

/// The report of the node's state that applications observe. It follows
/// the node's state through report mutations.
#[derive(Debug)]
pub struct NodeReport {
    /// The relays this node advertises, under their local names.
    pub named_relays: Vec<NamedRelayAddress>,
}

/// A change to the advertised relay list.
#[derive(Debug)]
pub enum NamedRelaysMutation {
    AddRelay(NamedRelayAddress),
    RemoveRelay(PublicKey),
}

/// A change to the node report.
#[derive(Debug)]
pub enum NodeReportMutation {
    NamedRelays(NamedRelaysMutation),
}

/// A report change could not be applied.
#[derive(Debug)]
pub struct NodeReportMutateError;

/// The spec image of a named relay list: its public keys.
pub open spec fn named_relay_keys(s: Seq<NamedRelayAddress>) -> Seq<Seq<u8>> {
    s.map_values(|r: NamedRelayAddress| r.public_key@)
}

impl NodeReport {
    /// Whether a relay under this public key is present.
    pub open spec fn spec_has_relay(&self, public_key: Seq<u8>) -> bool {
        exists|i: int|
            0 <= i < self.named_relays@.len() && (#[trigger] self.named_relays@[i]).public_key@
                == public_key
    }

    /// Apply one report change: adding a relay appends it, removing one
    /// drops every relay under that public key.
    pub fn mutate(&mut self, mutation: &NodeReportMutation) -> (r: Result<
        (),
        NodeReportMutateError,
    >)
        ensures
            r is Ok,
            match mutation {
                NodeReportMutation::NamedRelays(m) => match m {
                    NamedRelaysMutation::AddRelay(relay) => final(self).spec_has_relay(
                        relay.public_key@,
                    ),
                    NamedRelaysMutation::RemoveRelay(pk) => !final(self).spec_has_relay(pk@),
                },
            },
    {
        match mutation {
            NodeReportMutation::NamedRelays(named_relays_mutation) => {
                match named_relays_mutation {
                    NamedRelaysMutation::AddRelay(relay) => {
                        self.named_relays.push(relay.clone());
                        proof {
                            let n = self.named_relays@.len() - 1;
                            assert(self.named_relays@[n].public_key@ == relay.public_key@);
                        }
                    },
                    NamedRelaysMutation::RemoveRelay(public_key) => {
                        let mut kept: Vec<NamedRelayAddress> = Vec::new();
                        let mut i: usize = 0;
                        while i < self.named_relays.len()
                            invariant
                                i <= self.named_relays@.len(),
                                forall|m: int|
                                    0 <= m < kept@.len() ==> (#[trigger] kept@[m]).public_key@
                                        != public_key@,
                            decreases self.named_relays@.len() - i,
                        {
                            if !bytes_eq(
                                &self.named_relays[i].public_key.bytes,
                                &public_key.bytes,
                            ) {
                                kept.push(self.named_relays[i].clone());
                            }
                            i = i + 1;
                        }
                        self.named_relays = kept;
                    },
                }
            },
        }
        Ok(())
    }
}

/// A batch of report changes, tagged with the application request that
/// caused them, when one did.
#[derive(Debug)]
pub struct ReportMutations {
    pub opt_app_request_id: Option<Uid>,
    pub mutations: Vec<NodeReportMutation>,
}

/// An optional application request id, spelled out for the wire.
#[derive(Debug)]
pub enum OptAppRequestId {
    AppRequestId(Uid),
    Empty,
}

/// Everything the node sends an application.
#[derive(Debug)]
pub enum AppServerToApp {
    /// Funds:
    TransactionResult(TransactionResult),
    ResponseClosePayment(ResponseClosePayment),
    /// Reports about current state:
    Report(NodeReport),
    ReportMutations(ReportMutations),
}

} // verus!
