//! Per-friend state: the token channel (or the reset negotiation that
//! replaces it after an inconsistency), the outbound operation queues,
//! and the knobs the local user has set for this friend. All changes go
//! through `FriendMutation` values so they can be logged and replayed.

use vstd::prelude::*;

use crate::crypto::{Currency, PublicKey};
use crate::funder::MoveTokenHashed;
use crate::messages::{
    CancelSendFundsOp, CancelSendFundsOpView, CollectSendFundsOp, CollectSendFundsOpView,
    FriendStatus, NamedRelayAddress, Rate, RelayAddress, RequestSendFundsOp,
    RequestSendFundsOpView, RequestsStatus, ResetTerms, ResponseSendFundsOp,
    ResponseSendFundsOpView, relays_view,
};
use crate::mutual_credit::{McMutation, spec_mc_mutate};
use crate::token_channel::DirectionalTokenChannel;

verus! {

/// Spec image of a backwards operation.
pub ghost enum BackwardsOpView {
    Response(ResponseSendFundsOpView),
    Cancel(CancelSendFundsOpView),
    Collect(CollectSendFundsOpView),
}

/// Any operation that goes backwards with respect to the initial request.
#[derive(Debug)]
pub enum BackwardsOp {
    Response(ResponseSendFundsOp),
    Cancel(CancelSendFundsOp),
    Collect(CollectSendFundsOp),
}

impl View for BackwardsOp {
    type V = BackwardsOpView;

    open spec fn view(&self) -> BackwardsOpView {
        match self {
            BackwardsOp::Response(op) => BackwardsOpView::Response(op@),
            BackwardsOp::Cancel(op) => BackwardsOpView::Cancel(op@),
            BackwardsOp::Collect(op) => BackwardsOpView::Collect(op@),
        }
    }
}

impl Clone for BackwardsOp {
    fn clone(&self) -> (r: Self)
        ensures
            r@ == self@,
    {
        match self {
            BackwardsOp::Response(op) => BackwardsOp::Response(op.clone()),
            BackwardsOp::Cancel(op) => BackwardsOp::Cancel(op.clone()),
            BackwardsOp::Collect(op) => BackwardsOp::Collect(op.clone()),
        }
    }
}

/// The relay list we most recently advertised to this friend.
/// `Transition` keeps the previous list alive until the peer acknowledges
/// the newer one.
#[derive(Debug)]
pub enum SentLocalRelays {
    NeverSent,
    /// (last sent, before last sent)
    Transition(Vec<NamedRelayAddress>, Vec<NamedRelayAddress>),
    LastSent(Vec<NamedRelayAddress>),
}

impl SentLocalRelays {
    /// All relays the peer may currently be using for us: the union of
    /// the advertised lists with one entry per public key, the earlier
    /// occurrence winning, in scan order (the newer list first).
    pub fn to_vec(&self) -> (r: Vec<RelayAddress>)
        ensures
            forall|i: int, j: int|
                0 <= i < j < r@.len() ==> (#[trigger] r@[i])@.public_key != (#[trigger] r@[j])@
                    .public_key,
            match self {
                SentLocalRelays::NeverSent => r@.len() == 0,
                SentLocalRelays::LastSent(last) => r@.len() <= last@.len(),
                SentLocalRelays::Transition(last, prev) => r@.len() <= last@.len() + prev@.len(),
            },
    {
        match self {
            SentLocalRelays::NeverSent => Vec::new(),
            SentLocalRelays::LastSent(last) => {
                let mut relays: Vec<RelayAddress> = Vec::new();
                let mut i: usize = 0;
                while i < last.len()
                    invariant
                        i <= last.len(),
                        relays@.len() <= i,
                        forall|p: int, q: int|
                            0 <= p < q < relays@.len() ==> (#[trigger] relays@[p])@.public_key != (
                            #[trigger] relays@[q])@.public_key,
                    decreases last.len() - i,
                {
                    let candidate = RelayAddress {
                        public_key: last[i].public_key.clone(),
                        address: last[i].address.clone(),
                    };
                    push_if_new_public_key(&mut relays, candidate);
                    i = i + 1;
                }
                relays
            },
            SentLocalRelays::Transition(last, prev) => {
                let mut relays: Vec<RelayAddress> = Vec::new();
                let mut i: usize = 0;
                while i < last.len()
                    invariant
                        i <= last.len(),
                        relays@.len() <= i,
                        forall|p: int, q: int|
                            0 <= p < q < relays@.len() ==> (#[trigger] relays@[p])@.public_key != (
                            #[trigger] relays@[q])@.public_key,
                    decreases last.len() - i,
                {
                    let candidate = RelayAddress {
                        public_key: last[i].public_key.clone(),
                        address: last[i].address.clone(),
                    };
                    push_if_new_public_key(&mut relays, candidate);
                    i = i + 1;
                }
                let mut j: usize = 0;
                while j < prev.len()
                    invariant
                        j <= prev.len(),
                        relays@.len() <= last@.len() + j,
                        forall|p: int, q: int|
                            0 <= p < q < relays@.len() ==> (#[trigger] relays@[p])@.public_key != (
                            #[trigger] relays@[q])@.public_key,
                    decreases prev.len() - j,
                {
                    let candidate = RelayAddress {
                        public_key: prev[j].public_key.clone(),
                        address: prev[j].address.clone(),
                    };
                    push_if_new_public_key(&mut relays, candidate);
                    j = j + 1;
                }
                relays
            },
        }
    }
}

/// Append a relay unless its public key is already present: the earlier
/// entry wins, existing entries are untouched, and afterwards the key is
/// present.
fn push_if_new_public_key(relays: &mut Vec<RelayAddress>, candidate: RelayAddress)
    requires
        forall|p: int, q: int|
            0 <= p < q < old(relays)@.len() ==> (#[trigger] old(relays)@[p])@.public_key != (
            #[trigger] old(relays)@[q])@.public_key,
    ensures
        forall|p: int, q: int|
            0 <= p < q < final(relays)@.len() ==> (#[trigger] final(relays)@[p])@.public_key != (
            #[trigger] final(relays)@[q])@.public_key,
        forall|p: int|
            0 <= p < old(relays)@.len() ==> (#[trigger] final(relays)@[p]) == old(relays)@[p],
        final(relays)@.len() >= old(relays)@.len(),
        final(relays)@.len() <= old(relays)@.len() + 1,
        exists|p: int|
            0 <= p < final(relays)@.len() && (#[trigger] final(relays)@[p])@.public_key
                == candidate@.public_key,
        forall|p: int|
            old(relays)@.len() <= p < final(relays)@.len() ==> (#[trigger] final(relays)@[p])@
                .public_key == candidate@.public_key && final(relays)@[p]@.address == candidate@
                .address,
{
    let mut k: usize = 0;
    while k < relays.len()
        invariant
            k <= relays.len(),
            relays@ == old(relays)@,
            forall|p: int, q: int|
                0 <= p < q < relays@.len() ==> (#[trigger] relays@[p])@.public_key != (#[trigger] relays@[q])@
                    .public_key,
            forall|p: int| 0 <= p < k ==> (#[trigger] relays@[p])@.public_key != candidate@.public_key,
        decreases relays.len() - k,
    {
        if crate::crypto::bytes_eq(&relays[k].public_key.bytes, &candidate.public_key.bytes) {
            assert(relays@[k as int]@.public_key == candidate@.public_key);
            return ;
        }
        k = k + 1;
    }
    let ghost cv = candidate@;
    relays.push(candidate);
    proof {
        assert(relays@[relays@.len() - 1]@ == cv);
    }
}

/// The reset negotiation that replaces a broken token channel.
#[derive(Debug)]
pub struct ChannelInconsistent {
    pub opt_last_incoming_move_token: Option<MoveTokenHashed>,
    pub local_reset_terms: ResetTerms,
    pub opt_remote_reset_terms: Option<ResetTerms>,
}

impl Clone for ChannelInconsistent {
    fn clone(&self) -> (r: Self)
        ensures
            r.local_reset_terms@ == self.local_reset_terms@,
    {
        ChannelInconsistent {
            opt_last_incoming_move_token: match &self.opt_last_incoming_move_token {
                Some(h) => Some(h.clone()),
                None => None,
            },
            local_reset_terms: self.local_reset_terms.clone(),
            opt_remote_reset_terms: match &self.opt_remote_reset_terms {
                Some(t) => Some(t.clone()),
                None => None,
            },
        }
    }
}

/// A healthy channel: the token channel plus the outbound queues and the
/// wanted-state knobs.
#[derive(Debug)]
pub struct ChannelConsistent {
    /// Our mutual state with the remote side
    pub token_channel: DirectionalTokenChannel,
    /// Forwarded requests waiting to be sent to this friend
    pub pending_requests: Vec<(Currency, RequestSendFundsOp)>,
    /// Backwards operations (responses, cancels, collects) waiting to be
    /// sent; these are guaranteed deliverable and are never reordered
    pub pending_backwards_ops: Vec<(Currency, BackwardsOp)>,
    /// Requests originated by the local user, served before forwarded ones
    pub pending_user_requests: Vec<(Currency, RequestSendFundsOp)>,
    /// The ceiling we want to grant the remote side, per currency
    pub wanted_remote_max_debt: Vec<(Currency, u128)>,
    /// Whether we want to accept the friend's requests, per currency
    pub wanted_local_requests_status: Vec<(Currency, RequestsStatus)>,
}

/// The channel with a friend: healthy, or under reset negotiation.
#[derive(Debug)]
pub enum ChannelStatus {
    Inconsistent(ChannelInconsistent),
    Consistent(ChannelConsistent),
}

impl ChannelStatus {
    /// The last move token we accepted from this friend, if any.
    pub fn get_last_incoming_move_token_hashed(&self) -> (r: Option<MoveTokenHashed>)
        ensures
            match self {
                ChannelStatus::Inconsistent(ci) => (r is Some) == (
                ci.opt_last_incoming_move_token is Some),
                ChannelStatus::Consistent(cc) => (r is Some) == (
                cc.token_channel.opt_last_incoming_move_token_hashed is Some),
            },
    {
        match self {
            ChannelStatus::Inconsistent(channel_inconsistent) => {
                match &channel_inconsistent.opt_last_incoming_move_token {
                    Some(h) => Some(h.clone()),
                    None => None,
                }
            },
            ChannelStatus::Consistent(channel_consistent) => {
                match &channel_consistent.token_channel.opt_last_incoming_move_token_hashed {
                    Some(h) => Some(h.clone()),
                    None => None,
                }
            },
        }
    }
}

/// Everything this node keeps about one friend.
#[derive(Debug)]
pub struct FriendState {
    /// Public key of this node
    pub local_public_key: PublicKey,
    /// Public key of the friend node
    pub remote_public_key: PublicKey,
    /// The relays on which the friend can be reached, as last reported
    pub remote_relays: Vec<RelayAddress>,
    /// The relay list we last advertised to the friend
    pub sent_local_relays: SentLocalRelays,
    /// Locally maintained name of the friend
    pub name: String,
    /// Fee rate for forwarding transactions that arrive from this friend
    pub rate: Rate,
    /// If disabled, we do not attempt to connect to this friend
    pub status: FriendStatus,
    /// Mutual credit channel information
    pub channel_status: ChannelStatus,
}

/// One durable change to a friend's state.
#[derive(Debug)]
pub enum FriendMutation {
    McMutation(McMutation),
    SetInconsistent(ChannelInconsistent),
    SetConsistent(DirectionalTokenChannel),
    SetWantedRemoteMaxDebt(Currency, u128),
    SetWantedLocalRequestsStatus(Currency, RequestsStatus),
    PushBackPendingRequest(Currency, RequestSendFundsOp),
    PopFrontPendingRequest,
    PushBackPendingBackwardsOp(Currency, BackwardsOp),
    PopFrontPendingBackwardsOp,
    PushBackPendingUserRequest(Currency, RequestSendFundsOp),
    PopFrontPendingUserRequest,
    RemovePendingRequests,
    SetStatus(FriendStatus),
    SetRemoteRelays(Vec<RelayAddress>),
    SetName(String),
    SetRate(Rate),
    SetSentLocalRelays(SentLocalRelays),
}

impl FriendState {
    /// The channel is healthy.
    pub open spec fn consistent(&self) -> bool {
        self.channel_status is Consistent
    }

    /// The underlying mutual-credit view of a healthy channel.
    pub open spec fn mc_view(&self) -> crate::mutual_credit::MutualCreditView {
        self.channel_status->Consistent_0.token_channel.token_channel@
    }

    /// The forwarded-request queue, as (currency, request) pairs.
    pub open spec fn pending_requests_view(&self) -> Seq<(Seq<u8>, RequestSendFundsOpView)> {
        self.channel_status->Consistent_0.pending_requests@.map_values(
            |p: (Currency, RequestSendFundsOp)| (p.0@, p.1@),
        )
    }

    /// The backwards-operation queue, as (currency, operation) pairs.
    pub open spec fn pending_backwards_ops_view(&self) -> Seq<(Seq<u8>, BackwardsOpView)> {
        self.channel_status->Consistent_0.pending_backwards_ops@.map_values(
            |p: (Currency, BackwardsOp)| (p.0@, p.1@),
        )
    }

    /// The user-request queue, as (currency, request) pairs.
    pub open spec fn pending_user_requests_view(&self) -> Seq<(Seq<u8>, RequestSendFundsOpView)> {
        self.channel_status->Consistent_0.pending_user_requests@.map_values(
            |p: (Currency, RequestSendFundsOp)| (p.0@, p.1@),
        )
    }

    /// The ceilings we want to grant, per currency, in arrival order.
    pub open spec fn wanted_remote_max_debt_view(&self) -> Seq<(Seq<u8>, u128)> {
        self.channel_status->Consistent_0.wanted_remote_max_debt@.map_values(
            |p: (Currency, u128)| (p.0@, p.1),
        )
    }

    /// The request-acceptance settings we want to apply, per currency, in
    /// arrival order.
    pub open spec fn wanted_local_requests_status_view(&self) -> Seq<(Seq<u8>, RequestsStatus)> {
        self.channel_status->Consistent_0.wanted_local_requests_status@.map_values(
            |p: (Currency, RequestsStatus)| (p.0@, p.1),
        )
    }

    /// The queues and knobs other than the ones this mutation touches are
    /// untouched; identity fields never change.
    pub open spec fn identity_unchanged(&self, other: &FriendState) -> bool {
        &&& self.local_public_key@ == other.local_public_key@
        &&& self.remote_public_key@ == other.remote_public_key@
    }

    /// Create the state for a fresh friend: a new token channel, empty
    /// queues, zero rate, disabled until the user enables it.
    pub fn new(
        local_public_key: &PublicKey,
        remote_public_key: &PublicKey,
        remote_relays: Vec<RelayAddress>,
        name: String,
    ) -> (r: FriendState)
        ensures
            r.local_public_key@ == local_public_key@,
            r.remote_public_key@ == remote_public_key@,
            relays_view(r.remote_relays@) == relays_view(remote_relays@),
            r.name@ == name@,
            r.channel_status->Consistent_0.wanted_remote_max_debt@.len() == 0,
            r.channel_status->Consistent_0.wanted_local_requests_status@.len() == 0,
            r.status == FriendStatus::Disabled,
            r.rate.mul == 0 && r.rate.add == 0,
            r.consistent(),
            r.mc_view().balance == 0,
            r.mc_view().wf(),
            r.pending_requests_view().len() == 0,
            r.pending_backwards_ops_view().len() == 0,
            r.pending_user_requests_view().len() == 0,
            r.sent_local_relays is NeverSent,
    {
        let channel_consistent = ChannelConsistent {
            token_channel: DirectionalTokenChannel::new(local_public_key, remote_public_key),
            pending_requests: Vec::new(),
            pending_backwards_ops: Vec::new(),
            pending_user_requests: Vec::new(),
            wanted_remote_max_debt: Vec::new(),
            wanted_local_requests_status: Vec::new(),
        };
        let r = FriendState {
            local_public_key: local_public_key.clone(),
            remote_public_key: remote_public_key.clone(),
            remote_relays,
            sent_local_relays: SentLocalRelays::NeverSent,
            name,
            // Initial rate is 0 for a new friend:
            rate: Rate::new(),
            status: FriendStatus::Disabled,
            channel_status: ChannelStatus::Consistent(channel_consistent),
        };
        assert(r.pending_requests_view() =~= Seq::<(Seq<u8>, RequestSendFundsOpView)>::empty());
        assert(r.pending_backwards_ops_view() =~= Seq::<(Seq<u8>, BackwardsOpView)>::empty());
        assert(r.pending_user_requests_view() =~= Seq::<
            (Seq<u8>, RequestSendFundsOpView),
        >::empty());
        r
    }

    /// Apply one mutation to this friend's state.
    pub fn mutate(&mut self, friend_mutation: &FriendMutation)
        requires
            match friend_mutation {
                FriendMutation::McMutation(m) => old(self).consistent() && crate::mutual_credit::pt_ids_unique(
                    old(self).mc_view().local_pending,
                ) && crate::mutual_credit::pt_ids_unique(old(self).mc_view().remote_pending),
                FriendMutation::SetWantedRemoteMaxDebt(..) => old(self).consistent(),
                FriendMutation::SetWantedLocalRequestsStatus(..) => old(self).consistent(),
                FriendMutation::PushBackPendingRequest(..) => old(self).consistent(),
                FriendMutation::PopFrontPendingRequest => old(self).consistent(),
                FriendMutation::PushBackPendingBackwardsOp(..) => old(self).consistent(),
                FriendMutation::PopFrontPendingBackwardsOp => old(self).consistent(),
                FriendMutation::PushBackPendingUserRequest(..) => old(self).consistent(),
                FriendMutation::PopFrontPendingUserRequest => old(self).consistent(),
                FriendMutation::RemovePendingRequests => old(self).consistent(),
                _ => true,
            },
        ensures
            final(self).identity_unchanged(old(self)),
            !(friend_mutation matches FriendMutation::SetName(_)) ==> final(self).name@ == old(self).name@,
            !(friend_mutation matches FriendMutation::SetRate(_)) ==> final(self).rate == old(self).rate,
            !(friend_mutation matches FriendMutation::SetRemoteRelays(_)) ==> relays_view(
                final(self).remote_relays@,
            ) == relays_view(old(self).remote_relays@),
            !(friend_mutation matches FriendMutation::SetStatus(_)) ==> final(self).status == old(self).status,
            !(friend_mutation matches FriendMutation::SetSentLocalRelays(_)) ==> final(self).sent_local_relays == old(self).sent_local_relays,
            match friend_mutation {
                FriendMutation::McMutation(m) => {
                    &&& final(self).consistent()
                    &&& final(self).mc_view() == spec_mc_mutate(old(self).mc_view(), m@)
                    &&& final(self).pending_requests_view() == old(self).pending_requests_view()
                    &&& final(self).pending_backwards_ops_view() == old(self).pending_backwards_ops_view()
                    &&& final(self).pending_user_requests_view() == old(self).pending_user_requests_view()
                    &&& final(self).status == old(self).status
                },
                FriendMutation::SetInconsistent(ci) => {
                    &&& !final(self).consistent()
                    &&& final(self).status == old(self).status
                },
                FriendMutation::SetConsistent(tc) => {
                    &&& final(self).consistent()
                    &&& final(self).mc_view() == tc.token_channel@
                    &&& final(self).pending_requests_view().len() == 0
                    &&& final(self).pending_backwards_ops_view().len() == 0
                    &&& final(self).pending_user_requests_view().len() == 0
                    &&& final(self).status == old(self).status
                },
                FriendMutation::PushBackPendingRequest(currency, request) => {
                    &&& final(self).consistent()
                    &&& final(self).pending_requests_view() == old(self).pending_requests_view().push((currency@, request@))
                    &&& final(self).pending_backwards_ops_view() == old(self).pending_backwards_ops_view()
                    &&& final(self).pending_user_requests_view() == old(self).pending_user_requests_view()
                    &&& final(self).mc_view() == old(self).mc_view()
                    &&& final(self).status == old(self).status
                },
                FriendMutation::PopFrontPendingRequest => {
                    &&& final(self).consistent()
                    &&& final(self).pending_requests_view() == if old(self).pending_requests_view().len() > 0 {
                        old(self).pending_requests_view().skip(1)
                    } else {
                        old(self).pending_requests_view()
                    }
                    &&& final(self).pending_backwards_ops_view() == old(self).pending_backwards_ops_view()
                    &&& final(self).pending_user_requests_view() == old(self).pending_user_requests_view()
                    &&& final(self).mc_view() == old(self).mc_view()
                    &&& final(self).status == old(self).status
                },
                FriendMutation::PushBackPendingBackwardsOp(currency, backwards_op) => {
                    &&& final(self).consistent()
                    &&& final(self).pending_backwards_ops_view() == old(self).pending_backwards_ops_view().push((currency@, backwards_op@))
                    &&& final(self).pending_requests_view() == old(self).pending_requests_view()
                    &&& final(self).pending_user_requests_view() == old(self).pending_user_requests_view()
                    &&& final(self).mc_view() == old(self).mc_view()
                    &&& final(self).status == old(self).status
                },
                FriendMutation::PopFrontPendingBackwardsOp => {
                    &&& final(self).consistent()
                    &&& final(self).pending_backwards_ops_view() == if old(self).pending_backwards_ops_view().len() > 0 {
                        old(self).pending_backwards_ops_view().skip(1)
                    } else {
                        old(self).pending_backwards_ops_view()
                    }
                    &&& final(self).pending_requests_view() == old(self).pending_requests_view()
                    &&& final(self).pending_user_requests_view() == old(self).pending_user_requests_view()
                    &&& final(self).mc_view() == old(self).mc_view()
                    &&& final(self).status == old(self).status
                },
                FriendMutation::PushBackPendingUserRequest(currency, request) => {
                    &&& final(self).consistent()
                    &&& final(self).pending_user_requests_view() == old(self).pending_user_requests_view().push((currency@, request@))
                    &&& final(self).pending_requests_view() == old(self).pending_requests_view()
                    &&& final(self).pending_backwards_ops_view() == old(self).pending_backwards_ops_view()
                    &&& final(self).mc_view() == old(self).mc_view()
                    &&& final(self).status == old(self).status
                },
                FriendMutation::PopFrontPendingUserRequest => {
                    &&& final(self).consistent()
                    &&& final(self).pending_user_requests_view() == if old(self).pending_user_requests_view().len() > 0 {
                        old(self).pending_user_requests_view().skip(1)
                    } else {
                        old(self).pending_user_requests_view()
                    }
                    &&& final(self).pending_requests_view() == old(self).pending_requests_view()
                    &&& final(self).pending_backwards_ops_view() == old(self).pending_backwards_ops_view()
                    &&& final(self).mc_view() == old(self).mc_view()
                    &&& final(self).status == old(self).status
                },
                FriendMutation::RemovePendingRequests => {
                    &&& final(self).consistent()
                    &&& final(self).pending_requests_view().len() == 0
                    &&& final(self).pending_user_requests_view().len() == 0
                    &&& final(self).pending_backwards_ops_view() == old(self).pending_backwards_ops_view()
                    &&& final(self).mc_view() == old(self).mc_view()
                    &&& final(self).status == old(self).status
                },
                FriendMutation::SetStatus(st) => {
                    &&& final(self).status == *st
                    &&& (final(self).consistent() <==> old(self).consistent())
                },
                FriendMutation::SetRemoteRelays(relays) => {
                    &&& relays_view(final(self).remote_relays@) == relays_view(relays@)
                    &&& final(self).status == old(self).status
                    &&& (final(self).consistent() <==> old(self).consistent())
                },
                FriendMutation::SetName(name) => {
                    &&& final(self).name@ == name@
                    &&& final(self).status == old(self).status
                    &&& (final(self).consistent() <==> old(self).consistent())
                },
                FriendMutation::SetRate(rate) => {
                    &&& final(self).rate == *rate
                    &&& final(self).status == old(self).status
                    &&& (final(self).consistent() <==> old(self).consistent())
                },
                FriendMutation::SetWantedRemoteMaxDebt(currency, wanted) => {
                    &&& final(self).consistent()
                    &&& final(self).wanted_remote_max_debt_view() == old(self).wanted_remote_max_debt_view().push((currency@, *wanted))
                    &&& final(self).wanted_local_requests_status_view() == old(self).wanted_local_requests_status_view()
                    &&& final(self).pending_requests_view() == old(self).pending_requests_view()
                    &&& final(self).pending_backwards_ops_view() == old(self).pending_backwards_ops_view()
                    &&& final(self).pending_user_requests_view() == old(self).pending_user_requests_view()
                    &&& final(self).mc_view() == old(self).mc_view()
                },
                FriendMutation::SetWantedLocalRequestsStatus(currency, wanted) => {
                    &&& final(self).consistent()
                    &&& final(self).wanted_local_requests_status_view() == old(self).wanted_local_requests_status_view().push((currency@, *wanted))
                    &&& final(self).wanted_remote_max_debt_view() == old(self).wanted_remote_max_debt_view()
                    &&& final(self).pending_requests_view() == old(self).pending_requests_view()
                    &&& final(self).pending_backwards_ops_view() == old(self).pending_backwards_ops_view()
                    &&& final(self).pending_user_requests_view() == old(self).pending_user_requests_view()
                    &&& final(self).mc_view() == old(self).mc_view()
                },
                FriendMutation::SetSentLocalRelays(sent) => {
                    &&& (final(self).consistent() <==> old(self).consistent())
                    &&& final(self).status == old(self).status
                    &&& match sent {
                        SentLocalRelays::NeverSent => final(self).sent_local_relays is NeverSent,
                        SentLocalRelays::LastSent(v) => final(self).sent_local_relays matches
                            SentLocalRelays::LastSent(w) && w@.len() == v@.len(),
                        SentLocalRelays::Transition(a, b) => final(self).sent_local_relays matches
                            SentLocalRelays::Transition(w1, w2) && w1@.len() == a@.len()
                            && w2@.len() == b@.len(),
                    }
                },
            },
    {
        let ghost pre = *self;
        match friend_mutation {
            FriendMutation::McMutation(mc_mutation) => {
                match &mut self.channel_status {
                    ChannelStatus::Consistent(channel_consistent) => {
                        channel_consistent.token_channel.token_channel.mutate(mc_mutation);
                    },
                    ChannelStatus::Inconsistent(_) => {},
                }
            },
            FriendMutation::SetInconsistent(channel_inconsistent) => {
                self.channel_status = ChannelStatus::Inconsistent(channel_inconsistent.clone());
            },
            FriendMutation::SetConsistent(token_channel) => {
                let channel_consistent = ChannelConsistent {
                    token_channel: DirectionalTokenChannel {
                        direction: match &token_channel.direction {
                            crate::token_channel::MoveTokenDirection::Incoming =>
                                crate::token_channel::MoveTokenDirection::Incoming,
                            crate::token_channel::MoveTokenDirection::Outgoing(mt) =>
                                crate::token_channel::MoveTokenDirection::Outgoing(mt.clone()),
                        },
                        new_token: token_channel.new_token.clone(),
                        token_channel: token_channel.token_channel.clone(),
                        inconsistency_counter: token_channel.inconsistency_counter,
                        move_token_counter: token_channel.move_token_counter,
                        opt_last_incoming_move_token_hashed: match &token_channel
                            .opt_last_incoming_move_token_hashed {
                            Some(h) => Some(h.clone()),
                            None => None,
                        },
                    },
                    pending_requests: Vec::new(),
                    pending_backwards_ops: Vec::new(),
                    pending_user_requests: Vec::new(),
                    wanted_remote_max_debt: Vec::new(),
                    wanted_local_requests_status: Vec::new(),
                };
                self.channel_status = ChannelStatus::Consistent(channel_consistent);
                assert(self.pending_requests_view() =~= Seq::<
                    (Seq<u8>, RequestSendFundsOpView),
                >::empty());
                assert(self.pending_backwards_ops_view() =~= Seq::<
                    (Seq<u8>, BackwardsOpView),
                >::empty());
                assert(self.pending_user_requests_view() =~= Seq::<
                    (Seq<u8>, RequestSendFundsOpView),
                >::empty());
            },
            FriendMutation::SetWantedRemoteMaxDebt(currency, wanted) => {
                match &mut self.channel_status {
                    ChannelStatus::Consistent(channel_consistent) => {
                        channel_consistent.wanted_remote_max_debt.push(
                            (currency.clone(), *wanted),
                        );
                    },
                    ChannelStatus::Inconsistent(_) => {},
                }
                assert(self.wanted_remote_max_debt_view() =~= pre.wanted_remote_max_debt_view()
                    .push((currency@, *wanted)));
                assert(self.wanted_local_requests_status_view()
                    =~= pre.wanted_local_requests_status_view());
            },
            FriendMutation::SetWantedLocalRequestsStatus(currency, wanted) => {
                match &mut self.channel_status {
                    ChannelStatus::Consistent(channel_consistent) => {
                        channel_consistent.wanted_local_requests_status.push(
                            (currency.clone(), *wanted),
                        );
                    },
                    ChannelStatus::Inconsistent(_) => {},
                }
                assert(self.wanted_local_requests_status_view()
                    =~= pre.wanted_local_requests_status_view().push((currency@, *wanted)));
                assert(self.wanted_remote_max_debt_view() =~= pre.wanted_remote_max_debt_view());
            },
            FriendMutation::PushBackPendingRequest(currency, request) => {
                match &mut self.channel_status {
                    ChannelStatus::Consistent(channel_consistent) => {
                        channel_consistent.pending_requests.push(
                            (currency.clone(), request.clone()),
                        );
                        assert(self.pending_requests_view() =~= pre.pending_requests_view().push(
                            (currency@, request@),
                        ));
                    },
                    ChannelStatus::Inconsistent(_) => {},
                }
            },
            FriendMutation::PopFrontPendingRequest => {
                match &mut self.channel_status {
                    ChannelStatus::Consistent(channel_consistent) => {
                        if channel_consistent.pending_requests.len() > 0 {
                            let _ = channel_consistent.pending_requests.remove(0);
                            assert(self.pending_requests_view() =~= pre.pending_requests_view()
                                .skip(1));
                        }
                    },
                    ChannelStatus::Inconsistent(_) => {},
                }
            },
            FriendMutation::PushBackPendingBackwardsOp(currency, backwards_op) => {
                match &mut self.channel_status {
                    ChannelStatus::Consistent(channel_consistent) => {
                        channel_consistent.pending_backwards_ops.push(
                            (currency.clone(), backwards_op.clone()),
                        );
                        assert(self.pending_backwards_ops_view()
                            =~= pre.pending_backwards_ops_view().push((currency@, backwards_op@)));
                    },
                    ChannelStatus::Inconsistent(_) => {},
                }
            },
            FriendMutation::PopFrontPendingBackwardsOp => {
                match &mut self.channel_status {
                    ChannelStatus::Consistent(channel_consistent) => {
                        if channel_consistent.pending_backwards_ops.len() > 0 {
                            let _ = channel_consistent.pending_backwards_ops.remove(0);
                            assert(self.pending_backwards_ops_view()
                                =~= pre.pending_backwards_ops_view().skip(1));
                        }
                    },
                    ChannelStatus::Inconsistent(_) => {},
                }
            },
            FriendMutation::PushBackPendingUserRequest(currency, request) => {
                match &mut self.channel_status {
                    ChannelStatus::Consistent(channel_consistent) => {
                        channel_consistent.pending_user_requests.push(
                            (currency.clone(), request.clone()),
                        );
                        assert(self.pending_user_requests_view()
                            =~= pre.pending_user_requests_view().push((currency@, request@)));
                    },
                    ChannelStatus::Inconsistent(_) => {},
                }
            },
            FriendMutation::PopFrontPendingUserRequest => {
                match &mut self.channel_status {
                    ChannelStatus::Consistent(channel_consistent) => {
                        if channel_consistent.pending_user_requests.len() > 0 {
                            let _ = channel_consistent.pending_user_requests.remove(0);
                            assert(self.pending_user_requests_view()
                                =~= pre.pending_user_requests_view().skip(1));
                        }
                    },
                    ChannelStatus::Inconsistent(_) => {},
                }
            },
            FriendMutation::RemovePendingRequests => {
                match &mut self.channel_status {
                    ChannelStatus::Consistent(channel_consistent) => {
                        channel_consistent.pending_requests = Vec::new();
                        channel_consistent.pending_user_requests = Vec::new();
                        assert(self.pending_requests_view() =~= Seq::<
                            (Seq<u8>, RequestSendFundsOpView),
                        >::empty());
                        assert(self.pending_user_requests_view() =~= Seq::<
                            (Seq<u8>, RequestSendFundsOpView),
                        >::empty());
                    },
                    ChannelStatus::Inconsistent(_) => {},
                }
            },
            FriendMutation::SetStatus(friend_status) => {
                self.status = *friend_status;
            },
            FriendMutation::SetRemoteRelays(remote_relays) => {
                self.remote_relays = crate::messages::clone_relays(remote_relays);
            },
            FriendMutation::SetName(friend_name) => {
                self.name = friend_name.clone();
            },
            FriendMutation::SetRate(friend_rate) => {
                self.rate = *friend_rate;
            },
            FriendMutation::SetSentLocalRelays(sent_local_relays) => {
                self.sent_local_relays = match sent_local_relays {
                    SentLocalRelays::NeverSent => SentLocalRelays::NeverSent,
                    SentLocalRelays::LastSent(v) => SentLocalRelays::LastSent(
                        clone_named_relays(v),
                    ),
                    SentLocalRelays::Transition(a, b) => SentLocalRelays::Transition(
                        clone_named_relays(a),
                        clone_named_relays(b),
                    ),
                };
            },
        }
    }
}

/// Copy a vector of named relay addresses.
fn clone_named_relays(v: &Vec<NamedRelayAddress>) -> (r: Vec<NamedRelayAddress>)
    ensures
        r@.len() == v@.len(),
{
    let mut out: Vec<NamedRelayAddress> = Vec::new();
    let mut i: usize = 0;
    while i < v.len()
        invariant
            i <= v.len(),
            out@.len() == i,
        decreases v.len() - i,
    {
        out.push(v[i].clone());
        i = i + 1;
    }
    out
}

} // verus!
