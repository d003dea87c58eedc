//! The registry as a mathematical state machine.
//!
//! A claim is either absent or owned. `create` takes it from absent to owned,
//! `revoke` from owned to absent, `transfer` from one owner to another; each
//! says what becomes of the claim and which event announces it. The
//! [`Ledger`] is the map from claims to their records, together with the
//! events announced so far.

use vstd::prelude::*;
use crate::types::{BlockNumber, Error, EventView, OwnershipRecordView};

verus! {

/// What a successful operation does to its claim and what it announces.
pub struct TransitionView {
    /// The claim's next state: its new record, or `None` where the claim
    /// leaves the registry.
    pub next: Option<OwnershipRecordView>,
    /// The event that announces the operation.
    pub event: EventView,
}

/// Creating `claim` in the given state: owed exactly when the claim is
/// absent, and then the claim belongs to `caller` as of `now`.
pub open spec fn create(
    state: Option<OwnershipRecordView>,
    caller: Seq<u8>,
    claim: Seq<u8>,
    now: BlockNumber,
) -> Result<TransitionView, Error> {
    match state {
        Some(_) => Err(Error::ProofAlreadyExist),
        None => Ok(
            TransitionView {
                next: Some(OwnershipRecordView { owner: caller, recorded_at: now }),
                event: EventView::ClaimCreated(caller, claim),
            },
        ),
    }
}

/// Whether `caller` may revoke or transfer a claim in the given state. That
/// the claim exists is settled first, then that `caller` owns it.
pub open spec fn authorize(state: Option<OwnershipRecordView>, caller: Seq<u8>) -> Result<
    (),
    Error,
> {
    match state {
        None => Err(Error::ClaimNotExist),
        Some(record) => if record.owner == caller {
            Ok(())
        } else {
            Err(Error::NotClaimOwner)
        },
    }
}

/// Revoking `claim` in the given state: owed exactly when `caller` owns the
/// claim, which is then absent.
pub open spec fn revoke(state: Option<OwnershipRecordView>, caller: Seq<u8>, claim: Seq<u8>) -> Result<
    TransitionView,
    Error,
> {
    match authorize(state, caller) {
        Ok(()) => Ok(TransitionView { next: None, event: EventView::ClaimRevoked(caller, claim) }),
        Err(e) => Err(e),
    }
}

/// Transferring `claim` in the given state: owed exactly when `caller` owns
/// the claim, which then belongs to `recipient` as of `now`. The recipient
/// may be the caller.
pub open spec fn transfer(
    state: Option<OwnershipRecordView>,
    caller: Seq<u8>,
    claim: Seq<u8>,
    recipient: Seq<u8>,
    now: BlockNumber,
) -> Result<TransitionView, Error> {
    match authorize(state, caller) {
        Ok(()) => Ok(
            TransitionView {
                next: Some(OwnershipRecordView { owner: recipient, recorded_at: now }),
                event: EventView::ClaimTransfer(caller, claim, recipient),
            },
        ),
        Err(e) => Err(e),
    }
}

/// The whole state of the registry.
pub struct Ledger {
    /// The record of every claim that was created and not revoked since.
    pub claims: Map<Seq<u8>, OwnershipRecordView>,
    /// One event for each successful operation, oldest first.
    pub events: Seq<EventView>,
}

impl Ledger {
    /// The registry before any operation.
    pub open spec fn empty() -> Ledger {
        Ledger { claims: Map::empty(), events: Seq::empty() }
    }

    /// The state of one claim: its record, or `None` while it is absent.
    pub open spec fn state_of(self, claim: Seq<u8>) -> Option<OwnershipRecordView> {
        if self.claims.contains_key(claim) {
            Some(self.claims[claim])
        } else {
            None
        }
    }

    /// The registry once `claim` has made the transition: the claim is in
    /// its next state, every other claim is as it was, and the event is the
    /// last of the events.
    pub open spec fn carry_out(self, claim: Seq<u8>, transition: TransitionView) -> Ledger {
        Ledger {
            claims: match transition.next {
                Some(record) => self.claims.insert(claim, record),
                None => self.claims.remove(claim),
            },
            events: self.events.push(transition.event),
        }
    }

    /// The registry after `caller` creates `claim` at time `now`, or the
    /// reason why nothing happens.
    pub open spec fn create_claim(self, caller: Seq<u8>, claim: Seq<u8>, now: BlockNumber) -> Result<
        Ledger,
        Error,
    > {
        match create(self.state_of(claim), caller, claim, now) {
            Ok(transition) => Ok(self.carry_out(claim, transition)),
            Err(e) => Err(e),
        }
    }

    /// The registry after `caller` revokes `claim`, or the reason why nothing
    /// happens.
    pub open spec fn revoke_claim(self, caller: Seq<u8>, claim: Seq<u8>) -> Result<Ledger, Error> {
        match revoke(self.state_of(claim), caller, claim) {
            Ok(transition) => Ok(self.carry_out(claim, transition)),
            Err(e) => Err(e),
        }
    }

    /// The registry after `caller` hands `claim` to `recipient` at time
    /// `now`, or the reason why nothing happens.
    pub open spec fn transfer_claim(
        self,
        caller: Seq<u8>,
        claim: Seq<u8>,
        recipient: Seq<u8>,
        now: BlockNumber,
    ) -> Result<Ledger, Error> {
        match transfer(self.state_of(claim), caller, claim, recipient, now) {
            Ok(transition) => Ok(self.carry_out(claim, transition)),
            Err(e) => Err(e),
        }
    }
}

/// One request to the registry, with the time at which the host serves it.
pub enum Call {
    CreateClaim { caller: Seq<u8>, claim: Seq<u8>, now: BlockNumber },
    RevokeClaim { caller: Seq<u8>, claim: Seq<u8> },
    TransferClaim { caller: Seq<u8>, claim: Seq<u8>, recipient: Seq<u8>, now: BlockNumber },
}

impl Call {
    /// The claim that the request is about.
    pub open spec fn claim(self) -> Seq<u8> {
        match self {
            Call::CreateClaim { claim, .. } => claim,
            Call::RevokeClaim { claim, .. } => claim,
            Call::TransferClaim { claim, .. } => claim,
        }
    }

    /// The time at which the host serves the request, for the requests that
    /// read the clock.
    pub open spec fn time(self) -> Option<BlockNumber> {
        match self {
            Call::CreateClaim { now, .. } => Some(now),
            Call::RevokeClaim { .. } => None,
            Call::TransferClaim { now, .. } => Some(now),
        }
    }
}

impl Ledger {
    /// The registry after the request, or the reason why it is refused.
    pub open spec fn apply(self, call: Call) -> Result<Ledger, Error> {
        match call {
            Call::CreateClaim { caller, claim, now } => self.create_claim(caller, claim, now),
            Call::RevokeClaim { caller, claim } => self.revoke_claim(caller, claim),
            Call::TransferClaim { caller, claim, recipient, now } => self.transfer_claim(
                caller,
                claim,
                recipient,
                now,
            ),
        }
    }

    /// The registry once the request is served: a refused request leaves it
    /// as it is.
    pub open spec fn step(self, call: Call) -> Ledger {
        match self.apply(call) {
            Ok(next) => next,
            Err(_) => self,
        }
    }

    /// The registry once the requests are served in order.
    pub open spec fn run(self, calls: Seq<Call>) -> Ledger
        decreases calls.len(),
    {
        if calls.len() == 0 {
            self
        } else {
            self.run(calls.drop_last()).step(calls.last())
        }
    }
}

} // verus!
