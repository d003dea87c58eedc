//! The transitions of a single claim, decided from its current record alone.
//!
//! These functions touch no store: they take the record that a claim has now,
//! if it has one, and answer with the transition that the claim makes or
//! with the reason for refusing. Whoever keeps the records carries the
//! transition out: puts the claim in its next state and announces the event.

use vstd::prelude::*;
use crate::model;
use crate::model::TransitionView;
use crate::types::{AccountId, BlockNumber, Error, Event, OwnershipRecord, OwnershipRecordView};

verus! {

/// What a successful operation does to its claim and what it announces.
#[derive(Debug, PartialEq, Eq)]
pub struct Transition {
    /// The claim's next state: the record to keep for it, or `None` where
    /// its record is to be removed.
    pub next: Option<OwnershipRecord>,
    /// The event to announce.
    pub event: Event,
}

impl View for Transition {
    type V = TransitionView;

    open spec fn view(&self) -> TransitionView {
        TransitionView {
            next: match self.next {
                Some(record) => Some(record@),
                None => None,
            },
            event: self.event@,
        }
    }
}

/// The state of a claim whose record, if it has one, is `record`.
pub open spec fn state(record: Option<&OwnershipRecord>) -> Option<OwnershipRecordView> {
    match record {
        Some(r) => Some(r@),
        None => None,
    }
}

/// The mathematical value of a decision.
pub open spec fn decision(res: Result<Transition, Error>) -> Result<TransitionView, Error> {
    match res {
        Ok(transition) => Ok(transition@),
        Err(e) => Err(e),
    }
}

/// Decides the creation of `claim` by `caller` at time `now`. An absent
/// claim gets a fresh record and `ClaimCreated(caller, claim)` is announced;
/// a claim that has a record is refused with `ProofAlreadyExist`.
pub fn create(
    record: Option<&OwnershipRecord>,
    caller: AccountId,
    claim: Vec<u8>,
    now: BlockNumber,
) -> (res: Result<Transition, Error>)
    ensures
        decision(res) == model::create(state(record), caller@, claim@, now),
{
    match record {
        Some(_) => Err(Error::ProofAlreadyExist),
        None => {
            let owner = caller.clone();
            Ok(
                Transition {
                    next: Some(OwnershipRecord { owner, recorded_at: now }),
                    event: Event::ClaimCreated(caller, claim),
                },
            )
        },
    }
}

/// Decides the revocation of `claim` by `caller`: an absent claim is refused
/// with `ClaimNotExist`, an owner other than `caller` with `NotClaimOwner`.
/// On success the claim loses its record and `ClaimRevoked(caller, claim)`
/// is announced.
pub fn revoke(record: Option<&OwnershipRecord>, caller: AccountId, claim: Vec<u8>) -> (res: Result<
    Transition,
    Error,
>)
    ensures
        decision(res) == model::revoke(state(record), caller@, claim@),
{
    match record {
        None => Err(Error::ClaimNotExist),
        Some(current) => {
            if current.owner == caller {
                Ok(Transition { next: None, event: Event::ClaimRevoked(caller, claim) })
            } else {
                Err(Error::NotClaimOwner)
            }
        },
    }
}

/// Decides the transfer of `claim` from `caller` to `recipient` at time
/// `now`. It is refused as a revocation would be. On success the claim gets
/// the record of `recipient` and `ClaimTransfer(caller, claim, recipient)` is
/// announced.
pub fn transfer(
    record: Option<&OwnershipRecord>,
    caller: AccountId,
    claim: Vec<u8>,
    recipient: AccountId,
    now: BlockNumber,
) -> (res: Result<Transition, Error>)
    ensures
        decision(res) == model::transfer(state(record), caller@, claim@, recipient@, now),
{
    match record {
        None => Err(Error::ClaimNotExist),
        Some(current) => {
            if current.owner == caller {
                let owner = recipient.clone();
                Ok(
                    Transition {
                        next: Some(OwnershipRecord { owner, recorded_at: now }),
                        event: Event::ClaimTransfer(caller, claim, recipient),
                    },
                )
            } else {
                Err(Error::NotClaimOwner)
            }
        },
    }
}

} // verus!
