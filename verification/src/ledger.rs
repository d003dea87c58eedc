//! The claim ledger: the store of ownership records, the three operations
//! that change it, and the log of the events they announce.

use vstd::prelude::*;
use crate::claim;
use crate::claim::Transition;
use crate::model::Ledger;
use crate::store::ClaimStore;
use crate::types::{copy_bytes, AccountId, BlockNumber, Error, Event, EventView, OwnershipRecord};

verus! {

/// The mathematical values of a run of events.
pub open spec fn events_view(events: Seq<Event>) -> Seq<EventView> {
    events.map_values(|event: Event| event@)
}

/// The claim ledger. Its value is a [`Ledger`]: the records of the claims it
/// holds and the events of the operations that succeeded, oldest first.
pub struct Pallet {
    store: ClaimStore,
    events: Vec<Event>,
}

impl View for Pallet {
    type V = Ledger;

    closed spec fn view(&self) -> Ledger {
        Ledger { claims: self.store@, events: events_view(self.events@) }
    }
}

impl Pallet {
    /// A ledger that holds no claim and has announced nothing.
    pub fn new() -> (pallet: Pallet)
        ensures
            pallet@ == Ledger::empty(),
    {
        let pallet = Pallet { store: ClaimStore::new(), events: Vec::new() };
        assert(events_view(pallet.events@) =~= Seq::<EventView>::empty());
        pallet
    }

    /// The record of `claim`, or `None` while the claim is absent.
    pub fn proofs(&self, claim: &Vec<u8>) -> (found: Option<&OwnershipRecord>)
        ensures
            claim::state(found) == self@.state_of(claim@),
    {
        self.store.get(claim)
    }

    /// The events announced so far, oldest first. The log only grows: each
    /// successful operation appends one event and nothing else touches it.
    pub fn events(&self) -> (log: &Vec<Event>)
        ensures
            events_view(log@) == self@.events,
    {
        &self.events
    }

    /// Records `claim` as owned by `caller` since `now` and announces
    /// `ClaimCreated(caller, claim)`. A claim that the ledger already holds
    /// is refused with `ProofAlreadyExist`, and the ledger stays as it was.
    pub fn create_claim(&mut self, caller: AccountId, claim: Vec<u8>, now: BlockNumber) -> (res:
        Result<(), Error>)
        ensures
            (match old(self)@.create_claim(caller@, claim@, now) {
                Ok(next) => res == Ok::<(), Error>(()) && final(self)@ == next,
                Err(e) => res == Err::<(), Error>(e) && final(self)@ == old(self)@,
            }),
    {
        let key = copy_bytes(&claim);
        match claim::create(self.store.get(&key), caller, claim, now) {
            Ok(transition) => {
                self.carry_out(key, transition);
                Ok(())
            },
            Err(e) => Err(e),
        }
    }

    /// Removes `claim` from the ledger and announces
    /// `ClaimRevoked(caller, claim)`. An absent claim is refused with
    /// `ClaimNotExist`, a caller who is not the owner with `NotClaimOwner`;
    /// either way the ledger stays as it was.
    pub fn revoke_claim(&mut self, caller: AccountId, claim: Vec<u8>) -> (res: Result<(), Error>)
        ensures
            (match old(self)@.revoke_claim(caller@, claim@) {
                Ok(next) => res == Ok::<(), Error>(()) && final(self)@ == next,
                Err(e) => res == Err::<(), Error>(e) && final(self)@ == old(self)@,
            }),
    {
        let key = copy_bytes(&claim);
        match claim::revoke(self.store.get(&key), caller, claim) {
            Ok(transition) => {
                self.carry_out(key, transition);
                Ok(())
            },
            Err(e) => Err(e),
        }
    }

    /// Hands `claim` over to `recipient` as of `now` and announces
    /// `ClaimTransfer(caller, claim, recipient)`. It is refused as a
    /// revocation would be, and then the ledger stays as it was. The
    /// recipient may be the caller: the record then keeps its owner and gets
    /// the new timestamp.
    pub fn transfer_claim(
        &mut self,
        caller: AccountId,
        claim: Vec<u8>,
        recipient: AccountId,
        now: BlockNumber,
    ) -> (res: Result<(), Error>)
        ensures
            (match old(self)@.transfer_claim(caller@, claim@, recipient@, now) {
                Ok(next) => res == Ok::<(), Error>(()) && final(self)@ == next,
                Err(e) => res == Err::<(), Error>(e) && final(self)@ == old(self)@,
            }),
    {
        let key = copy_bytes(&claim);
        match claim::transfer(self.store.get(&key), caller, claim, recipient, now) {
            Ok(transition) => {
                self.carry_out(key, transition);
                Ok(())
            },
            Err(e) => Err(e),
        }
    }

    /// Carries out a transition of `claim`: puts the claim in its next state
    /// and appends the event to the log.
    fn carry_out(&mut self, claim: Vec<u8>, transition: Transition)
        ensures
            final(self)@ == old(self)@.carry_out(claim@, transition@),
    {
        match transition.next {
            Some(record) => self.store.insert(claim, record),
            None => self.store.remove(&claim),
        }
        self.events.push(transition.event);
        assert(events_view(self.events@) =~= events_view(old(self).events@).push(
            transition.event@,
        ));
    }
}

} // verus!
