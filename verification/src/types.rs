//! The values the registry is made of: accounts, ownership records, events
//! and failures, each with the mathematical value it stands for.

use vstd::prelude::*;

verus! {

/// Logical timestamp supplied by the host. The host's clock never goes back.
pub type BlockNumber = u64;

/// Identity of an account, as opaque bytes. Two identities are the same
/// account exactly when their bytes are equal.
#[derive(Debug)]
pub struct AccountId(pub Vec<u8>);

impl View for AccountId {
    type V = Seq<u8>;

    open spec fn view(&self) -> Seq<u8> {
        self.0@
    }
}

/// A copy of a byte string.
pub(crate) fn copy_bytes(bytes: &Vec<u8>) -> (copy: Vec<u8>)
    ensures
        copy@ == bytes@,
{
    let copy = bytes.clone();
    assert(copy@ =~= bytes@);
    copy
}

impl Clone for AccountId {
    fn clone(&self) -> (copy: Self)
        ensures
            copy@ == self@,
    {
        AccountId(copy_bytes(&self.0))
    }
}

impl PartialEq for AccountId {
    fn eq(&self, other: &Self) -> (same: bool) {
        let same = self.0 == other.0;
        assert(same == (self.0@ =~= other.0@));
        same
    }
}

impl vstd::std_specs::cmp::PartialEqSpecImpl for AccountId {
    open spec fn obeys_eq_spec() -> bool {
        true
    }

    open spec fn eq_spec(&self, other: &Self) -> bool {
        self@ == other@
    }
}

impl Eq for AccountId {}

/// Who owns a claim, and when that was last settled.
#[derive(Debug, PartialEq, Eq)]
pub struct OwnershipRecord {
    /// The account that may revoke or transfer the claim.
    pub owner: AccountId,
    /// Timestamp of the operation that last wrote this record.
    pub recorded_at: BlockNumber,
}

/// The mathematical value of an [`OwnershipRecord`].
pub struct OwnershipRecordView {
    pub owner: Seq<u8>,
    pub recorded_at: BlockNumber,
}

impl View for OwnershipRecord {
    type V = OwnershipRecordView;

    open spec fn view(&self) -> OwnershipRecordView {
        OwnershipRecordView { owner: self.owner@, recorded_at: self.recorded_at }
    }
}

impl Clone for OwnershipRecord {
    fn clone(&self) -> (copy: Self)
        ensures
            copy@ == self@,
    {
        OwnershipRecord { owner: self.owner.clone(), recorded_at: self.recorded_at }
    }
}

/// Announcement of a successful operation.
#[derive(Debug, PartialEq, Eq)]
pub enum Event {
    /// The account created the claim.
    ClaimCreated(AccountId, Vec<u8>),
    /// The account, its owner, revoked the claim.
    ClaimRevoked(AccountId, Vec<u8>),
    /// The first account handed the claim over to the second.
    ClaimTransfer(AccountId, Vec<u8>, AccountId),
}

/// The mathematical value of an [`Event`].
pub enum EventView {
    ClaimCreated(Seq<u8>, Seq<u8>),
    ClaimRevoked(Seq<u8>, Seq<u8>),
    ClaimTransfer(Seq<u8>, Seq<u8>, Seq<u8>),
}

impl View for Event {
    type V = EventView;

    open spec fn view(&self) -> EventView {
        match self {
            Event::ClaimCreated(who, claim) => EventView::ClaimCreated(who@, claim@),
            Event::ClaimRevoked(who, claim) => EventView::ClaimRevoked(who@, claim@),
            Event::ClaimTransfer(who, claim, to) => EventView::ClaimTransfer(who@, claim@, to@),
        }
    }
}

impl Clone for Event {
    fn clone(&self) -> (copy: Self)
        ensures
            copy@ == self@,
    {
        match self {
            Event::ClaimCreated(who, claim) => Event::ClaimCreated(who.clone(), copy_bytes(claim)),
            Event::ClaimRevoked(who, claim) => Event::ClaimRevoked(who.clone(), copy_bytes(claim)),
            Event::ClaimTransfer(who, claim, to) => Event::ClaimTransfer(
                who.clone(),
                copy_bytes(claim),
                to.clone(),
            ),
        }
    }
}

/// Why an operation was refused.
#[derive(Clone, Copy, Debug, PartialEq, Eq, Structural)]
pub enum Error {
    /// The claim is already in the registry and cannot be created again.
    ProofAlreadyExist,
    /// The claim is not in the registry.
    ClaimNotExist,
    /// The caller does not own the claim.
    NotClaimOwner,
}

} // verus!
