use pallet_poe::ledger::Pallet;
use pallet_poe::types::{AccountId, Error, Event, OwnershipRecord};

fn account(name: &str) -> AccountId {
    AccountId(name.as_bytes().to_vec())
}

fn claim(text: &str) -> Vec<u8> {
    text.as_bytes().to_vec()
}

fn record(owner: &str, recorded_at: u64) -> OwnershipRecord {
    OwnershipRecord { owner: account(owner), recorded_at }
}

#[test]
fn new_ledger_is_empty() {
    let pallet = Pallet::new();
    assert_eq!(pallet.proofs(&claim("doc-hash-1")), None);
    assert!(pallet.events().is_empty());
}

#[test]
fn claim_lifecycle_scenario() {
    let mut pallet = Pallet::new();

    assert_eq!(pallet.create_claim(account("Alice"), claim("doc-hash-1"), 1), Ok(()));
    assert_eq!(
        pallet.events().last(),
        Some(&Event::ClaimCreated(account("Alice"), claim("doc-hash-1")))
    );
    assert_eq!(pallet.proofs(&claim("doc-hash-1")), Some(&record("Alice", 1)));

    assert_eq!(
        pallet.transfer_claim(account("Alice"), claim("doc-hash-1"), account("Bob"), 2),
        Ok(())
    );
    assert_eq!(
        pallet.events().last(),
        Some(&Event::ClaimTransfer(account("Alice"), claim("doc-hash-1"), account("Bob")))
    );
    assert_eq!(pallet.proofs(&claim("doc-hash-1")), Some(&record("Bob", 2)));

    assert_eq!(
        pallet.revoke_claim(account("Alice"), claim("doc-hash-1")),
        Err(Error::NotClaimOwner)
    );
    assert_eq!(pallet.proofs(&claim("doc-hash-1")), Some(&record("Bob", 2)));
    assert_eq!(pallet.events().len(), 2);

    assert_eq!(pallet.revoke_claim(account("Bob"), claim("doc-hash-1")), Ok(()));
    assert_eq!(
        pallet.events().last(),
        Some(&Event::ClaimRevoked(account("Bob"), claim("doc-hash-1")))
    );
    assert_eq!(pallet.proofs(&claim("doc-hash-1")), None);

    assert_eq!(
        pallet.events(),
        &vec![
            Event::ClaimCreated(account("Alice"), claim("doc-hash-1")),
            Event::ClaimTransfer(account("Alice"), claim("doc-hash-1"), account("Bob")),
            Event::ClaimRevoked(account("Bob"), claim("doc-hash-1")),
        ]
    );
}

#[test]
fn revoke_of_absent_claim_is_refused() {
    let mut pallet = Pallet::new();
    assert_eq!(pallet.revoke_claim(account("Alice"), claim("never")), Err(Error::ClaimNotExist));
    assert_eq!(pallet.proofs(&claim("never")), None);
    assert!(pallet.events().is_empty());
}

#[test]
fn transfer_of_absent_claim_is_refused() {
    let mut pallet = Pallet::new();
    assert_eq!(
        pallet.transfer_claim(account("Alice"), claim("never"), account("Bob"), 3),
        Err(Error::ClaimNotExist)
    );
    assert_eq!(pallet.proofs(&claim("never")), None);
    assert!(pallet.events().is_empty());
}

#[test]
fn absent_claim_stays_refused_while_others_come_and_go() {
    let mut pallet = Pallet::new();
    assert_eq!(pallet.create_claim(account("Alice"), claim("a"), 1), Ok(()));
    assert_eq!(pallet.create_claim(account("Bob"), claim("b"), 2), Ok(()));
    assert_eq!(pallet.revoke_claim(account("Alice"), claim("a")), Ok(()));
    assert_eq!(pallet.revoke_claim(account("Bob"), claim("c")), Err(Error::ClaimNotExist));
    assert_eq!(
        pallet.transfer_claim(account("Bob"), claim("c"), account("Alice"), 3),
        Err(Error::ClaimNotExist)
    );
    assert_eq!(pallet.proofs(&claim("b")), Some(&record("Bob", 2)));
}

#[test]
fn second_creation_is_refused() {
    let mut pallet = Pallet::new();
    assert_eq!(pallet.create_claim(account("Alice"), claim("c"), 10), Ok(()));
    assert_eq!(
        pallet.create_claim(account("Alice"), claim("c"), 11),
        Err(Error::ProofAlreadyExist)
    );
    assert_eq!(pallet.proofs(&claim("c")), Some(&record("Alice", 10)));
    assert_eq!(pallet.events().len(), 1);
}

#[test]
fn creation_by_another_account_is_refused_too() {
    let mut pallet = Pallet::new();
    assert_eq!(pallet.create_claim(account("Alice"), claim("c"), 10), Ok(()));
    assert_eq!(pallet.create_claim(account("Bob"), claim("c"), 12), Err(Error::ProofAlreadyExist));
    assert_eq!(pallet.proofs(&claim("c")), Some(&record("Alice", 10)));
}

#[test]
fn only_the_owner_revokes() {
    let mut pallet = Pallet::new();
    assert_eq!(pallet.create_claim(account("Alice"), claim("c"), 4), Ok(()));
    assert_eq!(pallet.revoke_claim(account("Bob"), claim("c")), Err(Error::NotClaimOwner));
    assert_eq!(pallet.proofs(&claim("c")), Some(&record("Alice", 4)));
    assert_eq!(pallet.revoke_claim(account("Alice"), claim("c")), Ok(()));
    assert_eq!(pallet.proofs(&claim("c")), None);
}

#[test]
fn only_the_owner_transfers() {
    let mut pallet = Pallet::new();
    assert_eq!(pallet.create_claim(account("Alice"), claim("c"), 4), Ok(()));
    assert_eq!(
        pallet.transfer_claim(account("Bob"), claim("c"), account("Bob"), 5),
        Err(Error::NotClaimOwner)
    );
    assert_eq!(pallet.proofs(&claim("c")), Some(&record("Alice", 4)));
    assert_eq!(pallet.events().len(), 1);
}

#[test]
fn transfer_moves_ownership() {
    let mut pallet = Pallet::new();
    assert_eq!(pallet.create_claim(account("Alice"), claim("c"), 4), Ok(()));
    assert_eq!(pallet.transfer_claim(account("Alice"), claim("c"), account("Bob"), 6), Ok(()));
    assert_eq!(pallet.proofs(&claim("c")), Some(&record("Bob", 6)));
    assert_eq!(pallet.revoke_claim(account("Alice"), claim("c")), Err(Error::NotClaimOwner));
    assert_eq!(pallet.revoke_claim(account("Bob"), claim("c")), Ok(()));
    assert_eq!(pallet.proofs(&claim("c")), None);
}

#[test]
fn self_transfer_refreshes_the_timestamp() {
    let mut pallet = Pallet::new();
    assert_eq!(pallet.create_claim(account("Alice"), claim("c"), 4), Ok(()));
    assert_eq!(pallet.transfer_claim(account("Alice"), claim("c"), account("Alice"), 9), Ok(()));
    assert_eq!(pallet.proofs(&claim("c")), Some(&record("Alice", 9)));
    assert_eq!(
        pallet.events().last(),
        Some(&Event::ClaimTransfer(account("Alice"), claim("c"), account("Alice")))
    );
    assert_eq!(pallet.revoke_claim(account("Alice"), claim("c")), Ok(()));
}

#[test]
fn refused_operations_change_nothing() {
    let mut pallet = Pallet::new();
    assert_eq!(pallet.create_claim(account("Alice"), claim("c"), 4), Ok(()));
    assert_eq!(pallet.create_claim(account("Bob"), claim("d"), 5), Ok(()));
    let events_before = pallet.events().clone();
    let c_before = pallet.proofs(&claim("c")).cloned();
    let d_before = pallet.proofs(&claim("d")).cloned();

    assert_eq!(pallet.create_claim(account("Bob"), claim("c"), 6), Err(Error::ProofAlreadyExist));
    assert_eq!(pallet.revoke_claim(account("Bob"), claim("c")), Err(Error::NotClaimOwner));
    assert_eq!(
        pallet.transfer_claim(account("Alice"), claim("d"), account("Alice"), 7),
        Err(Error::NotClaimOwner)
    );
    assert_eq!(pallet.revoke_claim(account("Alice"), claim("e")), Err(Error::ClaimNotExist));
    assert_eq!(
        pallet.transfer_claim(account("Alice"), claim("e"), account("Bob"), 8),
        Err(Error::ClaimNotExist)
    );

    assert_eq!(pallet.events(), &events_before);
    assert_eq!(pallet.proofs(&claim("c")).cloned(), c_before);
    assert_eq!(pallet.proofs(&claim("d")).cloned(), d_before);
    assert_eq!(pallet.proofs(&claim("e")), None);
}

#[test]
fn recreation_resets_the_record() {
    let mut pallet = Pallet::new();
    assert_eq!(pallet.create_claim(account("Alice"), claim("c"), 1), Ok(()));
    assert_eq!(pallet.revoke_claim(account("Alice"), claim("c")), Ok(()));
    assert_eq!(pallet.create_claim(account("Bob"), claim("c"), 8), Ok(()));
    assert_eq!(pallet.proofs(&claim("c")), Some(&record("Bob", 8)));
    assert_eq!(pallet.revoke_claim(account("Alice"), claim("c")), Err(Error::NotClaimOwner));
    assert_eq!(
        pallet.events(),
        &vec![
            Event::ClaimCreated(account("Alice"), claim("c")),
            Event::ClaimRevoked(account("Alice"), claim("c")),
            Event::ClaimCreated(account("Bob"), claim("c")),
        ]
    );
}

#[test]
fn claims_are_independent() {
    let mut pallet = Pallet::new();
    assert_eq!(pallet.create_claim(account("Alice"), claim("c"), 1), Ok(()));
    assert_eq!(pallet.create_claim(account("Bob"), claim("d"), 2), Ok(()));
    assert_eq!(pallet.transfer_claim(account("Alice"), claim("c"), account("Carol"), 3), Ok(()));
    assert_eq!(pallet.proofs(&claim("d")), Some(&record("Bob", 2)));
    assert_eq!(pallet.revoke_claim(account("Bob"), claim("d")), Ok(()));
    assert_eq!(pallet.proofs(&claim("c")), Some(&record("Carol", 3)));
    assert_eq!(pallet.proofs(&claim("d")), None);
}

#[test]
fn claims_are_told_apart_by_their_bytes() {
    let mut pallet = Pallet::new();
    assert_eq!(pallet.create_claim(account("Alice"), vec![], 1), Ok(()));
    assert_eq!(pallet.create_claim(account("Alice"), vec![0], 2), Ok(()));
    assert_eq!(pallet.create_claim(account("Alice"), vec![0, 0], 3), Ok(()));
    assert_eq!(pallet.create_claim(account("Bob"), vec![0], 4), Err(Error::ProofAlreadyExist));
    assert_eq!(pallet.proofs(&vec![]), Some(&record("Alice", 1)));
    assert_eq!(pallet.proofs(&vec![0]), Some(&record("Alice", 2)));
    assert_eq!(pallet.proofs(&vec![0, 0]), Some(&record("Alice", 3)));
    assert_eq!(pallet.proofs(&vec![1]), None);
}

#[test]
fn accounts_are_told_apart_by_their_bytes() {
    let mut pallet = Pallet::new();
    assert_eq!(pallet.create_claim(AccountId(vec![1, 2]), claim("c"), 1), Ok(()));
    assert_eq!(pallet.revoke_claim(AccountId(vec![1]), claim("c")), Err(Error::NotClaimOwner));
    assert_eq!(pallet.revoke_claim(AccountId(vec![1, 2, 3]), claim("c")), Err(Error::NotClaimOwner));
    assert_eq!(pallet.revoke_claim(AccountId(vec![2, 1]), claim("c")), Err(Error::NotClaimOwner));
    assert_eq!(pallet.revoke_claim(AccountId(vec![1, 2]), claim("c")), Ok(()));
}

#[test]
fn each_success_announces_one_event() {
    let mut pallet = Pallet::new();
    assert_eq!(pallet.events().len(), 0);
    assert_eq!(pallet.create_claim(account("Alice"), claim("c"), 1), Ok(()));
    assert_eq!(pallet.events().len(), 1);
    assert_eq!(pallet.create_claim(account("Alice"), claim("c"), 1), Err(Error::ProofAlreadyExist));
    assert_eq!(pallet.events().len(), 1);
    assert_eq!(pallet.transfer_claim(account("Alice"), claim("c"), account("Bob"), 2), Ok(()));
    assert_eq!(pallet.events().len(), 2);
    assert_eq!(pallet.revoke_claim(account("Bob"), claim("c")), Ok(()));
    assert_eq!(pallet.events().len(), 3);
    assert_eq!(pallet.revoke_claim(account("Bob"), claim("c")), Err(Error::ClaimNotExist));
    assert_eq!(pallet.events().len(), 3);
}
