use pallet_poe::claim::{create, revoke, transfer, Transition};
use pallet_poe::types::{AccountId, Error, Event, OwnershipRecord};

fn id(byte: u8) -> AccountId {
    AccountId(vec![byte])
}

fn owned_by(byte: u8, recorded_at: u64) -> OwnershipRecord {
    OwnershipRecord { owner: id(byte), recorded_at }
}

fn claim() -> Vec<u8> {
    vec![0xc1, 0xa1]
}

#[test]
fn create_on_absent_claim_gives_fresh_record() {
    assert_eq!(
        create(None, id(1), claim(), 42),
        Ok(Transition {
            next: Some(owned_by(1, 42)),
            event: Event::ClaimCreated(id(1), claim()),
        })
    );
}

#[test]
fn create_on_owned_claim_is_refused() {
    let current = owned_by(1, 42);
    assert_eq!(create(Some(&current), id(1), claim(), 43), Err(Error::ProofAlreadyExist));
    assert_eq!(create(Some(&current), id(2), claim(), 43), Err(Error::ProofAlreadyExist));
}

#[test]
fn revoke_on_absent_claim_is_refused() {
    assert_eq!(revoke(None, id(1), claim()), Err(Error::ClaimNotExist));
}

#[test]
fn revoke_by_stranger_is_refused() {
    let current = owned_by(1, 42);
    assert_eq!(revoke(Some(&current), id(2), claim()), Err(Error::NotClaimOwner));
}

#[test]
fn revoke_by_owner_removes_the_record() {
    let current = owned_by(1, 42);
    assert_eq!(
        revoke(Some(&current), id(1), claim()),
        Ok(Transition { next: None, event: Event::ClaimRevoked(id(1), claim()) })
    );
}

#[test]
fn transfer_on_absent_claim_is_refused() {
    assert_eq!(transfer(None, id(1), claim(), id(2), 50), Err(Error::ClaimNotExist));
}

#[test]
fn transfer_by_stranger_is_refused() {
    let current = owned_by(1, 42);
    assert_eq!(transfer(Some(&current), id(2), claim(), id(2), 50), Err(Error::NotClaimOwner));
}

#[test]
fn transfer_by_owner_gives_record_of_recipient() {
    let current = owned_by(1, 42);
    assert_eq!(
        transfer(Some(&current), id(1), claim(), id(2), 50),
        Ok(Transition {
            next: Some(owned_by(2, 50)),
            event: Event::ClaimTransfer(id(1), claim(), id(2)),
        })
    );
}

#[test]
fn transfer_to_oneself_keeps_owner_and_takes_new_time() {
    let current = owned_by(1, 42);
    assert_eq!(
        transfer(Some(&current), id(1), claim(), id(1), 50),
        Ok(Transition {
            next: Some(owned_by(1, 50)),
            event: Event::ClaimTransfer(id(1), claim(), id(1)),
        })
    );
}

#[test]
fn transfer_takes_the_time_it_is_given() {
    let current = owned_by(1, 42);
    for now in [0, 41, 42, u64::MAX] {
        let decided = transfer(Some(&current), id(1), claim(), id(2), now);
        assert_eq!(decided.map(|transition| transition.next), Ok(Some(owned_by(2, now))));
    }
}

#[test]
fn existence_is_settled_before_ownership() {
    assert_eq!(revoke(None, id(9), vec![]), Err(Error::ClaimNotExist));
    assert_eq!(transfer(None, id(9), vec![], id(9), 0), Err(Error::ClaimNotExist));
}
