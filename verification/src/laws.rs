//! What holds of the registry whatever the requests are.
//!
//! Each law is stated over the state machine of [`crate::model`], to which
//! the contracts of [`crate::ledger::Pallet`] bind its operations. The first
//! laws speak of a registry in any state, the last ones of every registry
//! that a run of requests can lead to.

use vstd::prelude::*;
use crate::model::{Call, Ledger};
use crate::types::{BlockNumber, Error, OwnershipRecordView};

verus! {

/// A claim that the registry does not hold can be neither revoked nor
/// transferred: whoever asks is refused with `ClaimNotExist`.
pub proof fn absent_claim_is_refused(
    ledger: Ledger,
    caller: Seq<u8>,
    claim: Seq<u8>,
    recipient: Seq<u8>,
    now: BlockNumber,
)
    requires
        !ledger.claims.contains_key(claim),
    ensures
        ledger.revoke_claim(caller, claim) == Err::<Ledger, Error>(Error::ClaimNotExist),
        ledger.transfer_claim(caller, claim, recipient, now) == Err::<Ledger, Error>(
            Error::ClaimNotExist,
        ),
{
}

/// A request changes the state of no claim but its own.
pub proof fn other_claims_are_untouched(ledger: Ledger, call: Call, other: Seq<u8>)
    requires
        other != call.claim(),
    ensures
        ledger.step(call).state_of(other) == ledger.state_of(other),
{
}

/// Requests about different claims do not depend on the order in which
/// they are served: each is answered as it would be without the other, and
/// the records are the same either way.
pub proof fn different_claims_commute(ledger: Ledger, first: Call, second: Call)
    requires
        first.claim() != second.claim(),
    ensures
        ledger.step(first).apply(second) is Ok <==> ledger.apply(second) is Ok,
        ledger.apply(second) is Err ==> ledger.step(first).apply(second)->Err_0
            == ledger.apply(second)->Err_0,
        ledger.step(first).step(second).claims == ledger.step(second).step(first).claims,
{
    other_claims_are_untouched(ledger, first, second.claim());
    other_claims_are_untouched(ledger, second, first.claim());
    assert(ledger.step(first).step(second).claims =~= ledger.step(second).step(first).claims);
}

/// Once a request is served, the registry holds its claim: always after a
/// creation; after a transfer exactly if it held the claim before; after a
/// revocation exactly if it held the claim before and refused to revoke it.
pub proof fn claim_is_held_after(ledger: Ledger, call: Call)
    ensures
        ledger.step(call).claims.contains_key(call.claim()) <==> (match call {
            Call::CreateClaim { .. } => true,
            Call::RevokeClaim { .. } => ledger.apply(call) is Err && ledger.claims.contains_key(
                call.claim(),
            ),
            Call::TransferClaim { .. } => ledger.claims.contains_key(call.claim()),
        }),
{
}

/// After any run of requests from the empty registry, a claim that none of
/// them created is absent, and revoking or transferring it is refused with
/// `ClaimNotExist`.
pub proof fn never_created_claim_is_refused(
    calls: Seq<Call>,
    caller: Seq<u8>,
    claim: Seq<u8>,
    recipient: Seq<u8>,
    now: BlockNumber,
)
    requires
        forall|i: int|
            0 <= i < calls.len() ==> !(#[trigger] calls[i] is CreateClaim && calls[i].claim()
                == claim),
    ensures
        !Ledger::empty().run(calls).claims.contains_key(claim),
        Ledger::empty().run(calls).revoke_claim(caller, claim) == Err::<Ledger, Error>(
            Error::ClaimNotExist,
        ),
        Ledger::empty().run(calls).transfer_claim(caller, claim, recipient, now) == Err::<
            Ledger,
            Error,
        >(Error::ClaimNotExist),
    decreases calls.len(),
{
    if calls.len() > 0 {
        let earlier = calls.drop_last();
        assert forall|i: int| 0 <= i < earlier.len() implies !(#[trigger] earlier[i] is CreateClaim
            && earlier[i].claim() == claim) by {
            assert(earlier[i] == calls[i]);
        }
        never_created_claim_is_refused(earlier, caller, claim, recipient, now);
        let before = Ledger::empty().run(earlier);
        let call = calls.last();
        assert(call == calls[calls.len() - 1]);
        if call.claim() != claim {
            other_claims_are_untouched(before, call, claim);
        }
    }
}

/// Once `creator` has created a claim, the claim belongs to `creator`, and
/// nobody can create it again: a second creation, by `creator` or by anyone
/// else, is refused with `ProofAlreadyExist`.
pub proof fn created_claim_cannot_be_created_again(
    ledger: Ledger,
    creator: Seq<u8>,
    claim: Seq<u8>,
    now: BlockNumber,
    second: Seq<u8>,
    later: BlockNumber,
)
    requires
        ledger.create_claim(creator, claim, now) is Ok,
    ensures
        ({
            let created = ledger.create_claim(creator, claim, now)->Ok_0;
            &&& created.state_of(claim) == Some(
                OwnershipRecordView { owner: creator, recorded_at: now },
            )
            &&& created.create_claim(second, claim, later) == Err::<Ledger, Error>(
                Error::ProofAlreadyExist,
            )
        }),
{
}

/// Once `creator` has created a claim, anyone else who tries to revoke it is
/// refused with `NotClaimOwner`, while `creator` revokes it with success,
/// after which the claim is absent.
pub proof fn only_the_owner_revokes(
    ledger: Ledger,
    creator: Seq<u8>,
    claim: Seq<u8>,
    now: BlockNumber,
    other: Seq<u8>,
)
    requires
        ledger.create_claim(creator, claim, now) is Ok,
    ensures
        ({
            let created = ledger.create_claim(creator, claim, now)->Ok_0;
            &&& other != creator ==> created.revoke_claim(other, claim) == Err::<Ledger, Error>(
                Error::NotClaimOwner,
            )
            &&& created.revoke_claim(creator, claim) is Ok
            &&& !created.revoke_claim(creator, claim)->Ok_0.claims.contains_key(claim)
        }),
{
}

/// Once `creator` has created a claim, `creator` can transfer it to any
/// `recipient`; the claim then belongs to `recipient`, who can revoke it.
pub proof fn transfer_hands_the_claim_over(
    ledger: Ledger,
    creator: Seq<u8>,
    claim: Seq<u8>,
    now: BlockNumber,
    recipient: Seq<u8>,
    later: BlockNumber,
)
    requires
        ledger.create_claim(creator, claim, now) is Ok,
    ensures
        ({
            let created = ledger.create_claim(creator, claim, now)->Ok_0;
            let moved = created.transfer_claim(creator, claim, recipient, later);
            &&& moved is Ok
            &&& moved->Ok_0.state_of(claim) == Some(
                OwnershipRecordView { owner: recipient, recorded_at: later },
            )
            &&& moved->Ok_0.revoke_claim(recipient, claim) is Ok
            &&& !moved->Ok_0.revoke_claim(recipient, claim)->Ok_0.claims.contains_key(claim)
        }),
{
}

/// Once a claim has been transferred to another account, its former owner
/// can no longer revoke it and is refused with `NotClaimOwner`. (After a
/// transfer to oneself the owner is who it was, and may revoke.)
pub proof fn former_owner_cannot_revoke(
    ledger: Ledger,
    creator: Seq<u8>,
    claim: Seq<u8>,
    now: BlockNumber,
    recipient: Seq<u8>,
    later: BlockNumber,
)
    requires
        ledger.create_claim(creator, claim, now) is Ok,
        recipient != creator,
    ensures
        ({
            let created = ledger.create_claim(creator, claim, now)->Ok_0;
            let moved = created.transfer_claim(creator, claim, recipient, later);
            &&& moved is Ok
            &&& moved->Ok_0.revoke_claim(creator, claim) == Err::<Ledger, Error>(
                Error::NotClaimOwner,
            )
        }),
{
}

/// A transfer rewrites the record of its claim in place: the registry holds
/// the same claims after it as before, and every other record is as it was.
pub proof fn transfer_keeps_the_claims(
    ledger: Ledger,
    caller: Seq<u8>,
    claim: Seq<u8>,
    recipient: Seq<u8>,
    now: BlockNumber,
)
    requires
        ledger.transfer_claim(caller, claim, recipient, now) is Ok,
    ensures
        ({
            let moved = ledger.transfer_claim(caller, claim, recipient, now)->Ok_0;
            &&& moved.claims.dom() == ledger.claims.dom()
            &&& moved.claims == ledger.claims.insert(
                claim,
                OwnershipRecordView { owner: recipient, recorded_at: now },
            )
        }),
{
    let moved = ledger.transfer_claim(caller, claim, recipient, now)->Ok_0;
    assert(moved.claims.dom() =~= ledger.claims.dom());
}

/// A refused request changes nothing: the registry that has served it is
/// the registry that it was, records and events alike.
pub proof fn refusal_changes_nothing(ledger: Ledger, call: Call)
    requires
        ledger.apply(call) is Err,
    ensures
        ledger.step(call) == ledger,
{
}

/// A claim that was created and revoked can be created again by anyone, and
/// nothing of its former ownership is left: the records are those of a
/// registry in which the second creation was the first.
pub proof fn recreation_resets_the_claim(
    ledger: Ledger,
    first: Seq<u8>,
    claim: Seq<u8>,
    now: BlockNumber,
    second: Seq<u8>,
    later: BlockNumber,
)
    requires
        ledger.create_claim(first, claim, now) is Ok,
    ensures
        ({
            let created = ledger.create_claim(first, claim, now)->Ok_0;
            let revoked = created.revoke_claim(first, claim)->Ok_0;
            let recreated = revoked.create_claim(second, claim, later);
            &&& created.revoke_claim(first, claim) is Ok
            &&& recreated is Ok
            &&& recreated->Ok_0.state_of(claim) == Some(
                OwnershipRecordView { owner: second, recorded_at: later },
            )
            &&& ledger.create_claim(second, claim, later) is Ok
            &&& recreated->Ok_0.claims == ledger.create_claim(second, claim, later)->Ok_0.claims
        }),
{
    let created = ledger.create_claim(first, claim, now)->Ok_0;
    let revoked = created.revoke_claim(first, claim)->Ok_0;
    let recreated = revoked.create_claim(second, claim, later)->Ok_0;
    assert(revoked.claims =~= ledger.claims);
    assert(recreated.claims =~= ledger.create_claim(second, claim, later)->Ok_0.claims);
}

/// A successful request announces exactly one event, a refused one none,
/// and the events announced before stay as they were.
pub proof fn one_event_per_success(ledger: Ledger, call: Call)
    ensures
        ledger.step(call).events.len() == ledger.events.len() + (if ledger.apply(call) is Ok {
            1int
        } else {
            0int
        }),
        ledger.step(call).events.subrange(0, ledger.events.len() as int) == ledger.events,
{
    assert(ledger.step(call).events.subrange(0, ledger.events.len() as int) =~= ledger.events);
}

/// Whether the request at place `i` of the run, served from the empty
/// registry, is a creation of `claim` that succeeds.
pub open spec fn creates_at(calls: Seq<Call>, claim: Seq<u8>, i: int) -> bool {
    &&& calls[i] is CreateClaim
    &&& calls[i].claim() == claim
    &&& Ledger::empty().run(calls.take(i)).apply(calls[i]) is Ok
}

/// Whether the request at place `i` of the run, served from the empty
/// registry, is a revocation of `claim` that succeeds.
pub open spec fn revokes_at(calls: Seq<Call>, claim: Seq<u8>, i: int) -> bool {
    &&& calls[i] is RevokeClaim
    &&& calls[i].claim() == claim
    &&& Ledger::empty().run(calls.take(i)).apply(calls[i]) is Ok
}

/// Whether `claim` is created at place `i` of the run and not revoked after.
pub open spec fn created_and_kept(calls: Seq<Call>, claim: Seq<u8>, i: int) -> bool {
    &&& creates_at(calls, claim, i)
    &&& forall|j: int| i < j < calls.len() ==> !#[trigger] revokes_at(calls, claim, j)
}

/// What happens at a place of a run is what happened there before the last
/// request was added.
proof fn lemma_earlier_places(calls: Seq<Call>, claim: Seq<u8>, i: int)
    requires
        0 <= i < calls.len() - 1,
    ensures
        creates_at(calls, claim, i) == creates_at(calls.drop_last(), claim, i),
        revokes_at(calls, claim, i) == revokes_at(calls.drop_last(), claim, i),
{
    assert(calls.take(i) =~= calls.drop_last().take(i));
    assert(calls[i] == calls.drop_last()[i]);
}

/// After any run of requests from the empty registry, the registry holds a
/// claim exactly if the claim was created and not revoked since.
pub proof fn held_exactly_when_created_and_kept(calls: Seq<Call>, claim: Seq<u8>)
    ensures
        Ledger::empty().run(calls).claims.contains_key(claim) <==> exists|i: int|
            0 <= i < calls.len() && #[trigger] created_and_kept(calls, claim, i),
    decreases calls.len(),
{
    if calls.len() > 0 {
        let earlier = calls.drop_last();
        let last = calls.len() - 1;
        let call = calls[last];
        let before = Ledger::empty().run(earlier);
        let after = Ledger::empty().run(calls);
        held_exactly_when_created_and_kept(earlier, claim);
        assert(calls.take(last) =~= earlier);
        assert(after == before.step(call));
        assert forall|i: int| 0 <= i < last implies (creates_at(calls, claim, i) == creates_at(
            earlier,
            claim,
            i,
        ) && revokes_at(calls, claim, i) == revokes_at(earlier, claim, i)) by {
            lemma_earlier_places(calls, claim, i);
        }
        assert forall|i: int| 0 <= i < last implies (created_and_kept(calls, claim, i) <==> (
        created_and_kept(earlier, claim, i) && !revokes_at(calls, claim, last))) by {
            if created_and_kept(calls, claim, i) {
                assert forall|j: int| i < j < earlier.len() implies !#[trigger] revokes_at(
                    earlier,
                    claim,
                    j,
                ) by {
                    assert(!revokes_at(calls, claim, j));
                }
            }
            if created_and_kept(earlier, claim, i) && !revokes_at(calls, claim, last) {
                assert forall|j: int| i < j < calls.len() implies !#[trigger] revokes_at(
                    calls,
                    claim,
                    j,
                ) by {
                    if j < last {
                        assert(!revokes_at(earlier, claim, j));
                    }
                }
            }
        }
        if call.claim() != claim {
            other_claims_are_untouched(before, call, claim);
            assert(!revokes_at(calls, claim, last));
            assert(!created_and_kept(calls, claim, last));
        } else {
            claim_is_held_after(before, call);
        }
        if after.claims.contains_key(claim) {
            if creates_at(calls, claim, last) {
                assert(created_and_kept(calls, claim, last));
            } else {
                assert(before.claims.contains_key(claim));
                let i = choose|i: int|
                    0 <= i < earlier.len() && #[trigger] created_and_kept(earlier, claim, i);
                assert(created_and_kept(calls, claim, i));
            }
        }
        if exists|i: int| 0 <= i < calls.len() && #[trigger] created_and_kept(calls, claim, i) {
            let i = choose|i: int|
                0 <= i < calls.len() && #[trigger] created_and_kept(calls, claim, i);
            if i < last {
                assert(created_and_kept(earlier, claim, i));
            }
        }
    }
}

/// Whether the host served every request of the run at `now` or before.
pub open spec fn served_by(calls: Seq<Call>, now: BlockNumber) -> bool {
    forall|i: int|
        0 <= i < calls.len() ==> match (#[trigger] calls[i]).time() {
            Some(time) => time <= now,
            None => true,
        }
}

/// After any run of requests from the empty registry, no record bears a
/// timestamp later than the latest time at which the host served a request.
pub proof fn no_record_is_ahead_of_the_clock(calls: Seq<Call>, now: BlockNumber, claim: Seq<u8>)
    requires
        served_by(calls, now),
    ensures
        (match Ledger::empty().run(calls).state_of(claim) {
            Some(record) => record.recorded_at <= now,
            None => true,
        }),
    decreases calls.len(),
{
    if calls.len() > 0 {
        let earlier = calls.drop_last();
        let call = calls.last();
        assert(call == calls[calls.len() - 1]);
        assert forall|i: int| 0 <= i < earlier.len() implies match (#[trigger] earlier[i]).time() {
            Some(time) => time <= now,
            None => true,
        } by {
            assert(earlier[i] == calls[i]);
        }
        no_record_is_ahead_of_the_clock(earlier, now, claim);
        if call.claim() != claim {
            other_claims_are_untouched(Ledger::empty().run(earlier), call, claim);
        }
    }
}

/// While the host's clock does not go back, the timestamp of a claim does
/// not go back either: a request that the host serves no earlier than those
/// of the run before it leaves the claim, where the registry still holds it,
/// with a timestamp that is no earlier than the one it had.
pub proof fn timestamps_follow_the_clock(calls: Seq<Call>, call: Call)
    requires
        (match call.time() {
            Some(now) => served_by(calls, now),
            None => true,
        }),
    ensures
        ({
            let before = Ledger::empty().run(calls);
            let after = before.step(call);
            before.claims.contains_key(call.claim()) && after.claims.contains_key(call.claim())
                ==> before.claims[call.claim()].recorded_at
                <= after.claims[call.claim()].recorded_at
        }),
{
    match call.time() {
        Some(now) => no_record_is_ahead_of_the_clock(calls, now, call.claim()),
        None => {},
    }
}

} // verus!
