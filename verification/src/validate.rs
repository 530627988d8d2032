use vstd::prelude::*;
use crate::errors::ErrorCode;
use crate::address::{badge_seeds, badge_seeds_of, derived};
use crate::identity::Identity;
use crate::state::{Ledger, Record};

verus! {

/// The verdict on a record's place: the account that the caller named has to
/// be the derived address, and the proof stored in the record has to be the
/// derived proof. The address is looked at first.
pub open spec fn derivation_verdict(
    expected_address: Identity,
    expected_proof: u8,
    stored_address: Identity,
    stored_proof: u8,
) -> Result<(), ErrorCode> {
    if stored_address != expected_address {
        Err(ErrorCode::AddressMismatch)
    } else if stored_proof != expected_proof {
        Err(ErrorCode::ProofMismatch)
    } else {
        Ok(())
    }
}

/// The verdict on a transition that only the owner may authorize: the place
/// first, then the owner.
pub open spec fn owned_verdict(
    expected_address: Identity,
    expected_proof: u8,
    stored_address: Identity,
    stored_proof: u8,
    stored_owner: Identity,
    caller: Identity,
) -> Result<(), ErrorCode> {
    match derivation_verdict(expected_address, expected_proof, stored_address, stored_proof) {
        Err(e) => Err(e),
        Ok(()) => if stored_owner != caller {
            Err(ErrorCode::NotOwner)
        } else {
            Ok(())
        },
    }
}

/// Checks a stored record's address and proof against the derivation.
pub fn validate(
    expected_address: &Identity,
    expected_proof: u8,
    stored_address: &Identity,
    stored_proof: u8,
) -> (out: Result<(), ErrorCode>)
    ensures
        out == derivation_verdict(*expected_address, expected_proof, *stored_address, stored_proof),
{
    if !stored_address.same(expected_address) {
        Err(ErrorCode::AddressMismatch)
    } else if stored_proof != expected_proof {
        Err(ErrorCode::ProofMismatch)
    } else {
        Ok(())
    }
}

/// Checks a stored record's address, proof and owner for a transition that
/// only the owner may authorize.
pub fn validate_owned(
    expected_address: &Identity,
    expected_proof: u8,
    stored_address: &Identity,
    stored_proof: u8,
    stored_owner: &Identity,
    caller: &Identity,
) -> (out: Result<(), ErrorCode>)
    ensures
        out == owned_verdict(
            *expected_address,
            expected_proof,
            *stored_address,
            stored_proof,
            *stored_owner,
            *caller,
        ),
{
    match validate(expected_address, expected_proof, stored_address, stored_proof) {
        Err(e) => Err(e),
        Ok(()) => if !stored_owner.same(caller) {
            Err(ErrorCode::NotOwner)
        } else {
            Ok(())
        },
    }
}

/// The verdict on a transition that the owner of a badge has to authorize.
/// `account` is the account that the caller named, `minter` and
/// `achievement_id` are the seeds that the caller gave for it, and `caller` is
/// the identity that signed.
pub open spec fn authorization_verdict(
    records: Map<Identity, Record>,
    program: Identity,
    account: Identity,
    minter: Identity,
    achievement_id: Seq<char>,
    caller: Identity,
) -> Result<(), ErrorCode> {
    if !records.contains_key(account) {
        Err(ErrorCode::RecordNotFound)
    } else {
        match records[account] {
            Record::Authority(_) => Err(ErrorCode::WrongRecordType),
            Record::Badge(badge) => match derived(program, badge_seeds_of(minter, achievement_id)) {
                Err(e) => Err(e),
                Ok((address, bump)) => owned_verdict(
                    address,
                    bump,
                    account,
                    badge.bump,
                    badge.owner,
                    caller,
                ),
            },
        }
    }
}

/// Decides whether `caller` may change or destroy the badge at `account`.
/// The stored record is read, never what the caller says of it.
pub fn authorize(
    ledger: &Ledger,
    account: &Identity,
    minter: &Identity,
    achievement_id: &str,
    caller: &Identity,
) -> (out: Result<(), ErrorCode>)
    requires
        ledger.wf(),
    ensures
        out == authorization_verdict(
            ledger@,
            ledger.program_id(),
            *account,
            *minter,
            achievement_id@,
            *caller,
        ),
{
    match ledger.get(account) {
        None => Err(ErrorCode::RecordNotFound),
        Some(Record::Authority(_)) => Err(ErrorCode::WrongRecordType),
        Some(Record::Badge(badge)) => {
            let program = ledger.program();
            let seeds = badge_seeds(minter, achievement_id);
            match crate::address::derive(&program, &seeds) {
                Err(e) => Err(e),
                Ok((address, bump)) => validate_owned(
                    &address,
                    bump,
                    account,
                    badge.bump,
                    &badge.owner,
                    caller,
                ),
            }
        },
    }
}

} // verus!
