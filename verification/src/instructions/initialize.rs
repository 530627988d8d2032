use vstd::prelude::*;
use crate::address::{authority_seeds, authority_seeds_of, derived};
use crate::errors::ErrorCode;
use crate::identity::{Identity, Signer};
use crate::state::{AchievemintAuthority, Ledger, Record};

verus! {

/// The accounts of the bootstrap: the administrator, who also pays, and the
/// account that is to hold the authority record.
#[derive(Debug)]
pub struct Initialize {
    pub authority: Signer,
    pub achievemint_authority: Identity,
}

/// What the bootstrap does to the records of `program`: the new records, or
/// the reason why nothing changes.
pub open spec fn initialize_outcome(
    records: Map<Identity, Record>,
    program: Identity,
    ctx: Initialize,
) -> Result<Map<Identity, Record>, ErrorCode> {
    if !ctx.authority.is_signer {
        Err(ErrorCode::MissingSignature)
    } else {
        match derived(program, authority_seeds_of()) {
            Err(e) => Err(e),
            Ok((address, bump)) => if records.contains_key(address) {
                Err(ErrorCode::AlreadyInitialized)
            } else if ctx.achievemint_authority != address {
                Err(ErrorCode::AddressMismatch)
            } else {
                Ok(
                    records.insert(
                        address,
                        Record::Authority(
                            AchievemintAuthority { authority: ctx.authority.key, bump },
                        ),
                    ),
                )
            },
        }
    }
}

/// Creates the authority record, once.
pub fn handler(ledger: &mut Ledger, ctx: Initialize) -> (out: Result<(), ErrorCode>)
    requires
        old(ledger).wf(),
    ensures
        final(ledger).wf(),
        final(ledger).program_id() == old(ledger).program_id(),
        match initialize_outcome(old(ledger)@, old(ledger).program_id(), ctx) {
            Ok(after) => out is Ok && final(ledger)@ == after,
            Err(e) => out == Err::<(), ErrorCode>(e) && final(ledger)@ == old(ledger)@,
        },
{
    if !ctx.authority.is_signer {
        return Err(ErrorCode::MissingSignature);
    }
    let program = ledger.program();
    let seeds = authority_seeds();
    let (address, bump) = match crate::address::derive(&program, &seeds) {
        Err(e) => {
            return Err(e);
        },
        Ok(found) => found,
    };
    if ledger.get(&address).is_some() {
        return Err(ErrorCode::AlreadyInitialized);
    }
    if !ctx.achievemint_authority.same(&address) {
        return Err(ErrorCode::AddressMismatch);
    }
    ledger.put(
        address,
        Record::Authority(AchievemintAuthority { authority: ctx.authority.key, bump }),
    );
    Ok(())
}

} // verus!
