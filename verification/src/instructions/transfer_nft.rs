use vstd::prelude::*;
use crate::errors::ErrorCode;
use crate::identity::{Identity, Signer};
use crate::state::{with_owner, Ledger, Record};
use crate::validate::{authorize, authorization_verdict};

verus! {

/// The accounts of a transfer: the owner who signs, the identity that is to
/// own the badge, and the badge, named by its account and by the seeds it
/// was minted under.
#[derive(Debug)]
pub struct TransferNFT {
    pub current_owner: Signer,
    pub new_owner: Identity,
    pub nft_account: Identity,
    pub minter: Identity,
    pub achievement_id: String,
}

/// What a transfer does to the records of `program`: the new records, or the
/// reason why nothing changes.
pub open spec fn transfer_outcome(
    records: Map<Identity, Record>,
    program: Identity,
    ctx: TransferNFT,
) -> Result<Map<Identity, Record>, ErrorCode> {
    if !ctx.current_owner.is_signer {
        Err(ErrorCode::MissingSignature)
    } else {
        match authorization_verdict(
            records,
            program,
            ctx.nft_account,
            ctx.minter,
            ctx.achievement_id@,
            ctx.current_owner.key,
        ) {
            Err(e) => Err(e),
            Ok(()) => Ok(
                records.insert(
                    ctx.nft_account,
                    Record::Badge(with_owner(records[ctx.nft_account]->Badge_0, ctx.new_owner)),
                ),
            ),
        }
    }
}

/// Hands a badge to a new owner, on the word of its current owner.
pub fn handler(ledger: &mut Ledger, ctx: TransferNFT) -> (out: Result<(), ErrorCode>)
    requires
        old(ledger).wf(),
    ensures
        final(ledger).wf(),
        final(ledger).program_id() == old(ledger).program_id(),
        match transfer_outcome(old(ledger)@, old(ledger).program_id(), ctx) {
            Ok(after) => out is Ok && final(ledger)@ == after,
            Err(e) => out == Err::<(), ErrorCode>(e) && final(ledger)@ == old(ledger)@,
        },
{
    if !ctx.current_owner.is_signer {
        return Err(ErrorCode::MissingSignature);
    }
    match authorize(
        ledger,
        &ctx.nft_account,
        &ctx.minter,
        ctx.achievement_id.as_str(),
        &ctx.current_owner.key,
    ) {
        Err(e) => Err(e),
        Ok(()) => {
            ledger.set_owner(&ctx.nft_account, ctx.new_owner);
            Ok(())
        },
    }
}

} // verus!
