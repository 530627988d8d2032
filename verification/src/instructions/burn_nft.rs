use vstd::prelude::*;
use crate::errors::ErrorCode;
use crate::identity::{Identity, Signer};
use crate::state::{Ledger, Record};
use crate::validate::{authorize, authorization_verdict};

verus! {

/// The accounts of a burn: the owner who signs and takes the refund, and the
/// badge, named by its account and by the seeds it was minted under.
#[derive(Debug)]
pub struct BurnNFT {
    pub owner: Signer,
    pub nft_account: Identity,
    pub minter: Identity,
    pub achievement_id: String,
}

/// What a burn does to the records of `program`: the new records, or the
/// reason why nothing changes.
pub open spec fn burn_outcome(
    records: Map<Identity, Record>,
    program: Identity,
    ctx: BurnNFT,
) -> Result<Map<Identity, Record>, ErrorCode> {
    if !ctx.owner.is_signer {
        Err(ErrorCode::MissingSignature)
    } else {
        match authorization_verdict(
            records,
            program,
            ctx.nft_account,
            ctx.minter,
            ctx.achievement_id@,
            ctx.owner.key,
        ) {
            Err(e) => Err(e),
            Ok(()) => Ok(records.remove(ctx.nft_account)),
        }
    }
}

/// Destroys a badge, on the word of its owner. On success the identity that
/// the freed storage cost goes to is returned: the owner who signed.
pub fn handler(ledger: &mut Ledger, ctx: BurnNFT) -> (out: Result<Identity, ErrorCode>)
    requires
        old(ledger).wf(),
    ensures
        final(ledger).wf(),
        final(ledger).program_id() == old(ledger).program_id(),
        match burn_outcome(old(ledger)@, old(ledger).program_id(), ctx) {
            Ok(after) => out == Ok::<Identity, ErrorCode>(ctx.owner.key) && final(ledger)@
                == after,
            Err(e) => out == Err::<Identity, ErrorCode>(e) && final(ledger)@ == old(ledger)@,
        },
{
    if !ctx.owner.is_signer {
        return Err(ErrorCode::MissingSignature);
    }
    match authorize(
        ledger,
        &ctx.nft_account,
        &ctx.minter,
        ctx.achievement_id.as_str(),
        &ctx.owner.key,
    ) {
        Err(e) => Err(e),
        Ok(()) => {
            ledger.take(&ctx.nft_account);
            Ok(ctx.owner.key)
        },
    }
}

} // verus!
