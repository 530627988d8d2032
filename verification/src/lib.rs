//! Ownership rules for achievement badges kept at program-derived addresses.
//!
//! A badge lives in a ledger of tagged records. Its address is derived from
//! the identity that minted it and from its achievement id, and every
//! transition checks the record it is about to touch against that derivation.

pub mod address;
pub mod errors;
pub mod identity;
pub mod instructions;
pub mod laws;
pub mod state;
pub mod tag;
pub mod validate;

use vstd::prelude::*;
use crate::errors::ErrorCode;
use crate::identity::Identity;
use crate::instructions::burn_nft::{burn_outcome, BurnNFT};
use crate::instructions::initialize::{initialize_outcome, Initialize};
use crate::instructions::mint_nft::{mint_outcome, MintNFT};
use crate::instructions::transfer_nft::{transfer_outcome, TransferNFT};
use crate::state::Ledger;

verus! {

/// Bootstraps the deployment: creates the one authority record.
pub fn initialize(ledger: &mut Ledger, ctx: Initialize) -> (out: Result<(), ErrorCode>)
    requires
        old(ledger).wf(),
    ensures
        final(ledger).wf(),
        final(ledger).program_id() == old(ledger).program_id(),
        match initialize_outcome(old(ledger)@, old(ledger).program_id(), ctx) {
            Ok(after) => out is Ok && final(ledger)@ == after,
            Err(e) => out == Err::<(), ErrorCode>(e) && final(ledger)@ == old(ledger)@,
        },
{
    instructions::initialize::handler(ledger, ctx)
}

/// Mints a badge.
pub fn mint_nft(
    ledger: &mut Ledger,
    ctx: MintNFT,
    name: String,
    description: String,
    rarity: String,
    unlock_percentage: u8,
    achievement_id: String,
) -> (out: Result<(), ErrorCode>)
    requires
        old(ledger).wf(),
    ensures
        final(ledger).wf(),
        final(ledger).program_id() == old(ledger).program_id(),
        match mint_outcome(
            old(ledger)@,
            old(ledger).program_id(),
            ctx,
            name,
            description,
            rarity,
            unlock_percentage,
            achievement_id,
        ) {
            Ok(after) => out is Ok && final(ledger)@ == after,
            Err(e) => out == Err::<(), ErrorCode>(e) && final(ledger)@ == old(ledger)@,
        },
{
    instructions::mint_nft::handler(
        ledger,
        ctx,
        name,
        description,
        rarity,
        unlock_percentage,
        achievement_id,
    )
}

/// Transfers a badge to a new owner.
pub fn transfer_nft(ledger: &mut Ledger, ctx: TransferNFT) -> (out: Result<(), ErrorCode>)
    requires
        old(ledger).wf(),
    ensures
        final(ledger).wf(),
        final(ledger).program_id() == old(ledger).program_id(),
        match transfer_outcome(old(ledger)@, old(ledger).program_id(), ctx) {
            Ok(after) => out is Ok && final(ledger)@ == after,
            Err(e) => out == Err::<(), ErrorCode>(e) && final(ledger)@ == old(ledger)@,
        },
{
    instructions::transfer_nft::handler(ledger, ctx)
}

/// Burns a badge and names the identity that the refund goes to.
pub fn burn_nft(ledger: &mut Ledger, ctx: BurnNFT) -> (out: Result<Identity, ErrorCode>)
    requires
        old(ledger).wf(),
    ensures
        final(ledger).wf(),
        final(ledger).program_id() == old(ledger).program_id(),
        match burn_outcome(old(ledger)@, old(ledger).program_id(), ctx) {
            Ok(after) => out == Ok::<Identity, ErrorCode>(ctx.owner.key) && final(ledger)@
                == after,
            Err(e) => out == Err::<Identity, ErrorCode>(e) && final(ledger)@ == old(ledger)@,
        },
{
    instructions::burn_nft::handler(ledger, ctx)
}

} // verus!
