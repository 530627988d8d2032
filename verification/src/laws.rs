use vstd::prelude::*;
use crate::address::{
    authority_seeds_of, badge_seeds_of, derived, lemma_authority_seeds_fit, lemma_badge_seeds_fit,
    on_signing_curve,
};
use crate::errors::ErrorCode;
use crate::identity::{Identity, Signer};
use crate::instructions::burn_nft::{burn_outcome, BurnNFT};
use crate::instructions::initialize::{initialize_outcome, Initialize};
use crate::instructions::mint_nft::{fields_verdict, mint_outcome, MintNFT};
use crate::instructions::transfer_nft::{transfer_outcome, TransferNFT};
use crate::state::Record;

verus! {

/// After a bootstrap, every further signed bootstrap is refused as already
/// initialized, and the authority record names the first administrator.
pub proof fn law_bootstrap_once(
    records: Map<Identity, Record>,
    program: Identity,
    first: Initialize,
    second: Initialize,
)
    requires
        initialize_outcome(records, program, first) is Ok,
        second.authority.is_signer,
    ensures
        ({
            let mid = initialize_outcome(records, program, first)->Ok_0;
            &&& initialize_outcome(mid, program, second) == Err::<Map<Identity, Record>, ErrorCode>(
                ErrorCode::AlreadyInitialized,
            )
            &&& mid.contains_key(first.achievemint_authority)
            &&& mid[first.achievemint_authority] is Authority
            &&& mid[first.achievemint_authority]->Authority_0.authority == first.authority.key
        }),
{
}

/// After a mint, no mint for the same owner and achievement id succeeds,
/// whatever else it says. One that is signed, has valid fields and names the
/// same authority record is refused because the record already exists.
pub proof fn law_mint_once(
    records: Map<Identity, Record>,
    program: Identity,
    first: MintNFT,
    name: String,
    description: String,
    rarity: String,
    unlock_percentage: u8,
    achievement_id: String,
    second: MintNFT,
    name2: String,
    description2: String,
    rarity2: String,
    unlock_percentage2: u8,
    achievement_id2: String,
)
    requires
        mint_outcome(
            records,
            program,
            first,
            name,
            description,
            rarity,
            unlock_percentage,
            achievement_id,
        ) is Ok,
        second.owner == first.owner,
        achievement_id2@ == achievement_id@,
    ensures
        ({
            let mid = mint_outcome(
                records,
                program,
                first,
                name,
                description,
                rarity,
                unlock_percentage,
                achievement_id,
            )->Ok_0;
            let again = mint_outcome(
                mid,
                program,
                second,
                name2,
                description2,
                rarity2,
                unlock_percentage2,
                achievement_id2,
            );
            &&& again is Err
            &&& (second.payer.is_signer && second.achievemint_authority
                == first.achievemint_authority && fields_verdict(
                name2@,
                description2@,
                rarity2@,
                unlock_percentage2,
                achievement_id2@,
            ) is Ok) ==> again == Err::<Map<Identity, Record>, ErrorCode>(
                ErrorCode::RecordAlreadyExists,
            )
        }),
{
}

/// A transfer that anyone but the stored owner authorizes is refused. Where
/// the caller signed and named the badge by its true seeds, the reason is
/// that the caller is not the owner.
pub proof fn law_transfer_needs_owner(
    records: Map<Identity, Record>,
    program: Identity,
    ctx: TransferNFT,
)
    requires
        records.contains_key(ctx.nft_account),
        records[ctx.nft_account] is Badge,
        records[ctx.nft_account]->Badge_0.owner != ctx.current_owner.key,
    ensures
        transfer_outcome(records, program, ctx) is Err,
        (ctx.current_owner.is_signer && derived(
            program,
            badge_seeds_of(ctx.minter, ctx.achievement_id@),
        ) == Ok::<(Identity, u8), ErrorCode>(
            (ctx.nft_account, records[ctx.nft_account]->Badge_0.bump),
        )) ==> transfer_outcome(records, program, ctx) == Err::<
            Map<Identity, Record>,
            ErrorCode,
        >(ErrorCode::NotOwner),
{
}

/// A burn that anyone but the stored owner authorizes is refused.
pub proof fn law_burn_needs_owner(records: Map<Identity, Record>, program: Identity, ctx: BurnNFT)
    requires
        records.contains_key(ctx.nft_account),
        records[ctx.nft_account] is Badge,
        records[ctx.nft_account]->Badge_0.owner != ctx.owner.key,
    ensures
        burn_outcome(records, program, ctx) is Err,
{
}

/// A transfer succeeds only on the signed word of the stored owner. It
/// changes the owner of the one badge it names and nothing else: every other
/// field of that badge and every other record stay as they were.
pub proof fn law_transfer_changes_owner_only(
    records: Map<Identity, Record>,
    program: Identity,
    ctx: TransferNFT,
)
    requires
        transfer_outcome(records, program, ctx) is Ok,
    ensures
        ({
            let after = transfer_outcome(records, program, ctx)->Ok_0;
            let was = records[ctx.nft_account]->Badge_0;
            let is = after[ctx.nft_account]->Badge_0;
            &&& ctx.current_owner.is_signer
            &&& records.contains_key(ctx.nft_account)
            &&& records[ctx.nft_account] is Badge
            &&& was.owner == ctx.current_owner.key
            &&& after.dom() == records.dom()
            &&& after[ctx.nft_account] is Badge
            &&& is.owner == ctx.new_owner
            &&& is.name == was.name
            &&& is.description == was.description
            &&& is.rarity == was.rarity
            &&& is.unlock_percentage == was.unlock_percentage
            &&& is.achievement_id == was.achievement_id
            &&& is.mint_timestamp == was.mint_timestamp
            &&& is.bump == was.bump
            &&& forall|a: Identity|
                a != ctx.nft_account && records.contains_key(a) ==> #[trigger] after[a]
                    == records[a]
        }),
{
    let after = transfer_outcome(records, program, ctx)->Ok_0;
    assert(after.dom() =~= records.dom());
}

/// A minted badge can be transferred by its minter and then burned by the
/// new owner; each step succeeds, the burn leaves the records as they were
/// before the mint, and a second burn finds no record.
pub proof fn law_round_trip(
    records: Map<Identity, Record>,
    program: Identity,
    mint: MintNFT,
    name: String,
    description: String,
    rarity: String,
    unlock_percentage: u8,
    achievement_id: String,
    new_owner: Identity,
)
    requires
        mint_outcome(
            records,
            program,
            mint,
            name,
            description,
            rarity,
            unlock_percentage,
            achievement_id,
        ) is Ok,
    ensures
        ({
            let minted = mint_outcome(
                records,
                program,
                mint,
                name,
                description,
                rarity,
                unlock_percentage,
                achievement_id,
            )->Ok_0;
            let transfer = TransferNFT {
                current_owner: Signer { key: mint.owner, is_signer: true },
                new_owner,
                nft_account: mint.nft_account,
                minter: mint.owner,
                achievement_id,
            };
            let burn = BurnNFT {
                owner: Signer { key: new_owner, is_signer: true },
                nft_account: mint.nft_account,
                minter: mint.owner,
                achievement_id,
            };
            let moved = transfer_outcome(minted, program, transfer);
            let burned = burn_outcome(moved->Ok_0, program, burn);
            &&& moved is Ok
            &&& burned is Ok
            &&& !burned->Ok_0.contains_key(mint.nft_account)
            &&& burned->Ok_0 == records
            &&& burn_outcome(burned->Ok_0, program, burn) == Err::<
                Map<Identity, Record>,
                ErrorCode,
            >(ErrorCode::RecordNotFound)
        }),
{
    let minted = mint_outcome(
        records,
        program,
        mint,
        name,
        description,
        rarity,
        unlock_percentage,
        achievement_id,
    )->Ok_0;
    let transfer = TransferNFT {
        current_owner: Signer { key: mint.owner, is_signer: true },
        new_owner,
        nft_account: mint.nft_account,
        minter: mint.owner,
        achievement_id,
    };
    let burn = BurnNFT {
        owner: Signer { key: new_owner, is_signer: true },
        nft_account: mint.nft_account,
        minter: mint.owner,
        achievement_id,
    };
    let moved = transfer_outcome(minted, program, transfer);
    assert(moved is Ok);
    let burned = burn_outcome(moved->Ok_0, program, burn);
    assert(burned is Ok);
    assert(burned->Ok_0 =~= records);
}

/// A burn succeeds only on the signed word of the stored owner, and removes
/// the one badge it names and nothing else.
pub proof fn law_burn_removes_one_badge(
    records: Map<Identity, Record>,
    program: Identity,
    ctx: BurnNFT,
)
    requires
        burn_outcome(records, program, ctx) is Ok,
    ensures
        ctx.owner.is_signer,
        records.contains_key(ctx.nft_account),
        records[ctx.nft_account] is Badge,
        records[ctx.nft_account]->Badge_0.owner == ctx.owner.key,
        burn_outcome(records, program, ctx)->Ok_0 == records.remove(ctx.nft_account),
{
}

/// A bootstrap leaves every record that was there as it was.
pub proof fn law_bootstrap_keeps_records(
    records: Map<Identity, Record>,
    program: Identity,
    ctx: Initialize,
)
    requires
        initialize_outcome(records, program, ctx) is Ok,
    ensures
        forall|a: Identity| #[trigger]
            records.contains_key(a) ==> {
                let after = initialize_outcome(records, program, ctx)->Ok_0;
                after.contains_key(a) && after[a] == records[a]
            },
{
}

/// A mint leaves every record that was there as it was.
pub proof fn law_mint_keeps_records(
    records: Map<Identity, Record>,
    program: Identity,
    ctx: MintNFT,
    name: String,
    description: String,
    rarity: String,
    unlock_percentage: u8,
    achievement_id: String,
)
    requires
        mint_outcome(
            records,
            program,
            ctx,
            name,
            description,
            rarity,
            unlock_percentage,
            achievement_id,
        ) is Ok,
    ensures
        forall|a: Identity| #[trigger]
            records.contains_key(a) ==> {
                let after = mint_outcome(
                    records,
                    program,
                    ctx,
                    name,
                    description,
                    rarity,
                    unlock_percentage,
                    achievement_id,
                )->Ok_0;
                after.contains_key(a) && after[a] == records[a]
            },
{
}

/// Every authority record sits at the one address that the authority seeds
/// derive: a deployment has at most one.
pub open spec fn authority_is_single(records: Map<Identity, Record>, program: Identity) -> bool {
    forall|a: Identity| #[trigger]
        records.contains_key(a) && records[a] is Authority ==> derived(
            program,
            authority_seeds_of(),
        ) is Ok && derived(program, authority_seeds_of())->Ok_0.0 == a
}

/// An empty ledger has no authority record, and no transition ever makes a
/// second one: each of the four keeps `authority_is_single`.
pub proof fn law_authority_stays_single(
    records: Map<Identity, Record>,
    program: Identity,
    bootstrap: Initialize,
    mint: MintNFT,
    name: String,
    description: String,
    rarity: String,
    unlock_percentage: u8,
    achievement_id: String,
    transfer: TransferNFT,
    burn: BurnNFT,
)
    requires
        authority_is_single(records, program),
    ensures
        authority_is_single(Map::<Identity, Record>::empty(), program),
        initialize_outcome(records, program, bootstrap) is Ok ==> authority_is_single(
            initialize_outcome(records, program, bootstrap)->Ok_0,
            program,
        ),
        mint_outcome(
            records,
            program,
            mint,
            name,
            description,
            rarity,
            unlock_percentage,
            achievement_id,
        ) is Ok ==> authority_is_single(
            mint_outcome(
                records,
                program,
                mint,
                name,
                description,
                rarity,
                unlock_percentage,
                achievement_id,
            )->Ok_0,
            program,
        ),
        transfer_outcome(records, program, transfer) is Ok ==> authority_is_single(
            transfer_outcome(records, program, transfer)->Ok_0,
            program,
        ),
        burn_outcome(records, program, burn) is Ok ==> authority_is_single(
            burn_outcome(records, program, burn)->Ok_0,
            program,
        ),
{
}

/// Once created, the authority record is never removed or changed: a mint, a
/// transfer and a burn leave every authority record as it was.
pub proof fn law_authority_is_kept(
    records: Map<Identity, Record>,
    program: Identity,
    mint: MintNFT,
    name: String,
    description: String,
    rarity: String,
    unlock_percentage: u8,
    achievement_id: String,
    transfer: TransferNFT,
    burn: BurnNFT,
    account: Identity,
)
    requires
        records.contains_key(account),
        records[account] is Authority,
    ensures
        ({
            let minted = mint_outcome(
                records,
                program,
                mint,
                name,
                description,
                rarity,
                unlock_percentage,
                achievement_id,
            );
            minted is Ok ==> minted->Ok_0.contains_key(account) && minted->Ok_0[account]
                == records[account]
        }),
        ({
            let moved = transfer_outcome(records, program, transfer);
            moved is Ok ==> moved->Ok_0.contains_key(account) && moved->Ok_0[account]
                == records[account]
        }),
        ({
            let burned = burn_outcome(records, program, burn);
            burned is Ok ==> burned->Ok_0.contains_key(account) && burned->Ok_0[account]
                == records[account]
        }),
{
}

/// Records are only ever created at addresses off the signing curve, so no
/// private key can sign for the address of a record.
pub proof fn law_records_start_off_curve(
    records: Map<Identity, Record>,
    program: Identity,
    bootstrap: Initialize,
    mint: MintNFT,
    name: String,
    description: String,
    rarity: String,
    unlock_percentage: u8,
    achievement_id: String,
)
    ensures
        initialize_outcome(records, program, bootstrap) is Ok ==> !on_signing_curve(
            bootstrap.achievemint_authority@,
        ),
        mint_outcome(
            records,
            program,
            mint,
            name,
            description,
            rarity,
            unlock_percentage,
            achievement_id,
        ) is Ok ==> !on_signing_curve(mint.nft_account@),
{
}

/// Neither a bootstrap nor a mint is ever refused for its seeds: fields
/// within their bounds always make seeds within the limits of the search.
pub proof fn law_seeds_always_fit(
    records: Map<Identity, Record>,
    program: Identity,
    bootstrap: Initialize,
    mint: MintNFT,
    name: String,
    description: String,
    rarity: String,
    unlock_percentage: u8,
    achievement_id: String,
)
    ensures
        initialize_outcome(records, program, bootstrap) != Err::<
            Map<Identity, Record>,
            ErrorCode,
        >(ErrorCode::SeedLimitExceeded),
        mint_outcome(
            records,
            program,
            mint,
            name,
            description,
            rarity,
            unlock_percentage,
            achievement_id,
        ) != Err::<Map<Identity, Record>, ErrorCode>(ErrorCode::SeedLimitExceeded),
{
    lemma_authority_seeds_fit();
    if fields_verdict(name@, description@, rarity@, unlock_percentage, achievement_id@) is Ok {
        lemma_badge_seeds_fit(mint.owner, achievement_id@);
    }
}

} // verus!
