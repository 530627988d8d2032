use vstd::prelude::*;
use vstd::string::StringSliceAdditionalSpecFns;
use vstd::utf8::encode_utf8;
use crate::address::{authority_seeds, authority_seeds_of, badge_seeds, badge_seeds_of, derived};
use crate::errors::ErrorCode;
use crate::identity::{Identity, Signer};
use crate::state::{Ledger, NFTAccount, Record};
use crate::validate::{derivation_verdict, validate};

verus! {

/// Most bytes of a badge name.
pub const MAX_NAME_LEN: usize = 32;

/// Most bytes of a badge description.
pub const MAX_DESCRIPTION_LEN: usize = 200;

/// Most bytes of a rarity label.
pub const MAX_RARITY_LEN: usize = 20;

/// The highest unlock percentage.
pub const MAX_UNLOCK_PERCENTAGE: u8 = 100;

/// Most bytes of an achievement id.
pub const MAX_ACHIEVEMENT_ID_LEN: usize = 50;

/// The accounts of a mint: the payer who signs, the identity that is to own
/// the badge, the authority record, the account that is to hold the badge,
/// and the ledger's time.
#[derive(Debug)]
pub struct MintNFT {
    pub payer: Signer,
    pub owner: Identity,
    pub achievemint_authority: Identity,
    pub nft_account: Identity,
    pub unix_timestamp: i64,
}

/// The verdict on the fields of a badge: the first bound that is broken, in
/// the order name, description, rarity, unlock percentage, achievement id.
/// Lengths count bytes of UTF-8.
pub open spec fn fields_verdict(
    name: Seq<char>,
    description: Seq<char>,
    rarity: Seq<char>,
    unlock_percentage: u8,
    achievement_id: Seq<char>,
) -> Result<(), ErrorCode> {
    if encode_utf8(name).len() > MAX_NAME_LEN {
        Err(ErrorCode::NameTooLong)
    } else if encode_utf8(description).len() > MAX_DESCRIPTION_LEN {
        Err(ErrorCode::DescriptionTooLong)
    } else if encode_utf8(rarity).len() > MAX_RARITY_LEN {
        Err(ErrorCode::RarityTooLong)
    } else if unlock_percentage > MAX_UNLOCK_PERCENTAGE {
        Err(ErrorCode::InvalidUnlockPercentage)
    } else if encode_utf8(achievement_id).len() > MAX_ACHIEVEMENT_ID_LEN {
        Err(ErrorCode::AchievementIdTooLong)
    } else {
        Ok(())
    }
}

/// Checks the fields of a badge against their bounds.
pub fn validate_fields(
    name: &str,
    description: &str,
    rarity: &str,
    unlock_percentage: u8,
    achievement_id: &str,
) -> (out: Result<(), ErrorCode>)
    ensures
        out == fields_verdict(name@, description@, rarity@, unlock_percentage, achievement_id@),
{
    if name.as_bytes().len() > MAX_NAME_LEN {
        Err(ErrorCode::NameTooLong)
    } else if description.as_bytes().len() > MAX_DESCRIPTION_LEN {
        Err(ErrorCode::DescriptionTooLong)
    } else if rarity.as_bytes().len() > MAX_RARITY_LEN {
        Err(ErrorCode::RarityTooLong)
    } else if unlock_percentage > MAX_UNLOCK_PERCENTAGE {
        Err(ErrorCode::InvalidUnlockPercentage)
    } else if achievement_id.as_bytes().len() > MAX_ACHIEVEMENT_ID_LEN {
        Err(ErrorCode::AchievementIdTooLong)
    } else {
        Ok(())
    }
}

/// The verdict on the authority record that a mint names: it has to exist,
/// carry the authority tag, and sit at the derived address with the derived
/// proof.
pub open spec fn authority_verdict(
    records: Map<Identity, Record>,
    program: Identity,
    account: Identity,
) -> Result<(), ErrorCode> {
    if !records.contains_key(account) {
        Err(ErrorCode::NotInitialized)
    } else {
        match records[account] {
            Record::Badge(_) => Err(ErrorCode::WrongRecordType),
            Record::Authority(authority) => match derived(program, authority_seeds_of()) {
                Err(e) => Err(e),
                Ok((address, bump)) => derivation_verdict(address, bump, account, authority.bump),
            },
        }
    }
}

/// Checks the authority record that a mint names.
pub fn check_authority(ledger: &Ledger, account: &Identity) -> (out: Result<(), ErrorCode>)
    requires
        ledger.wf(),
    ensures
        out == authority_verdict(ledger@, ledger.program_id(), *account),
{
    match ledger.get(account) {
        None => Err(ErrorCode::NotInitialized),
        Some(Record::Badge(_)) => Err(ErrorCode::WrongRecordType),
        Some(Record::Authority(authority)) => {
            let program = ledger.program();
            let seeds = authority_seeds();
            match crate::address::derive(&program, &seeds) {
                Err(e) => Err(e),
                Ok((address, bump)) => validate(&address, bump, account, authority.bump),
            }
        },
    }
}

/// What a mint does to the records of `program`: the new records, or the
/// reason why nothing changes.
pub open spec fn mint_outcome(
    records: Map<Identity, Record>,
    program: Identity,
    ctx: MintNFT,
    name: String,
    description: String,
    rarity: String,
    unlock_percentage: u8,
    achievement_id: String,
) -> Result<Map<Identity, Record>, ErrorCode> {
    if !ctx.payer.is_signer {
        Err(ErrorCode::MissingSignature)
    } else {
        match fields_verdict(name@, description@, rarity@, unlock_percentage, achievement_id@) {
            Err(e) => Err(e),
            Ok(()) => match authority_verdict(records, program, ctx.achievemint_authority) {
                Err(e) => Err(e),
                Ok(()) => match derived(program, badge_seeds_of(ctx.owner, achievement_id@)) {
                    Err(e) => Err(e),
                    Ok((address, bump)) => if records.contains_key(address) {
                        Err(ErrorCode::RecordAlreadyExists)
                    } else if ctx.nft_account != address {
                        Err(ErrorCode::AddressMismatch)
                    } else {
                        Ok(
                            records.insert(
                                address,
                                Record::Badge(
                                    NFTAccount {
                                        owner: ctx.owner,
                                        name,
                                        description,
                                        rarity,
                                        unlock_percentage,
                                        achievement_id,
                                        mint_timestamp: ctx.unix_timestamp,
                                        bump,
                                    },
                                ),
                            ),
                        )
                    },
                },
            },
        }
    }
}

/// Creates a badge for `ctx.owner` at the address that the owner and the
/// achievement id derive.
pub fn handler(
    ledger: &mut Ledger,
    ctx: MintNFT,
    name: String,
    description: String,
    rarity: String,
    unlock_percentage: u8,
    achievement_id: String,
) -> (out: Result<(), ErrorCode>)
    requires
        old(ledger).wf(),
    ensures
        final(ledger).wf(),
        final(ledger).program_id() == old(ledger).program_id(),
        match mint_outcome(
            old(ledger)@,
            old(ledger).program_id(),
            ctx,
            name,
            description,
            rarity,
            unlock_percentage,
            achievement_id,
        ) {
            Ok(after) => out is Ok && final(ledger)@ == after,
            Err(e) => out == Err::<(), ErrorCode>(e) && final(ledger)@ == old(ledger)@,
        },
{
    if !ctx.payer.is_signer {
        return Err(ErrorCode::MissingSignature);
    }
    match validate_fields(
        name.as_str(),
        description.as_str(),
        rarity.as_str(),
        unlock_percentage,
        achievement_id.as_str(),
    ) {
        Err(e) => {
            return Err(e);
        },
        Ok(()) => {},
    }
    match check_authority(ledger, &ctx.achievemint_authority) {
        Err(e) => {
            return Err(e);
        },
        Ok(()) => {},
    }
    let program = ledger.program();
    let seeds = badge_seeds(&ctx.owner, achievement_id.as_str());
    let (address, bump) = match crate::address::derive(&program, &seeds) {
        Err(e) => {
            return Err(e);
        },
        Ok(found) => found,
    };
    if ledger.get(&address).is_some() {
        return Err(ErrorCode::RecordAlreadyExists);
    }
    if !ctx.nft_account.same(&address) {
        return Err(ErrorCode::AddressMismatch);
    }
    ledger.put(
        address,
        Record::Badge(
            NFTAccount {
                owner: ctx.owner,
                name,
                description,
                rarity,
                unlock_percentage,
                achievement_id,
                mint_timestamp: ctx.unix_timestamp,
                bump,
            },
        ),
    );
    Ok(())
}

} // verus!
