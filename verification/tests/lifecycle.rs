use achievemint::address::{authority_seeds, badge_seeds};
use achievemint::errors::ErrorCode;
use achievemint::identity::{Identity, Signer};
use achievemint::instructions::burn_nft::BurnNFT;
use achievemint::instructions::initialize::Initialize;
use achievemint::instructions::mint_nft::{check_authority, validate_fields, MintNFT};
use achievemint::instructions::transfer_nft::TransferNFT;
use achievemint::state::{AchievemintAuthority, Ledger, NFTAccount, Record};
use achievemint::validate::authorize;
use achievemint::{burn_nft, initialize, mint_nft, transfer_nft};

fn id(n: u8) -> Identity {
    Identity::new([n; 32])
}

fn program() -> Identity {
    id(7)
}

fn signed(key: Identity) -> Signer {
    Signer { key, is_signer: true }
}

fn unsigned(key: Identity) -> Signer {
    Signer { key, is_signer: false }
}

fn authority_place() -> (Identity, u8) {
    achievemint::address::derive(&program(), &authority_seeds()).unwrap()
}

fn badge_place(minter: &Identity, achievement_id: &str) -> (Identity, u8) {
    achievemint::address::derive(&program(), &badge_seeds(minter, achievement_id)).unwrap()
}

fn booted(admin: Identity) -> Ledger {
    let mut ledger = Ledger::new(program());
    let ctx = Initialize { authority: signed(admin), achievemint_authority: authority_place().0 };
    assert_eq!(initialize(&mut ledger, ctx), Ok(()));
    ledger
}

fn mint_ctx(payer: Signer, owner: Identity, achievement_id: &str, now: i64) -> MintNFT {
    MintNFT {
        payer,
        owner,
        achievemint_authority: authority_place().0,
        nft_account: badge_place(&owner, achievement_id).0,
        unix_timestamp: now,
    }
}

fn mint_plain(ledger: &mut Ledger, owner: Identity, achievement_id: &str) -> Result<(), ErrorCode> {
    mint_nft(
        ledger,
        mint_ctx(signed(id(9)), owner, achievement_id, 1_700_000_000),
        "Alice".to_string(),
        "First steps".to_string(),
        "rare".to_string(),
        50,
        achievement_id.to_string(),
    )
}

fn transfer_ctx(signer: Signer, new_owner: Identity, minter: Identity, achievement_id: &str) -> TransferNFT {
    TransferNFT {
        current_owner: signer,
        new_owner,
        nft_account: badge_place(&minter, achievement_id).0,
        minter,
        achievement_id: achievement_id.to_string(),
    }
}

fn burn_ctx(signer: Signer, minter: Identity, achievement_id: &str) -> BurnNFT {
    BurnNFT {
        owner: signer,
        nft_account: badge_place(&minter, achievement_id).0,
        minter,
        achievement_id: achievement_id.to_string(),
    }
}

fn badge_at<'a>(ledger: &'a Ledger, address: &Identity) -> &'a NFTAccount {
    match ledger.get(address) {
        Some(Record::Badge(badge)) => badge,
        other => panic!("no badge at the address: {:?}", other),
    }
}

fn sample_badge(owner: Identity, bump: u8) -> NFTAccount {
    NFTAccount {
        owner,
        name: "Alice".to_string(),
        description: "First steps".to_string(),
        rarity: "rare".to_string(),
        unlock_percentage: 50,
        achievement_id: "ach1".to_string(),
        mint_timestamp: 5,
        bump,
    }
}

#[test]
fn new_ledger_is_empty() {
    let ledger = Ledger::new(program());
    assert_eq!(ledger.program(), program());
    assert!(ledger.get(&authority_place().0).is_none());
    assert!(ledger.get(&id(1)).is_none());
}

#[test]
fn ledger_put_get_take() {
    let mut ledger = Ledger::new(program());
    ledger.put(id(1), Record::Badge(sample_badge(id(2), 3)));
    ledger.put(id(4), Record::Authority(AchievemintAuthority { authority: id(5), bump: 6 }));
    assert_eq!(badge_at(&ledger, &id(1)).owner, id(2));
    ledger.put(id(1), Record::Badge(sample_badge(id(8), 3)));
    assert_eq!(badge_at(&ledger, &id(1)).owner, id(8));
    assert!(matches!(ledger.get(&id(4)), Some(Record::Authority(a)) if a.authority == id(5) && a.bump == 6));
    assert!(matches!(ledger.take(&id(1)), Some(Record::Badge(b)) if b.owner == id(8)));
    assert!(ledger.get(&id(1)).is_none());
    assert!(ledger.take(&id(1)).is_none());
    assert!(ledger.get(&id(4)).is_some());
}

#[test]
fn ledger_set_owner_touches_badges_only() {
    let mut ledger = Ledger::new(program());
    ledger.put(id(1), Record::Badge(sample_badge(id(2), 3)));
    ledger.put(id(4), Record::Authority(AchievemintAuthority { authority: id(5), bump: 6 }));
    assert!(ledger.set_owner(&id(1), id(9)));
    assert_eq!(badge_at(&ledger, &id(1)).owner, id(9));
    assert_eq!(badge_at(&ledger, &id(1)).name, "Alice");
    assert!(!ledger.set_owner(&id(4), id(9)));
    assert!(matches!(ledger.get(&id(4)), Some(Record::Authority(a)) if a.authority == id(5)));
    assert!(!ledger.set_owner(&id(30), id(9)));
    assert!(ledger.get(&id(30)).is_none());
}

#[test]
fn bootstrap_creates_the_authority_record() {
    let ledger = booted(id(1));
    let (address, bump) = authority_place();
    match ledger.get(&address) {
        Some(Record::Authority(authority)) => {
            assert_eq!(authority.authority, id(1));
            assert_eq!(authority.bump, bump);
        }
        other => panic!("no authority record: {:?}", other),
    }
}

#[test]
fn second_bootstrap_is_refused() {
    let mut ledger = booted(id(1));
    let again = Initialize { authority: signed(id(2)), achievemint_authority: authority_place().0 };
    assert_eq!(initialize(&mut ledger, again), Err(ErrorCode::AlreadyInitialized));
    let same = Initialize { authority: signed(id(1)), achievemint_authority: authority_place().0 };
    assert_eq!(initialize(&mut ledger, same), Err(ErrorCode::AlreadyInitialized));
    assert!(matches!(
        ledger.get(&authority_place().0),
        Some(Record::Authority(a)) if a.authority == id(1)
    ));
}

#[test]
fn bootstrap_needs_the_signature() {
    let mut ledger = Ledger::new(program());
    let ctx = Initialize { authority: unsigned(id(1)), achievemint_authority: authority_place().0 };
    assert_eq!(initialize(&mut ledger, ctx), Err(ErrorCode::MissingSignature));
    assert!(ledger.get(&authority_place().0).is_none());
}

#[test]
fn bootstrap_refuses_another_account() {
    let mut ledger = Ledger::new(program());
    let ctx = Initialize { authority: signed(id(1)), achievemint_authority: id(40) };
    assert_eq!(initialize(&mut ledger, ctx), Err(ErrorCode::AddressMismatch));
    assert!(ledger.get(&authority_place().0).is_none());
    assert!(ledger.get(&id(40)).is_none());
}

#[test]
fn mint_creates_the_badge() {
    let mut ledger = booted(id(1));
    assert_eq!(mint_plain(&mut ledger, id(3), "ach1"), Ok(()));
    let (address, bump) = badge_place(&id(3), "ach1");
    let badge = badge_at(&ledger, &address);
    assert_eq!(badge.owner, id(3));
    assert_eq!(badge.name, "Alice");
    assert_eq!(badge.description, "First steps");
    assert_eq!(badge.rarity, "rare");
    assert_eq!(badge.unlock_percentage, 50);
    assert_eq!(badge.achievement_id, "ach1");
    assert_eq!(badge.mint_timestamp, 1_700_000_000);
    assert_eq!(badge.bump, bump);
    assert!(ledger.get(&authority_place().0).is_some());
}

#[test]
fn mint_refuses_a_name_of_thirty_three_bytes() {
    let mut ledger = booted(id(1));
    let out = mint_nft(
        &mut ledger,
        mint_ctx(signed(id(9)), id(3), "ach1", 1),
        "n".repeat(33),
        "d".to_string(),
        "rare".to_string(),
        50,
        "ach1".to_string(),
    );
    assert_eq!(out, Err(ErrorCode::NameTooLong));
    assert!(ledger.get(&badge_place(&id(3), "ach1").0).is_none());
}

#[test]
fn mint_refuses_an_unlock_percentage_of_101() {
    let mut ledger = booted(id(1));
    let out = mint_nft(
        &mut ledger,
        mint_ctx(signed(id(9)), id(3), "ach1", 1),
        "Alice".to_string(),
        "d".to_string(),
        "rare".to_string(),
        101,
        "ach1".to_string(),
    );
    assert_eq!(out, Err(ErrorCode::InvalidUnlockPercentage));
    assert!(ledger.get(&badge_place(&id(3), "ach1").0).is_none());
}

#[test]
fn field_bounds_are_exact() {
    let n32 = "n".repeat(32);
    let d200 = "d".repeat(200);
    let r20 = "r".repeat(20);
    let a50 = "a".repeat(50);
    assert_eq!(validate_fields(&n32, &d200, &r20, 100, &a50), Ok(()));
    assert_eq!(validate_fields("", "", "", 0, ""), Ok(()));
    assert_eq!(
        validate_fields(&"n".repeat(33), &d200, &r20, 100, &a50),
        Err(ErrorCode::NameTooLong)
    );
    assert_eq!(
        validate_fields(&n32, &"d".repeat(201), &r20, 100, &a50),
        Err(ErrorCode::DescriptionTooLong)
    );
    assert_eq!(
        validate_fields(&n32, &d200, &"r".repeat(21), 100, &a50),
        Err(ErrorCode::RarityTooLong)
    );
    assert_eq!(
        validate_fields(&n32, &d200, &r20, 101, &a50),
        Err(ErrorCode::InvalidUnlockPercentage)
    );
    assert_eq!(
        validate_fields(&n32, &d200, &r20, 100, &"a".repeat(51)),
        Err(ErrorCode::AchievementIdTooLong)
    );
    assert_eq!(validate_fields(&n32, &d200, &r20, 255, &a50), Err(ErrorCode::InvalidUnlockPercentage));
}

#[test]
fn field_errors_come_in_field_order() {
    let long = "x".repeat(300);
    assert_eq!(validate_fields(&long, &long, &long, 200, &long), Err(ErrorCode::NameTooLong));
    assert_eq!(validate_fields("n", &long, &long, 200, &long), Err(ErrorCode::DescriptionTooLong));
    assert_eq!(validate_fields("n", "d", &long, 200, &long), Err(ErrorCode::RarityTooLong));
    assert_eq!(validate_fields("n", "d", "r", 200, &long), Err(ErrorCode::InvalidUnlockPercentage));
    assert_eq!(validate_fields("n", "d", "r", 20, &long), Err(ErrorCode::AchievementIdTooLong));
}

#[test]
fn field_lengths_count_bytes() {
    let sixteen = "\u{e9}".repeat(16);
    let seventeen = "\u{e9}".repeat(17);
    assert_eq!(sixteen.len(), 32);
    assert_eq!(validate_fields(&sixteen, "", "", 0, ""), Ok(()));
    assert_eq!(validate_fields(&seventeen, "", "", 0, ""), Err(ErrorCode::NameTooLong));
}

#[test]
fn mint_twice_is_refused() {
    let mut ledger = booted(id(1));
    assert_eq!(mint_plain(&mut ledger, id(3), "ach1"), Ok(()));
    assert_eq!(mint_plain(&mut ledger, id(3), "ach1"), Err(ErrorCode::RecordAlreadyExists));
    let out = mint_nft(
        &mut ledger,
        mint_ctx(signed(id(10)), id(3), "ach1", 99),
        "Other".to_string(),
        "Other".to_string(),
        "common".to_string(),
        1,
        "ach1".to_string(),
    );
    assert_eq!(out, Err(ErrorCode::RecordAlreadyExists));
    let badge = badge_at(&ledger, &badge_place(&id(3), "ach1").0);
    assert_eq!(badge.name, "Alice");
    assert_eq!(badge.mint_timestamp, 1_700_000_000);
    assert_eq!(mint_plain(&mut ledger, id(3), "ach2"), Ok(()));
    assert_eq!(mint_plain(&mut ledger, id(4), "ach1"), Ok(()));
}

#[test]
fn mint_needs_the_authority_record() {
    let mut ledger = Ledger::new(program());
    assert_eq!(mint_plain(&mut ledger, id(3), "ach1"), Err(ErrorCode::NotInitialized));
    assert!(ledger.get(&badge_place(&id(3), "ach1").0).is_none());
    assert_eq!(check_authority(&ledger, &authority_place().0), Err(ErrorCode::NotInitialized));
}

#[test]
fn mint_checks_the_authority_record() {
    let mut ledger = booted(id(1));
    assert_eq!(check_authority(&ledger, &authority_place().0), Ok(()));
    ledger.put(id(50), Record::Authority(AchievemintAuthority { authority: id(1), bump: 1 }));
    assert_eq!(check_authority(&ledger, &id(50)), Err(ErrorCode::AddressMismatch));
    ledger.put(id(51), Record::Badge(sample_badge(id(1), 1)));
    assert_eq!(check_authority(&ledger, &id(51)), Err(ErrorCode::WrongRecordType));
    let (address, bump) = authority_place();
    ledger.put(
        address,
        Record::Authority(AchievemintAuthority { authority: id(1), bump: bump.wrapping_sub(1) }),
    );
    assert_eq!(check_authority(&ledger, &address), Err(ErrorCode::ProofMismatch));
    assert_eq!(mint_plain(&mut ledger, id(3), "ach1"), Err(ErrorCode::ProofMismatch));
}

#[test]
fn mint_needs_the_signature_before_the_fields() {
    let mut ledger = booted(id(1));
    let out = mint_nft(
        &mut ledger,
        mint_ctx(unsigned(id(9)), id(3), "ach1", 1),
        "n".repeat(33),
        "d".to_string(),
        "rare".to_string(),
        101,
        "ach1".to_string(),
    );
    assert_eq!(out, Err(ErrorCode::MissingSignature));
}

#[test]
fn mint_refuses_another_account() {
    let mut ledger = booted(id(1));
    let mut ctx = mint_ctx(signed(id(9)), id(3), "ach1", 1);
    ctx.nft_account = id(60);
    let out = mint_nft(
        &mut ledger,
        ctx,
        "Alice".to_string(),
        "d".to_string(),
        "rare".to_string(),
        50,
        "ach1".to_string(),
    );
    assert_eq!(out, Err(ErrorCode::AddressMismatch));
    assert!(ledger.get(&id(60)).is_none());
    assert!(ledger.get(&badge_place(&id(3), "ach1").0).is_none());
}

#[test]
fn mint_takes_an_id_of_fifty_bytes() {
    let mut ledger = booted(id(1));
    let long_id = "a".repeat(50);
    assert_eq!(mint_plain(&mut ledger, id(3), &long_id), Ok(()));
    let address = badge_place(&id(3), &long_id).0;
    assert_eq!(badge_at(&ledger, &address).achievement_id, long_id);
    assert_eq!(mint_plain(&mut ledger, id(3), &long_id), Err(ErrorCode::RecordAlreadyExists));
    let other = format!("{}b", "a".repeat(49));
    assert_eq!(mint_plain(&mut ledger, id(3), &other), Ok(()));
    assert_ne!(badge_place(&id(3), &other).0, address);
    assert_eq!(
        transfer_nft(&mut ledger, transfer_ctx(signed(id(3)), id(4), id(3), &long_id)),
        Ok(())
    );
    assert_eq!(burn_nft(&mut ledger, burn_ctx(signed(id(4)), id(3), &long_id)), Ok(id(4)));
    assert!(ledger.get(&address).is_none());
}

#[test]
fn mint_refuses_an_id_of_fifty_one_bytes() {
    let mut ledger = booted(id(1));
    let ctx = MintNFT {
        payer: signed(id(9)),
        owner: id(3),
        achievemint_authority: authority_place().0,
        nft_account: id(61),
        unix_timestamp: 1,
    };
    let out = mint_nft(
        &mut ledger,
        ctx,
        "Alice".to_string(),
        "d".to_string(),
        "rare".to_string(),
        50,
        "a".repeat(51),
    );
    assert_eq!(out, Err(ErrorCode::AchievementIdTooLong));
    assert!(ledger.get(&id(61)).is_none());
}

#[test]
fn transfer_by_a_stranger_is_refused() {
    let mut ledger = booted(id(1));
    assert_eq!(mint_plain(&mut ledger, id(3), "ach1"), Ok(()));
    let out = transfer_nft(&mut ledger, transfer_ctx(signed(id(4)), id(4), id(3), "ach1"));
    assert_eq!(out, Err(ErrorCode::NotOwner));
    assert_eq!(badge_at(&ledger, &badge_place(&id(3), "ach1").0).owner, id(3));
}

#[test]
fn transfer_needs_the_signature() {
    let mut ledger = booted(id(1));
    assert_eq!(mint_plain(&mut ledger, id(3), "ach1"), Ok(()));
    let out = transfer_nft(&mut ledger, transfer_ctx(unsigned(id(3)), id(4), id(3), "ach1"));
    assert_eq!(out, Err(ErrorCode::MissingSignature));
    assert_eq!(badge_at(&ledger, &badge_place(&id(3), "ach1").0).owner, id(3));
}

#[test]
fn transfer_of_a_missing_badge_is_refused() {
    let mut ledger = booted(id(1));
    let out = transfer_nft(&mut ledger, transfer_ctx(signed(id(3)), id(4), id(3), "ach1"));
    assert_eq!(out, Err(ErrorCode::RecordNotFound));
}

#[test]
fn transfer_refuses_seeds_of_another_badge() {
    let mut ledger = booted(id(1));
    assert_eq!(mint_plain(&mut ledger, id(3), "ach1"), Ok(()));
    let mut ctx = transfer_ctx(signed(id(3)), id(4), id(3), "ach1");
    ctx.achievement_id = "ach2".to_string();
    assert_eq!(transfer_nft(&mut ledger, ctx), Err(ErrorCode::AddressMismatch));
    assert_eq!(badge_at(&ledger, &badge_place(&id(3), "ach1").0).owner, id(3));
}

#[test]
fn transfer_refuses_a_forged_proof() {
    let mut ledger = booted(id(1));
    let (address, bump) = badge_place(&id(3), "ach1");
    ledger.put(address, Record::Badge(sample_badge(id(3), bump.wrapping_sub(1))));
    let out = transfer_nft(&mut ledger, transfer_ctx(signed(id(3)), id(4), id(3), "ach1"));
    assert_eq!(out, Err(ErrorCode::ProofMismatch));
    assert_eq!(badge_at(&ledger, &address).owner, id(3));
}

#[test]
fn transfer_reads_the_type_tag_first() {
    let mut ledger = booted(id(1));
    let mut ctx = transfer_ctx(signed(id(1)), id(4), id(1), "ach1");
    ctx.nft_account = authority_place().0;
    assert_eq!(transfer_nft(&mut ledger, ctx), Err(ErrorCode::WrongRecordType));
    let mut burn = burn_ctx(signed(id(1)), id(1), "ach1");
    burn.nft_account = authority_place().0;
    assert_eq!(burn_nft(&mut ledger, burn), Err(ErrorCode::WrongRecordType));
    assert!(matches!(
        ledger.get(&authority_place().0),
        Some(Record::Authority(a)) if a.authority == id(1)
    ));
}

#[test]
fn authorize_reads_the_stored_owner() {
    let mut ledger = booted(id(1));
    assert_eq!(mint_plain(&mut ledger, id(3), "ach1"), Ok(()));
    let address = badge_place(&id(3), "ach1").0;
    assert_eq!(authorize(&ledger, &address, &id(3), "ach1", &id(3)), Ok(()));
    assert_eq!(authorize(&ledger, &address, &id(3), "ach1", &id(4)), Err(ErrorCode::NotOwner));
    assert_eq!(authorize(&ledger, &address, &id(4), "ach1", &id(3)), Err(ErrorCode::AddressMismatch));
    assert_eq!(authorize(&ledger, &id(90), &id(3), "ach1", &id(3)), Err(ErrorCode::RecordNotFound));
    assert_eq!(
        authorize(&ledger, &address, &id(3), &"a".repeat(33), &id(3)),
        Err(ErrorCode::AddressMismatch)
    );
    assert_eq!(
        authorize(&ledger, &address, &id(3), &"a".repeat(65), &id(3)),
        Err(ErrorCode::SeedLimitExceeded)
    );
}

#[test]
fn round_trip_mint_transfer_burn() {
    let mut ledger = booted(id(1));
    let a = id(3);
    let b = id(4);
    let address = badge_place(&a, "x").0;
    assert_eq!(mint_plain(&mut ledger, a, "x"), Ok(()));
    assert_eq!(transfer_nft(&mut ledger, transfer_ctx(signed(a), b, a, "x")), Ok(()));
    assert_eq!(badge_at(&ledger, &address).owner, b);
    assert_eq!(burn_nft(&mut ledger, burn_ctx(signed(b), a, "x")), Ok(b));
    assert!(ledger.get(&address).is_none());
    assert_eq!(burn_nft(&mut ledger, burn_ctx(signed(b), a, "x")), Err(ErrorCode::RecordNotFound));
    assert!(ledger.get(&authority_place().0).is_some());
}

#[test]
fn burn_by_the_former_owner_is_refused() {
    let mut ledger = booted(id(1));
    let a = id(3);
    let b = id(4);
    assert_eq!(mint_plain(&mut ledger, a, "x"), Ok(()));
    assert_eq!(transfer_nft(&mut ledger, transfer_ctx(signed(a), b, a, "x")), Ok(()));
    assert_eq!(burn_nft(&mut ledger, burn_ctx(signed(a), a, "x")), Err(ErrorCode::NotOwner));
    assert_eq!(burn_nft(&mut ledger, burn_ctx(unsigned(b), a, "x")), Err(ErrorCode::MissingSignature));
    assert_eq!(badge_at(&ledger, &badge_place(&a, "x").0).owner, b);
    assert_eq!(transfer_nft(&mut ledger, transfer_ctx(signed(a), a, a, "x")), Err(ErrorCode::NotOwner));
}

#[test]
fn mint_after_burn_gives_a_fresh_record() {
    let mut ledger = booted(id(1));
    let a = id(3);
    assert_eq!(mint_plain(&mut ledger, a, "x"), Ok(()));
    assert_eq!(burn_nft(&mut ledger, burn_ctx(signed(a), a, "x")), Ok(a));
    let out = mint_nft(
        &mut ledger,
        mint_ctx(signed(id(9)), a, "x", 42),
        "Again".to_string(),
        "d".to_string(),
        "epic".to_string(),
        7,
        "x".to_string(),
    );
    assert_eq!(out, Ok(()));
    let badge = badge_at(&ledger, &badge_place(&a, "x").0);
    assert_eq!(badge.name, "Again");
    assert_eq!(badge.mint_timestamp, 42);
    assert_eq!(badge.unlock_percentage, 7);
}

#[test]
fn transfer_keeps_every_field_but_the_owner() {
    let mut ledger = booted(id(1));
    let a = id(3);
    let b = id(4);
    let out = mint_nft(
        &mut ledger,
        mint_ctx(signed(id(9)), a, "ach1", 1_234_567),
        "Alice".to_string(),
        "First steps".to_string(),
        "rare".to_string(),
        50,
        "ach1".to_string(),
    );
    assert_eq!(out, Ok(()));
    let (address, bump) = badge_place(&a, "ach1");
    assert_eq!(transfer_nft(&mut ledger, transfer_ctx(signed(a), b, a, "ach1")), Ok(()));
    let badge = badge_at(&ledger, &address);
    assert_eq!(badge.owner, b);
    assert_eq!(badge.name, "Alice");
    assert_eq!(badge.description, "First steps");
    assert_eq!(badge.rarity, "rare");
    assert_eq!(badge.unlock_percentage, 50);
    assert_eq!(badge.achievement_id, "ach1");
    assert_eq!(badge.mint_timestamp, 1_234_567);
    assert_eq!(badge.bump, bump);
    assert!(ledger.get(&badge_place(&b, "ach1").0).is_none());
}

#[test]
fn second_transfer_goes_through_the_minting_address() {
    let mut ledger = booted(id(1));
    let a = id(3);
    let b = id(4);
    let c = id(5);
    assert_eq!(mint_plain(&mut ledger, a, "x"), Ok(()));
    assert_eq!(transfer_nft(&mut ledger, transfer_ctx(signed(a), b, a, "x")), Ok(()));
    assert_eq!(transfer_nft(&mut ledger, transfer_ctx(signed(b), c, a, "x")), Ok(()));
    assert_eq!(badge_at(&ledger, &badge_place(&a, "x").0).owner, c);
}
