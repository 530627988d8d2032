use vstd::prelude::*;
use vstd::string::StringSliceAdditionalSpecFns;
use anchor_lang::prelude::Pubkey;
use crate::errors::ErrorCode;
use crate::identity::{Identity, lemma_identity_by_bytes};

verus! {

/// Most seeds that one derivation may take, the tag included.
pub const MAX_COMPONENT_SEEDS: usize = 15;

/// Most bytes that one seed may hold.
pub const MAX_SEED_BYTES: usize = 32;

/// The address and disambiguator that the program-address search finds for
/// `seeds` under `program`, or `None` where it finds none.
pub uninterp spec fn program_address(program: Seq<u8>, seeds: Seq<Seq<u8>>) -> Option<(Seq<u8>, u8)>;

/// Calls `Pubkey::try_find_program_address`. The search hashes the seeds,
/// a candidate disambiguator and the program id, and walks the candidates
/// from 255 downwards until the hash is no point of the signing curve. The
/// contract only names that result: it is a function of the bytes handed in.
#[verifier::external_body]
fn find_program_address(program: &Identity, seeds: &Vec<Vec<u8>>) -> (found: Option<(Identity, u8)>)
    ensures
        match found {
            Some((address, proof)) => program_address(program@, seed_bytes(seeds@)) == Some(
                (address@, proof),
            ),
            None => program_address(program@, seed_bytes(seeds@)) is None,
        },
{
    let mut slices: Vec<&[u8]> = Vec::new();
    for seed in seeds.iter() {
        slices.push(seed.as_slice());
    }
    let program_id = Pubkey::new_from_array(program.bytes);
    match Pubkey::try_find_program_address(&slices, &program_id) {
        Some((address, proof)) => Some((Identity { bytes: address.to_bytes() }, proof)),
        None => None,
    }
}

/// Whether `address` is a point of the signing curve, so that a private key
/// may exist for it.
pub uninterp spec fn on_signing_curve(address: Seq<u8>) -> bool;

/// Calls `Pubkey::is_on_curve`, which says whether the 32 bytes decompress to
/// a point of the Ed25519 curve. The contract only names that answer.
#[verifier::external_body]
fn is_on_curve(address: &Identity) -> (on: bool)
    ensures
        on == on_signing_curve(address@),
{
    Pubkey::new_from_array(address.bytes).is_on_curve()
}

/// The seeds as plain byte sequences.
pub open spec fn seed_bytes(seeds: Seq<Vec<u8>>) -> Seq<Seq<u8>> {
    Seq::new(seeds.len(), |i: int| seeds[i]@)
}

/// Whether a seed list is one that the search accepts.
pub open spec fn seeds_within_limits(seeds: Seq<Seq<u8>>) -> bool {
    &&& seeds.len() <= MAX_COMPONENT_SEEDS
    &&& forall|i: int| 0 <= i < seeds.len() ==> (#[trigger] seeds[i]).len() <= MAX_SEED_BYTES
}

/// The identity whose bytes are `bytes`.
pub open spec fn identity_of(bytes: Seq<u8>) -> Identity {
    choose|id: Identity| id@ == bytes
}

/// What `derive` returns: the seeds are refused when they break a limit, and
/// otherwise the outcome of the search decides. An address on the signing
/// curve is never handed out.
pub open spec fn derived(program: Identity, seeds: Seq<Seq<u8>>) -> Result<(Identity, u8), ErrorCode> {
    if !seeds_within_limits(seeds) {
        Err(ErrorCode::SeedLimitExceeded)
    } else {
        match program_address(program@, seeds) {
            Some((address, proof)) => if on_signing_curve(identity_of(address)@) {
                Err(ErrorCode::NoViableAddress)
            } else {
                Ok((identity_of(address), proof))
            },
            None => Err(ErrorCode::NoViableAddress),
        }
    }
}

/// The seeds of the one authority record: the tag alone.
pub open spec fn authority_seeds_of() -> Seq<Seq<u8>> {
    seq!["achievemint-authority".spec_bytes()]
}

/// The seeds of a badge: the tag, the minting identity and the achievement
/// id. An id longer than one seed may be is cut after 32 bytes; the search
/// hashes the seeds one after another, so the cut does not change the bytes
/// that are hashed.
pub open spec fn badge_seeds_of(minter: Identity, achievement_id: Seq<char>) -> Seq<Seq<u8>> {
    let id = vstd::utf8::encode_utf8(achievement_id);
    if id.len() <= MAX_SEED_BYTES {
        seq!["nft".spec_bytes(), minter@, id]
    } else {
        seq![
            "nft".spec_bytes(),
            minter@,
            id.subrange(0, MAX_SEED_BYTES as int),
            id.subrange(MAX_SEED_BYTES as int, id.len() as int),
        ]
    }
}

/// Reading an identity back from its own bytes gives that identity.
pub proof fn lemma_identity_of_view(id: Identity)
    ensures
        identity_of(id@) == id,
{
    lemma_identity_by_bytes(identity_of(id@), id);
}

fn seeds_fit(seeds: &Vec<Vec<u8>>) -> (fit: bool)
    ensures
        fit == seeds_within_limits(seed_bytes(seeds@)),
{
    if seeds.len() > MAX_COMPONENT_SEEDS {
        return false;
    }
    let mut i: usize = 0;
    while i < seeds.len()
        invariant
            i <= seeds.len(),
            forall|k: int| 0 <= k < i ==> (#[trigger] seed_bytes(seeds@)[k]).len() <= MAX_SEED_BYTES,
        decreases seeds.len() - i,
    {
        if seeds[i].len() > MAX_SEED_BYTES {
            assert(seed_bytes(seeds@)[i as int].len() > MAX_SEED_BYTES);
            return false;
        }
        i += 1;
    }
    true
}

/// Derives the address of the record that `seeds` name under `program`, and
/// the proof that goes with it. The first seed is the namespace tag. The
/// address is one that no private key can sign for.
pub fn derive(program: &Identity, seeds: &Vec<Vec<u8>>) -> (out: Result<(Identity, u8), ErrorCode>)
    ensures
        out == derived(*program, seed_bytes(seeds@)),
        out matches Ok((address, _)) ==> !on_signing_curve(address@),
{
    if !seeds_fit(seeds) {
        return Err(ErrorCode::SeedLimitExceeded);
    }
    match find_program_address(program, seeds) {
        Some((address, proof)) => {
            proof {
                lemma_identity_of_view(address);
            }
            if is_on_curve(&address) {
                Err(ErrorCode::NoViableAddress)
            } else {
                Ok((address, proof))
            }
        },
        None => Err(ErrorCode::NoViableAddress),
    }
}

/// The seed list of the authority record.
pub fn authority_seeds() -> (seeds: Vec<Vec<u8>>)
    ensures
        seed_bytes(seeds@) == authority_seeds_of(),
{
    let mut seeds: Vec<Vec<u8>> = Vec::new();
    seeds.push(vstd::slice::slice_to_vec("achievemint-authority".as_bytes()));
    assert(seed_bytes(seeds@) =~= authority_seeds_of());
    seeds
}

/// The seed list of the badge that `minter` minted under `achievement_id`.
pub fn badge_seeds(minter: &Identity, achievement_id: &str) -> (seeds: Vec<Vec<u8>>)
    ensures
        seed_bytes(seeds@) == badge_seeds_of(*minter, achievement_id@),
{
    let mut seeds: Vec<Vec<u8>> = Vec::new();
    seeds.push(vstd::slice::slice_to_vec("nft".as_bytes()));
    seeds.push(vstd::slice::slice_to_vec(vstd::array::array_as_slice(&minter.bytes)));
    let id = achievement_id.as_bytes();
    if id.len() <= MAX_SEED_BYTES {
        seeds.push(vstd::slice::slice_to_vec(id));
    } else {
        seeds.push(vstd::slice::slice_to_vec(vstd::slice::slice_subrange(id, 0, MAX_SEED_BYTES)));
        seeds.push(
            vstd::slice::slice_to_vec(vstd::slice::slice_subrange(id, MAX_SEED_BYTES, id.len())),
        );
    }
    assert(seed_bytes(seeds@) =~= badge_seeds_of(*minter, achievement_id@));
    seeds
}

/// The bytes that the search hashes for a badge before the proof: its seeds
/// one after another.
pub open spec fn badge_preimage(minter: Identity, achievement_id: Seq<char>) -> Seq<u8> {
    "nft".spec_bytes() + minter@ + vstd::utf8::encode_utf8(achievement_id)
}

/// The seeds of a badge, one after another, are its preimage, cut or not.
pub proof fn lemma_badge_seeds_spell_preimage(minter: Identity, achievement_id: Seq<char>)
    ensures
        ({
            let seeds = badge_seeds_of(minter, achievement_id);
            if seeds.len() == 3 {
                seeds[0] + seeds[1] + seeds[2] == badge_preimage(minter, achievement_id)
            } else {
                seeds.len() == 4 && seeds[0] + seeds[1] + seeds[2] + seeds[3] == badge_preimage(
                    minter,
                    achievement_id,
                )
            }
        }),
{
    let seeds = badge_seeds_of(minter, achievement_id);
    let id = vstd::utf8::encode_utf8(achievement_id);
    if id.len() > MAX_SEED_BYTES {
        assert(seeds[2] + seeds[3] =~= id);
        assert(seeds[0] + seeds[1] + seeds[2] + seeds[3] =~= seeds[0] + seeds[1] + (seeds[2]
            + seeds[3]));
    }
}

/// Two badges whose seeds make up the same bytes have the same minter and
/// the same achievement id: the seeds of different badges never run together.
pub proof fn lemma_badge_preimage_distinct(
    minter: Identity,
    achievement_id: Seq<char>,
    other_minter: Identity,
    other_id: Seq<char>,
)
    requires
        badge_preimage(minter, achievement_id) == badge_preimage(other_minter, other_id),
    ensures
        minter == other_minter,
        achievement_id == other_id,
{
    let tag = "nft".spec_bytes();
    let one = badge_preimage(minter, achievement_id);
    let two = badge_preimage(other_minter, other_id);
    let start = tag.len() as int;
    assert(minter@.len() == 32 && other_minter@.len() == 32);
    assert(one.subrange(start, start + 32) =~= minter@);
    assert(two.subrange(start, start + 32) =~= other_minter@);
    lemma_identity_by_bytes(minter, other_minter);
    assert(one.subrange(start + 32, one.len() as int) =~= vstd::utf8::encode_utf8(achievement_id));
    assert(two.subrange(start + 32, two.len() as int) =~= vstd::utf8::encode_utf8(other_id));
    vstd::utf8::encode_utf8_decode_utf8(achievement_id);
    vstd::utf8::encode_utf8_decode_utf8(other_id);
}

/// The two tags are short enough to be seeds.
pub proof fn lemma_tags_fit()
    ensures
        "nft".spec_bytes().len() == 3,
        "achievemint-authority".spec_bytes().len() == 21,
{
    reveal_strlit("nft");
    reveal_strlit("achievemint-authority");
    assert(vstd::utf8::is_ascii_chars("nft"@));
    assert(vstd::utf8::is_ascii_chars("achievemint-authority"@));
    vstd::utf8::is_ascii_chars_encode_utf8("nft"@);
    vstd::utf8::is_ascii_chars_encode_utf8("achievemint-authority"@);
}

/// The seeds of the authority record are within the limits of the search.
pub proof fn lemma_authority_seeds_fit()
    ensures
        seeds_within_limits(authority_seeds_of()),
{
    lemma_tags_fit();
}

/// The seeds of a badge are within the limits of the search for every
/// achievement id of at most 64 bytes, so for every id that a mint accepts.
pub proof fn lemma_badge_seeds_fit(minter: Identity, achievement_id: Seq<char>)
    requires
        vstd::utf8::encode_utf8(achievement_id).len() <= 2 * MAX_SEED_BYTES,
    ensures
        seeds_within_limits(badge_seeds_of(minter, achievement_id)),
{
    lemma_tags_fit();
}

/// No derived address lies on the signing curve.
pub proof fn lemma_derived_off_curve(program: Identity, seeds: Seq<Seq<u8>>)
    ensures
        derived(program, seeds) matches Ok((address, _)) ==> !on_signing_curve(address@),
{
}

/// Equal seed lists derive the same address and proof under one program.
pub proof fn lemma_derive_deterministic(program: Identity, a: Seq<Seq<u8>>, b: Seq<Seq<u8>>)
    requires
        a =~~= b,
    ensures
        derived(program, a) == derived(program, b),
{
}

} // verus!
