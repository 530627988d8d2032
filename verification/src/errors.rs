use vstd::prelude::*;

verus! {

/// Where the numbers of the reasons start.
pub const ERROR_CODE_OFFSET: u32 = 6000;

/// Why a transition was refused. A refused transition changes nothing.
#[derive(Clone, Copy, Debug, PartialEq, Eq, Structural)]
pub enum ErrorCode {
    /// The badge name is longer than 32 bytes.
    NameTooLong,
    /// The badge description is longer than 200 bytes.
    DescriptionTooLong,
    /// The rarity label is longer than 20 bytes.
    RarityTooLong,
    /// The unlock percentage is above 100.
    InvalidUnlockPercentage,
    /// The achievement id is longer than 50 bytes.
    AchievementIdTooLong,
    /// The authorizing identity is not the owner stored in the badge.
    NotOwner,
    /// The identity that has to authorize the transition did not sign it.
    MissingSignature,
    /// The authority record already exists.
    AlreadyInitialized,
    /// Minting needs the authority record, and it does not exist yet.
    NotInitialized,
    /// A record already lives at the address of the badge to mint.
    RecordAlreadyExists,
    /// No record lives at the derived address.
    RecordNotFound,
    /// The record at the address carries the tag of another record shape.
    WrongRecordType,
    /// The account named by the caller is not the one that the seeds derive.
    AddressMismatch,
    /// The proof stored in the record is not the one that the seeds derive.
    ProofMismatch,
    /// There are too many seeds, or one of them is too long.
    SeedLimitExceeded,
    /// No disambiguator gives these seeds an address off the signing curve.
    NoViableAddress,
}

impl ErrorCode {
    /// The place of each reason in the list of reasons, from 0.
    pub open spec fn index_of(self) -> nat {
        match self {
            ErrorCode::NameTooLong => 0,
            ErrorCode::DescriptionTooLong => 1,
            ErrorCode::RarityTooLong => 2,
            ErrorCode::InvalidUnlockPercentage => 3,
            ErrorCode::AchievementIdTooLong => 4,
            ErrorCode::NotOwner => 5,
            ErrorCode::MissingSignature => 6,
            ErrorCode::AlreadyInitialized => 7,
            ErrorCode::NotInitialized => 8,
            ErrorCode::RecordAlreadyExists => 9,
            ErrorCode::RecordNotFound => 10,
            ErrorCode::WrongRecordType => 11,
            ErrorCode::AddressMismatch => 12,
            ErrorCode::ProofMismatch => 13,
            ErrorCode::SeedLimitExceeded => 14,
            ErrorCode::NoViableAddress => 15,
        }
    }

    /// The number under which the reason is reported: its place in the list
    /// behind the offset.
    pub fn number(&self) -> (n: u32)
        ensures
            n == ERROR_CODE_OFFSET + self.index_of(),
    {
        let index: u32 = match self {
            ErrorCode::NameTooLong => 0,
            ErrorCode::DescriptionTooLong => 1,
            ErrorCode::RarityTooLong => 2,
            ErrorCode::InvalidUnlockPercentage => 3,
            ErrorCode::AchievementIdTooLong => 4,
            ErrorCode::NotOwner => 5,
            ErrorCode::MissingSignature => 6,
            ErrorCode::AlreadyInitialized => 7,
            ErrorCode::NotInitialized => 8,
            ErrorCode::RecordAlreadyExists => 9,
            ErrorCode::RecordNotFound => 10,
            ErrorCode::WrongRecordType => 11,
            ErrorCode::AddressMismatch => 12,
            ErrorCode::ProofMismatch => 13,
            ErrorCode::SeedLimitExceeded => 14,
            ErrorCode::NoViableAddress => 15,
        };
        ERROR_CODE_OFFSET + index
    }

    /// The text that goes with each reason.
    pub open spec fn message_of(self) -> Seq<char> {
        match self {
            ErrorCode::NameTooLong => "Name is too long, must be <= 32 chars"@,
            ErrorCode::DescriptionTooLong => "Description is too long, must be <= 200 chars"@,
            ErrorCode::RarityTooLong => "Rarity is too long, must be <= 20 chars"@,
            ErrorCode::InvalidUnlockPercentage => "Unlock percentage must be between 0 and 100"@,
            ErrorCode::AchievementIdTooLong => "Achievement ID is too long, must be <= 50 chars"@,
            ErrorCode::NotOwner => "Not the owner of this NFT"@,
            ErrorCode::MissingSignature => "The authorizing identity did not sign"@,
            ErrorCode::AlreadyInitialized => "The authority record already exists"@,
            ErrorCode::NotInitialized => "The authority record does not exist yet"@,
            ErrorCode::RecordAlreadyExists => "A record already lives at the badge address"@,
            ErrorCode::RecordNotFound => "No record lives at the address"@,
            ErrorCode::WrongRecordType => "The record has another shape"@,
            ErrorCode::AddressMismatch => "The account is not the one that the seeds derive"@,
            ErrorCode::ProofMismatch => "The stored proof is not the one that the seeds derive"@,
            ErrorCode::SeedLimitExceeded => "Too many seeds, or a seed is too long"@,
            ErrorCode::NoViableAddress => "No viable address for these seeds"@,
        }
    }

    /// A sentence for the caller that says why the transition was refused.
    pub fn message(&self) -> (text: &'static str)
        ensures
            text@ == self.message_of(),
    {
        match self {
            ErrorCode::NameTooLong => "Name is too long, must be <= 32 chars",
            ErrorCode::DescriptionTooLong => "Description is too long, must be <= 200 chars",
            ErrorCode::RarityTooLong => "Rarity is too long, must be <= 20 chars",
            ErrorCode::InvalidUnlockPercentage => "Unlock percentage must be between 0 and 100",
            ErrorCode::AchievementIdTooLong => "Achievement ID is too long, must be <= 50 chars",
            ErrorCode::NotOwner => "Not the owner of this NFT",
            ErrorCode::MissingSignature => "The authorizing identity did not sign",
            ErrorCode::AlreadyInitialized => "The authority record already exists",
            ErrorCode::NotInitialized => "The authority record does not exist yet",
            ErrorCode::RecordAlreadyExists => "A record already lives at the badge address",
            ErrorCode::RecordNotFound => "No record lives at the address",
            ErrorCode::WrongRecordType => "The record has another shape",
            ErrorCode::AddressMismatch => "The account is not the one that the seeds derive",
            ErrorCode::ProofMismatch => "The stored proof is not the one that the seeds derive",
            ErrorCode::SeedLimitExceeded => "Too many seeds, or a seed is too long",
            ErrorCode::NoViableAddress => "No viable address for these seeds",
        }
    }
}

} // verus!
