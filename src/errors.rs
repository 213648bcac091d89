use vstd::prelude::*;

verus! {

/// Why a staking operation was refused.
#[derive(Debug, Clone, Copy, PartialEq, Eq, Structural)]
pub enum StakingError {
    RewarderNotMintAuthority,
    InvalidRewarderAuthority,
    InvalidRewarder,
    InvalidOwnerForStakeAccount,
    InvalidRewardMint,
    NFTWhitelisted,
    InvalidOwnerForRewardToken,
    InvalidRewardTokenAccount,
    InvalidNFTMintSupply,
    InvalidNFTOwner,
    InvalidNFTAccountMint,
    NFTAccountEmpty,
    NFTAUnlocked,
    InvalidStakedNFTOwner,
    MetadataAccountNotFound,
    MetadataAccountNotOwnedByCorrectProgram,
    InvalidMetadataAccountData,
    InvalidMetadataAccountAddress,
    InvalidMetadataUpdateAuthority,
    InvalidMetadataCollectionPrefix,
    InvalidMetadataCreators,
    /// A reward balance or a tier count would leave its integer range.
    ArithmeticOverflow,
}

/// The message shown for each error.
pub open spec fn error_message(e: StakingError) -> &'static str {
    match e {
            StakingError::RewarderNotMintAuthority => "The provided reward mint doesn't have the correct minting authority",
            StakingError::InvalidRewarderAuthority => "The provided authority is not valid for the rewarder",
            StakingError::InvalidRewarder => "The provided rewarder does not match the stake account",
            StakingError::InvalidOwnerForStakeAccount => "The provided owner does not own the stake account",
            StakingError::InvalidRewardMint => "The provided Mint is not valid for the provided Rewarder",
            StakingError::NFTWhitelisted => "NFT is not whitelist",
            StakingError::InvalidOwnerForRewardToken => "The provided reward token account is not owned by the provided owner",
            StakingError::InvalidRewardTokenAccount => "The provided reward token account is not for the reward token mint",
            StakingError::InvalidNFTMintSupply => "The provided NFT Mint has a supply that isn't 1",
            StakingError::InvalidNFTOwner => "The provided NFT token account is not owned by the provided owner",
            StakingError::InvalidNFTAccountMint => "The provided NFT token account is not for the NFT mint",
            StakingError::NFTAccountEmpty => "The provided NFT token account does not have the token",
            StakingError::NFTAUnlocked => "This NFT is locked",
            StakingError::InvalidStakedNFTOwner => "The provided NFT token account is not owned by the provided stake account",
            StakingError::MetadataAccountNotFound => "There was no Metaplex Metadata account supplied",
            StakingError::MetadataAccountNotOwnedByCorrectProgram => "The Metaplex Metadata account is not owned by the Metaplex Token Metadata program",
            StakingError::InvalidMetadataAccountData => "The Metaplex Metadata account failed to deserialze",
            StakingError::InvalidMetadataAccountAddress => "The Metaplex Metadata account did not have the expected PDA seeds",
            StakingError::InvalidMetadataUpdateAuthority => "The Metaplex Metadata account did not have the expected update authority",
            StakingError::InvalidMetadataCollectionPrefix => "The Metaplex Metadata account did not have a name beginning with the collection",
            StakingError::InvalidMetadataCreators => "The Metaplex Metadata account did not have the expected creators",
            StakingError::ArithmeticOverflow => "A reward balance or a stake count overflowed",
    }
}

impl StakingError {
    /// The message shown for this error.
    pub fn message(&self) -> (r: &'static str)
        ensures
            r == error_message(*self),
    {
        match self {
            StakingError::RewarderNotMintAuthority => "The provided reward mint doesn't have the correct minting authority",
            StakingError::InvalidRewarderAuthority => "The provided authority is not valid for the rewarder",
            StakingError::InvalidRewarder => "The provided rewarder does not match the stake account",
            StakingError::InvalidOwnerForStakeAccount => "The provided owner does not own the stake account",
            StakingError::InvalidRewardMint => "The provided Mint is not valid for the provided Rewarder",
            StakingError::NFTWhitelisted => "NFT is not whitelist",
            StakingError::InvalidOwnerForRewardToken => "The provided reward token account is not owned by the provided owner",
            StakingError::InvalidRewardTokenAccount => "The provided reward token account is not for the reward token mint",
            StakingError::InvalidNFTMintSupply => "The provided NFT Mint has a supply that isn't 1",
            StakingError::InvalidNFTOwner => "The provided NFT token account is not owned by the provided owner",
            StakingError::InvalidNFTAccountMint => "The provided NFT token account is not for the NFT mint",
            StakingError::NFTAccountEmpty => "The provided NFT token account does not have the token",
            StakingError::NFTAUnlocked => "This NFT is locked",
            StakingError::InvalidStakedNFTOwner => "The provided NFT token account is not owned by the provided stake account",
            StakingError::MetadataAccountNotFound => "There was no Metaplex Metadata account supplied",
            StakingError::MetadataAccountNotOwnedByCorrectProgram => "The Metaplex Metadata account is not owned by the Metaplex Token Metadata program",
            StakingError::InvalidMetadataAccountData => "The Metaplex Metadata account failed to deserialze",
            StakingError::InvalidMetadataAccountAddress => "The Metaplex Metadata account did not have the expected PDA seeds",
            StakingError::InvalidMetadataUpdateAuthority => "The Metaplex Metadata account did not have the expected update authority",
            StakingError::InvalidMetadataCollectionPrefix => "The Metaplex Metadata account did not have a name beginning with the collection",
            StakingError::InvalidMetadataCreators => "The Metaplex Metadata account did not have the expected creators",
            StakingError::ArithmeticOverflow => "A reward balance or a stake count overflowed",
        }
    }
}

} // verus!
