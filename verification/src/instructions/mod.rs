pub mod burn_nft;
pub mod initialize;
pub mod mint_nft;
pub mod transfer_nft;
