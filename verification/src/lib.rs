pub mod error;
pub mod minter;
pub mod pairs;
pub mod pubkey;
pub mod state;
pub mod token_program;

pub use crate::error::TokenMinterError;
pub use crate::pairs::TokenPairs;
pub use crate::pubkey::Pubkey;
pub use crate::state::{LocalToken, TokenMinter, TokenPair};
