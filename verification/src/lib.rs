//! Builders for the instructions a client sends to a staking pool: each one
//! assembles the account list in the order the pool program expects and
//! serializes the request payload in the pool schema's wire format, and each
//! is verified to produce exactly that list and those bytes.

pub mod account;
mod encode;
pub mod instruction;
pub mod pubkey;
pub mod request;

pub use account::AccountMeta;
pub use instruction::Instruction;
pub use instruction::get_basket;
pub use instruction::initialize;
pub use instruction::transact;
pub use pubkey::Pubkey;
pub use request::PoolAction;
