//! A custodial vault manager: token deposits are kept in vault records at
//! addresses derived from fixed seeds, one for each mint, all under a single
//! program-controlled authority record.
//!
//! The library decides; it neither creates accounts nor moves tokens. The
//! caller asks the collaborators for that and hands their answers in.

pub mod accounts;
pub mod address;
pub mod error;
pub mod laws;
pub mod processor;
pub mod state;

pub use accounts::{AuthorityRecord, Deposit, Initialize, TokenAccount, Transfer, VaultRecord};
pub use address::{
    find_authority_address, find_vault_address, Address, ProgramAddress, AUTHORITY_TAG, VAULT_TAG,
};
pub use error::{Failure, VaultError};
pub use processor::{authorize_transfer, deposit, initialize};
pub use state::VaultManager;
