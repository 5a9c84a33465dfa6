//! The records the program keeps and the accounts an instruction is handed.

use crate::address::{Address, ProgramAddress};
use vstd::prelude::*;

verus! {

/// A token-holding account as the token service shows it.
#[derive(Clone, Copy, Debug, PartialEq, Eq)]
pub struct TokenAccount {
    pub address: Address,
    pub mint: Address,
    pub owner: Address,
    pub amount: u64,
}

/// The program-controlled authority over every vault. It holds no funds and
/// no data: only whether it has been created.
#[derive(Clone, Copy, Debug, PartialEq, Eq)]
pub struct AuthorityRecord {
    pub address: Address,
    pub bump: u8,
    pub exists: bool,
}

/// The token-holding account that keeps the deposits of one mint.
#[derive(Clone, Copy, Debug, PartialEq, Eq)]
pub struct VaultRecord {
    pub address: Address,
    pub bump: u8,
    pub mint: Address,
    pub authority: Address,
    pub amount: u64,
}

impl VaultRecord {
    /// The empty vault for `mint` at `place`, under `authority`.
    pub open spec fn opened(place: ProgramAddress, mint: Address, authority: Address) -> VaultRecord {
        VaultRecord { address: place.address, bump: place.bump, mint, authority, amount: 0 }
    }

    /// This vault with `amount` more in it.
    pub open spec fn credited(self, amount: u64) -> VaultRecord {
        VaultRecord { amount: (self.amount + amount) as u64, ..self }
    }
}

/// The accounts of an `initialize` instruction.
#[derive(Clone, Copy, Debug, PartialEq, Eq)]
pub struct Initialize {
    /// Who asks, and pays for what has to be created.
    pub signer: Address,
}

/// The accounts of a `deposit` instruction.
#[derive(Clone, Copy, Debug, PartialEq, Eq)]
pub struct Deposit {
    /// Who asks: authorizes the debit and pays for what has to be created.
    pub signer: Address,
    /// The mint whose vault receives the deposit.
    pub mint_account: Address,
    /// The account the deposit is taken from.
    pub sender_token_account: TokenAccount,
}

impl Deposit {
    /// These accounts after `amount` has left the sender's account.
    pub open spec fn debited(self, amount: u64) -> Deposit {
        Deposit {
            sender_token_account: TokenAccount {
                amount: (self.sender_token_account.amount - amount) as u64,
                ..self.sender_token_account
            },
            ..self
        }
    }
}

/// A transfer that the token service is asked to make.
#[derive(Clone, Copy, Debug, PartialEq, Eq)]
pub struct Transfer {
    pub from: Address,
    pub to: Address,
    pub authority: Address,
    pub amount: u64,
}

} // verus!
