//! The failures an instruction can end in.

use vstd::prelude::*;

verus! {

/// The failure that the program itself detects.
#[derive(Clone, Copy, Debug, PartialEq, Eq, Structural)]
pub enum VaultError {
    /// The sender's balance is below the amount to deposit.
    InsufficientFunds,
}

impl VaultError {
    /// The text shown to the caller.
    pub fn message(&self) -> (r: String)
        ensures
            r@ == "Insufficient Funds in Wallet!"@,
    {
        "Insufficient Funds in Wallet!".to_owned()
    }
}

/// Why an instruction failed. `E` is whatever a collaborator reports when it
/// refuses a request; it is handed on as it came.
#[derive(Debug, PartialEq, Eq)]
pub enum Failure<E> {
    /// The sender's balance is below the amount to deposit.
    InsufficientFunds,
    /// The token service refused the transfer.
    TransferFailure(E),
    /// An account that the instruction needs could not be created.
    AccountCreationFailure(E),
    /// The seeds of an account give no program address.
    NoProgramAddress,
}

} // verus!
