//! The two instructions. Each is decided here; what only a collaborator can
//! do (create an account, move tokens) is asked of it by the caller, and the
//! collaborator's answer is an argument.

use crate::accounts::{Deposit, Initialize, Transfer};
use crate::address::{find_vault_address, vault_address, Address};
use crate::error::{Failure, VaultError};
use crate::state::{ManagerState, VaultManager};
use vstd::prelude::*;

verus! {

/// The transfer that a deposit of `amount` asks of the token service: from
/// the sender's account to the vault, authorized by the depositing signer.
/// There is none where the sender holds less than `amount`.
pub open spec fn transfer_request(
    ctx: Deposit,
    vault: Address,
    amount: u64,
) -> Result<Transfer, VaultError> {
    if ctx.sender_token_account.amount < amount {
        Err(VaultError::InsufficientFunds)
    } else {
        Ok(
            Transfer {
                from: ctx.sender_token_account.address,
                to: vault,
                authority: ctx.signer,
                amount,
            },
        )
    }
}

/// Checks the sender's balance against `amount` and, where it suffices,
/// gives the transfer to ask of the token service.
pub fn authorize_transfer(
    ctx: &Deposit,
    vault: &Address,
    amount: u64,
) -> (r: Result<Transfer, VaultError>)
    ensures
        r == transfer_request(*ctx, *vault, amount),
{
    if ctx.sender_token_account.amount < amount {
        return Err(VaultError::InsufficientFunds);
    }
    Ok(
        Transfer {
            from: ctx.sender_token_account.address,
            to: *vault,
            authority: ctx.signer,
            amount,
        },
    )
}

/// What `initialize` makes of the deployment `s` and how it ends, where
/// `creation` is the answer to a request to create the authority record.
pub open spec fn after_initialize<E>(
    s: ManagerState,
    creation: Result<(), E>,
) -> (ManagerState, Result<(), Failure<E>>) {
    if s.authority.exists {
        (s, Ok(()))
    } else {
        match creation {
            Ok(_) => (s.initialized(), Ok(())),
            Err(e) => (s, Err(Failure::AccountCreationFailure(e))),
        }
    }
}

/// Creates the authority record unless it exists. `creation` is what the
/// request to create it is answered with; it is not asked where the record
/// exists. The signer in `ctx` pays for the creation and is not recorded.
#[allow(unused_variables)]
pub fn initialize<E>(
    state: &mut VaultManager,
    ctx: &Initialize,
    creation: Result<(), E>,
) -> (r: Result<(), Failure<E>>)
    ensures
        (final(state)@, r) == after_initialize(old(state)@, creation),
        final(state)@.valid(),
{
    if state.authority().exists {
        return Ok(());
    }
    match creation {
        Ok(_) => {
            state.create_authority();
            Ok(())
        },
        Err(e) => Err(Failure::AccountCreationFailure(e)),
    }
}

/// Why a deposit fails, if it does. The vault's address is derived first;
/// then the vault is created if the mint has none; then the sender's balance
/// is checked; then the transfer is made.
pub open spec fn deposit_failure<E>(
    s: ManagerState,
    ctx: Deposit,
    amount: u64,
    creation: Result<(), E>,
    transfer: Result<(), E>,
) -> Option<Failure<E>> {
    if vault_address(s.program_id, ctx.mint_account) is None {
        Some(Failure::NoProgramAddress)
    } else if !s.has_vault(ctx.mint_account) && creation is Err {
        Some(Failure::AccountCreationFailure(creation->Err_0))
    } else if ctx.sender_token_account.amount < amount {
        Some(Failure::InsufficientFunds)
    } else if transfer is Err {
        Some(Failure::TransferFailure(transfer->Err_0))
    } else {
        None
    }
}

/// What `deposit` makes of the deployment `s` and of the accounts `ctx`, and
/// how it ends: with the transfer that the token service made, or with the
/// failure. A deposit that fails changes nothing.
pub open spec fn after_deposit<E>(
    s: ManagerState,
    ctx: Deposit,
    amount: u64,
    creation: Result<(), E>,
    transfer: Result<(), E>,
) -> (ManagerState, Deposit, Result<Transfer, Failure<E>>) {
    match deposit_failure(s, ctx, amount, creation, transfer) {
        Some(failure) => (s, ctx, Err(failure)),
        None => {
            let place = vault_address(s.program_id, ctx.mint_account)->Some_0;
            (
                s.credited(ctx.mint_account, place, amount),
                ctx.debited(amount),
                Ok(
                    Transfer {
                        from: ctx.sender_token_account.address,
                        to: place.address,
                        authority: ctx.signer,
                        amount,
                    },
                ),
            )
        },
    }
}

/// Deposits `amount` from the sender's account into the vault of the mint,
/// and gives the transfer that was made. `creation` is what a request to
/// create the vault is answered with, and `transfer` what the token service
/// answers to the transfer; neither is asked where the deposit fails before.
///
/// The token service completes no transfer that the receiving account cannot
/// hold: where `transfer` is `Ok` and the sender's balance suffices, the
/// vault's balance with `amount` added must fit.
pub fn deposit<E>(
    state: &mut VaultManager,
    ctx: &mut Deposit,
    amount: u64,
    creation: Result<(), E>,
    transfer: Result<(), E>,
) -> (r: Result<Transfer, Failure<E>>)
    requires
        transfer is Ok && amount <= old(ctx).sender_token_account.amount
            ==> old(state)@.balance(old(ctx).mint_account) + amount <= u64::MAX,
    ensures
        (final(state)@, *final(ctx), r) == after_deposit(
            old(state)@,
            *old(ctx),
            amount,
            creation,
            transfer,
        ),
        final(state)@.valid(),
{
    let mint = ctx.mint_account;
    let program_id = state.program_id();
    let place = match find_vault_address(&program_id, &mint) {
        Some(place) => place,
        None => {
            return Err(Failure::NoProgramAddress);
        },
    };
    if state.vault(&mint).is_none() {
        if let Err(e) = creation {
            return Err(Failure::AccountCreationFailure(e));
        }
    }
    let request = match authorize_transfer(ctx, &place.address, amount) {
        Ok(request) => request,
        Err(_) => {
            return Err(Failure::InsufficientFunds);
        },
    };
    if let Err(e) = transfer {
        return Err(Failure::TransferFailure(e));
    }
    ctx.sender_token_account.amount = ctx.sender_token_account.amount - request.amount;
    state.credit(mint, place, request.amount);
    Ok(request)
}

} // verus!
