//! What holds of every deployment, whatever the instructions and whatever
//! the collaborators answer.

use crate::accounts::{Deposit, Transfer};
use crate::address::{vault_address, Address, ProgramAddress};
use crate::error::Failure;
use crate::processor::{after_deposit, after_initialize};
use crate::state::ManagerState;
use vstd::prelude::*;

verus! {

/// A deposit that succeeds leaves the mint with its vault, at the address
/// that the vault seeds and the mint give and under the authority record.
/// Where the mint had none, that is the one record added; a further deposit
/// for the same mint, however it ends, adds no other.
pub proof fn lemma_one_vault_for_each_mint<E>(
    s: ManagerState,
    first: Deposit,
    first_amount: u64,
    first_creation: Result<(), E>,
    first_transfer: Result<(), E>,
    second: Deposit,
    second_amount: u64,
    second_creation: Result<(), E>,
    second_transfer: Result<(), E>,
)
    requires
        s.valid(),
        first.mint_account == second.mint_account,
        after_deposit(s, first, first_amount, first_creation, first_transfer).2 is Ok,
    ensures
        ({
            let mint = first.mint_account;
            let s1 = after_deposit(s, first, first_amount, first_creation, first_transfer).0;
            let s2 = after_deposit(s1, second, second_amount, second_creation, second_transfer).0;
            &&& s1.vault(mint) matches Some(record) && record.mint == mint && record.authority
                == s.authority.address && vault_address(s.program_id, mint) == Some(
                ProgramAddress { address: record.address, bump: record.bump },
            )
            &&& s1.vaults.dom() == s.vaults.dom().insert(mint)
            &&& !s.has_vault(mint) ==> s1.vaults.dom().len() == s.vaults.dom().len() + 1
            &&& s.has_vault(mint) ==> s1.vaults.dom().len() == s.vaults.dom().len()
            &&& s2.vaults.dom() == s1.vaults.dom()
            &&& s2.vaults.dom().len() == s1.vaults.dom().len()
            &&& s2.vaults[mint].address == s1.vaults[mint].address
        }),
{
    let mint = first.mint_account;
    let s1 = after_deposit(s, first, first_amount, first_creation, first_transfer).0;
    let s2 = after_deposit(s1, second, second_amount, second_creation, second_transfer).0;
    assert(s.has_vault(mint) ==> s.vaults.dom().insert(mint) =~= s.vaults.dom());
    assert(s1.has_vault(mint));
    assert(s2.vaults.dom() =~= s1.vaults.dom());
}

/// A deposit of more than the sender holds fails with `InsufficientFunds`
/// and changes neither the sender's account nor any vault. This is so
/// wherever the deposit gets as far as the balance: the vault has an address,
/// and it exists or can be created.
pub proof fn lemma_insufficient_funds_change_nothing<E>(
    s: ManagerState,
    ctx: Deposit,
    amount: u64,
    creation: Result<(), E>,
    transfer: Result<(), E>,
)
    requires
        amount > ctx.sender_token_account.amount,
        vault_address(s.program_id, ctx.mint_account) is Some,
        s.has_vault(ctx.mint_account) || creation is Ok,
    ensures
        after_deposit(s, ctx, amount, creation, transfer) == (
            s,
            ctx,
            Err::<Transfer, Failure<E>>(Failure::InsufficientFunds),
        ),
{
}

/// A deposit that fails, for whatever reason, changes nothing.
pub proof fn lemma_failure_changes_nothing<E>(
    s: ManagerState,
    ctx: Deposit,
    amount: u64,
    creation: Result<(), E>,
    transfer: Result<(), E>,
)
    requires
        after_deposit(s, ctx, amount, creation, transfer).2 is Err,
    ensures
        after_deposit(s, ctx, amount, creation, transfer).0 == s,
        after_deposit(s, ctx, amount, creation, transfer).1 == ctx,
{
}

/// A deposit that succeeds takes exactly `amount` from the sender and adds
/// exactly `amount` to the vault of the mint: what the two hold together is
/// what they held before. No other vault and nothing else of the sender's
/// account changes.
pub proof fn lemma_deposit_conserves<E>(
    s: ManagerState,
    ctx: Deposit,
    amount: u64,
    creation: Result<(), E>,
    transfer: Result<(), E>,
)
    requires
        after_deposit(s, ctx, amount, creation, transfer).2 is Ok,
        s.balance(ctx.mint_account) + amount <= u64::MAX,
    ensures
        ({
            let mint = ctx.mint_account;
            let (s1, ctx1, _) = after_deposit(s, ctx, amount, creation, transfer);
            &&& amount <= ctx.sender_token_account.amount
            &&& ctx1.sender_token_account.amount == ctx.sender_token_account.amount - amount
            &&& s1.balance(mint) == s.balance(mint) + amount
            &&& ctx1.sender_token_account.amount + s1.balance(mint)
                == ctx.sender_token_account.amount + s.balance(mint)
            &&& forall|other: Address| other != mint ==> s1.vault(other) == s.vault(other)
            &&& ctx1 == ctx.debited(amount)
            &&& after_deposit(s, ctx, amount, creation, transfer).2 matches Ok(made) && made.amount
                == amount && made.from == ctx.sender_token_account.address && made.authority
                == ctx.signer
        }),
{
}

/// `initialize` may be called again: once it has succeeded, a further call
/// succeeds whatever the collaborator would answer, and changes nothing.
pub proof fn lemma_initialize_is_idempotent<E>(
    s: ManagerState,
    first: Result<(), E>,
    second: Result<(), E>,
)
    requires
        after_initialize(s, first).1 is Ok,
    ensures
        ({
            let s1 = after_initialize(s, first).0;
            &&& s1.authority.exists
            &&& s1.authority.address == s.authority.address
            &&& s1.vaults == s.vaults
            &&& after_initialize(s1, second) == (s1, Ok::<(), Failure<E>>(()))
        }),
{
}

/// Valid records stay valid: neither instruction, however it ends, moves a
/// record from where its seeds put it or hands a vault to another authority.
pub proof fn lemma_validity_is_kept<E>(
    s: ManagerState,
    ctx: Deposit,
    amount: u64,
    creation: Result<(), E>,
    transfer: Result<(), E>,
)
    requires
        s.valid(),
    ensures
        after_initialize(s, creation).0.valid(),
        after_deposit(s, ctx, amount, creation, transfer).0.valid(),
{
    let s0 = after_initialize(s, creation).0;
    assert forall|mint: Address| #[trigger] s0.has_vault(mint) implies s.has_vault(mint) by {}
    let s1 = after_deposit(s, ctx, amount, creation, transfer).0;
    assert forall|mint: Address| #[trigger] s1.has_vault(mint) implies mint == ctx.mint_account
        || s.has_vault(mint) by {}
}

/// Nothing is ever taken back: a record that exists keeps existing, the
/// authority record stays as it was created, and, where the vault's new
/// balance fits, no vault holds less after an instruction than before.
pub proof fn lemma_records_are_kept<E>(
    s: ManagerState,
    ctx: Deposit,
    amount: u64,
    creation: Result<(), E>,
    transfer: Result<(), E>,
)
    requires
        s.balance(ctx.mint_account) + amount <= u64::MAX,
    ensures
        ({
            let s1 = after_initialize(s, creation).0;
            let s2 = after_deposit(s, ctx, amount, creation, transfer).0;
            &&& s.authority.exists ==> s1.authority == s.authority
            &&& s1.vaults == s.vaults
            &&& s2.authority == s.authority
            &&& forall|mint: Address| #[trigger]
                s.has_vault(mint) ==> s2.has_vault(mint) && s2.balance(mint) >= s.balance(mint)
                    && s2.vaults[mint].address == s.vaults[mint].address
        }),
{
}

} // verus!
