//! What holds of the operations taken together.

use vstd::prelude::*;
use crate::account::{UserAccount, VaultAccount};
use crate::address::Address;
use crate::close::Close;
use crate::deposit::Deposit;
use crate::derivation::derived_vault_address;
use crate::error::VaultError;
use crate::initialize::Initialize;
use crate::withdraw::Withdraw;

verus! {

/// Whether the account is at the address that is derived for `owner` under
/// `program_id`. Every vault that `initialize` creates is.
pub open spec fn derived_for(vault: VaultAccount, owner: Address, program_id: Address) -> bool {
    derived_vault_address(owner@, program_id@) matches Some((address, _)) && address == vault.key@
}

/// A vault is created once: after `initialize` has succeeded for an owner, a
/// second `initialize` for the same owner on the same vault account fails
/// with `AlreadyInitialized` and changes nothing, whatever the owner then
/// holds and whatever the reserve then is.
pub proof fn initialize_twice(first: Initialize, second: Initialize)
    requires
        first.outcome() is Ok,
        second.program_id == first.program_id,
        second.user.key == first.user.key,
        second.vault == first.after().vault,
    ensures
        second.outcome() == Err::<(), VaultError>(VaultError::AlreadyInitialized),
        second.after() == second,
{
}

/// A vault that `initialize` has created is at the address derived for its
/// owner, and is owned by the caller of `initialize`.
pub proof fn initialize_creates_at_derived_address(ctx: Initialize)
    requires
        ctx.outcome() is Ok,
    ensures
        ctx.after().vault.is_active(),
        ctx.after().vault.key == ctx.vault.key,
        ctx.after().vault.state->record.owner == ctx.user.key,
        derived_for(ctx.after().vault, ctx.user.key, ctx.program_id),
{
}

/// What `initialize` works on when it follows `close` at once: the caller and
/// the vault account as `close` has left them.
pub open spec fn initialize_after_close(ctx: Close, min_reserve: u64) -> Initialize {
    Initialize {
        program_id: ctx.program_id,
        user: ctx.after().user,
        vault: ctx.after().vault,
        min_reserve,
    }
}

/// A closed vault can be created afresh: once `close` has succeeded on a
/// vault at the address derived for its owner, `initialize` for the same
/// owner succeeds, provided the owner can then pay the reserve. The new vault
/// holds the reserve and nothing above it.
pub proof fn close_then_initialize(ctx: Close, min_reserve: u64)
    requires
        ctx.well_formed(),
        ctx.outcome() is Ok,
        derived_for(ctx.vault, ctx.user.key, ctx.program_id),
        ctx.user.lamports + ctx.vault.lamports() >= min_reserve,
    ensures
        initialize_after_close(ctx, min_reserve).outcome() is Ok,
        initialize_after_close(ctx, min_reserve).after().vault.is_active(),
        initialize_after_close(ctx, min_reserve).after().vault.state->record.owner == ctx.user.key,
        initialize_after_close(ctx, min_reserve).after().vault.lamports() == min_reserve,
        initialize_after_close(ctx, min_reserve).after().vault.withdrawable(min_reserve) == 0,
{
}

/// After `close` has succeeded no vault exists: `deposit`, `withdraw` and
/// `close` on the account all fail with `VaultNotFound`, whoever calls them,
/// until `initialize` creates the vault again.
pub proof fn closed_vault_is_gone(ctx: Close, deposit: Deposit, withdraw: Withdraw, close: Close, amount: u64)
    requires
        ctx.outcome() is Ok,
        deposit.vault == ctx.after().vault,
        withdraw.vault == ctx.after().vault,
        close.vault == ctx.after().vault,
    ensures
        deposit.outcome(amount) == Err::<(), VaultError>(VaultError::VaultNotFound),
        withdraw.outcome(amount) == Err::<(), VaultError>(VaultError::VaultNotFound),
        close.outcome() == Err::<(), VaultError>(VaultError::VaultNotFound),
{
}

/// A vault is created by `initialize`, lives through `deposit` and
/// `withdraw`, and ends with `close`: an operation that succeeds finds the
/// vault in the state it starts from and leaves it in the state it leads to,
/// and there is no other way from one state to the other.
pub proof fn lifecycle(i: Initialize, d: Deposit, w: Withdraw, c: Close, amount: u64)
    ensures
        i.outcome() is Ok ==> !i.vault.is_active() && i.after().vault.is_active(),
        d.outcome(amount) is Ok ==> d.vault.is_active() && d.after(amount).vault.is_active(),
        w.outcome(amount) is Ok ==> w.vault.is_active() && w.after(amount).vault.is_active(),
        c.outcome() is Ok ==> c.vault.is_active() && !c.after().vault.is_active(),
        i.outcome() is Err ==> i.after() == i,
        d.outcome(amount) is Err ==> d.after(amount) == d,
        w.outcome(amount) is Err ==> w.after(amount) == w,
        c.outcome() is Err ==> c.after() == c,
{
}

/// What is paid in can be taken out by the owner: after `deposit` has put
/// `paid` into a vault that held its reserve, the owner's `withdraw` of
/// `taken` succeeds exactly when `taken` is no more than what could be
/// withdrawn before plus `paid`, and what can be withdrawn afterwards is that
/// sum less `taken`.
pub proof fn deposit_then_withdraw(d: Deposit, w: Withdraw, paid: u64, taken: u64)
    requires
        d.well_formed(),
        w.well_formed(),
        d.outcome(paid) is Ok,
        d.vault.lamports() >= w.min_reserve,
        w.program_id == d.program_id,
        w.vault == d.after(paid).vault,
        w.user.key == w.vault.state->record.owner,
    ensures
        w.outcome(taken) is Ok <==> taken <= d.vault.withdrawable(w.min_reserve) + paid,
        w.outcome(taken) is Ok ==> w.after(taken).vault.withdrawable(w.min_reserve)
            == d.vault.withdrawable(w.min_reserve) + paid - taken,
        w.outcome(taken) is Err ==> w.outcome(taken) == Err::<(), VaultError>(
            VaultError::InsufficientFunds,
        ),
{
}

/// The same deposit made by a caller of another identity who holds as much.
pub open spec fn called_by(ctx: Deposit, other: Address) -> Deposit {
    Deposit { user: UserAccount { key: other, lamports: ctx.user.lamports }, ..ctx }
}

/// Deposits are open to anyone: how `deposit` ends does not depend on who
/// the caller is, only on what the caller holds.
pub proof fn deposit_is_open_to_anyone(ctx: Deposit, other: Address, amount: u64)
    ensures
        called_by(ctx, other).outcome(amount) == ctx.outcome(amount),
{
}

/// Only the owner takes value out: on a vault that exists at the address its
/// record recomputes to, `withdraw` and `close` by any caller who is not the
/// owner fail with `Unauthorized` and change nothing; and wherever either
/// succeeds, the caller is the owner.
pub proof fn only_the_owner_takes_value(w: Withdraw, c: Close, amount: u64)
    ensures
        w.vault.is_valid(w.program_id) && w.user.key != w.vault.state->record.owner ==> w.outcome(
            amount,
        ) == Err::<(), VaultError>(VaultError::Unauthorized) && w.after(amount) == w,
        c.vault.is_valid(c.program_id) && c.user.key != c.vault.state->record.owner ==> c.outcome()
            == Err::<(), VaultError>(VaultError::Unauthorized) && c.after() == c,
        w.outcome(amount) is Ok ==> w.vault.is_active() && w.user.key
            == w.vault.state->record.owner,
        c.outcome() is Ok ==> c.vault.is_active() && c.user.key == c.vault.state->record.owner,
{
}

/// Value is only moved, never made or lost: whatever an operation does and
/// however it ends, the caller and the vault hold together what they held
/// before.
pub proof fn value_is_conserved(i: Initialize, d: Deposit, w: Withdraw, c: Close, amount: u64)
    requires
        d.well_formed(),
        w.well_formed(),
        c.well_formed(),
    ensures
        i.after().user.lamports + i.after().vault.lamports() == i.user.lamports + i.vault.lamports(),
        d.after(amount).user.lamports + d.after(amount).vault.lamports() == d.user.lamports
            + d.vault.lamports(),
        w.after(amount).user.lamports + w.after(amount).vault.lamports() == w.user.lamports
            + w.vault.lamports(),
        c.after().user.lamports + c.after().vault.lamports() == c.user.lamports + c.vault.lamports(),
{
}

/// The owner and the bump of a vault are set when it is created and never
/// again: `deposit` and `withdraw` leave the vault's record and address as
/// they are, however they end.
pub proof fn record_is_immutable(d: Deposit, w: Withdraw, amount: u64)
    ensures
        d.after(amount).vault.key == d.vault.key,
        d.vault.is_active() ==> d.after(amount).vault.is_active() && d.after(
            amount,
        ).vault.state->record == d.vault.state->record,
        w.after(amount).vault.key == w.vault.key,
        w.vault.is_active() ==> w.after(amount).vault.is_active() && w.after(
            amount,
        ).vault.state->record == w.vault.state->record,
{
}

/// The reserve stays in the vault: a vault that holds at least `reserve`
/// still does after `deposit`, and a vault that holds at least the reserve
/// of a `withdraw` still does after it, however either ends.
pub proof fn reserve_is_kept(d: Deposit, w: Withdraw, amount: u64, reserve: u64)
    requires
        d.well_formed(),
        w.well_formed(),
        d.vault.lamports() >= reserve,
        w.vault.lamports() >= w.min_reserve,
    ensures
        d.after(amount).vault.lamports() >= reserve,
        w.after(amount).vault.lamports() >= w.min_reserve,
{
}

} // verus!
