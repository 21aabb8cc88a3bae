//! Taking value out of a vault.

use vstd::prelude::*;
use crate::account::{UserAccount, VaultAccount, VaultState};
use crate::address::{Address, address_view};
use crate::error::VaultError;

verus! {

/// What `withdraw` works on: the caller, who is paid, and the vault account
/// that pays.
#[derive(Clone, Copy, Debug, PartialEq, Eq)]
pub struct Withdraw {
    /// The program under which vault addresses are derived.
    pub program_id: Address,
    /// The caller.
    pub user: UserAccount,
    /// The vault account that the caller refers to.
    pub vault: VaultAccount,
    /// The least value that the host lets a vault account hold.
    pub min_reserve: u64,
}

impl Withdraw {
    /// The caller and the vault together hold no more than a balance can
    /// express.
    pub open spec fn well_formed(self) -> bool {
        self.user.lamports + self.vault.lamports() <= u64::MAX
    }

    /// Whether the caller and the vault together hold no more than a balance
    /// can express.
    pub fn is_well_formed(&self) -> (ok: bool)
        ensures
            ok == self.well_formed(),
    {
        self.vault.lamports() <= u64::MAX - self.user.lamports
    }

    /// How `withdraw` ends when the vault's record recomputes to `rederived`.
    ///
    /// The vault must exist at the address its record recomputes to, the
    /// caller must be its owner, and the amount must not exceed what the
    /// vault holds above the reserve.
    pub open spec fn outcome_given(self, rederived: Option<Seq<u8>>, amount: u64) -> Result<
        (),
        VaultError,
    > {
        match self.vault.authenticated(rederived) {
            Err(e) => Err(e),
            Ok(record) => if record.owner != self.user.key {
                Err(VaultError::Unauthorized)
            } else if amount > self.vault.withdrawable(self.min_reserve) {
                Err(VaultError::InsufficientFunds)
            } else {
                Ok(())
            },
        }
    }

    /// The accounts after `withdraw`, when the vault's record recomputes to
    /// `rederived`: on success `amount` has moved from the vault to the
    /// caller; on failure nothing has changed.
    pub open spec fn after_given(self, rederived: Option<Seq<u8>>, amount: u64) -> Withdraw {
        if self.outcome_given(rederived, amount) is Ok {
            Withdraw {
                user: UserAccount {
                    key: self.user.key,
                    lamports: (self.user.lamports + amount) as u64,
                },
                vault: self.vault.holding((self.vault.lamports() - amount) as u64),
                ..self
            }
        } else {
            self
        }
    }

    /// How `withdraw` ends.
    pub open spec fn outcome(self, amount: u64) -> Result<(), VaultError> {
        self.outcome_given(self.vault.rederivation(self.program_id), amount)
    }

    /// The accounts after `withdraw`.
    pub open spec fn after(self, amount: u64) -> Withdraw {
        self.after_given(self.vault.rederivation(self.program_id), amount)
    }
}

/// Moves `amount` from the vault to the caller, given the address that the
/// vault's record recomputes to.
pub fn withdraw_with_derivation(ctx: &mut Withdraw, rederived: Option<Address>, amount: u64) -> (r:
    Result<(), VaultError>)
    requires
        old(ctx).well_formed(),
    ensures
        r == old(ctx).outcome_given(address_view(rederived), amount),
        *final(ctx) == old(ctx).after_given(address_view(rederived), amount),
{
    let record = match ctx.vault.authenticate(rederived) {
        Ok(record) => record,
        Err(e) => {
            return Err(e);
        },
    };
    if !(record.owner == ctx.user.key) {
        return Err(VaultError::Unauthorized);
    }
    if amount > ctx.vault.withdrawable(ctx.min_reserve) {
        return Err(VaultError::InsufficientFunds);
    }
    let held = ctx.vault.lamports();
    ctx.vault.state = VaultState::Active { record, lamports: held - amount };
    ctx.user.lamports = ctx.user.lamports + amount;
    Ok(())
}

/// Moves `amount` from the vault to the caller, who must own the vault. The
/// reserve stays in the vault.
///
/// Fails with `VaultNotFound` where no vault exists in the account, with
/// `InvalidVaultAddress` where the account is not at the address its record
/// recomputes to, with `Unauthorized` where the caller is not the owner, and
/// with `InsufficientFunds` where `amount` exceeds what the vault holds above
/// the reserve. It succeeds in every other case: the vault then holds exactly
/// `amount` less and the caller `amount` more.
pub fn withdraw(ctx: &mut Withdraw, amount: u64) -> (r: Result<(), VaultError>)
    requires
        old(ctx).well_formed(),
    ensures
        r == old(ctx).outcome(amount),
        *final(ctx) == old(ctx).after(amount),
        old(ctx).vault.is_valid(old(ctx).program_id) && old(ctx).vault.state->record.owner != old(
            ctx,
        ).user.key ==> r == Err::<(), VaultError>(VaultError::Unauthorized),
        old(ctx).vault.is_valid(old(ctx).program_id) && old(ctx).vault.state->record.owner == old(
            ctx,
        ).user.key ==> (r is Ok <==> amount <= old(ctx).vault.withdrawable(old(ctx).min_reserve)),
        old(ctx).vault.is_valid(old(ctx).program_id) && old(ctx).vault.state->record.owner == old(
            ctx,
        ).user.key && r is Err ==> r == Err::<(), VaultError>(VaultError::InsufficientFunds),
        r is Ok ==> final(ctx).vault.lamports() == old(ctx).vault.lamports() - amount,
        r is Ok ==> final(ctx).user.lamports == old(ctx).user.lamports + amount,
        r is Ok ==> final(ctx).vault.state->record == old(ctx).vault.state->record,
        r is Err ==> *final(ctx) == *old(ctx),
        old(ctx).vault.lamports() >= old(ctx).min_reserve ==> final(ctx).vault.lamports() >= old(
            ctx,
        ).min_reserve,
        final(ctx).user.lamports + final(ctx).vault.lamports() == old(ctx).user.lamports + old(
            ctx,
        ).vault.lamports(),
{
    let rederived = ctx.vault.rederive(&ctx.program_id);
    withdraw_with_derivation(ctx, rederived, amount)
}

} // verus!
