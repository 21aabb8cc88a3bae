//! Paying into a vault.

use vstd::prelude::*;
use crate::account::{transfer, transfer_outcome, UserAccount, VaultAccount, VaultState};
use crate::address::{Address, address_view};
use crate::error::VaultError;

verus! {

/// What `deposit` works on: the caller, who pays, and the vault account that
/// is paid into. The caller need not own the vault.
#[derive(Clone, Copy, Debug, PartialEq, Eq)]
pub struct Deposit {
    /// The program under which vault addresses are derived.
    pub program_id: Address,
    /// The caller.
    pub user: UserAccount,
    /// The vault account that the caller refers to.
    pub vault: VaultAccount,
}

impl Deposit {
    /// The caller and the vault together hold no more than a balance can
    /// express.
    pub open spec fn well_formed(self) -> bool {
        self.user.lamports + self.vault.lamports() <= u64::MAX
    }

    /// Whether the caller and the vault together hold no more than a balance
    /// can express.
    pub fn is_well_formed(&self) -> (ok: bool)
        ensures
            ok == self.well_formed(),
    {
        self.vault.lamports() <= u64::MAX - self.user.lamports
    }

    /// How `deposit` ends when the vault's record recomputes to `rederived`.
    ///
    /// The vault must exist at the address its record recomputes to. Then
    /// the transfer decides, and its failure is passed on as it is.
    pub open spec fn outcome_given(self, rederived: Option<Seq<u8>>, amount: u64) -> Result<
        (),
        VaultError,
    > {
        match self.vault.authenticated(rederived) {
            Err(e) => Err(e),
            Ok(_) => match transfer_outcome(self.user.lamports, amount) {
                Err(e) => Err(VaultError::Transfer(e)),
                Ok(_) => Ok(()),
            },
        }
    }

    /// The accounts after `deposit`, when the vault's record recomputes to
    /// `rederived`: on success `amount` has moved from the caller to the
    /// vault; on failure nothing has changed.
    pub open spec fn after_given(self, rederived: Option<Seq<u8>>, amount: u64) -> Deposit {
        if self.outcome_given(rederived, amount) is Ok {
            Deposit {
                user: UserAccount {
                    key: self.user.key,
                    lamports: (self.user.lamports - amount) as u64,
                },
                vault: self.vault.holding((self.vault.lamports() + amount) as u64),
                ..self
            }
        } else {
            self
        }
    }

    /// How `deposit` ends.
    pub open spec fn outcome(self, amount: u64) -> Result<(), VaultError> {
        self.outcome_given(self.vault.rederivation(self.program_id), amount)
    }

    /// The accounts after `deposit`.
    pub open spec fn after(self, amount: u64) -> Deposit {
        self.after_given(self.vault.rederivation(self.program_id), amount)
    }
}

/// Moves `amount` from the caller into the vault, given the address that the
/// vault's record recomputes to.
pub fn deposit_with_derivation(ctx: &mut Deposit, rederived: Option<Address>, amount: u64) -> (r: Result<
    (),
    VaultError,
>)
    requires
        old(ctx).well_formed(),
    ensures
        r == old(ctx).outcome_given(address_view(rederived), amount),
        *final(ctx) == old(ctx).after_given(address_view(rederived), amount),
{
    let record = match ctx.vault.authenticate(rederived) {
        Ok(record) => record,
        Err(e) => {
            return Err(e);
        },
    };
    match transfer(ctx.user.lamports, ctx.vault.lamports(), amount) {
        Ok((user_lamports, vault_lamports)) => {
            ctx.user.lamports = user_lamports;
            ctx.vault.state = VaultState::Active { record, lamports: vault_lamports };
            Ok(())
        },
        Err(e) => Err(VaultError::Transfer(e)),
    }
}

/// Moves `amount` from the caller into the vault. Any caller may pay into
/// any vault.
///
/// Fails with `VaultNotFound` where no vault exists in the account, with
/// `InvalidVaultAddress` where the account is not at the address its record
/// recomputes to, and with the transfer's own failure where the amount is
/// zero or more than the caller holds. It succeeds in every other case: the
/// vault then holds exactly `amount` more and the caller `amount` less. What
/// the two hold together never changes.
pub fn deposit(ctx: &mut Deposit, amount: u64) -> (r: Result<(), VaultError>)
    requires
        old(ctx).well_formed(),
    ensures
        r == old(ctx).outcome(amount),
        *final(ctx) == old(ctx).after(amount),
        r is Ok <==> old(ctx).vault.is_valid(old(ctx).program_id) && 0 < amount <= old(
            ctx,
        ).user.lamports,
        r is Ok ==> final(ctx).vault.lamports() == old(ctx).vault.lamports() + amount,
        r is Ok ==> final(ctx).user.lamports == old(ctx).user.lamports - amount,
        r is Ok ==> final(ctx).vault.state->record == old(ctx).vault.state->record,
        r is Err ==> *final(ctx) == *old(ctx),
        final(ctx).user.lamports + final(ctx).vault.lamports() == old(ctx).user.lamports + old(
            ctx,
        ).vault.lamports(),
{
    let rederived = ctx.vault.rederive(&ctx.program_id);
    deposit_with_derivation(ctx, rederived, amount)
}

} // verus!
