//! Closing a vault.

use vstd::prelude::*;
use crate::account::{UserAccount, VaultAccount, VaultState};
use crate::address::{Address, address_view};
use crate::error::VaultError;

verus! {

/// What `close` works on: the caller, who receives everything the vault
/// holds, and the vault account that ceases to be a vault.
#[derive(Clone, Copy, Debug, PartialEq, Eq)]
pub struct Close {
    /// The program under which vault addresses are derived.
    pub program_id: Address,
    /// The caller.
    pub user: UserAccount,
    /// The vault account that the caller refers to.
    pub vault: VaultAccount,
}

impl Close {
    /// The caller and the vault together hold no more than a balance can
    /// express.
    pub open spec fn well_formed(self) -> bool {
        self.user.lamports + self.vault.lamports() <= u64::MAX
    }

    /// Whether the caller and the vault together hold no more than a balance
    /// can express.
    pub fn is_well_formed(&self) -> (ok: bool)
        ensures
            ok == self.well_formed(),
    {
        self.vault.lamports() <= u64::MAX - self.user.lamports
    }

    /// How `close` ends when the vault's record recomputes to `rederived`.
    ///
    /// The vault must exist at the address its record recomputes to, and the
    /// caller must be its owner.
    pub open spec fn outcome_given(self, rederived: Option<Seq<u8>>) -> Result<(), VaultError> {
        match self.vault.authenticated(rederived) {
            Err(e) => Err(e),
            Ok(record) => if record.owner != self.user.key {
                Err(VaultError::Unauthorized)
            } else {
                Ok(())
            },
        }
    }

    /// The accounts after `close`, when the vault's record recomputes to
    /// `rederived`: on success the caller has received all that the vault
    /// held, the reserve included, and no vault exists in the account; on
    /// failure nothing has changed.
    pub open spec fn after_given(self, rederived: Option<Seq<u8>>) -> Close {
        if self.outcome_given(rederived) is Ok {
            Close {
                user: UserAccount {
                    key: self.user.key,
                    lamports: (self.user.lamports + self.vault.lamports()) as u64,
                },
                vault: self.vault.closed(),
                ..self
            }
        } else {
            self
        }
    }

    /// How `close` ends.
    pub open spec fn outcome(self) -> Result<(), VaultError> {
        self.outcome_given(self.vault.rederivation(self.program_id))
    }

    /// The accounts after `close`.
    pub open spec fn after(self) -> Close {
        self.after_given(self.vault.rederivation(self.program_id))
    }
}

/// Closes the vault and pays all it holds to the caller, given the address
/// that the vault's record recomputes to.
pub fn close_with_derivation(ctx: &mut Close, rederived: Option<Address>) -> (r: Result<(), VaultError>)
    requires
        old(ctx).well_formed(),
    ensures
        r == old(ctx).outcome_given(address_view(rederived)),
        *final(ctx) == old(ctx).after_given(address_view(rederived)),
{
    let record = match ctx.vault.authenticate(rederived) {
        Ok(record) => record,
        Err(e) => {
            return Err(e);
        },
    };
    if !(record.owner == ctx.user.key) {
        return Err(VaultError::Unauthorized);
    }
    ctx.user.lamports = ctx.user.lamports + ctx.vault.lamports();
    ctx.vault.state = VaultState::Uninitialized;
    Ok(())
}

/// Closes the vault and pays all it holds, the reserve included, to the
/// caller, who must own the vault.
///
/// Fails with `VaultNotFound` where no vault exists in the account, with
/// `InvalidVaultAddress` where the account is not at the address its record
/// recomputes to, and with `Unauthorized` where the caller is not the owner.
/// It succeeds in every other case: no vault exists in the account
/// afterwards, and the account holds nothing.
pub fn close(ctx: &mut Close) -> (r: Result<(), VaultError>)
    requires
        old(ctx).well_formed(),
    ensures
        r == old(ctx).outcome(),
        *final(ctx) == old(ctx).after(),
        old(ctx).vault.is_valid(old(ctx).program_id) && old(ctx).vault.state->record.owner != old(
            ctx,
        ).user.key ==> r == Err::<(), VaultError>(VaultError::Unauthorized),
        old(ctx).vault.is_valid(old(ctx).program_id) && old(ctx).vault.state->record.owner == old(
            ctx,
        ).user.key ==> r is Ok,
        r is Ok ==> !final(ctx).vault.is_active(),
        r is Ok ==> final(ctx).vault.lamports() == 0,
        r is Ok ==> final(ctx).user.lamports == old(ctx).user.lamports + old(ctx).vault.lamports(),
        r is Err ==> *final(ctx) == *old(ctx),
{
    let rederived = ctx.vault.rederive(&ctx.program_id);
    close_with_derivation(ctx, rederived)
}

} // verus!
