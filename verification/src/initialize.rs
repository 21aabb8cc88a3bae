//! Creating a vault.

use vstd::prelude::*;
use crate::account::{UserAccount, Vault, VaultAccount, VaultState};
use crate::address::{Address, derivation_view};
use crate::derivation::{derive_vault_address, derived_vault_address};
use crate::error::{TransferError, VaultError};

verus! {

/// What `initialize` works on: the caller, who becomes the owner and pays the
/// reserve, and the account at the address where the vault is to be.
#[derive(Clone, Copy, Debug, PartialEq, Eq)]
pub struct Initialize {
    /// The program under which vault addresses are derived.
    pub program_id: Address,
    /// The caller.
    pub user: UserAccount,
    /// The account at the address of the caller's vault.
    pub vault: VaultAccount,
    /// The least value that the host lets a vault account hold.
    pub min_reserve: u64,
}

impl Initialize {
    /// The address and bump that the caller's vault is derived to.
    pub open spec fn derivation(self) -> Option<(Seq<u8>, u8)> {
        derived_vault_address(self.user.key@, self.program_id@)
    }

    /// How `initialize` ends when the derivation for the caller gave
    /// `derived`.
    ///
    /// The address of the vault account is held against the derived one
    /// before anything else. A vault that exists is never created again. The
    /// caller must be able to pay the reserve.
    pub open spec fn outcome_given(self, derived: Option<(Seq<u8>, u8)>) -> Result<(), VaultError> {
        if !(derived matches Some((address, _)) && address == self.vault.key@) {
            Err(VaultError::InvalidVaultAddress)
        } else if self.vault.is_active() {
            Err(VaultError::AlreadyInitialized)
        } else if self.user.lamports < self.min_reserve {
            Err(VaultError::Transfer(TransferError::InsufficientFunds))
        } else {
            Ok(())
        }
    }

    /// The accounts after `initialize`, when the derivation for the caller
    /// gave `derived`: on success the caller has paid the reserve into a new
    /// vault that records the caller as owner and the derived bump; on
    /// failure nothing has changed.
    pub open spec fn after_given(self, derived: Option<(Seq<u8>, u8)>) -> Initialize {
        match derived {
            Some((_, bump)) if self.outcome_given(derived) is Ok => Initialize {
                user: UserAccount {
                    key: self.user.key,
                    lamports: (self.user.lamports - self.min_reserve) as u64,
                },
                vault: VaultAccount {
                    key: self.vault.key,
                    state: VaultState::Active {
                        record: Vault { owner: self.user.key, bump },
                        lamports: self.min_reserve,
                    },
                },
                ..self
            },
            _ => self,
        }
    }

    /// How `initialize` ends.
    pub open spec fn outcome(self) -> Result<(), VaultError> {
        self.outcome_given(self.derivation())
    }

    /// The accounts after `initialize`.
    pub open spec fn after(self) -> Initialize {
        self.after_given(self.derivation())
    }
}

/// Creates the caller's vault, given what the derivation for the caller
/// returned.
pub fn initialize_with_derivation(ctx: &mut Initialize, derived: Option<(Address, u8)>) -> (r: Result<
    (),
    VaultError,
>)
    ensures
        r == old(ctx).outcome_given(derivation_view(derived)),
        *final(ctx) == old(ctx).after_given(derivation_view(derived)),
{
    let (address, bump) = match derived {
        Some(found) => found,
        None => {
            return Err(VaultError::InvalidVaultAddress);
        },
    };
    proof {
        Address::view_injective(address, ctx.vault.key);
    }
    if !(address == ctx.vault.key) {
        return Err(VaultError::InvalidVaultAddress);
    }
    match ctx.vault.state {
        VaultState::Active { .. } => {
            return Err(VaultError::AlreadyInitialized);
        },
        VaultState::Uninitialized => {},
    }
    if ctx.user.lamports < ctx.min_reserve {
        return Err(VaultError::Transfer(TransferError::InsufficientFunds));
    }
    ctx.user.lamports = ctx.user.lamports - ctx.min_reserve;
    ctx.vault.state = VaultState::Active {
        record: Vault { owner: ctx.user.key, bump },
        lamports: ctx.min_reserve,
    };
    Ok(())
}

/// Creates the caller's vault at the address derived for the caller.
///
/// Fails with `InvalidVaultAddress` where the vault account is not at that
/// address, with `AlreadyInitialized` where a vault exists there, and with
/// the transfer's `InsufficientFunds` where the caller cannot pay the
/// reserve. On success the vault holds the reserve and nothing more, is
/// owned by the caller, and its address recomputes from its record.
pub fn initialize(ctx: &mut Initialize) -> (r: Result<(), VaultError>)
    ensures
        r == old(ctx).outcome(),
        *final(ctx) == old(ctx).after(),
        r is Ok ==> final(ctx).vault.is_valid(old(ctx).program_id),
        r is Ok ==> final(ctx).vault.state->record.owner == old(ctx).user.key,
        r is Ok ==> final(ctx).vault.lamports() == old(ctx).min_reserve,
        r is Ok ==> final(ctx).vault.withdrawable(old(ctx).min_reserve) == 0,
        r is Ok ==> final(ctx).user.lamports + final(ctx).vault.lamports() == old(
            ctx,
        ).user.lamports,
        r is Err ==> *final(ctx) == *old(ctx),
{
    let derived = derive_vault_address(&ctx.user.key, &ctx.program_id);
    initialize_with_derivation(ctx, derived)
}

} // verus!
