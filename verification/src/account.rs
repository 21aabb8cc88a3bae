//! The accounts an operation works on, and the movement of value between
//! two balances.

use vstd::prelude::*;
use crate::address::{Address, address_view};
use crate::derivation::{rederive_vault_address, rederived_vault_address};
use crate::error::{TransferError, VaultError};

verus! {

/// Size in bytes of the tag that prefixes every stored record.
pub const RECORD_TAG_LEN: usize = 8;

/// The record stored for a vault. The vault's balance is not part of it: it
/// is what the vault account holds above its reserve.
#[derive(Clone, Copy, Debug, PartialEq, Eq)]
pub struct Vault {
    /// The identity that created the vault and may withdraw from it.
    pub owner: Address,
    /// The bump with which the vault's address was derived.
    pub bump: u8,
}

impl Vault {
    /// Size in bytes of a record without its tag: 32 for the owner, 1 for
    /// the bump.
    pub const INIT_SPACE: usize = 33;

    /// Size in bytes of a stored record, tag included. The reserve a vault
    /// must keep is the host's minimum for an account of this size.
    pub fn space() -> (size: usize)
        ensures
            size == 41,
    {
        RECORD_TAG_LEN + Vault::INIT_SPACE
    }
}

/// The account of the caller of an operation: an authenticated identity and
/// the value it holds.
#[derive(Clone, Copy, Debug, PartialEq, Eq)]
pub struct UserAccount {
    pub key: Address,
    pub lamports: u64,
}

/// What the account at a vault address is.
#[derive(Clone, Copy, Debug, PartialEq, Eq)]
pub enum VaultState {
    /// No vault exists at the address, and the account holds nothing.
    Uninitialized,
    /// A vault exists: its record, and all the value the account holds, the
    /// reserve included.
    Active { record: Vault, lamports: u64 },
}

/// The account at a vault address, as an operation is handed it.
#[derive(Clone, Copy, Debug, PartialEq, Eq)]
pub struct VaultAccount {
    pub key: Address,
    pub state: VaultState,
}

impl VaultAccount {
    /// Whether a vault exists in the account.
    pub open spec fn is_active(self) -> bool {
        self.state is Active
    }

    /// What `lamports` returns.
    pub open spec fn spec_lamports(&self) -> u64 {
        match self.state {
            VaultState::Active { lamports, .. } => lamports,
            VaultState::Uninitialized => 0,
        }
    }

    /// What `withdrawable` returns.
    pub open spec fn spec_withdrawable(&self, min_reserve: u64) -> u64 {
        if self.lamports() >= min_reserve {
            (self.lamports() - min_reserve) as u64
        } else {
            0
        }
    }

    /// The same account holding `lamports`; an account without a vault is
    /// left as it is.
    pub open spec fn holding(self, lamports: u64) -> VaultAccount {
        match self.state {
            VaultState::Active { record, .. } => VaultAccount {
                key: self.key,
                state: VaultState::Active { record, lamports },
            },
            VaultState::Uninitialized => self,
        }
    }

    /// The account once its vault is closed.
    pub open spec fn closed(self) -> VaultAccount {
        VaultAccount { key: self.key, state: VaultState::Uninitialized }
    }

    /// The address that the stored owner and bump recompute to under
    /// `program_id`; none where no vault exists.
    pub open spec fn rederivation(self, program_id: Address) -> Option<Seq<u8>> {
        match self.state {
            VaultState::Active { record, .. } => rederived_vault_address(
                record.owner@,
                record.bump,
                program_id@,
            ),
            VaultState::Uninitialized => None,
        }
    }

    /// The record of the vault, where one exists and `rederived`, the address
    /// recomputed from that record, is the address of this account.
    pub open spec fn authenticated(self, rederived: Option<Seq<u8>>) -> Result<Vault, VaultError> {
        match self.state {
            VaultState::Uninitialized => Err(VaultError::VaultNotFound),
            VaultState::Active { record, .. } => if rederived == Some(self.key@) {
                Ok(record)
            } else {
                Err(VaultError::InvalidVaultAddress)
            },
        }
    }

    /// Whether a vault exists here at the address its record recomputes to
    /// under `program_id`.
    pub open spec fn is_valid(self, program_id: Address) -> bool {
        self.authenticated(self.rederivation(program_id)) is Ok
    }

    /// All the value the account holds; zero where no vault exists.
    #[verifier::when_used_as_spec(spec_lamports)]
    pub fn lamports(&self) -> (held: u64)
        ensures
            held == self.lamports(),
    {
        match self.state {
            VaultState::Active { lamports, .. } => lamports,
            VaultState::Uninitialized => 0,
        }
    }

    /// What can be withdrawn while `min_reserve` stays in the vault; zero
    /// where the vault holds less than that.
    #[verifier::when_used_as_spec(spec_withdrawable)]
    pub fn withdrawable(&self, min_reserve: u64) -> (available: u64)
        ensures
            available == self.withdrawable(min_reserve),
    {
        self.lamports().saturating_sub(min_reserve)
    }

    /// Recomputes the vault's address from the stored owner and bump.
    /// Returns `None` where no vault exists or the two give no address.
    pub fn rederive(&self, program_id: &Address) -> (rederived: Option<Address>)
        ensures
            address_view(rederived) == self.rederivation(*program_id),
    {
        match self.state {
            VaultState::Active { record, .. } => rederive_vault_address(
                &record.owner,
                record.bump,
                program_id,
            ),
            VaultState::Uninitialized => None,
        }
    }

    /// Loads the vault's record, trusting it only where `rederived`, the
    /// address recomputed from it, is the address of this account.
    pub fn authenticate(&self, rederived: Option<Address>) -> (r: Result<Vault, VaultError>)
        ensures
            r == self.authenticated(address_view(rederived)),
    {
        match self.state {
            VaultState::Uninitialized => Err(VaultError::VaultNotFound),
            VaultState::Active { record, .. } => {
                match rederived {
                    Some(address) => {
                        proof {
                            Address::view_injective(address, self.key);
                        }
                        if address == self.key {
                            Ok(record)
                        } else {
                            Err(VaultError::InvalidVaultAddress)
                        }
                    },
                    None => Err(VaultError::InvalidVaultAddress),
                }
            },
        }
    }
}

/// Whether the value-transfer primitive moves `amount` out of a balance of
/// `from`: it refuses an amount of zero, and one that the source does not
/// hold.
pub open spec fn transfer_outcome(from: u64, amount: u64) -> Result<(), TransferError> {
    if amount == 0 {
        Err(TransferError::ZeroAmount)
    } else if from < amount {
        Err(TransferError::InsufficientFunds)
    } else {
        Ok(())
    }
}

/// The value-transfer primitive, as the library accounts for it: moves
/// `amount` from a balance of `from` to a balance of `to`, all of it or
/// nothing. Returns the two balances after the move, source first. The host
/// carries the move out on the accounts themselves.
pub fn transfer(from: u64, to: u64, amount: u64) -> (r: Result<(u64, u64), TransferError>)
    requires
        from + to <= u64::MAX,
    ensures
        r is Ok <==> transfer_outcome(from, amount) is Ok,
        r matches Ok((from_after, to_after)) ==> from_after == from - amount && to_after == to
            + amount,
        r matches Err(e) ==> transfer_outcome(from, amount) == Err::<(), TransferError>(e),
{
    if amount == 0 {
        Err(TransferError::ZeroAmount)
    } else if from < amount {
        Err(TransferError::InsufficientFunds)
    } else {
        Ok((from - amount, to + amount))
    }
}

} // verus!
