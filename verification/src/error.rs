//! Failures of the vault operations.

use vstd::prelude::*;

verus! {

/// Why the value-transfer primitive refused to move value.
#[derive(Clone, Copy, Debug, PartialEq, Eq, Structural)]
pub enum TransferError {
    /// The amount to move was zero.
    ZeroAmount,
    /// The source holds less than the amount to move.
    InsufficientFunds,
}

/// Why a vault operation failed. A failed operation changes nothing.
#[derive(Clone, Copy, Debug, PartialEq, Eq, Structural)]
pub enum VaultError {
    /// A vault already exists at the address derived for this owner.
    AlreadyInitialized,
    /// The address of the vault account is not the one its owner derives to.
    InvalidVaultAddress,
    /// The caller is not the owner of the vault.
    Unauthorized,
    /// The amount exceeds what the vault holds above its reserve.
    InsufficientFunds,
    /// No vault exists at the referenced address.
    VaultNotFound,
    /// The value-transfer primitive failed; its failure is passed on as it is.
    Transfer(TransferError),
}

impl TransferError {
    /// What `message` returns.
    pub open spec fn message_text(self) -> Seq<char> {
        match self {
            TransferError::ZeroAmount => "Transfer of a zero amount"@,
            TransferError::InsufficientFunds => "Insufficient funds for transfer"@,
        }
    }

    /// A sentence that says what failed.
    pub fn message(&self) -> (text: &'static str)
        ensures
            text@ == self.message_text(),
    {
        match self {
            TransferError::ZeroAmount => "Transfer of a zero amount",
            TransferError::InsufficientFunds => "Insufficient funds for transfer",
        }
    }
}

impl VaultError {
    /// What `message` returns.
    pub open spec fn message_text(self) -> Seq<char> {
        match self {
            VaultError::AlreadyInitialized => "Vault already initialized for this owner"@,
            VaultError::InvalidVaultAddress => "Vault address does not match its derivation"@,
            VaultError::Unauthorized => "Unauthorized: Only the vault owner can perform this action"@,
            VaultError::InsufficientFunds => "Insufficient funds in vault"@,
            VaultError::VaultNotFound => "Vault does not exist"@,
            VaultError::Transfer(e) => e.message_text(),
        }
    }

    /// A sentence that says what failed. A failure of the transfer speaks for
    /// itself.
    pub fn message(&self) -> (text: &'static str)
        ensures
            text@ == self.message_text(),
    {
        match self {
            VaultError::AlreadyInitialized => "Vault already initialized for this owner",
            VaultError::InvalidVaultAddress => "Vault address does not match its derivation",
            VaultError::Unauthorized => "Unauthorized: Only the vault owner can perform this action",
            VaultError::InsufficientFunds => "Insufficient funds in vault",
            VaultError::VaultNotFound => "Vault does not exist",
            VaultError::Transfer(e) => e.message(),
        }
    }
}

} // verus!
