//! A vault per owner: an account at an address derived from the owner's
//! identity, which anyone may pay into and only the owner may withdraw from
//! or close, and which never holds less than its reserve while it exists.

pub mod account;
pub mod address;
pub mod close;
pub mod deposit;
pub mod derivation;
pub mod error;
pub mod initialize;
pub mod laws;
pub mod withdraw;

pub use crate::account::{transfer, UserAccount, Vault, VaultAccount, VaultState, RECORD_TAG_LEN};
pub use crate::address::{Address, ADDRESS_LEN};
pub use crate::close::{close, close_with_derivation, Close};
pub use crate::deposit::{deposit, deposit_with_derivation, Deposit};
pub use crate::derivation::{derive_vault_address, rederive_vault_address};
pub use crate::error::{TransferError, VaultError};
pub use crate::initialize::{initialize, initialize_with_derivation, Initialize};
pub use crate::withdraw::{withdraw, withdraw_with_derivation, Withdraw};
