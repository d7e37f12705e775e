//! A custodial escrow: one pooled vault that anyone may fund and that only the
//! configured admin may pay out of. The vault's address is derived from a fixed
//! seed and the program's own address; its balance only moves through the two
//! checked operations of [`escrow`].

pub mod address;
pub mod derivation;
pub mod escrow;
pub mod conservation;

pub use address::Address;
pub use derivation::resolve_vault;
pub use escrow::{
    deposit, ensure_provisioned, payout, Deposit, DepositRecord, EscrowConfig, EscrowError, Payout,
    PayoutRecord, Vault, VaultOp, Wallet,
};
