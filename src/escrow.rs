use vstd::prelude::*;
use crate::address::Address;
use crate::derivation::{resolve_vault, vault_address_of};

verus! {

/// Why an escrow operation was refused. Every refusal leaves all balances as
/// they were.
#[derive(Clone, Copy, Debug, PartialEq, Eq, Structural)]
pub enum EscrowError {
    /// The caller of a payout is not the configured admin.
    Unauthorized,
    /// The depositor cannot cover the amount.
    InsufficientFunds,
    /// The vault holds less than the payout asks for.
    InsufficientVaultBalance,
    /// A balance would exceed `u64::MAX`.
    ArithmeticOverflow,
    /// A payout was asked of a vault that was never provisioned.
    VaultNotFound,
    /// The depositor cannot cover the one-time cost of creating the vault.
    ProvisioningError,
    /// The account handed in as the vault is not at the derived vault address.
    InvalidVaultAddress,
}

/// Deployment-time configuration: the program's own address, the admin
/// allowed to pay out, and the vault address derived for the program.
#[derive(Clone, Copy, Debug)]
pub struct EscrowConfig {
    pub program_id: Address,
    pub admin: Address,
    pub vault: Address,
    pub vault_bump: u8,
}

impl EscrowConfig {
    /// The vault address is the one derived from the vault seed under the program.
    pub open spec fn wf(&self) -> bool {
        vault_address_of(self.program_id@) == Some((self.vault@, self.vault_bump))
    }

    /// Builds the configuration for `program_id`, resolving its vault; `None`
    /// where no vault address can be derived.
    pub fn new(program_id: Address, admin: Address) -> (r: Option<EscrowConfig>)
        ensures
            match r {
                Some(c) => c.wf() && c.program_id == program_id && c.admin == admin,
                None => vault_address_of(program_id@) is None,
            },
    {
        match resolve_vault(&program_id) {
            Some((vault, vault_bump)) => Some(EscrowConfig { program_id, admin, vault, vault_bump }),
            None => None,
        }
    }
}

/// An ordinary account taking part in a call: its address and native balance.
#[derive(Clone, Copy, Debug)]
pub struct Wallet {
    pub key: Address,
    pub lamports: u64,
}

/// The vault account: its address, its pooled balance, and whether its storage
/// has been created.
#[derive(Clone, Copy, Debug)]
pub struct Vault {
    pub key: Address,
    pub lamports: u64,
    pub provisioned: bool,
}

/// The accounts of a deposit: the signing depositor and the vault.
#[derive(Clone, Copy, Debug)]
pub struct Deposit {
    pub signer: Wallet,
    pub vault: Vault,
}

/// The accounts of a payout: the signing caller, the recipient and the vault.
#[derive(Clone, Copy, Debug)]
pub struct Payout {
    pub admin: Wallet,
    pub winner: Wallet,
    pub vault: Vault,
}

/// What a successful deposit reports for off-band accounting.
#[derive(Clone, Copy, Debug, PartialEq, Eq, Structural)]
pub struct DepositRecord {
    pub amount: u64,
    pub vault_balance: u64,
}

/// What a successful payout reports for off-band accounting.
#[derive(Clone, Copy, Debug)]
pub struct PayoutRecord {
    pub amount: u64,
    pub recipient: Address,
    pub vault_balance: u64,
}

/// One change of the vault's balance.
#[derive(Clone, Copy, Debug, PartialEq, Eq, Structural)]
pub enum VaultOp {
    Deposit(u64),
    Payout(u64),
}

/// The vault balance after `op`, or `None` where the operation is refused on
/// the vault's side (it would overflow, or pay out more than is held).
pub open spec fn vault_step(balance: int, op: VaultOp) -> Option<int> {
    match op {
        VaultOp::Deposit(a) => if balance + a <= u64::MAX { Some(balance + a) } else { None },
        VaultOp::Payout(a) => if a <= balance { Some(balance - a) } else { None },
    }
}

/// What provisioning charges the funding account: the creation cost, once.
pub open spec fn provisioning_charge(vault: Vault, cost: u64) -> int {
    if vault.provisioned { 0 } else { cost as int }
}

/// The refusal a deposit meets, in the order the checks are made, or `None`.
pub open spec fn deposit_error(cfg: EscrowConfig, ctx: Deposit, amount: u64, cost: u64) -> Option<EscrowError> {
    if ctx.vault.key@ != cfg.vault@ {
        Some(EscrowError::InvalidVaultAddress)
    } else if vault_step(ctx.vault.lamports as int, VaultOp::Deposit(amount)) is None {
        Some(EscrowError::ArithmeticOverflow)
    } else if ctx.signer.lamports < provisioning_charge(ctx.vault, cost) {
        Some(EscrowError::ProvisioningError)
    } else if ctx.signer.lamports - provisioning_charge(ctx.vault, cost) < amount {
        Some(EscrowError::InsufficientFunds)
    } else {
        None
    }
}

/// The refusal a payout meets, in the order the checks are made, or `None`.
pub open spec fn payout_error(cfg: EscrowConfig, ctx: Payout, amount: u64) -> Option<EscrowError> {
    if ctx.admin.key@ != cfg.admin@ {
        Some(EscrowError::Unauthorized)
    } else if ctx.vault.key@ != cfg.vault@ {
        Some(EscrowError::InvalidVaultAddress)
    } else if !ctx.vault.provisioned {
        Some(EscrowError::VaultNotFound)
    } else if vault_step(ctx.vault.lamports as int, VaultOp::Payout(amount)) is None {
        Some(EscrowError::InsufficientVaultBalance)
    } else if ctx.winner.lamports + amount > u64::MAX {
        Some(EscrowError::ArithmeticOverflow)
    } else {
        None
    }
}

/// The vault and funding account after provisioning, or the refusal.
pub open spec fn provision_outcome(vault: Vault, funding: Wallet, cost: u64) -> Result<(Vault, Wallet), EscrowError> {
    if vault.provisioned {
        Ok((vault, funding))
    } else if funding.lamports < cost {
        Err(EscrowError::ProvisioningError)
    } else {
        Ok((Vault { provisioned: true, ..vault }, Wallet { lamports: (funding.lamports - cost) as u64, ..funding }))
    }
}

/// Creates the vault's storage if it does not exist yet, charging `cost` to
/// `funding`. On a vault that already exists it does nothing and succeeds.
pub fn ensure_provisioned(vault: &mut Vault, funding: &mut Wallet, cost: u64) -> (r: Result<(), EscrowError>)
    ensures
        match provision_outcome(*old(vault), *old(funding), cost) {
            Ok((v, f)) => r == Ok::<(), EscrowError>(()) && *final(vault) == v && *final(funding) == f,
            Err(e) => r == Err::<(), EscrowError>(e) && *final(vault) == *old(vault) && *final(funding)
                == *old(funding),
        },
        old(vault).provisioned ==> r == Ok::<(), EscrowError>(()) && *final(vault) == *old(vault)
            && *final(funding) == *old(funding),
{
    if vault.provisioned {
        return Ok(());
    }
    if funding.lamports < cost {
        return Err(EscrowError::ProvisioningError);
    }
    funding.lamports = funding.lamports - cost;
    vault.provisioned = true;
    Ok(())
}

/// Provisioning is idempotent: once it has succeeded, running it again on the
/// accounts it produced succeeds and changes nothing, so nothing is charged twice.
pub proof fn lemma_provisioning_idempotent(vault: Vault, funding: Wallet, cost: u64)
    requires
        provision_outcome(vault, funding, cost) is Ok,
    ensures
        ({
            let (v, f) = provision_outcome(vault, funding, cost)->Ok_0;
            provision_outcome(v, f, cost) == Ok::<(Vault, Wallet), EscrowError>((v, f))
        }),
{
}

/// Moves `amount` from the signer into the vault, first creating the vault at
/// a one-time charge of `provisioning_cost` to the signer if it does not exist.
/// Anyone may deposit. All checks are made before any balance moves, so a
/// refused deposit changes nothing. A zero amount is accepted, as the ledger's
/// transfer accepts it.
pub fn deposit(cfg: &EscrowConfig, ctx: &mut Deposit, amount: u64, provisioning_cost: u64) -> (r: Result<DepositRecord, EscrowError>)
    ensures
        match deposit_error(*cfg, *old(ctx), amount, provisioning_cost) {
            Some(e) => r == Err::<DepositRecord, EscrowError>(e) && *final(ctx) == *old(ctx),
            None => {
                &&& r == Ok::<DepositRecord, EscrowError>(
                    DepositRecord { amount, vault_balance: final(ctx).vault.lamports },
                )
                &&& final(ctx).vault == (Vault {
                    lamports: (old(ctx).vault.lamports + amount) as u64,
                    provisioned: true,
                    ..old(ctx).vault
                })
                &&& final(ctx).signer == (Wallet {
                    lamports: (old(ctx).signer.lamports - provisioning_charge(old(ctx).vault, provisioning_cost)
                        - amount) as u64,
                    ..old(ctx).signer
                })
            },
        },
        r is Ok ==> vault_step(old(ctx).vault.lamports as int, VaultOp::Deposit(amount)) == Some(
            final(ctx).vault.lamports as int,
        ),
        old(ctx).vault.key@ == cfg.vault@ && old(ctx).vault.lamports + amount > u64::MAX ==> r
            == Err::<DepositRecord, EscrowError>(EscrowError::ArithmeticOverflow),
        r is Err ==> *final(ctx) == *old(ctx),
{
    if !ctx.vault.key.same_as(&cfg.vault) {
        return Err(EscrowError::InvalidVaultAddress);
    }
    if amount > u64::MAX - ctx.vault.lamports {
        return Err(EscrowError::ArithmeticOverflow);
    }
    let charge: u64 = if ctx.vault.provisioned { 0 } else { provisioning_cost };
    if ctx.signer.lamports < charge {
        return Err(EscrowError::ProvisioningError);
    }
    if ctx.signer.lamports - charge < amount {
        return Err(EscrowError::InsufficientFunds);
    }
    let provisioned = ensure_provisioned(&mut ctx.vault, &mut ctx.signer, provisioning_cost);
    if provisioned.is_err() {
        return Err(EscrowError::ProvisioningError);
    }
    ctx.signer.lamports = ctx.signer.lamports - amount;
    ctx.vault.lamports = ctx.vault.lamports + amount;
    Ok(DepositRecord { amount, vault_balance: ctx.vault.lamports })
}

/// Moves `amount` from the vault to the recipient. Only the configured admin
/// may do so; the recipient is taken as given. All checks are made before any
/// balance moves, so a refused payout changes nothing. A zero amount is accepted.
pub fn payout(cfg: &EscrowConfig, ctx: &mut Payout, amount: u64) -> (r: Result<PayoutRecord, EscrowError>)
    ensures
        match payout_error(*cfg, *old(ctx), amount) {
            Some(e) => r == Err::<PayoutRecord, EscrowError>(e) && *final(ctx) == *old(ctx),
            None => {
                &&& r == Ok::<PayoutRecord, EscrowError>(
                    PayoutRecord {
                        amount,
                        recipient: old(ctx).winner.key,
                        vault_balance: final(ctx).vault.lamports,
                    },
                )
                &&& final(ctx).vault == (Vault {
                    lamports: (old(ctx).vault.lamports - amount) as u64,
                    ..old(ctx).vault
                })
                &&& final(ctx).winner == (Wallet {
                    lamports: (old(ctx).winner.lamports + amount) as u64,
                    ..old(ctx).winner
                })
                &&& final(ctx).admin == old(ctx).admin
            },
        },
        r is Ok ==> vault_step(old(ctx).vault.lamports as int, VaultOp::Payout(amount)) == Some(
            final(ctx).vault.lamports as int,
        ),
        old(ctx).admin.key@ != cfg.admin@ ==> r == Err::<PayoutRecord, EscrowError>(
            EscrowError::Unauthorized,
        ),
        old(ctx).admin.key@ == cfg.admin@ && old(ctx).vault.key@ == cfg.vault@ && old(ctx).vault.provisioned
            && amount > old(ctx).vault.lamports ==> r == Err::<PayoutRecord, EscrowError>(
            EscrowError::InsufficientVaultBalance,
        ),
        r is Err ==> *final(ctx) == *old(ctx),
{
    if !ctx.admin.key.same_as(&cfg.admin) {
        return Err(EscrowError::Unauthorized);
    }
    if !ctx.vault.key.same_as(&cfg.vault) {
        return Err(EscrowError::InvalidVaultAddress);
    }
    if !ctx.vault.provisioned {
        return Err(EscrowError::VaultNotFound);
    }
    if amount > ctx.vault.lamports {
        return Err(EscrowError::InsufficientVaultBalance);
    }
    if amount > u64::MAX - ctx.winner.lamports {
        return Err(EscrowError::ArithmeticOverflow);
    }
    ctx.vault.lamports = ctx.vault.lamports - amount;
    ctx.winner.lamports = ctx.winner.lamports + amount;
    Ok(PayoutRecord { amount, recipient: ctx.winner.key, vault_balance: ctx.vault.lamports })
}

} // verus!
