//! Plain data shared by the whole engine: addresses, bank and account
//! snapshots, dispatch configuration, and the outcome/error taxonomy.

use vstd::prelude::*;

verus! {

/// An on-chain account address. The chain's 32-byte keys are represented by
/// a plain identifier; the zero identifier stands for the absent/default
/// address, which no well-formed instruction may reference.
#[derive(Clone, Copy, PartialEq, Eq, Structural, Debug, Hash)]
pub struct Address {
    pub id: u64,
}

impl Address {
    /// The default/absent address, rejected by every builder.
    pub open spec fn is_zero(self) -> bool {
        self.id == 0
    }
}

/// Immutable snapshot of a lending pool's on-chain addresses, owned by the
/// external registry and borrowed here for the duration of one dispatch.
#[derive(Clone, Copy, PartialEq, Eq, Structural, Debug)]
pub struct BankReference {
    /// The bank's own address.
    pub address: Address,
    /// The pool's liquidity vault.
    pub liquidity_vault: Address,
    /// The protocol-derived authority over the liquidity vault.
    pub liquidity_vault_authority: Address,
    /// The pool's insurance vault.
    pub insurance_vault: Address,
    /// The pool's price oracle.
    pub oracle: Address,
}

/// A position's address plus the banks it currently has exposure to, in
/// insertion order of first exposure.
#[derive(Clone, PartialEq, Eq, Debug)]
pub struct AccountReference {
    pub address: Address,
    pub exposures: Vec<Address>,
}

/// Everything the instruction builder needs besides the action itself:
/// the protocol's program and group, the token program, the fee-paying
/// signer, and the two auxiliary program addresses that compute-budget and
/// tip-transfer instructions are issued against.
#[derive(Clone, Copy, PartialEq, Eq, Structural, Debug)]
pub struct BuildContext {
    pub program_id: Address,
    pub group: Address,
    pub token_program: Address,
    pub signer: Address,
    pub compute_budget_program: Address,
    pub system_program: Address,
}

/// Per-dispatch transaction configuration.
#[derive(Clone, Copy, Debug)]
pub struct TxConfig {
    /// Priority fee, in micro-lamports per compute unit, encoded as an extra
    /// compute-budget instruction when present.
    pub compute_unit_price_micro_lamports: Option<u64>,
}

/// Compute-unit ceiling requested ahead of every protocol instruction.
pub const COMPUTE_UNIT_LIMIT: u32 = 400_000;

/// A desired on-chain action, produced by the external decision engines and
/// consumed exactly once by the dispatch pipeline.
#[derive(Clone, Copy, PartialEq, Eq, Debug)]
pub enum Action {
    Deposit { bank: Address, signer_token_account: Address, amount: u64 },
    Repay { bank: Address, signer_token_account: Address, amount: u64, repay_all: Option<bool> },
    Withdraw { bank: Address, destination_token_account: Address, amount: u64, withdraw_all: Option<bool> },
    Liquidate { asset_bank: Address, liab_bank: Address, liquidatee: Address, asset_amount: u64 },
    RebalanceWithdraw { bank: Address, destination_token_account: Address, amount: u64 },
    RebalanceSwapProceeds { bank: Address, signer_token_account: Address, amount: u64 },
}

/// Why a dispatch could not even be assembled. Fatal to the one action,
/// never retried: rebuilding the same malformed action cannot succeed.
#[derive(Clone, Copy, PartialEq, Eq, Structural, Debug)]
pub enum BuildError {
    /// A required address was the zero/default address.
    MissingAccount,
    /// A bank the action targets is not in the registry snapshot.
    UnknownBank,
    /// The liquidatee's account is not in the registry snapshot.
    UnknownAccount,
}

/// Why the relay or the ledger refused a submitted bundle.
#[derive(Clone, Copy, PartialEq, Eq, Structural, Debug)]
pub enum RejectReason {
    /// The authorizing blockhash was no longer valid.
    BlockhashInvalid,
    /// The bundle failed simulation.
    SimulationFailed,
    /// The scheduled producer did not accept the bundle.
    ProducerDeclined,
}

/// Terminal result of one submission attempt. `Unknown` is a legitimate
/// terminal state: the ledger could not be observed before the authorizing
/// blockhash aged out, and the transaction may still have landed.
#[derive(Clone, Copy, PartialEq, Eq, Structural, Debug)]
pub enum SubmissionOutcome {
    Landed { slot: u64 },
    Rejected { reason: RejectReason },
    Expired,
    Unknown,
}

} // verus!
