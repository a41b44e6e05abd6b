//! The liquidator's own account and the per-action transaction planners.
//! Each planner is a pure function from the action's parameters and the
//! borrowed bank/account snapshots to an assembled transaction, and fails
//! with `MissingAccount` exactly when a required address is the
//! zero/default address — caught here, never surfaced as a ledger failure.

use vstd::prelude::*;

use crate::instructions::{
    deposit_accounts, liquidate_accounts, make_deposit_ix, make_liquidate_ix, make_repay_ix,
    make_withdraw_ix, readonly_metas, repay_accounts, withdraw_accounts, InstructionModel,
};
use crate::codec::{deposit_data, liquidate_data, repay_data, withdraw_data};
use crate::observation::{
    lemma_excluded_bank_never_observed, observation_set_spec, resolve_observation_set,
};
use crate::transaction::{assemble, assemble_spec, AssembledTransaction, TransactionModel};
use crate::types::{AccountReference, Address, BankReference, BuildContext, BuildError, TxConfig};

verus! {

/// The agent's own position plus the build context its dispatches share.
pub struct LiquidatorAccount {
    pub account: AccountReference,
    pub context: BuildContext,
}

/// A build context is missing an account when any of its addresses is zero.
pub open spec fn context_missing(ctx: BuildContext) -> bool {
    ||| ctx.program_id.is_zero()
    ||| ctx.group.is_zero()
    ||| ctx.token_program.is_zero()
    ||| ctx.signer.is_zero()
    ||| ctx.compute_budget_program.is_zero()
    ||| ctx.system_program.is_zero()
}

fn check_context_missing(ctx: &BuildContext) -> (r: bool)
    ensures
        r == context_missing(*ctx),
{
    ctx.program_id.id == 0 || ctx.group.id == 0 || ctx.token_program.id == 0 || ctx.signer.id == 0
        || ctx.compute_budget_program.id == 0 || ctx.system_program.id == 0
}

pub open spec fn deposit_missing(
    ctx: BuildContext,
    account_address: Address,
    bank: BankReference,
    token_account: Address,
) -> bool {
    ||| context_missing(ctx)
    ||| account_address.is_zero()
    ||| bank.address.is_zero()
    ||| bank.liquidity_vault.is_zero()
    ||| token_account.is_zero()
}

pub open spec fn withdraw_missing(
    ctx: BuildContext,
    account_address: Address,
    bank: BankReference,
    token_account: Address,
) -> bool {
    ||| context_missing(ctx)
    ||| account_address.is_zero()
    ||| bank.address.is_zero()
    ||| bank.liquidity_vault.is_zero()
    ||| bank.liquidity_vault_authority.is_zero()
    ||| token_account.is_zero()
}

pub open spec fn liquidate_missing(
    ctx: BuildContext,
    liquidator_address: Address,
    liquidatee_address: Address,
    asset_bank: BankReference,
    liab_bank: BankReference,
) -> bool {
    ||| context_missing(ctx)
    ||| liquidator_address.is_zero()
    ||| liquidatee_address.is_zero()
    ||| asset_bank.address.is_zero()
    ||| liab_bank.address.is_zero()
    ||| liab_bank.liquidity_vault.is_zero()
    ||| liab_bank.liquidity_vault_authority.is_zero()
    ||| liab_bank.insurance_vault.is_zero()
}

/// Maps an assembled result to its model, error unchanged.
pub open spec fn tx_result_model(r: Result<AssembledTransaction, BuildError>) -> Result<
    TransactionModel,
    BuildError,
> {
    match r {
        Result::Ok(tx) => Result::Ok(tx@),
        Result::Err(e) => Result::Err(e),
    }
}

/// What a deposit dispatch assembles, or why it cannot.
pub open spec fn deposit_plan(
    ctx: BuildContext,
    account_address: Address,
    bank: BankReference,
    token_account: Address,
    amount: u64,
    cfg: TxConfig,
) -> Result<TransactionModel, BuildError> {
    if deposit_missing(ctx, account_address, bank, token_account) {
        Result::Err(BuildError::MissingAccount)
    } else {
        Result::Ok(
            assemble_spec(
                InstructionModel {
                    program: ctx.program_id,
                    accounts: deposit_accounts(
                        ctx.group,
                        account_address,
                        ctx.signer,
                        bank.address,
                        token_account,
                        bank.liquidity_vault,
                        ctx.token_program,
                    ),
                    data: deposit_data(amount),
                },
                cfg,
                ctx,
            ),
        )
    }
}

/// What a repayment dispatch assembles, or why it cannot. The account list
/// matches the deposit's; only the payload differs.
pub open spec fn repay_plan(
    ctx: BuildContext,
    account_address: Address,
    bank: BankReference,
    token_account: Address,
    amount: u64,
    repay_all: Option<bool>,
    cfg: TxConfig,
) -> Result<TransactionModel, BuildError> {
    if deposit_missing(ctx, account_address, bank, token_account) {
        Result::Err(BuildError::MissingAccount)
    } else {
        Result::Ok(
            assemble_spec(
                InstructionModel {
                    program: ctx.program_id,
                    accounts: repay_accounts(
                        ctx.group,
                        account_address,
                        ctx.signer,
                        bank.address,
                        token_account,
                        bank.liquidity_vault,
                        ctx.token_program,
                    ),
                    data: repay_data(amount, repay_all),
                },
                cfg,
                ctx,
            ),
        )
    }
}

/// The banks a withdrawal excludes from its own observation set: the bank
/// being withdrawn from, exactly when the withdrawal empties it.
pub open spec fn withdraw_exclusions(bank: BankReference, withdraw_all: Option<bool>) -> Seq<
    Address,
> {
    if withdraw_all == Option::Some(true) {
        seq![bank.address]
    } else {
        Seq::empty()
    }
}

/// What a withdrawal dispatch assembles, or why it cannot.
pub open spec fn withdraw_plan(
    ctx: BuildContext,
    account: AccountReference,
    bank: BankReference,
    token_account: Address,
    amount: u64,
    withdraw_all: Option<bool>,
    cfg: TxConfig,
) -> Result<TransactionModel, BuildError> {
    if withdraw_missing(ctx, account.address, bank, token_account) {
        Result::Err(BuildError::MissingAccount)
    } else {
        Result::Ok(
            assemble_spec(
                InstructionModel {
                    program: ctx.program_id,
                    accounts: withdraw_accounts(
                        ctx.group,
                        account.address,
                        ctx.signer,
                        bank.address,
                        token_account,
                        bank.liquidity_vault_authority,
                        bank.liquidity_vault,
                        ctx.token_program,
                    ) + readonly_metas(
                        observation_set_spec(
                            account.exposures@,
                            withdraw_exclusions(bank, withdraw_all),
                        ),
                    ),
                    data: withdraw_data(amount, withdraw_all),
                },
                cfg,
                ctx,
            ),
        )
    }
}

/// What a liquidation dispatch assembles, or why it cannot. The liquidator's
/// observation set anticipates exposure to both banks involved.
pub open spec fn liquidate_plan(
    ctx: BuildContext,
    liquidator: AccountReference,
    liquidatee: AccountReference,
    asset_bank: BankReference,
    liab_bank: BankReference,
    asset_amount: u64,
    cfg: TxConfig,
) -> Result<TransactionModel, BuildError> {
    if liquidate_missing(ctx, liquidator.address, liquidatee.address, asset_bank, liab_bank) {
        Result::Err(BuildError::MissingAccount)
    } else {
        Result::Ok(
            assemble_spec(
                InstructionModel {
                    program: ctx.program_id,
                    accounts: liquidate_accounts(
                        ctx.group,
                        liquidator.address,
                        ctx.signer,
                        liquidatee.address,
                        liab_bank.liquidity_vault_authority,
                        liab_bank.liquidity_vault,
                        liab_bank.insurance_vault,
                        ctx.token_program,
                        asset_bank.address,
                        liab_bank.address,
                    ) + readonly_metas(
                        observation_set_spec(
                            liquidator.exposures@ + seq![liab_bank.address, asset_bank.address],
                            Seq::empty(),
                        ),
                    ) + readonly_metas(
                        observation_set_spec(liquidatee.exposures@, Seq::empty()),
                    ),
                    data: liquidate_data(asset_amount),
                },
                cfg,
                ctx,
            ),
        )
    }
}

/// A full withdrawal's observation set never contains the bank being
/// withdrawn from, whatever the account's exposures.
pub proof fn lemma_full_withdrawal_excludes_bank(account: AccountReference, bank: BankReference)
    ensures
        !observation_set_spec(
            account.exposures@,
            withdraw_exclusions(bank, Option::Some(true)),
        ).contains(bank.address),
{
    let exclusions = withdraw_exclusions(bank, Option::Some(true));
    assert(exclusions[0] == bank.address);
    assert(exclusions.contains(bank.address));
    lemma_excluded_bank_never_observed(account.exposures@, exclusions, bank.address);
}

impl LiquidatorAccount {
    /// Wraps the agent's position snapshot and its build context.
    pub fn new(account: AccountReference, context: BuildContext) -> (la: LiquidatorAccount)
        ensures
            la.account == account,
            la.context == context,
    {
        LiquidatorAccount { account, context }
    }

    /// Assembles a deposit of `amount` into `bank`.
    pub fn deposit(
        &self,
        bank: &BankReference,
        token_account: Address,
        amount: u64,
        cfg: TxConfig,
    ) -> (r: Result<AssembledTransaction, BuildError>)
        ensures
            tx_result_model(r) == deposit_plan(
                self.context,
                self.account.address,
                *bank,
                token_account,
                amount,
                cfg,
            ),
    {
        if check_context_missing(&self.context) || self.account.address.id == 0 || bank.address.id
            == 0 || bank.liquidity_vault.id == 0 || token_account.id == 0 {
            return Result::Err(BuildError::MissingAccount);
        }
        let ix = make_deposit_ix(
            self.context.program_id,
            self.context.group,
            self.account.address,
            self.context.signer,
            bank.address,
            token_account,
            bank.liquidity_vault,
            self.context.token_program,
            amount,
        );
        let tx = assemble(ix, cfg, &self.context);
        Result::Ok(tx)
    }

    /// Assembles a repayment of `amount` to `bank`; `repay_all` settles the
    /// whole liability and changes only the payload.
    pub fn repay(
        &self,
        bank: &BankReference,
        token_account: Address,
        amount: u64,
        repay_all: Option<bool>,
        cfg: TxConfig,
    ) -> (r: Result<AssembledTransaction, BuildError>)
        ensures
            tx_result_model(r) == repay_plan(
                self.context,
                self.account.address,
                *bank,
                token_account,
                amount,
                repay_all,
                cfg,
            ),
    {
        if check_context_missing(&self.context) || self.account.address.id == 0 || bank.address.id
            == 0 || bank.liquidity_vault.id == 0 || token_account.id == 0 {
            return Result::Err(BuildError::MissingAccount);
        }
        let ix = make_repay_ix(
            self.context.program_id,
            self.context.group,
            self.account.address,
            self.context.signer,
            bank.address,
            token_account,
            bank.liquidity_vault,
            self.context.token_program,
            amount,
            repay_all,
        );
        let tx = assemble(ix, cfg, &self.context);
        Result::Ok(tx)
    }

    /// Assembles a withdrawal of `amount` from `bank`. A full withdrawal
    /// excludes the bank from the caller's own observation set.
    pub fn withdraw(
        &self,
        bank: &BankReference,
        token_account: Address,
        amount: u64,
        withdraw_all: Option<bool>,
        cfg: TxConfig,
    ) -> (r: Result<AssembledTransaction, BuildError>)
        ensures
            tx_result_model(r) == withdraw_plan(
                self.context,
                self.account,
                *bank,
                token_account,
                amount,
                withdraw_all,
                cfg,
            ),
    {
        if check_context_missing(&self.context) || self.account.address.id == 0 || bank.address.id
            == 0 || bank.liquidity_vault.id == 0 || bank.liquidity_vault_authority.id == 0
            || token_account.id == 0 {
            return Result::Err(BuildError::MissingAccount);
        }
        let mut exclusions: Vec<Address> = Vec::new();
        let all = match withdraw_all {
            Option::Some(f) => f,
            Option::None => false,
        };
        if all {
            exclusions.push(bank.address);
        }
        proof {
            assert(exclusions@ =~= withdraw_exclusions(*bank, withdraw_all));
        }
        let observation_accounts = resolve_observation_set(&self.account.exposures, &exclusions);
        let ix = make_withdraw_ix(
            self.context.program_id,
            self.context.group,
            self.account.address,
            self.context.signer,
            bank.address,
            token_account,
            bank.liquidity_vault_authority,
            bank.liquidity_vault,
            self.context.token_program,
            &observation_accounts,
            amount,
            withdraw_all,
        );
        let tx = assemble(ix, cfg, &self.context);
        Result::Ok(tx)
    }

    /// Assembles a liquidation seizing `asset_amount` of `liquidatee`'s
    /// collateral in `asset_bank` against its liability in `liab_bank`.
    pub fn liquidate(
        &self,
        liquidatee: &AccountReference,
        asset_bank: &BankReference,
        liab_bank: &BankReference,
        asset_amount: u64,
        cfg: TxConfig,
    ) -> (r: Result<AssembledTransaction, BuildError>)
        ensures
            tx_result_model(r) == liquidate_plan(
                self.context,
                self.account,
                *liquidatee,
                *asset_bank,
                *liab_bank,
                asset_amount,
                cfg,
            ),
    {
        if check_context_missing(&self.context) || self.account.address.id == 0
            || liquidatee.address.id == 0 || asset_bank.address.id == 0 || liab_bank.address.id
            == 0 || liab_bank.liquidity_vault.id == 0 || liab_bank.liquidity_vault_authority.id
            == 0 || liab_bank.insurance_vault.id == 0 {
            return Result::Err(BuildError::MissingAccount);
        }
        let mut anticipated: Vec<Address> = Vec::new();
        anticipated.push(liab_bank.address);
        anticipated.push(asset_bank.address);
        let no_exclusions: Vec<Address> = Vec::new();
        proof {
            assert(anticipated@ =~= seq![liab_bank.address, asset_bank.address]);
        }
        let liquidator_observation_accounts = self.account.observation_addresses(
            &anticipated,
            &no_exclusions,
        );
        let liquidatee_observation_accounts = liquidatee.observation_addresses(
            &no_exclusions,
            &no_exclusions,
        );
        proof {
            assert(liquidatee.exposures@ + no_exclusions@ =~= liquidatee.exposures@);
        }
        let ix = make_liquidate_ix(
            self.context.program_id,
            self.context.group,
            self.account.address,
            asset_bank.address,
            liab_bank.address,
            self.context.signer,
            liquidatee.address,
            liab_bank.liquidity_vault_authority,
            liab_bank.liquidity_vault,
            liab_bank.insurance_vault,
            self.context.token_program,
            &liquidator_observation_accounts,
            &liquidatee_observation_accounts,
            asset_amount,
        );
        let tx = assemble(ix, cfg, &self.context);
        Result::Ok(tx)
    }
}

} // verus!
