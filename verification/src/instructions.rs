//! Protocol-level instruction construction. Each builder is a pure function
//! whose account list and payload are pinned down exactly by its contract:
//! the account order is part of the on-chain program's positional indexing
//! contract and must never change.

use vstd::prelude::*;

use crate::codec::{
    compute_unit_limit_data, compute_unit_price_data, deposit_data, liquidate_data, push_opt_bool,
    push_u32_le, push_u64_le, repay_data, transfer_data, withdraw_data, TAG_COMPUTE_UNIT_LIMIT,
    TAG_COMPUTE_UNIT_PRICE, TAG_DEPOSIT, TAG_LIQUIDATE, TAG_REPAY, TAG_TRANSFER, TAG_WITHDRAW,
};
use crate::types::Address;

verus! {

/// One account an instruction touches, with its access mode.
#[derive(Clone, Copy, PartialEq, Eq, Structural, Debug)]
pub struct AccountMeta {
    pub address: Address,
    pub writable: bool,
    pub signer: bool,
}

/// A single instruction: target program, ordered account list, payload.
#[derive(Clone, PartialEq, Eq, Debug)]
pub struct Instruction {
    pub program: Address,
    pub accounts: Vec<AccountMeta>,
    pub data: Vec<u8>,
}

/// The mathematical value of an instruction.
#[verifier::ext_equal]
pub struct InstructionModel {
    pub program: Address,
    pub accounts: Seq<AccountMeta>,
    pub data: Seq<u8>,
}

impl View for Instruction {
    type V = InstructionModel;

    open spec fn view(&self) -> InstructionModel {
        InstructionModel { program: self.program, accounts: self.accounts@, data: self.data@ }
    }
}

pub open spec fn readonly_meta(a: Address) -> AccountMeta {
    AccountMeta { address: a, writable: false, signer: false }
}

pub open spec fn writable_meta(a: Address) -> AccountMeta {
    AccountMeta { address: a, writable: true, signer: false }
}

pub open spec fn signer_meta(a: Address) -> AccountMeta {
    AccountMeta { address: a, writable: true, signer: true }
}

/// The read-only metas of an observation block, in the block's order.
pub open spec fn readonly_metas(addresses: Seq<Address>) -> Seq<AccountMeta> {
    Seq::new(addresses.len(), |i: int| readonly_meta(addresses[i]))
}

proof fn lemma_readonly_metas_snoc(addresses: Seq<Address>, i: int)
    requires
        0 <= i < addresses.len(),
    ensures
        readonly_metas(addresses.take(i + 1)) == readonly_metas(addresses.take(i)).push(
            readonly_meta(addresses[i]),
        ),
{
    assert(readonly_metas(addresses.take(i + 1)) =~= readonly_metas(addresses.take(i)).push(
        readonly_meta(addresses[i]),
    ));
}

/// Appends one read-only meta per observation address, keeping their order.
fn push_readonly_metas(accounts: &mut Vec<AccountMeta>, observation_accounts: &Vec<Address>)
    ensures
        final(accounts)@ == old(accounts)@ + readonly_metas(observation_accounts@),
{
    let n = observation_accounts.len();
    let mut i: usize = 0;
    while i < n
        invariant
            i <= n,
            n == observation_accounts@.len(),
            accounts@ == old(accounts)@ + readonly_metas(observation_accounts@.take(i as int)),
        decreases n - i,
    {
        let a = observation_accounts[i];
        accounts.push(AccountMeta { address: a, writable: false, signer: false });
        proof {
            lemma_readonly_metas_snoc(observation_accounts@, i as int);
            assert(accounts@ =~= old(accounts)@ + readonly_metas(
                observation_accounts@.take(i as int + 1),
            ));
        }
        i = i + 1;
    }
    proof {
        assert(observation_accounts@.take(n as int) =~= observation_accounts@);
    }
}

/// Fixed accounts of a deposit, in the on-chain program's order.
pub open spec fn deposit_accounts(
    marginfi_group: Address,
    marginfi_account: Address,
    signer: Address,
    bank: Address,
    signer_token_account: Address,
    bank_liquidity_vault: Address,
    token_program: Address,
) -> Seq<AccountMeta> {
    seq![
        readonly_meta(marginfi_group),
        writable_meta(marginfi_account),
        signer_meta(signer),
        writable_meta(bank),
        writable_meta(signer_token_account),
        writable_meta(bank_liquidity_vault),
        readonly_meta(token_program),
    ]
}

/// Fixed accounts of a repayment; same shape as a deposit.
pub open spec fn repay_accounts(
    marginfi_group: Address,
    marginfi_account: Address,
    signer: Address,
    bank: Address,
    signer_token_account: Address,
    bank_liquidity_vault: Address,
    token_program: Address,
) -> Seq<AccountMeta> {
    seq![
        readonly_meta(marginfi_group),
        writable_meta(marginfi_account),
        signer_meta(signer),
        writable_meta(bank),
        writable_meta(signer_token_account),
        writable_meta(bank_liquidity_vault),
        readonly_meta(token_program),
    ]
}

/// Fixed accounts of a withdrawal; the observation block follows them.
pub open spec fn withdraw_accounts(
    marginfi_group: Address,
    marginfi_account: Address,
    signer: Address,
    bank: Address,
    destination_token_account: Address,
    bank_liquidity_vault_authority: Address,
    bank_liquidity_vault: Address,
    token_program: Address,
) -> Seq<AccountMeta> {
    seq![
        readonly_meta(marginfi_group),
        writable_meta(marginfi_account),
        signer_meta(signer),
        writable_meta(bank),
        writable_meta(destination_token_account),
        readonly_meta(bank_liquidity_vault_authority),
        writable_meta(bank_liquidity_vault),
        readonly_meta(token_program),
    ]
}

/// Fixed accounts of a liquidation; the liquidator's observation block
/// follows them, then the liquidatee's.
pub open spec fn liquidate_accounts(
    marginfi_group: Address,
    liquidator_marginfi_account: Address,
    signer: Address,
    liquidatee_marginfi_account: Address,
    bank_liquidity_vault_authority: Address,
    bank_liquidity_vault: Address,
    bank_insurance_vault: Address,
    token_program: Address,
    asset_bank: Address,
    liab_bank: Address,
) -> Seq<AccountMeta> {
    seq![
        readonly_meta(marginfi_group),
        writable_meta(liquidator_marginfi_account),
        signer_meta(signer),
        writable_meta(liquidatee_marginfi_account),
        readonly_meta(bank_liquidity_vault_authority),
        writable_meta(bank_liquidity_vault),
        writable_meta(bank_insurance_vault),
        readonly_meta(token_program),
        writable_meta(asset_bank),
        writable_meta(liab_bank),
    ]
}

/// Builds the protocol's deposit instruction.
pub fn make_deposit_ix(
    marginfi_program_id: Address,
    marginfi_group: Address,
    marginfi_account: Address,
    signer: Address,
    bank: Address,
    signer_token_account: Address,
    bank_liquidity_vault: Address,
    token_program: Address,
    amount: u64,
) -> (ix: Instruction)
    ensures
        ix@.program == marginfi_program_id,
        ix@.accounts == deposit_accounts(
            marginfi_group,
            marginfi_account,
            signer,
            bank,
            signer_token_account,
            bank_liquidity_vault,
            token_program,
        ),
        ix@.data == deposit_data(amount),
{
    let mut accounts: Vec<AccountMeta> = Vec::new();
    accounts.push(AccountMeta { address: marginfi_group, writable: false, signer: false });
    accounts.push(AccountMeta { address: marginfi_account, writable: true, signer: false });
    accounts.push(AccountMeta { address: signer, writable: true, signer: true });
    accounts.push(AccountMeta { address: bank, writable: true, signer: false });
    accounts.push(AccountMeta { address: signer_token_account, writable: true, signer: false });
    accounts.push(AccountMeta { address: bank_liquidity_vault, writable: true, signer: false });
    accounts.push(AccountMeta { address: token_program, writable: false, signer: false });
    let mut data: Vec<u8> = Vec::new();
    data.push(TAG_DEPOSIT);
    push_u64_le(&mut data, amount);
    proof {
        assert(accounts@ =~= deposit_accounts(
            marginfi_group,
            marginfi_account,
            signer,
            bank,
            signer_token_account,
            bank_liquidity_vault,
            token_program,
        ));
        assert(data@ =~= deposit_data(amount));
    }
    Instruction { program: marginfi_program_id, accounts, data }
}

/// Builds the protocol's repay instruction; `repay_all` changes only the
/// encoded payload, never the account list.
pub fn make_repay_ix(
    marginfi_program_id: Address,
    marginfi_group: Address,
    marginfi_account: Address,
    signer: Address,
    bank: Address,
    signer_token_account: Address,
    bank_liquidity_vault: Address,
    token_program: Address,
    amount: u64,
    repay_all: Option<bool>,
) -> (ix: Instruction)
    ensures
        ix@.program == marginfi_program_id,
        ix@.accounts == repay_accounts(
            marginfi_group,
            marginfi_account,
            signer,
            bank,
            signer_token_account,
            bank_liquidity_vault,
            token_program,
        ),
        ix@.data == repay_data(amount, repay_all),
{
    let mut accounts: Vec<AccountMeta> = Vec::new();
    accounts.push(AccountMeta { address: marginfi_group, writable: false, signer: false });
    accounts.push(AccountMeta { address: marginfi_account, writable: true, signer: false });
    accounts.push(AccountMeta { address: signer, writable: true, signer: true });
    accounts.push(AccountMeta { address: bank, writable: true, signer: false });
    accounts.push(AccountMeta { address: signer_token_account, writable: true, signer: false });
    accounts.push(AccountMeta { address: bank_liquidity_vault, writable: true, signer: false });
    accounts.push(AccountMeta { address: token_program, writable: false, signer: false });
    let mut data: Vec<u8> = Vec::new();
    data.push(TAG_REPAY);
    push_u64_le(&mut data, amount);
    push_opt_bool(&mut data, repay_all);
    proof {
        assert(accounts@ =~= repay_accounts(
            marginfi_group,
            marginfi_account,
            signer,
            bank,
            signer_token_account,
            bank_liquidity_vault,
            token_program,
        ));
        assert(data@ =~= repay_data(amount, repay_all));
    }
    Instruction { program: marginfi_program_id, accounts, data }
}

/// Builds the protocol's withdraw instruction: fixed accounts, then the
/// caller's observation block. `withdraw_all` changes only the payload.
pub fn make_withdraw_ix(
    marginfi_program_id: Address,
    marginfi_group: Address,
    marginfi_account: Address,
    signer: Address,
    bank: Address,
    destination_token_account: Address,
    bank_liquidity_vault_authority: Address,
    bank_liquidity_vault: Address,
    token_program: Address,
    observation_accounts: &Vec<Address>,
    amount: u64,
    withdraw_all: Option<bool>,
) -> (ix: Instruction)
    ensures
        ix@.program == marginfi_program_id,
        ix@.accounts == withdraw_accounts(
            marginfi_group,
            marginfi_account,
            signer,
            bank,
            destination_token_account,
            bank_liquidity_vault_authority,
            bank_liquidity_vault,
            token_program,
        ) + readonly_metas(observation_accounts@),
        ix@.data == withdraw_data(amount, withdraw_all),
{
    let mut accounts: Vec<AccountMeta> = Vec::new();
    accounts.push(AccountMeta { address: marginfi_group, writable: false, signer: false });
    accounts.push(AccountMeta { address: marginfi_account, writable: true, signer: false });
    accounts.push(AccountMeta { address: signer, writable: true, signer: true });
    accounts.push(AccountMeta { address: bank, writable: true, signer: false });
    accounts.push(AccountMeta {
        address: destination_token_account,
        writable: true,
        signer: false,
    });
    accounts.push(AccountMeta {
        address: bank_liquidity_vault_authority,
        writable: false,
        signer: false,
    });
    accounts.push(AccountMeta { address: bank_liquidity_vault, writable: true, signer: false });
    accounts.push(AccountMeta { address: token_program, writable: false, signer: false });
    proof {
        assert(accounts@ =~= withdraw_accounts(
            marginfi_group,
            marginfi_account,
            signer,
            bank,
            destination_token_account,
            bank_liquidity_vault_authority,
            bank_liquidity_vault,
            token_program,
        ));
    }
    push_readonly_metas(&mut accounts, observation_accounts);
    let mut data: Vec<u8> = Vec::new();
    data.push(TAG_WITHDRAW);
    push_u64_le(&mut data, amount);
    push_opt_bool(&mut data, withdraw_all);
    proof {
        assert(data@ =~= withdraw_data(amount, withdraw_all));
    }
    Instruction { program: marginfi_program_id, accounts, data }
}

/// Builds the protocol's liquidate instruction: fixed accounts, then the
/// liquidator's observation block, then the liquidatee's, in that order.
pub fn make_liquidate_ix(
    marginfi_program_id: Address,
    marginfi_group: Address,
    marginfi_account: Address,
    asset_bank: Address,
    liab_bank: Address,
    signer: Address,
    liquidatee_marginfi_account: Address,
    bank_liquidity_vault_authority: Address,
    bank_liquidity_vault: Address,
    bank_insurance_vault: Address,
    token_program: Address,
    liquidator_observation_accounts: &Vec<Address>,
    liquidatee_observation_accounts: &Vec<Address>,
    asset_amount: u64,
) -> (ix: Instruction)
    ensures
        ix@.program == marginfi_program_id,
        ix@.accounts == liquidate_accounts(
            marginfi_group,
            marginfi_account,
            signer,
            liquidatee_marginfi_account,
            bank_liquidity_vault_authority,
            bank_liquidity_vault,
            bank_insurance_vault,
            token_program,
            asset_bank,
            liab_bank,
        ) + readonly_metas(liquidator_observation_accounts@) + readonly_metas(
            liquidatee_observation_accounts@,
        ),
        ix@.data == liquidate_data(asset_amount),
{
    let mut accounts: Vec<AccountMeta> = Vec::new();
    accounts.push(AccountMeta { address: marginfi_group, writable: false, signer: false });
    accounts.push(AccountMeta { address: marginfi_account, writable: true, signer: false });
    accounts.push(AccountMeta { address: signer, writable: true, signer: true });
    accounts.push(AccountMeta {
        address: liquidatee_marginfi_account,
        writable: true,
        signer: false,
    });
    accounts.push(AccountMeta {
        address: bank_liquidity_vault_authority,
        writable: false,
        signer: false,
    });
    accounts.push(AccountMeta { address: bank_liquidity_vault, writable: true, signer: false });
    accounts.push(AccountMeta { address: bank_insurance_vault, writable: true, signer: false });
    accounts.push(AccountMeta { address: token_program, writable: false, signer: false });
    accounts.push(AccountMeta { address: asset_bank, writable: true, signer: false });
    accounts.push(AccountMeta { address: liab_bank, writable: true, signer: false });
    proof {
        assert(accounts@ =~= liquidate_accounts(
            marginfi_group,
            marginfi_account,
            signer,
            liquidatee_marginfi_account,
            bank_liquidity_vault_authority,
            bank_liquidity_vault,
            bank_insurance_vault,
            token_program,
            asset_bank,
            liab_bank,
        ));
    }
    push_readonly_metas(&mut accounts, liquidator_observation_accounts);
    push_readonly_metas(&mut accounts, liquidatee_observation_accounts);
    let mut data: Vec<u8> = Vec::new();
    data.push(TAG_LIQUIDATE);
    push_u64_le(&mut data, asset_amount);
    proof {
        assert(data@ =~= liquidate_data(asset_amount));
    }
    Instruction { program: marginfi_program_id, accounts, data }
}

/// Model of a compute-unit-limit instruction.
pub open spec fn compute_unit_limit_ix_model(program: Address, units: u32) -> InstructionModel {
    InstructionModel {
        program,
        accounts: Seq::empty(),
        data: compute_unit_limit_data(units),
    }
}

/// Model of a compute-unit-price instruction.
pub open spec fn compute_unit_price_ix_model(
    program: Address,
    micro_lamports: u64,
) -> InstructionModel {
    InstructionModel {
        program,
        accounts: Seq::empty(),
        data: compute_unit_price_data(micro_lamports),
    }
}

/// Model of a lamport transfer, as a tip payment uses it.
pub open spec fn transfer_ix_model(
    program: Address,
    from: Address,
    to: Address,
    lamports: u64,
) -> InstructionModel {
    InstructionModel {
        program,
        accounts: seq![signer_meta(from), writable_meta(to)],
        data: transfer_data(lamports),
    }
}

/// Builds the instruction that raises the compute-unit ceiling.
pub fn make_compute_unit_limit_ix(compute_budget_program: Address, units: u32) -> (ix: Instruction)
    ensures
        ix@ == compute_unit_limit_ix_model(compute_budget_program, units),
{
    let accounts: Vec<AccountMeta> = Vec::new();
    let mut data: Vec<u8> = Vec::new();
    data.push(TAG_COMPUTE_UNIT_LIMIT);
    push_u32_le(&mut data, units);
    let ix = Instruction { program: compute_budget_program, accounts, data };
    proof {
        assert(ix@ =~~= compute_unit_limit_ix_model(compute_budget_program, units));
    }
    ix
}

/// Builds the instruction that sets the compute-unit price.
pub fn make_compute_unit_price_ix(
    compute_budget_program: Address,
    micro_lamports: u64,
) -> (ix: Instruction)
    ensures
        ix@ == compute_unit_price_ix_model(compute_budget_program, micro_lamports),
{
    let accounts: Vec<AccountMeta> = Vec::new();
    let mut data: Vec<u8> = Vec::new();
    data.push(TAG_COMPUTE_UNIT_PRICE);
    push_u64_le(&mut data, micro_lamports);
    let ix = Instruction { program: compute_budget_program, accounts, data };
    proof {
        assert(ix@ =~~= compute_unit_price_ix_model(compute_budget_program, micro_lamports));
    }
    ix
}

/// Builds a lamport transfer from the fee payer to a tip account.
pub fn make_transfer_ix(
    system_program: Address,
    from: Address,
    to: Address,
    lamports: u64,
) -> (ix: Instruction)
    ensures
        ix@ == transfer_ix_model(system_program, from, to, lamports),
{
    let mut accounts: Vec<AccountMeta> = Vec::new();
    accounts.push(AccountMeta { address: from, writable: true, signer: true });
    accounts.push(AccountMeta { address: to, writable: true, signer: false });
    let mut data: Vec<u8> = Vec::new();
    data.push(TAG_TRANSFER);
    push_u64_le(&mut data, lamports);
    let ix = Instruction { program: system_program, accounts, data };
    proof {
        assert(ix@ =~~= transfer_ix_model(system_program, from, to, lamports));
    }
    ix
}

} // verus!
