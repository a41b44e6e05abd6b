use eva01::bundle_sender::{BundleSender, RelayCommand, RelayEvent};
use eva01::instructions::AccountMeta;
use eva01::liquidator_account::LiquidatorAccount;
use eva01::pipeline::{dispatch, run_pipeline, AccountRegistry, BankRegistry, SenderKind};
use eva01::transaction::{append_tip, Bundle};
use eva01::types::{
    AccountReference, Action, Address, BankReference, BuildContext, BuildError, SubmissionOutcome,
    TxConfig,
};

fn addr(id: u64) -> Address {
    Address { id }
}

fn ctx() -> BuildContext {
    BuildContext {
        program_id: addr(1),
        group: addr(2),
        token_program: addr(3),
        signer: addr(4),
        compute_budget_program: addr(5),
        system_program: addr(6),
    }
}

fn bank(id: u64) -> BankReference {
    BankReference {
        address: addr(id),
        liquidity_vault: addr(id + 1),
        liquidity_vault_authority: addr(id + 2),
        insurance_vault: addr(id + 3),
        oracle: addr(id + 4),
    }
}

fn agent() -> LiquidatorAccount {
    LiquidatorAccount::new(
        AccountReference { address: addr(100), exposures: vec![addr(10), addr(20)] },
        ctx(),
    )
}

fn registries() -> (BankRegistry, AccountRegistry) {
    let banks = BankRegistry { banks: vec![bank(10), bank(20)] };
    let accounts = AccountRegistry {
        accounts: vec![AccountReference { address: addr(200), exposures: vec![addr(10)] }],
    };
    (banks, accounts)
}

fn no_price() -> TxConfig {
    TxConfig { compute_unit_price_micro_lamports: None }
}

#[test]
fn liquidation_flows_from_action_to_landed_bundle() {
    // Inbound action: liquidate account 200's collateral in bank 10 against
    // its liability in bank 20, seizing 1000 units.
    let (banks, accounts) = registries();
    let action = Action::Liquidate {
        asset_bank: addr(10),
        liab_bank: addr(20),
        liquidatee: addr(200),
        asset_amount: 1000,
    };
    let prepared = dispatch(&agent(), &action, &banks, &accounts, no_price()).unwrap();

    // One atomic transaction: compute-budget limit, then the liquidation.
    assert_eq!(prepared.sender, SenderKind::Bundle);
    assert_eq!(prepared.transaction.fee_payer, addr(4));
    assert_eq!(prepared.transaction.instructions.len(), 2);
    assert_eq!(prepared.transaction.instructions[0].program, addr(5));
    assert_eq!(prepared.transaction.instructions[1].program, addr(1));
    assert_eq!(prepared.transaction.instructions[1].data[0], 0x04);

    // The bundle sender waits out distance 5, submits at distance 1, and the
    // relay confirms; the attempt records the landing.
    let mut bundle = Bundle { transactions: vec![prepared.transaction] };
    append_tip(&mut bundle, &ctx(), addr(77), 10_000);
    let mut sender = BundleSender::new(2);
    let events = vec![
        RelayEvent::DispatchRequested,
        RelayEvent::LeaderDistance { slots: 5 },
        RelayEvent::LeaderDistance { slots: 1 },
        RelayEvent::BundleLanded { slot: 42 },
    ];
    let mut commands = Vec::new();
    for event in &events {
        commands.push(sender.on_event(*event));
    }
    assert_eq!(
        commands,
        vec![
            RelayCommand::OpenResultStream,
            RelayCommand::PollLeader,
            RelayCommand::SubmitBundle,
            RelayCommand::Hold,
        ]
    );
    assert_eq!(sender.outcome(), Some(SubmissionOutcome::Landed { slot: 42 }));
}

#[test]
fn liquidation_observation_blocks_follow_the_fixed_accounts() {
    let (banks, accounts) = registries();
    let action = Action::Liquidate {
        asset_bank: addr(10),
        liab_bank: addr(20),
        liquidatee: addr(200),
        asset_amount: 1000,
    };
    let prepared = dispatch(&agent(), &action, &banks, &accounts, no_price()).unwrap();
    let metas = &prepared.transaction.instructions[1].accounts;
    let observation = |id: u64| AccountMeta { address: addr(id), writable: false, signer: false };
    // Ten fixed accounts, then the liquidator's block (exposures 10 and 20,
    // the anticipated banks adding nothing new), then the liquidatee's.
    assert_eq!(metas.len(), 13);
    assert_eq!(metas[10..], [observation(10), observation(20), observation(10)]);
}

#[test]
fn full_withdrawal_never_observes_the_withdrawn_bank() {
    let (banks, accounts) = registries();
    let action = Action::Withdraw {
        bank: addr(10),
        destination_token_account: addr(50),
        amount: 1,
        withdraw_all: Some(true),
    };
    let prepared = dispatch(&agent(), &action, &banks, &accounts, no_price()).unwrap();
    let metas = &prepared.transaction.instructions[1].accounts;
    // Eight fixed accounts; the observation block keeps only bank 20.
    assert_eq!(metas.len(), 9);
    assert_eq!(metas[8], AccountMeta { address: addr(20), writable: false, signer: false });

    // A partial withdrawal still observes both exposures.
    let partial = Action::Withdraw {
        bank: addr(10),
        destination_token_account: addr(50),
        amount: 1,
        withdraw_all: None,
    };
    let prepared = dispatch(&agent(), &partial, &banks, &accounts, no_price()).unwrap();
    assert_eq!(prepared.transaction.instructions[1].accounts.len(), 10);
}

#[test]
fn tip_transfer_is_the_last_instruction_of_the_final_transaction() {
    let (banks, accounts) = registries();
    let deposit = Action::Deposit { bank: addr(10), signer_token_account: addr(50), amount: 3 };
    let withdraw = Action::RebalanceWithdraw {
        bank: addr(20),
        destination_token_account: addr(50),
        amount: 4,
    };
    let first = dispatch(&agent(), &deposit, &banks, &accounts, no_price()).unwrap();
    let second = dispatch(&agent(), &withdraw, &banks, &accounts, no_price()).unwrap();
    let mut bundle = Bundle { transactions: vec![first.transaction, second.transaction] };
    append_tip(&mut bundle, &ctx(), addr(77), 5_000);
    assert_eq!(bundle.transactions[0].instructions.len(), 2);
    let last_tx = bundle.transactions.last().unwrap();
    let tip = last_tx.instructions.last().unwrap();
    assert_eq!(tip.program, addr(6));
    assert_eq!(tip.data[0], 0x20);
    assert_eq!(tip.accounts[0].address, addr(4));
    assert_eq!(tip.accounts[1].address, addr(77));

    // A single-transaction bundle gets the tip on that same transaction.
    let again = dispatch(&agent(), &deposit, &banks, &accounts, no_price()).unwrap();
    let mut single = Bundle { transactions: vec![again.transaction] };
    append_tip(&mut single, &ctx(), addr(77), 5_000);
    assert_eq!(single.transactions[0].instructions.last().unwrap().data[0], 0x20);
}

#[test]
fn configured_price_adds_one_compute_budget_instruction() {
    let (banks, accounts) = registries();
    let action = Action::Deposit { bank: addr(10), signer_token_account: addr(50), amount: 3 };
    let cfg = TxConfig { compute_unit_price_micro_lamports: Some(250) };
    let prepared = dispatch(&agent(), &action, &banks, &accounts, cfg).unwrap();
    let ixs = &prepared.transaction.instructions;
    assert_eq!(ixs.len(), 3);
    assert_eq!(ixs[0].data[0], 0x10);
    assert_eq!(ixs[1].data[0], 0x11);
    assert_eq!(ixs[2].data[0], 0x01);
}

#[test]
fn zero_addresses_fail_the_build_before_submission() {
    let (banks, accounts) = registries();
    let action = Action::Deposit { bank: addr(10), signer_token_account: addr(0), amount: 3 };
    assert_eq!(
        dispatch(&agent(), &action, &banks, &accounts, no_price()),
        Err(BuildError::MissingAccount)
    );
}

#[test]
fn unknown_bank_and_account_are_reported_as_such() {
    let (banks, accounts) = registries();
    let action = Action::Deposit { bank: addr(999), signer_token_account: addr(50), amount: 3 };
    assert_eq!(
        dispatch(&agent(), &action, &banks, &accounts, no_price()),
        Err(BuildError::UnknownBank)
    );
    let action = Action::Liquidate {
        asset_bank: addr(10),
        liab_bank: addr(20),
        liquidatee: addr(999),
        asset_amount: 1,
    };
    assert_eq!(
        dispatch(&agent(), &action, &banks, &accounts, no_price()),
        Err(BuildError::UnknownAccount)
    );
}

#[test]
fn a_queue_is_processed_in_arrival_order_and_failures_stay_confined() {
    let (banks, accounts) = registries();
    let queue = vec![
        Action::Deposit { bank: addr(10), signer_token_account: addr(50), amount: 1 },
        Action::Deposit { bank: addr(999), signer_token_account: addr(50), amount: 2 },
        Action::Repay {
            bank: addr(20),
            signer_token_account: addr(50),
            amount: 3,
            repay_all: Some(true),
        },
    ];
    let results = run_pipeline(&agent(), &queue, &banks, &accounts, no_price());
    assert_eq!(results.len(), 3);
    assert!(results[0].is_ok());
    assert_eq!(results[1], Err(BuildError::UnknownBank));
    let third = results[2].as_ref().unwrap();
    assert_eq!(third.sender, SenderKind::Direct);
    assert_eq!(third.transaction.instructions[1].data[0], 0x02);
}
