//! The dispatch pipeline: for each inbound action, look up the borrowed
//! bank/account snapshots, assemble the transaction, and select the sender
//! strategy. Dispatching is a pure function of the action and the snapshots,
//! so actions from one producer, processed in arrival order, yield exactly
//! the results of applying that function index by index — the per-producer
//! ordering guarantee. A failed action is recorded and dropped, never
//! retried here: retry of delivery belongs to the senders.

use vstd::prelude::*;

use crate::liquidator_account::{
    deposit_plan, liquidate_plan, repay_plan, tx_result_model, withdraw_plan, LiquidatorAccount,
};
use crate::transaction::{AssembledTransaction, TransactionModel};
use crate::types::{AccountReference, Action, Address, BankReference, BuildError, TxConfig};

verus! {

/// Which submission strategy carries a dispatch. Contested, winner-takes-one
/// actions (liquidation) go through the private relay; everything else takes
/// the direct path.
#[derive(Clone, Copy, PartialEq, Eq, Structural, Debug)]
pub enum SenderKind {
    Direct,
    Bundle,
}

/// The strategy an action calls for.
pub open spec fn sender_for_spec(action: Action) -> SenderKind {
    match action {
        Action::Liquidate { .. } => SenderKind::Bundle,
        _ => SenderKind::Direct,
    }
}

/// Selects the submission strategy for one action.
pub fn select_sender(action: &Action) -> (kind: SenderKind)
    ensures
        kind == sender_for_spec(*action),
{
    match action {
        Action::Liquidate { .. } => SenderKind::Bundle,
        _ => SenderKind::Direct,
    }
}

/// Read-only snapshot of the known banks, refreshed by the external
/// ingestion layer; this pipeline only reads it.
pub struct BankRegistry {
    pub banks: Vec<BankReference>,
}

/// The first bank in the snapshot with the given address.
pub open spec fn find_bank_spec(banks: Seq<BankReference>, address: Address) -> Option<
    BankReference,
>
    decreases banks.len(),
{
    if banks.len() == 0 {
        Option::None
    } else if banks[0].address == address {
        Option::Some(banks[0])
    } else {
        find_bank_spec(banks.drop_first(), address)
    }
}

/// Read-only snapshot of the tracked positions.
pub struct AccountRegistry {
    pub accounts: Vec<AccountReference>,
}

/// The index of the first tracked position with the given address.
pub open spec fn find_account_spec(accounts: Seq<AccountReference>, address: Address) -> Option<
    int,
>
    decreases accounts.len(),
{
    if accounts.len() == 0 {
        Option::None
    } else if accounts[0].address == address {
        Option::Some(0int)
    } else {
        match find_account_spec(accounts.drop_first(), address) {
            Option::Some(i) => Option::Some(i + 1),
            Option::None => Option::None,
        }
    }
}

impl BankRegistry {
    /// Looks a bank up by address.
    pub fn find(&self, address: Address) -> (r: Option<BankReference>)
        ensures
            r == find_bank_spec(self.banks@, address),
    {
        let n = self.banks.len();
        let mut i: usize = 0;
        proof {
            assert(self.banks@.skip(0) =~= self.banks@);
        }
        while i < n
            invariant
                i <= n,
                n == self.banks@.len(),
                find_bank_spec(self.banks@, address) == find_bank_spec(
                    self.banks@.skip(i as int),
                    address,
                ),
            decreases n - i,
        {
            proof {
                assert(self.banks@.skip(i as int)[0] == self.banks@[i as int]);
                assert(self.banks@.skip(i as int).drop_first() =~= self.banks@.skip(i as int + 1));
            }
            if self.banks[i].address == address {
                return Option::Some(self.banks[i]);
            }
            i = i + 1;
        }
        Option::None
    }
}

impl AccountRegistry {
    /// Looks a position up by address, returning its index in the snapshot.
    pub fn find_index(&self, address: Address) -> (r: Option<usize>)
        ensures
            match r {
                Option::Some(i) => find_account_spec(self.accounts@, address) == Option::Some(
                    i as int,
                ) && i < self.accounts@.len(),
                Option::None => find_account_spec(self.accounts@, address) == Option::<int>::None,
            },
    {
        let n = self.accounts.len();
        let mut i: usize = 0;
        proof {
            assert(self.accounts@.skip(0) =~= self.accounts@);
        }
        while i < n
            invariant
                i <= n,
                n == self.accounts@.len(),
                (match find_account_spec(self.accounts@.skip(i as int), address) {
                    Option::Some(k) => find_account_spec(self.accounts@, address) == Option::Some(
                        k + i,
                    ),
                    Option::None => find_account_spec(self.accounts@, address)
                        == Option::<int>::None,
                }),
            decreases n - i,
        {
            proof {
                assert(self.accounts@.skip(i as int)[0] == self.accounts@[i as int]);
                assert(self.accounts@.skip(i as int).drop_first() =~= self.accounts@.skip(
                    i as int + 1,
                ));
            }
            if self.accounts[i].address == address {
                return Option::Some(i);
            }
            i = i + 1;
        }
        Option::None
    }
}

/// An assembled transaction together with the strategy that must carry it.
#[derive(Clone, PartialEq, Eq, Debug)]
pub struct PreparedDispatch {
    pub transaction: AssembledTransaction,
    pub sender: SenderKind,
}

/// The mathematical value of a prepared dispatch.
#[verifier::ext_equal]
pub struct PreparedModel {
    pub transaction: TransactionModel,
    pub sender: SenderKind,
}

impl View for PreparedDispatch {
    type V = PreparedModel;

    open spec fn view(&self) -> PreparedModel {
        PreparedModel { transaction: self.transaction@, sender: self.sender }
    }
}

/// Maps a dispatch result to its model, error unchanged.
pub open spec fn dispatch_result_model(r: Result<PreparedDispatch, BuildError>) -> Result<
    PreparedModel,
    BuildError,
> {
    match r {
        Result::Ok(p) => Result::Ok(p@),
        Result::Err(e) => Result::Err(e),
    }
}

/// Composes a per-action plan with the chosen sender.
pub open spec fn with_sender(
    plan: Result<TransactionModel, BuildError>,
    sender: SenderKind,
) -> Result<PreparedModel, BuildError> {
    match plan {
        Result::Ok(tx) => Result::Ok(PreparedModel { transaction: tx, sender }),
        Result::Err(e) => Result::Err(e),
    }
}

/// What dispatching one action against the given snapshots yields: the
/// assembled transaction and its sender, or the error that stopped it.
pub open spec fn dispatch_plan(
    la: LiquidatorAccount,
    action: Action,
    banks: Seq<BankReference>,
    accounts: Seq<AccountReference>,
    cfg: TxConfig,
) -> Result<PreparedModel, BuildError> {
    match action {
        Action::Deposit { bank, signer_token_account, amount } => {
            match find_bank_spec(banks, bank) {
                Option::None => Result::Err(BuildError::UnknownBank),
                Option::Some(b) => with_sender(
                    deposit_plan(la.context, la.account.address, b, signer_token_account, amount, cfg),
                    SenderKind::Direct,
                ),
            }
        },
        Action::Repay { bank, signer_token_account, amount, repay_all } => {
            match find_bank_spec(banks, bank) {
                Option::None => Result::Err(BuildError::UnknownBank),
                Option::Some(b) => with_sender(
                    repay_plan(
                        la.context,
                        la.account.address,
                        b,
                        signer_token_account,
                        amount,
                        repay_all,
                        cfg,
                    ),
                    SenderKind::Direct,
                ),
            }
        },
        Action::Withdraw { bank, destination_token_account, amount, withdraw_all } => {
            match find_bank_spec(banks, bank) {
                Option::None => Result::Err(BuildError::UnknownBank),
                Option::Some(b) => with_sender(
                    withdraw_plan(
                        la.context,
                        la.account,
                        b,
                        destination_token_account,
                        amount,
                        withdraw_all,
                        cfg,
                    ),
                    SenderKind::Direct,
                ),
            }
        },
        Action::RebalanceWithdraw { bank, destination_token_account, amount } => {
            match find_bank_spec(banks, bank) {
                Option::None => Result::Err(BuildError::UnknownBank),
                Option::Some(b) => with_sender(
                    withdraw_plan(
                        la.context,
                        la.account,
                        b,
                        destination_token_account,
                        amount,
                        Option::None,
                        cfg,
                    ),
                    SenderKind::Direct,
                ),
            }
        },
        Action::RebalanceSwapProceeds { bank, signer_token_account, amount } => {
            match find_bank_spec(banks, bank) {
                Option::None => Result::Err(BuildError::UnknownBank),
                Option::Some(b) => with_sender(
                    deposit_plan(la.context, la.account.address, b, signer_token_account, amount, cfg),
                    SenderKind::Direct,
                ),
            }
        },
        Action::Liquidate { asset_bank, liab_bank, liquidatee, asset_amount } => {
            match find_bank_spec(banks, asset_bank) {
                Option::None => Result::Err(BuildError::UnknownBank),
                Option::Some(ab) => match find_bank_spec(banks, liab_bank) {
                    Option::None => Result::Err(BuildError::UnknownBank),
                    Option::Some(lb) => match find_account_spec(accounts, liquidatee) {
                        Option::None => Result::Err(BuildError::UnknownAccount),
                        Option::Some(idx) => with_sender(
                            liquidate_plan(
                                la.context,
                                la.account,
                                accounts[idx],
                                ab,
                                lb,
                                asset_amount,
                                cfg,
                            ),
                            SenderKind::Bundle,
                        ),
                    },
                },
            }
        },
    }
}

/// Dispatches one action: resolve the snapshots it targets, assemble its
/// transaction, and pair it with the sender its kind calls for.
pub fn dispatch(
    la: &LiquidatorAccount,
    action: &Action,
    banks: &BankRegistry,
    accounts: &AccountRegistry,
    cfg: TxConfig,
) -> (r: Result<PreparedDispatch, BuildError>)
    ensures
        dispatch_result_model(r) == dispatch_plan(*la, *action, banks.banks@, accounts.accounts@, cfg),
{
    match *action {
        Action::Deposit { bank, signer_token_account, amount } => {
            match banks.find(bank) {
                Option::None => Result::Err(BuildError::UnknownBank),
                Option::Some(b) => {
                    match la.deposit(&b, signer_token_account, amount, cfg) {
                        Result::Ok(tx) => Result::Ok(
                            PreparedDispatch { transaction: tx, sender: SenderKind::Direct },
                        ),
                        Result::Err(e) => Result::Err(e),
                    }
                },
            }
        },
        Action::Repay { bank, signer_token_account, amount, repay_all } => {
            match banks.find(bank) {
                Option::None => Result::Err(BuildError::UnknownBank),
                Option::Some(b) => {
                    match la.repay(&b, signer_token_account, amount, repay_all, cfg) {
                        Result::Ok(tx) => Result::Ok(
                            PreparedDispatch { transaction: tx, sender: SenderKind::Direct },
                        ),
                        Result::Err(e) => Result::Err(e),
                    }
                },
            }
        },
        Action::Withdraw { bank, destination_token_account, amount, withdraw_all } => {
            match banks.find(bank) {
                Option::None => Result::Err(BuildError::UnknownBank),
                Option::Some(b) => {
                    match la.withdraw(&b, destination_token_account, amount, withdraw_all, cfg) {
                        Result::Ok(tx) => Result::Ok(
                            PreparedDispatch { transaction: tx, sender: SenderKind::Direct },
                        ),
                        Result::Err(e) => Result::Err(e),
                    }
                },
            }
        },
        Action::RebalanceWithdraw { bank, destination_token_account, amount } => {
            match banks.find(bank) {
                Option::None => Result::Err(BuildError::UnknownBank),
                Option::Some(b) => {
                    match la.withdraw(&b, destination_token_account, amount, Option::None, cfg) {
                        Result::Ok(tx) => Result::Ok(
                            PreparedDispatch { transaction: tx, sender: SenderKind::Direct },
                        ),
                        Result::Err(e) => Result::Err(e),
                    }
                },
            }
        },
        Action::RebalanceSwapProceeds { bank, signer_token_account, amount } => {
            match banks.find(bank) {
                Option::None => Result::Err(BuildError::UnknownBank),
                Option::Some(b) => {
                    match la.deposit(&b, signer_token_account, amount, cfg) {
                        Result::Ok(tx) => Result::Ok(
                            PreparedDispatch { transaction: tx, sender: SenderKind::Direct },
                        ),
                        Result::Err(e) => Result::Err(e),
                    }
                },
            }
        },
        Action::Liquidate { asset_bank, liab_bank, liquidatee, asset_amount } => {
            match banks.find(asset_bank) {
                Option::None => Result::Err(BuildError::UnknownBank),
                Option::Some(ab) => {
                    match banks.find(liab_bank) {
                        Option::None => Result::Err(BuildError::UnknownBank),
                        Option::Some(lb) => {
                            match accounts.find_index(liquidatee) {
                                Option::None => Result::Err(BuildError::UnknownAccount),
                                Option::Some(idx) => {
                                    let target = &accounts.accounts[idx];
                                    match la.liquidate(target, &ab, &lb, asset_amount, cfg) {
                                        Result::Ok(tx) => Result::Ok(
                                            PreparedDispatch {
                                                transaction: tx,
                                                sender: SenderKind::Bundle,
                                            },
                                        ),
                                        Result::Err(e) => Result::Err(e),
                                    }
                                },
                            }
                        },
                    }
                },
            }
        },
    }
}

/// Consumes a producer's queued actions in arrival order. The result list
/// corresponds to the actions index by index: per-producer processing is
/// first-in, first-out, and one action's failure is confined to its own
/// entry.
pub fn run_pipeline(
    la: &LiquidatorAccount,
    actions: &Vec<Action>,
    banks: &BankRegistry,
    accounts: &AccountRegistry,
    cfg: TxConfig,
) -> (results: Vec<Result<PreparedDispatch, BuildError>>)
    ensures
        results@.len() == actions@.len(),
        forall|i: int|
            0 <= i < actions@.len() ==> dispatch_result_model(results@[i]) == dispatch_plan(
                *la,
                actions@[i],
                banks.banks@,
                accounts.accounts@,
                cfg,
            ),
{
    let n = actions.len();
    let mut results: Vec<Result<PreparedDispatch, BuildError>> = Vec::new();
    let mut i: usize = 0;
    while i < n
        invariant
            i <= n,
            n == actions@.len(),
            results@.len() == i,
            forall|k: int|
                0 <= k < i ==> dispatch_result_model(results@[k]) == dispatch_plan(
                    *la,
                    actions@[k],
                    banks.banks@,
                    accounts.accounts@,
                    cfg,
                ),
        decreases n - i,
    {
        let r = dispatch(la, &actions[i], banks, accounts, cfg);
        results.push(r);
        i = i + 1;
    }
    results
}

/// Dispatch is deterministic: two dispatches of the same action against the
/// same snapshots and configuration are identical, down to the instruction
/// bytes of the assembled transactions.
pub proof fn lemma_dispatch_deterministic(
    la: LiquidatorAccount,
    action: Action,
    banks: Seq<BankReference>,
    accounts: Seq<AccountReference>,
    cfg: TxConfig,
    r1: Result<PreparedDispatch, BuildError>,
    r2: Result<PreparedDispatch, BuildError>,
)
    requires
        dispatch_result_model(r1) == dispatch_plan(la, action, banks, accounts, cfg),
        dispatch_result_model(r2) == dispatch_plan(la, action, banks, accounts, cfg),
    ensures
        dispatch_result_model(r1) == dispatch_result_model(r2),
{
}

} // verus!
