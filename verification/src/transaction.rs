//! Transaction assembly and bundles. An assembled transaction is one atomic
//! execution unit: its compute-budget instructions always precede the single
//! protocol instruction. A bundle is an ordered group of assembled
//! transactions submitted as one unit to the relay, with the tip transfer
//! appended as the last instruction of the final transaction.

use vstd::prelude::*;

use crate::instructions::{
    compute_unit_limit_ix_model, compute_unit_price_ix_model, make_compute_unit_limit_ix,
    make_compute_unit_price_ix, make_transfer_ix, transfer_ix_model, Instruction,
    InstructionModel,
};
use crate::types::{Address, BuildContext, TxConfig, COMPUTE_UNIT_LIMIT};

verus! {

/// An ordered instruction list plus the fee-paying signer identity; signing
/// and wire encoding happen outside this crate.
#[derive(Clone, PartialEq, Eq, Debug)]
pub struct AssembledTransaction {
    pub instructions: Vec<Instruction>,
    pub fee_payer: Address,
}

/// The mathematical value of an assembled transaction.
#[verifier::ext_equal]
pub struct TransactionModel {
    pub instructions: Seq<InstructionModel>,
    pub fee_payer: Address,
}

impl View for AssembledTransaction {
    type V = TransactionModel;

    open spec fn view(&self) -> TransactionModel {
        TransactionModel {
            instructions: self.instructions@.map_values(|ix: Instruction| ix@),
            fee_payer: self.fee_payer,
        }
    }
}

/// The assembled instruction order: the compute-unit limit first, then the
/// optional compute-unit price, then the protocol instruction last.
pub open spec fn assemble_spec(
    protocol: InstructionModel,
    cfg: TxConfig,
    ctx: BuildContext,
) -> TransactionModel {
    TransactionModel {
        instructions: match cfg.compute_unit_price_micro_lamports {
            Option::Some(p) => seq![
                compute_unit_limit_ix_model(ctx.compute_budget_program, COMPUTE_UNIT_LIMIT),
                compute_unit_price_ix_model(ctx.compute_budget_program, p),
                protocol,
            ],
            Option::None => seq![
                compute_unit_limit_ix_model(ctx.compute_budget_program, COMPUTE_UNIT_LIMIT),
                protocol,
            ],
        },
        fee_payer: ctx.signer,
    }
}

/// Wraps one protocol instruction into an atomic transaction, with the
/// configured compute-budget instructions ahead of it.
pub fn assemble(protocol_ix: Instruction, cfg: TxConfig, ctx: &BuildContext) -> (tx:
    AssembledTransaction)
    ensures
        tx@ == assemble_spec(protocol_ix@, cfg, *ctx),
{
    let mut instructions: Vec<Instruction> = Vec::new();
    instructions.push(make_compute_unit_limit_ix(ctx.compute_budget_program, COMPUTE_UNIT_LIMIT));
    match cfg.compute_unit_price_micro_lamports {
        Option::Some(p) => {
            instructions.push(make_compute_unit_price_ix(ctx.compute_budget_program, p));
        },
        Option::None => {},
    }
    instructions.push(protocol_ix);
    let tx = AssembledTransaction { instructions, fee_payer: ctx.signer };
    proof {
        assert(tx@ =~~= assemble_spec(protocol_ix@, cfg, *ctx));
    }
    tx
}

/// An assembled transaction is one atomic unit: it carries exactly one
/// protocol instruction, as its last instruction, and every instruction
/// before it is a compute-budget instruction.
pub proof fn lemma_compute_budget_precedes_protocol(
    protocol: InstructionModel,
    cfg: TxConfig,
    ctx: BuildContext,
)
    ensures
        2 <= assemble_spec(protocol, cfg, ctx).instructions.len() <= 3,
        assemble_spec(protocol, cfg, ctx).instructions.last() == protocol,
        forall|k: int|
            0 <= k < assemble_spec(protocol, cfg, ctx).instructions.len() - 1 ==> assemble_spec(
                protocol,
                cfg,
                ctx,
            ).instructions[k].program == ctx.compute_budget_program,
{
}

/// An ordered group of transactions submitted atomically to the relay.
/// Created per dispatch attempt and discarded after one outcome.
#[derive(Clone, PartialEq, Eq, Debug)]
pub struct Bundle {
    pub transactions: Vec<AssembledTransaction>,
}

/// Appends the relay tip transfer as the last instruction of the bundle's
/// final transaction, leaving every other transaction untouched. The final
/// transaction's fee payer funds the tip.
pub fn append_tip(bundle: &mut Bundle, ctx: &BuildContext, tip_account: Address, tip_lamports: u64)
    requires
        old(bundle).transactions@.len() >= 1,
    ensures
        final(bundle).transactions@.len() == old(bundle).transactions@.len(),
        forall|k: int|
            0 <= k < old(bundle).transactions@.len() - 1
                ==> final(bundle).transactions@[k] == old(bundle).transactions@[k],
        final(bundle).transactions@.last().fee_payer
            == old(bundle).transactions@.last().fee_payer,
        final(bundle).transactions@.last().instructions@.len()
            == old(bundle).transactions@.last().instructions@.len() + 1,
        forall|k: int|
            0 <= k < old(bundle).transactions@.last().instructions@.len()
                ==> final(bundle).transactions@.last().instructions@[k]
                == old(bundle).transactions@.last().instructions@[k],
        final(bundle).transactions@.last().instructions@.last()@ == transfer_ix_model(
            ctx.system_program,
            old(bundle).transactions@.last().fee_payer,
            tip_account,
            tip_lamports,
        ),
{
    let mut last_tx = bundle.transactions.pop().unwrap();
    let tip_ix = make_transfer_ix(ctx.system_program, last_tx.fee_payer, tip_account, tip_lamports);
    last_tx.instructions.push(tip_ix);
    bundle.transactions.push(last_tx);
}

} // verus!
