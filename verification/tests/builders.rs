use eva01::instructions::{
    make_compute_unit_limit_ix, make_compute_unit_price_ix, make_deposit_ix, make_liquidate_ix,
    make_repay_ix, make_transfer_ix, make_withdraw_ix, AccountMeta,
};
use eva01::types::Address;

fn addr(id: u64) -> Address {
    Address { id }
}

fn ro(id: u64) -> AccountMeta {
    AccountMeta { address: addr(id), writable: false, signer: false }
}

fn w(id: u64) -> AccountMeta {
    AccountMeta { address: addr(id), writable: true, signer: false }
}

fn s(id: u64) -> AccountMeta {
    AccountMeta { address: addr(id), writable: true, signer: true }
}

#[test]
fn deposit_instruction_is_exact() {
    let ix = make_deposit_ix(
        addr(1),
        addr(2),
        addr(3),
        addr(4),
        addr(5),
        addr(6),
        addr(7),
        addr(8),
        1000,
    );
    assert_eq!(ix.program, addr(1));
    assert_eq!(ix.accounts, vec![ro(2), w(3), s(4), w(5), w(6), w(7), ro(8)]);
    assert_eq!(ix.data, vec![0x01, 0xE8, 0x03, 0, 0, 0, 0, 0, 0]);
}

#[test]
fn repay_payload_encodes_the_all_flag() {
    let full = make_repay_ix(
        addr(1),
        addr(2),
        addr(3),
        addr(4),
        addr(5),
        addr(6),
        addr(7),
        addr(8),
        5,
        Some(true),
    );
    assert_eq!(full.data, vec![0x02, 5, 0, 0, 0, 0, 0, 0, 0, 1, 1]);
    let partial = make_repay_ix(
        addr(1),
        addr(2),
        addr(3),
        addr(4),
        addr(5),
        addr(6),
        addr(7),
        addr(8),
        5,
        None,
    );
    assert_eq!(partial.data, vec![0x02, 5, 0, 0, 0, 0, 0, 0, 0, 0]);
    // The flag changes only the payload, never the account list.
    assert_eq!(full.accounts, partial.accounts);
}

#[test]
fn withdraw_appends_observation_block_readonly() {
    let obs = vec![addr(20), addr(21)];
    let ix = make_withdraw_ix(
        addr(1),
        addr(2),
        addr(3),
        addr(4),
        addr(5),
        addr(6),
        addr(7),
        addr(8),
        addr(9),
        &obs,
        77,
        Some(false),
    );
    assert_eq!(
        ix.accounts,
        vec![ro(2), w(3), s(4), w(5), w(6), ro(7), w(8), ro(9), ro(20), ro(21)]
    );
    assert_eq!(ix.data, vec![0x03, 77, 0, 0, 0, 0, 0, 0, 0, 1, 0]);
}

#[test]
fn liquidate_account_order_is_fixed_then_liquidator_then_liquidatee() {
    let liquidator_obs = vec![addr(31), addr(32), addr(33)];
    let liquidatee_obs = vec![addr(41)];
    let ix = make_liquidate_ix(
        addr(1),
        addr(2),
        addr(3),
        addr(4),
        addr(5),
        addr(6),
        addr(7),
        addr(8),
        addr(9),
        addr(10),
        addr(11),
        &liquidator_obs,
        &liquidatee_obs,
        9,
    );
    assert_eq!(
        ix.accounts,
        vec![
            // Fixed liquidation accounts, in the on-chain program's order.
            ro(2),
            w(3),
            s(6),
            w(7),
            ro(8),
            w(9),
            w(10),
            ro(11),
            w(4),
            w(5),
            // Liquidator observation block.
            ro(31),
            ro(32),
            ro(33),
            // Liquidatee observation block.
            ro(41),
        ]
    );
    assert_eq!(ix.data, vec![0x04, 9, 0, 0, 0, 0, 0, 0, 0]);
}

#[test]
fn build_is_deterministic() {
    let obs_a = vec![addr(31), addr(32)];
    let obs_b = vec![addr(41)];
    let first = make_liquidate_ix(
        addr(1),
        addr(2),
        addr(3),
        addr(4),
        addr(5),
        addr(6),
        addr(7),
        addr(8),
        addr(9),
        addr(10),
        addr(11),
        &obs_a,
        &obs_b,
        123,
    );
    let second = make_liquidate_ix(
        addr(1),
        addr(2),
        addr(3),
        addr(4),
        addr(5),
        addr(6),
        addr(7),
        addr(8),
        addr(9),
        addr(10),
        addr(11),
        &obs_a,
        &obs_b,
        123,
    );
    assert_eq!(first, second);
}

#[test]
fn compute_budget_and_transfer_payloads() {
    let limit = make_compute_unit_limit_ix(addr(90), 400_000);
    assert_eq!(limit.program, addr(90));
    assert!(limit.accounts.is_empty());
    assert_eq!(limit.data, vec![0x10, 0x80, 0x1A, 0x06, 0x00]);

    let price = make_compute_unit_price_ix(addr(90), 256);
    assert_eq!(price.data, vec![0x11, 0, 1, 0, 0, 0, 0, 0, 0]);

    let tip = make_transfer_ix(addr(91), addr(50), addr(60), 10_000);
    assert_eq!(tip.program, addr(91));
    assert_eq!(tip.accounts, vec![s(50), w(60)]);
    assert_eq!(tip.data, vec![0x20, 0x10, 0x27, 0, 0, 0, 0, 0, 0]);
}
