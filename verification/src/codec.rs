//! Instruction payload encoding: every protocol instruction carries a tag
//! byte followed by little-endian fixed-width fields, and an optional flag
//! is one presence byte followed by the flag itself. The byte layout is
//! stated by spec functions and each encoder is proved against them, so a
//! payload is a function of the action's parameters alone.

use vstd::prelude::*;

verus! {

pub const TAG_DEPOSIT: u8 = 0x01;
pub const TAG_REPAY: u8 = 0x02;
pub const TAG_WITHDRAW: u8 = 0x03;
pub const TAG_LIQUIDATE: u8 = 0x04;
pub const TAG_COMPUTE_UNIT_LIMIT: u8 = 0x10;
pub const TAG_COMPUTE_UNIT_PRICE: u8 = 0x11;
pub const TAG_TRANSFER: u8 = 0x20;

/// The eight little-endian bytes of a 64-bit value.
pub open spec fn u64_le_bytes(v: u64) -> Seq<u8> {
    seq![
        (v % 0x100) as u8,
        ((v / 0x100) % 0x100) as u8,
        ((v / 0x10000) % 0x100) as u8,
        ((v / 0x1000000) % 0x100) as u8,
        ((v / 0x100000000) % 0x100) as u8,
        ((v / 0x10000000000) % 0x100) as u8,
        ((v / 0x1000000000000) % 0x100) as u8,
        ((v / 0x100000000000000) % 0x100) as u8,
    ]
}

/// The four little-endian bytes of a 32-bit value.
pub open spec fn u32_le_bytes(v: u32) -> Seq<u8> {
    seq![
        (v % 0x100) as u8,
        ((v / 0x100) % 0x100) as u8,
        ((v / 0x10000) % 0x100) as u8,
        ((v / 0x1000000) % 0x100) as u8,
    ]
}

/// An optional flag: one presence byte, then the flag when present.
pub open spec fn opt_bool_bytes(b: Option<bool>) -> Seq<u8> {
    match b {
        Option::None => seq![0u8],
        Option::Some(f) => seq![1u8, if f { 1u8 } else { 0u8 }],
    }
}

pub open spec fn deposit_data(amount: u64) -> Seq<u8> {
    seq![TAG_DEPOSIT] + u64_le_bytes(amount)
}

pub open spec fn repay_data(amount: u64, repay_all: Option<bool>) -> Seq<u8> {
    seq![TAG_REPAY] + u64_le_bytes(amount) + opt_bool_bytes(repay_all)
}

pub open spec fn withdraw_data(amount: u64, withdraw_all: Option<bool>) -> Seq<u8> {
    seq![TAG_WITHDRAW] + u64_le_bytes(amount) + opt_bool_bytes(withdraw_all)
}

pub open spec fn liquidate_data(asset_amount: u64) -> Seq<u8> {
    seq![TAG_LIQUIDATE] + u64_le_bytes(asset_amount)
}

pub open spec fn compute_unit_limit_data(units: u32) -> Seq<u8> {
    seq![TAG_COMPUTE_UNIT_LIMIT] + u32_le_bytes(units)
}

pub open spec fn compute_unit_price_data(micro_lamports: u64) -> Seq<u8> {
    seq![TAG_COMPUTE_UNIT_PRICE] + u64_le_bytes(micro_lamports)
}

pub open spec fn transfer_data(lamports: u64) -> Seq<u8> {
    seq![TAG_TRANSFER] + u64_le_bytes(lamports)
}

/// Appends the eight little-endian bytes of `v`.
pub fn push_u64_le(out: &mut Vec<u8>, v: u64)
    ensures
        final(out)@ == old(out)@ + u64_le_bytes(v),
{
    out.push((v % 0x100) as u8);
    out.push(((v / 0x100) % 0x100) as u8);
    out.push(((v / 0x10000) % 0x100) as u8);
    out.push(((v / 0x1000000) % 0x100) as u8);
    out.push(((v / 0x100000000) % 0x100) as u8);
    out.push(((v / 0x10000000000) % 0x100) as u8);
    out.push(((v / 0x1000000000000) % 0x100) as u8);
    out.push(((v / 0x100000000000000) % 0x100) as u8);
    proof {
        assert(out@ =~= old(out)@ + u64_le_bytes(v));
    }
}

/// Appends the four little-endian bytes of `v`.
pub fn push_u32_le(out: &mut Vec<u8>, v: u32)
    ensures
        final(out)@ == old(out)@ + u32_le_bytes(v),
{
    out.push((v % 0x100) as u8);
    out.push(((v / 0x100) % 0x100) as u8);
    out.push(((v / 0x10000) % 0x100) as u8);
    out.push(((v / 0x1000000) % 0x100) as u8);
    proof {
        assert(out@ =~= old(out)@ + u32_le_bytes(v));
    }
}

/// Appends an optional flag as `opt_bool_bytes` lays it out.
pub fn push_opt_bool(out: &mut Vec<u8>, b: Option<bool>)
    ensures
        final(out)@ == old(out)@ + opt_bool_bytes(b),
{
    match b {
        Option::None => {
            out.push(0u8);
        },
        Option::Some(f) => {
            out.push(1u8);
            out.push(if f { 1u8 } else { 0u8 });
        },
    }
    proof {
        assert(out@ =~= old(out)@ + opt_bool_bytes(b));
    }
}

} // verus!
