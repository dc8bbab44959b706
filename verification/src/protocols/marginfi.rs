use vstd::prelude::*;
use vstd::string::*;
use vstd::arithmetic::div_mod::{lemma_div_is_ordered, lemma_div_multiples_vanish, lemma_fundamental_div_mod};
use vstd::arithmetic::mul::lemma_mul_inequality;

use crate::common::{has_discriminator, party, starts_with, u64_at, u64_field};
use crate::error::{fail, format_error, ParseResult};
use crate::factory::{
    config_is, inner_metadata, instruction_metadata, push_ok, EventParseConfig,
    OwnedInnerInstructionParseParams, OwnedInstructionParseParams, SolanaTransactionInput,
};
use crate::text::{base58_decode, base58_decoding};
use crate::types::{
    key_of_text, key_or_zero, metadata_is, pubkey_from_text,
    zero_key, EventMetadata, EventParameters, EventType, ProtocolType, ProtocolTypeView, Pubkey,
    TransferData,
};

verus! {

/// The MarginFi program address, as base58 text.
pub const MARGINFI_PROGRAM_ID: &'static str = "MFv2hWf31Z9kbCa1snEPYctwafyhdvnV7FZnsebVacA";

/// The MarginFi bank program address, as base58 text.
pub const MARGINFI_BANK_PROGRAM_ID: &'static str = "4Be9aW2D8f3G2b3ZP8uo5kd9z8zwJ3FYD1tNKmQ9c9xA";

/// Instruction discriminator of lending deposits.
pub const MARGINFI_DEPOSIT_DISCRIMINATOR: [u8; 8] = [0x13, 0x65, 0x32, 0x1f, 0x7a, 0x43, 0x2a, 0x9f];

/// Instruction discriminator of lending withdrawals.
pub const MARGINFI_WITHDRAW_DISCRIMINATOR: [u8; 8] = [0x4c, 0x1c, 0x9b, 0x2d, 0xe3, 0x7a, 0x8b, 0x12];

/// Instruction discriminator of lending borrows.
pub const MARGINFI_BORROW_DISCRIMINATOR: [u8; 8] = [0xa2, 0xfd, 0x67, 0xe3, 0x45, 0x1b, 0x8c, 0x9a];

/// Instruction discriminator of lending repayments.
pub const MARGINFI_REPAY_DISCRIMINATOR: [u8; 8] = [0x85, 0x72, 0x1a, 0x5f, 0x9d, 0x4e, 0x23, 0x7c];

/// Instruction discriminator of liquidations.
pub const MARGINFI_LIQUIDATE_DISCRIMINATOR: [u8; 8] = [0x6a, 0x8b, 0x47, 0x2e, 0x1c, 0x93, 0x5f, 0x4d];

/// The kinds of MarginFi accounts.
#[derive(Debug, Clone, PartialEq, Eq, Structural)]
pub enum MarginFiAccountType {
    Bank,
    MarginfiAccount,
    MarginfiGroup,
    Unknown,
}

/// The configuration of a lending bank.
#[derive(Debug, Clone)]
pub struct MarginFiBankConfig {
    pub bank: Pubkey,
    pub bank_authority: Pubkey,
    pub borrow_limit: u64,
    pub collected_insurance_fees_outstanding: u64,
    pub deposit_limit: u64,
    pub fee_rate: u64,
    pub insurance_fee_rate: u64,
    pub insurance_vault: Pubkey,
    pub mint: Pubkey,
    pub operational_state: u8,
    pub oracle: Pubkey,
    pub oracle_keys: [Pubkey; 5],
    pub oracle_setup: u8,
    pub vault: Pubkey,
}

/// The state of a lending bank.
#[derive(Debug, Clone)]
pub struct MarginFiBankState {
    pub asset_share_value: u128,
    pub borrowing_rate: u64,
    pub collected_group_fees_outstanding: u64,
    pub fee_vault: Pubkey,
    pub fee_vault_authority: Pubkey,
    pub fee_vault_authority_bump: u8,
    pub insurance_vault_authority: Pubkey,
    pub insurance_vault_authority_bump: u8,
    pub last_update: u64,
    pub lending_rate: u64,
    pub liability_share_value: u128,
    pub liquidity_vault_authority: Pubkey,
    pub liquidity_vault_authority_bump: u8,
    pub total_asset_shares: u128,
    pub total_liability_shares: u128,
}

/// One balance of a lending account.
#[derive(Debug, Clone)]
pub struct MarginFiBalance {
    pub active: bool,
    pub asset_shares: u128,
    pub bank_pk: Pubkey,
    pub emissions_outstanding: u64,
    pub last_update: u64,
    pub liability_shares: u128,
    pub padding: [u64; 1],
}

/// The balances of a lending account.
#[derive(Debug, Clone)]
pub struct MarginFiLendingAccount {
    pub balances: [MarginFiBalance; 16],
    pub padding: [u64; 8],
}

/// A user's MarginFi account.
#[derive(Debug, Clone)]
pub struct MarginFiAccount {
    pub account_flags: u64,
    pub authority: Pubkey,
    pub group: Pubkey,
    pub lending_account: MarginFiLendingAccount,
    pub padding: [u128; 8],
}

/// The MarginFi program address; the zero address were the text not to name one.
pub fn program_id() -> (k: Pubkey)
    ensures
        k@ == key_or_zero(key_of_text(MARGINFI_PROGRAM_ID@)),
{
    match pubkey_from_text(MARGINFI_PROGRAM_ID) {
        Some(k) => k,
        None => Pubkey::default(),
    }
}

/// The MarginFi bank program address; the zero address were the text not to name one.
pub fn bank_program_id() -> (k: Pubkey)
    ensures
        k@ == key_or_zero(key_of_text(MARGINFI_BANK_PROGRAM_ID@)),
{
    match pubkey_from_text(MARGINFI_BANK_PROGRAM_ID) {
        Some(k) => k,
        None => Pubkey::default(),
    }
}

/// Whether `prog_id` is one of the two MarginFi programs.
pub fn is_marginfi_program(prog_id: &Pubkey) -> (r: bool)
    ensures
        r == (prog_id@ == key_or_zero(key_of_text(MARGINFI_PROGRAM_ID@)) || prog_id@ == key_or_zero(
            key_of_text(MARGINFI_BANK_PROGRAM_ID@),
        )),
{
    *prog_id == program_id() || *prog_id == bank_program_id()
}

// ---------------------------------------------------------------------------
// Lending arithmetic
// ---------------------------------------------------------------------------

/// Two to the 64th: the fixed-point unit of share values.
pub open spec fn share_unit() -> int {
    0x1_0000_0000_0000_0000
}

/// The liquidation threshold: the asset value times the LTV in basis points, or `None` where
/// the product overflows.
pub open spec fn liquidation_threshold(total_asset_value: u128, liquidation_ltv: u64) -> Option<u128> {
    if total_asset_value * liquidation_ltv <= u128::MAX {
        Some(((total_asset_value * liquidation_ltv) / 10_000) as u128)
    } else {
        None
    }
}

/// The token amount that `shares` stand for at `share_value` (a 64.64 fixed-point number),
/// rounded down, or `None` where the product overflows.
pub open spec fn amount_of_shares(shares: u128, share_value: u128) -> Option<u64> {
    if shares * share_value <= u128::MAX {
        Some(((shares * share_value) / share_unit()) as u64)
    } else {
        None
    }
}

/// The shares that `amount` buys at `share_value`, rounded down; a zero share value counts
/// shares one for one.
pub open spec fn shares_of_amount(amount: u64, share_value: u128) -> u128 {
    if share_value == 0 {
        amount as u128
    } else {
        ((amount * share_unit()) / (share_value as int)) as u128
    }
}

/// The borrow rate at a utilization, in basis points: the base rate plus the first slope
/// scaled up to the optimal utilization, and beyond it the second slope scaled over the rest;
/// `None` where a step overflows or the optimal utilization exceeds 100%.
pub open spec fn interest_rate(
    utilization_rate: u64,
    base_rate: u64,
    slope1: u64,
    slope2: u64,
    optimal_utilization: u64,
) -> Option<u64> {
    if utilization_rate <= optimal_utilization {
        if optimal_utilization == 0 {
            Some(base_rate)
        } else if utilization_rate * slope1 > u64::MAX {
            None
        } else if base_rate + (utilization_rate * slope1) / (optimal_utilization as int) > u64::MAX {
            None
        } else {
            Some((base_rate + (utilization_rate * slope1) / (optimal_utilization as int)) as u64)
        }
    } else if optimal_utilization > 10_000 {
        None
    } else if optimal_utilization == 10_000 {
        Some(base_rate)
    } else if (utilization_rate - optimal_utilization) * slope2 > u64::MAX {
        None
    } else if base_rate + slope1 > u64::MAX {
        None
    } else if base_rate + slope1 + ((utilization_rate - optimal_utilization) * slope2) / (
    10_000 - optimal_utilization) > u64::MAX {
        None
    } else {
        Some(
            (base_rate + slope1 + ((utilization_rate - optimal_utilization) * slope2) / (10_000
                - optimal_utilization)) as u64,
        )
    }
}

/// The liquidation threshold of an account, or `None` where the product overflows.
pub fn calculate_liquidation_threshold(total_asset_value: u128, liquidation_ltv: u64) -> (r: Option<u128>)
    ensures
        r == liquidation_threshold(total_asset_value, liquidation_ltv),
{
    let ltv_factor = liquidation_ltv as u128;
    match total_asset_value.checked_mul(ltv_factor) {
        Some(multiplied) => multiplied.checked_div(10_000),
        None => None,
    }
}

/// Converts shares to a token amount at a share value, or `None` where the product overflows.
pub fn shares_to_amount(shares: u128, share_value: u128) -> (r: Option<u64>)
    ensures
        r == amount_of_shares(shares, share_value),
{
    let unit: u128 = 1u128 << 64;
    proof {
        assert(unit == 0x1_0000_0000_0000_0000u128) by (bit_vector)
            requires
                unit == 1u128 << 64,
        ;
    }
    let product = match shares.checked_mul(share_value) {
        Some(p) => p,
        None => return None,
    };
    let quotient = match product.checked_div(unit) {
        Some(q) => q,
        None => return None,
    };
    proof {
        lemma_div_is_ordered(product as int, u128::MAX as int, share_unit());
        assert(u128::MAX as int / share_unit() <= u64::MAX);
    }
    if quotient <= u64::MAX as u128 {
        Some(quotient as u64)
    } else {
        None
    }
}

/// Converts a token amount to shares at a share value; a zero share value counts one for one.
/// The conversion cannot overflow, so it always gives shares.
pub fn amount_to_shares(amount: u64, share_value: u128) -> (r: Option<u128>)
    ensures
        r == Some(shares_of_amount(amount, share_value)),
{
    if share_value == 0 {
        return Some(amount as u128);
    }
    let unit: u128 = 1u128 << 64;
    proof {
        assert(unit == 0x1_0000_0000_0000_0000u128) by (bit_vector)
            requires
                unit == 1u128 << 64,
        ;
        assert(amount * share_unit() <= u128::MAX) by (nonlinear_arith)
            requires
                amount <= u64::MAX,
                share_unit() == 0x1_0000_0000_0000_0000,
        ;
    }
    match (amount as u128).checked_mul(unit) {
        Some(multiplied) => multiplied.checked_div(share_value),
        None => None,
    }
}

/// The borrow rate at a utilization, or `None` where a step overflows.
pub fn calculate_interest_rate(
    utilization_rate: u64,
    base_rate: u64,
    slope1: u64,
    slope2: u64,
    optimal_utilization: u64,
) -> (r: Option<u64>)
    ensures
        r == interest_rate(utilization_rate, base_rate, slope1, slope2, optimal_utilization),
{
    if utilization_rate <= optimal_utilization {
        if optimal_utilization == 0 {
            return Some(base_rate);
        }
        if let Some(mul_result) = utilization_rate.checked_mul(slope1) {
            if let Some(slope_calc) = mul_result.checked_div(optimal_utilization) {
                return base_rate.checked_add(slope_calc);
            }
        }
        return None;
    }
    if let Some(excess_utilization) = utilization_rate.checked_sub(optimal_utilization) {
        if let Some(max_excess) = 10_000u64.checked_sub(optimal_utilization) {
            if max_excess == 0 {
                return Some(base_rate);
            }
            if let Some(mul_result) = excess_utilization.checked_mul(slope2) {
                if let Some(slope_calc) = mul_result.checked_div(max_excess) {
                    if let Some(base_plus_slope1) = base_rate.checked_add(slope1) {
                        return base_plus_slope1.checked_add(slope_calc);
                    }
                }
            }
        }
    }
    None
}

/// A rate, where there is one, is never below the base rate.
pub proof fn interest_rate_at_least_base(
    utilization_rate: u64,
    base_rate: u64,
    slope1: u64,
    slope2: u64,
    optimal_utilization: u64,
)
    requires
        interest_rate(utilization_rate, base_rate, slope1, slope2, optimal_utilization) is Some,
    ensures
        interest_rate(utilization_rate, base_rate, slope1, slope2, optimal_utilization)->0
            >= base_rate,
{
}

/// A higher utilization never gives a lower rate, for any optimal utilization but exactly 100%,
/// where a utilization above 100% falls back to the base rate.
pub proof fn interest_rate_monotone(
    low: u64,
    high: u64,
    base_rate: u64,
    slope1: u64,
    slope2: u64,
    optimal_utilization: u64,
)
    requires
        low <= high,
        optimal_utilization != 10_000,
        interest_rate(low, base_rate, slope1, slope2, optimal_utilization) is Some,
        interest_rate(high, base_rate, slope1, slope2, optimal_utilization) is Some,
    ensures
        interest_rate(low, base_rate, slope1, slope2, optimal_utilization)->0 <= interest_rate(
            high,
            base_rate,
            slope1,
            slope2,
            optimal_utilization,
        )->0,
{
    let opt = optimal_utilization as int;
    if high <= optimal_utilization {
        if opt > 0 {
            lemma_mul_inequality(low as int, high as int, slope1 as int);
            lemma_div_is_ordered(low * slope1, high * slope1, opt);
        }
    } else if low > optimal_utilization {
        lemma_mul_inequality(low - opt, high - opt, slope2 as int);
        lemma_div_is_ordered((low - opt) * slope2, (high - opt) * slope2, 10_000 - opt);
    } else if opt > 0 {
        lemma_mul_inequality(low as int, opt, slope1 as int);
        lemma_div_is_ordered(low * slope1, opt * slope1, opt);
        lemma_div_multiples_vanish(slope1 as int, opt);
        assert(opt * slope1 == slope1 * opt) by (nonlinear_arith);
    }
}

/// The liquidation threshold never exceeds the asset value while the LTV is at most 100%.
pub proof fn liquidation_threshold_within_assets(total_asset_value: u128, liquidation_ltv: u64)
    requires
        liquidation_ltv <= 10_000,
        liquidation_threshold(total_asset_value, liquidation_ltv) is Some,
    ensures
        liquidation_threshold(total_asset_value, liquidation_ltv)->0 <= total_asset_value,
{
    lemma_mul_inequality(liquidation_ltv as int, 10_000, total_asset_value as int);
    lemma_div_is_ordered(
        total_asset_value * liquidation_ltv,
        10_000 * total_asset_value,
        10_000,
    );
    lemma_div_multiples_vanish(total_asset_value as int, 10_000);
    assert(liquidation_ltv * total_asset_value == total_asset_value * liquidation_ltv) by (nonlinear_arith);
}

/// Turning an amount into shares and the shares back into an amount never gives more than
/// the amount: both conversions round down.
pub proof fn shares_round_trip_never_gains(amount: u64, share_value: u128)
    requires
        amount_of_shares(shares_of_amount(amount, share_value), share_value) is Some,
    ensures
        amount_of_shares(shares_of_amount(amount, share_value), share_value)->0 <= amount,
{
    let s = shares_of_amount(amount, share_value);
    let unit = share_unit();
    if share_value == 0 {
        assert(s * share_value == 0) by (nonlinear_arith)
            requires
                share_value == 0,
        ;
    } else {
        let x = amount * unit;
        let d = share_value as int;
        assert(x <= u128::MAX) by (nonlinear_arith)
            requires
                amount <= u64::MAX,
                unit == 0x1_0000_0000_0000_0000,
                x == amount * unit,
        ;
        lemma_fundamental_div_mod(x, d);
        assert(s == x / d);
        assert((x / d) * d <= x) by (nonlinear_arith)
            requires
                d > 0,
                x >= 0,
                x == d * (x / d) + x % d,
                x % d >= 0,
        ;
        assert(s * share_value <= x) by (nonlinear_arith)
            requires
                (x / d) * d <= x,
                s == x / d,
                d == share_value,
        ;
        lemma_div_is_ordered(s * share_value, x, unit);
        lemma_div_multiples_vanish(amount as int, unit);
        assert(unit * amount == amount * unit) by (nonlinear_arith);
    }
}

// ---------------------------------------------------------------------------
// Instruction and log records
// ---------------------------------------------------------------------------

/// Whether `m` is the metadata that a MarginFi event built from the table metadata `src`
/// carries: the same identifier, signature, slot and index, a block time and a received time of
/// zero, the event's own type and the MarginFi protocol.
pub open spec fn marginfi_metadata(m: EventMetadata, src: EventMetadata, event_type: EventType) -> bool {
    metadata_is(
        m,
        src.id@,
        src.signature@,
        src.slot,
        Some(0i64),
        0i64,
        src.index@,
        event_type,
        ProtocolTypeView::MarginFi,
    )
}

fn event_metadata(m: &EventMetadata, event_type: EventType) -> (r: EventMetadata)
    ensures
        marginfi_metadata(r, *m, event_type),
{
    EventMetadata {
        id: m.id.clone(),
        signature: m.signature.clone(),
        slot: m.slot,
        block_time: Some(0),
        received_time_ms: 0,
        index: m.index.clone(),
        event_type,
        protocol_type: ProtocolType::MarginFi,
    }
}

/// Whether `m` is the metadata that a MarginFi event constructor builds from `p`: its
/// identifier, signature, slot, block time and index, a received time of zero, the event's own
/// type and the MarginFi protocol.
pub open spec fn marginfi_metadata_from(m: EventMetadata, p: EventParameters, event_type: EventType) -> bool {
    metadata_is(
        m,
        p.id@,
        p.signature@,
        p.slot,
        Some(p.block_time),
        0i64,
        p.index@,
        event_type,
        ProtocolTypeView::MarginFi,
    )
}

fn metadata_of_parameters(p: EventParameters, event_type: EventType) -> (m: EventMetadata)
    ensures
        marginfi_metadata_from(m, p, event_type),
{
    EventMetadata {
        id: p.id,
        signature: p.signature,
        slot: p.slot,
        block_time: Some(p.block_time),
        received_time_ms: 0,
        index: p.index,
        event_type,
        protocol_type: ProtocolType::MarginFi,
    }
}

/// What a deposit instruction carries.
#[derive(Debug, Clone)]
pub struct MarginFiDepositData {
    pub amount: u64,
    pub bank: Pubkey,
    pub bank_liquidity_vault: Pubkey,
    pub marginfi_account: Pubkey,
    pub marginfi_group: Pubkey,
    pub signer: Pubkey,
    pub token_account: Pubkey,
    pub token_program: Pubkey,
}

/// What a withdraw instruction carries.
#[derive(Debug, Clone)]
pub struct MarginFiWithdrawData {
    pub amount: u64,
    pub bank: Pubkey,
    pub bank_liquidity_vault: Pubkey,
    pub bank_liquidity_vault_authority: Pubkey,
    pub marginfi_account: Pubkey,
    pub marginfi_group: Pubkey,
    pub signer: Pubkey,
    pub token_account: Pubkey,
    pub token_program: Pubkey,
    pub withdraw_all: bool,
}

/// What a borrow instruction carries.
#[derive(Debug, Clone)]
pub struct MarginFiBorrowData {
    pub amount: u64,
    pub bank: Pubkey,
    pub bank_liquidity_vault: Pubkey,
    pub bank_liquidity_vault_authority: Pubkey,
    pub marginfi_account: Pubkey,
    pub marginfi_group: Pubkey,
    pub signer: Pubkey,
    pub token_account: Pubkey,
    pub token_program: Pubkey,
}

/// What a repay instruction carries.
#[derive(Debug, Clone)]
pub struct MarginFiRepayData {
    pub amount: u64,
    pub bank: Pubkey,
    pub bank_liquidity_vault: Pubkey,
    pub marginfi_account: Pubkey,
    pub marginfi_group: Pubkey,
    pub repay_all: bool,
    pub signer: Pubkey,
    pub token_account: Pubkey,
    pub token_program: Pubkey,
}

/// What a liquidation instruction carries.
#[derive(Debug, Clone)]
pub struct MarginFiLiquidationData {
    pub asset_amount: u64,
    pub asset_bank: Pubkey,
    pub asset_bank_liquidity_vault: Pubkey,
    pub liab_amount: u64,
    pub liab_bank: Pubkey,
    pub liab_bank_liquidity_vault: Pubkey,
    pub liquidatee_marginfi_account: Pubkey,
    pub liquidator: Pubkey,
    pub liquidator_marginfi_account: Pubkey,
    pub liquidator_token_account: Pubkey,
    pub marginfi_group: Pubkey,
    pub token_program: Pubkey,
}

impl Default for MarginFiDepositData {
    fn default() -> (r: MarginFiDepositData)
        ensures
            r.amount == 0,
            r.bank@ == zero_key(),
            r.bank_liquidity_vault@ == zero_key(),
            r.marginfi_account@ == zero_key(),
            r.marginfi_group@ == zero_key(),
            r.signer@ == zero_key(),
            r.token_account@ == zero_key(),
            r.token_program@ == zero_key(),
    {
        MarginFiDepositData {
            amount: 0,
            bank: Pubkey::default(),
            bank_liquidity_vault: Pubkey::default(),
            marginfi_account: Pubkey::default(),
            marginfi_group: Pubkey::default(),
            signer: Pubkey::default(),
            token_account: Pubkey::default(),
            token_program: Pubkey::default(),
        }
    }
}

impl Default for MarginFiWithdrawData {
    fn default() -> (r: MarginFiWithdrawData)
        ensures
            r.amount == 0,
            r.bank@ == zero_key(),
            r.bank_liquidity_vault@ == zero_key(),
            r.bank_liquidity_vault_authority@ == zero_key(),
            r.marginfi_account@ == zero_key(),
            r.marginfi_group@ == zero_key(),
            r.signer@ == zero_key(),
            r.token_account@ == zero_key(),
            r.token_program@ == zero_key(),
            !r.withdraw_all,
    {
        MarginFiWithdrawData {
            amount: 0,
            bank: Pubkey::default(),
            bank_liquidity_vault: Pubkey::default(),
            bank_liquidity_vault_authority: Pubkey::default(),
            marginfi_account: Pubkey::default(),
            marginfi_group: Pubkey::default(),
            signer: Pubkey::default(),
            token_account: Pubkey::default(),
            token_program: Pubkey::default(),
            withdraw_all: false,
        }
    }
}

impl Default for MarginFiBorrowData {
    fn default() -> (r: MarginFiBorrowData)
        ensures
            r.amount == 0,
            r.bank@ == zero_key(),
            r.bank_liquidity_vault@ == zero_key(),
            r.bank_liquidity_vault_authority@ == zero_key(),
            r.marginfi_account@ == zero_key(),
            r.marginfi_group@ == zero_key(),
            r.signer@ == zero_key(),
            r.token_account@ == zero_key(),
            r.token_program@ == zero_key(),
    {
        MarginFiBorrowData {
            amount: 0,
            bank: Pubkey::default(),
            bank_liquidity_vault: Pubkey::default(),
            bank_liquidity_vault_authority: Pubkey::default(),
            marginfi_account: Pubkey::default(),
            marginfi_group: Pubkey::default(),
            signer: Pubkey::default(),
            token_account: Pubkey::default(),
            token_program: Pubkey::default(),
        }
    }
}

impl Default for MarginFiRepayData {
    fn default() -> (r: MarginFiRepayData)
        ensures
            r.amount == 0,
            r.bank@ == zero_key(),
            r.bank_liquidity_vault@ == zero_key(),
            r.marginfi_account@ == zero_key(),
            r.marginfi_group@ == zero_key(),
            !r.repay_all,
            r.signer@ == zero_key(),
            r.token_account@ == zero_key(),
            r.token_program@ == zero_key(),
    {
        MarginFiRepayData {
            amount: 0,
            bank: Pubkey::default(),
            bank_liquidity_vault: Pubkey::default(),
            marginfi_account: Pubkey::default(),
            marginfi_group: Pubkey::default(),
            repay_all: false,
            signer: Pubkey::default(),
            token_account: Pubkey::default(),
            token_program: Pubkey::default(),
        }
    }
}

impl Default for MarginFiLiquidationData {
    fn default() -> (r: MarginFiLiquidationData)
        ensures
            r.asset_amount == 0,
            r.asset_bank@ == zero_key(),
            r.asset_bank_liquidity_vault@ == zero_key(),
            r.liab_amount == 0,
            r.liab_bank@ == zero_key(),
            r.liab_bank_liquidity_vault@ == zero_key(),
            r.liquidatee_marginfi_account@ == zero_key(),
            r.liquidator@ == zero_key(),
            r.liquidator_marginfi_account@ == zero_key(),
            r.liquidator_token_account@ == zero_key(),
            r.marginfi_group@ == zero_key(),
            r.token_program@ == zero_key(),
    {
        MarginFiLiquidationData {
            asset_amount: 0,
            asset_bank: Pubkey::default(),
            asset_bank_liquidity_vault: Pubkey::default(),
            liab_amount: 0,
            liab_bank: Pubkey::default(),
            liab_bank_liquidity_vault: Pubkey::default(),
            liquidatee_marginfi_account: Pubkey::default(),
            liquidator: Pubkey::default(),
            liquidator_marginfi_account: Pubkey::default(),
            liquidator_token_account: Pubkey::default(),
            marginfi_group: Pubkey::default(),
            token_program: Pubkey::default(),
        }
    }
}

/// A deposit into a lending bank.
#[derive(Debug, Clone)]
pub struct MarginFiDepositEvent {
    pub deposit_data: MarginFiDepositData,
    pub metadata: EventMetadata,
    pub transfer_data: Vec<TransferData>,
}

/// A withdrawal from a lending bank.
#[derive(Debug, Clone)]
pub struct MarginFiWithdrawEvent {
    pub withdraw_data: MarginFiWithdrawData,
    pub metadata: EventMetadata,
    pub transfer_data: Vec<TransferData>,
}

/// A borrow from a lending bank.
#[derive(Debug, Clone)]
pub struct MarginFiBorrowEvent {
    pub borrow_data: MarginFiBorrowData,
    pub metadata: EventMetadata,
    pub transfer_data: Vec<TransferData>,
}

/// A repayment to a lending bank.
#[derive(Debug, Clone)]
pub struct MarginFiRepayEvent {
    pub repay_data: MarginFiRepayData,
    pub metadata: EventMetadata,
    pub transfer_data: Vec<TransferData>,
}

/// A liquidation.
#[derive(Debug, Clone)]
pub struct MarginFiLiquidationEvent {
    pub liquidation_data: MarginFiLiquidationData,
    pub metadata: EventMetadata,
    pub transfer_data: Vec<TransferData>,
}

impl MarginFiDepositEvent {
    /// A deposit described by `deposit_data`, with metadata built from `params`, a received time of zero and no transfers.
    pub fn new(params: EventParameters, deposit_data: MarginFiDepositData) -> (e: MarginFiDepositEvent)
        ensures
            marginfi_metadata_from(e.metadata, params, EventType::Deposit),
            e.deposit_data == deposit_data,
            e.transfer_data@.len() == 0,
    {
        MarginFiDepositEvent {
            deposit_data,
            metadata: metadata_of_parameters(params, EventType::Deposit),
            transfer_data: Vec::new(),
        }
    }

    /// The same event with `transfer_data` as its transfers.
    pub fn with_transfer_data(self, transfer_data: Vec<TransferData>) -> (e: MarginFiDepositEvent)
        ensures
            e == (MarginFiDepositEvent { transfer_data, ..self }),
    {
        MarginFiDepositEvent { transfer_data, ..self }
    }
}

impl MarginFiWithdrawEvent {
    /// A withdrawal described by `withdraw_data`, with metadata built from `params`, a received time of zero and no transfers.
    pub fn new(params: EventParameters, withdraw_data: MarginFiWithdrawData) -> (e: MarginFiWithdrawEvent)
        ensures
            marginfi_metadata_from(e.metadata, params, EventType::Withdraw),
            e.withdraw_data == withdraw_data,
            e.transfer_data@.len() == 0,
    {
        MarginFiWithdrawEvent {
            withdraw_data,
            metadata: metadata_of_parameters(params, EventType::Withdraw),
            transfer_data: Vec::new(),
        }
    }

    /// The same event with `transfer_data` as its transfers.
    pub fn with_transfer_data(self, transfer_data: Vec<TransferData>) -> (e: MarginFiWithdrawEvent)
        ensures
            e == (MarginFiWithdrawEvent { transfer_data, ..self }),
    {
        MarginFiWithdrawEvent { transfer_data, ..self }
    }
}

impl MarginFiBorrowEvent {
    /// A borrow described by `borrow_data`, with metadata built from `params`, a received time of zero and no transfers.
    pub fn new(params: EventParameters, borrow_data: MarginFiBorrowData) -> (e: MarginFiBorrowEvent)
        ensures
            marginfi_metadata_from(e.metadata, params, EventType::Borrow),
            e.borrow_data == borrow_data,
            e.transfer_data@.len() == 0,
    {
        MarginFiBorrowEvent {
            borrow_data,
            metadata: metadata_of_parameters(params, EventType::Borrow),
            transfer_data: Vec::new(),
        }
    }

    /// The same event with `transfer_data` as its transfers.
    pub fn with_transfer_data(self, transfer_data: Vec<TransferData>) -> (e: MarginFiBorrowEvent)
        ensures
            e == (MarginFiBorrowEvent { transfer_data, ..self }),
    {
        MarginFiBorrowEvent { transfer_data, ..self }
    }
}

impl MarginFiRepayEvent {
    /// A repayment described by `repay_data`, with metadata built from `params`, a received time of zero and no transfers.
    pub fn new(params: EventParameters, repay_data: MarginFiRepayData) -> (e: MarginFiRepayEvent)
        ensures
            marginfi_metadata_from(e.metadata, params, EventType::Repay),
            e.repay_data == repay_data,
            e.transfer_data@.len() == 0,
    {
        MarginFiRepayEvent {
            repay_data,
            metadata: metadata_of_parameters(params, EventType::Repay),
            transfer_data: Vec::new(),
        }
    }

    /// The same event with `transfer_data` as its transfers.
    pub fn with_transfer_data(self, transfer_data: Vec<TransferData>) -> (e: MarginFiRepayEvent)
        ensures
            e == (MarginFiRepayEvent { transfer_data, ..self }),
    {
        MarginFiRepayEvent { transfer_data, ..self }
    }
}

impl MarginFiLiquidationEvent {
    /// A liquidation described by `liquidation_data`, with metadata built from `params`, a received time of zero and no transfers.
    pub fn new(params: EventParameters, liquidation_data: MarginFiLiquidationData) -> (e: MarginFiLiquidationEvent)
        ensures
            marginfi_metadata_from(e.metadata, params, EventType::Liquidate),
            e.liquidation_data == liquidation_data,
            e.transfer_data@.len() == 0,
    {
        MarginFiLiquidationEvent {
            liquidation_data,
            metadata: metadata_of_parameters(params, EventType::Liquidate),
            transfer_data: Vec::new(),
        }
    }

    /// The same event with `transfer_data` as its transfers.
    pub fn with_transfer_data(self, transfer_data: Vec<TransferData>) -> (e: MarginFiLiquidationEvent)
        ensures
            e == (MarginFiLiquidationEvent { transfer_data, ..self }),
    {
        MarginFiLiquidationEvent { transfer_data, ..self }
    }
}

/// An event decoded from a MarginFi instruction or log.
#[derive(Debug, Clone)]
pub enum MarginFiEvent {
    Deposit(MarginFiDepositEvent),
    Withdraw(MarginFiWithdrawEvent),
    Borrow(MarginFiBorrowEvent),
    Repay(MarginFiRepayEvent),
    Liquidation(MarginFiLiquidationEvent),
}

/// Whether `d` holds the amount of a deposit record in `data` and, where at least 8
/// accounts are given, the parties named by them; the other parties are the zero address.
pub open spec fn deposit_fields(d: MarginFiDepositData, data: Seq<u8>, accounts: Seq<Pubkey>) -> bool {
    &&& d.amount == u64_at(data, 8)
    &&& d.bank@ == party(accounts, 8, 3)
    &&& d.bank_liquidity_vault@ == party(accounts, 8, 5)
    &&& d.marginfi_account@ == party(accounts, 8, 2)
    &&& d.marginfi_group@ == party(accounts, 8, 1)
    &&& d.signer@ == party(accounts, 8, 0)
    &&& d.token_account@ == party(accounts, 8, 4)
    &&& d.token_program@ == party(accounts, 8, 6)
}

/// Whether `d` holds the amount of a withdraw record in `data` and, where at least 9
/// accounts are given, the parties named by them; the other parties are the zero address.
pub open spec fn withdraw_fields(d: MarginFiWithdrawData, data: Seq<u8>, accounts: Seq<Pubkey>) -> bool {
    &&& d.amount == u64_at(data, 8)
    &&& d.withdraw_all == (data[16] != 0)
    &&& d.bank@ == party(accounts, 9, 3)
    &&& d.bank_liquidity_vault@ == party(accounts, 9, 5)
    &&& d.bank_liquidity_vault_authority@ == party(accounts, 9, 6)
    &&& d.marginfi_account@ == party(accounts, 9, 2)
    &&& d.marginfi_group@ == party(accounts, 9, 1)
    &&& d.signer@ == party(accounts, 9, 0)
    &&& d.token_account@ == party(accounts, 9, 4)
    &&& d.token_program@ == party(accounts, 9, 7)
}

/// Whether `d` holds the amount of a borrow record in `data` and, where at least 9
/// accounts are given, the parties named by them; the other parties are the zero address.
pub open spec fn borrow_fields(d: MarginFiBorrowData, data: Seq<u8>, accounts: Seq<Pubkey>) -> bool {
    &&& d.amount == u64_at(data, 8)
    &&& d.bank@ == party(accounts, 9, 3)
    &&& d.bank_liquidity_vault@ == party(accounts, 9, 5)
    &&& d.bank_liquidity_vault_authority@ == party(accounts, 9, 6)
    &&& d.marginfi_account@ == party(accounts, 9, 2)
    &&& d.marginfi_group@ == party(accounts, 9, 1)
    &&& d.signer@ == party(accounts, 9, 0)
    &&& d.token_account@ == party(accounts, 9, 4)
    &&& d.token_program@ == party(accounts, 9, 7)
}

/// Whether `d` holds the amount of a repay record in `data` and, where at least 8
/// accounts are given, the parties named by them; the other parties are the zero address.
pub open spec fn repay_fields(d: MarginFiRepayData, data: Seq<u8>, accounts: Seq<Pubkey>) -> bool {
    &&& d.amount == u64_at(data, 8)
    &&& d.repay_all == (data[16] != 0)
    &&& d.bank@ == party(accounts, 8, 3)
    &&& d.bank_liquidity_vault@ == party(accounts, 8, 5)
    &&& d.marginfi_account@ == party(accounts, 8, 2)
    &&& d.marginfi_group@ == party(accounts, 8, 1)
    &&& d.signer@ == party(accounts, 8, 0)
    &&& d.token_account@ == party(accounts, 8, 4)
    &&& d.token_program@ == party(accounts, 8, 6)
}

/// Whether `d` holds the amounts of a liquidation record in `data` and, where at least 12
/// accounts are given, the parties named by them; the other parties are the zero address.
pub open spec fn liquidate_fields(d: MarginFiLiquidationData, data: Seq<u8>, accounts: Seq<Pubkey>) -> bool {
    &&& d.asset_amount == u64_at(data, 8)
    &&& d.liab_amount == u64_at(data, 16)
    &&& d.asset_bank@ == party(accounts, 12, 2)
    &&& d.asset_bank_liquidity_vault@ == party(accounts, 12, 6)
    &&& d.liab_bank@ == party(accounts, 12, 3)
    &&& d.liab_bank_liquidity_vault@ == party(accounts, 12, 7)
    &&& d.liquidatee_marginfi_account@ == party(accounts, 12, 4)
    &&& d.liquidator@ == party(accounts, 12, 0)
    &&& d.liquidator_marginfi_account@ == party(accounts, 12, 5)
    &&& d.liquidator_token_account@ == party(accounts, 12, 8)
    &&& d.marginfi_group@ == party(accounts, 12, 1)
    &&& d.token_program@ == party(accounts, 12, 9)
}

/// Reads a deposit record: the amount after the discriminator.
fn parse_marginfi_deposit_data(data: &[u8]) -> (r: Option<MarginFiDepositData>)
    ensures
        r is Some <==> data@.len() >= 16,
        r matches Some(d) ==> deposit_fields(d, data@, Seq::empty()),
{
    if data.len() < 16 {
        return None;
    }
    Some(
        MarginFiDepositData {
            amount: u64_field(data, 8),
            bank: Pubkey::default(),
            bank_liquidity_vault: Pubkey::default(),
            marginfi_account: Pubkey::default(),
            marginfi_group: Pubkey::default(),
            signer: Pubkey::default(),
            token_account: Pubkey::default(),
            token_program: Pubkey::default(),
        },
    )
}

/// Reads a deposit record and, where the instruction names at least 8 accounts, its parties.
fn parse_marginfi_deposit_data_from_instruction(data: &[u8], accounts: &[Pubkey]) -> (r: Option<MarginFiDepositData>)
    ensures
        r is Some <==> data@.len() >= 16,
        r matches Some(d) ==> deposit_fields(d, data@, accounts@),
{
    let mut d = match parse_marginfi_deposit_data(data) {
        Some(d) => d,
        None => return None,
    };
    if accounts.len() >= 8 {
        d.signer = accounts[0];
        d.marginfi_group = accounts[1];
        d.marginfi_account = accounts[2];
        d.bank = accounts[3];
        d.token_account = accounts[4];
        d.bank_liquidity_vault = accounts[5];
        d.token_program = accounts[6];
    }
    Some(d)
}

/// Decodes a logged deposit; the event keeps the identifier that the table gave it.
pub fn parse_marginfi_deposit_inner_instruction(data: &[u8], metadata: &EventMetadata) -> (r: ParseResult<MarginFiEvent>)
    ensures
        data@.len() < 16 ==> format_error(r, "Failed to parse MarginFi deposit data"@),
        data@.len() >= 16 ==> (r matches Ok(MarginFiEvent::Deposit(e)) && deposit_fields(
            e.deposit_data,
            data@,
            Seq::empty(),
        ) && e.transfer_data@.len() == 0 && marginfi_metadata(e.metadata, *metadata, EventType::Deposit)),
{
    match parse_marginfi_deposit_data(data) {
        Some(d) => Ok(MarginFiEvent::Deposit(MarginFiDepositEvent { deposit_data: d, metadata: event_metadata(metadata, EventType::Deposit), transfer_data: Vec::new() })),
        None => Err(fail("Failed to parse MarginFi deposit data")),
    }
}

/// Decodes a deposit instruction; the event keeps the identifier that the table gave it.
pub fn parse_marginfi_deposit_instruction(
    data: &[u8],
    accounts: &[Pubkey],
    metadata: &EventMetadata,
) -> (r: ParseResult<MarginFiEvent>)
    ensures
        data@.len() < 16 ==> format_error(r, "Failed to parse MarginFi deposit instruction data"@),
        data@.len() >= 16 ==> (r matches Ok(MarginFiEvent::Deposit(e)) && deposit_fields(
            e.deposit_data,
            data@,
            accounts@,
        ) && e.transfer_data@.len() == 0 && marginfi_metadata(e.metadata, *metadata, EventType::Deposit)),
{
    match parse_marginfi_deposit_data_from_instruction(data, accounts) {
        Some(d) => Ok(MarginFiEvent::Deposit(MarginFiDepositEvent { deposit_data: d, metadata: event_metadata(metadata, EventType::Deposit), transfer_data: Vec::new() })),
        None => Err(fail("Failed to parse MarginFi deposit instruction data")),
    }
}

/// Reads a withdraw record: the amount after the discriminator and a flag byte.
fn parse_marginfi_withdraw_data(data: &[u8]) -> (r: Option<MarginFiWithdrawData>)
    ensures
        r is Some <==> data@.len() >= 17,
        r matches Some(d) ==> withdraw_fields(d, data@, Seq::empty()),
{
    if data.len() < 17 {
        return None;
    }
    Some(
        MarginFiWithdrawData {
            amount: u64_field(data, 8),
            bank: Pubkey::default(),
            bank_liquidity_vault: Pubkey::default(),
            bank_liquidity_vault_authority: Pubkey::default(),
            marginfi_account: Pubkey::default(),
            marginfi_group: Pubkey::default(),
            signer: Pubkey::default(),
            token_account: Pubkey::default(),
            token_program: Pubkey::default(),
            withdraw_all: data[16] != 0,
        },
    )
}

/// Reads a withdraw record and, where the instruction names at least 9 accounts, its parties.
fn parse_marginfi_withdraw_data_from_instruction(data: &[u8], accounts: &[Pubkey]) -> (r: Option<MarginFiWithdrawData>)
    ensures
        r is Some <==> data@.len() >= 17,
        r matches Some(d) ==> withdraw_fields(d, data@, accounts@),
{
    let mut d = match parse_marginfi_withdraw_data(data) {
        Some(d) => d,
        None => return None,
    };
    if accounts.len() >= 9 {
        d.signer = accounts[0];
        d.marginfi_group = accounts[1];
        d.marginfi_account = accounts[2];
        d.bank = accounts[3];
        d.token_account = accounts[4];
        d.bank_liquidity_vault = accounts[5];
        d.bank_liquidity_vault_authority = accounts[6];
        d.token_program = accounts[7];
    }
    Some(d)
}

/// Decodes a logged withdraw; the event keeps the identifier that the table gave it.
pub fn parse_marginfi_withdraw_inner_instruction(data: &[u8], metadata: &EventMetadata) -> (r: ParseResult<MarginFiEvent>)
    ensures
        data@.len() < 17 ==> format_error(r, "Failed to parse MarginFi withdraw data"@),
        data@.len() >= 17 ==> (r matches Ok(MarginFiEvent::Withdraw(e)) && withdraw_fields(
            e.withdraw_data,
            data@,
            Seq::empty(),
        ) && e.transfer_data@.len() == 0 && marginfi_metadata(e.metadata, *metadata, EventType::Withdraw)),
{
    match parse_marginfi_withdraw_data(data) {
        Some(d) => Ok(MarginFiEvent::Withdraw(MarginFiWithdrawEvent { withdraw_data: d, metadata: event_metadata(metadata, EventType::Withdraw), transfer_data: Vec::new() })),
        None => Err(fail("Failed to parse MarginFi withdraw data")),
    }
}

/// Decodes a withdraw instruction; the event keeps the identifier that the table gave it.
pub fn parse_marginfi_withdraw_instruction(
    data: &[u8],
    accounts: &[Pubkey],
    metadata: &EventMetadata,
) -> (r: ParseResult<MarginFiEvent>)
    ensures
        data@.len() < 17 ==> format_error(r, "Failed to parse MarginFi withdraw instruction data"@),
        data@.len() >= 17 ==> (r matches Ok(MarginFiEvent::Withdraw(e)) && withdraw_fields(
            e.withdraw_data,
            data@,
            accounts@,
        ) && e.transfer_data@.len() == 0 && marginfi_metadata(e.metadata, *metadata, EventType::Withdraw)),
{
    match parse_marginfi_withdraw_data_from_instruction(data, accounts) {
        Some(d) => Ok(MarginFiEvent::Withdraw(MarginFiWithdrawEvent { withdraw_data: d, metadata: event_metadata(metadata, EventType::Withdraw), transfer_data: Vec::new() })),
        None => Err(fail("Failed to parse MarginFi withdraw instruction data")),
    }
}

/// A withdraw, logged or as an instruction, decodes exactly when its data holds the
/// discriminator, the amount and a flag byte (17 bytes); the amount comes from the eight bytes
/// after the discriminator, and the withdraw asks for everything exactly when the flag byte
/// right after the amount is not zero. So the two decoders agree on both.
pub proof fn withdraw_all_follows_flag_byte(
    data: &[u8],
    accounts: &[Pubkey],
    metadata: &EventMetadata,
    logged: ParseResult<MarginFiEvent>,
    instruction: ParseResult<MarginFiEvent>,
)
    requires
        call_ensures(parse_marginfi_withdraw_inner_instruction, (data, metadata), logged),
        call_ensures(parse_marginfi_withdraw_instruction, (data, accounts, metadata), instruction),
    ensures
        logged is Ok <==> data@.len() >= 17,
        instruction is Ok <==> data@.len() >= 17,
        logged is Ok ==> (logged matches Ok(MarginFiEvent::Withdraw(e)) && e.withdraw_data.amount == u64_at(data@, 8)
            && (e.withdraw_data.withdraw_all <==> data@[16] != 0)),
        instruction is Ok ==> (instruction matches Ok(MarginFiEvent::Withdraw(e))
            && e.withdraw_data.amount == u64_at(data@, 8) && (e.withdraw_data.withdraw_all <==> data@[16] != 0)),
        accounts@.len() >= 9 ==> (instruction matches Ok(MarginFiEvent::Withdraw(e)) ==> e.withdraw_data.signer@
            == accounts@[0]@ && e.withdraw_data.marginfi_account@ == accounts@[2]@
            && e.withdraw_data.bank@ == accounts@[3]@ && e.withdraw_data.token_account@ == accounts@[4]@),
{
}

/// Reads a borrow record: the amount after the discriminator.
fn parse_marginfi_borrow_data(data: &[u8]) -> (r: Option<MarginFiBorrowData>)
    ensures
        r is Some <==> data@.len() >= 16,
        r matches Some(d) ==> borrow_fields(d, data@, Seq::empty()),
{
    if data.len() < 16 {
        return None;
    }
    Some(
        MarginFiBorrowData {
            amount: u64_field(data, 8),
            bank: Pubkey::default(),
            bank_liquidity_vault: Pubkey::default(),
            bank_liquidity_vault_authority: Pubkey::default(),
            marginfi_account: Pubkey::default(),
            marginfi_group: Pubkey::default(),
            signer: Pubkey::default(),
            token_account: Pubkey::default(),
            token_program: Pubkey::default(),
        },
    )
}

/// Reads a borrow record and, where the instruction names at least 9 accounts, its parties.
fn parse_marginfi_borrow_data_from_instruction(data: &[u8], accounts: &[Pubkey]) -> (r: Option<MarginFiBorrowData>)
    ensures
        r is Some <==> data@.len() >= 16,
        r matches Some(d) ==> borrow_fields(d, data@, accounts@),
{
    let mut d = match parse_marginfi_borrow_data(data) {
        Some(d) => d,
        None => return None,
    };
    if accounts.len() >= 9 {
        d.signer = accounts[0];
        d.marginfi_group = accounts[1];
        d.marginfi_account = accounts[2];
        d.bank = accounts[3];
        d.token_account = accounts[4];
        d.bank_liquidity_vault = accounts[5];
        d.bank_liquidity_vault_authority = accounts[6];
        d.token_program = accounts[7];
    }
    Some(d)
}

/// Decodes a logged borrow; the event keeps the identifier that the table gave it.
pub fn parse_marginfi_borrow_inner_instruction(data: &[u8], metadata: &EventMetadata) -> (r: ParseResult<MarginFiEvent>)
    ensures
        data@.len() < 16 ==> format_error(r, "Failed to parse MarginFi borrow data"@),
        data@.len() >= 16 ==> (r matches Ok(MarginFiEvent::Borrow(e)) && borrow_fields(
            e.borrow_data,
            data@,
            Seq::empty(),
        ) && e.transfer_data@.len() == 0 && marginfi_metadata(e.metadata, *metadata, EventType::Borrow)),
{
    match parse_marginfi_borrow_data(data) {
        Some(d) => Ok(MarginFiEvent::Borrow(MarginFiBorrowEvent { borrow_data: d, metadata: event_metadata(metadata, EventType::Borrow), transfer_data: Vec::new() })),
        None => Err(fail("Failed to parse MarginFi borrow data")),
    }
}

/// Decodes a borrow instruction; the event keeps the identifier that the table gave it.
pub fn parse_marginfi_borrow_instruction(
    data: &[u8],
    accounts: &[Pubkey],
    metadata: &EventMetadata,
) -> (r: ParseResult<MarginFiEvent>)
    ensures
        data@.len() < 16 ==> format_error(r, "Failed to parse MarginFi borrow instruction data"@),
        data@.len() >= 16 ==> (r matches Ok(MarginFiEvent::Borrow(e)) && borrow_fields(
            e.borrow_data,
            data@,
            accounts@,
        ) && e.transfer_data@.len() == 0 && marginfi_metadata(e.metadata, *metadata, EventType::Borrow)),
{
    match parse_marginfi_borrow_data_from_instruction(data, accounts) {
        Some(d) => Ok(MarginFiEvent::Borrow(MarginFiBorrowEvent { borrow_data: d, metadata: event_metadata(metadata, EventType::Borrow), transfer_data: Vec::new() })),
        None => Err(fail("Failed to parse MarginFi borrow instruction data")),
    }
}

/// Reads a repay record: the amount after the discriminator and a flag byte.
fn parse_marginfi_repay_data(data: &[u8]) -> (r: Option<MarginFiRepayData>)
    ensures
        r is Some <==> data@.len() >= 17,
        r matches Some(d) ==> repay_fields(d, data@, Seq::empty()),
{
    if data.len() < 17 {
        return None;
    }
    Some(
        MarginFiRepayData {
            amount: u64_field(data, 8),
            bank: Pubkey::default(),
            bank_liquidity_vault: Pubkey::default(),
            marginfi_account: Pubkey::default(),
            marginfi_group: Pubkey::default(),
            repay_all: data[16] != 0,
            signer: Pubkey::default(),
            token_account: Pubkey::default(),
            token_program: Pubkey::default(),
        },
    )
}

/// Reads a repay record and, where the instruction names at least 8 accounts, its parties.
fn parse_marginfi_repay_data_from_instruction(data: &[u8], accounts: &[Pubkey]) -> (r: Option<MarginFiRepayData>)
    ensures
        r is Some <==> data@.len() >= 17,
        r matches Some(d) ==> repay_fields(d, data@, accounts@),
{
    let mut d = match parse_marginfi_repay_data(data) {
        Some(d) => d,
        None => return None,
    };
    if accounts.len() >= 8 {
        d.signer = accounts[0];
        d.marginfi_group = accounts[1];
        d.marginfi_account = accounts[2];
        d.bank = accounts[3];
        d.token_account = accounts[4];
        d.bank_liquidity_vault = accounts[5];
        d.token_program = accounts[6];
    }
    Some(d)
}

/// Decodes a logged repay; the event keeps the identifier that the table gave it.
pub fn parse_marginfi_repay_inner_instruction(data: &[u8], metadata: &EventMetadata) -> (r: ParseResult<MarginFiEvent>)
    ensures
        data@.len() < 17 ==> format_error(r, "Failed to parse MarginFi repay data"@),
        data@.len() >= 17 ==> (r matches Ok(MarginFiEvent::Repay(e)) && repay_fields(
            e.repay_data,
            data@,
            Seq::empty(),
        ) && e.transfer_data@.len() == 0 && marginfi_metadata(e.metadata, *metadata, EventType::Repay)),
{
    match parse_marginfi_repay_data(data) {
        Some(d) => Ok(MarginFiEvent::Repay(MarginFiRepayEvent { repay_data: d, metadata: event_metadata(metadata, EventType::Repay), transfer_data: Vec::new() })),
        None => Err(fail("Failed to parse MarginFi repay data")),
    }
}

/// Decodes a repay instruction; the event keeps the identifier that the table gave it.
pub fn parse_marginfi_repay_instruction(
    data: &[u8],
    accounts: &[Pubkey],
    metadata: &EventMetadata,
) -> (r: ParseResult<MarginFiEvent>)
    ensures
        data@.len() < 17 ==> format_error(r, "Failed to parse MarginFi repay instruction data"@),
        data@.len() >= 17 ==> (r matches Ok(MarginFiEvent::Repay(e)) && repay_fields(
            e.repay_data,
            data@,
            accounts@,
        ) && e.transfer_data@.len() == 0 && marginfi_metadata(e.metadata, *metadata, EventType::Repay)),
{
    match parse_marginfi_repay_data_from_instruction(data, accounts) {
        Some(d) => Ok(MarginFiEvent::Repay(MarginFiRepayEvent { repay_data: d, metadata: event_metadata(metadata, EventType::Repay), transfer_data: Vec::new() })),
        None => Err(fail("Failed to parse MarginFi repay instruction data")),
    }
}

/// Reads a liquidation record: the amounts after the discriminator.
fn parse_marginfi_liquidate_data(data: &[u8]) -> (r: Option<MarginFiLiquidationData>)
    ensures
        r is Some <==> data@.len() >= 24,
        r matches Some(d) ==> liquidate_fields(d, data@, Seq::empty()),
{
    if data.len() < 24 {
        return None;
    }
    Some(
        MarginFiLiquidationData {
            asset_amount: u64_field(data, 8),
            asset_bank: Pubkey::default(),
            asset_bank_liquidity_vault: Pubkey::default(),
            liab_amount: u64_field(data, 16),
            liab_bank: Pubkey::default(),
            liab_bank_liquidity_vault: Pubkey::default(),
            liquidatee_marginfi_account: Pubkey::default(),
            liquidator: Pubkey::default(),
            liquidator_marginfi_account: Pubkey::default(),
            liquidator_token_account: Pubkey::default(),
            marginfi_group: Pubkey::default(),
            token_program: Pubkey::default(),
        },
    )
}

/// Reads a liquidation record and, where the instruction names at least 12 accounts, its parties.
fn parse_marginfi_liquidate_data_from_instruction(data: &[u8], accounts: &[Pubkey]) -> (r: Option<MarginFiLiquidationData>)
    ensures
        r is Some <==> data@.len() >= 24,
        r matches Some(d) ==> liquidate_fields(d, data@, accounts@),
{
    let mut d = match parse_marginfi_liquidate_data(data) {
        Some(d) => d,
        None => return None,
    };
    if accounts.len() >= 12 {
        d.liquidator = accounts[0];
        d.marginfi_group = accounts[1];
        d.asset_bank = accounts[2];
        d.liab_bank = accounts[3];
        d.liquidatee_marginfi_account = accounts[4];
        d.liquidator_marginfi_account = accounts[5];
        d.asset_bank_liquidity_vault = accounts[6];
        d.liab_bank_liquidity_vault = accounts[7];
        d.liquidator_token_account = accounts[8];
        d.token_program = accounts[9];
    }
    Some(d)
}

/// Decodes a logged liquidation; the event keeps the identifier that the table gave it.
pub fn parse_marginfi_liquidate_inner_instruction(data: &[u8], metadata: &EventMetadata) -> (r: ParseResult<MarginFiEvent>)
    ensures
        data@.len() < 24 ==> format_error(r, "Failed to parse MarginFi liquidation data"@),
        data@.len() >= 24 ==> (r matches Ok(MarginFiEvent::Liquidation(e)) && liquidate_fields(
            e.liquidation_data,
            data@,
            Seq::empty(),
        ) && e.transfer_data@.len() == 0 && marginfi_metadata(e.metadata, *metadata, EventType::Liquidate)),
{
    match parse_marginfi_liquidate_data(data) {
        Some(d) => Ok(MarginFiEvent::Liquidation(MarginFiLiquidationEvent { liquidation_data: d, metadata: event_metadata(metadata, EventType::Liquidate), transfer_data: Vec::new() })),
        None => Err(fail("Failed to parse MarginFi liquidation data")),
    }
}

/// Decodes a liquidation instruction; the event keeps the identifier that the table gave it.
pub fn parse_marginfi_liquidate_instruction(
    data: &[u8],
    accounts: &[Pubkey],
    metadata: &EventMetadata,
) -> (r: ParseResult<MarginFiEvent>)
    ensures
        data@.len() < 24 ==> format_error(r, "Failed to parse MarginFi liquidation instruction data"@),
        data@.len() >= 24 ==> (r matches Ok(MarginFiEvent::Liquidation(e)) && liquidate_fields(
            e.liquidation_data,
            data@,
            accounts@,
        ) && e.transfer_data@.len() == 0 && marginfi_metadata(e.metadata, *metadata, EventType::Liquidate)),
{
    match parse_marginfi_liquidate_data_from_instruction(data, accounts) {
        Some(d) => Ok(MarginFiEvent::Liquidation(MarginFiLiquidationEvent { liquidation_data: d, metadata: event_metadata(metadata, EventType::Liquidate), transfer_data: Vec::new() })),
        None => Err(fail("Failed to parse MarginFi liquidation instruction data")),
    }
}

// ---------------------------------------------------------------------------
// The parser: a table from discriminators to decoders
// ---------------------------------------------------------------------------

/// Whether `m` is the metadata of a MarginFi event decoded through the table: identified by
/// the signature and the instruction index.
pub open spec fn table_event_metadata(
    m: EventMetadata,
    signature: Seq<char>,
    slot: u64,
    received_time_ms: i64,
    index: Seq<char>,
    event_type: EventType,
) -> bool {
    metadata_is(
        m,
        signature + "_"@ + index,
        signature,
        slot,
        Some(0i64),
        received_time_ms,
        index,
        event_type,
        ProtocolTypeView::MarginFi,
    )
}

/// Whether `ev` is the deposit that `data` and `accounts` describe, decoded through the table.
pub open spec fn is_deposit_event(
    ev: MarginFiEvent,
    data: Seq<u8>,
    accounts: Seq<Pubkey>,
    signature: Seq<char>,
    slot: u64,
    received_time_ms: i64,
    index: Seq<char>,
) -> bool {
    &&& ev matches MarginFiEvent::Deposit(e)
    &&& deposit_fields(e.deposit_data, data, accounts)
    &&& e.transfer_data@.len() == 0
    &&& table_event_metadata(e.metadata, signature, slot, received_time_ms, index, EventType::Deposit)
}

/// Whether `ev` is the withdraw that `data` and `accounts` describe, decoded through the table.
pub open spec fn is_withdraw_event(
    ev: MarginFiEvent,
    data: Seq<u8>,
    accounts: Seq<Pubkey>,
    signature: Seq<char>,
    slot: u64,
    received_time_ms: i64,
    index: Seq<char>,
) -> bool {
    &&& ev matches MarginFiEvent::Withdraw(e)
    &&& withdraw_fields(e.withdraw_data, data, accounts)
    &&& e.transfer_data@.len() == 0
    &&& table_event_metadata(e.metadata, signature, slot, received_time_ms, index, EventType::Withdraw)
}

/// Whether `ev` is the borrow that `data` and `accounts` describe, decoded through the table.
pub open spec fn is_borrow_event(
    ev: MarginFiEvent,
    data: Seq<u8>,
    accounts: Seq<Pubkey>,
    signature: Seq<char>,
    slot: u64,
    received_time_ms: i64,
    index: Seq<char>,
) -> bool {
    &&& ev matches MarginFiEvent::Borrow(e)
    &&& borrow_fields(e.borrow_data, data, accounts)
    &&& e.transfer_data@.len() == 0
    &&& table_event_metadata(e.metadata, signature, slot, received_time_ms, index, EventType::Borrow)
}

/// Whether `ev` is the repay that `data` and `accounts` describe, decoded through the table.
pub open spec fn is_repay_event(
    ev: MarginFiEvent,
    data: Seq<u8>,
    accounts: Seq<Pubkey>,
    signature: Seq<char>,
    slot: u64,
    received_time_ms: i64,
    index: Seq<char>,
) -> bool {
    &&& ev matches MarginFiEvent::Repay(e)
    &&& repay_fields(e.repay_data, data, accounts)
    &&& e.transfer_data@.len() == 0
    &&& table_event_metadata(e.metadata, signature, slot, received_time_ms, index, EventType::Repay)
}

/// Whether `ev` is the liquidation that `data` and `accounts` describe, decoded through the table.
pub open spec fn is_liquidate_event(
    ev: MarginFiEvent,
    data: Seq<u8>,
    accounts: Seq<Pubkey>,
    signature: Seq<char>,
    slot: u64,
    received_time_ms: i64,
    index: Seq<char>,
) -> bool {
    &&& ev matches MarginFiEvent::Liquidation(e)
    &&& liquidate_fields(e.liquidation_data, data, accounts)
    &&& e.transfer_data@.len() == 0
    &&& table_event_metadata(e.metadata, signature, slot, received_time_ms, index, EventType::Liquidate)
}

/// What the table makes of a top-level instruction: the decoder whose discriminator starts
/// the data, where its record fits.
pub open spec fn marginfi_instruction_events(events: Seq<MarginFiEvent>, p: OwnedInstructionParseParams) -> bool {
    let data = p.instruction_data@;
    let accounts = p.accounts@;
    if starts_with(data, MARGINFI_DEPOSIT_DISCRIMINATOR@) {
        if data.len() >= 16 {
            events.len() == 1 && is_deposit_event(
                events[0],
                data,
                accounts,
                p.signature@,
                p.slot,
                0i64,
                p.index@,
            )
        } else {
            events.len() == 0
        }
    } else if starts_with(data, MARGINFI_WITHDRAW_DISCRIMINATOR@) {
        if data.len() >= 17 {
            events.len() == 1 && is_withdraw_event(
                events[0],
                data,
                accounts,
                p.signature@,
                p.slot,
                0i64,
                p.index@,
            )
        } else {
            events.len() == 0
        }
    } else if starts_with(data, MARGINFI_BORROW_DISCRIMINATOR@) {
        if data.len() >= 16 {
            events.len() == 1 && is_borrow_event(
                events[0],
                data,
                accounts,
                p.signature@,
                p.slot,
                0i64,
                p.index@,
            )
        } else {
            events.len() == 0
        }
    } else if starts_with(data, MARGINFI_REPAY_DISCRIMINATOR@) {
        if data.len() >= 17 {
            events.len() == 1 && is_repay_event(
                events[0],
                data,
                accounts,
                p.signature@,
                p.slot,
                0i64,
                p.index@,
            )
        } else {
            events.len() == 0
        }
    } else if starts_with(data, MARGINFI_LIQUIDATE_DISCRIMINATOR@) {
        if data.len() >= 24 {
            events.len() == 1 && is_liquidate_event(
                events[0],
                data,
                accounts,
                p.signature@,
                p.slot,
                0i64,
                p.index@,
            )
        } else {
            events.len() == 0
        }
    } else {
        events.len() == 0
    }
}

/// What the table makes of the decoded bytes of an inner instruction: every logged-record
/// decoder is tried, in table order, and each whose record fits gives an event.
pub open spec fn marginfi_log_events(
    events: Seq<MarginFiEvent>,
    bytes: Seq<u8>,
    p: OwnedInnerInstructionParseParams,
) -> bool {
    let n = bytes.len();
    let e = Seq::<Pubkey>::empty();
    let (sig, slot, ms, idx) = (p.signature@, p.slot, 0i64, p.index@);
    if n < 16 {
        events.len() == 0
    } else if n < 17 {
        &&& events.len() == 2
        &&& is_deposit_event(events[0], bytes, e, sig, slot, ms, idx)
        &&& is_borrow_event(events[1], bytes, e, sig, slot, ms, idx)
    } else if n < 24 {
        &&& events.len() == 4
        &&& is_deposit_event(events[0], bytes, e, sig, slot, ms, idx)
        &&& is_withdraw_event(events[1], bytes, e, sig, slot, ms, idx)
        &&& is_borrow_event(events[2], bytes, e, sig, slot, ms, idx)
        &&& is_repay_event(events[3], bytes, e, sig, slot, ms, idx)
    } else {
        &&& events.len() == 5
        &&& is_deposit_event(events[0], bytes, e, sig, slot, ms, idx)
        &&& is_withdraw_event(events[1], bytes, e, sig, slot, ms, idx)
        &&& is_borrow_event(events[2], bytes, e, sig, slot, ms, idx)
        &&& is_repay_event(events[3], bytes, e, sig, slot, ms, idx)
        &&& is_liquidate_event(events[4], bytes, e, sig, slot, ms, idx)
    }
}

/// What the table makes of an inner instruction: its data is base58 text, and text that does
/// not decode gives no event.
pub open spec fn marginfi_inner_events(events: Seq<MarginFiEvent>, p: OwnedInnerInstructionParseParams) -> bool {
    match base58_decoding(p.inner_instruction_data@) {
        Some(bytes) => marginfi_log_events(events, bytes, p),
        None => events.len() == 0,
    }
}

/// The decoders that the MarginFi tables hand an instruction or its log to.
#[derive(Debug, Clone, Copy, PartialEq, Eq, Structural)]
pub enum MarginFiDecoder {
    Deposit,
    Withdraw,
    Borrow,
    Repay,
    Liquidate,
}

/// Whether `c` is entry `i` of the MarginFi tables, in the order in which they list them.
pub open spec fn marginfi_config(c: EventParseConfig<MarginFiDecoder>, i: int) -> bool {
    let program = key_or_zero(key_of_text(MARGINFI_PROGRAM_ID@));
    if i == 0 {
        config_is(c, MarginFiDecoder::Deposit, EventType::AddLiquidity, "lendingAccountDeposit"@, MARGINFI_DEPOSIT_DISCRIMINATOR@, program, ProtocolTypeView::MarginFi)
    } else if i == 1 {
        config_is(c, MarginFiDecoder::Withdraw, EventType::RemoveLiquidity, "lendingAccountWithdraw"@, MARGINFI_WITHDRAW_DISCRIMINATOR@, program, ProtocolTypeView::MarginFi)
    } else if i == 2 {
        config_is(c, MarginFiDecoder::Borrow, EventType::Borrow, "lendingAccountBorrow"@, MARGINFI_BORROW_DISCRIMINATOR@, program, ProtocolTypeView::MarginFi)
    } else if i == 3 {
        config_is(c, MarginFiDecoder::Repay, EventType::Repay, "lendingAccountRepay"@, MARGINFI_REPAY_DISCRIMINATOR@, program, ProtocolTypeView::MarginFi)
    } else {
        config_is(c, MarginFiDecoder::Liquidate, EventType::Liquidate, "lendingAccountLiquidate"@, MARGINFI_LIQUIDATE_DISCRIMINATOR@, program, ProtocolTypeView::MarginFi)
    }
}

fn marginfi_entry(i: usize) -> (c: EventParseConfig<MarginFiDecoder>)
    requires
        i < 5,
    ensures
        marginfi_config(c, i as int),
{
    let program = program_id();
    if i == 0 {
        EventParseConfig::new(MarginFiDecoder::Deposit, EventType::AddLiquidity, "lendingAccountDeposit", MARGINFI_DEPOSIT_DISCRIMINATOR.as_slice(), program, ProtocolType::MarginFi)
    } else if i == 1 {
        EventParseConfig::new(MarginFiDecoder::Withdraw, EventType::RemoveLiquidity, "lendingAccountWithdraw", MARGINFI_WITHDRAW_DISCRIMINATOR.as_slice(), program, ProtocolType::MarginFi)
    } else if i == 2 {
        EventParseConfig::new(MarginFiDecoder::Borrow, EventType::Borrow, "lendingAccountBorrow", MARGINFI_BORROW_DISCRIMINATOR.as_slice(), program, ProtocolType::MarginFi)
    } else if i == 3 {
        EventParseConfig::new(MarginFiDecoder::Repay, EventType::Repay, "lendingAccountRepay", MARGINFI_REPAY_DISCRIMINATOR.as_slice(), program, ProtocolType::MarginFi)
    } else {
        EventParseConfig::new(MarginFiDecoder::Liquidate, EventType::Liquidate, "lendingAccountLiquidate", MARGINFI_LIQUIDATE_DISCRIMINATOR.as_slice(), program, ProtocolType::MarginFi)
    }
}

fn parse_table_instruction(p: &OwnedInstructionParseParams) -> (r: Vec<MarginFiEvent>)
    ensures
        marginfi_instruction_events(r@, *p),
{
    let data = p.instruction_data.as_slice();
    let accounts = p.accounts.as_slice();
    let mut out: Vec<MarginFiEvent> = Vec::new();
    if has_discriminator(data, MARGINFI_DEPOSIT_DISCRIMINATOR.as_slice()) {
        let m = instruction_metadata(p, EventType::AddLiquidity, ProtocolType::MarginFi);
        push_ok(&mut out, parse_marginfi_deposit_instruction(data, accounts, &m));
    } else if has_discriminator(data, MARGINFI_WITHDRAW_DISCRIMINATOR.as_slice()) {
        let m = instruction_metadata(p, EventType::RemoveLiquidity, ProtocolType::MarginFi);
        push_ok(&mut out, parse_marginfi_withdraw_instruction(data, accounts, &m));
    } else if has_discriminator(data, MARGINFI_BORROW_DISCRIMINATOR.as_slice()) {
        let m = instruction_metadata(p, EventType::Borrow, ProtocolType::MarginFi);
        push_ok(&mut out, parse_marginfi_borrow_instruction(data, accounts, &m));
    } else if has_discriminator(data, MARGINFI_REPAY_DISCRIMINATOR.as_slice()) {
        let m = instruction_metadata(p, EventType::Repay, ProtocolType::MarginFi);
        push_ok(&mut out, parse_marginfi_repay_instruction(data, accounts, &m));
    } else if has_discriminator(data, MARGINFI_LIQUIDATE_DISCRIMINATOR.as_slice()) {
        let m = instruction_metadata(p, EventType::Liquidate, ProtocolType::MarginFi);
        push_ok(&mut out, parse_marginfi_liquidate_instruction(data, accounts, &m));
    }
    out
}

fn parse_table_inner_instruction(p: &OwnedInnerInstructionParseParams) -> (r: Vec<MarginFiEvent>)
    ensures
        marginfi_inner_events(r@, *p),
{
    let mut out: Vec<MarginFiEvent> = Vec::new();
    match base58_decode(p.inner_instruction_data.as_str()) {
        Ok(bytes) => {
            let data = bytes.as_slice();
            let m = inner_metadata(p, EventType::AddLiquidity, ProtocolType::MarginFi);
            push_ok(&mut out, parse_marginfi_deposit_inner_instruction(data, &m));
            let m = inner_metadata(p, EventType::RemoveLiquidity, ProtocolType::MarginFi);
            push_ok(&mut out, parse_marginfi_withdraw_inner_instruction(data, &m));
            let m = inner_metadata(p, EventType::Borrow, ProtocolType::MarginFi);
            push_ok(&mut out, parse_marginfi_borrow_inner_instruction(data, &m));
            let m = inner_metadata(p, EventType::Repay, ProtocolType::MarginFi);
            push_ok(&mut out, parse_marginfi_repay_inner_instruction(data, &m));
            let m = inner_metadata(p, EventType::Liquidate, ProtocolType::MarginFi);
            push_ok(&mut out, parse_marginfi_liquidate_inner_instruction(data, &m));
        },
        Err(_) => {},
    }
    out
}

/// Whether the parser accepts `input`.
pub open spec fn accepts(input: SolanaTransactionInput) -> bool {
    match input {
        SolanaTransactionInput::InnerInstruction(_) => true,
        SolanaTransactionInput::Instruction(p) => starts_with(p.instruction_data@, MARGINFI_DEPOSIT_DISCRIMINATOR@)
            || starts_with(p.instruction_data@, MARGINFI_WITHDRAW_DISCRIMINATOR@)
            || starts_with(p.instruction_data@, MARGINFI_BORROW_DISCRIMINATOR@)
            || starts_with(p.instruction_data@, MARGINFI_REPAY_DISCRIMINATOR@)
            || starts_with(p.instruction_data@, MARGINFI_LIQUIDATE_DISCRIMINATOR@),
    }
}

/// What parsing `input` may give.
pub open spec fn parse_outcome(input: SolanaTransactionInput, events: Seq<MarginFiEvent>) -> bool {
    match input {
        SolanaTransactionInput::Instruction(p) => marginfi_instruction_events(events, p),
        SolanaTransactionInput::InnerInstruction(p) => marginfi_inner_events(events, p),
    }
}

/// The MarginFi event parser.
#[derive(Debug, Clone, Copy)]
pub struct MarginFiEventParser;

impl Default for MarginFiEventParser {
    fn default() -> (p: MarginFiEventParser)
        ensures
            p == MarginFiEventParser,
    {
        MarginFiEventParser
    }
}

impl MarginFiEventParser {
    /// The entries of the tables, in order.
    pub fn configs(&self) -> (r: Vec<EventParseConfig<MarginFiDecoder>>)
        ensures
            r@.len() == 5,
            forall|i: int| 0 <= i < 5 ==> #[trigger] marginfi_config(r@[i], i),
    {
        let mut r: Vec<EventParseConfig<MarginFiDecoder>> = Vec::new();
        let mut i: usize = 0;
        while i < 5
            invariant
                0 <= i <= 5,
                r@.len() == i,
                forall|j: int| 0 <= j < i ==> #[trigger] marginfi_config(r@[j], j),
            decreases 5 - i,
        {
            r.push(marginfi_entry(i));
            i = i + 1;
        }
        r
    }

    /// The table keyed by the name of a logged event: each name with its one entry.
    pub fn inner_instruction_configs(&self) -> (r: Vec<(&'static str, Vec<EventParseConfig<MarginFiDecoder>>)>)
        ensures
            r@.len() == 5,
            forall|i: int|
                0 <= i < 5 ==> (#[trigger] r@[i]).1@.len() == 1 && marginfi_config(r@[i].1@[0], i)
                    && r@[i].0@ == r@[i].1@[0].inner_instruction_discriminator@,
    {
        let mut r: Vec<(&'static str, Vec<EventParseConfig<MarginFiDecoder>>)> = Vec::new();
        let mut i: usize = 0;
        while i < 5
            invariant
                0 <= i <= 5,
                r@.len() == i,
                forall|j: int|
                    0 <= j < i ==> (#[trigger] r@[j]).1@.len() == 1 && marginfi_config(r@[j].1@[0], j)
                        && r@[j].0@ == r@[j].1@[0].inner_instruction_discriminator@,
            decreases 5 - i,
        {
            let c = marginfi_entry(i);
            let key = c.inner_instruction_discriminator;
            let mut entry: Vec<EventParseConfig<MarginFiDecoder>> = Vec::new();
            entry.push(c);
            r.push((key, entry));
            i = i + 1;
        }
        r
    }

    /// The table keyed by an instruction's discriminator: each discriminator with its one entry.
    pub fn instruction_configs(&self) -> (r: Vec<(Vec<u8>, Vec<EventParseConfig<MarginFiDecoder>>)>)
        ensures
            r@.len() == 5,
            forall|i: int|
                0 <= i < 5 ==> (#[trigger] r@[i]).1@.len() == 1 && marginfi_config(r@[i].1@[0], i)
                    && r@[i].0@ == r@[i].1@[0].instruction_discriminator@,
    {
        let mut r: Vec<(Vec<u8>, Vec<EventParseConfig<MarginFiDecoder>>)> = Vec::new();
        let mut i: usize = 0;
        while i < 5
            invariant
                0 <= i <= 5,
                r@.len() == i,
                forall|j: int|
                    0 <= j < i ==> (#[trigger] r@[j]).1@.len() == 1 && marginfi_config(r@[j].1@[0], j)
                        && r@[j].0@ == r@[j].1@[0].instruction_discriminator@,
            decreases 5 - i,
        {
            let c = marginfi_entry(i);
            let key = marginfi_entry(i).instruction_discriminator;
            let mut entry: Vec<EventParseConfig<MarginFiDecoder>> = Vec::new();
            entry.push(c);
            r.push((key, entry));
            i = i + 1;
        }
        r
    }

    /// A parser.
    pub fn new() -> (p: MarginFiEventParser)
        ensures
            p == MarginFiEventParser,
    {
        MarginFiEventParser
    }

    /// Whether `program_id` is one of the two MarginFi programs.
    pub fn should_handle(&self, program_id: &Pubkey) -> (r: bool)
        ensures
            r == (program_id@ == key_or_zero(key_of_text(MARGINFI_PROGRAM_ID@)) || program_id@
                == key_or_zero(key_of_text(MARGINFI_BANK_PROGRAM_ID@))),
    {
        is_marginfi_program(program_id)
    }

    /// The MarginFi program and the bank program.
    pub fn supported_program_ids(&self) -> (r: Vec<Pubkey>)
        ensures
            r@.len() == 2,
            r@[0]@ == key_or_zero(key_of_text(MARGINFI_PROGRAM_ID@)),
            r@[1]@ == key_or_zero(key_of_text(MARGINFI_BANK_PROGRAM_ID@)),
    {
        let mut v: Vec<Pubkey> = Vec::new();
        v.push(program_id());
        v.push(bank_program_id());
        v
    }

    /// Inner instructions are always accepted; a top-level instruction where its data starts
    /// with one of the discriminators.
    pub fn can_parse(&self, input: &SolanaTransactionInput) -> (r: bool)
        ensures
            r == accepts(*input),
    {
        match input {
            SolanaTransactionInput::InnerInstruction(_) => true,
            SolanaTransactionInput::Instruction(p) => {
                let data = p.instruction_data.as_slice();
                has_discriminator(data, MARGINFI_DEPOSIT_DISCRIMINATOR.as_slice()) || has_discriminator(
                    data,
                    MARGINFI_WITHDRAW_DISCRIMINATOR.as_slice(),
                ) || has_discriminator(data, MARGINFI_BORROW_DISCRIMINATOR.as_slice())
                    || has_discriminator(data, MARGINFI_REPAY_DISCRIMINATOR.as_slice())
                    || has_discriminator(data, MARGINFI_LIQUIDATE_DISCRIMINATOR.as_slice())
            },
        }
    }

    /// Decodes an input into the events it carries.
    pub fn parse(&self, input: &SolanaTransactionInput) -> (r: Vec<MarginFiEvent>)
        ensures
            parse_outcome(*input, r@),
    {
        match input {
            SolanaTransactionInput::Instruction(p) => parse_table_instruction(p),
            SolanaTransactionInput::InnerInstruction(p) => parse_table_inner_instruction(p),
        }
    }
}

/// A repay, logged or as an instruction, decodes exactly when its data holds the
/// discriminator, the amount and a flag byte (17 bytes); the amount comes from the eight bytes
/// after the discriminator, and the repay settles everything exactly when the flag byte right
/// after the amount is not zero. With eight accounts or more, the signer, the MarginFi account,
/// the bank and the user's token account are accounts 0, 2, 3 and 4.
pub proof fn repay_all_follows_flag_byte(
    data: &[u8],
    accounts: &[Pubkey],
    metadata: &EventMetadata,
    logged: ParseResult<MarginFiEvent>,
    instruction: ParseResult<MarginFiEvent>,
)
    requires
        call_ensures(parse_marginfi_repay_inner_instruction, (data, metadata), logged),
        call_ensures(parse_marginfi_repay_instruction, (data, accounts, metadata), instruction),
    ensures
        logged is Ok <==> data@.len() >= 17,
        instruction is Ok <==> data@.len() >= 17,
        logged is Ok ==> (logged matches Ok(MarginFiEvent::Repay(e)) && e.repay_data.amount == u64_at(data@, 8)
            && (e.repay_data.repay_all <==> data@[16] != 0)),
        instruction is Ok ==> (instruction matches Ok(MarginFiEvent::Repay(e)) && e.repay_data.amount == u64_at(
            data@,
            8,
        ) && (e.repay_data.repay_all <==> data@[16] != 0)),
        accounts@.len() >= 8 ==> (instruction matches Ok(MarginFiEvent::Repay(e)) ==> e.repay_data.signer@
            == accounts@[0]@ && e.repay_data.marginfi_account@ == accounts@[2]@ && e.repay_data.bank@
            == accounts@[3]@ && e.repay_data.token_account@ == accounts@[4]@),
{
}

/// A liquidation, logged or as an instruction, decodes exactly when its data holds the
/// discriminator and two amounts (24 bytes): the asset amount from bytes 8..16 and the
/// liability amount from bytes 16..24. With twelve accounts or more, the liquidator, the asset
/// bank, the liability bank, the liquidated account and the liquidator's MarginFi account are
/// accounts 0, 2, 3, 4 and 5.
pub proof fn liquidation_keeps_asset_and_liability_apart(
    data: &[u8],
    accounts: &[Pubkey],
    metadata: &EventMetadata,
    logged: ParseResult<MarginFiEvent>,
    instruction: ParseResult<MarginFiEvent>,
)
    requires
        call_ensures(parse_marginfi_liquidate_inner_instruction, (data, metadata), logged),
        call_ensures(parse_marginfi_liquidate_instruction, (data, accounts, metadata), instruction),
    ensures
        logged is Ok <==> data@.len() >= 24,
        instruction is Ok <==> data@.len() >= 24,
        logged is Ok ==> (logged matches Ok(MarginFiEvent::Liquidation(e)) && e.liquidation_data.asset_amount
            == u64_at(data@, 8) && e.liquidation_data.liab_amount == u64_at(data@, 16)),
        instruction is Ok ==> (instruction matches Ok(MarginFiEvent::Liquidation(e))
            && e.liquidation_data.asset_amount == u64_at(data@, 8) && e.liquidation_data.liab_amount == u64_at(
            data@,
            16,
        )),
        accounts@.len() >= 12 ==> (instruction matches Ok(MarginFiEvent::Liquidation(e))
            ==> e.liquidation_data.liquidator@ == accounts@[0]@ && e.liquidation_data.asset_bank@ == accounts@[2]@
            && e.liquidation_data.liab_bank@ == accounts@[3]@ && e.liquidation_data.liquidatee_marginfi_account@
            == accounts@[4]@ && e.liquidation_data.liquidator_marginfi_account@ == accounts@[5]@),
{
}

/// A deposit and a borrow, logged or as instructions, decode exactly when their data holds the
/// discriminator and the amount (16 bytes), and take the amount from the eight bytes after the
/// discriminator. With enough accounts (eight for a deposit, nine for a borrow), the signer,
/// the MarginFi account, the bank and the user's token account are accounts 0, 2, 3 and 4.
pub proof fn deposit_and_borrow_read_their_amount(
    data: &[u8],
    accounts: &[Pubkey],
    metadata: &EventMetadata,
    deposit: ParseResult<MarginFiEvent>,
    borrow: ParseResult<MarginFiEvent>,
)
    requires
        call_ensures(parse_marginfi_deposit_instruction, (data, accounts, metadata), deposit),
        call_ensures(parse_marginfi_borrow_instruction, (data, accounts, metadata), borrow),
    ensures
        deposit is Ok <==> data@.len() >= 16,
        borrow is Ok <==> data@.len() >= 16,
        deposit is Ok ==> (deposit matches Ok(MarginFiEvent::Deposit(e)) && e.deposit_data.amount == u64_at(data@, 8)),
        borrow is Ok ==> (borrow matches Ok(MarginFiEvent::Borrow(e)) && e.borrow_data.amount == u64_at(data@, 8)),
        accounts@.len() >= 8 ==> (deposit matches Ok(MarginFiEvent::Deposit(e)) ==> e.deposit_data.signer@
            == accounts@[0]@ && e.deposit_data.marginfi_account@ == accounts@[2]@ && e.deposit_data.bank@
            == accounts@[3]@ && e.deposit_data.token_account@ == accounts@[4]@),
        accounts@.len() >= 9 ==> (borrow matches Ok(MarginFiEvent::Borrow(e)) ==> e.borrow_data.signer@
            == accounts@[0]@ && e.borrow_data.marginfi_account@ == accounts@[2]@ && e.borrow_data.bank@
            == accounts@[3]@ && e.borrow_data.token_account@ == accounts@[4]@),
{
}

} // verus!
