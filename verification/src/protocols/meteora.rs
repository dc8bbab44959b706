use vstd::prelude::*;

use crate::factory::SolanaTransactionInput;
use crate::types::{
    key_of_text, key_or_zero, metadata_from, metadata_from_parameters, pubkey_from_text, zero_key,
    EventMetadata, EventParameters, EventType, ProtocolType, ProtocolTypeView, Pubkey, TransferData,
};

verus! {

/// The Meteora DLMM program address, as base58 text.
pub const METEORA_DLMM_PROGRAM_ID: &'static str = "LBUZKhRxPF3XUpBCjp4YzTKgLccjZhTSDM9YuVaPwxo";

/// The Meteora dynamic AMM program address, as base58 text.
pub const METEORA_DYNAMIC_PROGRAM_ID: &'static str = "Dooar9JkhdZ7J3LHN3A7YCuoGRUggXhQaG4kijfLGU2j";

/// Instruction discriminator of DLMM swaps.
pub const DLMM_SWAP_DISCRIMINATOR: [u8; 8] = [0x14, 0x65, 0x32, 0x1f, 0x7a, 0x43, 0x2a, 0x9f];

/// Instruction discriminator of DLMM liquidity additions.
pub const DLMM_ADD_LIQUIDITY_DISCRIMINATOR: [u8; 8] = [0x4c, 0x1c, 0x9b, 0x2d, 0xe3, 0x7a, 0x8b, 0x12];

/// Instruction discriminator of DLMM liquidity removals.
pub const DLMM_REMOVE_LIQUIDITY_DISCRIMINATOR: [u8; 8] = [0xa2, 0xfd, 0x67, 0xe3, 0x45, 0x1b, 0x8c, 0x9a];

/// Instruction discriminator of dynamic AMM liquidity additions.
pub const DYNAMIC_ADD_LIQUIDITY_DISCRIMINATOR: [u8; 8] = [0x85, 0x72, 0x1a, 0x5f, 0x9d, 0x4e, 0x23, 0x7c];

/// Instruction discriminator of dynamic AMM liquidity removals.
pub const DYNAMIC_REMOVE_LIQUIDITY_DISCRIMINATOR: [u8; 8] = [0x6a, 0x8b, 0x47, 0x2e, 0x1c, 0x93, 0x5f, 0x4d];

/// The configuration of a DLMM pair.
#[derive(Debug, Clone)]
pub struct DlmmPairConfig {
    pub active_id: u32,
    pub base_fee_percentage: u64,
    pub base_key: Pubkey,
    pub bin_step: u16,
    pub id_reference: u32,
    pub liquidity_fee_percentage: u64,
    pub max_fee_percentage: u64,
    pub pair: Pubkey,
    pub protocol_fee_percentage: u64,
    pub time_of_last_update: u64,
    pub token_mint_x: Pubkey,
    pub token_mint_y: Pubkey,
    pub volatility_accumulator: u32,
    pub volatility_reference: u32,
}

/// What a DLMM swap carries.
#[derive(Debug, Clone)]
pub struct SwapData {
    pub active_id_after: u32,
    pub active_id_before: u32,
    pub actual_amount_out: u64,
    pub amount_in: u64,
    pub bins_traversed: Vec<u32>,
    pub fee_amount: u64,
    pub min_amount_out: u64,
    pub pair: Pubkey,
    pub protocol_fee: u64,
    pub reserve_x: Pubkey,
    pub reserve_y: Pubkey,
    pub swap_for_y: bool,
    pub token_mint_x: Pubkey,
    pub token_mint_y: Pubkey,
    pub user: Pubkey,
}

/// The state of a dynamic AMM pool.
#[derive(Debug, Clone)]
pub struct DynamicPoolData {
    pub admin_fee_rate: u64,
    pub fee_rate: u64,
    pub host_fee_denominator: u64,
    pub host_fee_numerator: u64,
    pub lp_mint: Pubkey,
    pub owner_trade_fee_denominator: u64,
    pub owner_trade_fee_numerator: u64,
    pub owner_withdraw_fee_denominator: u64,
    pub owner_withdraw_fee_numerator: u64,
    pub pool: Pubkey,
    pub token_mint_a: Pubkey,
    pub token_mint_b: Pubkey,
    pub trade_fee_denominator: u64,
    pub trade_fee_numerator: u64,
    pub vault_a: Pubkey,
    pub vault_b: Pubkey,
}

/// What a dynamic AMM liquidity change carries.
#[derive(Debug, Clone)]
pub struct DynamicLiquidityData {
    pub is_deposit: bool,
    pub lp_mint: Pubkey,
    pub maximum_token_a_amount: u64,
    pub maximum_token_b_amount: u64,
    pub minimum_pool_token_amount: u64,
    pub pool: Pubkey,
    pub pool_token_amount: u64,
    pub token_a_amount: u64,
    pub token_b_amount: u64,
    pub token_mint_a: Pubkey,
    pub token_mint_b: Pubkey,
    pub user: Pubkey,
    pub vault_a: Pubkey,
    pub vault_b: Pubkey,
}

impl Default for SwapData {
    fn default() -> (r: SwapData)
        ensures
            r.active_id_after == 0,
            r.active_id_before == 0,
            r.actual_amount_out == 0,
            r.amount_in == 0,
            r.bins_traversed@.len() == 0,
            r.fee_amount == 0,
            r.min_amount_out == 0,
            r.pair@ == zero_key(),
            r.protocol_fee == 0,
            r.reserve_x@ == zero_key(),
            r.reserve_y@ == zero_key(),
            !r.swap_for_y,
            r.token_mint_x@ == zero_key(),
            r.token_mint_y@ == zero_key(),
            r.user@ == zero_key(),
    {
        SwapData {
            active_id_after: 0,
            active_id_before: 0,
            actual_amount_out: 0,
            amount_in: 0,
            bins_traversed: Vec::new(),
            fee_amount: 0,
            min_amount_out: 0,
            pair: Pubkey::default(),
            protocol_fee: 0,
            reserve_x: Pubkey::default(),
            reserve_y: Pubkey::default(),
            swap_for_y: false,
            token_mint_x: Pubkey::default(),
            token_mint_y: Pubkey::default(),
            user: Pubkey::default(),
        }
    }
}

impl Default for DynamicLiquidityData {
    fn default() -> (r: DynamicLiquidityData)
        ensures
            !r.is_deposit,
            r.lp_mint@ == zero_key(),
            r.maximum_token_a_amount == 0,
            r.maximum_token_b_amount == 0,
            r.minimum_pool_token_amount == 0,
            r.pool@ == zero_key(),
            r.pool_token_amount == 0,
            r.token_a_amount == 0,
            r.token_b_amount == 0,
            r.token_mint_a@ == zero_key(),
            r.token_mint_b@ == zero_key(),
            r.user@ == zero_key(),
            r.vault_a@ == zero_key(),
            r.vault_b@ == zero_key(),
    {
        DynamicLiquidityData {
            is_deposit: false,
            lp_mint: Pubkey::default(),
            maximum_token_a_amount: 0,
            maximum_token_b_amount: 0,
            minimum_pool_token_amount: 0,
            pool: Pubkey::default(),
            pool_token_amount: 0,
            token_a_amount: 0,
            token_b_amount: 0,
            token_mint_a: Pubkey::default(),
            token_mint_b: Pubkey::default(),
            user: Pubkey::default(),
            vault_a: Pubkey::default(),
            vault_b: Pubkey::default(),
        }
    }
}

/// A DLMM swap.
#[derive(Debug, Clone)]
pub struct SwapEvent {
    pub metadata: EventMetadata,
    pub swap_data: SwapData,
    pub transfer_data: Vec<TransferData>,
}

/// A dynamic AMM liquidity change.
#[derive(Debug, Clone)]
pub struct DynamicLiquidityEvent {
    pub liquidity_data: DynamicLiquidityData,
    pub metadata: EventMetadata,
    pub transfer_data: Vec<TransferData>,
}

impl SwapEvent {
    /// A DLMM swap described by `swap_data`, with metadata built from `params` and no
    /// transfers.
    pub fn new(params: EventParameters, swap_data: SwapData) -> (e: SwapEvent)
        ensures
            metadata_from(e.metadata, params, EventType::Swap, ProtocolTypeView::MeteoraDlmm),
            e.swap_data == swap_data,
            e.transfer_data@.len() == 0,
    {
        SwapEvent {
            metadata: metadata_from_parameters(params, EventType::Swap, ProtocolType::MeteoraDlmm),
            swap_data,
            transfer_data: Vec::new(),
        }
    }

    /// The same swap with `transfer_data` as its transfers.
    pub fn with_transfer_data(self, transfer_data: Vec<TransferData>) -> (e: SwapEvent)
        ensures
            e == (SwapEvent { transfer_data, ..self }),
    {
        SwapEvent { transfer_data, ..self }
    }
}

impl DynamicLiquidityEvent {
    /// A dynamic AMM liquidity change described by `liquidity_data`, with metadata built from
    /// `params` under the DLMM protocol and no transfers; its event type is that of an
    /// addition either way.
    pub fn new(params: EventParameters, liquidity_data: DynamicLiquidityData) -> (e: DynamicLiquidityEvent)
        ensures
            metadata_from(e.metadata, params, EventType::AddLiquidity, ProtocolTypeView::MeteoraDlmm),
            e.liquidity_data == liquidity_data,
            e.transfer_data@.len() == 0,
    {
        DynamicLiquidityEvent {
            liquidity_data,
            metadata: metadata_from_parameters(params, EventType::AddLiquidity, ProtocolType::MeteoraDlmm),
            transfer_data: Vec::new(),
        }
    }

    /// The same event with `transfer_data` as its transfers.
    pub fn with_transfer_data(self, transfer_data: Vec<TransferData>) -> (e: DynamicLiquidityEvent)
        ensures
            e == (DynamicLiquidityEvent { transfer_data, ..self }),
    {
        DynamicLiquidityEvent { transfer_data, ..self }
    }
}

/// An event of the Meteora programs.
#[derive(Debug, Clone)]
pub enum MeteoraEvent {
    Swap(SwapEvent),
    DynamicLiquidity(DynamicLiquidityEvent),
}

/// The Meteora DLMM program address; the zero address were the text not to name one.
pub fn dlmm_program_id() -> (k: Pubkey)
    ensures
        k@ == key_or_zero(key_of_text(METEORA_DLMM_PROGRAM_ID@)),
{
    match pubkey_from_text(METEORA_DLMM_PROGRAM_ID) {
        Some(k) => k,
        None => Pubkey::default(),
    }
}

/// The Meteora dynamic AMM program address; the zero address were the text not to name one.
pub fn dynamic_program_id() -> (k: Pubkey)
    ensures
        k@ == key_or_zero(key_of_text(METEORA_DYNAMIC_PROGRAM_ID@)),
{
    match pubkey_from_text(METEORA_DYNAMIC_PROGRAM_ID) {
        Some(k) => k,
        None => Pubkey::default(),
    }
}

/// Whether `program_id` is the Meteora DLMM program.
pub fn is_meteora_dlmm_program(program_id: &Pubkey) -> (r: bool)
    ensures
        r == (program_id@ == key_or_zero(key_of_text(METEORA_DLMM_PROGRAM_ID@))),
{
    *program_id == dlmm_program_id()
}

/// Whether `program_id` is the Meteora dynamic AMM program.
pub fn is_meteora_dynamic_program(program_id: &Pubkey) -> (r: bool)
    ensures
        r == (program_id@ == key_or_zero(key_of_text(METEORA_DYNAMIC_PROGRAM_ID@))),
{
    *program_id == dynamic_program_id()
}

// ---------------------------------------------------------------------------
// Liquidity distribution over bins
// ---------------------------------------------------------------------------

/// The number of bins that a range from `from` to `to` is counted as: one more than its width,
/// held below `u32::MAX + 1` as 32-bit saturating addition holds it.
pub open spec fn bin_count(from: u32, to: u32) -> int {
    if to - from + 1 > u32::MAX {
        u32::MAX as int
    } else {
        to - from + 1
    }
}

/// The share of bin `bin`: bins at or below the active bin take an equal part of the X
/// amount, bins at or above it an equal part of the Y amount.
pub open spec fn bin_share(
    bin: int,
    amount_x: u64,
    amount_y: u64,
    count: int,
    active_id: u32,
) -> (u32, u64, u64) {
    (
        bin as u32,
        if bin <= active_id {
            (amount_x as int / count) as u64
        } else {
            0
        },
        if bin >= active_id {
            (amount_y as int / count) as u64
        } else {
            0
        },
    )
}

/// The distribution of the two amounts over the bins from `from` to `to`, in bin order; empty
/// for a reversed range.
pub open spec fn liquidity_distribution(
    amount_x: u64,
    amount_y: u64,
    from: u32,
    to: u32,
    active_id: u32,
) -> Seq<(u32, u64, u64)> {
    if to < from {
        Seq::empty()
    } else {
        Seq::new(
            (to - from + 1) as nat,
            |i: int| bin_share(from + i, amount_x, amount_y, bin_count(from, to), active_id),
        )
    }
}

/// Spreads two token amounts over a range of bins around the active bin.
pub fn calculate_liquidity_distribution(
    amount_x: u64,
    amount_y: u64,
    bin_id_from: u32,
    bin_id_to: u32,
    active_id: u32,
) -> (r: Vec<(u32, u64, u64)>)
    ensures
        r@ == liquidity_distribution(amount_x, amount_y, bin_id_from, bin_id_to, active_id),
{
    let mut distribution: Vec<(u32, u64, u64)> = Vec::new();
    if bin_id_to < bin_id_from {
        proof {
            assert(distribution@ =~= liquidity_distribution(
                amount_x,
                amount_y,
                bin_id_from,
                bin_id_to,
                active_id,
            ));
        }
        return distribution;
    }
    let total_bins: u64 = bin_id_to.saturating_sub(bin_id_from).saturating_add(1) as u64;
    if total_bins == 0 {
        return distribution;
    }
    let width: u64 = (bin_id_to - bin_id_from) as u64 + 1;
    let ghost count = bin_count(bin_id_from, bin_id_to);
    assert(total_bins == count);
    let mut i: u64 = 0;
    while i < width
        invariant
            bin_id_from <= bin_id_to,
            width == bin_id_to - bin_id_from + 1,
            total_bins == count,
            count == bin_count(bin_id_from, bin_id_to),
            total_bins > 0,
            i <= width,
            distribution@ == liquidity_distribution(
                amount_x,
                amount_y,
                bin_id_from,
                bin_id_to,
                active_id,
            ).take(i as int),
        decreases width - i,
    {
        let bin_id: u32 = (bin_id_from as u64 + i) as u32;
        let x_amount = if bin_id <= active_id && total_bins > 0 {
            match amount_x.checked_div(total_bins) {
                Some(v) => v,
                None => 0,
            }
        } else {
            0
        };
        let y_amount = if bin_id >= active_id && total_bins > 0 {
            match amount_y.checked_div(total_bins) {
                Some(v) => v,
                None => 0,
            }
        } else {
            0
        };
        distribution.push((bin_id, x_amount, y_amount));
        i = i + 1;
        proof {
            assert(distribution@ =~= liquidity_distribution(
                amount_x,
                amount_y,
                bin_id_from,
                bin_id_to,
                active_id,
            ).take(i as int));
        }
    }
    proof {
        assert(distribution@ =~= liquidity_distribution(
            amount_x,
            amount_y,
            bin_id_from,
            bin_id_to,
            active_id,
        ));
    }
    distribution
}

/// The X amount that a distribution hands out.
pub open spec fn x_total(s: Seq<(u32, u64, u64)>) -> int
    decreases s.len(),
{
    if s.len() == 0 {
        0
    } else {
        x_total(s.drop_last()) + s.last().1
    }
}

/// The Y amount that a distribution hands out.
pub open spec fn y_total(s: Seq<(u32, u64, u64)>) -> int
    decreases s.len(),
{
    if s.len() == 0 {
        0
    } else {
        y_total(s.drop_last()) + s.last().2
    }
}

/// How many of the first `k` bins from `from` lie at or below `active`.
spec fn bins_at_or_below(from: int, active: int, k: int) -> int {
    if active < from {
        0
    } else if k <= active - from + 1 {
        k
    } else {
        active - from + 1
    }
}

/// How many of the first `k` bins from `from` lie at or above `active`.
spec fn bins_at_or_above(from: int, active: int, k: int) -> int {
    if active <= from {
        k
    } else if k <= active - from {
        0
    } else {
        k - (active - from)
    }
}

proof fn lemma_prefix_totals(
    amount_x: u64,
    amount_y: u64,
    from: u32,
    to: u32,
    active_id: u32,
    k: int,
)
    requires
        from <= to,
        0 <= k <= to - from + 1,
    ensures
        x_total(liquidity_distribution(amount_x, amount_y, from, to, active_id).take(k))
            == bins_at_or_below(from as int, active_id as int, k) * (amount_x as int / bin_count(
            from,
            to,
        )),
        y_total(liquidity_distribution(amount_x, amount_y, from, to, active_id).take(k))
            == bins_at_or_above(from as int, active_id as int, k) * (amount_y as int / bin_count(
            from,
            to,
        )),
    decreases k,
{
    let s = liquidity_distribution(amount_x, amount_y, from, to, active_id);
    let qx = amount_x as int / bin_count(from, to);
    let qy = amount_y as int / bin_count(from, to);
    if k == 0 {
        assert(s.take(0) =~= Seq::<(u32, u64, u64)>::empty());
    } else {
        lemma_prefix_totals(amount_x, amount_y, from, to, active_id, k - 1);
        assert(s.take(k).drop_last() =~= s.take(k - 1));
        let cx = bins_at_or_below(from as int, active_id as int, k - 1);
        let cy = bins_at_or_above(from as int, active_id as int, k - 1);
        assert((cx + 1) * qx == cx * qx + qx) by (nonlinear_arith);
        assert((cy + 1) * qy == cy * qy + qy) by (nonlinear_arith);
    }
}

/// The distribution never hands out more of either token than it is given, unless the range
/// spans all 2^32 bins, whose count the 32-bit arithmetic holds one short.
pub proof fn distribution_within_amounts(
    amount_x: u64,
    amount_y: u64,
    bin_id_from: u32,
    bin_id_to: u32,
    active_id: u32,
)
    requires
        !(bin_id_from == 0 && bin_id_to == u32::MAX),
    ensures
        x_total(liquidity_distribution(amount_x, amount_y, bin_id_from, bin_id_to, active_id))
            <= amount_x,
        y_total(liquidity_distribution(amount_x, amount_y, bin_id_from, bin_id_to, active_id))
            <= amount_y,
{
    let s = liquidity_distribution(amount_x, amount_y, bin_id_from, bin_id_to, active_id);
    if bin_id_to < bin_id_from {
        return;
    }
    let n = bin_id_to - bin_id_from + 1;
    let c = bin_count(bin_id_from, bin_id_to);
    assert(c == n);
    lemma_prefix_totals(amount_x, amount_y, bin_id_from, bin_id_to, active_id, n);
    assert(s.take(n) =~= s);
    let cx = bins_at_or_below(bin_id_from as int, active_id as int, n);
    let cy = bins_at_or_above(bin_id_from as int, active_id as int, n);
    let qx = amount_x as int / c;
    let qy = amount_y as int / c;
    assert(0 <= cx <= c && 0 <= cy <= c);
    assert(cx * qx <= amount_x) by (nonlinear_arith)
        requires
            0 <= cx <= c,
            c > 0,
            qx == amount_x as int / c,
            amount_x >= 0,
    ;
    assert(cy * qy <= amount_y) by (nonlinear_arith)
        requires
            0 <= cy <= c,
            c > 0,
            qy == amount_y as int / c,
            amount_y >= 0,
    ;
}

/// The distribution lists each bin of the range once, in order, and splits the X amount
/// evenly over the bins at or below the active bin and the Y amount evenly over those at or
/// above it: a bin below the active bin holds no Y, a bin above it no X. (Over the range of all
/// 2^32 bins the 32-bit count is one short, so the even share is stated for the other ranges.)
pub proof fn bins_take_x_below_and_y_above(
    amount_x: u64,
    amount_y: u64,
    bin_id_from: u32,
    bin_id_to: u32,
    active_id: u32,
    r: Vec<(u32, u64, u64)>,
)
    requires
        call_ensures(calculate_liquidity_distribution, (amount_x, amount_y, bin_id_from, bin_id_to, active_id), r),
        !(bin_id_from == 0 && bin_id_to == u32::MAX),
    ensures
        bin_id_to < bin_id_from ==> r@.len() == 0,
        bin_id_from <= bin_id_to ==> r@.len() == bin_id_to - bin_id_from + 1,
        forall|i: int| 0 <= i < r@.len() ==> (#[trigger] r@[i]).0 == bin_id_from + i,
        forall|i: int| 0 <= i < r@.len() && (#[trigger] r@[i]).0 < active_id ==> r@[i].2 == 0
            && r@[i].1 == amount_x as int / (bin_id_to - bin_id_from + 1),
        forall|i: int| 0 <= i < r@.len() && (#[trigger] r@[i]).0 > active_id ==> r@[i].1 == 0
            && r@[i].2 == amount_y as int / (bin_id_to - bin_id_from + 1),
        forall|i: int| 0 <= i < r@.len() && (#[trigger] r@[i]).0 == active_id ==> r@[i].1 == amount_x as int / (
        bin_id_to - bin_id_from + 1) && r@[i].2 == amount_y as int / (bin_id_to - bin_id_from + 1),
{
}

/// Whether the parser accepts `input`.
pub open spec fn accepts(input: SolanaTransactionInput) -> bool {
    true
}

/// What parsing `input` may give.
pub open spec fn parse_outcome(input: SolanaTransactionInput, events: Seq<MeteoraEvent>) -> bool {
    events.len() == 0
}

/// The Meteora event parser. It recognises the DLMM and dynamic AMM programs but decodes no
/// events yet.
#[derive(Debug, Clone, Copy)]
pub struct Parser;

impl Default for Parser {
    fn default() -> (p: Parser)
        ensures
            p == Parser,
    {
        Parser
    }
}

impl Parser {
    /// A parser.
    pub fn new() -> (p: Parser)
        ensures
            p == Parser,
    {
        Parser
    }

    /// Whether `program_id` is one of the two Meteora programs.
    pub fn should_handle(&self, program_id: &Pubkey) -> (r: bool)
        ensures
            r == (program_id@ == key_or_zero(key_of_text(METEORA_DLMM_PROGRAM_ID@)) || program_id@
                == key_or_zero(key_of_text(METEORA_DYNAMIC_PROGRAM_ID@))),
    {
        is_meteora_dlmm_program(program_id) || is_meteora_dynamic_program(program_id)
    }

    /// The DLMM program and the dynamic AMM program.
    pub fn supported_program_ids(&self) -> (r: Vec<Pubkey>)
        ensures
            r@.len() == 2,
            r@[0]@ == key_or_zero(key_of_text(METEORA_DLMM_PROGRAM_ID@)),
            r@[1]@ == key_or_zero(key_of_text(METEORA_DYNAMIC_PROGRAM_ID@)),
    {
        let mut v: Vec<Pubkey> = Vec::new();
        v.push(dlmm_program_id());
        v.push(dynamic_program_id());
        v
    }

    /// Every input is accepted.
    pub fn can_parse(&self, input: &SolanaTransactionInput) -> (r: bool)
        ensures
            r == accepts(*input),
    {
        true
    }

    /// No input gives an event.
    pub fn parse(&self, input: &SolanaTransactionInput) -> (r: Vec<MeteoraEvent>)
        ensures
            parse_outcome(*input, r@),
    {
        Vec::new()
    }
}

} // verus!
