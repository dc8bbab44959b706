use vstd::prelude::*;
use vstd::string::*;

use crate::common::{
    has_discriminator, i32_at, party, read_i32_le, starts_with, u128_at, u64_at, u64_field,
};
use crate::error::{fail, format_error, ParseResult};
use crate::factory::{
    config_is, inner_metadata, instruction_metadata, push_ok, EventParseConfig,
    OwnedInnerInstructionParseParams, OwnedInstructionParseParams, SolanaTransactionInput,
};
use crate::text::{base58_decode, base58_decoding};
use crate::types::{
    key_of_text, key_or_zero, metadata_is, pubkey_from_text, zero_key, EventMetadata,
    EventParameters, EventType, ProtocolType, ProtocolTypeView, Pubkey, TransferData,
};

verus! {

/// The Orca Whirlpool program address, as base58 text.
pub const ORCA_WHIRLPOOL_PROGRAM_ID: &'static str = "whirLbMiicVdio4qvUfM5KAg6Ct8VwpYzGff3uctyCc";

/// Instruction discriminator of swaps.
pub const SWAP_DISCRIMINATOR: [u8; 8] = [0xf8, 0xc6, 0x9e, 0x91, 0xe1, 0x75, 0x87, 0xc8];

/// Instruction discriminator of position openings.
pub const OPEN_POSITION_DISCRIMINATOR: [u8; 8] = [0x87, 0x80, 0x2f, 0x4d, 0x0f, 0x98, 0xf0, 0x31];

/// Instruction discriminator of position closings.
pub const CLOSE_POSITION_DISCRIMINATOR: [u8; 8] = [0x7b, 0x86, 0x51, 0x00, 0x31, 0x44, 0x62, 0x62];

/// Instruction discriminator of liquidity increases.
pub const INCREASE_LIQUIDITY_DISCRIMINATOR: [u8; 8] = [0x2e, 0x9c, 0xf3, 0x76, 0x0d, 0xcd, 0xfb, 0xb2];

/// Instruction discriminator of liquidity decreases.
pub const DECREASE_LIQUIDITY_DISCRIMINATOR: [u8; 8] = [0xa0, 0x26, 0xd0, 0x6f, 0x68, 0x5b, 0x2c, 0x01];

/// Whether the parser accepts `input`.
pub open spec fn accepts(input: SolanaTransactionInput) -> bool {
    match input {
        SolanaTransactionInput::InnerInstruction(_) => true,
        SolanaTransactionInput::Instruction(p) => starts_with(p.instruction_data@, SWAP_DISCRIMINATOR@)
            || starts_with(p.instruction_data@, OPEN_POSITION_DISCRIMINATOR@)
            || starts_with(p.instruction_data@, CLOSE_POSITION_DISCRIMINATOR@)
            || starts_with(p.instruction_data@, INCREASE_LIQUIDITY_DISCRIMINATOR@)
            || starts_with(p.instruction_data@, DECREASE_LIQUIDITY_DISCRIMINATOR@),
    }
}

/// What parsing `input` may give.
pub open spec fn parse_outcome(input: SolanaTransactionInput, events: Seq<OrcaEvent>) -> bool {
    match input {
        SolanaTransactionInput::Instruction(p) => orca_instruction_events(events, p),
        SolanaTransactionInput::InnerInstruction(p) => orca_inner_events(events, p),
    }
}

/// One reward of a whirlpool.
#[derive(Debug, Clone, Copy)]
pub struct WhirlpoolRewardInfo {
    pub authority: Pubkey,
    pub emissions_per_second_x64: u128,
    pub growth_global_x64: u128,
    pub mint: Pubkey,
    pub vault: Pubkey,
}

/// The state of a whirlpool.
#[derive(Debug, Clone)]
pub struct WhirlpoolAccount {
    pub fee_growth_global_a: u128,
    pub fee_growth_global_b: u128,
    pub fee_rate: u16,
    pub liquidity: u128,
    pub protocol_fee_owed_a: u64,
    pub protocol_fee_owed_b: u64,
    pub protocol_fee_rate: u16,
    pub reward_infos: [WhirlpoolRewardInfo; 3],
    pub reward_last_updated_timestamp: u64,
    pub sqrt_price: u128,
    pub tick_current_index: i32,
    pub tick_spacing: u16,
    pub tick_spacing_seed: [u8; 2],
    pub token_mint_a: Pubkey,
    pub token_mint_b: Pubkey,
    pub token_vault_a: Pubkey,
    pub token_vault_b: Pubkey,
    pub whirlpool_bump: [u8; 1],
    pub whirlpools_config: Pubkey,
}

/// What a swap instruction carries.
#[derive(Debug, Clone)]
pub struct SwapData {
    pub a_to_b: bool,
    pub amount: u64,
    pub amount_in: u64,
    pub amount_out: u64,
    pub amount_specified_is_input: bool,
    pub fee_amount: u64,
    pub liquidity: u128,
    pub sqrt_price: u128,
    pub sqrt_price_limit: u128,
    pub tick_current_index: i32,
    pub token_mint_a: Pubkey,
    pub token_mint_b: Pubkey,
    pub token_vault_a: Pubkey,
    pub token_vault_b: Pubkey,
    pub user: Pubkey,
    pub whirlpool: Pubkey,
}

/// One reward of a position.
#[derive(Debug, Clone, Copy)]
pub struct PositionRewardInfo {
    pub amount_owed: u64,
    pub growth_inside_checkpoint: u128,
}

impl Default for PositionRewardInfo {
    fn default() -> (r: PositionRewardInfo)
        ensures
            r.amount_owed == 0,
            r.growth_inside_checkpoint == 0,
    {
        PositionRewardInfo { amount_owed: 0, growth_inside_checkpoint: 0 }
    }
}

/// What a position instruction carries.
#[derive(Debug, Clone)]
pub struct PositionData {
    pub fee_growth_checkpoint_a: u128,
    pub fee_growth_checkpoint_b: u128,
    pub fee_owed_a: u64,
    pub fee_owed_b: u64,
    pub liquidity: u128,
    pub position: Pubkey,
    pub position_authority: Pubkey,
    pub position_mint: Pubkey,
    pub position_token_account: Pubkey,
    pub reward_infos: [PositionRewardInfo; 3],
    pub tick_lower_index: i32,
    pub tick_upper_index: i32,
    pub whirlpool: Pubkey,
}

/// What a liquidity instruction carries.
#[derive(Debug, Clone)]
pub struct LiquidityData {
    pub is_increase: bool,
    pub liquidity_amount: u128,
    pub position: Pubkey,
    pub position_authority: Pubkey,
    pub tick_lower_index: i32,
    pub tick_upper_index: i32,
    pub token_actual_a: u64,
    pub token_actual_b: u64,
    pub token_max_a: u64,
    pub token_max_b: u64,
    pub token_mint_a: Pubkey,
    pub token_mint_b: Pubkey,
    pub token_vault_a: Pubkey,
    pub token_vault_b: Pubkey,
    pub whirlpool: Pubkey,
}

impl Default for SwapData {
    fn default() -> (r: SwapData)
        ensures
            !r.a_to_b,
            r.amount == 0,
            r.amount_in == 0,
            r.amount_out == 0,
            !r.amount_specified_is_input,
            r.fee_amount == 0,
            r.liquidity == 0,
            r.sqrt_price == 0,
            r.sqrt_price_limit == 0,
            r.tick_current_index == 0,
            r.token_mint_a@ == zero_key(),
            r.token_mint_b@ == zero_key(),
            r.token_vault_a@ == zero_key(),
            r.token_vault_b@ == zero_key(),
            r.user@ == zero_key(),
            r.whirlpool@ == zero_key(),
    {
        SwapData {
            a_to_b: false,
            amount: 0,
            amount_in: 0,
            amount_out: 0,
            amount_specified_is_input: false,
            fee_amount: 0,
            liquidity: 0,
            sqrt_price: 0,
            sqrt_price_limit: 0,
            tick_current_index: 0,
            token_mint_a: Pubkey::default(),
            token_mint_b: Pubkey::default(),
            token_vault_a: Pubkey::default(),
            token_vault_b: Pubkey::default(),
            user: Pubkey::default(),
            whirlpool: Pubkey::default(),
        }
    }
}

impl Default for PositionData {
    fn default() -> (r: PositionData)
        ensures
            r.fee_growth_checkpoint_a == 0,
            r.fee_growth_checkpoint_b == 0,
            r.fee_owed_a == 0,
            r.fee_owed_b == 0,
            r.liquidity == 0,
            r.position@ == zero_key(),
            r.position_authority@ == zero_key(),
            r.position_mint@ == zero_key(),
            r.position_token_account@ == zero_key(),
            forall|i: int| 0 <= i < 3 ==> (#[trigger] r.reward_infos@[i]).amount_owed == 0 && r.reward_infos@[i].growth_inside_checkpoint == 0,
            r.tick_lower_index == 0,
            r.tick_upper_index == 0,
            r.whirlpool@ == zero_key(),
    {
        PositionData {
            fee_growth_checkpoint_a: 0,
            fee_growth_checkpoint_b: 0,
            fee_owed_a: 0,
            fee_owed_b: 0,
            liquidity: 0,
            position: Pubkey::default(),
            position_authority: Pubkey::default(),
            position_mint: Pubkey::default(),
            position_token_account: Pubkey::default(),
            reward_infos: [PositionRewardInfo::default(), PositionRewardInfo::default(), PositionRewardInfo::default()],
            tick_lower_index: 0,
            tick_upper_index: 0,
            whirlpool: Pubkey::default(),
        }
    }
}

impl Default for LiquidityData {
    fn default() -> (r: LiquidityData)
        ensures
            !r.is_increase,
            r.liquidity_amount == 0,
            r.position@ == zero_key(),
            r.position_authority@ == zero_key(),
            r.tick_lower_index == 0,
            r.tick_upper_index == 0,
            r.token_actual_a == 0,
            r.token_actual_b == 0,
            r.token_max_a == 0,
            r.token_max_b == 0,
            r.token_mint_a@ == zero_key(),
            r.token_mint_b@ == zero_key(),
            r.token_vault_a@ == zero_key(),
            r.token_vault_b@ == zero_key(),
            r.whirlpool@ == zero_key(),
    {
        LiquidityData {
            is_increase: false,
            liquidity_amount: 0,
            position: Pubkey::default(),
            position_authority: Pubkey::default(),
            tick_lower_index: 0,
            tick_upper_index: 0,
            token_actual_a: 0,
            token_actual_b: 0,
            token_max_a: 0,
            token_max_b: 0,
            token_mint_a: Pubkey::default(),
            token_mint_b: Pubkey::default(),
            token_vault_a: Pubkey::default(),
            token_vault_b: Pubkey::default(),
            whirlpool: Pubkey::default(),
        }
    }
}

/// The direction of a swap between a whirlpool's two tokens.
#[derive(Debug, Clone, PartialEq, Eq, Structural)]
pub enum SwapDirection {
    AtoB,
    BtoA,
}

/// A swap.
#[derive(Debug, Clone)]
pub struct SwapEvent {
    pub metadata: EventMetadata,
    pub swap_data: SwapData,
    pub transfer_data: Vec<TransferData>,
}

/// A position opening or closing.
#[derive(Debug, Clone)]
pub struct PositionEvent {
    pub is_open: bool,
    pub metadata: EventMetadata,
    pub position_data: PositionData,
    pub transfer_data: Vec<TransferData>,
}

/// A liquidity change.
#[derive(Debug, Clone)]
pub struct LiquidityEvent {
    pub liquidity_data: LiquidityData,
    pub metadata: EventMetadata,
    pub transfer_data: Vec<TransferData>,
}

/// An event decoded from an Orca Whirlpool instruction or log.
#[derive(Debug, Clone)]
pub enum OrcaEvent {
    Swap(SwapEvent),
    Position(PositionEvent),
    Liquidity(LiquidityEvent),
}

/// The Orca Whirlpool program address; the zero address were the text not to name one.
pub fn whirlpool_program_id() -> (k: Pubkey)
    ensures
        k@ == key_or_zero(key_of_text(ORCA_WHIRLPOOL_PROGRAM_ID@)),
{
    match pubkey_from_text(ORCA_WHIRLPOOL_PROGRAM_ID) {
        Some(k) => k,
        None => Pubkey::default(),
    }
}

/// Whether `program_id` is the Orca Whirlpool program.
pub fn is_orca_whirlpool_program(program_id: &Pubkey) -> (r: bool)
    ensures
        r == (program_id@ == key_or_zero(key_of_text(ORCA_WHIRLPOOL_PROGRAM_ID@))),
{
    *program_id == whirlpool_program_id()
}

// ---------------------------------------------------------------------------
// Records
// ---------------------------------------------------------------------------

/// Whether `d` holds the swap that `data` describes after its discriminator and, where at
/// least eleven accounts are given, the whirlpool, the user and the two vaults; the rest is
/// zero.
pub open spec fn swap_fields(d: SwapData, data: Seq<u8>, accounts: Seq<Pubkey>) -> bool {
    let input = data[40] != 0;
    let amount = u64_at(data, 8);
    let other = u64_at(data, 16);
    &&& d.amount == amount
    &&& d.amount_specified_is_input == input
    &&& d.a_to_b == (data[41] != 0)
    &&& d.sqrt_price_limit == u128_at(data, 24)
    &&& d.amount_in == (if input { amount } else { other })
    &&& d.amount_out == (if input { other } else { amount })
    &&& d.fee_amount == 0
    &&& d.tick_current_index == 0
    &&& d.sqrt_price == 0
    &&& d.liquidity == 0
    &&& d.user@ == party(accounts, 11, 0)
    &&& d.whirlpool@ == party(accounts, 11, 1)
    &&& d.token_vault_a@ == party(accounts, 11, 3)
    &&& d.token_vault_b@ == party(accounts, 11, 4)
    &&& d.token_mint_a@ == zero_key()
    &&& d.token_mint_b@ == zero_key()
}

/// Whether `d` holds the tick range that `data` describes and, where at least seven accounts
/// are given, the position's accounts; the rest is zero.
pub open spec fn position_fields(d: PositionData, data: Seq<u8>, accounts: Seq<Pubkey>) -> bool {
    &&& d.tick_lower_index == i32_at(data, 8)
    &&& d.tick_upper_index == i32_at(data, 12)
    &&& d.position_authority@ == party(accounts, 7, 0)
    &&& d.whirlpool@ == party(accounts, 7, 1)
    &&& d.position@ == party(accounts, 7, 2)
    &&& d.position_mint@ == party(accounts, 7, 3)
    &&& d.position_token_account@ == party(accounts, 7, 4)
    &&& d.liquidity == 0
    &&& d.fee_growth_checkpoint_a == 0
    &&& d.fee_growth_checkpoint_b == 0
    &&& d.fee_owed_a == 0
    &&& d.fee_owed_b == 0
    &&& forall|i: int|
        0 <= i < 3 ==> #[trigger] d.reward_infos@[i].amount_owed == 0
            && d.reward_infos@[i].growth_inside_checkpoint == 0
}

/// Whether `d` holds the liquidity change that `data` describes and, where at least twelve
/// accounts are given, the position's accounts and vaults; the actual amounts are taken to be
/// the maximums.
pub open spec fn liquidity_fields(
    d: LiquidityData,
    data: Seq<u8>,
    accounts: Seq<Pubkey>,
    is_increase: bool,
) -> bool {
    &&& d.liquidity_amount == u128_at(data, 8)
    &&& d.token_max_a == u64_at(data, 24)
    &&& d.token_max_b == u64_at(data, 32)
    &&& d.token_actual_a == u64_at(data, 24)
    &&& d.token_actual_b == u64_at(data, 32)
    &&& d.is_increase == is_increase
    &&& d.position_authority@ == party(accounts, 12, 0)
    &&& d.whirlpool@ == party(accounts, 12, 1)
    &&& d.position@ == party(accounts, 12, 2)
    &&& d.token_vault_a@ == party(accounts, 12, 5)
    &&& d.token_vault_b@ == party(accounts, 12, 6)
    &&& d.token_mint_a@ == zero_key()
    &&& d.token_mint_b@ == zero_key()
    &&& d.tick_lower_index == 0
    &&& d.tick_upper_index == 0
}

fn read_u128_at(data: &[u8], offset: usize) -> (v: u128)
    requires
        offset + 16 <= data@.len(),
    ensures
        v == u128_at(data@, offset as int),
{
    match crate::common::read_u128_le(data, offset) {
        Ok(v) => v,
        Err(_) => 0,
    }
}

fn read_i32_at(data: &[u8], offset: usize) -> (v: i32)
    requires
        offset + 4 <= data@.len(),
    ensures
        v == i32_at(data@, offset as int),
{
    match read_i32_le(data, offset) {
        Ok(v) => v,
        Err(_) => 0,
    }
}

/// Reads a swap record of at least 64 bytes: amount, threshold, price limit and two flags.
pub fn parse_swap_data(data: &[u8]) -> (r: Option<SwapData>)
    ensures
        r is Some <==> data@.len() >= 64,
        r matches Some(d) ==> swap_fields(d, data@, Seq::empty()),
{
    if data.len() < 64 {
        return None;
    }
    let amount = u64_field(data, 8);
    let other_amount_threshold = u64_field(data, 16);
    let sqrt_price_limit = read_u128_at(data, 24);
    let amount_specified_is_input = data[40] != 0;
    let a_to_b = data[41] != 0;
    Some(
        SwapData {
            a_to_b,
            amount,
            amount_in: if amount_specified_is_input { amount } else { other_amount_threshold },
            amount_out: if amount_specified_is_input { other_amount_threshold } else { amount },
            amount_specified_is_input,
            fee_amount: 0,
            liquidity: 0,
            sqrt_price: 0,
            sqrt_price_limit,
            tick_current_index: 0,
            token_mint_a: Pubkey::default(),
            token_mint_b: Pubkey::default(),
            token_vault_a: Pubkey::default(),
            token_vault_b: Pubkey::default(),
            user: Pubkey::default(),
            whirlpool: Pubkey::default(),
        },
    )
}

/// Reads a swap record and, where at least eleven accounts are given, its parties.
pub fn parse_swap_data_from_instruction(data: &[u8], accounts: &[Pubkey]) -> (r: Option<SwapData>)
    ensures
        r is Some <==> data@.len() >= 64,
        r matches Some(d) ==> swap_fields(d, data@, accounts@),
{
    let mut d = match parse_swap_data(data) {
        Some(d) => d,
        None => return None,
    };
    if accounts.len() >= 11 {
        d.whirlpool = accounts[1];
        d.user = accounts[0];
        d.token_vault_a = accounts[3];
        d.token_vault_b = accounts[4];
    }
    Some(d)
}

/// Reads a position record of at least 32 bytes: the two tick bounds.
pub fn parse_position_data(data: &[u8]) -> (r: Option<PositionData>)
    ensures
        r is Some <==> data@.len() >= 32,
        r matches Some(d) ==> position_fields(d, data@, Seq::empty()),
{
    if data.len() < 32 {
        return None;
    }
    let tick_lower_index = read_i32_at(data, 8);
    let tick_upper_index = read_i32_at(data, 12);
    let reward_infos = [PositionRewardInfo::default(), PositionRewardInfo::default(), PositionRewardInfo::default()];
    Some(
        PositionData {
            fee_growth_checkpoint_a: 0,
            fee_growth_checkpoint_b: 0,
            fee_owed_a: 0,
            fee_owed_b: 0,
            liquidity: 0,
            position: Pubkey::default(),
            position_authority: Pubkey::default(),
            position_mint: Pubkey::default(),
            position_token_account: Pubkey::default(),
            reward_infos,
            tick_lower_index,
            tick_upper_index,
            whirlpool: Pubkey::default(),
        },
    )
}

/// Reads a position record and, where at least seven accounts are given, its parties.
pub fn parse_position_data_from_instruction(data: &[u8], accounts: &[Pubkey]) -> (r: Option<PositionData>)
    ensures
        r is Some <==> data@.len() >= 32,
        r matches Some(d) ==> position_fields(d, data@, accounts@),
{
    let mut d = match parse_position_data(data) {
        Some(d) => d,
        None => return None,
    };
    if accounts.len() >= 7 {
        d.whirlpool = accounts[1];
        d.position_authority = accounts[0];
        d.position = accounts[2];
        d.position_mint = accounts[3];
        d.position_token_account = accounts[4];
    }
    Some(d)
}

/// Reads a liquidity record of at least 40 bytes: the liquidity and the two maximums.
pub fn parse_liquidity_data(data: &[u8], is_increase: bool) -> (r: Option<LiquidityData>)
    ensures
        r is Some <==> data@.len() >= 40,
        r matches Some(d) ==> liquidity_fields(d, data@, Seq::empty(), is_increase),
{
    if data.len() < 40 {
        return None;
    }
    let liquidity_amount = read_u128_at(data, 8);
    let token_max_a = u64_field(data, 24);
    let token_max_b = u64_field(data, 32);
    Some(
        LiquidityData {
            is_increase,
            liquidity_amount,
            position: Pubkey::default(),
            position_authority: Pubkey::default(),
            tick_lower_index: 0,
            tick_upper_index: 0,
            token_actual_a: token_max_a,
            token_actual_b: token_max_b,
            token_max_a,
            token_max_b,
            token_mint_a: Pubkey::default(),
            token_mint_b: Pubkey::default(),
            token_vault_a: Pubkey::default(),
            token_vault_b: Pubkey::default(),
            whirlpool: Pubkey::default(),
        },
    )
}

/// Reads a liquidity record and, where at least twelve accounts are given, its parties.
pub fn parse_liquidity_data_from_instruction(
    data: &[u8],
    accounts: &[Pubkey],
    is_increase: bool,
) -> (r: Option<LiquidityData>)
    ensures
        r is Some <==> data@.len() >= 40,
        r matches Some(d) ==> liquidity_fields(d, data@, accounts@, is_increase),
{
    let mut d = match parse_liquidity_data(data, is_increase) {
        Some(d) => d,
        None => return None,
    };
    if accounts.len() >= 12 {
        d.whirlpool = accounts[1];
        d.position_authority = accounts[0];
        d.position = accounts[2];
        d.token_vault_a = accounts[5];
        d.token_vault_b = accounts[6];
    }
    Some(d)
}

/// Whether `m` is the metadata that an Orca event built from the table metadata `src`
/// carries: the same identifier and instruction context, no block time, the event's own type
/// and the Orca Whirlpool protocol.
pub open spec fn orca_metadata(m: EventMetadata, src: EventMetadata, event_type: EventType) -> bool {
    metadata_is(
        m,
        src.id@,
        src.signature@,
        src.slot,
        None,
        src.received_time_ms,
        src.index@,
        event_type,
        ProtocolTypeView::OrcaWhirlpool,
    )
}

fn event_metadata(m: &EventMetadata, event_type: EventType) -> (r: EventMetadata)
    ensures
        orca_metadata(r, *m, event_type),
{
    EventMetadata {
        id: m.id.clone(),
        signature: m.signature.clone(),
        slot: m.slot,
        block_time: None,
        received_time_ms: m.received_time_ms,
        index: m.index.clone(),
        event_type,
        protocol_type: ProtocolType::OrcaWhirlpool,
    }
}

/// Whether `m` is the metadata that an Orca event constructor builds from `p`: no block
/// time, the event's own type and the Orca Whirlpool protocol.
pub open spec fn orca_metadata_from(m: EventMetadata, p: EventParameters, event_type: EventType) -> bool {
    metadata_is(
        m,
        p.id@,
        p.signature@,
        p.slot,
        None,
        p.program_received_time_ms,
        p.index@,
        event_type,
        ProtocolTypeView::OrcaWhirlpool,
    )
}

fn metadata_of_parameters(p: EventParameters, event_type: EventType) -> (m: EventMetadata)
    ensures
        orca_metadata_from(m, p, event_type),
{
    EventMetadata {
        id: p.id,
        signature: p.signature,
        slot: p.slot,
        block_time: None,
        received_time_ms: p.program_received_time_ms,
        index: p.index,
        event_type,
        protocol_type: ProtocolType::OrcaWhirlpool,
    }
}

impl SwapEvent {
    /// A swap described by `swap_data`, with metadata built from `params` and no transfers.
    pub fn new(params: EventParameters, swap_data: SwapData) -> (e: SwapEvent)
        ensures
            orca_metadata_from(e.metadata, params, EventType::Swap),
            e.swap_data == swap_data,
            e.transfer_data@.len() == 0,
    {
        SwapEvent {
            metadata: metadata_of_parameters(params, EventType::Swap),
            swap_data,
            transfer_data: Vec::new(),
        }
    }

    /// The same swap with `transfer_data` as its transfers.
    pub fn with_transfer_data(self, transfer_data: Vec<TransferData>) -> (e: SwapEvent)
        ensures
            e == (SwapEvent { transfer_data, ..self }),
    {
        SwapEvent { transfer_data, ..self }
    }
}

impl PositionEvent {
    /// A position opening, or closing where `is_open` is false, described by `position_data`,
    /// with metadata built from `params` and no transfers.
    pub fn new(params: EventParameters, position_data: PositionData, is_open: bool) -> (e: PositionEvent)
        ensures
            orca_metadata_from(
                e.metadata,
                params,
                if is_open { EventType::OpenPosition } else { EventType::ClosePosition },
            ),
            e.position_data == position_data,
            e.is_open == is_open,
            e.transfer_data@.len() == 0,
    {
        let event_type = if is_open { EventType::OpenPosition } else { EventType::ClosePosition };
        PositionEvent {
            is_open,
            metadata: metadata_of_parameters(params, event_type),
            position_data,
            transfer_data: Vec::new(),
        }
    }

    /// The same event with `transfer_data` as its transfers.
    pub fn with_transfer_data(self, transfer_data: Vec<TransferData>) -> (e: PositionEvent)
        ensures
            e == (PositionEvent { transfer_data, ..self }),
    {
        PositionEvent { transfer_data, ..self }
    }
}

impl LiquidityEvent {
    /// A liquidity change described by `liquidity_data`, with metadata built from `params` and
    /// no transfers; its event type is that of an addition either way.
    pub fn new(params: EventParameters, liquidity_data: LiquidityData) -> (e: LiquidityEvent)
        ensures
            orca_metadata_from(e.metadata, params, EventType::AddLiquidity),
            e.liquidity_data == liquidity_data,
            e.transfer_data@.len() == 0,
    {
        LiquidityEvent {
            liquidity_data,
            metadata: metadata_of_parameters(params, EventType::AddLiquidity),
            transfer_data: Vec::new(),
        }
    }

    /// The same event with `transfer_data` as its transfers.
    pub fn with_transfer_data(self, transfer_data: Vec<TransferData>) -> (e: LiquidityEvent)
        ensures
            e == (LiquidityEvent { transfer_data, ..self }),
    {
        LiquidityEvent { transfer_data, ..self }
    }
}

/// Decodes a logged swap; the event keeps the identifier that the table gave it.
pub fn parse_swap_inner_instruction(data: &[u8], metadata: &EventMetadata) -> (r: ParseResult<OrcaEvent>)
    ensures
        data@.len() < 64 ==> format_error(r, "Failed to parse Orca swap data"@),
        data@.len() >= 64 ==> (r matches Ok(OrcaEvent::Swap(e)) && swap_fields(e.swap_data, data@, Seq::empty()) && e.transfer_data@.len() == 0 && orca_metadata(
            e.metadata,
            *metadata,
            EventType::Swap,
        )),
{
    match parse_swap_data(data) {
        Some(d) => Ok(OrcaEvent::Swap(SwapEvent { metadata: event_metadata(metadata, EventType::Swap), swap_data: d, transfer_data: Vec::new() })),
        None => Err(fail("Failed to parse Orca swap data")),
    }
}

/// Decodes a swap instruction; the event keeps the identifier that the table gave it.
pub fn parse_swap_instruction(data: &[u8], accounts: &[Pubkey], metadata: &EventMetadata) -> (r: ParseResult<OrcaEvent>)
    ensures
        data@.len() < 64 ==> format_error(r, "Failed to parse Orca swap data"@),
        data@.len() >= 64 ==> (r matches Ok(OrcaEvent::Swap(e)) && swap_fields(e.swap_data, data@, accounts@) && e.transfer_data@.len() == 0 && orca_metadata(
            e.metadata,
            *metadata,
            EventType::Swap,
        )),
{
    match parse_swap_data_from_instruction(data, accounts) {
        Some(d) => Ok(OrcaEvent::Swap(SwapEvent { metadata: event_metadata(metadata, EventType::Swap), swap_data: d, transfer_data: Vec::new() })),
        None => Err(fail("Failed to parse Orca swap data")),
    }
}

/// Decodes a logged position opening; the event keeps the identifier that the table gave it.
pub fn parse_open_position_inner_instruction(data: &[u8], metadata: &EventMetadata) -> (r: ParseResult<OrcaEvent>)
    ensures
        data@.len() < 32 ==> format_error(r, "Failed to parse Orca position data"@),
        data@.len() >= 32 ==> (r matches Ok(OrcaEvent::Position(e)) && position_fields(e.position_data, data@, Seq::empty()) && e.is_open == true && e.transfer_data@.len() == 0 && orca_metadata(
            e.metadata,
            *metadata,
            EventType::OpenPosition,
        )),
{
    match parse_position_data(data) {
        Some(d) => Ok(OrcaEvent::Position(PositionEvent { is_open: true, metadata: event_metadata(metadata, EventType::OpenPosition), position_data: d, transfer_data: Vec::new() })),
        None => Err(fail("Failed to parse Orca position data")),
    }
}

/// Decodes a position opening instruction; the event keeps the identifier that the table gave it.
pub fn parse_open_position_instruction(data: &[u8], accounts: &[Pubkey], metadata: &EventMetadata) -> (r: ParseResult<OrcaEvent>)
    ensures
        data@.len() < 32 ==> format_error(r, "Failed to parse Orca position data"@),
        data@.len() >= 32 ==> (r matches Ok(OrcaEvent::Position(e)) && position_fields(e.position_data, data@, accounts@) && e.is_open == true && e.transfer_data@.len() == 0 && orca_metadata(
            e.metadata,
            *metadata,
            EventType::OpenPosition,
        )),
{
    match parse_position_data_from_instruction(data, accounts) {
        Some(d) => Ok(OrcaEvent::Position(PositionEvent { is_open: true, metadata: event_metadata(metadata, EventType::OpenPosition), position_data: d, transfer_data: Vec::new() })),
        None => Err(fail("Failed to parse Orca position data")),
    }
}

/// Decodes a logged position closing; the event keeps the identifier that the table gave it.
pub fn parse_close_position_inner_instruction(data: &[u8], metadata: &EventMetadata) -> (r: ParseResult<OrcaEvent>)
    ensures
        data@.len() < 32 ==> format_error(r, "Failed to parse Orca position data"@),
        data@.len() >= 32 ==> (r matches Ok(OrcaEvent::Position(e)) && position_fields(e.position_data, data@, Seq::empty()) && e.is_open == false && e.transfer_data@.len() == 0 && orca_metadata(
            e.metadata,
            *metadata,
            EventType::ClosePosition,
        )),
{
    match parse_position_data(data) {
        Some(d) => Ok(OrcaEvent::Position(PositionEvent { is_open: false, metadata: event_metadata(metadata, EventType::ClosePosition), position_data: d, transfer_data: Vec::new() })),
        None => Err(fail("Failed to parse Orca position data")),
    }
}

/// Decodes a position closing instruction; the event keeps the identifier that the table gave it.
pub fn parse_close_position_instruction(data: &[u8], accounts: &[Pubkey], metadata: &EventMetadata) -> (r: ParseResult<OrcaEvent>)
    ensures
        data@.len() < 32 ==> format_error(r, "Failed to parse Orca position data"@),
        data@.len() >= 32 ==> (r matches Ok(OrcaEvent::Position(e)) && position_fields(e.position_data, data@, accounts@) && e.is_open == false && e.transfer_data@.len() == 0 && orca_metadata(
            e.metadata,
            *metadata,
            EventType::ClosePosition,
        )),
{
    match parse_position_data_from_instruction(data, accounts) {
        Some(d) => Ok(OrcaEvent::Position(PositionEvent { is_open: false, metadata: event_metadata(metadata, EventType::ClosePosition), position_data: d, transfer_data: Vec::new() })),
        None => Err(fail("Failed to parse Orca position data")),
    }
}

/// Decodes a logged liquidity increase; the event keeps the identifier that the table gave it.
pub fn parse_increase_liquidity_inner_instruction(data: &[u8], metadata: &EventMetadata) -> (r: ParseResult<OrcaEvent>)
    ensures
        data@.len() < 40 ==> format_error(r, "Failed to parse Orca liquidity data"@),
        data@.len() >= 40 ==> (r matches Ok(OrcaEvent::Liquidity(e)) && liquidity_fields(e.liquidity_data, data@, Seq::empty(), true) && e.transfer_data@.len() == 0 && orca_metadata(
            e.metadata,
            *metadata,
            EventType::AddLiquidity,
        )),
{
    match parse_liquidity_data(data, true) {
        Some(d) => Ok(OrcaEvent::Liquidity(LiquidityEvent { liquidity_data: d, metadata: event_metadata(metadata, EventType::AddLiquidity), transfer_data: Vec::new() })),
        None => Err(fail("Failed to parse Orca liquidity data")),
    }
}

/// Decodes a liquidity increase instruction; the event keeps the identifier that the table gave it.
pub fn parse_increase_liquidity_instruction(data: &[u8], accounts: &[Pubkey], metadata: &EventMetadata) -> (r: ParseResult<OrcaEvent>)
    ensures
        data@.len() < 40 ==> format_error(r, "Failed to parse Orca liquidity data"@),
        data@.len() >= 40 ==> (r matches Ok(OrcaEvent::Liquidity(e)) && liquidity_fields(e.liquidity_data, data@, accounts@, true) && e.transfer_data@.len() == 0 && orca_metadata(
            e.metadata,
            *metadata,
            EventType::AddLiquidity,
        )),
{
    match parse_liquidity_data_from_instruction(data, accounts, true) {
        Some(d) => Ok(OrcaEvent::Liquidity(LiquidityEvent { liquidity_data: d, metadata: event_metadata(metadata, EventType::AddLiquidity), transfer_data: Vec::new() })),
        None => Err(fail("Failed to parse Orca liquidity data")),
    }
}

/// Decodes a logged liquidity decrease; the event keeps the identifier that the table gave it.
pub fn parse_decrease_liquidity_inner_instruction(data: &[u8], metadata: &EventMetadata) -> (r: ParseResult<OrcaEvent>)
    ensures
        data@.len() < 40 ==> format_error(r, "Failed to parse Orca liquidity data"@),
        data@.len() >= 40 ==> (r matches Ok(OrcaEvent::Liquidity(e)) && liquidity_fields(e.liquidity_data, data@, Seq::empty(), false) && e.transfer_data@.len() == 0 && orca_metadata(
            e.metadata,
            *metadata,
            EventType::AddLiquidity,
        )),
{
    match parse_liquidity_data(data, false) {
        Some(d) => Ok(OrcaEvent::Liquidity(LiquidityEvent { liquidity_data: d, metadata: event_metadata(metadata, EventType::AddLiquidity), transfer_data: Vec::new() })),
        None => Err(fail("Failed to parse Orca liquidity data")),
    }
}

/// Decodes a liquidity decrease instruction; the event keeps the identifier that the table gave it.
pub fn parse_decrease_liquidity_instruction(data: &[u8], accounts: &[Pubkey], metadata: &EventMetadata) -> (r: ParseResult<OrcaEvent>)
    ensures
        data@.len() < 40 ==> format_error(r, "Failed to parse Orca liquidity data"@),
        data@.len() >= 40 ==> (r matches Ok(OrcaEvent::Liquidity(e)) && liquidity_fields(e.liquidity_data, data@, accounts@, false) && e.transfer_data@.len() == 0 && orca_metadata(
            e.metadata,
            *metadata,
            EventType::AddLiquidity,
        )),
{
    match parse_liquidity_data_from_instruction(data, accounts, false) {
        Some(d) => Ok(OrcaEvent::Liquidity(LiquidityEvent { liquidity_data: d, metadata: event_metadata(metadata, EventType::AddLiquidity), transfer_data: Vec::new() })),
        None => Err(fail("Failed to parse Orca liquidity data")),
    }
}

// ---------------------------------------------------------------------------
// The parser: a table from discriminators to decoders
// ---------------------------------------------------------------------------

/// Whether `m` is the metadata of an Orca event decoded through the table: identified by the
/// signature and the instruction index.
pub open spec fn table_event_metadata(
    m: EventMetadata,
    signature: Seq<char>,
    slot: u64,
    received_time_ms: i64,
    index: Seq<char>,
    event_type: EventType,
) -> bool {
    metadata_is(
        m,
        signature + "_"@ + index,
        signature,
        slot,
        None,
        received_time_ms,
        index,
        event_type,
        ProtocolTypeView::OrcaWhirlpool,
    )
}

/// Whether `ev` is the swap that `data` and `accounts` describe, decoded through the table.
pub open spec fn is_swap_event(
    ev: OrcaEvent,
    data: Seq<u8>,
    accounts: Seq<Pubkey>,
    signature: Seq<char>,
    slot: u64,
    received_time_ms: i64,
    index: Seq<char>,
) -> bool {
    &&& ev matches OrcaEvent::Swap(e)
    &&& swap_fields(e.swap_data, data, accounts)
    &&& table_event_metadata(e.metadata, signature, slot, received_time_ms, index, EventType::Swap)
}

/// Whether `ev` is the position opening (`is_open`) or closing that `data` and `accounts`
/// describe, decoded through the table.
pub open spec fn is_position_event(
    ev: OrcaEvent,
    is_open: bool,
    data: Seq<u8>,
    accounts: Seq<Pubkey>,
    signature: Seq<char>,
    slot: u64,
    received_time_ms: i64,
    index: Seq<char>,
) -> bool {
    &&& ev matches OrcaEvent::Position(e)
    &&& e.is_open == is_open
    &&& position_fields(e.position_data, data, accounts)
    &&& table_event_metadata(
        e.metadata,
        signature,
        slot,
        received_time_ms,
        index,
        if is_open {
            EventType::OpenPosition
        } else {
            EventType::ClosePosition
        },
    )
}

/// Whether `ev` is the liquidity increase (`is_increase`) or decrease that `data` and
/// `accounts` describe, decoded through the table; both carry the liquidity-adding type.
pub open spec fn is_liquidity_event(
    ev: OrcaEvent,
    is_increase: bool,
    data: Seq<u8>,
    accounts: Seq<Pubkey>,
    signature: Seq<char>,
    slot: u64,
    received_time_ms: i64,
    index: Seq<char>,
) -> bool {
    &&& ev matches OrcaEvent::Liquidity(e)
    &&& liquidity_fields(e.liquidity_data, data, accounts, is_increase)
    &&& table_event_metadata(
        e.metadata,
        signature,
        slot,
        received_time_ms,
        index,
        EventType::AddLiquidity,
    )
}

/// What the table makes of a top-level instruction: the decoder whose discriminator starts
/// the data, where its record fits.
pub open spec fn orca_instruction_events(events: Seq<OrcaEvent>, p: OwnedInstructionParseParams) -> bool {
    let d = p.instruction_data@;
    let a = p.accounts@;
    let (sig, slot, ms, idx) = (p.signature@, p.slot, p.program_received_time_ms, p.index@);
    if starts_with(d, SWAP_DISCRIMINATOR@) {
        if d.len() >= 64 {
            events.len() == 1 && is_swap_event(events[0], d, a, sig, slot, ms, idx)
        } else {
            events.len() == 0
        }
    } else if starts_with(d, OPEN_POSITION_DISCRIMINATOR@) {
        if d.len() >= 32 {
            events.len() == 1 && is_position_event(events[0], true, d, a, sig, slot, ms, idx)
        } else {
            events.len() == 0
        }
    } else if starts_with(d, CLOSE_POSITION_DISCRIMINATOR@) {
        if d.len() >= 32 {
            events.len() == 1 && is_position_event(events[0], false, d, a, sig, slot, ms, idx)
        } else {
            events.len() == 0
        }
    } else if starts_with(d, INCREASE_LIQUIDITY_DISCRIMINATOR@) {
        if d.len() >= 40 {
            events.len() == 1 && is_liquidity_event(events[0], true, d, a, sig, slot, ms, idx)
        } else {
            events.len() == 0
        }
    } else if starts_with(d, DECREASE_LIQUIDITY_DISCRIMINATOR@) {
        if d.len() >= 40 {
            events.len() == 1 && is_liquidity_event(events[0], false, d, a, sig, slot, ms, idx)
        } else {
            events.len() == 0
        }
    } else {
        events.len() == 0
    }
}

/// What the table makes of the decoded bytes of an inner instruction: every logged-record
/// decoder is tried, in table order, and each whose record fits gives an event.
pub open spec fn orca_log_events(events: Seq<OrcaEvent>, bytes: Seq<u8>, p: OwnedInnerInstructionParseParams) -> bool {
    let n = bytes.len();
    let e = Seq::<Pubkey>::empty();
    let (sig, slot, ms, idx) = (p.signature@, p.slot, p.program_received_time_ms, p.index@);
    if n < 32 {
        events.len() == 0
    } else if n < 40 {
        &&& events.len() == 2
        &&& is_position_event(events[0], true, bytes, e, sig, slot, ms, idx)
        &&& is_position_event(events[1], false, bytes, e, sig, slot, ms, idx)
    } else if n < 64 {
        &&& events.len() == 4
        &&& is_position_event(events[0], true, bytes, e, sig, slot, ms, idx)
        &&& is_position_event(events[1], false, bytes, e, sig, slot, ms, idx)
        &&& is_liquidity_event(events[2], true, bytes, e, sig, slot, ms, idx)
        &&& is_liquidity_event(events[3], false, bytes, e, sig, slot, ms, idx)
    } else {
        &&& events.len() == 5
        &&& is_swap_event(events[0], bytes, e, sig, slot, ms, idx)
        &&& is_position_event(events[1], true, bytes, e, sig, slot, ms, idx)
        &&& is_position_event(events[2], false, bytes, e, sig, slot, ms, idx)
        &&& is_liquidity_event(events[3], true, bytes, e, sig, slot, ms, idx)
        &&& is_liquidity_event(events[4], false, bytes, e, sig, slot, ms, idx)
    }
}

/// What the table makes of an inner instruction: its data is base58 text, and text that does
/// not decode gives no event.
pub open spec fn orca_inner_events(events: Seq<OrcaEvent>, p: OwnedInnerInstructionParseParams) -> bool {
    match base58_decoding(p.inner_instruction_data@) {
        Some(bytes) => orca_log_events(events, bytes, p),
        None => events.len() == 0,
    }
}

/// The decoders that the Orca Whirlpool tables hand an instruction or its log to.
#[derive(Debug, Clone, Copy, PartialEq, Eq, Structural)]
pub enum OrcaDecoder {
    Swap,
    OpenPosition,
    ClosePosition,
    IncreaseLiquidity,
    DecreaseLiquidity,
}

/// Whether `c` is entry `i` of the Orca Whirlpool tables, in the order in which they list them.
pub open spec fn orca_config(c: EventParseConfig<OrcaDecoder>, i: int) -> bool {
    let program = key_or_zero(key_of_text(ORCA_WHIRLPOOL_PROGRAM_ID@));
    if i == 0 {
        config_is(c, OrcaDecoder::Swap, EventType::Swap, "swap"@, SWAP_DISCRIMINATOR@, program, ProtocolTypeView::OrcaWhirlpool)
    } else if i == 1 {
        config_is(c, OrcaDecoder::OpenPosition, EventType::CreatePool, "openPosition"@, OPEN_POSITION_DISCRIMINATOR@, program, ProtocolTypeView::OrcaWhirlpool)
    } else if i == 2 {
        config_is(c, OrcaDecoder::ClosePosition, EventType::Unknown, "closePosition"@, CLOSE_POSITION_DISCRIMINATOR@, program, ProtocolTypeView::OrcaWhirlpool)
    } else if i == 3 {
        config_is(c, OrcaDecoder::IncreaseLiquidity, EventType::AddLiquidity, "increaseLiquidity"@, INCREASE_LIQUIDITY_DISCRIMINATOR@, program, ProtocolTypeView::OrcaWhirlpool)
    } else {
        config_is(c, OrcaDecoder::DecreaseLiquidity, EventType::RemoveLiquidity, "decreaseLiquidity"@, DECREASE_LIQUIDITY_DISCRIMINATOR@, program, ProtocolTypeView::OrcaWhirlpool)
    }
}

fn orca_entry(i: usize) -> (c: EventParseConfig<OrcaDecoder>)
    requires
        i < 5,
    ensures
        orca_config(c, i as int),
{
    let program = whirlpool_program_id();
    if i == 0 {
        EventParseConfig::new(OrcaDecoder::Swap, EventType::Swap, "swap", SWAP_DISCRIMINATOR.as_slice(), program, ProtocolType::OrcaWhirlpool)
    } else if i == 1 {
        EventParseConfig::new(OrcaDecoder::OpenPosition, EventType::CreatePool, "openPosition", OPEN_POSITION_DISCRIMINATOR.as_slice(), program, ProtocolType::OrcaWhirlpool)
    } else if i == 2 {
        EventParseConfig::new(OrcaDecoder::ClosePosition, EventType::Unknown, "closePosition", CLOSE_POSITION_DISCRIMINATOR.as_slice(), program, ProtocolType::OrcaWhirlpool)
    } else if i == 3 {
        EventParseConfig::new(OrcaDecoder::IncreaseLiquidity, EventType::AddLiquidity, "increaseLiquidity", INCREASE_LIQUIDITY_DISCRIMINATOR.as_slice(), program, ProtocolType::OrcaWhirlpool)
    } else {
        EventParseConfig::new(OrcaDecoder::DecreaseLiquidity, EventType::RemoveLiquidity, "decreaseLiquidity", DECREASE_LIQUIDITY_DISCRIMINATOR.as_slice(), program, ProtocolType::OrcaWhirlpool)
    }
}

fn parse_table_instruction(p: &OwnedInstructionParseParams) -> (r: Vec<OrcaEvent>)
    ensures
        orca_instruction_events(r@, *p),
{
    let data = p.instruction_data.as_slice();
    let accounts = p.accounts.as_slice();
    let mut out: Vec<OrcaEvent> = Vec::new();
    if has_discriminator(data, SWAP_DISCRIMINATOR.as_slice()) {
        let m = instruction_metadata(p, EventType::Swap, ProtocolType::OrcaWhirlpool);
        push_ok(&mut out, parse_swap_instruction(data, accounts, &m));
    } else if has_discriminator(data, OPEN_POSITION_DISCRIMINATOR.as_slice()) {
        let m = instruction_metadata(p, EventType::CreatePool, ProtocolType::OrcaWhirlpool);
        push_ok(&mut out, parse_open_position_instruction(data, accounts, &m));
    } else if has_discriminator(data, CLOSE_POSITION_DISCRIMINATOR.as_slice()) {
        let m = instruction_metadata(p, EventType::Unknown, ProtocolType::OrcaWhirlpool);
        push_ok(&mut out, parse_close_position_instruction(data, accounts, &m));
    } else if has_discriminator(data, INCREASE_LIQUIDITY_DISCRIMINATOR.as_slice()) {
        let m = instruction_metadata(p, EventType::AddLiquidity, ProtocolType::OrcaWhirlpool);
        push_ok(&mut out, parse_increase_liquidity_instruction(data, accounts, &m));
    } else if has_discriminator(data, DECREASE_LIQUIDITY_DISCRIMINATOR.as_slice()) {
        let m = instruction_metadata(p, EventType::RemoveLiquidity, ProtocolType::OrcaWhirlpool);
        push_ok(&mut out, parse_decrease_liquidity_instruction(data, accounts, &m));
    }
    out
}

fn parse_table_inner_instruction(p: &OwnedInnerInstructionParseParams) -> (r: Vec<OrcaEvent>)
    ensures
        orca_inner_events(r@, *p),
{
    let mut out: Vec<OrcaEvent> = Vec::new();
    match base58_decode(p.inner_instruction_data.as_str()) {
        Ok(bytes) => {
            let data = bytes.as_slice();
            let m = inner_metadata(p, EventType::Swap, ProtocolType::OrcaWhirlpool);
            push_ok(&mut out, parse_swap_inner_instruction(data, &m));
            let m = inner_metadata(p, EventType::CreatePool, ProtocolType::OrcaWhirlpool);
            push_ok(&mut out, parse_open_position_inner_instruction(data, &m));
            let m = inner_metadata(p, EventType::Unknown, ProtocolType::OrcaWhirlpool);
            push_ok(&mut out, parse_close_position_inner_instruction(data, &m));
            let m = inner_metadata(p, EventType::AddLiquidity, ProtocolType::OrcaWhirlpool);
            push_ok(&mut out, parse_increase_liquidity_inner_instruction(data, &m));
            let m = inner_metadata(p, EventType::RemoveLiquidity, ProtocolType::OrcaWhirlpool);
            push_ok(&mut out, parse_decrease_liquidity_inner_instruction(data, &m));
        },
        Err(_) => {},
    }
    out
}

/// The Orca Whirlpool event parser.
#[derive(Debug, Clone, Copy)]
pub struct Parser;

impl Default for Parser {
    fn default() -> (p: Parser)
        ensures
            p == Parser,
    {
        Parser
    }
}

impl Parser {
    /// The entries of the tables, in order.
    pub fn configs(&self) -> (r: Vec<EventParseConfig<OrcaDecoder>>)
        ensures
            r@.len() == 5,
            forall|i: int| 0 <= i < 5 ==> #[trigger] orca_config(r@[i], i),
    {
        let mut r: Vec<EventParseConfig<OrcaDecoder>> = Vec::new();
        let mut i: usize = 0;
        while i < 5
            invariant
                0 <= i <= 5,
                r@.len() == i,
                forall|j: int| 0 <= j < i ==> #[trigger] orca_config(r@[j], j),
            decreases 5 - i,
        {
            r.push(orca_entry(i));
            i = i + 1;
        }
        r
    }

    /// The table keyed by the name of a logged event: each name with its one entry.
    pub fn inner_instruction_configs(&self) -> (r: Vec<(&'static str, Vec<EventParseConfig<OrcaDecoder>>)>)
        ensures
            r@.len() == 5,
            forall|i: int|
                0 <= i < 5 ==> (#[trigger] r@[i]).1@.len() == 1 && orca_config(r@[i].1@[0], i)
                    && r@[i].0@ == r@[i].1@[0].inner_instruction_discriminator@,
    {
        let mut r: Vec<(&'static str, Vec<EventParseConfig<OrcaDecoder>>)> = Vec::new();
        let mut i: usize = 0;
        while i < 5
            invariant
                0 <= i <= 5,
                r@.len() == i,
                forall|j: int|
                    0 <= j < i ==> (#[trigger] r@[j]).1@.len() == 1 && orca_config(r@[j].1@[0], j)
                        && r@[j].0@ == r@[j].1@[0].inner_instruction_discriminator@,
            decreases 5 - i,
        {
            let c = orca_entry(i);
            let key = c.inner_instruction_discriminator;
            let mut entry: Vec<EventParseConfig<OrcaDecoder>> = Vec::new();
            entry.push(c);
            r.push((key, entry));
            i = i + 1;
        }
        r
    }

    /// The table keyed by an instruction's discriminator: each discriminator with its one entry.
    pub fn instruction_configs(&self) -> (r: Vec<(Vec<u8>, Vec<EventParseConfig<OrcaDecoder>>)>)
        ensures
            r@.len() == 5,
            forall|i: int|
                0 <= i < 5 ==> (#[trigger] r@[i]).1@.len() == 1 && orca_config(r@[i].1@[0], i)
                    && r@[i].0@ == r@[i].1@[0].instruction_discriminator@,
    {
        let mut r: Vec<(Vec<u8>, Vec<EventParseConfig<OrcaDecoder>>)> = Vec::new();
        let mut i: usize = 0;
        while i < 5
            invariant
                0 <= i <= 5,
                r@.len() == i,
                forall|j: int|
                    0 <= j < i ==> (#[trigger] r@[j]).1@.len() == 1 && orca_config(r@[j].1@[0], j)
                        && r@[j].0@ == r@[j].1@[0].instruction_discriminator@,
            decreases 5 - i,
        {
            let c = orca_entry(i);
            let key = orca_entry(i).instruction_discriminator;
            let mut entry: Vec<EventParseConfig<OrcaDecoder>> = Vec::new();
            entry.push(c);
            r.push((key, entry));
            i = i + 1;
        }
        r
    }

    /// A parser.
    pub fn new() -> (p: Parser)
        ensures
            p == Parser,
    {
        Parser
    }

    /// Whether `program_id` is the Orca Whirlpool program.
    pub fn should_handle(&self, program_id: &Pubkey) -> (r: bool)
        ensures
            r == (program_id@ == key_or_zero(key_of_text(ORCA_WHIRLPOOL_PROGRAM_ID@))),
    {
        is_orca_whirlpool_program(program_id)
    }

    /// The one program this parser handles.
    pub fn supported_program_ids(&self) -> (r: Vec<Pubkey>)
        ensures
            r@.len() == 1,
            r@[0]@ == key_or_zero(key_of_text(ORCA_WHIRLPOOL_PROGRAM_ID@)),
    {
        let mut v: Vec<Pubkey> = Vec::new();
        v.push(whirlpool_program_id());
        v
    }

    /// Inner instructions are always accepted; a top-level instruction where its data starts
    /// with one of the discriminators.
    pub fn can_parse(&self, input: &SolanaTransactionInput) -> (r: bool)
        ensures
            r == accepts(*input),
    {
        match input {
            SolanaTransactionInput::InnerInstruction(_) => true,
            SolanaTransactionInput::Instruction(p) => {
                let data = p.instruction_data.as_slice();
                has_discriminator(data, SWAP_DISCRIMINATOR.as_slice()) || has_discriminator(
                    data,
                    OPEN_POSITION_DISCRIMINATOR.as_slice(),
                ) || has_discriminator(data, CLOSE_POSITION_DISCRIMINATOR.as_slice())
                    || has_discriminator(data, INCREASE_LIQUIDITY_DISCRIMINATOR.as_slice())
                    || has_discriminator(data, DECREASE_LIQUIDITY_DISCRIMINATOR.as_slice())
            },
        }
    }

    /// Decodes an input into the events it carries.
    pub fn parse(&self, input: &SolanaTransactionInput) -> (r: Vec<OrcaEvent>)
        ensures
            parse_outcome(*input, r@),
    {
        match input {
            SolanaTransactionInput::Instruction(p) => parse_table_instruction(p),
            SolanaTransactionInput::InnerInstruction(p) => parse_table_inner_instruction(p),
        }
    }
}

/// A swap record, read alone or with the instruction's accounts, reports the amount that the
/// user specifies (bytes 8..16) as the amount in when the byte at 40 says it is the input, and
/// as the amount out otherwise, with the threshold (bytes 16..24) on the other side; it goes
/// from A to B exactly when the byte at 41 is not zero. With eleven accounts or more, the user,
/// the whirlpool and the two vaults are accounts 0, 1, 3 and 4.
pub proof fn swap_amounts_follow_specified_side(
    data: &[u8],
    accounts: &[Pubkey],
    alone: Option<SwapData>,
    with_accounts: Option<SwapData>,
)
    requires
        call_ensures(parse_swap_data, (data,), alone),
        call_ensures(parse_swap_data_from_instruction, (data, accounts), with_accounts),
    ensures
        alone is Some <==> data@.len() >= 64,
        with_accounts is Some <==> data@.len() >= 64,
        alone matches Some(d) ==> swap_reads(d, data@),
        with_accounts matches Some(d) ==> swap_reads(d, data@),
        accounts@.len() >= 11 ==> (with_accounts matches Some(d) ==> d.user@ == accounts@[0]@
            && d.whirlpool@ == accounts@[1]@ && d.token_vault_a@ == accounts@[3]@
            && d.token_vault_b@ == accounts@[4]@),
{
}

/// What a swap record says of its amounts and direction.
pub open spec fn swap_reads(d: SwapData, data: Seq<u8>) -> bool {
    &&& d.amount == u64_at(data, 8)
    &&& (d.amount_specified_is_input <==> data[40] != 0)
    &&& (d.a_to_b <==> data[41] != 0)
    &&& (data[40] != 0 ==> d.amount_in == u64_at(data, 8) && d.amount_out == u64_at(data, 16))
    &&& (data[40] == 0 ==> d.amount_in == u64_at(data, 16) && d.amount_out == u64_at(data, 8))
}

/// A liquidity record, read alone or with the instruction's accounts, reports the liquidity
/// from bytes 8..24 and the most of token A and of token B from bytes 24..32 and 32..40, in
/// that order, and whether it adds as it was told. With twelve accounts or more, the position
/// authority, the whirlpool, the position and the vaults of A and B are accounts 0, 1, 2, 5
/// and 6.
pub proof fn liquidity_amounts_keep_token_order(
    data: &[u8],
    accounts: &[Pubkey],
    is_increase: bool,
    alone: Option<LiquidityData>,
    with_accounts: Option<LiquidityData>,
)
    requires
        call_ensures(parse_liquidity_data, (data, is_increase), alone),
        call_ensures(parse_liquidity_data_from_instruction, (data, accounts, is_increase), with_accounts),
    ensures
        alone is Some <==> data@.len() >= 40,
        with_accounts is Some <==> data@.len() >= 40,
        alone matches Some(d) ==> d.liquidity_amount == u128_at(data@, 8) && d.token_max_a == u64_at(data@, 24)
            && d.token_max_b == u64_at(data@, 32) && d.is_increase == is_increase,
        with_accounts matches Some(d) ==> d.liquidity_amount == u128_at(data@, 8) && d.token_max_a == u64_at(
            data@,
            24,
        ) && d.token_max_b == u64_at(data@, 32) && d.is_increase == is_increase,
        accounts@.len() >= 12 ==> (with_accounts matches Some(d) ==> d.position_authority@ == accounts@[0]@
            && d.whirlpool@ == accounts@[1]@ && d.position@ == accounts@[2]@
            && d.token_vault_a@ == accounts@[5]@ && d.token_vault_b@ == accounts@[6]@),
{
}

/// A position record, read alone or with the instruction's accounts, reports the lower tick
/// from bytes 8..12 and the upper tick from bytes 12..16. With seven accounts or more, the
/// position authority, the whirlpool, the position, its mint and its token account are
/// accounts 0 to 4.
pub proof fn position_ticks_keep_their_order(
    data: &[u8],
    accounts: &[Pubkey],
    alone: Option<PositionData>,
    with_accounts: Option<PositionData>,
)
    requires
        call_ensures(parse_position_data, (data,), alone),
        call_ensures(parse_position_data_from_instruction, (data, accounts), with_accounts),
    ensures
        alone is Some <==> data@.len() >= 32,
        with_accounts is Some <==> data@.len() >= 32,
        alone matches Some(d) ==> d.tick_lower_index == i32_at(data@, 8) && d.tick_upper_index == i32_at(data@, 12),
        with_accounts matches Some(d) ==> d.tick_lower_index == i32_at(data@, 8) && d.tick_upper_index == i32_at(
            data@,
            12,
        ),
        accounts@.len() >= 7 ==> (with_accounts matches Some(d) ==> d.position_authority@ == accounts@[0]@
            && d.whirlpool@ == accounts@[1]@ && d.position@ == accounts@[2]@
            && d.position_mint@ == accounts@[3]@ && d.position_token_account@ == accounts@[4]@),
{
}

} // verus!
