use vstd::prelude::*;
use vstd::string::*;

use crate::common::{
    account_count_message, data_length_message, get_account_or_default, has_discriminator,
    i64_at, i64_field, key_at, key_from, parse_swap_amounts, read_pubkey, read_u16_le, read_u64_le,
    safe_get_account, u16_at, u16_field, u64_at, u64_field, validate_account_count,
    validate_data_length,
};
use crate::error::{fail, format_error, ParseError, ParseResult};
use crate::factory::{
    config_is, inner_metadata, instruction_metadata, push_ok, EventParseConfig,
    OwnedInnerInstructionParseParams, OwnedInstructionParseParams, SolanaTransactionInput,
};
use crate::text::{base58_decode, base58_decoding, base58_encoding, decimal, u128_to_decimal};
use crate::types::{
    metadata_is, renamed, with_id, zero_key, EventMetadata, EventType, ProtocolType,
    ProtocolTypeView, Pubkey,
};

pub mod discriminators;

use self::discriminators::{BUY_IX, CREATE_POOL_IX, DEPOSIT_IX, SELL_IX, WITHDRAW_IX};

verus! {

/// The PumpSwap program address (pAMMBay6oceH9fJKBRHGP5D4bD4sWpmSwMn52FMfXEA).
pub const PUMPSWAP_PROGRAM_ID_BYTES: [u8; 32] = [
    0x0c, 0x14, 0xde, 0xfc, 0x82, 0x5e, 0xc6, 0x76, 0x94, 0x25, 0x08, 0x18, 0xbb, 0x65, 0x40,
    0x65, 0xf4, 0x29, 0x8d, 0x31, 0x56, 0xd5, 0x71, 0xb4, 0xd4, 0xf8, 0x09, 0x0c, 0x18, 0xe9,
    0xa8, 0x63,
];

/// The PumpSwap program address.
pub fn pumpswap_program_id() -> (k: Pubkey)
    ensures
        k@ == PUMPSWAP_PROGRAM_ID_BYTES@,
{
    Pubkey(PUMPSWAP_PROGRAM_ID_BYTES)
}

/// A buy: base tokens bought with quote tokens.
#[derive(Debug, Clone)]
pub struct PumpSwapBuyEvent {
    pub base_amount_out: u64,
    pub base_mint: Pubkey,
    pub coin_creator: Pubkey,
    pub coin_creator_fee: u64,
    pub coin_creator_fee_basis_points: u64,
    pub coin_creator_vault_ata: Pubkey,
    pub coin_creator_vault_authority: Pubkey,
    pub current_sol_volume: u64,
    pub last_update_timestamp: i64,
    pub lp_fee: u64,
    pub lp_fee_basis_points: u64,
    pub max_quote_amount_in: u64,
    pub metadata: EventMetadata,
    pub pool: Pubkey,
    pub pool_base_token_account: Pubkey,
    pub pool_base_token_reserves: u64,
    pub pool_quote_token_account: Pubkey,
    pub pool_quote_token_reserves: u64,
    pub protocol_fee: u64,
    pub protocol_fee_basis_points: u64,
    pub protocol_fee_recipient: Pubkey,
    pub protocol_fee_recipient_token_account: Pubkey,
    pub quote_amount_in: u64,
    pub quote_amount_in_with_lp_fee: u64,
    pub quote_mint: Pubkey,
    pub timestamp: i64,
    pub total_claimed_tokens: u64,
    pub total_unclaimed_tokens: u64,
    pub track_volume: bool,
    pub user: Pubkey,
    pub user_base_token_account: Pubkey,
    pub user_base_token_reserves: u64,
    pub user_quote_amount_in: u64,
    pub user_quote_token_account: Pubkey,
    pub user_quote_token_reserves: u64,
}

/// A sell: base tokens sold for quote tokens.
#[derive(Debug, Clone)]
pub struct PumpSwapSellEvent {
    pub base_amount_in: u64,
    pub base_mint: Pubkey,
    pub coin_creator: Pubkey,
    pub coin_creator_fee: u64,
    pub coin_creator_fee_basis_points: u64,
    pub coin_creator_vault_ata: Pubkey,
    pub coin_creator_vault_authority: Pubkey,
    pub lp_fee: u64,
    pub lp_fee_basis_points: u64,
    pub metadata: EventMetadata,
    pub min_quote_amount_out: u64,
    pub pool: Pubkey,
    pub pool_base_token_account: Pubkey,
    pub pool_base_token_reserves: u64,
    pub pool_quote_token_account: Pubkey,
    pub pool_quote_token_reserves: u64,
    pub protocol_fee: u64,
    pub protocol_fee_basis_points: u64,
    pub protocol_fee_recipient: Pubkey,
    pub protocol_fee_recipient_token_account: Pubkey,
    pub quote_amount_out: u64,
    pub quote_amount_out_without_lp_fee: u64,
    pub quote_mint: Pubkey,
    pub timestamp: i64,
    pub user: Pubkey,
    pub user_base_token_account: Pubkey,
    pub user_base_token_reserves: u64,
    pub user_quote_amount_out: u64,
    pub user_quote_token_account: Pubkey,
    pub user_quote_token_reserves: u64,
}

/// A pool creation.
#[derive(Debug, Clone)]
pub struct PumpSwapCreatePoolEvent {
    pub base_amount_in: u64,
    pub base_mint: Pubkey,
    pub base_mint_decimals: u8,
    pub coin_creator: Pubkey,
    pub creator: Pubkey,
    pub index: u16,
    pub initial_liquidity: u64,
    pub lp_mint: Pubkey,
    pub lp_token_amount_out: u64,
    pub metadata: EventMetadata,
    pub minimum_liquidity: u64,
    pub pool: Pubkey,
    pub pool_base_amount: u64,
    pub pool_base_token_account: Pubkey,
    pub pool_bump: u8,
    pub pool_quote_amount: u64,
    pub pool_quote_token_account: Pubkey,
    pub quote_amount_in: u64,
    pub quote_mint: Pubkey,
    pub quote_mint_decimals: u8,
    pub timestamp: i64,
    pub user_base_token_account: Pubkey,
    pub user_pool_token_account: Pubkey,
    pub user_quote_token_account: Pubkey,
}

/// A liquidity deposit.
#[derive(Debug, Clone)]
pub struct PumpSwapDepositEvent {
    pub base_amount_in: u64,
    pub base_mint: Pubkey,
    pub lp_mint_supply: u64,
    pub lp_token_amount_out: u64,
    pub max_base_amount_in: u64,
    pub max_quote_amount_in: u64,
    pub metadata: EventMetadata,
    pub pool: Pubkey,
    pub pool_base_token_account: Pubkey,
    pub pool_base_token_reserves: u64,
    pub pool_quote_token_account: Pubkey,
    pub pool_quote_token_reserves: u64,
    pub quote_amount_in: u64,
    pub quote_mint: Pubkey,
    pub timestamp: i64,
    pub user: Pubkey,
    pub user_base_token_account: Pubkey,
    pub user_base_token_reserves: u64,
    pub user_pool_token_account: Pubkey,
    pub user_quote_token_account: Pubkey,
    pub user_quote_token_reserves: u64,
}

/// A liquidity withdrawal.
#[derive(Debug, Clone)]
pub struct PumpSwapWithdrawEvent {
    pub base_amount_out: u64,
    pub base_mint: Pubkey,
    pub lp_mint_supply: u64,
    pub lp_token_amount_in: u64,
    pub metadata: EventMetadata,
    pub min_base_amount_out: u64,
    pub min_quote_amount_out: u64,
    pub pool: Pubkey,
    pub pool_base_token_account: Pubkey,
    pub pool_base_token_reserves: u64,
    pub pool_quote_token_account: Pubkey,
    pub pool_quote_token_reserves: u64,
    pub quote_amount_out: u64,
    pub quote_mint: Pubkey,
    pub timestamp: i64,
    pub user: Pubkey,
    pub user_base_token_account: Pubkey,
    pub user_base_token_reserves: u64,
    pub user_pool_token_account: Pubkey,
    pub user_quote_token_account: Pubkey,
    pub user_quote_token_reserves: u64,
}

/// An event decoded from a PumpSwap instruction or log.
#[derive(Debug, Clone)]
pub enum PumpSwapEvent {
    Buy(PumpSwapBuyEvent),
    Sell(PumpSwapSellEvent),
    CreatePool(PumpSwapCreatePoolEvent),
    Deposit(PumpSwapDepositEvent),
    Withdraw(PumpSwapWithdrawEvent),
}

// ---------------------------------------------------------------------------
// Logged events: Borsh records, fields in declaration order, the metadata left out
// ---------------------------------------------------------------------------

/// The length of the Borsh record of a buy event.
pub const BUY_EVENT_LEN: usize = 577;

/// Whether `e` holds the fields of the Borsh record of a buy event in `data`.
pub open spec fn buy_event_layout(e: PumpSwapBuyEvent, data: Seq<u8>) -> bool {
    &&& e.base_amount_out == u64_at(data, 0)
    &&& e.base_mint@ == key_at(data, 8)
    &&& e.coin_creator@ == key_at(data, 40)
    &&& e.coin_creator_fee == u64_at(data, 72)
    &&& e.coin_creator_fee_basis_points == u64_at(data, 80)
    &&& e.coin_creator_vault_ata@ == key_at(data, 88)
    &&& e.coin_creator_vault_authority@ == key_at(data, 120)
    &&& e.current_sol_volume == u64_at(data, 152)
    &&& e.last_update_timestamp == i64_at(data, 160)
    &&& e.lp_fee == u64_at(data, 168)
    &&& e.lp_fee_basis_points == u64_at(data, 176)
    &&& e.max_quote_amount_in == u64_at(data, 184)
    &&& e.pool@ == key_at(data, 192)
    &&& e.pool_base_token_account@ == key_at(data, 224)
    &&& e.pool_base_token_reserves == u64_at(data, 256)
    &&& e.pool_quote_token_account@ == key_at(data, 264)
    &&& e.pool_quote_token_reserves == u64_at(data, 296)
    &&& e.protocol_fee == u64_at(data, 304)
    &&& e.protocol_fee_basis_points == u64_at(data, 312)
    &&& e.protocol_fee_recipient@ == key_at(data, 320)
    &&& e.protocol_fee_recipient_token_account@ == key_at(data, 352)
    &&& e.quote_amount_in == u64_at(data, 384)
    &&& e.quote_amount_in_with_lp_fee == u64_at(data, 392)
    &&& e.quote_mint@ == key_at(data, 400)
    &&& e.timestamp == i64_at(data, 432)
    &&& e.total_claimed_tokens == u64_at(data, 440)
    &&& e.total_unclaimed_tokens == u64_at(data, 448)
    &&& e.track_volume == (data[456] == 1)
    &&& e.user@ == key_at(data, 457)
    &&& e.user_base_token_account@ == key_at(data, 489)
    &&& e.user_base_token_reserves == u64_at(data, 521)
    &&& e.user_quote_amount_in == u64_at(data, 529)
    &&& e.user_quote_token_account@ == key_at(data, 537)
    &&& e.user_quote_token_reserves == u64_at(data, 569)
}

/// The length of the Borsh record of a sell event.
pub const SELL_EVENT_LEN: usize = 544;

/// Whether `e` holds the fields of the Borsh record of a sell event in `data`.
pub open spec fn sell_event_layout(e: PumpSwapSellEvent, data: Seq<u8>) -> bool {
    &&& e.base_amount_in == u64_at(data, 0)
    &&& e.base_mint@ == key_at(data, 8)
    &&& e.coin_creator@ == key_at(data, 40)
    &&& e.coin_creator_fee == u64_at(data, 72)
    &&& e.coin_creator_fee_basis_points == u64_at(data, 80)
    &&& e.coin_creator_vault_ata@ == key_at(data, 88)
    &&& e.coin_creator_vault_authority@ == key_at(data, 120)
    &&& e.lp_fee == u64_at(data, 152)
    &&& e.lp_fee_basis_points == u64_at(data, 160)
    &&& e.min_quote_amount_out == u64_at(data, 168)
    &&& e.pool@ == key_at(data, 176)
    &&& e.pool_base_token_account@ == key_at(data, 208)
    &&& e.pool_base_token_reserves == u64_at(data, 240)
    &&& e.pool_quote_token_account@ == key_at(data, 248)
    &&& e.pool_quote_token_reserves == u64_at(data, 280)
    &&& e.protocol_fee == u64_at(data, 288)
    &&& e.protocol_fee_basis_points == u64_at(data, 296)
    &&& e.protocol_fee_recipient@ == key_at(data, 304)
    &&& e.protocol_fee_recipient_token_account@ == key_at(data, 336)
    &&& e.quote_amount_out == u64_at(data, 368)
    &&& e.quote_amount_out_without_lp_fee == u64_at(data, 376)
    &&& e.quote_mint@ == key_at(data, 384)
    &&& e.timestamp == i64_at(data, 416)
    &&& e.user@ == key_at(data, 424)
    &&& e.user_base_token_account@ == key_at(data, 456)
    &&& e.user_base_token_reserves == u64_at(data, 488)
    &&& e.user_quote_amount_out == u64_at(data, 496)
    &&& e.user_quote_token_account@ == key_at(data, 504)
    &&& e.user_quote_token_reserves == u64_at(data, 536)
}

/// The length of the Borsh record of a pool creation event.
pub const CREATE_EVENT_LEN: usize = 421;

/// Whether `e` holds the fields of the Borsh record of a pool creation event in `data`.
pub open spec fn create_pool_event_layout(e: PumpSwapCreatePoolEvent, data: Seq<u8>) -> bool {
    &&& e.base_amount_in == u64_at(data, 0)
    &&& e.base_mint@ == key_at(data, 8)
    &&& e.base_mint_decimals == data[40]
    &&& e.coin_creator@ == key_at(data, 41)
    &&& e.creator@ == key_at(data, 73)
    &&& e.index == u16_at(data, 105)
    &&& e.initial_liquidity == u64_at(data, 107)
    &&& e.lp_mint@ == key_at(data, 115)
    &&& e.lp_token_amount_out == u64_at(data, 147)
    &&& e.minimum_liquidity == u64_at(data, 155)
    &&& e.pool@ == key_at(data, 163)
    &&& e.pool_base_amount == u64_at(data, 195)
    &&& e.pool_base_token_account@ == key_at(data, 203)
    &&& e.pool_bump == data[235]
    &&& e.pool_quote_amount == u64_at(data, 236)
    &&& e.pool_quote_token_account@ == key_at(data, 244)
    &&& e.quote_amount_in == u64_at(data, 276)
    &&& e.quote_mint@ == key_at(data, 284)
    &&& e.quote_mint_decimals == data[316]
    &&& e.timestamp == i64_at(data, 317)
    &&& e.user_base_token_account@ == key_at(data, 325)
    &&& e.user_pool_token_account@ == key_at(data, 357)
    &&& e.user_quote_token_account@ == key_at(data, 389)
}

/// The length of the Borsh record of a deposit event.
pub const DEPOSIT_EVENT_LEN: usize = 376;

/// Whether `e` holds the fields of the Borsh record of a deposit event in `data`.
pub open spec fn deposit_event_layout(e: PumpSwapDepositEvent, data: Seq<u8>) -> bool {
    &&& e.base_amount_in == u64_at(data, 0)
    &&& e.base_mint@ == key_at(data, 8)
    &&& e.lp_mint_supply == u64_at(data, 40)
    &&& e.lp_token_amount_out == u64_at(data, 48)
    &&& e.max_base_amount_in == u64_at(data, 56)
    &&& e.max_quote_amount_in == u64_at(data, 64)
    &&& e.pool@ == key_at(data, 72)
    &&& e.pool_base_token_account@ == key_at(data, 104)
    &&& e.pool_base_token_reserves == u64_at(data, 136)
    &&& e.pool_quote_token_account@ == key_at(data, 144)
    &&& e.pool_quote_token_reserves == u64_at(data, 176)
    &&& e.quote_amount_in == u64_at(data, 184)
    &&& e.quote_mint@ == key_at(data, 192)
    &&& e.timestamp == i64_at(data, 224)
    &&& e.user@ == key_at(data, 232)
    &&& e.user_base_token_account@ == key_at(data, 264)
    &&& e.user_base_token_reserves == u64_at(data, 296)
    &&& e.user_pool_token_account@ == key_at(data, 304)
    &&& e.user_quote_token_account@ == key_at(data, 336)
    &&& e.user_quote_token_reserves == u64_at(data, 368)
}

/// The length of the Borsh record of a withdrawal event.
pub const WITHDRAW_EVENT_LEN: usize = 376;

/// Whether `e` holds the fields of the Borsh record of a withdrawal event in `data`.
pub open spec fn withdraw_event_layout(e: PumpSwapWithdrawEvent, data: Seq<u8>) -> bool {
    &&& e.base_amount_out == u64_at(data, 0)
    &&& e.base_mint@ == key_at(data, 8)
    &&& e.lp_mint_supply == u64_at(data, 40)
    &&& e.lp_token_amount_in == u64_at(data, 48)
    &&& e.min_base_amount_out == u64_at(data, 56)
    &&& e.min_quote_amount_out == u64_at(data, 64)
    &&& e.pool@ == key_at(data, 72)
    &&& e.pool_base_token_account@ == key_at(data, 104)
    &&& e.pool_base_token_reserves == u64_at(data, 136)
    &&& e.pool_quote_token_account@ == key_at(data, 144)
    &&& e.pool_quote_token_reserves == u64_at(data, 176)
    &&& e.quote_amount_out == u64_at(data, 184)
    &&& e.quote_mint@ == key_at(data, 192)
    &&& e.timestamp == i64_at(data, 224)
    &&& e.user@ == key_at(data, 232)
    &&& e.user_base_token_account@ == key_at(data, 264)
    &&& e.user_base_token_reserves == u64_at(data, 296)
    &&& e.user_pool_token_account@ == key_at(data, 304)
    &&& e.user_quote_token_account@ == key_at(data, 336)
    &&& e.user_quote_token_reserves == u64_at(data, 368)
}

/// Whether `data` is exactly a Borsh buy record: the right length and a flag byte of 0 or 1.
pub open spec fn buy_event_decodes(data: Seq<u8>) -> bool {
    data.len() == BUY_EVENT_LEN && data[456] <= 1
}

/// Whether `data` is exactly a Borsh sell record.
pub open spec fn sell_event_decodes(data: Seq<u8>) -> bool {
    data.len() == SELL_EVENT_LEN
}

/// Whether `data` is exactly a Borsh pool creation record.
pub open spec fn create_pool_event_decodes(data: Seq<u8>) -> bool {
    data.len() == CREATE_EVENT_LEN
}

/// Whether `data` is exactly a Borsh deposit record.
pub open spec fn deposit_event_decodes(data: Seq<u8>) -> bool {
    data.len() == DEPOSIT_EVENT_LEN
}

/// Whether `data` is exactly a Borsh withdrawal record.
pub open spec fn withdraw_event_decodes(data: Seq<u8>) -> bool {
    data.len() == WITHDRAW_EVENT_LEN
}

/// Decodes a logged buy record; the identifier names the pool and the event.
pub fn parse_buy_inner_instruction(data: &[u8], metadata: EventMetadata) -> (r: ParseResult<PumpSwapEvent>)
    ensures
        !buy_event_decodes(data@) ==> format_error(r, "Failed to parse PumpSwap buy event"@),
        buy_event_decodes(data@) ==> (r matches Ok(PumpSwapEvent::Buy(e)) && buy_event_layout(
            e,
            data@,
        ) && renamed(
            e.metadata,
            metadata,
            metadata.signature@ + "-"@ + base58_encoding(key_at(data@, 192)) + "-buy"@,
        )),
{
    if data.len() != BUY_EVENT_LEN || data[456] > 1 {
        return Err(fail("Failed to parse PumpSwap buy event"));
    }
    let pool = key_from(data, 192);
    proof {
        reveal_strlit("-");
        reveal_strlit("-buy");
    }
    let mut id = metadata.signature.clone();
    id.append("-");
    let pool_text = pool.to_base58();
    id.append(pool_text.as_str());
    id.append("-buy");
    let metadata = with_id(metadata, id);
    Ok(
        PumpSwapEvent::Buy(
            PumpSwapBuyEvent {
                base_amount_out: u64_field(data, 0),
                base_mint: key_from(data, 8),
                coin_creator: key_from(data, 40),
                coin_creator_fee: u64_field(data, 72),
                coin_creator_fee_basis_points: u64_field(data, 80),
                coin_creator_vault_ata: key_from(data, 88),
                coin_creator_vault_authority: key_from(data, 120),
                current_sol_volume: u64_field(data, 152),
                last_update_timestamp: i64_field(data, 160),
                lp_fee: u64_field(data, 168),
                lp_fee_basis_points: u64_field(data, 176),
                max_quote_amount_in: u64_field(data, 184),
                metadata,
                pool: key_from(data, 192),
                pool_base_token_account: key_from(data, 224),
                pool_base_token_reserves: u64_field(data, 256),
                pool_quote_token_account: key_from(data, 264),
                pool_quote_token_reserves: u64_field(data, 296),
                protocol_fee: u64_field(data, 304),
                protocol_fee_basis_points: u64_field(data, 312),
                protocol_fee_recipient: key_from(data, 320),
                protocol_fee_recipient_token_account: key_from(data, 352),
                quote_amount_in: u64_field(data, 384),
                quote_amount_in_with_lp_fee: u64_field(data, 392),
                quote_mint: key_from(data, 400),
                timestamp: i64_field(data, 432),
                total_claimed_tokens: u64_field(data, 440),
                total_unclaimed_tokens: u64_field(data, 448),
                track_volume: data[456] == 1,
                user: key_from(data, 457),
                user_base_token_account: key_from(data, 489),
                user_base_token_reserves: u64_field(data, 521),
                user_quote_amount_in: u64_field(data, 529),
                user_quote_token_account: key_from(data, 537),
                user_quote_token_reserves: u64_field(data, 569),
            },
        ),
    )
}

/// Decodes a logged sell record; the identifier names the pool and the event.
pub fn parse_sell_inner_instruction(data: &[u8], metadata: EventMetadata) -> (r: ParseResult<PumpSwapEvent>)
    ensures
        !sell_event_decodes(data@) ==> format_error(r, "Failed to parse PumpSwap sell event"@),
        sell_event_decodes(data@) ==> (r matches Ok(PumpSwapEvent::Sell(e)) && sell_event_layout(
            e,
            data@,
        ) && renamed(
            e.metadata,
            metadata,
            metadata.signature@ + "-"@ + base58_encoding(key_at(data@, 176)) + "-sell"@,
        )),
{
    if data.len() != SELL_EVENT_LEN {
        return Err(fail("Failed to parse PumpSwap sell event"));
    }
    let pool = key_from(data, 176);
    proof {
        reveal_strlit("-");
        reveal_strlit("-sell");
    }
    let mut id = metadata.signature.clone();
    id.append("-");
    let pool_text = pool.to_base58();
    id.append(pool_text.as_str());
    id.append("-sell");
    let metadata = with_id(metadata, id);
    Ok(
        PumpSwapEvent::Sell(
            PumpSwapSellEvent {
                base_amount_in: u64_field(data, 0),
                base_mint: key_from(data, 8),
                coin_creator: key_from(data, 40),
                coin_creator_fee: u64_field(data, 72),
                coin_creator_fee_basis_points: u64_field(data, 80),
                coin_creator_vault_ata: key_from(data, 88),
                coin_creator_vault_authority: key_from(data, 120),
                lp_fee: u64_field(data, 152),
                lp_fee_basis_points: u64_field(data, 160),
                metadata,
                min_quote_amount_out: u64_field(data, 168),
                pool: key_from(data, 176),
                pool_base_token_account: key_from(data, 208),
                pool_base_token_reserves: u64_field(data, 240),
                pool_quote_token_account: key_from(data, 248),
                pool_quote_token_reserves: u64_field(data, 280),
                protocol_fee: u64_field(data, 288),
                protocol_fee_basis_points: u64_field(data, 296),
                protocol_fee_recipient: key_from(data, 304),
                protocol_fee_recipient_token_account: key_from(data, 336),
                quote_amount_out: u64_field(data, 368),
                quote_amount_out_without_lp_fee: u64_field(data, 376),
                quote_mint: key_from(data, 384),
                timestamp: i64_field(data, 416),
                user: key_from(data, 424),
                user_base_token_account: key_from(data, 456),
                user_base_token_reserves: u64_field(data, 488),
                user_quote_amount_out: u64_field(data, 496),
                user_quote_token_account: key_from(data, 504),
                user_quote_token_reserves: u64_field(data, 536),
            },
        ),
    )
}

/// Decodes a logged create pool record; the identifier names the pool and the event.
pub fn parse_create_pool_inner_instruction(data: &[u8], metadata: EventMetadata) -> (r: ParseResult<PumpSwapEvent>)
    ensures
        !create_pool_event_decodes(data@) ==> format_error(r, "Failed to parse PumpSwap create pool event"@),
        create_pool_event_decodes(data@) ==> (r matches Ok(PumpSwapEvent::CreatePool(e)) && create_pool_event_layout(
            e,
            data@,
        ) && renamed(
            e.metadata,
            metadata,
            metadata.signature@ + "-"@ + base58_encoding(key_at(data@, 163)) + "-create"@,
        )),
{
    if data.len() != CREATE_EVENT_LEN {
        return Err(fail("Failed to parse PumpSwap create pool event"));
    }
    let pool = key_from(data, 163);
    proof {
        reveal_strlit("-");
        reveal_strlit("-create");
    }
    let mut id = metadata.signature.clone();
    id.append("-");
    let pool_text = pool.to_base58();
    id.append(pool_text.as_str());
    id.append("-create");
    let metadata = with_id(metadata, id);
    Ok(
        PumpSwapEvent::CreatePool(
            PumpSwapCreatePoolEvent {
                base_amount_in: u64_field(data, 0),
                base_mint: key_from(data, 8),
                base_mint_decimals: data[40],
                coin_creator: key_from(data, 41),
                creator: key_from(data, 73),
                index: u16_field(data, 105),
                initial_liquidity: u64_field(data, 107),
                lp_mint: key_from(data, 115),
                lp_token_amount_out: u64_field(data, 147),
                metadata,
                minimum_liquidity: u64_field(data, 155),
                pool: key_from(data, 163),
                pool_base_amount: u64_field(data, 195),
                pool_base_token_account: key_from(data, 203),
                pool_bump: data[235],
                pool_quote_amount: u64_field(data, 236),
                pool_quote_token_account: key_from(data, 244),
                quote_amount_in: u64_field(data, 276),
                quote_mint: key_from(data, 284),
                quote_mint_decimals: data[316],
                timestamp: i64_field(data, 317),
                user_base_token_account: key_from(data, 325),
                user_pool_token_account: key_from(data, 357),
                user_quote_token_account: key_from(data, 389),
            },
        ),
    )
}

/// Decodes a logged deposit record; the identifier names the pool and the event.
pub fn parse_deposit_inner_instruction(data: &[u8], metadata: EventMetadata) -> (r: ParseResult<PumpSwapEvent>)
    ensures
        !deposit_event_decodes(data@) ==> format_error(r, "Failed to parse PumpSwap deposit event"@),
        deposit_event_decodes(data@) ==> (r matches Ok(PumpSwapEvent::Deposit(e)) && deposit_event_layout(
            e,
            data@,
        ) && renamed(
            e.metadata,
            metadata,
            metadata.signature@ + "-"@ + base58_encoding(key_at(data@, 72)) + "-deposit"@,
        )),
{
    if data.len() != DEPOSIT_EVENT_LEN {
        return Err(fail("Failed to parse PumpSwap deposit event"));
    }
    let pool = key_from(data, 72);
    proof {
        reveal_strlit("-");
        reveal_strlit("-deposit");
    }
    let mut id = metadata.signature.clone();
    id.append("-");
    let pool_text = pool.to_base58();
    id.append(pool_text.as_str());
    id.append("-deposit");
    let metadata = with_id(metadata, id);
    Ok(
        PumpSwapEvent::Deposit(
            PumpSwapDepositEvent {
                base_amount_in: u64_field(data, 0),
                base_mint: key_from(data, 8),
                lp_mint_supply: u64_field(data, 40),
                lp_token_amount_out: u64_field(data, 48),
                max_base_amount_in: u64_field(data, 56),
                max_quote_amount_in: u64_field(data, 64),
                metadata,
                pool: key_from(data, 72),
                pool_base_token_account: key_from(data, 104),
                pool_base_token_reserves: u64_field(data, 136),
                pool_quote_token_account: key_from(data, 144),
                pool_quote_token_reserves: u64_field(data, 176),
                quote_amount_in: u64_field(data, 184),
                quote_mint: key_from(data, 192),
                timestamp: i64_field(data, 224),
                user: key_from(data, 232),
                user_base_token_account: key_from(data, 264),
                user_base_token_reserves: u64_field(data, 296),
                user_pool_token_account: key_from(data, 304),
                user_quote_token_account: key_from(data, 336),
                user_quote_token_reserves: u64_field(data, 368),
            },
        ),
    )
}

/// Decodes a logged withdraw record; the identifier names the pool and the event.
pub fn parse_withdraw_inner_instruction(data: &[u8], metadata: EventMetadata) -> (r: ParseResult<PumpSwapEvent>)
    ensures
        !withdraw_event_decodes(data@) ==> format_error(r, "Failed to parse PumpSwap withdraw event"@),
        withdraw_event_decodes(data@) ==> (r matches Ok(PumpSwapEvent::Withdraw(e)) && withdraw_event_layout(
            e,
            data@,
        ) && renamed(
            e.metadata,
            metadata,
            metadata.signature@ + "-"@ + base58_encoding(key_at(data@, 72)) + "-withdraw"@,
        )),
{
    if data.len() != WITHDRAW_EVENT_LEN {
        return Err(fail("Failed to parse PumpSwap withdraw event"));
    }
    let pool = key_from(data, 72);
    proof {
        reveal_strlit("-");
        reveal_strlit("-withdraw");
    }
    let mut id = metadata.signature.clone();
    id.append("-");
    let pool_text = pool.to_base58();
    id.append(pool_text.as_str());
    id.append("-withdraw");
    let metadata = with_id(metadata, id);
    Ok(
        PumpSwapEvent::Withdraw(
            PumpSwapWithdrawEvent {
                base_amount_out: u64_field(data, 0),
                base_mint: key_from(data, 8),
                lp_mint_supply: u64_field(data, 40),
                lp_token_amount_in: u64_field(data, 48),
                metadata,
                min_base_amount_out: u64_field(data, 56),
                min_quote_amount_out: u64_field(data, 64),
                pool: key_from(data, 72),
                pool_base_token_account: key_from(data, 104),
                pool_base_token_reserves: u64_field(data, 136),
                pool_quote_token_account: key_from(data, 144),
                pool_quote_token_reserves: u64_field(data, 176),
                quote_amount_out: u64_field(data, 184),
                quote_mint: key_from(data, 192),
                timestamp: i64_field(data, 224),
                user: key_from(data, 232),
                user_base_token_account: key_from(data, 264),
                user_base_token_reserves: u64_field(data, 296),
                user_pool_token_account: key_from(data, 304),
                user_quote_token_account: key_from(data, 336),
                user_quote_token_reserves: u64_field(data, 368),
            },
        ),
    )
}

// ---------------------------------------------------------------------------
// Instructions: arguments from the data, parties from the accounts
// ---------------------------------------------------------------------------

/// Whether `e` is the buy that a buy instruction's data and eleven accounts describe; what
/// only the program's log reports is zero.
pub open spec fn buy_instruction_fields(e: PumpSwapBuyEvent, data: Seq<u8>, accounts: Seq<Pubkey>) -> bool {
    &&& e.base_amount_out == u64_at(data, 0)
    &&& e.max_quote_amount_in == u64_at(data, 8)
    &&& e.pool@ == accounts[0]@
    &&& e.user@ == accounts[1]@
    &&& e.base_mint@ == accounts[3]@
    &&& e.quote_mint@ == accounts[4]@
    &&& e.user_base_token_account@ == accounts[5]@
    &&& e.user_quote_token_account@ == accounts[6]@
    &&& e.pool_base_token_account@ == accounts[7]@
    &&& e.pool_quote_token_account@ == accounts[8]@
    &&& e.protocol_fee_recipient@ == accounts[9]@
    &&& e.protocol_fee_recipient_token_account@ == accounts[10]@
    &&& e.coin_creator@ == zero_key()
    &&& e.coin_creator_fee == 0
    &&& e.coin_creator_fee_basis_points == 0
    &&& e.coin_creator_vault_ata@ == zero_key()
    &&& e.coin_creator_vault_authority@ == zero_key()
    &&& e.current_sol_volume == 0
    &&& e.last_update_timestamp == 0
    &&& e.lp_fee == 0
    &&& e.lp_fee_basis_points == 0
    &&& e.pool_base_token_reserves == 0
    &&& e.pool_quote_token_reserves == 0
    &&& e.protocol_fee == 0
    &&& e.protocol_fee_basis_points == 0
    &&& e.quote_amount_in == 0
    &&& e.quote_amount_in_with_lp_fee == 0
    &&& e.timestamp == 0
    &&& e.total_claimed_tokens == 0
    &&& e.total_unclaimed_tokens == 0
    &&& !e.track_volume
    &&& e.user_base_token_reserves == 0
    &&& e.user_quote_amount_in == 0
    &&& e.user_quote_token_reserves == 0
}

/// A decoded buy instruction takes the base amount it buys from bytes 0..8 and the most quote it
/// pays from bytes 8..16, and names, in the account order of the buy instruction, the pool (0),
/// the user (1), the base and quote mints (3, 4), the user's base and quote token accounts
/// (5, 6) and the pool's (7, 8).
pub proof fn buy_names_its_parties_in_account_order(data: &[u8], accounts: &[Pubkey], metadata: EventMetadata, r: ParseResult<PumpSwapEvent>)
    requires
        call_ensures(parse_buy_instruction, (data, accounts, metadata), r),
    ensures
        r is Ok <==> data@.len() >= 16 && accounts@.len() >= 11,
        r is Ok ==> (r matches Ok(PumpSwapEvent::Buy(e)) && e.base_amount_out == u64_at(data@, 0)
            && e.max_quote_amount_in == u64_at(data@, 8) && e.pool@ == accounts@[0]@ && e.user@ == accounts@[1]@
            && e.base_mint@ == accounts@[3]@ && e.quote_mint@ == accounts@[4]@
            && e.user_base_token_account@ == accounts@[5]@ && e.user_quote_token_account@ == accounts@[6]@
            && e.pool_base_token_account@ == accounts@[7]@ && e.pool_quote_token_account@ == accounts@[8]@),
{
}

/// Decodes a buy instruction: two amounts and at least eleven accounts.
pub fn parse_buy_instruction(data: &[u8], accounts: &[Pubkey], metadata: EventMetadata) -> (r: ParseResult<PumpSwapEvent>)
    ensures
        data@.len() < 16 ==> format_error(
            r,
            data_length_message("PumpSwap buy instruction"@, 16, data@.len()),
        ),
        data@.len() >= 16 && accounts@.len() < 11 ==> format_error(
            r,
            account_count_message("PumpSwap buy instruction"@, 11, accounts@.len()),
        ),
        data@.len() >= 16 && accounts@.len() >= 11 ==> (r matches Ok(PumpSwapEvent::Buy(e))
            && buy_instruction_fields(e, data@, accounts@) && e.metadata == metadata),
{
    validate_data_length(data, 16, "PumpSwap buy instruction")?;
    validate_account_count(accounts, 11, "PumpSwap buy instruction")?;
    let (base_amount_out, max_quote_amount_in) = parse_swap_amounts(data)?;
    let pool = safe_get_account(accounts, 0)?;
    let user = safe_get_account(accounts, 1)?;
    let base_mint = safe_get_account(accounts, 3)?;
    let quote_mint = safe_get_account(accounts, 4)?;
    let user_base_token_account = safe_get_account(accounts, 5)?;
    let user_quote_token_account = safe_get_account(accounts, 6)?;
    let pool_base_token_account = safe_get_account(accounts, 7)?;
    let pool_quote_token_account = safe_get_account(accounts, 8)?;
    let protocol_fee_recipient = get_account_or_default(accounts, 9);
    let protocol_fee_recipient_token_account = get_account_or_default(accounts, 10);
    Ok(
        PumpSwapEvent::Buy(
            PumpSwapBuyEvent {
                base_amount_out: base_amount_out,
                base_mint: base_mint,
                coin_creator: Pubkey::default(),
                coin_creator_fee: 0,
                coin_creator_fee_basis_points: 0,
                coin_creator_vault_ata: Pubkey::default(),
                coin_creator_vault_authority: Pubkey::default(),
                current_sol_volume: 0,
                last_update_timestamp: 0,
                lp_fee: 0,
                lp_fee_basis_points: 0,
                max_quote_amount_in: max_quote_amount_in,
                metadata,
                pool: pool,
                pool_base_token_account: pool_base_token_account,
                pool_base_token_reserves: 0,
                pool_quote_token_account: pool_quote_token_account,
                pool_quote_token_reserves: 0,
                protocol_fee: 0,
                protocol_fee_basis_points: 0,
                protocol_fee_recipient: protocol_fee_recipient,
                protocol_fee_recipient_token_account: protocol_fee_recipient_token_account,
                quote_amount_in: 0,
                quote_amount_in_with_lp_fee: 0,
                quote_mint: quote_mint,
                timestamp: 0,
                total_claimed_tokens: 0,
                total_unclaimed_tokens: 0,
                track_volume: false,
                user: user,
                user_base_token_account: user_base_token_account,
                user_base_token_reserves: 0,
                user_quote_amount_in: 0,
                user_quote_token_account: user_quote_token_account,
                user_quote_token_reserves: 0,
            },
        ),
    )
}

/// Whether `e` is the pool creation that a create pool instruction's data and eleven accounts
/// describe; the coin creator is read where the data reaches it.
pub open spec fn create_pool_instruction_fields(
    e: PumpSwapCreatePoolEvent,
    data: Seq<u8>,
    accounts: Seq<Pubkey>,
) -> bool {
    &&& e.index == u16_at(data, 0)
    &&& e.base_amount_in == u64_at(data, 2)
    &&& e.quote_amount_in == u64_at(data, 10)
    &&& e.coin_creator@ == (if data.len() >= 50 { key_at(data, 18) } else { zero_key() })
    &&& e.pool@ == accounts[0]@
    &&& e.creator@ == accounts[2]@
    &&& e.base_mint@ == accounts[3]@
    &&& e.quote_mint@ == accounts[4]@
    &&& e.lp_mint@ == accounts[5]@
    &&& e.user_base_token_account@ == accounts[6]@
    &&& e.user_quote_token_account@ == accounts[7]@
    &&& e.user_pool_token_account@ == accounts[8]@
    &&& e.pool_base_token_account@ == accounts[9]@
    &&& e.pool_quote_token_account@ == accounts[10]@
    &&& e.base_mint_decimals == 0
    &&& e.initial_liquidity == 0
    &&& e.lp_token_amount_out == 0
    &&& e.minimum_liquidity == 0
    &&& e.pool_base_amount == 0
    &&& e.pool_bump == 0
    &&& e.pool_quote_amount == 0
    &&& e.quote_mint_decimals == 0
    &&& e.timestamp == 0
}

/// Decodes a create pool instruction: an index, two amounts, an optional coin creator and at
/// least eleven accounts.
pub fn parse_create_pool_instruction(
    data: &[u8],
    accounts: &[Pubkey],
    metadata: EventMetadata,
) -> (r: ParseResult<PumpSwapEvent>)
    ensures
        data@.len() < 18 ==> format_error(
            r,
            data_length_message("PumpSwap create pool instruction"@, 18, data@.len()),
        ),
        data@.len() >= 18 && accounts@.len() < 11 ==> format_error(
            r,
            account_count_message("PumpSwap create pool instruction"@, 11, accounts@.len()),
        ),
        data@.len() >= 18 && accounts@.len() >= 11 ==> (r matches Ok(PumpSwapEvent::CreatePool(e))
            && create_pool_instruction_fields(e, data@, accounts@) && renamed(
            e.metadata,
            metadata,
            metadata.signature@ + "-"@ + base58_encoding(accounts@[0]@) + "-"@ + base58_encoding(
                accounts@[2]@,
            ) + "-"@ + decimal(u64_at(data@, 2) as nat),
        )),
{
    validate_data_length(data, 18, "PumpSwap create pool instruction")?;
    validate_account_count(accounts, 11, "PumpSwap create pool instruction")?;
    let index = read_u16_le(data, 0)?;
    let base_amount_in = read_u64_le(data, 2)?;
    let quote_amount_in = read_u64_le(data, 10)?;
    let coin_creator = if data.len() >= 50 {
        read_pubkey(data, 18)?
    } else {
        Pubkey::default()
    };
    let pool = safe_get_account(accounts, 0)?;
    let creator = safe_get_account(accounts, 2)?;
    let base_mint = safe_get_account(accounts, 3)?;
    let quote_mint = safe_get_account(accounts, 4)?;
    let lp_mint = safe_get_account(accounts, 5)?;
    let user_base_token_account = safe_get_account(accounts, 6)?;
    let user_quote_token_account = safe_get_account(accounts, 7)?;
    let user_pool_token_account = safe_get_account(accounts, 8)?;
    let pool_base_token_account = safe_get_account(accounts, 9)?;
    let pool_quote_token_account = safe_get_account(accounts, 10)?;
    proof {
        reveal_strlit("-");
    }
    let mut id = metadata.signature.clone();
    id.append("-");
    let pool_text = pool.to_base58();
    id.append(pool_text.as_str());
    id.append("-");
    let creator_text = creator.to_base58();
    id.append(creator_text.as_str());
    id.append("-");
    let amount_text = u128_to_decimal(base_amount_in as u128);
    id.append(amount_text.as_str());
    let metadata = with_id(metadata, id);
    Ok(
        PumpSwapEvent::CreatePool(
            PumpSwapCreatePoolEvent {
                base_amount_in: base_amount_in,
                base_mint: base_mint,
                base_mint_decimals: 0,
                coin_creator: coin_creator,
                creator: creator,
                index: index,
                initial_liquidity: 0,
                lp_mint: lp_mint,
                lp_token_amount_out: 0,
                metadata,
                minimum_liquidity: 0,
                pool: pool,
                pool_base_amount: 0,
                pool_base_token_account: pool_base_token_account,
                pool_bump: 0,
                pool_quote_amount: 0,
                pool_quote_token_account: pool_quote_token_account,
                quote_amount_in: quote_amount_in,
                quote_mint: quote_mint,
                quote_mint_decimals: 0,
                timestamp: 0,
                user_base_token_account: user_base_token_account,
                user_pool_token_account: user_pool_token_account,
                user_quote_token_account: user_quote_token_account,
            },
        ),
    )
}

/// Whether `e` is the sell that a sell instruction's data and accounts describe; the creator
/// vault accounts are read where the list reaches them.
pub open spec fn sell_instruction_fields(e: PumpSwapSellEvent, data: Seq<u8>, accounts: Seq<Pubkey>) -> bool {
    &&& e.base_amount_in == u64_at(data, 0)
    &&& e.min_quote_amount_out == u64_at(data, 8)
    &&& e.pool@ == accounts[0]@
    &&& e.user@ == accounts[1]@
    &&& e.base_mint@ == accounts[3]@
    &&& e.quote_mint@ == accounts[4]@
    &&& e.user_base_token_account@ == accounts[5]@
    &&& e.user_quote_token_account@ == accounts[6]@
    &&& e.pool_base_token_account@ == accounts[7]@
    &&& e.pool_quote_token_account@ == accounts[8]@
    &&& e.protocol_fee_recipient@ == accounts[9]@
    &&& e.protocol_fee_recipient_token_account@ == accounts[10]@
    &&& e.coin_creator_vault_ata@ == (if accounts.len() > 17 { accounts[17]@ } else { zero_key() })
    &&& e.coin_creator_vault_authority@ == (if accounts.len() > 18 { accounts[18]@ } else { zero_key() })
    &&& e.coin_creator@ == zero_key()
    &&& e.coin_creator_fee == 0
    &&& e.coin_creator_fee_basis_points == 0
    &&& e.lp_fee == 0
    &&& e.lp_fee_basis_points == 0
    &&& e.pool_base_token_reserves == 0
    &&& e.pool_quote_token_reserves == 0
    &&& e.protocol_fee == 0
    &&& e.protocol_fee_basis_points == 0
    &&& e.quote_amount_out == 0
    &&& e.quote_amount_out_without_lp_fee == 0
    &&& e.timestamp == 0
    &&& e.user_base_token_reserves == 0
    &&& e.user_quote_amount_out == 0
    &&& e.user_quote_token_reserves == 0
}

/// Decodes a sell instruction: two amounts and at least eleven accounts; the identifier names
/// the user, the pool and the amount sold.
pub fn parse_sell_instruction(data: &[u8], accounts: &[Pubkey], metadata: EventMetadata) -> (r: ParseResult<PumpSwapEvent>)
    ensures
        data@.len() < 16 || accounts@.len() < 11 ==> format_error(
            r,
            "Insufficient data or accounts for PumpSwap sell instruction"@,
        ),
        data@.len() >= 16 && accounts@.len() >= 11 ==> (r matches Ok(PumpSwapEvent::Sell(e))
            && sell_instruction_fields(e, data@, accounts@) && renamed(
            e.metadata,
            metadata,
            metadata.signature@ + "-"@ + base58_encoding(accounts@[1]@) + "-"@ + base58_encoding(
                accounts@[0]@,
            ) + "-"@ + decimal(u64_at(data@, 0) as nat),
        )),
{
    if data.len() < 16 || accounts.len() < 11 {
        return Err(fail("Insufficient data or accounts for PumpSwap sell instruction"));
    }
    let base_amount_in = match read_u64_le(data, 0) {
        Ok(v) => v,
        Err(_) => return Err(fail("Failed to read base_amount_in")),
    };
    let min_quote_amount_out = match read_u64_le(data, 8) {
        Ok(v) => v,
        Err(_) => return Err(fail("Failed to read min_quote_amount_out")),
    };
    proof {
        reveal_strlit("-");
    }
    let mut id = metadata.signature.clone();
    id.append("-");
    let user_text = accounts[1].to_base58();
    id.append(user_text.as_str());
    id.append("-");
    let pool_text = accounts[0].to_base58();
    id.append(pool_text.as_str());
    id.append("-");
    let amount_text = u128_to_decimal(base_amount_in as u128);
    id.append(amount_text.as_str());
    let metadata = with_id(metadata, id);
    Ok(
        PumpSwapEvent::Sell(
            PumpSwapSellEvent {
                base_amount_in: base_amount_in,
                base_mint: accounts[3],
                coin_creator: Pubkey::default(),
                coin_creator_fee: 0,
                coin_creator_fee_basis_points: 0,
                coin_creator_vault_ata: get_account_or_default(accounts, 17),
                coin_creator_vault_authority: get_account_or_default(accounts, 18),
                lp_fee: 0,
                lp_fee_basis_points: 0,
                metadata,
                min_quote_amount_out: min_quote_amount_out,
                pool: accounts[0],
                pool_base_token_account: accounts[7],
                pool_base_token_reserves: 0,
                pool_quote_token_account: accounts[8],
                pool_quote_token_reserves: 0,
                protocol_fee: 0,
                protocol_fee_basis_points: 0,
                protocol_fee_recipient: accounts[9],
                protocol_fee_recipient_token_account: accounts[10],
                quote_amount_out: 0,
                quote_amount_out_without_lp_fee: 0,
                quote_mint: accounts[4],
                timestamp: 0,
                user: accounts[1],
                user_base_token_account: accounts[5],
                user_base_token_reserves: 0,
                user_quote_amount_out: 0,
                user_quote_token_account: accounts[6],
                user_quote_token_reserves: 0,
            },
        ),
    )
}

/// Whether `e` is the deposit that a deposit instruction's data and eleven accounts describe.
pub open spec fn deposit_instruction_fields(e: PumpSwapDepositEvent, data: Seq<u8>, accounts: Seq<Pubkey>) -> bool {
    &&& e.lp_token_amount_out == u64_at(data, 0)
    &&& e.max_base_amount_in == u64_at(data, 8)
    &&& e.max_quote_amount_in == u64_at(data, 16)
    &&& e.pool@ == accounts[0]@
    &&& e.user@ == accounts[2]@
    &&& e.base_mint@ == accounts[3]@
    &&& e.quote_mint@ == accounts[4]@
    &&& e.user_base_token_account@ == accounts[6]@
    &&& e.user_quote_token_account@ == accounts[7]@
    &&& e.user_pool_token_account@ == accounts[8]@
    &&& e.pool_base_token_account@ == accounts[9]@
    &&& e.pool_quote_token_account@ == accounts[10]@
    &&& e.base_amount_in == 0
    &&& e.lp_mint_supply == 0
    &&& e.pool_base_token_reserves == 0
    &&& e.pool_quote_token_reserves == 0
    &&& e.quote_amount_in == 0
    &&& e.timestamp == 0
    &&& e.user_base_token_reserves == 0
    &&& e.user_quote_token_reserves == 0
}

/// Decodes a deposit instruction: three amounts and at least eleven accounts; the identifier
/// names the pool, the user and the LP amount.
pub fn parse_deposit_instruction(data: &[u8], accounts: &[Pubkey], metadata: EventMetadata) -> (r: ParseResult<PumpSwapEvent>)
    ensures
        data@.len() < 24 || accounts@.len() < 11 ==> format_error(
            r,
            "Insufficient data or accounts for PumpSwap deposit instruction"@,
        ),
        data@.len() >= 24 && accounts@.len() >= 11 ==> (r matches Ok(PumpSwapEvent::Deposit(e))
            && deposit_instruction_fields(e, data@, accounts@) && renamed(
            e.metadata,
            metadata,
            metadata.signature@ + "-"@ + base58_encoding(accounts@[0]@) + "-"@ + base58_encoding(
                accounts@[2]@,
            ) + "-"@ + decimal(u64_at(data@, 0) as nat),
        )),
{
    if data.len() < 24 || accounts.len() < 11 {
        return Err(fail("Insufficient data or accounts for PumpSwap deposit instruction"));
    }
    let lp_token_amount_out = match read_u64_le(data, 0) {
        Ok(v) => v,
        Err(_) => return Err(fail("Failed to read lp_token_amount_out")),
    };
    let max_base_amount_in = match read_u64_le(data, 8) {
        Ok(v) => v,
        Err(_) => return Err(fail("Failed to read max_base_amount_in")),
    };
    let max_quote_amount_in = match read_u64_le(data, 16) {
        Ok(v) => v,
        Err(_) => return Err(fail("Failed to read max_quote_amount_in")),
    };
    proof {
        reveal_strlit("-");
    }
    let mut id = metadata.signature.clone();
    id.append("-");
    let pool_text = accounts[0].to_base58();
    id.append(pool_text.as_str());
    id.append("-");
    let user_text = accounts[2].to_base58();
    id.append(user_text.as_str());
    id.append("-");
    let amount_text = u128_to_decimal(lp_token_amount_out as u128);
    id.append(amount_text.as_str());
    let metadata = with_id(metadata, id);
    Ok(
        PumpSwapEvent::Deposit(
            PumpSwapDepositEvent {
                base_amount_in: 0,
                base_mint: accounts[3],
                lp_mint_supply: 0,
                lp_token_amount_out: lp_token_amount_out,
                max_base_amount_in: max_base_amount_in,
                max_quote_amount_in: max_quote_amount_in,
                metadata,
                pool: accounts[0],
                pool_base_token_account: accounts[9],
                pool_base_token_reserves: 0,
                pool_quote_token_account: accounts[10],
                pool_quote_token_reserves: 0,
                quote_amount_in: 0,
                quote_mint: accounts[4],
                timestamp: 0,
                user: accounts[2],
                user_base_token_account: accounts[6],
                user_base_token_reserves: 0,
                user_pool_token_account: accounts[8],
                user_quote_token_account: accounts[7],
                user_quote_token_reserves: 0,
            },
        ),
    )
}

/// Whether `e` is the withdrawal that a withdraw instruction's data and eleven accounts describe.
pub open spec fn withdraw_instruction_fields(e: PumpSwapWithdrawEvent, data: Seq<u8>, accounts: Seq<Pubkey>) -> bool {
    &&& e.lp_token_amount_in == u64_at(data, 0)
    &&& e.min_base_amount_out == u64_at(data, 8)
    &&& e.min_quote_amount_out == u64_at(data, 16)
    &&& e.pool@ == accounts[0]@
    &&& e.user@ == accounts[2]@
    &&& e.base_mint@ == accounts[3]@
    &&& e.quote_mint@ == accounts[4]@
    &&& e.user_base_token_account@ == accounts[6]@
    &&& e.user_quote_token_account@ == accounts[7]@
    &&& e.user_pool_token_account@ == accounts[8]@
    &&& e.pool_base_token_account@ == accounts[9]@
    &&& e.pool_quote_token_account@ == accounts[10]@
    &&& e.base_amount_out == 0
    &&& e.lp_mint_supply == 0
    &&& e.pool_base_token_reserves == 0
    &&& e.pool_quote_token_reserves == 0
    &&& e.quote_amount_out == 0
    &&& e.timestamp == 0
    &&& e.user_base_token_reserves == 0
    &&& e.user_quote_token_reserves == 0
}

/// Decodes a withdraw instruction: three amounts and at least eleven accounts; the identifier
/// names the pool, the user and the LP amount.
pub fn parse_withdraw_instruction(data: &[u8], accounts: &[Pubkey], metadata: EventMetadata) -> (r: ParseResult<PumpSwapEvent>)
    ensures
        data@.len() < 24 || accounts@.len() < 11 ==> format_error(
            r,
            "Insufficient data or accounts for PumpSwap withdraw instruction"@,
        ),
        data@.len() >= 24 && accounts@.len() >= 11 ==> (r matches Ok(PumpSwapEvent::Withdraw(e))
            && withdraw_instruction_fields(e, data@, accounts@) && renamed(
            e.metadata,
            metadata,
            metadata.signature@ + "-"@ + base58_encoding(accounts@[0]@) + "-"@ + base58_encoding(
                accounts@[2]@,
            ) + "-"@ + decimal(u64_at(data@, 0) as nat),
        )),
{
    if data.len() < 24 || accounts.len() < 11 {
        return Err(fail("Insufficient data or accounts for PumpSwap withdraw instruction"));
    }
    let lp_token_amount_in = match read_u64_le(data, 0) {
        Ok(v) => v,
        Err(_) => return Err(fail("Failed to read lp_token_amount_in")),
    };
    let min_base_amount_out = match read_u64_le(data, 8) {
        Ok(v) => v,
        Err(_) => return Err(fail("Failed to read min_base_amount_out")),
    };
    let min_quote_amount_out = match read_u64_le(data, 16) {
        Ok(v) => v,
        Err(_) => return Err(fail("Failed to read min_quote_amount_out")),
    };
    proof {
        reveal_strlit("-");
    }
    let mut id = metadata.signature.clone();
    id.append("-");
    let pool_text = accounts[0].to_base58();
    id.append(pool_text.as_str());
    id.append("-");
    let user_text = accounts[2].to_base58();
    id.append(user_text.as_str());
    id.append("-");
    let amount_text = u128_to_decimal(lp_token_amount_in as u128);
    id.append(amount_text.as_str());
    let metadata = with_id(metadata, id);
    Ok(
        PumpSwapEvent::Withdraw(
            PumpSwapWithdrawEvent {
                base_amount_out: 0,
                base_mint: accounts[3],
                lp_mint_supply: 0,
                lp_token_amount_in: lp_token_amount_in,
                metadata,
                min_base_amount_out: min_base_amount_out,
                min_quote_amount_out: min_quote_amount_out,
                pool: accounts[0],
                pool_base_token_account: accounts[9],
                pool_base_token_reserves: 0,
                pool_quote_token_account: accounts[10],
                pool_quote_token_reserves: 0,
                quote_amount_out: 0,
                quote_mint: accounts[4],
                timestamp: 0,
                user: accounts[2],
                user_base_token_account: accounts[6],
                user_base_token_reserves: 0,
                user_pool_token_account: accounts[8],
                user_quote_token_account: accounts[7],
                user_quote_token_reserves: 0,
            },
        ),
    )
}

// ---------------------------------------------------------------------------
// The parser: a table from discriminators to decoders
// ---------------------------------------------------------------------------

/// Whether `m` is the metadata of an event logged in the inner instruction `p`, identified by
/// the pool and a suffix naming the event.
pub open spec fn log_metadata(
    m: EventMetadata,
    p: OwnedInnerInstructionParseParams,
    pool: Seq<u8>,
    suffix: Seq<char>,
    event_type: EventType,
) -> bool {
    metadata_is(
        m,
        p.signature@ + "-"@ + base58_encoding(pool) + suffix,
        p.signature@,
        p.slot,
        p.block_time,
        p.program_received_time_ms,
        p.index@,
        event_type,
        ProtocolTypeView::PumpSwap,
    )
}

/// What the table makes of the decoded bytes of an inner instruction: every logged-event
/// decoder is tried on the whole record, in table order. Deposit and withdrawal records have
/// the same shape, so such a record gives both.
pub open spec fn pumpswap_log_events(
    events: Seq<PumpSwapEvent>,
    bytes: Seq<u8>,
    p: OwnedInnerInstructionParseParams,
) -> bool {
    if buy_event_decodes(bytes) {
        &&& events.len() == 1
        &&& events[0] matches PumpSwapEvent::Buy(e)
        &&& buy_event_layout(e, bytes)
        &&& log_metadata(e.metadata, p, key_at(bytes, 192), "-buy"@, EventType::PumpSwapBuy)
    } else if sell_event_decodes(bytes) {
        &&& events.len() == 1
        &&& events[0] matches PumpSwapEvent::Sell(e)
        &&& sell_event_layout(e, bytes)
        &&& log_metadata(e.metadata, p, key_at(bytes, 176), "-sell"@, EventType::PumpSwapSell)
    } else if create_pool_event_decodes(bytes) {
        &&& events.len() == 1
        &&& events[0] matches PumpSwapEvent::CreatePool(e)
        &&& create_pool_event_layout(e, bytes)
        &&& log_metadata(
            e.metadata,
            p,
            key_at(bytes, 163),
            "-create"@,
            EventType::PumpSwapCreatePool,
        )
    } else if deposit_event_decodes(bytes) {
        &&& events.len() == 2
        &&& events[0] matches PumpSwapEvent::Deposit(d)
        &&& deposit_event_layout(d, bytes)
        &&& log_metadata(d.metadata, p, key_at(bytes, 72), "-deposit"@, EventType::PumpSwapDeposit)
        &&& events[1] matches PumpSwapEvent::Withdraw(w)
        &&& withdraw_event_layout(w, bytes)
        &&& log_metadata(
            w.metadata,
            p,
            key_at(bytes, 72),
            "-withdraw"@,
            EventType::PumpSwapWithdraw,
        )
    } else {
        events.len() == 0
    }
}

/// What the table makes of an inner instruction: its data is base58 text, and text that does
/// not decode gives no event.
pub open spec fn pumpswap_inner_events(
    events: Seq<PumpSwapEvent>,
    p: OwnedInnerInstructionParseParams,
) -> bool {
    match base58_decoding(p.inner_instruction_data@) {
        Some(bytes) => pumpswap_log_events(events, bytes, p),
        None => events.len() == 0,
    }
}

fn is_exactly(data: &[u8], disc: &[u8; 8]) -> (r: bool)
    ensures
        r == (data@ == disc@),
{
    if data.len() != 8 {
        return false;
    }
    let r = has_discriminator(data, disc.as_slice());
    proof {
        assert(data@.subrange(0, 8) =~= data@);
    }
    r
}

/// The decoders that the PumpSwap tables hand an instruction or its log to.
#[derive(Debug, Clone, Copy, PartialEq, Eq, Structural)]
pub enum PumpSwapDecoder {
    Buy,
    Sell,
    CreatePool,
    Deposit,
    Withdraw,
}

/// Whether `c` is entry `i` of the PumpSwap tables, in the order in which they list them.
pub open spec fn pumpswap_config(c: EventParseConfig<PumpSwapDecoder>, i: int) -> bool {
    let program = PUMPSWAP_PROGRAM_ID_BYTES@;
    if i == 0 {
        config_is(c, PumpSwapDecoder::Buy, EventType::PumpSwapBuy, discriminators::BUY_EVENT@, BUY_IX@, program, ProtocolTypeView::PumpSwap)
    } else if i == 1 {
        config_is(c, PumpSwapDecoder::Sell, EventType::PumpSwapSell, discriminators::SELL_EVENT@, SELL_IX@, program, ProtocolTypeView::PumpSwap)
    } else if i == 2 {
        config_is(c, PumpSwapDecoder::CreatePool, EventType::PumpSwapCreatePool, discriminators::CREATE_POOL_EVENT@, CREATE_POOL_IX@, program, ProtocolTypeView::PumpSwap)
    } else if i == 3 {
        config_is(c, PumpSwapDecoder::Deposit, EventType::PumpSwapDeposit, discriminators::DEPOSIT_EVENT@, DEPOSIT_IX@, program, ProtocolTypeView::PumpSwap)
    } else {
        config_is(c, PumpSwapDecoder::Withdraw, EventType::PumpSwapWithdraw, discriminators::WITHDRAW_EVENT@, WITHDRAW_IX@, program, ProtocolTypeView::PumpSwap)
    }
}

fn pumpswap_entry(i: usize) -> (c: EventParseConfig<PumpSwapDecoder>)
    requires
        i < 5,
    ensures
        pumpswap_config(c, i as int),
{
    let program = pumpswap_program_id();
    if i == 0 {
        EventParseConfig::new(PumpSwapDecoder::Buy, EventType::PumpSwapBuy, discriminators::BUY_EVENT, BUY_IX.as_slice(), program, ProtocolType::PumpSwap)
    } else if i == 1 {
        EventParseConfig::new(PumpSwapDecoder::Sell, EventType::PumpSwapSell, discriminators::SELL_EVENT, SELL_IX.as_slice(), program, ProtocolType::PumpSwap)
    } else if i == 2 {
        EventParseConfig::new(PumpSwapDecoder::CreatePool, EventType::PumpSwapCreatePool, discriminators::CREATE_POOL_EVENT, CREATE_POOL_IX.as_slice(), program, ProtocolType::PumpSwap)
    } else if i == 3 {
        EventParseConfig::new(PumpSwapDecoder::Deposit, EventType::PumpSwapDeposit, discriminators::DEPOSIT_EVENT, DEPOSIT_IX.as_slice(), program, ProtocolType::PumpSwap)
    } else {
        EventParseConfig::new(PumpSwapDecoder::Withdraw, EventType::PumpSwapWithdraw, discriminators::WITHDRAW_EVENT, WITHDRAW_IX.as_slice(), program, ProtocolType::PumpSwap)
    }
}

/// Decodes a top-level instruction through the table. The table is keyed by the whole
/// instruction data, so only data equal to a discriminator reaches a decoder, and eight bytes
/// hold none of the amounts that every decoder needs: no instruction gives an event.
fn parse_table_instruction(p: &OwnedInstructionParseParams) -> (r: Vec<PumpSwapEvent>)
    ensures
        r@.len() == 0,
{
    let data = p.instruction_data.as_slice();
    let accounts = p.accounts.as_slice();
    let mut out: Vec<PumpSwapEvent> = Vec::new();
    if is_exactly(data, &BUY_IX) {
        let m = instruction_metadata(p, EventType::PumpSwapBuy, ProtocolType::PumpSwap);
        push_ok(&mut out, parse_buy_instruction(data, accounts, m));
    } else if is_exactly(data, &SELL_IX) {
        let m = instruction_metadata(p, EventType::PumpSwapSell, ProtocolType::PumpSwap);
        push_ok(&mut out, parse_sell_instruction(data, accounts, m));
    } else if is_exactly(data, &CREATE_POOL_IX) {
        let m = instruction_metadata(p, EventType::PumpSwapCreatePool, ProtocolType::PumpSwap);
        push_ok(&mut out, parse_create_pool_instruction(data, accounts, m));
    } else if is_exactly(data, &DEPOSIT_IX) {
        let m = instruction_metadata(p, EventType::PumpSwapDeposit, ProtocolType::PumpSwap);
        push_ok(&mut out, parse_deposit_instruction(data, accounts, m));
    } else if is_exactly(data, &WITHDRAW_IX) {
        let m = instruction_metadata(p, EventType::PumpSwapWithdraw, ProtocolType::PumpSwap);
        push_ok(&mut out, parse_withdraw_instruction(data, accounts, m));
    }
    out
}

/// Decodes an inner instruction through the table: every logged-event decoder, in table
/// order, on the base58-decoded data.
fn parse_table_inner_instruction(p: &OwnedInnerInstructionParseParams) -> (r: Vec<PumpSwapEvent>)
    ensures
        pumpswap_inner_events(r@, *p),
{
    let mut out: Vec<PumpSwapEvent> = Vec::new();
    match base58_decode(p.inner_instruction_data.as_str()) {
        Ok(bytes) => {
            let data = bytes.as_slice();
            let m = inner_metadata(p, EventType::PumpSwapBuy, ProtocolType::PumpSwap);
            push_ok(&mut out, parse_buy_inner_instruction(data, m));
            let m = inner_metadata(p, EventType::PumpSwapSell, ProtocolType::PumpSwap);
            push_ok(&mut out, parse_sell_inner_instruction(data, m));
            let m = inner_metadata(p, EventType::PumpSwapCreatePool, ProtocolType::PumpSwap);
            push_ok(&mut out, parse_create_pool_inner_instruction(data, m));
            let m = inner_metadata(p, EventType::PumpSwapDeposit, ProtocolType::PumpSwap);
            push_ok(&mut out, parse_deposit_inner_instruction(data, m));
            let m = inner_metadata(p, EventType::PumpSwapWithdraw, ProtocolType::PumpSwap);
            push_ok(&mut out, parse_withdraw_inner_instruction(data, m));
        },
        Err(_) => {},
    }
    out
}

/// Whether the parser accepts `input`.
pub open spec fn accepts(input: SolanaTransactionInput) -> bool {
    true
}

/// What parsing `input` may give.
pub open spec fn parse_outcome(input: SolanaTransactionInput, events: Seq<PumpSwapEvent>) -> bool {
    match input {
        SolanaTransactionInput::Instruction(_) => events.len() == 0,
        SolanaTransactionInput::InnerInstruction(p) => pumpswap_inner_events(events, p),
    }
}

/// The PumpSwap event parser.
#[derive(Debug, Clone, Copy)]
pub struct PumpSwapEventParser;

impl Default for PumpSwapEventParser {
    fn default() -> (p: PumpSwapEventParser)
        ensures
            p == PumpSwapEventParser,
    {
        PumpSwapEventParser
    }
}

impl PumpSwapEventParser {
    /// The entries of the tables, in order.
    pub fn configs(&self) -> (r: Vec<EventParseConfig<PumpSwapDecoder>>)
        ensures
            r@.len() == 5,
            forall|i: int| 0 <= i < 5 ==> #[trigger] pumpswap_config(r@[i], i),
    {
        let mut r: Vec<EventParseConfig<PumpSwapDecoder>> = Vec::new();
        let mut i: usize = 0;
        while i < 5
            invariant
                0 <= i <= 5,
                r@.len() == i,
                forall|j: int| 0 <= j < i ==> #[trigger] pumpswap_config(r@[j], j),
            decreases 5 - i,
        {
            r.push(pumpswap_entry(i));
            i = i + 1;
        }
        r
    }

    /// The table keyed by the name of a logged event: each name with its one entry.
    pub fn inner_instruction_configs(&self) -> (r: Vec<(&'static str, Vec<EventParseConfig<PumpSwapDecoder>>)>)
        ensures
            r@.len() == 5,
            forall|i: int|
                0 <= i < 5 ==> (#[trigger] r@[i]).1@.len() == 1 && pumpswap_config(r@[i].1@[0], i)
                    && r@[i].0@ == r@[i].1@[0].inner_instruction_discriminator@,
    {
        let mut r: Vec<(&'static str, Vec<EventParseConfig<PumpSwapDecoder>>)> = Vec::new();
        let mut i: usize = 0;
        while i < 5
            invariant
                0 <= i <= 5,
                r@.len() == i,
                forall|j: int|
                    0 <= j < i ==> (#[trigger] r@[j]).1@.len() == 1 && pumpswap_config(r@[j].1@[0], j)
                        && r@[j].0@ == r@[j].1@[0].inner_instruction_discriminator@,
            decreases 5 - i,
        {
            let c = pumpswap_entry(i);
            let key = c.inner_instruction_discriminator;
            let mut entry: Vec<EventParseConfig<PumpSwapDecoder>> = Vec::new();
            entry.push(c);
            r.push((key, entry));
            i = i + 1;
        }
        r
    }

    /// The table keyed by an instruction's discriminator: each discriminator with its one entry.
    pub fn instruction_configs(&self) -> (r: Vec<(Vec<u8>, Vec<EventParseConfig<PumpSwapDecoder>>)>)
        ensures
            r@.len() == 5,
            forall|i: int|
                0 <= i < 5 ==> (#[trigger] r@[i]).1@.len() == 1 && pumpswap_config(r@[i].1@[0], i)
                    && r@[i].0@ == r@[i].1@[0].instruction_discriminator@,
    {
        let mut r: Vec<(Vec<u8>, Vec<EventParseConfig<PumpSwapDecoder>>)> = Vec::new();
        let mut i: usize = 0;
        while i < 5
            invariant
                0 <= i <= 5,
                r@.len() == i,
                forall|j: int|
                    0 <= j < i ==> (#[trigger] r@[j]).1@.len() == 1 && pumpswap_config(r@[j].1@[0], j)
                        && r@[j].0@ == r@[j].1@[0].instruction_discriminator@,
            decreases 5 - i,
        {
            let c = pumpswap_entry(i);
            let key = pumpswap_entry(i).instruction_discriminator;
            let mut entry: Vec<EventParseConfig<PumpSwapDecoder>> = Vec::new();
            entry.push(c);
            r.push((key, entry));
            i = i + 1;
        }
        r
    }

    /// A parser.
    pub fn new() -> (p: PumpSwapEventParser)
        ensures
            p == PumpSwapEventParser,
    {
        PumpSwapEventParser
    }

    /// Whether `program_id` is the PumpSwap program.
    pub fn should_handle(&self, program_id: &Pubkey) -> (r: bool)
        ensures
            r == (program_id@ == PUMPSWAP_PROGRAM_ID_BYTES@),
    {
        *program_id == pumpswap_program_id()
    }

    /// The one program this parser handles.
    pub fn supported_program_ids(&self) -> (r: Vec<Pubkey>)
        ensures
            r@.len() == 1,
            r@[0]@ == PUMPSWAP_PROGRAM_ID_BYTES@,
    {
        let mut v: Vec<Pubkey> = Vec::new();
        v.push(pumpswap_program_id());
        v
    }

    /// Both kinds of input are accepted.
    pub fn can_parse(&self, input: &SolanaTransactionInput) -> (r: bool)
        ensures
            r == accepts(*input),
    {
        true
    }

    /// Decodes an input into the events it carries.
    pub fn parse(&self, input: &SolanaTransactionInput) -> (r: Vec<PumpSwapEvent>)
        ensures
            parse_outcome(*input, r@),
    {
        match input {
            SolanaTransactionInput::Instruction(p) => parse_table_instruction(p),
            SolanaTransactionInput::InnerInstruction(p) => parse_table_inner_instruction(p),
        }
    }
}

/// A decoded sell instruction takes the base amount it sells from bytes 0..8 and the least quote
/// it accepts from bytes 8..16, and names, in the account order of the sell instruction, the
/// pool (0), the user (1), the base and quote mints (3, 4), the user's base and quote token
/// accounts (5, 6) and the pool's (7, 8).
pub proof fn sell_names_its_parties_in_account_order(data: &[u8], accounts: &[Pubkey], metadata: EventMetadata, r: ParseResult<PumpSwapEvent>)
    requires
        call_ensures(parse_sell_instruction, (data, accounts, metadata), r),
    ensures
        r is Ok <==> data@.len() >= 16 && accounts@.len() >= 11,
        r is Ok ==> (r matches Ok(PumpSwapEvent::Sell(e)) && e.base_amount_in == u64_at(data@, 0)
            && e.min_quote_amount_out == u64_at(data@, 8) && e.pool@ == accounts@[0]@ && e.user@ == accounts@[1]@
            && e.base_mint@ == accounts@[3]@ && e.quote_mint@ == accounts@[4]@
            && e.user_base_token_account@ == accounts@[5]@ && e.user_quote_token_account@ == accounts@[6]@
            && e.pool_base_token_account@ == accounts@[7]@ && e.pool_quote_token_account@ == accounts@[8]@),
{
}

/// A decoded deposit instruction takes the LP amount it mints from bytes 0..8 and the most base
/// and quote it puts in from bytes 8..16 and 16..24, and names the pool (0), the user (2), the
/// base and quote mints (3, 4), the user's base, quote and LP token accounts (6, 7, 8) and the
/// pool's base and quote token accounts (9, 10).
pub proof fn deposit_names_its_parties_in_account_order(data: &[u8], accounts: &[Pubkey], metadata: EventMetadata, r: ParseResult<PumpSwapEvent>)
    requires
        call_ensures(parse_deposit_instruction, (data, accounts, metadata), r),
    ensures
        r is Ok <==> data@.len() >= 24 && accounts@.len() >= 11,
        r is Ok ==> (r matches Ok(PumpSwapEvent::Deposit(e)) && e.lp_token_amount_out == u64_at(data@, 0)
            && e.max_base_amount_in == u64_at(data@, 8) && e.max_quote_amount_in == u64_at(data@, 16)
            && e.pool@ == accounts@[0]@ && e.user@ == accounts@[2]@
            && e.base_mint@ == accounts@[3]@ && e.quote_mint@ == accounts@[4]@
            && e.user_base_token_account@ == accounts@[6]@ && e.user_quote_token_account@ == accounts@[7]@
            && e.user_pool_token_account@ == accounts@[8]@
            && e.pool_base_token_account@ == accounts@[9]@ && e.pool_quote_token_account@ == accounts@[10]@),
{
}

/// A decoded withdraw instruction takes the LP amount it burns from bytes 0..8 and the least base
/// and quote it accepts from bytes 8..16 and 16..24, and names the pool (0), the user (2), the
/// base and quote mints (3, 4), the user's base, quote and LP token accounts (6, 7, 8) and the
/// pool's base and quote token accounts (9, 10).
pub proof fn withdraw_names_its_parties_in_account_order(data: &[u8], accounts: &[Pubkey], metadata: EventMetadata, r: ParseResult<PumpSwapEvent>)
    requires
        call_ensures(parse_withdraw_instruction, (data, accounts, metadata), r),
    ensures
        r is Ok <==> data@.len() >= 24 && accounts@.len() >= 11,
        r is Ok ==> (r matches Ok(PumpSwapEvent::Withdraw(e)) && e.lp_token_amount_in == u64_at(data@, 0)
            && e.min_base_amount_out == u64_at(data@, 8) && e.min_quote_amount_out == u64_at(data@, 16)
            && e.pool@ == accounts@[0]@ && e.user@ == accounts@[2]@
            && e.base_mint@ == accounts@[3]@ && e.quote_mint@ == accounts@[4]@
            && e.user_base_token_account@ == accounts@[6]@ && e.user_quote_token_account@ == accounts@[7]@
            && e.user_pool_token_account@ == accounts@[8]@
            && e.pool_base_token_account@ == accounts@[9]@ && e.pool_quote_token_account@ == accounts@[10]@),
{
}

/// A decoded create-pool instruction takes the pool index from bytes 0..2 and the base and quote
/// amounts it puts in from bytes 2..10 and 10..18, and names the pool (0), the creator (2), the
/// base and quote mints (3, 4), the LP mint (5) and the creator's base, quote and LP token
/// accounts (6, 7, 8).
pub proof fn create_pool_names_its_parties_in_account_order(data: &[u8], accounts: &[Pubkey], metadata: EventMetadata, r: ParseResult<PumpSwapEvent>)
    requires
        call_ensures(parse_create_pool_instruction, (data, accounts, metadata), r),
    ensures
        r is Ok <==> data@.len() >= 18 && accounts@.len() >= 11,
        r is Ok ==> (r matches Ok(PumpSwapEvent::CreatePool(e)) && e.index == u16_at(data@, 0)
            && e.base_amount_in == u64_at(data@, 2) && e.quote_amount_in == u64_at(data@, 10)
            && e.pool@ == accounts@[0]@ && e.creator@ == accounts@[2]@
            && e.base_mint@ == accounts@[3]@ && e.quote_mint@ == accounts@[4]@ && e.lp_mint@ == accounts@[5]@
            && e.user_base_token_account@ == accounts@[6]@ && e.user_quote_token_account@ == accounts@[7]@
            && e.user_pool_token_account@ == accounts@[8]@),
{
}

/// A logged buy decodes exactly when it is a whole Borsh buy record (577 bytes) whose volume
/// flag at byte 456 is a Borsh boolean. It reports the base amount bought (bytes 0..8), the
/// most quote offered (184..192) and the quote paid (384..392) each from its own place, the pool
/// (192), the user (457) and the user's base and quote token accounts (489, 537), and tracks
/// volume exactly when the flag is 1.
pub proof fn logged_buy_keeps_each_field_in_place(data: &[u8], metadata: EventMetadata, r: ParseResult<PumpSwapEvent>)
    requires
        call_ensures(parse_buy_inner_instruction, (data, metadata), r),
    ensures
        r is Ok <==> data@.len() == 577 && data@[456] <= 1,
        r is Ok ==> (r matches Ok(PumpSwapEvent::Buy(e)) && e.base_amount_out == u64_at(data@, 0)
            && e.max_quote_amount_in == u64_at(data@, 184) && e.quote_amount_in == u64_at(data@, 384)
            && e.pool@ == key_at(data@, 192) && e.user@ == key_at(data@, 457)
            && e.user_base_token_account@ == key_at(data@, 489) && e.user_quote_token_account@ == key_at(data@, 537)
            && (e.track_volume <==> data@[456] == 1)),
{
}

/// A logged sell decodes exactly when it is a whole Borsh sell record (544 bytes). It reports
/// the base amount sold (bytes 0..8), the least quote accepted (168..176) and the quote paid
/// out (368..376) each from its own place, the pool (176), the user (424) and the user's base
/// and quote token accounts (456, 504).
pub proof fn logged_sell_keeps_each_field_in_place(data: &[u8], metadata: EventMetadata, r: ParseResult<PumpSwapEvent>)
    requires
        call_ensures(parse_sell_inner_instruction, (data, metadata), r),
    ensures
        r is Ok <==> data@.len() == 544,
        r is Ok ==> (r matches Ok(PumpSwapEvent::Sell(e)) && e.base_amount_in == u64_at(data@, 0)
            && e.min_quote_amount_out == u64_at(data@, 168) && e.quote_amount_out == u64_at(data@, 368)
            && e.pool@ == key_at(data@, 176) && e.user@ == key_at(data@, 424)
            && e.user_base_token_account@ == key_at(data@, 456) && e.user_quote_token_account@ == key_at(data@, 504)),
{
}

/// A logged deposit decodes exactly when it is a whole Borsh deposit record (376 bytes). It
/// reports the base and quote put in (bytes 0..8 and 184..192), the LP tokens minted (48..56),
/// the most base and quote offered (56..64 and 64..72), the pool (72), the user (232) and the
/// user's base, LP and quote token accounts (264, 304, 336), each from its own place.
pub proof fn logged_deposit_keeps_each_field_in_place(data: &[u8], metadata: EventMetadata, r: ParseResult<PumpSwapEvent>)
    requires
        call_ensures(parse_deposit_inner_instruction, (data, metadata), r),
    ensures
        r is Ok <==> data@.len() == 376,
        r is Ok ==> (r matches Ok(PumpSwapEvent::Deposit(e)) && e.base_amount_in == u64_at(data@, 0)
            && e.quote_amount_in == u64_at(data@, 184) && e.lp_token_amount_out == u64_at(data@, 48)
            && e.max_base_amount_in == u64_at(data@, 56) && e.max_quote_amount_in == u64_at(data@, 64)
            && e.pool@ == key_at(data@, 72) && e.user@ == key_at(data@, 232)
            && e.user_base_token_account@ == key_at(data@, 264) && e.user_pool_token_account@ == key_at(data@, 304)
            && e.user_quote_token_account@ == key_at(data@, 336)),
{
}

/// A logged withdrawal decodes exactly when it is a whole Borsh withdrawal record (376 bytes).
/// It reports the base and quote taken out (bytes 0..8 and 184..192), the LP tokens burnt
/// (48..56), the least base and quote accepted (56..64 and 64..72), the pool (72), the user
/// (232) and the user's base, LP and quote token accounts (264, 304, 336), each from its own
/// place.
pub proof fn logged_withdraw_keeps_each_field_in_place(data: &[u8], metadata: EventMetadata, r: ParseResult<PumpSwapEvent>)
    requires
        call_ensures(parse_withdraw_inner_instruction, (data, metadata), r),
    ensures
        r is Ok <==> data@.len() == 376,
        r is Ok ==> (r matches Ok(PumpSwapEvent::Withdraw(e)) && e.base_amount_out == u64_at(data@, 0)
            && e.quote_amount_out == u64_at(data@, 184) && e.lp_token_amount_in == u64_at(data@, 48)
            && e.min_base_amount_out == u64_at(data@, 56) && e.min_quote_amount_out == u64_at(data@, 64)
            && e.pool@ == key_at(data@, 72) && e.user@ == key_at(data@, 232)
            && e.user_base_token_account@ == key_at(data@, 264) && e.user_pool_token_account@ == key_at(data@, 304)
            && e.user_quote_token_account@ == key_at(data@, 336)),
{
}

/// A logged pool creation decodes exactly when it is a whole Borsh record (421 bytes). It
/// reports the base and quote put in (bytes 0..8 and 276..284), the base mint (8) before the
/// quote mint (284), the creator (73), the pool (163) and the creator's base, LP and quote token
/// accounts (325, 357, 389), each from its own place.
pub proof fn logged_create_pool_keeps_each_field_in_place(
    data: &[u8],
    metadata: EventMetadata,
    r: ParseResult<PumpSwapEvent>,
)
    requires
        call_ensures(parse_create_pool_inner_instruction, (data, metadata), r),
    ensures
        r is Ok <==> data@.len() == 421,
        r is Ok ==> (r matches Ok(PumpSwapEvent::CreatePool(e)) && e.base_amount_in == u64_at(data@, 0)
            && e.quote_amount_in == u64_at(data@, 276) && e.base_mint@ == key_at(data@, 8)
            && e.quote_mint@ == key_at(data@, 284) && e.creator@ == key_at(data@, 73)
            && e.pool@ == key_at(data@, 163) && e.user_base_token_account@ == key_at(data@, 325)
            && e.user_pool_token_account@ == key_at(data@, 357) && e.user_quote_token_account@ == key_at(data@, 389)),
{
}

} // verus!
