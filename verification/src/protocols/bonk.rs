use vstd::prelude::*;
use vstd::string::*;

use crate::borsh_records::{read_string, string_end, string_text};
use crate::common::{
    account_count_message, data_length_message, key_at, key_from, parse_swap_amounts,
    safe_get_account, u64_at, u64_field, validate_account_count, validate_data_length,
};
use crate::error::{fail, format_error, ParseError, ParseResult};
use crate::factory::{
    config_is, inner_metadata, instruction_metadata, push_ok, EventParseConfig,
    OwnedInnerInstructionParseParams, OwnedInstructionParseParams, SolanaTransactionInput,
};
use crate::text::{base58_decode, base58_decoding, base58_encoding, decimal, u128_to_decimal};
use crate::types::{
    metadata_is, renamed, with_id, zero_key, EventMetadata, EventType, ProtocolType,
    ProtocolTypeView, Pubkey,
};

pub mod discriminators;

use self::discriminators::{
    BUY_EXACT_IN_IX, BUY_EXACT_OUT_IX, INITIALIZE_IX, MIGRATE_TO_AMM_IX, MIGRATE_TO_CPSWAP_IX,
    SELL_EXACT_IN_IX, SELL_EXACT_OUT_IX,
};

verus! {

/// The Bonk program address (bonksoHKfNJJ8Wo8ZJjpw7dHGePNxS2z2WE5GxUPdSo).
pub const BONK_PROGRAM_ID_BYTES: [u8; 32] = [
    0x08, 0xea, 0xa6, 0xe2, 0x63, 0x2c, 0x10, 0x87, 0xf7, 0xa8, 0x30, 0x2d, 0x9d, 0xab, 0xef,
    0x03, 0xea, 0x10, 0x50, 0xc4, 0x9e, 0x6a, 0xd0, 0x94, 0x31, 0xe2, 0x01, 0xb6, 0x0e, 0xd4,
    0x87, 0x28,
];

/// The Bonk program address.
pub fn bonk_program_id() -> (k: Pubkey)
    ensures
        k@ == BONK_PROGRAM_ID_BYTES@,
{
    Pubkey(BONK_PROGRAM_ID_BYTES)
}

/// The direction of a trade.
#[derive(Debug, Clone, Copy, PartialEq, Eq, Structural)]
pub enum TradeDirection {
    Buy,
    Sell,
}

impl Default for TradeDirection {
    fn default() -> (r: TradeDirection)
        ensures
            r == TradeDirection::Buy,
    {
        TradeDirection::Buy
    }
}

/// The phase a pool is in.
#[derive(Debug, Clone, Copy, PartialEq, Eq, Structural)]
pub enum PoolStatus {
    Fund,
    Migrate,
    Trade,
}

impl Default for PoolStatus {
    fn default() -> (r: PoolStatus)
        ensures
            r == PoolStatus::Fund,
    {
        PoolStatus::Fund
    }
}

/// How a pool's token is minted.
#[derive(Debug, Clone, PartialEq, Eq)]
pub struct MintParams {
    pub decimals: u8,
    pub name: String,
    pub symbol: String,
    pub uri: String,
}

/// How a pool's tokens vest.
#[derive(Debug, Clone, Copy, PartialEq, Eq, Structural)]
pub struct VestingParams {
    pub cliff_period: u64,
    pub total_locked_amount: u64,
    pub unlock_period: u64,
}

/// A constant bonding curve.
#[derive(Debug, Clone, Copy, PartialEq, Eq, Structural)]
pub struct ConstantCurve {
    pub migrate_type: u8,
    pub supply: u64,
    pub total_base_sell: u64,
    pub total_quote_fund_raising: u64,
}

/// A fixed bonding curve.
#[derive(Debug, Clone, Copy, PartialEq, Eq, Structural)]
pub struct FixedCurve {
    pub migrate_type: u8,
    pub supply: u64,
    pub total_quote_fund_raising: u64,
}

/// A linear bonding curve.
#[derive(Debug, Clone, Copy, PartialEq, Eq, Structural)]
pub struct LinearCurve {
    pub migrate_type: u8,
    pub supply: u64,
    pub total_quote_fund_raising: u64,
}

/// The bonding curves a pool may have.
#[derive(Debug, Clone, Copy, PartialEq, Eq)]
pub struct CurveParams {
    pub constant_curve: Option<ConstantCurve>,
    pub fixed_curve: Option<FixedCurve>,
    pub linear_curve: Option<LinearCurve>,
}

/// A trade.
#[derive(Debug, Clone)]
pub struct TradeEvent {
    pub amount_in: u64,
    pub amount_out: u64,
    pub base_mint: Pubkey,
    pub metadata: EventMetadata,
    pub platform_fee: u64,
    pub pool_base_account: Pubkey,
    pub pool_quote_account: Pubkey,
    pub pool_state: Pubkey,
    pub protocol_fee: u64,
    pub quote_mint: Pubkey,
    pub real_base_after: u64,
    pub real_base_before: u64,
    pub real_quote_after: u64,
    pub real_quote_before: u64,
    pub share_fee: u64,
    pub signer: Pubkey,
    pub timestamp: u64,
    pub total_base_sell: u64,
    pub trade_direction: TradeDirection,
    pub user_base_account: Pubkey,
    pub user_quote_account: Pubkey,
    pub virtual_base: u64,
    pub virtual_quote: u64,
}

/// A pool creation or migration.
#[derive(Debug, Clone)]
pub struct PoolCreateEvent {
    pub base_mint: Pubkey,
    pub creator: Pubkey,
    pub curve_params: CurveParams,
    pub fee_recipient: Pubkey,
    pub metadata: EventMetadata,
    pub mint_params: MintParams,
    pub pool_state: Pubkey,
    pub pool_status: PoolStatus,
    pub quote_mint: Pubkey,
    pub timestamp: u64,
    pub total_base_supply: u64,
    pub vesting_params: VestingParams,
}

/// An event decoded from a Bonk instruction or log.
#[derive(Debug, Clone)]
pub enum BonkEvent {
    Trade(TradeEvent),
    PoolCreate(PoolCreateEvent),
}

// ---------------------------------------------------------------------------
// Logged trades: a fixed-length Borsh record
// ---------------------------------------------------------------------------

/// The length of the Borsh record of a trade.
pub const TRADE_RECORD_LEN: usize = 361;

/// The direction that a Borsh tag of 0 or 1 names.
pub open spec fn direction_of(tag: u8) -> TradeDirection {
    if tag == 0 {
        TradeDirection::Buy
    } else {
        TradeDirection::Sell
    }
}

/// Whether `data` is exactly a Borsh trade record: the right length and a direction tag of 0
/// or 1.
pub open spec fn trade_record_decodes(data: Seq<u8>) -> bool {
    data.len() == TRADE_RECORD_LEN && data[280] <= 1
}

/// Whether `e` holds the fields of the Borsh trade record in `data`.
pub open spec fn trade_record_layout(e: TradeEvent, data: Seq<u8>) -> bool {
    &&& e.amount_in == u64_at(data, 0)
    &&& e.amount_out == u64_at(data, 8)
    &&& e.base_mint@ == key_at(data, 16)
    &&& e.platform_fee == u64_at(data, 48)
    &&& e.pool_base_account@ == key_at(data, 56)
    &&& e.pool_quote_account@ == key_at(data, 88)
    &&& e.pool_state@ == key_at(data, 120)
    &&& e.protocol_fee == u64_at(data, 152)
    &&& e.quote_mint@ == key_at(data, 160)
    &&& e.real_base_after == u64_at(data, 192)
    &&& e.real_base_before == u64_at(data, 200)
    &&& e.real_quote_after == u64_at(data, 208)
    &&& e.real_quote_before == u64_at(data, 216)
    &&& e.share_fee == u64_at(data, 224)
    &&& e.signer@ == key_at(data, 232)
    &&& e.timestamp == u64_at(data, 264)
    &&& e.total_base_sell == u64_at(data, 272)
    &&& e.trade_direction == direction_of(data[280])
    &&& e.user_base_account@ == key_at(data, 281)
    &&& e.user_quote_account@ == key_at(data, 313)
    &&& e.virtual_base == u64_at(data, 345)
    &&& e.virtual_quote == u64_at(data, 353)
}

/// Whether an event type is one of the buys.
pub open spec fn is_buy_type(t: EventType) -> bool {
    t == EventType::BonkBuyExactIn || t == EventType::BonkBuyExactOut
}

/// Whether an event type is one of the sells.
pub open spec fn is_sell_type(t: EventType) -> bool {
    t == EventType::BonkSellExactIn || t == EventType::BonkSellExactOut
}

/// Whether a trade in direction `tag` may stand under an event of type `t`.
pub open spec fn direction_fits(t: EventType, tag: u8) -> bool {
    (is_buy_type(t) ==> tag == 0) && (is_sell_type(t) ==> tag == 1)
}

fn borsh_failure(msg: &str) -> (e: ParseError)
    ensures
        e is BorshError,
{
    ParseError::BorshError(String::from_str(msg))
}

/// Decodes a logged trade, which must point the way that the event type it is decoded for
/// names; the event keeps the metadata it is given.
pub fn parse_trade_inner_instruction(data: &[u8], metadata: EventMetadata) -> (r: ParseResult<BonkEvent>)
    ensures
        !trade_record_decodes(data@) ==> r is Err && r->Err_0 is BorshError,
        trade_record_decodes(data@) && is_buy_type(metadata.event_type) && data@[280] != 0
            ==> format_error(r, "Trade direction does not match expected buy direction"@),
        trade_record_decodes(data@) && is_sell_type(metadata.event_type) && data@[280] != 1
            ==> format_error(r, "Trade direction does not match expected sell direction"@),
        trade_record_decodes(data@) && direction_fits(metadata.event_type, data@[280]) ==> (r matches Ok(
            BonkEvent::Trade(e),
        ) && trade_record_layout(e, data@) && e.metadata == metadata),
{
    let len = data.len();
    if len < 281 {
        return Err(borsh_failure("Unexpected length of input"));
    }
    if data[280] > 1 {
        return Err(borsh_failure("Unexpected variant index"));
    }
    if len < TRADE_RECORD_LEN {
        return Err(borsh_failure("Unexpected length of input"));
    }
    if len > TRADE_RECORD_LEN {
        return Err(borsh_failure("Not all bytes read"));
    }
    let trade_direction = if data[280] == 0 {
        TradeDirection::Buy
    } else {
        TradeDirection::Sell
    };
    let t = metadata.event_type;
    if (t == EventType::BonkBuyExactIn || t == EventType::BonkBuyExactOut) && data[280] != 0 {
        return Err(fail("Trade direction does not match expected buy direction"));
    } else if (t == EventType::BonkSellExactIn || t == EventType::BonkSellExactOut) && data[280]
        != 1 {
        return Err(fail("Trade direction does not match expected sell direction"));
    }
    Ok(
        BonkEvent::Trade(
            TradeEvent {
                amount_in: u64_field(data, 0),
                amount_out: u64_field(data, 8),
                base_mint: key_from(data, 16),
                metadata,
                platform_fee: u64_field(data, 48),
                pool_base_account: key_from(data, 56),
                pool_quote_account: key_from(data, 88),
                pool_state: key_from(data, 120),
                protocol_fee: u64_field(data, 152),
                quote_mint: key_from(data, 160),
                real_base_after: u64_field(data, 192),
                real_base_before: u64_field(data, 200),
                real_quote_after: u64_field(data, 208),
                real_quote_before: u64_field(data, 216),
                share_fee: u64_field(data, 224),
                signer: key_from(data, 232),
                timestamp: u64_field(data, 264),
                total_base_sell: u64_field(data, 272),
                trade_direction,
                user_base_account: key_from(data, 281),
                user_quote_account: key_from(data, 313),
                virtual_base: u64_field(data, 345),
                virtual_quote: u64_field(data, 353),
            },
        ),
    )
}

/// A logged trade that decodes reports the direction that its Borsh tag (the byte at 280)
/// names: tag 0 is a buy and tag 1 a sell. So a record accepted under a buy event type
/// reports a buy, and one accepted under a sell event type reports a sell.
pub proof fn accepted_trade_reports_its_direction(
    data: &[u8],
    metadata: EventMetadata,
    r: ParseResult<BonkEvent>,
)
    requires
        call_ensures(parse_trade_inner_instruction, (data, metadata), r),
    ensures
        r is Ok ==> data@.len() == 361 && (data@[280] == 0 || data@[280] == 1),
        r matches Ok(BonkEvent::Trade(e)) ==> (e.trade_direction == TradeDirection::Buy <==> data@[280] == 0),
        r matches Ok(BonkEvent::Trade(e)) ==> (e.trade_direction == TradeDirection::Sell <==> data@[280] == 1),
        metadata.event_type == EventType::BonkBuyExactIn || metadata.event_type == EventType::BonkBuyExactOut
            ==> (r matches Ok(BonkEvent::Trade(e)) ==> e.trade_direction == TradeDirection::Buy),
        metadata.event_type == EventType::BonkSellExactIn || metadata.event_type == EventType::BonkSellExactOut
            ==> (r matches Ok(BonkEvent::Trade(e)) ==> e.trade_direction == TradeDirection::Sell),
        r matches Ok(BonkEvent::Trade(e)) ==> e.amount_in == u64_at(data@, 0) && e.amount_out == u64_at(data@, 8),
{
}

// ---------------------------------------------------------------------------
// Logged pool creations: a Borsh record with optional curves and strings
// ---------------------------------------------------------------------------

/// Where the variable-length parts of a Borsh pool creation record start.
pub struct PoolCreateLayout {
    pub fixed: int,
    pub linear: int,
    pub fee: int,
    pub symbol: int,
    pub uri: int,
    pub state: int,
}

/// Where the Borsh record of an optional curve ends, given the size of the curve.
pub open spec fn curve_end(data: Seq<u8>, off: int, size: int) -> Option<int> {
    crate::borsh_records::option_end(data, off, size)
}

/// The layout of a Borsh pool creation record, or `None` where `data` is not exactly one:
/// two addresses, three optional curves (of 25, 17 and 17 bytes), an address, the decimals,
/// three strings, an address, a status tag below 3, an address, two `u64`s and three more.
pub open spec fn pool_create_layout(data: Seq<u8>) -> Option<PoolCreateLayout> {
    match curve_end(data, 64, 25) {
        None => None,
        Some(fixed) => match curve_end(data, fixed, 17) {
            None => None,
            Some(linear) => match curve_end(data, linear, 17) {
                None => None,
                Some(fee) => match string_end(data, fee + 33) {
                    None => None,
                    Some(symbol) => match string_end(data, symbol) {
                        None => None,
                        Some(uri) => match string_end(data, uri) {
                            None => None,
                            Some(state) => if state + 105 == data.len() && data[state + 32] <= 2 {
                                Some(PoolCreateLayout { fixed, linear, fee, symbol, uri, state })
                            } else {
                                None
                            },
                        },
                    },
                },
            },
        },
    }
}

/// The constant curve whose optional record starts at `off`.
pub open spec fn constant_curve_at(data: Seq<u8>, off: int) -> Option<ConstantCurve> {
    if data[off] == 0 {
        None
    } else {
        Some(
            ConstantCurve {
                migrate_type: data[off + 1],
                supply: u64_at(data, off + 2),
                total_base_sell: u64_at(data, off + 10),
                total_quote_fund_raising: u64_at(data, off + 18),
            },
        )
    }
}

/// The fixed curve whose optional record starts at `off`.
pub open spec fn fixed_curve_at(data: Seq<u8>, off: int) -> Option<FixedCurve> {
    if data[off] == 0 {
        None
    } else {
        Some(
            FixedCurve {
                migrate_type: data[off + 1],
                supply: u64_at(data, off + 2),
                total_quote_fund_raising: u64_at(data, off + 10),
            },
        )
    }
}

/// The linear curve whose optional record starts at `off`.
pub open spec fn linear_curve_at(data: Seq<u8>, off: int) -> Option<LinearCurve> {
    if data[off] == 0 {
        None
    } else {
        Some(
            LinearCurve {
                migrate_type: data[off + 1],
                supply: u64_at(data, off + 2),
                total_quote_fund_raising: u64_at(data, off + 10),
            },
        )
    }
}

/// The status that a Borsh tag below 3 names.
pub open spec fn status_of(tag: u8) -> PoolStatus {
    if tag == 0 {
        PoolStatus::Fund
    } else if tag == 1 {
        PoolStatus::Migrate
    } else {
        PoolStatus::Trade
    }
}

/// Whether `e` holds the fields of the Borsh pool creation record in `data` laid out as `l`.
pub open spec fn pool_create_record_fields(e: PoolCreateEvent, data: Seq<u8>, l: PoolCreateLayout) -> bool {
    &&& e.base_mint@ == key_at(data, 0)
    &&& e.creator@ == key_at(data, 32)
    &&& e.curve_params.constant_curve == constant_curve_at(data, 64)
    &&& e.curve_params.fixed_curve == fixed_curve_at(data, l.fixed)
    &&& e.curve_params.linear_curve == linear_curve_at(data, l.linear)
    &&& e.fee_recipient@ == key_at(data, l.fee)
    &&& e.mint_params.decimals == data[l.fee + 32]
    &&& e.mint_params.name@ == string_text(data, l.fee + 33)
    &&& e.mint_params.symbol@ == string_text(data, l.symbol)
    &&& e.mint_params.uri@ == string_text(data, l.uri)
    &&& e.pool_state@ == key_at(data, l.state)
    &&& e.pool_status == status_of(data[l.state + 32])
    &&& e.quote_mint@ == key_at(data, l.state + 33)
    &&& e.timestamp == u64_at(data, l.state + 65)
    &&& e.total_base_supply == u64_at(data, l.state + 73)
    &&& e.vesting_params.cliff_period == u64_at(data, l.state + 81)
    &&& e.vesting_params.total_locked_amount == u64_at(data, l.state + 89)
    &&& e.vesting_params.unlock_period == u64_at(data, l.state + 97)
}

fn curve_end_at(data: &[u8], off: usize, size: usize) -> (r: Option<usize>)
    requires
        size <= 25,
    ensures
        r is Some <==> curve_end(data@, off as int, size as int) is Some,
        r matches Some(e) ==> e == curve_end(data@, off as int, size as int)->0,
{
    let len = data.len();
    if off >= len {
        None
    } else if data[off] == 0 {
        Some(off + 1)
    } else if data[off] == 1 && len - off - 1 >= size {
        Some(off + 1 + size)
    } else {
        None
    }
}

/// Decodes a logged pool creation; the event keeps the metadata it is given.
pub fn parse_pool_create_inner_instruction(data: &[u8], metadata: EventMetadata) -> (r: ParseResult<BonkEvent>)
    ensures
        pool_create_layout(data@) is None ==> r is Err && r->Err_0 is BorshError,
        pool_create_layout(data@) matches Some(l) ==> (r matches Ok(BonkEvent::PoolCreate(e))
            && pool_create_record_fields(e, data@, l) && e.metadata == metadata),
{
    let len = data.len();
    let fixed = match curve_end_at(data, 64, 25) {
        Some(e) => e,
        None => return Err(borsh_failure("Invalid Option representation")),
    };
    let linear = match curve_end_at(data, fixed, 17) {
        Some(e) => e,
        None => return Err(borsh_failure("Invalid Option representation")),
    };
    let fee = match curve_end_at(data, linear, 17) {
        Some(e) => e,
        None => return Err(borsh_failure("Invalid Option representation")),
    };
    if len - fee < 33 {
        return Err(borsh_failure("Unexpected length of input"));
    }
    let (name, symbol_at) = match read_string(data, fee + 33) {
        Some(v) => v,
        None => return Err(borsh_failure("Invalid string")),
    };
    let (symbol, uri_at) = match read_string(data, symbol_at) {
        Some(v) => v,
        None => return Err(borsh_failure("Invalid string")),
    };
    let (uri, state) = match read_string(data, uri_at) {
        Some(v) => v,
        None => return Err(borsh_failure("Invalid string")),
    };
    if len - state < 105 {
        return Err(borsh_failure("Unexpected length of input"));
    }
    if data[state + 32] > 2 {
        return Err(borsh_failure("Unexpected variant index"));
    }
    if len - state > 105 {
        return Err(borsh_failure("Not all bytes read"));
    }
    let constant_curve = if data[64] == 0 {
        None
    } else {
        Some(
            ConstantCurve {
                migrate_type: data[65],
                supply: u64_field(data, 66),
                total_base_sell: u64_field(data, 74),
                total_quote_fund_raising: u64_field(data, 82),
            },
        )
    };
    let fixed_curve = if data[fixed] == 0 {
        None
    } else {
        Some(
            FixedCurve {
                migrate_type: data[fixed + 1],
                supply: u64_field(data, fixed + 2),
                total_quote_fund_raising: u64_field(data, fixed + 10),
            },
        )
    };
    let linear_curve = if data[linear] == 0 {
        None
    } else {
        Some(
            LinearCurve {
                migrate_type: data[linear + 1],
                supply: u64_field(data, linear + 2),
                total_quote_fund_raising: u64_field(data, linear + 10),
            },
        )
    };
    let pool_status = if data[state + 32] == 0 {
        PoolStatus::Fund
    } else if data[state + 32] == 1 {
        PoolStatus::Migrate
    } else {
        PoolStatus::Trade
    };
    Ok(
        BonkEvent::PoolCreate(
            PoolCreateEvent {
                base_mint: key_from(data, 0),
                creator: key_from(data, 32),
                curve_params: CurveParams { constant_curve, fixed_curve, linear_curve },
                fee_recipient: key_from(data, fee),
                metadata,
                mint_params: MintParams { decimals: data[fee + 32], name, symbol, uri },
                pool_state: key_from(data, state),
                pool_status,
                quote_mint: key_from(data, state + 33),
                timestamp: u64_field(data, state + 65),
                total_base_supply: u64_field(data, state + 73),
                vesting_params: VestingParams {
                    cliff_period: u64_field(data, state + 81),
                    total_locked_amount: u64_field(data, state + 89),
                    unlock_period: u64_field(data, state + 97),
                },
            },
        ),
    )
}

// ---------------------------------------------------------------------------
// Instructions
// ---------------------------------------------------------------------------

/// Whether `e` is the trade that a trade instruction's two amounts and first eight accounts
/// describe, in direction `direction`; what only the program's log reports is zero.
pub open spec fn trade_instruction_fields(
    e: TradeEvent,
    data: Seq<u8>,
    accounts: Seq<Pubkey>,
    direction: TradeDirection,
) -> bool {
    &&& e.amount_in == u64_at(data, 0)
    &&& e.amount_out == u64_at(data, 8)
    &&& e.trade_direction == direction
    &&& e.pool_state@ == accounts[0]@
    &&& e.signer@ == accounts[1]@
    &&& e.user_base_account@ == accounts[2]@
    &&& e.user_quote_account@ == accounts[3]@
    &&& e.pool_base_account@ == accounts[4]@
    &&& e.pool_quote_account@ == accounts[5]@
    &&& e.base_mint@ == accounts[6]@
    &&& e.quote_mint@ == accounts[7]@
    &&& e.platform_fee == 0
    &&& e.protocol_fee == 0
    &&& e.real_base_after == 0
    &&& e.real_base_before == 0
    &&& e.real_quote_after == 0
    &&& e.real_quote_before == 0
    &&& e.share_fee == 0
    &&& e.timestamp == 0
    &&& e.total_base_sell == 0
    &&& e.virtual_base == 0
    &&& e.virtual_quote == 0
}

/// Whether `e` is the pool that a pool instruction's accounts describe: the pool, its creator
/// and its two mints; everything else is empty or zero.
pub open spec fn pool_instruction_fields(e: PoolCreateEvent, accounts: Seq<Pubkey>) -> bool {
    &&& e.pool_state@ == accounts[0]@
    &&& e.creator@ == accounts[1]@
    &&& e.base_mint@ == accounts[3]@
    &&& e.quote_mint@ == accounts[4]@
    &&& e.curve_params.constant_curve is None
    &&& e.curve_params.fixed_curve is None
    &&& e.curve_params.linear_curve is None
    &&& e.fee_recipient@ == zero_key()
    &&& e.mint_params.decimals == 0
    &&& e.mint_params.name@.len() == 0
    &&& e.mint_params.symbol@.len() == 0
    &&& e.mint_params.uri@.len() == 0
    &&& e.pool_status == PoolStatus::Fund
    &&& e.timestamp == 0
    &&& e.total_base_supply == 0
    &&& e.vesting_params.cliff_period == 0
    &&& e.vesting_params.total_locked_amount == 0
    &&& e.vesting_params.unlock_period == 0
}

/// Decodes an exact-input buy: two amounts and at least ten accounts; the identifier names the pool and both amounts.
pub fn parse_buy_exact_in_instruction(data: &[u8], accounts: &[Pubkey], metadata: EventMetadata) -> (r: ParseResult<BonkEvent>)
    ensures
        data@.len() < 16 ==> format_error(r, data_length_message("Bonk buy exact in instruction"@, 16, data@.len())),
        data@.len() >= 16 && accounts@.len() < 10 ==> format_error(
            r,
            account_count_message("Bonk buy exact in instruction"@, 10, accounts@.len()),
        ),
        data@.len() >= 16 && accounts@.len() >= 10 ==> (r matches Ok(BonkEvent::Trade(e))
            && trade_instruction_fields(e, data@, accounts@, TradeDirection::Buy) && renamed(
            e.metadata,
            metadata,
            metadata.signature@ + "-"@ + base58_encoding(accounts@[0]@) + "-"@ + decimal(
                u64_at(data@, 0) as nat,
            ) + "-"@ + decimal(u64_at(data@, 8) as nat),
        )),
{
    validate_data_length(data, 16, "Bonk buy exact in instruction")?;
    validate_account_count(accounts, 10, "Bonk buy exact in instruction")?;
    let (amount_in, minimum_amount_out) = parse_swap_amounts(data)?;
    let pool_state = safe_get_account(accounts, 0)?;
    let signer = safe_get_account(accounts, 1)?;
    let user_base_account = safe_get_account(accounts, 2)?;
    let user_quote_account = safe_get_account(accounts, 3)?;
    let pool_base_account = safe_get_account(accounts, 4)?;
    let pool_quote_account = safe_get_account(accounts, 5)?;
    let base_mint = safe_get_account(accounts, 6)?;
    let quote_mint = safe_get_account(accounts, 7)?;
    proof {
        reveal_strlit("-");
    }
    let mut id = metadata.signature.clone();
    id.append("-");
    let pool_text = pool_state.to_base58();
    id.append(pool_text.as_str());
    id.append("-");
    let first = u128_to_decimal(amount_in as u128);
    id.append(first.as_str());
    id.append("-");
    let second = u128_to_decimal(minimum_amount_out as u128);
    id.append(second.as_str());
    let metadata = with_id(metadata, id);
    Ok(
        BonkEvent::Trade(
            TradeEvent {
                amount_in: amount_in,
                amount_out: minimum_amount_out,
                base_mint,
                metadata,
                platform_fee: 0,
                pool_base_account,
                pool_quote_account,
                pool_state,
                protocol_fee: 0,
                quote_mint,
                real_base_after: 0,
                real_base_before: 0,
                real_quote_after: 0,
                real_quote_before: 0,
                share_fee: 0,
                signer,
                timestamp: 0,
                total_base_sell: 0,
                trade_direction: TradeDirection::Buy,
                user_base_account,
                user_quote_account,
                virtual_base: 0,
                virtual_quote: 0,
            },
        ),
    )
}

/// Decodes an exact-output buy: two amounts and at least ten accounts; the event keeps the metadata it is given.
pub fn parse_buy_exact_out_instruction(data: &[u8], accounts: &[Pubkey], metadata: EventMetadata) -> (r: ParseResult<BonkEvent>)
    ensures
        data@.len() < 16 ==> format_error(r, data_length_message("Bonk buy exact out instruction"@, 16, data@.len())),
        data@.len() >= 16 && accounts@.len() < 10 ==> format_error(
            r,
            account_count_message("Bonk buy exact out instruction"@, 10, accounts@.len()),
        ),
        data@.len() >= 16 && accounts@.len() >= 10 ==> (r matches Ok(BonkEvent::Trade(e))
            && trade_instruction_fields(e, data@, accounts@, TradeDirection::Buy) && e.metadata == metadata),
{
    validate_data_length(data, 16, "Bonk buy exact out instruction")?;
    validate_account_count(accounts, 10, "Bonk buy exact out instruction")?;
    let (maximum_amount_in, amount_out) = parse_swap_amounts(data)?;
    let pool_state = safe_get_account(accounts, 0)?;
    let signer = safe_get_account(accounts, 1)?;
    let user_base_account = safe_get_account(accounts, 2)?;
    let user_quote_account = safe_get_account(accounts, 3)?;
    let pool_base_account = safe_get_account(accounts, 4)?;
    let pool_quote_account = safe_get_account(accounts, 5)?;
    let base_mint = safe_get_account(accounts, 6)?;
    let quote_mint = safe_get_account(accounts, 7)?;
    Ok(
        BonkEvent::Trade(
            TradeEvent {
                amount_in: maximum_amount_in,
                amount_out: amount_out,
                base_mint,
                metadata,
                platform_fee: 0,
                pool_base_account,
                pool_quote_account,
                pool_state,
                protocol_fee: 0,
                quote_mint,
                real_base_after: 0,
                real_base_before: 0,
                real_quote_after: 0,
                real_quote_before: 0,
                share_fee: 0,
                signer,
                timestamp: 0,
                total_base_sell: 0,
                trade_direction: TradeDirection::Buy,
                user_base_account,
                user_quote_account,
                virtual_base: 0,
                virtual_quote: 0,
            },
        ),
    )
}

/// Decodes an exact-input sell: two amounts and at least ten accounts; the identifier names the pool and both amounts.
pub fn parse_sell_exact_in_instruction(data: &[u8], accounts: &[Pubkey], metadata: EventMetadata) -> (r: ParseResult<BonkEvent>)
    ensures
        data@.len() < 16 ==> format_error(r, data_length_message("sell exact in instruction"@, 16, data@.len())),
        data@.len() >= 16 && accounts@.len() < 10 ==> format_error(
            r,
            account_count_message("sell exact in instruction"@, 10, accounts@.len()),
        ),
        data@.len() >= 16 && accounts@.len() >= 10 ==> (r matches Ok(BonkEvent::Trade(e))
            && trade_instruction_fields(e, data@, accounts@, TradeDirection::Sell) && renamed(
            e.metadata,
            metadata,
            metadata.signature@ + "-"@ + base58_encoding(accounts@[0]@) + "-"@ + decimal(
                u64_at(data@, 0) as nat,
            ) + "-"@ + decimal(u64_at(data@, 8) as nat),
        )),
{
    validate_data_length(data, 16, "sell exact in instruction")?;
    validate_account_count(accounts, 10, "sell exact in instruction")?;
    let (amount_in, minimum_amount_out) = parse_swap_amounts(data)?;
    let pool_state = safe_get_account(accounts, 0)?;
    let signer = safe_get_account(accounts, 1)?;
    let user_base_account = safe_get_account(accounts, 2)?;
    let user_quote_account = safe_get_account(accounts, 3)?;
    let pool_base_account = safe_get_account(accounts, 4)?;
    let pool_quote_account = safe_get_account(accounts, 5)?;
    let base_mint = safe_get_account(accounts, 6)?;
    let quote_mint = safe_get_account(accounts, 7)?;
    proof {
        reveal_strlit("-");
    }
    let mut id = metadata.signature.clone();
    id.append("-");
    let pool_text = pool_state.to_base58();
    id.append(pool_text.as_str());
    id.append("-");
    let first = u128_to_decimal(amount_in as u128);
    id.append(first.as_str());
    id.append("-");
    let second = u128_to_decimal(minimum_amount_out as u128);
    id.append(second.as_str());
    let metadata = with_id(metadata, id);
    Ok(
        BonkEvent::Trade(
            TradeEvent {
                amount_in: amount_in,
                amount_out: minimum_amount_out,
                base_mint,
                metadata,
                platform_fee: 0,
                pool_base_account,
                pool_quote_account,
                pool_state,
                protocol_fee: 0,
                quote_mint,
                real_base_after: 0,
                real_base_before: 0,
                real_quote_after: 0,
                real_quote_before: 0,
                share_fee: 0,
                signer,
                timestamp: 0,
                total_base_sell: 0,
                trade_direction: TradeDirection::Sell,
                user_base_account,
                user_quote_account,
                virtual_base: 0,
                virtual_quote: 0,
            },
        ),
    )
}

/// Decodes an exact-output sell: two amounts and at least ten accounts; the identifier names the pool and both amounts.
pub fn parse_sell_exact_out_instruction(data: &[u8], accounts: &[Pubkey], metadata: EventMetadata) -> (r: ParseResult<BonkEvent>)
    ensures
        data@.len() < 16 ==> format_error(r, data_length_message("sell exact out instruction"@, 16, data@.len())),
        data@.len() >= 16 && accounts@.len() < 10 ==> format_error(
            r,
            account_count_message("sell exact out instruction"@, 10, accounts@.len()),
        ),
        data@.len() >= 16 && accounts@.len() >= 10 ==> (r matches Ok(BonkEvent::Trade(e))
            && trade_instruction_fields(e, data@, accounts@, TradeDirection::Sell) && renamed(
            e.metadata,
            metadata,
            metadata.signature@ + "-"@ + base58_encoding(accounts@[0]@) + "-"@ + decimal(
                u64_at(data@, 0) as nat,
            ) + "-"@ + decimal(u64_at(data@, 8) as nat),
        )),
{
    validate_data_length(data, 16, "sell exact out instruction")?;
    validate_account_count(accounts, 10, "sell exact out instruction")?;
    let (maximum_amount_in, amount_out) = parse_swap_amounts(data)?;
    let pool_state = safe_get_account(accounts, 0)?;
    let signer = safe_get_account(accounts, 1)?;
    let user_base_account = safe_get_account(accounts, 2)?;
    let user_quote_account = safe_get_account(accounts, 3)?;
    let pool_base_account = safe_get_account(accounts, 4)?;
    let pool_quote_account = safe_get_account(accounts, 5)?;
    let base_mint = safe_get_account(accounts, 6)?;
    let quote_mint = safe_get_account(accounts, 7)?;
    proof {
        reveal_strlit("-");
    }
    let mut id = metadata.signature.clone();
    id.append("-");
    let pool_text = pool_state.to_base58();
    id.append(pool_text.as_str());
    id.append("-");
    let first = u128_to_decimal(maximum_amount_in as u128);
    id.append(first.as_str());
    id.append("-");
    let second = u128_to_decimal(amount_out as u128);
    id.append(second.as_str());
    let metadata = with_id(metadata, id);
    Ok(
        BonkEvent::Trade(
            TradeEvent {
                amount_in: maximum_amount_in,
                amount_out: amount_out,
                base_mint,
                metadata,
                platform_fee: 0,
                pool_base_account,
                pool_quote_account,
                pool_state,
                protocol_fee: 0,
                quote_mint,
                real_base_after: 0,
                real_base_before: 0,
                real_quote_after: 0,
                real_quote_before: 0,
                share_fee: 0,
                signer,
                timestamp: 0,
                total_base_sell: 0,
                trade_direction: TradeDirection::Sell,
                user_base_account,
                user_quote_account,
                virtual_base: 0,
                virtual_quote: 0,
            },
        ),
    )
}

fn pool_from_accounts(
    pool_state: Pubkey,
    creator: Pubkey,
    base_mint: Pubkey,
    quote_mint: Pubkey,
    metadata: EventMetadata,
) -> (e: PoolCreateEvent)
    ensures
        e.pool_state == pool_state,
        e.creator == creator,
        e.base_mint == base_mint,
        e.quote_mint == quote_mint,
        e.metadata == metadata,
        e.curve_params.constant_curve is None,
        e.curve_params.fixed_curve is None,
        e.curve_params.linear_curve is None,
        e.fee_recipient@ == zero_key(),
        e.mint_params.decimals == 0,
        e.mint_params.name@.len() == 0,
        e.mint_params.symbol@.len() == 0,
        e.mint_params.uri@.len() == 0,
        e.pool_status == PoolStatus::Fund,
        e.timestamp == 0,
        e.total_base_supply == 0,
        e.vesting_params.cliff_period == 0,
        e.vesting_params.total_locked_amount == 0,
        e.vesting_params.unlock_period == 0,
{
    PoolCreateEvent {
        base_mint,
        creator,
        curve_params: CurveParams { constant_curve: None, fixed_curve: None, linear_curve: None },
        fee_recipient: Pubkey::default(),
        metadata,
        mint_params: MintParams {
            decimals: 0,
            name: String::new(),
            symbol: String::new(),
            uri: String::new(),
        },
        pool_state,
        pool_status: PoolStatus::Fund,
        quote_mint,
        timestamp: 0,
        total_base_supply: 0,
        vesting_params: VestingParams { cliff_period: 0, total_locked_amount: 0, unlock_period: 0 },
    }
}

/// Decodes a pool initialization from its accounts alone, at least eight of them; the event
/// keeps the metadata it is given.
pub fn parse_initialize_instruction(data: &[u8], accounts: &[Pubkey], metadata: EventMetadata) -> (r: ParseResult<BonkEvent>)
    ensures
        accounts@.len() < 8 ==> format_error(
            r,
            account_count_message("Bonk initialize instruction"@, 8, accounts@.len()),
        ),
        accounts@.len() >= 8 ==> (r matches Ok(BonkEvent::PoolCreate(e)) && pool_instruction_fields(
            e,
            accounts@,
        ) && e.metadata == metadata),
{
    validate_account_count(accounts, 8, "Bonk initialize instruction")?;
    let pool_state = safe_get_account(accounts, 0)?;
    let creator = safe_get_account(accounts, 1)?;
    let base_mint = safe_get_account(accounts, 3)?;
    let quote_mint = safe_get_account(accounts, 4)?;
    Ok(BonkEvent::PoolCreate(pool_from_accounts(pool_state, creator, base_mint, quote_mint, metadata)))
}

/// Decodes a migration to the AMM from its accounts alone, at least five of them; the identifier names the
/// pool.
pub fn parse_migrate_to_amm_instruction(data: &[u8], accounts: &[Pubkey], metadata: EventMetadata) -> (r: ParseResult<BonkEvent>)
    ensures
        accounts@.len() < 5 ==> format_error(
            r,
            account_count_message("migrate to AMM instruction"@, 5, accounts@.len()),
        ),
        accounts@.len() >= 5 ==> (r matches Ok(BonkEvent::PoolCreate(e)) && pool_instruction_fields(
            e,
            accounts@,
        ) && renamed(
            e.metadata,
            metadata,
            metadata.signature@ + "-"@ + base58_encoding(accounts@[0]@),
        )),
{
    validate_account_count(accounts, 5, "migrate to AMM instruction")?;
    let pool_state = safe_get_account(accounts, 0)?;
    proof {
        reveal_strlit("-");
    }
    let mut id = metadata.signature.clone();
    id.append("-");
    let pool_text = pool_state.to_base58();
    id.append(pool_text.as_str());
    let metadata = with_id(metadata, id);
    let creator = safe_get_account(accounts, 1)?;
    let base_mint = safe_get_account(accounts, 3)?;
    let quote_mint = safe_get_account(accounts, 4)?;
    Ok(BonkEvent::PoolCreate(pool_from_accounts(pool_state, creator, base_mint, quote_mint, metadata)))
}

/// Decodes a migration to CPSwap from its accounts alone, at least five of them; the identifier names the
/// pool.
pub fn parse_migrate_to_cpswap_instruction(data: &[u8], accounts: &[Pubkey], metadata: EventMetadata) -> (r: ParseResult<BonkEvent>)
    ensures
        accounts@.len() < 5 ==> format_error(
            r,
            account_count_message("migrate to CPSWAP instruction"@, 5, accounts@.len()),
        ),
        accounts@.len() >= 5 ==> (r matches Ok(BonkEvent::PoolCreate(e)) && pool_instruction_fields(
            e,
            accounts@,
        ) && renamed(
            e.metadata,
            metadata,
            metadata.signature@ + "-"@ + base58_encoding(accounts@[0]@),
        )),
{
    validate_account_count(accounts, 5, "migrate to CPSWAP instruction")?;
    let pool_state = safe_get_account(accounts, 0)?;
    proof {
        reveal_strlit("-");
    }
    let mut id = metadata.signature.clone();
    id.append("-");
    let pool_text = pool_state.to_base58();
    id.append(pool_text.as_str());
    let metadata = with_id(metadata, id);
    let creator = safe_get_account(accounts, 1)?;
    let base_mint = safe_get_account(accounts, 3)?;
    let quote_mint = safe_get_account(accounts, 4)?;
    Ok(BonkEvent::PoolCreate(pool_from_accounts(pool_state, creator, base_mint, quote_mint, metadata)))
}

// ---------------------------------------------------------------------------
// The parser: a table from discriminators to decoders
// ---------------------------------------------------------------------------

/// Whether `m` is the metadata of an event decoded through the table from the instruction
/// `p`, under identifier `id` and event type `event_type`.
pub open spec fn bonk_instruction_metadata(
    m: EventMetadata,
    p: OwnedInstructionParseParams,
    id: Seq<char>,
    event_type: EventType,
) -> bool {
    metadata_is(
        m,
        id,
        p.signature@,
        p.slot,
        p.block_time,
        p.program_received_time_ms,
        p.index@,
        event_type,
        ProtocolTypeView::Bonk,
    )
}

/// What the table makes of a top-level instruction. It is keyed by the whole instruction
/// data, so only data equal to a discriminator reaches a decoder; eight bytes hold no trade
/// amounts, and only the pool instructions, which read accounts alone, can give an event.
pub open spec fn bonk_instruction_events(events: Seq<BonkEvent>, p: OwnedInstructionParseParams) -> bool {
    let d = p.instruction_data@;
    let a = p.accounts@;
    let table_id = p.signature@ + "_"@ + p.index@;
    let pool_id = p.signature@ + "-"@ + base58_encoding(a[0]@);
    if d == INITIALIZE_IX@ && a.len() >= 8 {
        &&& events.len() == 1
        &&& events[0] matches BonkEvent::PoolCreate(e)
        &&& pool_instruction_fields(e, a)
        &&& bonk_instruction_metadata(e.metadata, p, table_id, EventType::BonkInitialize)
    } else if d == MIGRATE_TO_AMM_IX@ && a.len() >= 5 {
        &&& events.len() == 1
        &&& events[0] matches BonkEvent::PoolCreate(e)
        &&& pool_instruction_fields(e, a)
        &&& bonk_instruction_metadata(e.metadata, p, pool_id, EventType::BonkMigrateToAmm)
    } else if d == MIGRATE_TO_CPSWAP_IX@ && a.len() >= 5 {
        &&& events.len() == 1
        &&& events[0] matches BonkEvent::PoolCreate(e)
        &&& pool_instruction_fields(e, a)
        &&& bonk_instruction_metadata(e.metadata, p, pool_id, EventType::BonkMigrateToCpswap)
    } else {
        events.len() == 0
    }
}

/// Whether `m` is the metadata of an event decoded through the table from the inner
/// instruction `p` under event type `event_type`.
pub open spec fn bonk_log_metadata(
    m: EventMetadata,
    p: OwnedInnerInstructionParseParams,
    event_type: EventType,
) -> bool {
    metadata_is(
        m,
        p.signature@ + "_"@ + p.index@,
        p.signature@,
        p.slot,
        p.block_time,
        p.program_received_time_ms,
        p.index@,
        event_type,
        ProtocolTypeView::Bonk,
    )
}

/// Whether `ev` is the logged trade in `bytes`, decoded for event type `event_type`.
pub open spec fn is_trade_log(
    ev: BonkEvent,
    bytes: Seq<u8>,
    p: OwnedInnerInstructionParseParams,
    event_type: EventType,
) -> bool {
    ev matches BonkEvent::Trade(e) && trade_record_layout(e, bytes) && bonk_log_metadata(
        e.metadata,
        p,
        event_type,
    )
}

/// Whether `ev` is the logged pool creation in `bytes`, laid out as `l`, decoded for event
/// type `event_type`.
pub open spec fn is_pool_log(
    ev: BonkEvent,
    bytes: Seq<u8>,
    l: PoolCreateLayout,
    p: OwnedInnerInstructionParseParams,
    event_type: EventType,
) -> bool {
    ev matches BonkEvent::PoolCreate(e) && pool_create_record_fields(e, bytes, l)
        && bonk_log_metadata(e.metadata, p, event_type)
}

/// What the table makes of the decoded bytes of an inner instruction: the trade decoder runs
/// for each of the four trade types, and the pool decoder for each of the three pool types. A
/// trade record gives two events, those of the types that its direction fits; a pool creation
/// record gives three.
pub open spec fn bonk_log_events(
    events: Seq<BonkEvent>,
    bytes: Seq<u8>,
    p: OwnedInnerInstructionParseParams,
) -> bool {
    let t: int = if trade_record_decodes(bytes) {
        2
    } else {
        0
    };
    let buy = bytes[280] == 0;
    let first = if buy {
        EventType::BonkBuyExactIn
    } else {
        EventType::BonkSellExactIn
    };
    let second = if buy {
        EventType::BonkBuyExactOut
    } else {
        EventType::BonkSellExactOut
    };
    &&& t == 2 ==> is_trade_log(events[0], bytes, p, first) && is_trade_log(
        events[1],
        bytes,
        p,
        second,
    )
    &&& match pool_create_layout(bytes) {
        Some(l) => {
            &&& events.len() == t + 3
            &&& is_pool_log(events[t], bytes, l, p, EventType::BonkInitialize)
            &&& is_pool_log(events[t + 1], bytes, l, p, EventType::BonkMigrateToAmm)
            &&& is_pool_log(events[t + 2], bytes, l, p, EventType::BonkMigrateToCpswap)
        },
        None => events.len() == t,
    }
}

/// What the table makes of an inner instruction: its data is base58 text, and text that does
/// not decode gives no event.
pub open spec fn bonk_inner_events(events: Seq<BonkEvent>, p: OwnedInnerInstructionParseParams) -> bool {
    match base58_decoding(p.inner_instruction_data@) {
        Some(bytes) => bonk_log_events(events, bytes, p),
        None => events.len() == 0,
    }
}

fn is_exactly(data: &[u8], disc: &[u8; 8]) -> (r: bool)
    ensures
        r == (data@ == disc@),
{
    if data.len() != 8 {
        return false;
    }
    let r = crate::common::has_discriminator(data, disc.as_slice());
    proof {
        assert(data@.subrange(0, 8) =~= data@);
    }
    r
}

/// The decoders that the Bonk tables hand an instruction or its log to.
#[derive(Debug, Clone, Copy, PartialEq, Eq, Structural)]
pub enum BonkDecoder {
    BuyExactIn,
    BuyExactOut,
    SellExactIn,
    SellExactOut,
    Initialize,
    MigrateToAmm,
    MigrateToCpswap,
}

/// Whether `c` is entry `i` of the Bonk tables, in the order in which they list them.
pub open spec fn bonk_config(c: EventParseConfig<BonkDecoder>, i: int) -> bool {
    let program = BONK_PROGRAM_ID_BYTES@;
    if i == 0 {
        config_is(c, BonkDecoder::BuyExactIn, EventType::BonkBuyExactIn, discriminators::TRADE_EVENT@, BUY_EXACT_IN_IX@, program, ProtocolTypeView::Bonk)
    } else if i == 1 {
        config_is(c, BonkDecoder::BuyExactOut, EventType::BonkBuyExactOut, discriminators::TRADE_EVENT@, BUY_EXACT_OUT_IX@, program, ProtocolTypeView::Bonk)
    } else if i == 2 {
        config_is(c, BonkDecoder::SellExactIn, EventType::BonkSellExactIn, discriminators::TRADE_EVENT@, SELL_EXACT_IN_IX@, program, ProtocolTypeView::Bonk)
    } else if i == 3 {
        config_is(c, BonkDecoder::SellExactOut, EventType::BonkSellExactOut, discriminators::TRADE_EVENT@, SELL_EXACT_OUT_IX@, program, ProtocolTypeView::Bonk)
    } else if i == 4 {
        config_is(c, BonkDecoder::Initialize, EventType::BonkInitialize, discriminators::POOL_CREATE_EVENT@, INITIALIZE_IX@, program, ProtocolTypeView::Bonk)
    } else if i == 5 {
        config_is(c, BonkDecoder::MigrateToAmm, EventType::BonkMigrateToAmm, discriminators::POOL_CREATE_EVENT@, MIGRATE_TO_AMM_IX@, program, ProtocolTypeView::Bonk)
    } else {
        config_is(c, BonkDecoder::MigrateToCpswap, EventType::BonkMigrateToCpswap, discriminators::POOL_CREATE_EVENT@, MIGRATE_TO_CPSWAP_IX@, program, ProtocolTypeView::Bonk)
    }
}

fn bonk_entry(i: usize) -> (c: EventParseConfig<BonkDecoder>)
    requires
        i < 7,
    ensures
        bonk_config(c, i as int),
{
    let program = bonk_program_id();
    if i == 0 {
        EventParseConfig::new(BonkDecoder::BuyExactIn, EventType::BonkBuyExactIn, discriminators::TRADE_EVENT, BUY_EXACT_IN_IX.as_slice(), program, ProtocolType::Bonk)
    } else if i == 1 {
        EventParseConfig::new(BonkDecoder::BuyExactOut, EventType::BonkBuyExactOut, discriminators::TRADE_EVENT, BUY_EXACT_OUT_IX.as_slice(), program, ProtocolType::Bonk)
    } else if i == 2 {
        EventParseConfig::new(BonkDecoder::SellExactIn, EventType::BonkSellExactIn, discriminators::TRADE_EVENT, SELL_EXACT_IN_IX.as_slice(), program, ProtocolType::Bonk)
    } else if i == 3 {
        EventParseConfig::new(BonkDecoder::SellExactOut, EventType::BonkSellExactOut, discriminators::TRADE_EVENT, SELL_EXACT_OUT_IX.as_slice(), program, ProtocolType::Bonk)
    } else if i == 4 {
        EventParseConfig::new(BonkDecoder::Initialize, EventType::BonkInitialize, discriminators::POOL_CREATE_EVENT, INITIALIZE_IX.as_slice(), program, ProtocolType::Bonk)
    } else if i == 5 {
        EventParseConfig::new(BonkDecoder::MigrateToAmm, EventType::BonkMigrateToAmm, discriminators::POOL_CREATE_EVENT, MIGRATE_TO_AMM_IX.as_slice(), program, ProtocolType::Bonk)
    } else {
        EventParseConfig::new(BonkDecoder::MigrateToCpswap, EventType::BonkMigrateToCpswap, discriminators::POOL_CREATE_EVENT, MIGRATE_TO_CPSWAP_IX.as_slice(), program, ProtocolType::Bonk)
    }
}

fn parse_table_instruction(p: &OwnedInstructionParseParams) -> (r: Vec<BonkEvent>)
    ensures
        bonk_instruction_events(r@, *p),
{
    let data = p.instruction_data.as_slice();
    let accounts = p.accounts.as_slice();
    let mut out: Vec<BonkEvent> = Vec::new();
    if is_exactly(data, &BUY_EXACT_IN_IX) {
        let m = instruction_metadata(p, EventType::BonkBuyExactIn, ProtocolType::Bonk);
        push_ok(&mut out, parse_buy_exact_in_instruction(data, accounts, m));
    } else if is_exactly(data, &BUY_EXACT_OUT_IX) {
        let m = instruction_metadata(p, EventType::BonkBuyExactOut, ProtocolType::Bonk);
        push_ok(&mut out, parse_buy_exact_out_instruction(data, accounts, m));
    } else if is_exactly(data, &SELL_EXACT_IN_IX) {
        let m = instruction_metadata(p, EventType::BonkSellExactIn, ProtocolType::Bonk);
        push_ok(&mut out, parse_sell_exact_in_instruction(data, accounts, m));
    } else if is_exactly(data, &SELL_EXACT_OUT_IX) {
        let m = instruction_metadata(p, EventType::BonkSellExactOut, ProtocolType::Bonk);
        push_ok(&mut out, parse_sell_exact_out_instruction(data, accounts, m));
    } else if is_exactly(data, &INITIALIZE_IX) {
        let m = instruction_metadata(p, EventType::BonkInitialize, ProtocolType::Bonk);
        push_ok(&mut out, parse_initialize_instruction(data, accounts, m));
    } else if is_exactly(data, &MIGRATE_TO_AMM_IX) {
        let m = instruction_metadata(p, EventType::BonkMigrateToAmm, ProtocolType::Bonk);
        push_ok(&mut out, parse_migrate_to_amm_instruction(data, accounts, m));
    } else if is_exactly(data, &MIGRATE_TO_CPSWAP_IX) {
        let m = instruction_metadata(p, EventType::BonkMigrateToCpswap, ProtocolType::Bonk);
        push_ok(&mut out, parse_migrate_to_cpswap_instruction(data, accounts, m));
    }
    proof {
        reveal_strlit("-");
    }
    out
}

fn parse_table_inner_instruction(p: &OwnedInnerInstructionParseParams) -> (r: Vec<BonkEvent>)
    ensures
        bonk_inner_events(r@, *p),
{
    let mut out: Vec<BonkEvent> = Vec::new();
    match base58_decode(p.inner_instruction_data.as_str()) {
        Ok(bytes) => {
            let data = bytes.as_slice();
            let m = inner_metadata(p, EventType::BonkBuyExactIn, ProtocolType::Bonk);
            push_ok(&mut out, parse_trade_inner_instruction(data, m));
            let m = inner_metadata(p, EventType::BonkBuyExactOut, ProtocolType::Bonk);
            push_ok(&mut out, parse_trade_inner_instruction(data, m));
            let m = inner_metadata(p, EventType::BonkSellExactIn, ProtocolType::Bonk);
            push_ok(&mut out, parse_trade_inner_instruction(data, m));
            let m = inner_metadata(p, EventType::BonkSellExactOut, ProtocolType::Bonk);
            push_ok(&mut out, parse_trade_inner_instruction(data, m));
            let m = inner_metadata(p, EventType::BonkInitialize, ProtocolType::Bonk);
            push_ok(&mut out, parse_pool_create_inner_instruction(data, m));
            let m = inner_metadata(p, EventType::BonkMigrateToAmm, ProtocolType::Bonk);
            push_ok(&mut out, parse_pool_create_inner_instruction(data, m));
            let m = inner_metadata(p, EventType::BonkMigrateToCpswap, ProtocolType::Bonk);
            push_ok(&mut out, parse_pool_create_inner_instruction(data, m));
        },
        Err(_) => {},
    }
    out
}

/// Whether the parser accepts `input`.
pub open spec fn accepts(input: SolanaTransactionInput) -> bool {
    true
}

/// What parsing `input` may give.
pub open spec fn parse_outcome(input: SolanaTransactionInput, events: Seq<BonkEvent>) -> bool {
    match input {
        SolanaTransactionInput::Instruction(p) => bonk_instruction_events(events, p),
        SolanaTransactionInput::InnerInstruction(p) => bonk_inner_events(events, p),
    }
}

/// The Bonk event parser.
#[derive(Debug, Clone, Copy)]
pub struct EventParser;

impl Default for EventParser {
    fn default() -> (p: EventParser)
        ensures
            p == EventParser,
    {
        EventParser
    }
}

impl EventParser {
    /// The entries of the tables, in order.
    pub fn configs(&self) -> (r: Vec<EventParseConfig<BonkDecoder>>)
        ensures
            r@.len() == 7,
            forall|i: int| 0 <= i < 7 ==> #[trigger] bonk_config(r@[i], i),
    {
        let mut r: Vec<EventParseConfig<BonkDecoder>> = Vec::new();
        let mut i: usize = 0;
        while i < 7
            invariant
                0 <= i <= 7,
                r@.len() == i,
                forall|j: int| 0 <= j < i ==> #[trigger] bonk_config(r@[j], j),
            decreases 7 - i,
        {
            r.push(bonk_entry(i));
            i = i + 1;
        }
        r
    }

    /// The table keyed by the name of a logged event: the trade event with the four trade
    /// entries, and the pool-creation event with the three pool entries, in table order.
    pub fn inner_instruction_configs(&self) -> (r: Vec<(&'static str, Vec<EventParseConfig<BonkDecoder>>)>)
        ensures
            r@.len() == 2,
            r@[0].0@ == discriminators::TRADE_EVENT@,
            r@[0].1@.len() == 4,
            forall|i: int| 0 <= i < 4 ==> #[trigger] bonk_config(r@[0].1@[i], i),
            r@[1].0@ == discriminators::POOL_CREATE_EVENT@,
            r@[1].1@.len() == 3,
            forall|i: int| 0 <= i < 3 ==> #[trigger] bonk_config(r@[1].1@[i], i + 4),
    {
        let mut trades: Vec<EventParseConfig<BonkDecoder>> = Vec::new();
        let mut i: usize = 0;
        while i < 4
            invariant
                0 <= i <= 4,
                trades@.len() == i,
                forall|j: int| 0 <= j < i ==> #[trigger] bonk_config(trades@[j], j),
            decreases 4 - i,
        {
            trades.push(bonk_entry(i));
            i = i + 1;
        }
        let mut pools: Vec<EventParseConfig<BonkDecoder>> = Vec::new();
        let mut i: usize = 0;
        while i < 3
            invariant
                0 <= i <= 3,
                pools@.len() == i,
                forall|j: int| 0 <= j < i ==> #[trigger] bonk_config(pools@[j], j + 4),
            decreases 3 - i,
        {
            pools.push(bonk_entry(i + 4));
            i = i + 1;
        }
        let mut r: Vec<(&'static str, Vec<EventParseConfig<BonkDecoder>>)> = Vec::new();
        r.push((discriminators::TRADE_EVENT, trades));
        r.push((discriminators::POOL_CREATE_EVENT, pools));
        r
    }

    /// The table keyed by an instruction's discriminator: each discriminator with its one entry.
    pub fn instruction_configs(&self) -> (r: Vec<(Vec<u8>, Vec<EventParseConfig<BonkDecoder>>)>)
        ensures
            r@.len() == 7,
            forall|i: int|
                0 <= i < 7 ==> (#[trigger] r@[i]).1@.len() == 1 && bonk_config(r@[i].1@[0], i)
                    && r@[i].0@ == r@[i].1@[0].instruction_discriminator@,
    {
        let mut r: Vec<(Vec<u8>, Vec<EventParseConfig<BonkDecoder>>)> = Vec::new();
        let mut i: usize = 0;
        while i < 7
            invariant
                0 <= i <= 7,
                r@.len() == i,
                forall|j: int|
                    0 <= j < i ==> (#[trigger] r@[j]).1@.len() == 1 && bonk_config(r@[j].1@[0], j)
                        && r@[j].0@ == r@[j].1@[0].instruction_discriminator@,
            decreases 7 - i,
        {
            let c = bonk_entry(i);
            let key = bonk_entry(i).instruction_discriminator;
            let mut entry: Vec<EventParseConfig<BonkDecoder>> = Vec::new();
            entry.push(c);
            r.push((key, entry));
            i = i + 1;
        }
        r
    }

    /// A parser.
    pub fn new() -> (p: EventParser)
        ensures
            p == EventParser,
    {
        EventParser
    }

    /// Whether `program_id` is the Bonk program.
    pub fn should_handle(&self, program_id: &Pubkey) -> (r: bool)
        ensures
            r == (program_id@ == BONK_PROGRAM_ID_BYTES@),
    {
        *program_id == bonk_program_id()
    }

    /// The one program this parser handles.
    pub fn supported_program_ids(&self) -> (r: Vec<Pubkey>)
        ensures
            r@.len() == 1,
            r@[0]@ == BONK_PROGRAM_ID_BYTES@,
    {
        let mut v: Vec<Pubkey> = Vec::new();
        v.push(bonk_program_id());
        v
    }

    /// Both kinds of input are accepted.
    pub fn can_parse(&self, input: &SolanaTransactionInput) -> (r: bool)
        ensures
            r == accepts(*input),
    {
        true
    }

    /// Decodes an input into the events it carries.
    pub fn parse(&self, input: &SolanaTransactionInput) -> (r: Vec<BonkEvent>)
        ensures
            parse_outcome(*input, r@),
    {
        match input {
            SolanaTransactionInput::Instruction(p) => parse_table_instruction(p),
            SolanaTransactionInput::InnerInstruction(p) => parse_table_inner_instruction(p),
        }
    }
}

/// The four trade instructions decode exactly when the data holds two amounts (16 bytes) and
/// at least ten accounts are named. Each reports the first amount (bytes 0..8) as the amount in
/// and the second (bytes 8..16) as the amount out, the pool, signer, user's base and quote
/// accounts, pool's base and quote accounts and the two mints as accounts 0 to 7, and the
/// direction of its kind: the two buys a buy, the two sells a sell.
pub proof fn trade_instructions_report_their_direction(
    data: &[u8],
    accounts: &[Pubkey],
    metadata: EventMetadata,
    buy_in: ParseResult<BonkEvent>,
    buy_out: ParseResult<BonkEvent>,
    sell_in: ParseResult<BonkEvent>,
    sell_out: ParseResult<BonkEvent>,
)
    requires
        call_ensures(parse_buy_exact_in_instruction, (data, accounts, metadata), buy_in),
        call_ensures(parse_buy_exact_out_instruction, (data, accounts, metadata), buy_out),
        call_ensures(parse_sell_exact_in_instruction, (data, accounts, metadata), sell_in),
        call_ensures(parse_sell_exact_out_instruction, (data, accounts, metadata), sell_out),
    ensures
        buy_in is Ok <==> data@.len() >= 16 && accounts@.len() >= 10,
        buy_out is Ok <==> data@.len() >= 16 && accounts@.len() >= 10,
        sell_in is Ok <==> data@.len() >= 16 && accounts@.len() >= 10,
        sell_out is Ok <==> data@.len() >= 16 && accounts@.len() >= 10,
        buy_in is Ok ==> (buy_in matches Ok(BonkEvent::Trade(e)) && e.amount_in == u64_at(data@, 0) && e.amount_out == u64_at(data@, 8)
            && e.pool_state@ == accounts@[0]@ && e.signer@ == accounts@[1]@
            && e.user_base_account@ == accounts@[2]@ && e.user_quote_account@ == accounts@[3]@
            && e.pool_base_account@ == accounts@[4]@ && e.pool_quote_account@ == accounts@[5]@
            && e.base_mint@ == accounts@[6]@ && e.quote_mint@ == accounts@[7]@),
        buy_out is Ok ==> (buy_out matches Ok(BonkEvent::Trade(e)) && e.amount_in == u64_at(data@, 0) && e.amount_out == u64_at(data@, 8)
            && e.pool_state@ == accounts@[0]@ && e.signer@ == accounts@[1]@
            && e.user_base_account@ == accounts@[2]@ && e.user_quote_account@ == accounts@[3]@
            && e.pool_base_account@ == accounts@[4]@ && e.pool_quote_account@ == accounts@[5]@
            && e.base_mint@ == accounts@[6]@ && e.quote_mint@ == accounts@[7]@),
        sell_in is Ok ==> (sell_in matches Ok(BonkEvent::Trade(e)) && e.amount_in == u64_at(data@, 0) && e.amount_out == u64_at(data@, 8)
            && e.pool_state@ == accounts@[0]@ && e.signer@ == accounts@[1]@
            && e.user_base_account@ == accounts@[2]@ && e.user_quote_account@ == accounts@[3]@
            && e.pool_base_account@ == accounts@[4]@ && e.pool_quote_account@ == accounts@[5]@
            && e.base_mint@ == accounts@[6]@ && e.quote_mint@ == accounts@[7]@),
        sell_out is Ok ==> (sell_out matches Ok(BonkEvent::Trade(e)) && e.amount_in == u64_at(data@, 0) && e.amount_out == u64_at(data@, 8)
            && e.pool_state@ == accounts@[0]@ && e.signer@ == accounts@[1]@
            && e.user_base_account@ == accounts@[2]@ && e.user_quote_account@ == accounts@[3]@
            && e.pool_base_account@ == accounts@[4]@ && e.pool_quote_account@ == accounts@[5]@
            && e.base_mint@ == accounts@[6]@ && e.quote_mint@ == accounts@[7]@),
        buy_in matches Ok(BonkEvent::Trade(e)) ==> e.trade_direction == TradeDirection::Buy,
        buy_out matches Ok(BonkEvent::Trade(e)) ==> e.trade_direction == TradeDirection::Buy,
        sell_in matches Ok(BonkEvent::Trade(e)) ==> e.trade_direction == TradeDirection::Sell,
        sell_out matches Ok(BonkEvent::Trade(e)) ==> e.trade_direction == TradeDirection::Sell,
{
}

/// The pool instructions (initialize, and the two migrations) report the pool, its creator
/// and its base and quote mints as accounts 0, 1, 3 and 4; initialize needs eight accounts and
/// the migrations five.
pub proof fn pool_instructions_name_pool_creator_and_mints(
    data: &[u8],
    accounts: &[Pubkey],
    metadata: EventMetadata,
    initialize: ParseResult<BonkEvent>,
    to_amm: ParseResult<BonkEvent>,
    to_cpswap: ParseResult<BonkEvent>,
)
    requires
        call_ensures(parse_initialize_instruction, (data, accounts, metadata), initialize),
        call_ensures(parse_migrate_to_amm_instruction, (data, accounts, metadata), to_amm),
        call_ensures(parse_migrate_to_cpswap_instruction, (data, accounts, metadata), to_cpswap),
    ensures
        initialize is Ok <==> accounts@.len() >= 8,
        to_amm is Ok <==> accounts@.len() >= 5,
        to_cpswap is Ok <==> accounts@.len() >= 5,
        initialize matches Ok(BonkEvent::PoolCreate(e)) ==> e.pool_state@ == accounts@[0]@ && e.creator@
            == accounts@[1]@ && e.base_mint@ == accounts@[3]@ && e.quote_mint@ == accounts@[4]@,
        to_amm matches Ok(BonkEvent::PoolCreate(e)) ==> e.pool_state@ == accounts@[0]@ && e.creator@
            == accounts@[1]@ && e.base_mint@ == accounts@[3]@ && e.quote_mint@ == accounts@[4]@,
        to_cpswap matches Ok(BonkEvent::PoolCreate(e)) ==> e.pool_state@ == accounts@[0]@ && e.creator@
            == accounts@[1]@ && e.base_mint@ == accounts@[3]@ && e.quote_mint@ == accounts@[4]@,
        initialize is Ok ==> initialize->Ok_0 is PoolCreate,
        to_amm is Ok ==> to_amm->Ok_0 is PoolCreate,
        to_cpswap is Ok ==> to_cpswap->Ok_0 is PoolCreate,
{
}

/// A logged pool creation that decodes reports the base mint and the creator from the first
/// two keys of the record (bytes 0..32 and 32..64), and the pool's status by its Borsh tag in
/// declaration order: 0 is funding, 1 migrating, 2 trading.
pub proof fn logged_pool_reports_mint_creator_and_status(
    data: &[u8],
    metadata: EventMetadata,
    r: ParseResult<BonkEvent>,
)
    requires
        call_ensures(parse_pool_create_inner_instruction, (data, metadata), r),
    ensures
        r is Ok <==> pool_create_layout(data@) is Some,
        r is Ok ==> (r matches Ok(BonkEvent::PoolCreate(e)) && e.base_mint@ == key_at(data@, 0)
            && e.creator@ == key_at(data@, 32) && e.metadata == metadata),
        r matches Ok(BonkEvent::PoolCreate(e)) ==> {
            let t = data@[pool_create_layout(data@)->0.state + 32];
            &&& t <= 2
            &&& (t == 0 ==> e.pool_status == PoolStatus::Fund)
            &&& (t == 1 ==> e.pool_status == PoolStatus::Migrate)
            &&& (t == 2 ==> e.pool_status == PoolStatus::Trade)
        },
{
}

} // verus!
