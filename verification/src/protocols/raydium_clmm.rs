use vstd::prelude::*;
use vstd::string::*;

use crate::common::{
    has_discriminator, i32_at, option_bool_at, read_i32_le, read_option_bool, read_u128_le, read_u64_le, read_u8_le,
    u128_at, u64_at,
};
use crate::error::{fail, format_error, ParseError, ParseResult};
use crate::factory::{
    config_is, instruction_metadata, push_ok, EventParseConfig, OwnedInstructionParseParams,
    SolanaTransactionInput,
};
use crate::text::{base58_decode, base58_encoding, decimal, u128_to_decimal};
use crate::types::{
    create_metadata, metadata_is, renamed, with_id, EventMetadata, EventType, ProtocolType,
    ProtocolTypeView, Pubkey,
};

verus! {

/// The Raydium CLMM program address (CAMMCzo5YL8w4VFF8KVHrK22GGUsp5VTaW7grrKgrWqK).
pub const RAYDIUM_CLMM_PROGRAM_ID_BYTES: [u8; 32] = [
    0xa5, 0xd5, 0xca, 0x9e, 0x04, 0xcf, 0x5d, 0xb5, 0x90, 0xb7, 0x14, 0xba, 0x2f, 0xe3, 0x2c,
    0xb1, 0x59, 0x13, 0x3f, 0xc1, 0xc1, 0x92, 0xb7, 0x22, 0x57, 0xfd, 0x07, 0xd3, 0x9c, 0xb0,
    0x40, 0x1e,
];

/// Instruction discriminator for swaps.
pub const SWAP: [u8; 8] = [0xa9, 0x0d, 0xd0, 0xfe, 0x89, 0xbc, 0xab, 0x27];

/// Instruction discriminator for swaps (version 2).
pub const SWAP_V2: [u8; 8] = [0x2a, 0x2d, 0x80, 0xb5, 0xce, 0x24, 0x7b, 0x87];

/// Instruction discriminator for closing a position.
pub const CLOSE_POSITION: [u8; 8] = [0x7b, 0x86, 0x51, 0x10, 0x31, 0xc0, 0xa1, 0x7a];

/// Instruction discriminator for decreasing liquidity (version 2).
pub const DECREASE_LIQUIDITY_V2: [u8; 8] = [0x58, 0x12, 0x7a, 0x1a, 0x95, 0x04, 0xac, 0xa0];

/// Instruction discriminator for creating a pool.
pub const CREATE_POOL: [u8; 8] = [0xe2, 0x58, 0x01, 0x5f, 0xc2, 0xc2, 0x49, 0xe9];

/// Instruction discriminator for increasing liquidity (version 2).
pub const INCREASE_LIQUIDITY_V2: [u8; 8] = [0x85, 0x15, 0x1a, 0xa4, 0xd1, 0x8b, 0x74, 0x2e];

/// Instruction discriminator for opening a position with a Token-22 NFT.
pub const OPEN_POSITION_WITH_TOKEN_22_NFT: [u8; 8] = [0x3e, 0xf4, 0xcc, 0x1f, 0x66, 0x42, 0xee, 0xd1];

/// Instruction discriminator for opening a position (version 2).
pub const OPEN_POSITION_V2: [u8; 8] = [0x4e, 0x14, 0xbb, 0x8b, 0xdd, 0xa8, 0xfc, 0x07];

/// The Raydium CLMM program address.
pub fn raydium_clmm_program_id() -> (k: Pubkey)
    ensures
        k@ == RAYDIUM_CLMM_PROGRAM_ID_BYTES@,
{
    Pubkey(RAYDIUM_CLMM_PROGRAM_ID_BYTES)
}

/// A swap.
#[derive(Debug, Clone)]
pub struct SwapEvent {
    pub amount0: u64,
    pub amount1: u64,
    pub input_token_account: Pubkey,
    pub input_vault: Pubkey,
    pub liquidity: u128,
    pub metadata: EventMetadata,
    pub output_token_account: Pubkey,
    pub output_vault: Pubkey,
    pub payer: Pubkey,
    pub pool_state: Pubkey,
    pub sqrt_price_x64: u128,
    pub tick_current: i32,
    pub token_mint0: Pubkey,
    pub token_mint1: Pubkey,
}

/// A swap (version 2).
#[derive(Debug, Clone)]
pub struct SwapV2Event {
    pub amount0: u64,
    pub amount1: u64,
    pub input_token_account: Pubkey,
    pub input_vault: Pubkey,
    pub is_base_input: bool,
    pub liquidity: u128,
    pub metadata: EventMetadata,
    pub output_token_account: Pubkey,
    pub output_vault: Pubkey,
    pub payer: Pubkey,
    pub pool_state: Pubkey,
    pub sqrt_price_x64: u128,
    pub tick_current: i32,
    pub token_mint0: Pubkey,
    pub token_mint1: Pubkey,
}

/// A pool creation.
#[derive(Debug, Clone)]
pub struct CreatePoolEvent {
    pub metadata: EventMetadata,
    pub observation_index: u16,
    pub pool_creator: Pubkey,
    pub pool_state: Pubkey,
    pub sqrt_price_x64: u128,
    pub tick_current: i32,
    pub token_mint0: Pubkey,
    pub token_mint1: Pubkey,
    pub token_vault0: Pubkey,
    pub token_vault1: Pubkey,
}

/// A position opening (version 2).
#[derive(Debug, Clone)]
pub struct OpenPositionV2Event {
    pub amount0_max: u64,
    pub amount1_max: u64,
    pub base_flag: Option<bool>,
    pub liquidity: u128,
    pub metadata: EventMetadata,
    pub metadata_account: Pubkey,
    pub payer: Pubkey,
    pub pool_state: Pubkey,
    pub position_nft_account: Pubkey,
    pub position_nft_mint: Pubkey,
    pub position_nft_owner: Pubkey,
    pub tick_array_lower_start_index: i32,
    pub tick_array_upper_start_index: i32,
    pub tick_lower_index: i32,
    pub tick_upper_index: i32,
    pub with_metadata: bool,
}

/// A position closing.
#[derive(Debug, Clone)]
pub struct ClosePositionEvent {
    pub metadata: EventMetadata,
    pub nft_owner: Pubkey,
    pub personal_position: Pubkey,
    pub position_nft_account: Pubkey,
    pub position_nft_mint: Pubkey,
}

/// A liquidity increase (version 2).
#[derive(Debug, Clone)]
pub struct IncreaseLiquidityV2Event {
    pub amount0_max: u64,
    pub amount1_max: u64,
    pub base_flag: Option<bool>,
    pub liquidity: u128,
    pub metadata: EventMetadata,
    pub nft_owner: Pubkey,
    pub pool_state: Pubkey,
    pub position_nft_account: Pubkey,
}

/// A liquidity decrease (version 2).
#[derive(Debug, Clone)]
pub struct DecreaseLiquidityV2Event {
    pub amount0_min: u64,
    pub amount1_min: u64,
    pub liquidity: u128,
    pub metadata: EventMetadata,
    pub nft_owner: Pubkey,
    pub pool_state: Pubkey,
    pub position_nft_account: Pubkey,
}

/// A position opening with a Token-22 NFT.
#[derive(Debug, Clone)]
pub struct OpenPositionWithToken22NftEvent {
    pub amount0_max: u64,
    pub amount1_max: u64,
    pub base_flag: Option<bool>,
    pub liquidity: u128,
    pub metadata: EventMetadata,
    pub payer: Pubkey,
    pub pool_state: Pubkey,
    pub position_nft_account: Pubkey,
    pub position_nft_mint: Pubkey,
    pub position_nft_owner: Pubkey,
    pub tick_array_lower_start_index: i32,
    pub tick_array_upper_start_index: i32,
    pub tick_lower_index: i32,
    pub tick_upper_index: i32,
    pub with_metadata: bool,
}

/// Any event of the Raydium CLMM program.
#[derive(Debug, Clone)]
pub enum RaydiumClmmEvent {
    Swap(SwapEvent),
    SwapV2(SwapV2Event),
    CreatePool(CreatePoolEvent),
    OpenPositionV2(OpenPositionV2Event),
    ClosePosition(ClosePositionEvent),
    IncreaseLiquidityV2(IncreaseLiquidityV2Event),
    DecreaseLiquidityV2(DecreaseLiquidityV2Event),
    OpenPositionWithToken22Nft(OpenPositionWithToken22NftEvent),
}

/// The key at position `i` of the account list, as base58 text.
pub open spec fn key_text(accounts: Seq<Pubkey>, i: int) -> Seq<char> {
    base58_encoding(accounts[i]@)
}

/// The key at position `i` of the account list.
pub open spec fn acct(accounts: Seq<Pubkey>, i: int) -> Seq<u8> {
    accounts[i]@
}

fn key_string(k: &Pubkey) -> (r: String)
    ensures
        r@ == base58_encoding(k@),
{
    k.to_base58()
}

/// Whether `e` is the swap that `data` and `accounts` describe, given the tick computed from
/// its price limit.
pub open spec fn swap_fields(e: SwapEvent, data: Seq<u8>, accounts: Seq<Pubkey>, tick: i32) -> bool {
    let amount = u64_at(data, 0);
    let other = u64_at(data, 8);
    let base_input = data[32] == 1;
    &&& e.amount0 == (if base_input { amount } else { other })
    &&& e.amount1 == (if base_input { other } else { amount })
    &&& e.sqrt_price_x64 == u128_at(data, 16)
    &&& e.liquidity == 0
    &&& e.tick_current == tick
    &&& e.payer@ == acct(accounts, 0)
    &&& e.pool_state@ == acct(accounts, 1)
    &&& e.input_token_account@ == acct(accounts, 2)
    &&& e.output_token_account@ == acct(accounts, 3)
    &&& e.input_vault@ == acct(accounts, 4)
    &&& e.output_vault@ == acct(accounts, 5)
    &&& e.token_mint0@ == acct(accounts, 6)
    &&& e.token_mint1@ == acct(accounts, 7)
}

/// Decodes a swap, taking `tick_of` to turn the price limit into a tick.
pub fn parse_swap_instruction<F: Fn(u128) -> i32>(
    data: &[u8],
    accounts: &[Pubkey],
    metadata: EventMetadata,
    tick_of: &F,
) -> (r: ParseResult<RaydiumClmmEvent>)
    requires
        forall|p: u128| call_requires(*tick_of, (p,)),
    ensures
        data@.len() < 41 || accounts@.len() < 17 ==> format_error(
            r,
            "Insufficient data or accounts for Raydium CLMM swap instruction"@,
        ),
        data@.len() >= 41 && accounts@.len() >= 17 ==> (r matches Ok(RaydiumClmmEvent::Swap(e))
            && call_ensures(*tick_of, (u128_at(data@, 16),), e.tick_current) && swap_fields(
            e,
            data@,
            accounts@,
            e.tick_current,
        ) && renamed(
            e.metadata,
            metadata,
            metadata.signature@ + "-"@ + key_text(accounts@, 1) + "-swap-"@ + decimal(
                u64_at(data@, 0) as nat,
            ),
        )),
{
    if data.len() < 41 || accounts.len() < 17 {
        return Err(fail("Insufficient data or accounts for Raydium CLMM swap instruction"));
    }
    let amount = match read_u64_le(data, 0) {
        Ok(v) => v,
        Err(_) => return Err(fail("Failed to read amount")),
    };
    let other_amount_threshold = match read_u64_le(data, 8) {
        Ok(v) => v,
        Err(_) => return Err(fail("Failed to read other_amount_threshold")),
    };
    let sqrt_price_limit_x64 = match read_u128_le(data, 16) {
        Ok(v) => v,
        Err(_) => return Err(fail("Failed to read sqrt_price_limit_x64")),
    };
    let is_base_input = match read_u8_le(data, 32) {
        Ok(v) => v == 1,
        Err(_) => return Err(fail("Failed to read is_base_input")),
    };
    proof {
        reveal_strlit("-");
        reveal_strlit("-swap-");
    }
    let mut id = metadata.signature.clone();
    id.append("-");
    let pool_text = key_string(&accounts[1]);
    id.append(pool_text.as_str());
    id.append("-swap-");
    let amount_text = u128_to_decimal(amount as u128);
    id.append(amount_text.as_str());
    let metadata = with_id(metadata, id);
    let tick_current = tick_of(sqrt_price_limit_x64);
    Ok(
        RaydiumClmmEvent::Swap(
            SwapEvent {
                metadata,
                amount0: if is_base_input { amount } else { other_amount_threshold },
                amount1: if is_base_input { other_amount_threshold } else { amount },
                sqrt_price_x64: sqrt_price_limit_x64,
                liquidity: 0,
                tick_current,
                payer: accounts[0],
                pool_state: accounts[1],
                input_token_account: accounts[2],
                output_token_account: accounts[3],
                input_vault: accounts[4],
                output_vault: accounts[5],
                token_mint0: accounts[6],
                token_mint1: accounts[7],
            },
        ),
    )
}


/// Whether `e` is the version 2 swap that `data` and `accounts` describe.
pub open spec fn swap_v2_fields(e: SwapV2Event, data: Seq<u8>, accounts: Seq<Pubkey>) -> bool {
    let amount = u64_at(data, 0);
    let other = u64_at(data, 8);
    let base_input = data[32] == 1;
    &&& e.amount0 == (if base_input { amount } else { other })
    &&& e.amount1 == (if base_input { other } else { amount })
    &&& e.is_base_input == base_input
    &&& e.sqrt_price_x64 == u128_at(data, 16)
    &&& e.liquidity == 0
    &&& e.payer@ == acct(accounts, 0)
    &&& e.pool_state@ == acct(accounts, 1)
    &&& e.input_token_account@ == acct(accounts, 2)
    &&& e.output_token_account@ == acct(accounts, 3)
    &&& e.input_vault@ == acct(accounts, 4)
    &&& e.output_vault@ == acct(accounts, 5)
    &&& e.token_mint0@ == acct(accounts, 6)
    &&& e.token_mint1@ == acct(accounts, 7)
}

/// A decoded swap reports the amount that the user specifies (bytes 0..8) and the threshold on
/// the other side (bytes 8..16) by token: when the swap is base-input (the byte at 32 is 1) the
/// specified amount is `amount0` and the threshold `amount1`; otherwise the other way round.
/// The price limit is bytes 16..32, and the parties are the accounts in the swap's order: payer,
/// pool, input and output token accounts, input and output vaults, and the two mints.
pub proof fn swap_amounts_follow_base_input<F: Fn(u128) -> i32>(
    data: &[u8],
    accounts: &[Pubkey],
    metadata: EventMetadata,
    tick_of: &F,
    r: ParseResult<RaydiumClmmEvent>,
)
    requires
        call_ensures(parse_swap_instruction::<F>, (data, accounts, metadata, tick_of), r),
    ensures
        r is Ok <==> data@.len() >= 41 && accounts@.len() >= 17,
        r is Ok && data@[32] == 1 ==> (r matches Ok(RaydiumClmmEvent::Swap(e)) && e.amount0 == u64_at(data@, 0)
            && e.amount1 == u64_at(data@, 8)),
        r is Ok && data@[32] != 1 ==> (r matches Ok(RaydiumClmmEvent::Swap(e)) && e.amount0 == u64_at(data@, 8)
            && e.amount1 == u64_at(data@, 0)),
        r is Ok ==> (r matches Ok(RaydiumClmmEvent::Swap(e)) && e.sqrt_price_x64 == u128_at(data@, 16)
            && e.payer@ == accounts@[0]@ && e.pool_state@ == accounts@[1]@
            && e.input_token_account@ == accounts@[2]@ && e.output_token_account@ == accounts@[3]@
            && e.input_vault@ == accounts@[4]@ && e.output_vault@ == accounts@[5]@
            && e.token_mint0@ == accounts@[6]@ && e.token_mint1@ == accounts@[7]@),
{
}

/// Decodes a version 2 swap, taking `tick_of` to turn the price limit into a tick.
pub fn parse_swap_v2_instruction<F: Fn(u128) -> i32>(
    data: &[u8],
    accounts: &[Pubkey],
    metadata: EventMetadata,
    tick_of: &F,
) -> (r: ParseResult<RaydiumClmmEvent>)
    requires
        forall|p: u128| call_requires(*tick_of, (p,)),
    ensures
        data@.len() < 42 || accounts@.len() < 17 ==> format_error(
            r,
            "Insufficient data or accounts for Raydium CLMM swap v2 instruction"@,
        ),
        data@.len() >= 42 && accounts@.len() >= 17 ==> (r matches Ok(
            RaydiumClmmEvent::SwapV2(e),
        ) && call_ensures(*tick_of, (u128_at(data@, 16),), e.tick_current) && swap_v2_fields(
            e,
            data@,
            accounts@,
        ) && renamed(
            e.metadata,
            metadata,
            metadata.signature@ + "-"@ + key_text(accounts@, 1) + "-swap-v2-"@ + decimal(
                u64_at(data@, 0) as nat,
            ),
        )),
{
    if data.len() < 42 || accounts.len() < 17 {
        return Err(fail("Insufficient data or accounts for Raydium CLMM swap v2 instruction"));
    }
    let amount = match read_u64_le(data, 0) {
        Ok(v) => v,
        Err(_) => return Err(fail("Failed to read amount")),
    };
    let other_amount_threshold = match read_u64_le(data, 8) {
        Ok(v) => v,
        Err(_) => return Err(fail("Failed to read other_amount_threshold")),
    };
    let sqrt_price_limit_x64 = match read_u128_le(data, 16) {
        Ok(v) => v,
        Err(_) => return Err(fail("Failed to read sqrt_price_limit_x64")),
    };
    let is_base_input = match read_u8_le(data, 32) {
        Ok(v) => v == 1,
        Err(_) => return Err(fail("Failed to read is_base_input")),
    };
    proof {
        reveal_strlit("-");
        reveal_strlit("-swap-v2-");
    }
    let mut id = metadata.signature.clone();
    id.append("-");
    let pool_text = key_string(&accounts[1]);
    id.append(pool_text.as_str());
    id.append("-swap-v2-");
    let amount_text = u128_to_decimal(amount as u128);
    id.append(amount_text.as_str());
    let metadata = with_id(metadata, id);
    let tick_current = tick_of(sqrt_price_limit_x64);
    Ok(
        RaydiumClmmEvent::SwapV2(
            SwapV2Event {
                metadata,
                amount0: if is_base_input { amount } else { other_amount_threshold },
                amount1: if is_base_input { other_amount_threshold } else { amount },
                sqrt_price_x64: sqrt_price_limit_x64,
                liquidity: 0,
                tick_current,
                is_base_input,
                payer: accounts[0],
                pool_state: accounts[1],
                input_token_account: accounts[2],
                output_token_account: accounts[3],
                input_vault: accounts[4],
                output_vault: accounts[5],
                token_mint0: accounts[6],
                token_mint1: accounts[7],
            },
        ),
    )
}

/// Decodes a position closing; only the accounts matter.
pub fn parse_close_position_instruction(
    data: &[u8],
    accounts: &[Pubkey],
    metadata: EventMetadata,
) -> (r: ParseResult<RaydiumClmmEvent>)
    ensures
        accounts@.len() < 9 ==> format_error(
            r,
            "Insufficient accounts for Raydium CLMM close position instruction"@,
        ),
        accounts@.len() >= 9 ==> (r matches Ok(RaydiumClmmEvent::ClosePosition(e))
            && e.nft_owner@ == acct(accounts@, 0) && e.position_nft_mint@ == acct(accounts@, 1)
            && e.position_nft_account@ == acct(accounts@, 2) && e.personal_position@ == acct(
            accounts@,
            3,
        ) && renamed(
            e.metadata,
            metadata,
            metadata.signature@ + "-"@ + key_text(accounts@, 1) + "-close"@,
        )),
{
    if accounts.len() < 9 {
        return Err(fail("Insufficient accounts for Raydium CLMM close position instruction"));
    }
    proof {
        reveal_strlit("-");
        reveal_strlit("-close");
    }
    let mut id = metadata.signature.clone();
    id.append("-");
    let mint_text = key_string(&accounts[1]);
    id.append(mint_text.as_str());
    id.append("-close");
    let metadata = with_id(metadata, id);
    Ok(
        RaydiumClmmEvent::ClosePosition(
            ClosePositionEvent {
                metadata,
                nft_owner: accounts[0],
                personal_position: accounts[3],
                position_nft_account: accounts[2],
                position_nft_mint: accounts[1],
            },
        ),
    )
}

/// Decodes a version 2 liquidity decrease.
pub fn parse_decrease_liquidity_v2_instruction(
    data: &[u8],
    accounts: &[Pubkey],
    metadata: EventMetadata,
) -> (r: ParseResult<RaydiumClmmEvent>)
    ensures
        data@.len() < 32 || accounts@.len() < 15 ==> format_error(
            r,
            "Insufficient data or accounts for Raydium CLMM decrease liquidity v2 instruction"@,
        ),
        data@.len() >= 32 && accounts@.len() >= 15 ==> (r matches Ok(
            RaydiumClmmEvent::DecreaseLiquidityV2(e),
        ) && e.liquidity == u128_at(data@, 0) && e.amount0_min == u64_at(data@, 16)
            && e.amount1_min == u64_at(data@, 24) && e.nft_owner@ == acct(accounts@, 0)
            && e.position_nft_account@ == acct(accounts@, 1) && e.pool_state@ == acct(accounts@, 4)
            && renamed(
            e.metadata,
            metadata,
            metadata.signature@ + "-"@ + key_text(accounts@, 1) + "-decrease-"@ + decimal(
                u128_at(data@, 0) as nat,
            ),
        )),
{
    if data.len() < 32 || accounts.len() < 15 {
        return Err(
            fail("Insufficient data or accounts for Raydium CLMM decrease liquidity v2 instruction"),
        );
    }
    let liquidity = match read_u128_le(data, 0) {
        Ok(v) => v,
        Err(_) => return Err(fail("Failed to read liquidity")),
    };
    let amount0_min = match read_u64_le(data, 16) {
        Ok(v) => v,
        Err(_) => return Err(fail("Failed to read amount0_min")),
    };
    let amount1_min = match read_u64_le(data, 24) {
        Ok(v) => v,
        Err(_) => return Err(fail("Failed to read amount1_min")),
    };
    proof {
        reveal_strlit("-");
        reveal_strlit("-decrease-");
    }
    let mut id = metadata.signature.clone();
    id.append("-");
    let account_text = key_string(&accounts[1]);
    id.append(account_text.as_str());
    id.append("-decrease-");
    let liquidity_text = u128_to_decimal(liquidity);
    id.append(liquidity_text.as_str());
    let metadata = with_id(metadata, id);
    Ok(
        RaydiumClmmEvent::DecreaseLiquidityV2(
            DecreaseLiquidityV2Event {
                amount0_min,
                amount1_min,
                liquidity,
                metadata,
                nft_owner: accounts[0],
                pool_state: accounts[4],
                position_nft_account: accounts[1],
            },
        ),
    )
}

/// Decodes a version 2 liquidity increase.
pub fn parse_increase_liquidity_v2_instruction(
    data: &[u8],
    accounts: &[Pubkey],
    metadata: EventMetadata,
) -> (r: ParseResult<RaydiumClmmEvent>)
    ensures
        data@.len() < 33 || accounts@.len() < 15 ==> format_error(
            r,
            "Insufficient data or accounts for Raydium CLMM increase liquidity v2 instruction"@,
        ),
        data@.len() >= 33 && accounts@.len() >= 15 && option_bool_at(data@, 32) is Err
            ==> format_error(r, "Failed to read base_flag"@),
        data@.len() >= 33 && accounts@.len() >= 15 && option_bool_at(data@, 32) is Ok ==> (r matches Ok(
            RaydiumClmmEvent::IncreaseLiquidityV2(e),
        ) && e.liquidity == u128_at(data@, 0) && e.amount0_max == u64_at(data@, 16)
            && e.amount1_max == u64_at(data@, 24) && Ok::<Option<bool>, ()>(e.base_flag)
            == option_bool_at(data@, 32) && e.nft_owner@ == acct(accounts@, 0)
            && e.position_nft_account@ == acct(accounts@, 1) && e.pool_state@ == acct(accounts@, 4)
            && renamed(
            e.metadata,
            metadata,
            metadata.signature@ + "-"@ + key_text(accounts@, 1) + "-increase-"@ + decimal(
                u128_at(data@, 0) as nat,
            ),
        )),
{
    if data.len() < 33 || accounts.len() < 15 {
        return Err(
            fail("Insufficient data or accounts for Raydium CLMM increase liquidity v2 instruction"),
        );
    }
    let liquidity = match read_u128_le(data, 0) {
        Ok(v) => v,
        Err(_) => return Err(fail("Failed to read liquidity")),
    };
    let amount0_max = match read_u64_le(data, 16) {
        Ok(v) => v,
        Err(_) => return Err(fail("Failed to read amount0_max")),
    };
    let amount1_max = match read_u64_le(data, 24) {
        Ok(v) => v,
        Err(_) => return Err(fail("Failed to read amount1_max")),
    };
    let mut at: usize = 32;
    let base_flag = match read_option_bool(data, &mut at) {
        Ok(v) => v,
        Err(_) => return Err(fail("Failed to read base_flag")),
    };
    proof {
        reveal_strlit("-");
        reveal_strlit("-increase-");
    }
    let mut id = metadata.signature.clone();
    id.append("-");
    let account_text = key_string(&accounts[1]);
    id.append(account_text.as_str());
    id.append("-increase-");
    let liquidity_text = u128_to_decimal(liquidity);
    id.append(liquidity_text.as_str());
    let metadata = with_id(metadata, id);
    Ok(
        RaydiumClmmEvent::IncreaseLiquidityV2(
            IncreaseLiquidityV2Event {
                amount0_max,
                amount1_max,
                base_flag,
                liquidity,
                metadata,
                nft_owner: accounts[0],
                pool_state: accounts[4],
                position_nft_account: accounts[1],
            },
        ),
    )
}

/// Decodes a pool creation, taking `tick_of` to turn the starting price into a tick.
pub fn parse_create_pool_instruction<F: Fn(u128) -> i32>(
    data: &[u8],
    accounts: &[Pubkey],
    metadata: EventMetadata,
    tick_of: &F,
) -> (r: ParseResult<RaydiumClmmEvent>)
    requires
        forall|p: u128| call_requires(*tick_of, (p,)),
    ensures
        data@.len() < 22 || accounts@.len() < 10 ==> format_error(
            r,
            "Insufficient data or accounts for Raydium CLMM create pool instruction"@,
        ),
        22 <= data@.len() < 24 && accounts@.len() >= 10 ==> format_error(
            r,
            "Failed to read open_time"@,
        ),
        data@.len() >= 24 && accounts@.len() >= 10 ==> (r matches Ok(
            RaydiumClmmEvent::CreatePool(e),
        ) && e.sqrt_price_x64 == u128_at(data@, 0) && call_ensures(
            *tick_of,
            (u128_at(data@, 0),),
            e.tick_current,
        ) && e.observation_index == 0 && e.pool_creator@ == acct(accounts@, 0) && e.pool_state@
            == acct(accounts@, 1) && e.token_mint0@ == acct(accounts@, 2) && e.token_mint1@ == acct(
            accounts@,
            3,
        ) && e.token_vault0@ == acct(accounts@, 4) && e.token_vault1@ == acct(accounts@, 5)
            && renamed(
            e.metadata,
            metadata,
            metadata.signature@ + "-"@ + key_text(accounts@, 0) + "-create-pool"@,
        )),
{
    if data.len() < 22 || accounts.len() < 10 {
        return Err(fail("Insufficient data or accounts for Raydium CLMM create pool instruction"));
    }
    let sqrt_price_x64 = match read_u128_le(data, 0) {
        Ok(v) => v,
        Err(_) => return Err(fail("Failed to read sqrt_price_x64")),
    };
    match read_u64_le(data, 16) {
        Ok(_) => {},
        Err(_) => return Err(fail("Failed to read open_time")),
    }
    proof {
        reveal_strlit("-");
        reveal_strlit("-create-pool");
    }
    let mut id = metadata.signature.clone();
    id.append("-");
    let creator_text = key_string(&accounts[0]);
    id.append(creator_text.as_str());
    id.append("-create-pool");
    let metadata = with_id(metadata, id);
    let tick_current = tick_of(sqrt_price_x64);
    Ok(
        RaydiumClmmEvent::CreatePool(
            CreatePoolEvent {
                metadata,
                sqrt_price_x64,
                tick_current,
                observation_index: 0,
                pool_creator: accounts[0],
                pool_state: accounts[1],
                token_mint0: accounts[2],
                token_mint1: accounts[3],
                token_vault0: accounts[4],
                token_vault1: accounts[5],
            },
        ),
    )
}

/// The position fields shared by both position openings, read from `data`.
pub open spec fn position_data_fields(
    tick_lower_index: i32,
    tick_upper_index: i32,
    tick_array_lower_start_index: i32,
    tick_array_upper_start_index: i32,
    liquidity: u128,
    amount0_max: u64,
    amount1_max: u64,
    with_metadata: bool,
    base_flag: Option<bool>,
    data: Seq<u8>,
) -> bool {
    &&& tick_lower_index == i32_at(data, 0)
    &&& tick_upper_index == i32_at(data, 4)
    &&& tick_array_lower_start_index == i32_at(data, 8)
    &&& tick_array_upper_start_index == i32_at(data, 12)
    &&& liquidity == u128_at(data, 16)
    &&& amount0_max == u64_at(data, 32)
    &&& amount1_max == u64_at(data, 40)
    &&& with_metadata == (data[48] == 1)
    &&& Ok::<Option<bool>, ()>(base_flag) == option_bool_at(data, 49)
}

struct PositionFields {
    tick_lower_index: i32,
    tick_upper_index: i32,
    tick_array_lower_start_index: i32,
    tick_array_upper_start_index: i32,
    liquidity: u128,
    amount0_max: u64,
    amount1_max: u64,
    with_metadata: bool,
    base_flag: Option<bool>,
}

fn read_position_fields(data: &[u8]) -> (r: ParseResult<PositionFields>)
    requires
        data@.len() >= 51,
    ensures
        option_bool_at(data@, 49) is Err ==> format_error(r, "Failed to read base_flag"@),
        option_bool_at(data@, 49) is Ok ==> (r matches Ok(p) && position_data_fields(
            p.tick_lower_index,
            p.tick_upper_index,
            p.tick_array_lower_start_index,
            p.tick_array_upper_start_index,
            p.liquidity,
            p.amount0_max,
            p.amount1_max,
            p.with_metadata,
            p.base_flag,
            data@,
        )),
{
    let tick_lower_index = match read_i32_le(data, 0) {
        Ok(v) => v,
        Err(_) => return Err(fail("Failed to read tick_lower_index")),
    };
    let tick_upper_index = match read_i32_le(data, 4) {
        Ok(v) => v,
        Err(_) => return Err(fail("Failed to read tick_upper_index")),
    };
    let tick_array_lower_start_index = match read_i32_le(data, 8) {
        Ok(v) => v,
        Err(_) => return Err(fail("Failed to read tick_array_lower_start_index")),
    };
    let tick_array_upper_start_index = match read_i32_le(data, 12) {
        Ok(v) => v,
        Err(_) => return Err(fail("Failed to read tick_array_upper_start_index")),
    };
    let liquidity = match read_u128_le(data, 16) {
        Ok(v) => v,
        Err(_) => return Err(fail("Failed to read liquidity")),
    };
    let amount0_max = match read_u64_le(data, 32) {
        Ok(v) => v,
        Err(_) => return Err(fail("Failed to read amount0_max")),
    };
    let amount1_max = match read_u64_le(data, 40) {
        Ok(v) => v,
        Err(_) => return Err(fail("Failed to read amount1_max")),
    };
    let with_metadata = match read_u8_le(data, 48) {
        Ok(v) => v == 1,
        Err(_) => return Err(fail("Failed to read with_metadata")),
    };
    let mut at: usize = 49;
    let base_flag = match read_option_bool(data, &mut at) {
        Ok(v) => v,
        Err(_) => return Err(fail("Failed to read base_flag")),
    };
    Ok(
        PositionFields {
            tick_lower_index,
            tick_upper_index,
            tick_array_lower_start_index,
            tick_array_upper_start_index,
            liquidity,
            amount0_max,
            amount1_max,
            with_metadata,
            base_flag,
        },
    )
}

/// Decodes a version 2 position opening.
pub fn parse_open_position_v2_instruction(
    data: &[u8],
    accounts: &[Pubkey],
    metadata: EventMetadata,
) -> (r: ParseResult<RaydiumClmmEvent>)
    ensures
        data@.len() < 51 || accounts@.len() < 22 ==> format_error(
            r,
            "Insufficient data or accounts for Raydium CLMM open position v2 instruction"@,
        ),
        data@.len() >= 51 && accounts@.len() >= 22 && option_bool_at(data@, 49) is Err
            ==> format_error(r, "Failed to read base_flag"@),
        data@.len() >= 51 && accounts@.len() >= 22 && option_bool_at(data@, 49) is Ok ==> (r matches Ok(
            RaydiumClmmEvent::OpenPositionV2(e),
        ) && position_data_fields(
            e.tick_lower_index,
            e.tick_upper_index,
            e.tick_array_lower_start_index,
            e.tick_array_upper_start_index,
            e.liquidity,
            e.amount0_max,
            e.amount1_max,
            e.with_metadata,
            e.base_flag,
            data@,
        ) && e.payer@ == acct(accounts@, 0) && e.position_nft_owner@ == acct(accounts@, 1)
            && e.position_nft_mint@ == acct(accounts@, 2) && e.position_nft_account@ == acct(
            accounts@,
            3,
        ) && e.metadata_account@ == acct(accounts@, 4) && e.pool_state@ == acct(accounts@, 5)
            && renamed(
            e.metadata,
            metadata,
            metadata.signature@ + "-"@ + key_text(accounts@, 0) + "-"@ + key_text(accounts@, 1),
        )),
{
    if data.len() < 51 || accounts.len() < 22 {
        return Err(
            fail("Insufficient data or accounts for Raydium CLMM open position v2 instruction"),
        );
    }
    proof {
        reveal_strlit("-");
    }
    let mut id = metadata.signature.clone();
    id.append("-");
    let payer_text = key_string(&accounts[0]);
    id.append(payer_text.as_str());
    id.append("-");
    let owner_text = key_string(&accounts[1]);
    id.append(owner_text.as_str());
    let metadata = with_id(metadata, id);
    let p = read_position_fields(data)?;
    Ok(
        RaydiumClmmEvent::OpenPositionV2(
            OpenPositionV2Event {
                metadata,
                tick_lower_index: p.tick_lower_index,
                tick_upper_index: p.tick_upper_index,
                tick_array_lower_start_index: p.tick_array_lower_start_index,
                tick_array_upper_start_index: p.tick_array_upper_start_index,
                liquidity: p.liquidity,
                amount0_max: p.amount0_max,
                amount1_max: p.amount1_max,
                with_metadata: p.with_metadata,
                base_flag: p.base_flag,
                payer: accounts[0],
                position_nft_owner: accounts[1],
                position_nft_mint: accounts[2],
                position_nft_account: accounts[3],
                metadata_account: accounts[4],
                pool_state: accounts[5],
            },
        ),
    )
}

/// Decodes a position opening with a Token-22 NFT.
pub fn parse_open_position_with_token_22_nft_instruction(
    data: &[u8],
    accounts: &[Pubkey],
    metadata: EventMetadata,
) -> (r: ParseResult<RaydiumClmmEvent>)
    ensures
        data@.len() < 51 || accounts@.len() < 20 ==> format_error(
            r,
            "Insufficient data or accounts for Raydium CLMM open position with token-22 NFT instruction"@,
        ),
        data@.len() >= 51 && accounts@.len() >= 20 && option_bool_at(data@, 49) is Err
            ==> format_error(r, "Failed to read base_flag"@),
        data@.len() >= 51 && accounts@.len() >= 20 && option_bool_at(data@, 49) is Ok ==> (r matches Ok(
            RaydiumClmmEvent::OpenPositionWithToken22Nft(e),
        ) && position_data_fields(
            e.tick_lower_index,
            e.tick_upper_index,
            e.tick_array_lower_start_index,
            e.tick_array_upper_start_index,
            e.liquidity,
            e.amount0_max,
            e.amount1_max,
            e.with_metadata,
            e.base_flag,
            data@,
        ) && e.payer@ == acct(accounts@, 0) && e.position_nft_owner@ == acct(accounts@, 1)
            && e.position_nft_mint@ == acct(accounts@, 2) && e.position_nft_account@ == acct(
            accounts@,
            3,
        ) && e.pool_state@ == acct(accounts@, 5) && renamed(
            e.metadata,
            metadata,
            metadata.signature@ + "-"@ + key_text(accounts@, 0) + "-"@ + key_text(accounts@, 1)
                + "-token22"@,
        )),
{
    if data.len() < 51 || accounts.len() < 20 {
        return Err(
            fail(
                "Insufficient data or accounts for Raydium CLMM open position with token-22 NFT instruction",
            ),
        );
    }
    proof {
        reveal_strlit("-");
        reveal_strlit("-token22");
    }
    let mut id = metadata.signature.clone();
    id.append("-");
    let payer_text = key_string(&accounts[0]);
    id.append(payer_text.as_str());
    id.append("-");
    let owner_text = key_string(&accounts[1]);
    id.append(owner_text.as_str());
    id.append("-token22");
    let metadata = with_id(metadata, id);
    let p = read_position_fields(data)?;
    Ok(
        RaydiumClmmEvent::OpenPositionWithToken22Nft(
            OpenPositionWithToken22NftEvent {
                metadata,
                tick_lower_index: p.tick_lower_index,
                tick_upper_index: p.tick_upper_index,
                tick_array_lower_start_index: p.tick_array_lower_start_index,
                tick_array_upper_start_index: p.tick_array_upper_start_index,
                liquidity: p.liquidity,
                amount0_max: p.amount0_max,
                amount1_max: p.amount1_max,
                with_metadata: p.with_metadata,
                base_flag: p.base_flag,
                payer: accounts[0],
                position_nft_owner: accounts[1],
                position_nft_mint: accounts[2],
                position_nft_account: accounts[3],
                pool_state: accounts[5],
            },
        ),
    )
}

} // verus!

verus! {

/// What the Raydium CLMM parser makes of a top-level instruction. Its table is keyed by the
/// whole instruction data, so only data equal to a discriminator is decoded; eight bytes carry
/// no arguments, and of the decoders only the position closing, which reads accounts alone,
/// can then succeed.
pub open spec fn clmm_instruction_events(
    events: Seq<RaydiumClmmEvent>,
    p: OwnedInstructionParseParams,
) -> bool {
    if p.instruction_data@ == CLOSE_POSITION@ && p.accounts@.len() >= 9 {
        &&& events.len() == 1
        &&& events[0] matches RaydiumClmmEvent::ClosePosition(e)
        &&& e.nft_owner@ == acct(p.accounts@, 0)
        &&& e.position_nft_mint@ == acct(p.accounts@, 1)
        &&& e.position_nft_account@ == acct(p.accounts@, 2)
        &&& e.personal_position@ == acct(p.accounts@, 3)
        &&& metadata_is(
            e.metadata,
            p.signature@ + "-"@ + key_text(p.accounts@, 1) + "-close"@,
            p.signature@,
            p.slot,
            p.block_time,
            p.program_received_time_ms,
            p.index@,
            EventType::ClosePosition,
            ProtocolTypeView::RaydiumClmm,
        )
    } else {
        events.len() == 0
    }
}

fn is_exactly(data: &[u8], disc: &[u8; 8]) -> (r: bool)
    ensures
        r == (data@ == disc@),
{
    if data.len() != 8 {
        return false;
    }
    let r = has_discriminator(data, disc.as_slice());
    proof {
        assert(data@.subrange(0, 8) =~= data@);
    }
    r
}

/// The decoders that the Raydium CLMM tables hand an instruction or its log to.
#[derive(Debug, Clone, Copy, PartialEq, Eq, Structural)]
pub enum ClmmDecoder {
    Swap,
    SwapV2,
    ClosePosition,
    DecreaseLiquidityV2,
    CreatePool,
    IncreaseLiquidityV2,
    OpenPositionWithToken22Nft,
    OpenPositionV2,
}

/// Whether `c` is entry `i` of the Raydium CLMM tables, in the order in which they list them.
pub open spec fn clmm_config(c: EventParseConfig<ClmmDecoder>, i: int) -> bool {
    let program = RAYDIUM_CLMM_PROGRAM_ID_BYTES@;
    if i == 0 {
        config_is(c, ClmmDecoder::Swap, EventType::Swap, ""@, SWAP@, program, ProtocolTypeView::RaydiumClmm)
    } else if i == 1 {
        config_is(c, ClmmDecoder::SwapV2, EventType::Swap, ""@, SWAP_V2@, program, ProtocolTypeView::RaydiumClmm)
    } else if i == 2 {
        config_is(c, ClmmDecoder::ClosePosition, EventType::ClosePosition, ""@, CLOSE_POSITION@, program, ProtocolTypeView::RaydiumClmm)
    } else if i == 3 {
        config_is(c, ClmmDecoder::DecreaseLiquidityV2, EventType::RemoveLiquidity, ""@, DECREASE_LIQUIDITY_V2@, program, ProtocolTypeView::RaydiumClmm)
    } else if i == 4 {
        config_is(c, ClmmDecoder::CreatePool, EventType::CreatePool, ""@, CREATE_POOL@, program, ProtocolTypeView::RaydiumClmm)
    } else if i == 5 {
        config_is(c, ClmmDecoder::IncreaseLiquidityV2, EventType::AddLiquidity, ""@, INCREASE_LIQUIDITY_V2@, program, ProtocolTypeView::RaydiumClmm)
    } else if i == 6 {
        config_is(c, ClmmDecoder::OpenPositionWithToken22Nft, EventType::OpenPosition, ""@, OPEN_POSITION_WITH_TOKEN_22_NFT@, program, ProtocolTypeView::RaydiumClmm)
    } else {
        config_is(c, ClmmDecoder::OpenPositionV2, EventType::OpenPosition, ""@, OPEN_POSITION_V2@, program, ProtocolTypeView::RaydiumClmm)
    }
}

fn clmm_entry(i: usize) -> (c: EventParseConfig<ClmmDecoder>)
    requires
        i < 8,
    ensures
        clmm_config(c, i as int),
{
    let program = raydium_clmm_program_id();
    if i == 0 {
        EventParseConfig::new(ClmmDecoder::Swap, EventType::Swap, "", SWAP.as_slice(), program, ProtocolType::RaydiumClmm)
    } else if i == 1 {
        EventParseConfig::new(ClmmDecoder::SwapV2, EventType::Swap, "", SWAP_V2.as_slice(), program, ProtocolType::RaydiumClmm)
    } else if i == 2 {
        EventParseConfig::new(ClmmDecoder::ClosePosition, EventType::ClosePosition, "", CLOSE_POSITION.as_slice(), program, ProtocolType::RaydiumClmm)
    } else if i == 3 {
        EventParseConfig::new(ClmmDecoder::DecreaseLiquidityV2, EventType::RemoveLiquidity, "", DECREASE_LIQUIDITY_V2.as_slice(), program, ProtocolType::RaydiumClmm)
    } else if i == 4 {
        EventParseConfig::new(ClmmDecoder::CreatePool, EventType::CreatePool, "", CREATE_POOL.as_slice(), program, ProtocolType::RaydiumClmm)
    } else if i == 5 {
        EventParseConfig::new(ClmmDecoder::IncreaseLiquidityV2, EventType::AddLiquidity, "", INCREASE_LIQUIDITY_V2.as_slice(), program, ProtocolType::RaydiumClmm)
    } else if i == 6 {
        EventParseConfig::new(ClmmDecoder::OpenPositionWithToken22Nft, EventType::OpenPosition, "", OPEN_POSITION_WITH_TOKEN_22_NFT.as_slice(), program, ProtocolType::RaydiumClmm)
    } else {
        EventParseConfig::new(ClmmDecoder::OpenPositionV2, EventType::OpenPosition, "", OPEN_POSITION_V2.as_slice(), program, ProtocolType::RaydiumClmm)
    }
}

/// Decodes a top-level instruction through the table: each discriminator names one decoder
/// and one event type.
fn parse_table_instruction(p: &OwnedInstructionParseParams) -> (r: Vec<RaydiumClmmEvent>)
    ensures
        clmm_instruction_events(r@, *p),
{
    let data = p.instruction_data.as_slice();
    let accounts = p.accounts.as_slice();
    // An eight-byte instruction holds no price limit: the swap and pool decoders fail on its
    // length before they would ask for a tick, so this one is never consulted.
    let no_tick = |_price: u128| -> (t: i32) { 0i32 };
    let mut out: Vec<RaydiumClmmEvent> = Vec::new();
    let pt = ProtocolType::RaydiumClmm;
    if is_exactly(data, &SWAP) {
        let m = instruction_metadata(p, EventType::Swap, pt);
        push_ok(&mut out, parse_swap_instruction(data, accounts, m, &no_tick));
    } else if is_exactly(data, &SWAP_V2) {
        let m = instruction_metadata(p, EventType::Swap, pt);
        push_ok(&mut out, parse_swap_v2_instruction(data, accounts, m, &no_tick));
    } else if is_exactly(data, &CLOSE_POSITION) {
        let m = instruction_metadata(p, EventType::ClosePosition, pt);
        push_ok(&mut out, parse_close_position_instruction(data, accounts, m));
    } else if is_exactly(data, &DECREASE_LIQUIDITY_V2) {
        let m = instruction_metadata(p, EventType::RemoveLiquidity, pt);
        push_ok(&mut out, parse_decrease_liquidity_v2_instruction(data, accounts, m));
    } else if is_exactly(data, &CREATE_POOL) {
        let m = instruction_metadata(p, EventType::CreatePool, pt);
        push_ok(&mut out, parse_create_pool_instruction(data, accounts, m, &no_tick));
    } else if is_exactly(data, &INCREASE_LIQUIDITY_V2) {
        let m = instruction_metadata(p, EventType::AddLiquidity, pt);
        push_ok(&mut out, parse_increase_liquidity_v2_instruction(data, accounts, m));
    } else if is_exactly(data, &OPEN_POSITION_WITH_TOKEN_22_NFT) {
        let m = instruction_metadata(p, EventType::OpenPosition, pt);
        push_ok(&mut out, parse_open_position_with_token_22_nft_instruction(data, accounts, m));
    } else if is_exactly(data, &OPEN_POSITION_V2) {
        let m = instruction_metadata(p, EventType::OpenPosition, pt);
        push_ok(&mut out, parse_open_position_v2_instruction(data, accounts, m));
    }
    proof {
        reveal_strlit("-");
        reveal_strlit("-close");
    }
    out
}

/// Whether the parser accepts `input`.
pub open spec fn accepts(input: SolanaTransactionInput) -> bool {
    true
}

/// What parsing `input` may give.
pub open spec fn parse_outcome(input: SolanaTransactionInput, events: Seq<RaydiumClmmEvent>) -> bool {
    match input {
        SolanaTransactionInput::InnerInstruction(_) => events.len() == 0,
        SolanaTransactionInput::Instruction(p) => clmm_instruction_events(events, p),
    }
}

/// The Raydium CLMM event parser.
#[derive(Debug, Clone, Copy)]
pub struct Parser;

impl Default for Parser {
    fn default() -> (p: Parser)
        ensures
            p == Parser,
    {
        Parser
    }
}

impl Parser {
    /// The entries of the tables, in order.
    pub fn configs(&self) -> (r: Vec<EventParseConfig<ClmmDecoder>>)
        ensures
            r@.len() == 8,
            forall|i: int| 0 <= i < 8 ==> #[trigger] clmm_config(r@[i], i),
    {
        let mut r: Vec<EventParseConfig<ClmmDecoder>> = Vec::new();
        let mut i: usize = 0;
        while i < 8
            invariant
                0 <= i <= 8,
                r@.len() == i,
                forall|j: int| 0 <= j < i ==> #[trigger] clmm_config(r@[j], j),
            decreases 8 - i,
        {
            r.push(clmm_entry(i));
            i = i + 1;
        }
        r
    }

    /// The table keyed by the name of a logged event: the program logs none, so every entry
    /// stands under the empty name, in table order.
    pub fn inner_instruction_configs(&self) -> (r: Vec<(&'static str, Vec<EventParseConfig<ClmmDecoder>>)>)
        ensures
            r@.len() == 1,
            r@[0].0@ == ""@,
            r@[0].1@.len() == 8,
            forall|i: int| 0 <= i < 8 ==> #[trigger] clmm_config(r@[0].1@[i], i),
    {
        let mut r: Vec<(&'static str, Vec<EventParseConfig<ClmmDecoder>>)> = Vec::new();
        r.push(("", self.configs()));
        r
    }

    /// The table keyed by an instruction's discriminator: each discriminator with its one entry.
    pub fn instruction_configs(&self) -> (r: Vec<(Vec<u8>, Vec<EventParseConfig<ClmmDecoder>>)>)
        ensures
            r@.len() == 8,
            forall|i: int|
                0 <= i < 8 ==> (#[trigger] r@[i]).1@.len() == 1 && clmm_config(r@[i].1@[0], i)
                    && r@[i].0@ == r@[i].1@[0].instruction_discriminator@,
    {
        let mut r: Vec<(Vec<u8>, Vec<EventParseConfig<ClmmDecoder>>)> = Vec::new();
        let mut i: usize = 0;
        while i < 8
            invariant
                0 <= i <= 8,
                r@.len() == i,
                forall|j: int|
                    0 <= j < i ==> (#[trigger] r@[j]).1@.len() == 1 && clmm_config(r@[j].1@[0], j)
                        && r@[j].0@ == r@[j].1@[0].instruction_discriminator@,
            decreases 8 - i,
        {
            let c = clmm_entry(i);
            let key = clmm_entry(i).instruction_discriminator;
            let mut entry: Vec<EventParseConfig<ClmmDecoder>> = Vec::new();
            entry.push(c);
            r.push((key, entry));
            i = i + 1;
        }
        r
    }

    /// A parser.
    pub fn new() -> (p: Parser)
        ensures
            p == Parser,
    {
        Parser
    }

    /// Whether `program_id` is the Raydium CLMM program.
    pub fn should_handle(&self, program_id: &Pubkey) -> (r: bool)
        ensures
            r == (program_id@ == RAYDIUM_CLMM_PROGRAM_ID_BYTES@),
    {
        *program_id == raydium_clmm_program_id()
    }

    /// The one program this parser handles.
    pub fn supported_program_ids(&self) -> (r: Vec<Pubkey>)
        ensures
            r@.len() == 1,
            r@[0]@ == RAYDIUM_CLMM_PROGRAM_ID_BYTES@,
    {
        let mut v: Vec<Pubkey> = Vec::new();
        v.push(raydium_clmm_program_id());
        v
    }

    /// Both kinds of input are accepted.
    pub fn can_parse(&self, input: &SolanaTransactionInput) -> (r: bool)
        ensures
            r == accepts(*input),
    {
        true
    }

    /// Decodes an input. Raydium CLMM emits no events through inner instructions, so those
    /// give none.
    pub fn parse(&self, input: &SolanaTransactionInput) -> (r: Vec<RaydiumClmmEvent>)
        ensures
            parse_outcome(*input, r@),
    {
        match input {
            SolanaTransactionInput::Instruction(p) => parse_table_instruction(p),
            SolanaTransactionInput::InnerInstruction(_) => Vec::new(),
        }
    }
}

/// A decoded version 2 swap reports its amounts by token as a version 1 swap does, base-input
/// exactly when the byte at 32 is 1, and says which it was.
pub proof fn swap_v2_amounts_follow_base_input<F: Fn(u128) -> i32>(
    data: &[u8],
    accounts: &[Pubkey],
    metadata: EventMetadata,
    tick_of: &F,
    r: ParseResult<RaydiumClmmEvent>,
)
    requires
        call_ensures(parse_swap_v2_instruction::<F>, (data, accounts, metadata, tick_of), r),
    ensures
        r is Ok <==> data@.len() >= 42 && accounts@.len() >= 17,
        r is Ok && data@[32] == 1 ==> (r matches Ok(RaydiumClmmEvent::SwapV2(e)) && e.amount0 == u64_at(data@, 0)
            && e.amount1 == u64_at(data@, 8) && e.is_base_input),
        r is Ok && data@[32] != 1 ==> (r matches Ok(RaydiumClmmEvent::SwapV2(e)) && e.amount0 == u64_at(data@, 8)
            && e.amount1 == u64_at(data@, 0) && !e.is_base_input),
        r is Ok ==> (r matches Ok(RaydiumClmmEvent::SwapV2(e)) && e.sqrt_price_x64 == u128_at(data@, 16)
            && e.payer@ == accounts@[0]@ && e.pool_state@ == accounts@[1]@
            && e.input_token_account@ == accounts@[2]@ && e.output_token_account@ == accounts@[3]@
            && e.input_vault@ == accounts@[4]@ && e.output_vault@ == accounts@[5]@
            && e.token_mint0@ == accounts@[6]@ && e.token_mint1@ == accounts@[7]@),
{
}

/// A liquidity change names its liquidity (bytes 0..16) and its bounds on token 0 and token 1
/// in that order (bytes 16..24 and 24..32): the most put in when it increases, the least taken
/// out when it decreases. The owner, the position's NFT account and the pool are accounts 0, 1
/// and 4. An increase reads no base flag where the byte at 32 is 0, and where it is 1 reads
/// the flag from the next byte.
pub proof fn liquidity_bounds_keep_token_order(
    data: &[u8],
    accounts: &[Pubkey],
    metadata: EventMetadata,
    increase: ParseResult<RaydiumClmmEvent>,
    decrease: ParseResult<RaydiumClmmEvent>,
)
    requires
        call_ensures(parse_increase_liquidity_v2_instruction, (data, accounts, metadata), increase),
        call_ensures(parse_decrease_liquidity_v2_instruction, (data, accounts, metadata), decrease),
    ensures
        decrease is Ok <==> data@.len() >= 32 && accounts@.len() >= 15,
        increase is Ok ==> data@.len() >= 33 && accounts@.len() >= 15,
        data@.len() >= 33 && accounts@.len() >= 15 && data@[32] == 0 ==> increase is Ok,
        increase is Ok ==> (increase matches Ok(RaydiumClmmEvent::IncreaseLiquidityV2(e)) && e.liquidity
            == u128_at(data@, 0) && e.amount0_max == u64_at(data@, 16) && e.amount1_max == u64_at(data@, 24)
            && e.nft_owner@ == accounts@[0]@ && e.position_nft_account@ == accounts@[1]@
            && e.pool_state@ == accounts@[4]@ && (data@[32] == 0 ==> e.base_flag is None) && (data@[32] == 1
            && data@.len() > 33 ==> e.base_flag == Some(data@[33] != 0))),
        decrease is Ok ==> (decrease matches Ok(RaydiumClmmEvent::DecreaseLiquidityV2(e)) && e.liquidity
            == u128_at(data@, 0) && e.amount0_min == u64_at(data@, 16) && e.amount1_min == u64_at(data@, 24)
            && e.nft_owner@ == accounts@[0]@ && e.position_nft_account@ == accounts@[1]@
            && e.pool_state@ == accounts@[4]@),
{
}

/// Opening a position names its lower tick before its upper tick (bytes 0..4 and 4..8), the
/// liquidity (bytes 16..32), and its bounds on token 0 and token 1 in that order (bytes 32..40
/// and 40..48); it asks for metadata exactly when the byte at 48 is 1. The payer, the NFT's
/// owner, mint and account are accounts 0 to 3, and the pool account 5.
pub proof fn open_position_keeps_tick_and_token_order(
    data: &[u8],
    accounts: &[Pubkey],
    metadata: EventMetadata,
    r: ParseResult<RaydiumClmmEvent>,
)
    requires
        call_ensures(parse_open_position_v2_instruction, (data, accounts, metadata), r),
    ensures
        r is Ok ==> data@.len() >= 51 && accounts@.len() >= 22,
        data@.len() >= 51 && accounts@.len() >= 22 && data@[49] == 0 ==> r is Ok,
        r is Ok ==> (r matches Ok(RaydiumClmmEvent::OpenPositionV2(e)) && e.tick_lower_index == i32_at(data@, 0)
            && e.tick_upper_index == i32_at(data@, 4) && e.liquidity == u128_at(data@, 16)
            && e.amount0_max == u64_at(data@, 32) && e.amount1_max == u64_at(data@, 40)
            && (e.with_metadata <==> data@[48] == 1) && e.payer@ == accounts@[0]@
            && e.position_nft_owner@ == accounts@[1]@ && e.position_nft_mint@ == accounts@[2]@
            && e.position_nft_account@ == accounts@[3]@ && e.pool_state@ == accounts@[5]@),
{
}

/// Creating a pool reads its price from bytes 0..16 and names the creator, the pool, the two
/// mints and their two vaults as accounts 0 to 5, token 0 before token 1.
pub proof fn create_pool_keeps_token_order<F: Fn(u128) -> i32>(
    data: &[u8],
    accounts: &[Pubkey],
    metadata: EventMetadata,
    tick_of: &F,
    r: ParseResult<RaydiumClmmEvent>,
)
    requires
        call_ensures(parse_create_pool_instruction::<F>, (data, accounts, metadata, tick_of), r),
    ensures
        r is Ok <==> data@.len() >= 24 && accounts@.len() >= 10,
        r is Ok ==> (r matches Ok(RaydiumClmmEvent::CreatePool(e)) && e.sqrt_price_x64 == u128_at(data@, 0)
            && e.pool_creator@ == accounts@[0]@ && e.pool_state@ == accounts@[1]@
            && e.token_mint0@ == accounts@[2]@ && e.token_mint1@ == accounts@[3]@
            && e.token_vault0@ == accounts@[4]@ && e.token_vault1@ == accounts@[5]@),
{
}

} // verus!
