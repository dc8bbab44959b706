use vstd::prelude::*;
use vstd::string::*;

use crate::common::{
    account_count_message, data_length_message, read_u64_le, read_u8_le, safe_get_account,
    u64_at, validate_account_count, validate_data_length,
};
use crate::error::{ParseError, ParseResult};
use crate::factory::SolanaTransactionInput;
use crate::text::{concat3, hex_list, hex_list_string};
use crate::types::{
    create_metadata, metadata_is, EventMetadata, EventType, ProtocolType, ProtocolTypeView, Pubkey,
};

verus! {

/// The Raydium AMM V4 program address (675kPX9MHTjS2zt1qfr1NYHuzeLXfQM9H24wFSUt1Mp8).
pub const RAYDIUM_AMM_V4_PROGRAM_ID_BYTES: [u8; 32] = [
    0x4b, 0xd9, 0x49, 0xc4, 0x36, 0x02, 0xc3, 0x3f, 0x20, 0x77, 0x90, 0xed, 0x16, 0xa3, 0x52,
    0x4c, 0xa1, 0xb9, 0x97, 0x5c, 0xf1, 0x21, 0xa2, 0xa9, 0x0c, 0xff, 0xec, 0x7d, 0xf8, 0xb6,
    0x8a, 0xcd,
];

/// Instruction discriminator for swapping with the base token as input.
pub const SWAP_BASE_IN: [u8; 8] = [0x8f, 0x9a, 0x14, 0xdf, 0x90, 0x38, 0x15, 0xe5];

/// Instruction discriminator for swapping with the base token as output.
pub const SWAP_BASE_OUT: [u8; 8] = [0xab, 0x69, 0x6b, 0xc3, 0xb2, 0x02, 0xee, 0x55];

/// Instruction discriminator for depositing liquidity.
pub const DEPOSIT: [u8; 8] = [0x3e, 0xc2, 0xf7, 0x7f, 0x68, 0x0e, 0xc1, 0x0d];

/// Instruction discriminator for initializing a pool (version 2).
pub const INITIALIZE2: [u8; 8] = [0xa3, 0xa5, 0xba, 0xcd, 0xeb, 0xc8, 0xd4, 0xe2];

/// Instruction discriminator for withdrawing liquidity.
pub const WITHDRAW: [u8; 8] = [0xb7, 0x12, 0x46, 0x9c, 0x94, 0x37, 0xa0, 0xf4];

/// Instruction discriminator for withdrawing profit and loss.
pub const WITHDRAW_PNL: [u8; 8] = [0xd6, 0x8f, 0x37, 0x9a, 0x1f, 0xe1, 0x28, 0x52];

/// The Raydium AMM V4 program address.
pub fn raydium_amm_v4_program_id() -> (k: Pubkey)
    ensures
        k@ == RAYDIUM_AMM_V4_PROGRAM_ID_BYTES@,
{
    Pubkey(RAYDIUM_AMM_V4_PROGRAM_ID_BYTES)
}

/// Direction of a swap.
#[derive(Clone, Copy, Debug, PartialEq, Eq, Structural)]
pub enum SwapDirection {
    /// The base token is the input.
    BaseIn,
    /// The base token is the output.
    BaseOut,
}

impl Default for SwapDirection {
    fn default() -> (r: SwapDirection)
        ensures
            r == SwapDirection::BaseIn,
    {
        SwapDirection::BaseIn
    }
}

/// A swap.
#[derive(Clone, Debug)]
pub struct SwapEvent {
    pub amm: Pubkey,
    pub amm_authority: Pubkey,
    pub amm_open_orders: Pubkey,
    pub amount_in: u64,
    pub amount_out: u64,
    pub direction: SwapDirection,
    pub metadata: EventMetadata,
    pub pool_coin_token_account: Pubkey,
    pub pool_pc_token_account: Pubkey,
    pub serum_market: Pubkey,
    pub serum_program: Pubkey,
    pub user_coin_token_account: Pubkey,
    pub user_owner: Pubkey,
    pub user_pc_token_account: Pubkey,
}

/// A liquidity deposit.
#[derive(Clone, Debug)]
pub struct DepositEvent {
    pub amm: Pubkey,
    pub amm_authority: Pubkey,
    pub amm_open_orders: Pubkey,
    pub amm_target_orders: Pubkey,
    pub base_side: u64,
    pub lp_mint_address: Pubkey,
    pub max_coin_amount: u64,
    pub max_pc_amount: u64,
    pub metadata: EventMetadata,
    pub pool_coin_token_account: Pubkey,
    pub pool_pc_token_account: Pubkey,
    pub serum_market: Pubkey,
    pub token_program: Pubkey,
    pub user_coin_token_account: Pubkey,
    pub user_lp_token_account: Pubkey,
    pub user_owner: Pubkey,
    pub user_pc_token_account: Pubkey,
}

/// A pool initialization.
#[derive(Clone, Debug)]
pub struct Initialize2Event {
    pub amm: Pubkey,
    pub amm_authority: Pubkey,
    pub amm_open_orders: Pubkey,
    pub amm_target_orders: Pubkey,
    pub coin_mint_address: Pubkey,
    pub init_coin_amount: u64,
    pub init_pc_amount: u64,
    pub lp_mint_address: Pubkey,
    pub metadata: EventMetadata,
    pub nonce: u8,
    pub open_time: u64,
    pub pc_mint_address: Pubkey,
    pub pool_coin_token_account: Pubkey,
    pub pool_lp_token_account: Pubkey,
    pub pool_pc_token_account: Pubkey,
    pub pool_temp_lp_token_account: Pubkey,
    pub pool_withdraw_queue: Pubkey,
    pub serum_market: Pubkey,
    pub serum_program: Pubkey,
    pub user_wallet: Pubkey,
}

/// A liquidity withdrawal.
#[derive(Clone, Debug)]
pub struct WithdrawEvent {
    pub amm: Pubkey,
    pub amm_authority: Pubkey,
    pub amm_open_orders: Pubkey,
    pub amm_target_orders: Pubkey,
    pub amount: u64,
    pub lp_mint_address: Pubkey,
    pub metadata: EventMetadata,
    pub pool_coin_token_account: Pubkey,
    pub pool_pc_token_account: Pubkey,
    pub pool_temp_lp_token_account: Pubkey,
    pub pool_withdraw_queue: Pubkey,
    pub serum_asks: Pubkey,
    pub serum_bids: Pubkey,
    pub serum_coin_vault_account: Pubkey,
    pub serum_event_queue: Pubkey,
    pub serum_market: Pubkey,
    pub serum_pc_vault_account: Pubkey,
    pub serum_program: Pubkey,
    pub serum_vault_signer: Pubkey,
    pub token_program: Pubkey,
    pub user_coin_token_account: Pubkey,
    pub user_lp_token_account: Pubkey,
    pub user_owner: Pubkey,
    pub user_pc_token_account: Pubkey,
}

/// A profit-and-loss withdrawal.
#[derive(Clone, Debug)]
pub struct WithdrawPnlEvent {
    pub amm: Pubkey,
    pub amm_authority: Pubkey,
    pub amm_config: Pubkey,
    pub amm_open_orders: Pubkey,
    pub amm_target_orders: Pubkey,
    pub coin_pnl_token_account: Pubkey,
    pub metadata: EventMetadata,
    pub pc_pnl_token_account: Pubkey,
    pub pnl_owner_account: Pubkey,
    pub pool_coin_token_account: Pubkey,
    pub pool_pc_token_account: Pubkey,
    pub serum_coin_vault_account: Pubkey,
    pub serum_event_queue: Pubkey,
    pub serum_market: Pubkey,
    pub serum_pc_vault_account: Pubkey,
    pub serum_program: Pubkey,
    pub serum_vault_signer: Pubkey,
    pub token_program: Pubkey,
}

/// Any event of the Raydium AMM V4 program.
#[derive(Clone, Debug)]
pub enum RaydiumAmmV4Event {
    Swap(SwapEvent),
    Deposit(DepositEvent),
    Initialize2(Initialize2Event),
    Withdraw(WithdrawEvent),
    WithdrawPnl(WithdrawPnlEvent),
}

/// The signature, slot and index of the instruction being decoded.
pub type Ctx = (Seq<char>, u64, Seq<char>);

/// The clock reading that metadata records: milliseconds since the epoch, or 0 beyond `i64`.
pub open spec fn received_ms(now: u128) -> i64 {
    if now <= i64::MAX { now as i64 } else { 0 }
}

/// Whether `m` is the metadata of an event of this program built at clock reading `now`.
pub open spec fn metadata_of(m: EventMetadata, ctx: Ctx, now: u128, event_type: EventType) -> bool {
    metadata_is(
        m,
        ctx.0 + "-"@ + ctx.2,
        ctx.0,
        ctx.1,
        None,
        received_ms(now),
        ctx.2,
        event_type,
        ProtocolTypeView::RaydiumAmmV4,
    )
}

/// The key at position `i` of the account list.
pub open spec fn acct(accounts: Seq<Pubkey>, i: int) -> Seq<u8> {
    accounts[i]@
}

/// The fields of a base-in swap decoded from `data` and `accounts`.
pub open spec fn swap_base_in_fields(e: SwapEvent, data: Seq<u8>, accounts: Seq<Pubkey>) -> bool {
    &&& e.amount_in == u64_at(data, 8)
    &&& e.amount_out == u64_at(data, 16)
    &&& e.direction == SwapDirection::BaseIn
    &&& swap_accounts(e, accounts)
}

/// The fields of a base-out swap decoded from `data` and `accounts`.
pub open spec fn swap_base_out_fields(e: SwapEvent, data: Seq<u8>, accounts: Seq<Pubkey>) -> bool {
    &&& e.amount_in == u64_at(data, 8)
    &&& e.amount_out == u64_at(data, 16)
    &&& e.direction == SwapDirection::BaseOut
    &&& swap_accounts(e, accounts)
}

/// The accounts of a swap: source 0, destination 1, owner 2, amm 3 to 5, pool 6 and 7,
/// market program and market 8 and 9.
pub open spec fn swap_accounts(e: SwapEvent, accounts: Seq<Pubkey>) -> bool {
    &&& e.user_coin_token_account@ == acct(accounts, 0)
    &&& e.user_pc_token_account@ == acct(accounts, 1)
    &&& e.user_owner@ == acct(accounts, 2)
    &&& e.amm@ == acct(accounts, 3)
    &&& e.amm_authority@ == acct(accounts, 4)
    &&& e.amm_open_orders@ == acct(accounts, 5)
    &&& e.pool_coin_token_account@ == acct(accounts, 6)
    &&& e.pool_pc_token_account@ == acct(accounts, 7)
    &&& e.serum_program@ == acct(accounts, 8)
    &&& e.serum_market@ == acct(accounts, 9)
}

/// The fields of a deposit decoded from `data` and `accounts`.
pub open spec fn deposit_fields(e: DepositEvent, data: Seq<u8>, accounts: Seq<Pubkey>) -> bool {
    &&& e.max_coin_amount == u64_at(data, 8)
    &&& e.max_pc_amount == u64_at(data, 16)
    &&& e.base_side == data[24] as u64
    &&& e.token_program@ == acct(accounts, 0)
    &&& e.amm@ == acct(accounts, 1)
    &&& e.amm_authority@ == acct(accounts, 2)
    &&& e.amm_open_orders@ == acct(accounts, 3)
    &&& e.amm_target_orders@ == acct(accounts, 4)
    &&& e.lp_mint_address@ == acct(accounts, 5)
    &&& e.pool_coin_token_account@ == acct(accounts, 6)
    &&& e.pool_pc_token_account@ == acct(accounts, 7)
    &&& e.serum_market@ == acct(accounts, 8)
    &&& e.user_coin_token_account@ == acct(accounts, 9)
    &&& e.user_pc_token_account@ == acct(accounts, 10)
    &&& e.user_lp_token_account@ == acct(accounts, 11)
    &&& e.user_owner@ == acct(accounts, 12)
}

/// The fields of a pool initialization decoded from `data` and `accounts`.
pub open spec fn initialize2_fields(e: Initialize2Event, data: Seq<u8>, accounts: Seq<Pubkey>) -> bool {
    &&& e.nonce == data[8]
    &&& e.open_time == u64_at(data, 9)
    &&& e.init_pc_amount == u64_at(data, 17)
    &&& e.init_coin_amount == u64_at(data, 25)
    &&& e.amm@ == acct(accounts, 4)
    &&& e.amm_authority@ == acct(accounts, 5)
    &&& e.amm_open_orders@ == acct(accounts, 6)
    &&& e.lp_mint_address@ == acct(accounts, 7)
    &&& e.coin_mint_address@ == acct(accounts, 8)
    &&& e.pc_mint_address@ == acct(accounts, 9)
    &&& e.pool_coin_token_account@ == acct(accounts, 10)
    &&& e.pool_pc_token_account@ == acct(accounts, 11)
    &&& e.pool_withdraw_queue@ == acct(accounts, 12)
    &&& e.amm_target_orders@ == acct(accounts, 13)
    &&& e.pool_lp_token_account@ == acct(accounts, 14)
    &&& e.pool_temp_lp_token_account@ == acct(accounts, 15)
    &&& e.serum_program@ == acct(accounts, 16)
    &&& e.serum_market@ == acct(accounts, 17)
    &&& e.user_wallet@ == acct(accounts, 18)
}

/// The fields of a withdrawal decoded from `data` and `accounts`.
pub open spec fn withdraw_fields(e: WithdrawEvent, data: Seq<u8>, accounts: Seq<Pubkey>) -> bool {
    &&& e.amount == u64_at(data, 8)
    &&& e.token_program@ == acct(accounts, 0)
    &&& e.amm@ == acct(accounts, 1)
    &&& e.amm_authority@ == acct(accounts, 2)
    &&& e.amm_open_orders@ == acct(accounts, 3)
    &&& e.amm_target_orders@ == acct(accounts, 4)
    &&& e.lp_mint_address@ == acct(accounts, 5)
    &&& e.pool_coin_token_account@ == acct(accounts, 6)
    &&& e.pool_pc_token_account@ == acct(accounts, 7)
    &&& e.pool_withdraw_queue@ == acct(accounts, 8)
    &&& e.pool_temp_lp_token_account@ == acct(accounts, 9)
    &&& e.serum_program@ == acct(accounts, 10)
    &&& e.serum_market@ == acct(accounts, 11)
    &&& e.serum_coin_vault_account@ == acct(accounts, 12)
    &&& e.serum_pc_vault_account@ == acct(accounts, 13)
    &&& e.serum_vault_signer@ == acct(accounts, 14)
    &&& e.user_lp_token_account@ == acct(accounts, 15)
    &&& e.user_coin_token_account@ == acct(accounts, 16)
    &&& e.user_pc_token_account@ == acct(accounts, 17)
    &&& e.user_owner@ == acct(accounts, 18)
    &&& e.serum_event_queue@ == acct(accounts, 19)
    &&& e.serum_bids@ == acct(accounts, 20)
    &&& e.serum_asks@ == acct(accounts, 21)
}

/// The fields of a profit-and-loss withdrawal decoded from `accounts`.
pub open spec fn withdraw_pnl_fields(e: WithdrawPnlEvent, accounts: Seq<Pubkey>) -> bool {
    &&& e.token_program@ == acct(accounts, 0)
    &&& e.amm@ == acct(accounts, 1)
    &&& e.amm_config@ == acct(accounts, 2)
    &&& e.amm_authority@ == acct(accounts, 3)
    &&& e.amm_open_orders@ == acct(accounts, 4)
    &&& e.pool_coin_token_account@ == acct(accounts, 5)
    &&& e.pool_pc_token_account@ == acct(accounts, 6)
    &&& e.coin_pnl_token_account@ == acct(accounts, 7)
    &&& e.pc_pnl_token_account@ == acct(accounts, 8)
    &&& e.pnl_owner_account@ == acct(accounts, 9)
    &&& e.amm_target_orders@ == acct(accounts, 10)
    &&& e.serum_program@ == acct(accounts, 11)
    &&& e.serum_market@ == acct(accounts, 12)
    &&& e.serum_event_queue@ == acct(accounts, 13)
    &&& e.serum_coin_vault_account@ == acct(accounts, 14)
    &&& e.serum_pc_vault_account@ == acct(accounts, 15)
    &&& e.serum_vault_signer@ == acct(accounts, 16)
}

/// The minimum data length and account count of each instruction.
pub open spec fn needs(disc: Seq<u8>) -> (int, int) {
    if disc == SWAP_BASE_IN@ || disc == SWAP_BASE_OUT@ {
        (24, 16)
    } else if disc == DEPOSIT@ {
        (25, 17)
    } else if disc == INITIALIZE2@ {
        (33, 20)
    } else if disc == WITHDRAW@ {
        (16, 23)
    } else {
        (8, 18)
    }
}

/// The name of each instruction in error messages.
pub open spec fn context_name(disc: Seq<u8>) -> Seq<char> {
    if disc == SWAP_BASE_IN@ {
        "Raydium AMM V4 swap base in"@
    } else if disc == SWAP_BASE_OUT@ {
        "Raydium AMM V4 swap base out"@
    } else if disc == DEPOSIT@ {
        "Raydium AMM V4 deposit"@
    } else if disc == INITIALIZE2@ {
        "Raydium AMM V4 initialize2"@
    } else if disc == WITHDRAW@ {
        "Raydium AMM V4 withdraw"@
    } else {
        "Raydium AMM V4 withdraw PnL"@
    }
}

/// Whether `disc` is one of the six known discriminators.
pub open spec fn is_known(disc: Seq<u8>) -> bool {
    disc == SWAP_BASE_IN@ || disc == SWAP_BASE_OUT@ || disc == DEPOSIT@ || disc == INITIALIZE2@
        || disc == WITHDRAW@ || disc == WITHDRAW_PNL@
}

/// The event that a known instruction with enough data and accounts decodes to.
pub open spec fn event_matches(
    e: RaydiumAmmV4Event,
    disc: Seq<u8>,
    data: Seq<u8>,
    accounts: Seq<Pubkey>,
    ctx: Ctx,
    now: u128,
) -> bool {
    if disc == SWAP_BASE_IN@ {
        e matches RaydiumAmmV4Event::Swap(s) && swap_base_in_fields(s, data, accounts)
            && metadata_of(s.metadata, ctx, now, EventType::Swap)
    } else if disc == SWAP_BASE_OUT@ {
        e matches RaydiumAmmV4Event::Swap(s) && swap_base_out_fields(s, data, accounts)
            && metadata_of(s.metadata, ctx, now, EventType::Swap)
    } else if disc == DEPOSIT@ {
        e matches RaydiumAmmV4Event::Deposit(d) && deposit_fields(d, data, accounts)
            && metadata_of(d.metadata, ctx, now, EventType::AddLiquidity)
    } else if disc == INITIALIZE2@ {
        e matches RaydiumAmmV4Event::Initialize2(i) && initialize2_fields(i, data, accounts)
            && metadata_of(i.metadata, ctx, now, EventType::CreatePool)
    } else if disc == WITHDRAW@ {
        e matches RaydiumAmmV4Event::Withdraw(w) && withdraw_fields(w, data, accounts)
            && metadata_of(w.metadata, ctx, now, EventType::RemoveLiquidity)
    } else {
        e matches RaydiumAmmV4Event::WithdrawPnl(w) && withdraw_pnl_fields(w, accounts)
            && metadata_of(w.metadata, ctx, now, EventType::Transfer)
    }
}

/// "Unknown Raydium AMM V4 discriminator: [..]".
pub open spec fn unknown_message(disc: Seq<u8>) -> Seq<char> {
    "Unknown Raydium AMM V4 discriminator: "@ + hex_list(disc)
}

/// What decoding an instruction gives, in the order the checks are made: the discriminator,
/// the data length, the account count, the clock, and then the event.
pub open spec fn decode_outcome(
    r: ParseResult<RaydiumAmmV4Event>,
    data: Seq<u8>,
    accounts: Seq<Pubkey>,
    ctx: Ctx,
    now: Option<u128>,
) -> bool {
    let disc = data.subrange(0, 8);
    if data.len() < 8 {
        r == Err::<RaydiumAmmV4Event, ParseError>(
            ParseError::NotEnoughBytes { expected: 8, found: data.len() as usize, offset: 0 },
        )
    } else if !is_known(disc) {
        r matches Err(ParseError::InvalidInstructionType(m)) && m@ == unknown_message(disc)
    } else if data.len() < needs(disc).0 {
        r matches Err(ParseError::InvalidDataFormat(m)) && m@ == data_length_message(
            context_name(disc),
            needs(disc).0 as nat,
            data.len(),
        )
    } else if accounts.len() < needs(disc).1 {
        r matches Err(ParseError::InvalidDataFormat(m)) && m@ == account_count_message(
            context_name(disc),
            needs(disc).1 as nat,
            accounts.len(),
        )
    } else if now is None {
        r matches Err(ParseError::InvalidDataFormat(m)) && m@ == "System time error"@
    } else {
        r matches Ok(e) && event_matches(e, disc, data, accounts, ctx, now->0)
    }
}

fn clock_error() -> (e: ParseError)
    ensures
        e matches ParseError::InvalidDataFormat(m) && m@ == "System time error"@,
{
    proof {
        reveal_strlit("System time error");
    }
    ParseError::InvalidDataFormat(String::from_str("System time error"))
}

fn received(now: u128) -> (r: i64)
    ensures
        r == received_ms(now),
{
    if now <= i64::MAX as u128 { now as i64 } else { 0 }
}

fn metadata_for(signature: &str, slot: u64, index: &str, now: u128, event_type: EventType) -> (m: EventMetadata)
    ensures
        metadata_of(m, (signature@, slot, index@), now, event_type),
{
    proof {
        reveal_strlit("-");
    }
    let id = concat3(signature, "-", index);
    create_metadata(
        id,
        String::from_str(signature),
        slot,
        None,
        received(now),
        String::from_str(index),
        event_type,
        ProtocolType::RaydiumAmmV4,
    )
}

fn parse_swap(
    data: &[u8],
    accounts: &[Pubkey],
    signature: &str,
    slot: u64,
    index: &str,
    now: Option<u128>,
    base_in: bool,
) -> (r: ParseResult<RaydiumAmmV4Event>)
    requires
        data@.len() >= 8,
        base_in ==> data@.subrange(0, 8) == SWAP_BASE_IN@,
        !base_in ==> data@.subrange(0, 8) == SWAP_BASE_OUT@,
    ensures
        decode_outcome(r, data@, accounts@, (signature@, slot, index@), now),
{
    let context = if base_in { "Raydium AMM V4 swap base in" } else { "Raydium AMM V4 swap base out" };
    proof {
        reveal_strlit("Raydium AMM V4 swap base in");
        reveal_strlit("Raydium AMM V4 swap base out");
    }
    validate_data_length(data, 24, context)?;
    validate_account_count(accounts, 16, context)?;
    let first = read_u64_le(data, 8)?;
    let second = read_u64_le(data, 16)?;
    let source = safe_get_account(accounts, 0)?;
    let destination = safe_get_account(accounts, 1)?;
    let user_owner = safe_get_account(accounts, 2)?;
    let amm = safe_get_account(accounts, 3)?;
    let amm_authority = safe_get_account(accounts, 4)?;
    let amm_open_orders = safe_get_account(accounts, 5)?;
    let pool_coin_token_account = safe_get_account(accounts, 6)?;
    let pool_pc_token_account = safe_get_account(accounts, 7)?;
    let serum_program = safe_get_account(accounts, 8)?;
    let serum_market = safe_get_account(accounts, 9)?;
    let now = match now {
        Some(t) => t,
        None => return Err(clock_error()),
    };
    let metadata = metadata_for(signature, slot, index, now, EventType::Swap);
    Ok(
        RaydiumAmmV4Event::Swap(
            SwapEvent {
                amount_in: first,
                amount_out: second,
                direction: if base_in { SwapDirection::BaseIn } else { SwapDirection::BaseOut },
                amm,
                amm_authority,
                amm_open_orders,
                pool_coin_token_account,
                pool_pc_token_account,
                serum_program,
                serum_market,
                user_coin_token_account: source,
                user_pc_token_account: destination,
                user_owner,
                metadata,
            },
        ),
    )
}

fn parse_deposit(
    data: &[u8],
    accounts: &[Pubkey],
    signature: &str,
    slot: u64,
    index: &str,
    now: Option<u128>,
) -> (r: ParseResult<RaydiumAmmV4Event>)
    requires
        data@.len() >= 8,
        data@.subrange(0, 8) == DEPOSIT@,
    ensures
        decode_outcome(r, data@, accounts@, (signature@, slot, index@), now),
{
    proof {
        reveal_strlit("Raydium AMM V4 deposit");
    }
    validate_data_length(data, 25, "Raydium AMM V4 deposit")?;
    validate_account_count(accounts, 17, "Raydium AMM V4 deposit")?;
    let max_coin_amount = read_u64_le(data, 8)?;
    let max_pc_amount = read_u64_le(data, 16)?;
    let base_side = read_u8_le(data, 24)? as u64;
    let token_program = safe_get_account(accounts, 0)?;
    let amm = safe_get_account(accounts, 1)?;
    let amm_authority = safe_get_account(accounts, 2)?;
    let amm_open_orders = safe_get_account(accounts, 3)?;
    let amm_target_orders = safe_get_account(accounts, 4)?;
    let lp_mint_address = safe_get_account(accounts, 5)?;
    let pool_coin_token_account = safe_get_account(accounts, 6)?;
    let pool_pc_token_account = safe_get_account(accounts, 7)?;
    let serum_market = safe_get_account(accounts, 8)?;
    let user_coin_token_account = safe_get_account(accounts, 9)?;
    let user_pc_token_account = safe_get_account(accounts, 10)?;
    let user_lp_token_account = safe_get_account(accounts, 11)?;
    let user_owner = safe_get_account(accounts, 12)?;
    let now = match now {
        Some(t) => t,
        None => return Err(clock_error()),
    };
    let metadata = metadata_for(signature, slot, index, now, EventType::AddLiquidity);
    Ok(
        RaydiumAmmV4Event::Deposit(
            DepositEvent {
                amm,
                amm_authority,
                amm_open_orders,
                amm_target_orders,
                base_side,
                lp_mint_address,
                max_coin_amount,
                max_pc_amount,
                metadata,
                pool_coin_token_account,
                pool_pc_token_account,
                serum_market,
                token_program,
                user_coin_token_account,
                user_lp_token_account,
                user_owner,
                user_pc_token_account,
            },
        ),
    )
}

fn parse_initialize2(
    data: &[u8],
    accounts: &[Pubkey],
    signature: &str,
    slot: u64,
    index: &str,
    now: Option<u128>,
) -> (r: ParseResult<RaydiumAmmV4Event>)
    requires
        data@.len() >= 8,
        data@.subrange(0, 8) == INITIALIZE2@,
    ensures
        decode_outcome(r, data@, accounts@, (signature@, slot, index@), now),
{
    proof {
        reveal_strlit("Raydium AMM V4 initialize2");
    }
    validate_data_length(data, 33, "Raydium AMM V4 initialize2")?;
    validate_account_count(accounts, 20, "Raydium AMM V4 initialize2")?;
    let nonce = read_u8_le(data, 8)?;
    let open_time = read_u64_le(data, 9)?;
    let init_pc_amount = read_u64_le(data, 17)?;
    let init_coin_amount = read_u64_le(data, 25)?;
    let amm = safe_get_account(accounts, 4)?;
    let amm_authority = safe_get_account(accounts, 5)?;
    let amm_open_orders = safe_get_account(accounts, 6)?;
    let lp_mint_address = safe_get_account(accounts, 7)?;
    let coin_mint_address = safe_get_account(accounts, 8)?;
    let pc_mint_address = safe_get_account(accounts, 9)?;
    let pool_coin_token_account = safe_get_account(accounts, 10)?;
    let pool_pc_token_account = safe_get_account(accounts, 11)?;
    let pool_withdraw_queue = safe_get_account(accounts, 12)?;
    let amm_target_orders = safe_get_account(accounts, 13)?;
    let pool_lp_token_account = safe_get_account(accounts, 14)?;
    let pool_temp_lp_token_account = safe_get_account(accounts, 15)?;
    let serum_program = safe_get_account(accounts, 16)?;
    let serum_market = safe_get_account(accounts, 17)?;
    let user_wallet = safe_get_account(accounts, 18)?;
    let now = match now {
        Some(t) => t,
        None => return Err(clock_error()),
    };
    let metadata = metadata_for(signature, slot, index, now, EventType::CreatePool);
    Ok(
        RaydiumAmmV4Event::Initialize2(
            Initialize2Event {
                amm,
                amm_authority,
                amm_open_orders,
                amm_target_orders,
                coin_mint_address,
                init_coin_amount,
                init_pc_amount,
                lp_mint_address,
                metadata,
                nonce,
                open_time,
                pc_mint_address,
                pool_coin_token_account,
                pool_lp_token_account,
                pool_pc_token_account,
                pool_temp_lp_token_account,
                pool_withdraw_queue,
                serum_market,
                serum_program,
                user_wallet,
            },
        ),
    )
}

fn parse_withdraw(
    data: &[u8],
    accounts: &[Pubkey],
    signature: &str,
    slot: u64,
    index: &str,
    now: Option<u128>,
) -> (r: ParseResult<RaydiumAmmV4Event>)
    requires
        data@.len() >= 8,
        data@.subrange(0, 8) == WITHDRAW@,
    ensures
        decode_outcome(r, data@, accounts@, (signature@, slot, index@), now),
{
    proof {
        reveal_strlit("Raydium AMM V4 withdraw");
    }
    validate_data_length(data, 16, "Raydium AMM V4 withdraw")?;
    validate_account_count(accounts, 23, "Raydium AMM V4 withdraw")?;
    let amount = read_u64_le(data, 8)?;
    let token_program = safe_get_account(accounts, 0)?;
    let amm = safe_get_account(accounts, 1)?;
    let amm_authority = safe_get_account(accounts, 2)?;
    let amm_open_orders = safe_get_account(accounts, 3)?;
    let amm_target_orders = safe_get_account(accounts, 4)?;
    let lp_mint_address = safe_get_account(accounts, 5)?;
    let pool_coin_token_account = safe_get_account(accounts, 6)?;
    let pool_pc_token_account = safe_get_account(accounts, 7)?;
    let pool_withdraw_queue = safe_get_account(accounts, 8)?;
    let pool_temp_lp_token_account = safe_get_account(accounts, 9)?;
    let serum_program = safe_get_account(accounts, 10)?;
    let serum_market = safe_get_account(accounts, 11)?;
    let serum_coin_vault_account = safe_get_account(accounts, 12)?;
    let serum_pc_vault_account = safe_get_account(accounts, 13)?;
    let serum_vault_signer = safe_get_account(accounts, 14)?;
    let user_lp_token_account = safe_get_account(accounts, 15)?;
    let user_coin_token_account = safe_get_account(accounts, 16)?;
    let user_pc_token_account = safe_get_account(accounts, 17)?;
    let user_owner = safe_get_account(accounts, 18)?;
    let serum_event_queue = safe_get_account(accounts, 19)?;
    let serum_bids = safe_get_account(accounts, 20)?;
    let serum_asks = safe_get_account(accounts, 21)?;
    let now = match now {
        Some(t) => t,
        None => return Err(clock_error()),
    };
    let metadata = metadata_for(signature, slot, index, now, EventType::RemoveLiquidity);
    Ok(
        RaydiumAmmV4Event::Withdraw(
            WithdrawEvent {
                amm,
                amm_authority,
                amm_open_orders,
                amm_target_orders,
                amount,
                lp_mint_address,
                metadata,
                pool_coin_token_account,
                pool_pc_token_account,
                pool_temp_lp_token_account,
                pool_withdraw_queue,
                serum_asks,
                serum_bids,
                serum_coin_vault_account,
                serum_event_queue,
                serum_market,
                serum_pc_vault_account,
                serum_program,
                serum_vault_signer,
                token_program,
                user_coin_token_account,
                user_lp_token_account,
                user_owner,
                user_pc_token_account,
            },
        ),
    )
}

fn parse_withdraw_pnl(
    data: &[u8],
    accounts: &[Pubkey],
    signature: &str,
    slot: u64,
    index: &str,
    now: Option<u128>,
) -> (r: ParseResult<RaydiumAmmV4Event>)
    requires
        data@.len() >= 8,
        data@.subrange(0, 8) == WITHDRAW_PNL@,
    ensures
        decode_outcome(r, data@, accounts@, (signature@, slot, index@), now),
{
    proof {
        reveal_strlit("Raydium AMM V4 withdraw PnL");
    }
    validate_data_length(data, 8, "Raydium AMM V4 withdraw PnL")?;
    validate_account_count(accounts, 18, "Raydium AMM V4 withdraw PnL")?;
    let token_program = safe_get_account(accounts, 0)?;
    let amm = safe_get_account(accounts, 1)?;
    let amm_config = safe_get_account(accounts, 2)?;
    let amm_authority = safe_get_account(accounts, 3)?;
    let amm_open_orders = safe_get_account(accounts, 4)?;
    let pool_coin_token_account = safe_get_account(accounts, 5)?;
    let pool_pc_token_account = safe_get_account(accounts, 6)?;
    let coin_pnl_token_account = safe_get_account(accounts, 7)?;
    let pc_pnl_token_account = safe_get_account(accounts, 8)?;
    let pnl_owner_account = safe_get_account(accounts, 9)?;
    let amm_target_orders = safe_get_account(accounts, 10)?;
    let serum_program = safe_get_account(accounts, 11)?;
    let serum_market = safe_get_account(accounts, 12)?;
    let serum_event_queue = safe_get_account(accounts, 13)?;
    let serum_coin_vault_account = safe_get_account(accounts, 14)?;
    let serum_pc_vault_account = safe_get_account(accounts, 15)?;
    let serum_vault_signer = safe_get_account(accounts, 16)?;
    let now = match now {
        Some(t) => t,
        None => return Err(clock_error()),
    };
    let metadata = metadata_for(signature, slot, index, now, EventType::Transfer);
    Ok(
        RaydiumAmmV4Event::WithdrawPnl(
            WithdrawPnlEvent {
                amm,
                amm_authority,
                amm_config,
                amm_open_orders,
                amm_target_orders,
                coin_pnl_token_account,
                metadata,
                pc_pnl_token_account,
                pnl_owner_account,
                pool_coin_token_account,
                pool_pc_token_account,
                serum_coin_vault_account,
                serum_event_queue,
                serum_market,
                serum_pc_vault_account,
                serum_program,
                serum_vault_signer,
                token_program,
            },
        ),
    )
}

fn same8(data: &[u8], disc: &[u8; 8]) -> (r: bool)
    requires
        data@.len() >= 8,
    ensures
        r == (data@.subrange(0, 8) == disc@),
{
    let mut i: usize = 0;
    while i < 8
        invariant
            0 <= i <= 8,
            data@.len() >= 8,
            forall|j: int| 0 <= j < i ==> data@[j] == disc@[j],
        decreases 8 - i,
    {
        if data[i] != disc[i] {
            proof {
                assert(data@.subrange(0, 8)[i as int] != disc@[i as int]);
            }
            return false;
        }
        i = i + 1;
    }
    proof {
        assert(data@.subrange(0, 8) =~= disc@);
    }
    true
}

fn first8(data: &[u8]) -> (r: Vec<u8>)
    requires
        data@.len() >= 8,
    ensures
        r@ == data@.subrange(0, 8),
{
    let mut out: Vec<u8> = Vec::new();
    let mut i: usize = 0;
    while i < 8
        invariant
            0 <= i <= 8,
            data@.len() >= 8,
            out@ == data@.subrange(0, i as int),
        decreases 8 - i,
    {
        out.push(data[i]);
        i = i + 1;
        proof {
            assert(out@ =~= data@.subrange(0, i as int));
        }
    }
    out
}

/// Decodes one Raydium AMM V4 instruction at clock reading `now` (`None`: the clock read
/// before the epoch).
pub fn decode_instruction(
    data: &[u8],
    accounts: &[Pubkey],
    signature: &str,
    slot: u64,
    index: &str,
    now: Option<u128>,
) -> (r: ParseResult<RaydiumAmmV4Event>)
    ensures
        decode_outcome(r, data@, accounts@, (signature@, slot, index@), now),
{
    if data.len() < 8 {
        return Err(ParseError::NotEnoughBytes { expected: 8, found: data.len(), offset: 0 });
    }
    if same8(data, &SWAP_BASE_IN) {
        parse_swap(data, accounts, signature, slot, index, now, true)
    } else if same8(data, &SWAP_BASE_OUT) {
        parse_swap(data, accounts, signature, slot, index, now, false)
    } else if same8(data, &DEPOSIT) {
        parse_deposit(data, accounts, signature, slot, index, now)
    } else if same8(data, &INITIALIZE2) {
        parse_initialize2(data, accounts, signature, slot, index, now)
    } else if same8(data, &WITHDRAW) {
        parse_withdraw(data, accounts, signature, slot, index, now)
    } else if same8(data, &WITHDRAW_PNL) {
        parse_withdraw_pnl(data, accounts, signature, slot, index, now)
    } else {
        proof {
            reveal_strlit("Unknown Raydium AMM V4 discriminator: ");
        }
        let disc = first8(data);
        let listed = hex_list_string(disc.as_slice());
        let mut m = String::from_str("Unknown Raydium AMM V4 discriminator: ");
        m.append(listed.as_str());
        Err(ParseError::InvalidInstructionType(m))
    }
}

/// What a decoded instruction reports of the amounts and parties that the user names. A swap,
/// either way, reports the first amount of the data (bytes 8..16: the amount put in, or the
/// most put in) as `amount_in` and the second (bytes 16..24: the least taken out, or the amount
/// taken out) as `amount_out`, with the direction that its discriminator names, and the user's
/// source, destination and owner as accounts 0, 1 and 2. A deposit reports the most coin
/// (bytes 8..16) and the most pc (bytes 16..24) it puts in, and the user's coin and pc
/// accounts as accounts 9 and 10. An initialize2 reports the pc amount (bytes 17..25) before
/// the coin amount (bytes 25..33). A withdraw reports its amount from bytes 8..16. Without the
/// clock's reading nothing decodes.
pub proof fn decoded_amounts_keep_their_places(
    data: &[u8],
    accounts: &[Pubkey],
    signature: &str,
    slot: u64,
    index: &str,
    now: Option<u128>,
    r: ParseResult<RaydiumAmmV4Event>,
)
    requires
        call_ensures(decode_instruction, (data, accounts, signature, slot, index, now), r),
    ensures
        r is Ok ==> data@.len() >= 8,
        r is Ok && (data@.subrange(0, 8) == SWAP_BASE_IN@ || data@.subrange(0, 8) == SWAP_BASE_OUT@) ==> (
        r matches Ok(RaydiumAmmV4Event::Swap(e)) && e.amount_in == u64_at(data@, 8) && e.amount_out == u64_at(
            data@,
            16,
        ) && e.user_coin_token_account@ == accounts@[0]@ && e.user_pc_token_account@ == accounts@[1]@
            && e.user_owner@ == accounts@[2]@),
        r is Ok && data@.subrange(0, 8) == SWAP_BASE_IN@ ==> (r matches Ok(RaydiumAmmV4Event::Swap(e))
            && e.direction == SwapDirection::BaseIn),
        r is Ok && data@.subrange(0, 8) == SWAP_BASE_OUT@ ==> (r matches Ok(RaydiumAmmV4Event::Swap(e))
            && e.direction == SwapDirection::BaseOut),
        r is Ok && data@.subrange(0, 8) == DEPOSIT@ ==> (r matches Ok(RaydiumAmmV4Event::Deposit(e))
            && e.max_coin_amount == u64_at(data@, 8) && e.max_pc_amount == u64_at(data@, 16)
            && e.user_coin_token_account@ == accounts@[9]@ && e.user_pc_token_account@ == accounts@[10]@),
        r is Ok && data@.subrange(0, 8) == INITIALIZE2@ ==> (r matches Ok(RaydiumAmmV4Event::Initialize2(e))
            && e.init_pc_amount == u64_at(data@, 17) && e.init_coin_amount == u64_at(data@, 25)),
        r is Ok && data@.subrange(0, 8) == WITHDRAW@ ==> (r matches Ok(RaydiumAmmV4Event::Withdraw(e))
            && e.amount == u64_at(data@, 8)),
        now is None ==> r is Err,
{
    assert(SWAP_BASE_IN@[0] != SWAP_BASE_OUT@[0]);
    assert(SWAP_BASE_IN@[0] != DEPOSIT@[0] && SWAP_BASE_OUT@[0] != DEPOSIT@[0]);
    assert(SWAP_BASE_IN@[0] != INITIALIZE2@[0] && SWAP_BASE_OUT@[0] != INITIALIZE2@[0]
        && DEPOSIT@[0] != INITIALIZE2@[0]);
    assert(SWAP_BASE_IN@[0] != WITHDRAW@[0] && SWAP_BASE_OUT@[0] != WITHDRAW@[0] && DEPOSIT@[0] != WITHDRAW@[0]
        && INITIALIZE2@[0] != WITHDRAW@[0]);
}


/// Decodes one instruction, stamping its metadata with the current clock. Whatever the clock
/// reads, the result is what `decode_instruction` gives for that reading.
fn parse_instruction_internal(
    data: &[u8],
    accounts: &[Pubkey],
    signature: &str,
    slot: u64,
    index: &str,
) -> (r: ParseResult<RaydiumAmmV4Event>)
    ensures
        exists|now: Option<u128>| decode_outcome(r, data@, accounts@, (signature@, slot, index@), now),
{
    let now = crate::clock::now_millis();
    decode_instruction(data, accounts, signature, slot, index, now)
}

/// Whether the parser accepts `input`.
pub open spec fn accepts(input: SolanaTransactionInput) -> bool {
    input is Instruction
}

/// What parsing `input` may give.
pub open spec fn parse_outcome(input: SolanaTransactionInput, events: Seq<RaydiumAmmV4Event>) -> bool {
    match input {
        SolanaTransactionInput::InnerInstruction(_) => events.len() == 0,
        SolanaTransactionInput::Instruction(p) => exists|
            res: ParseResult<RaydiumAmmV4Event>,
            now: Option<u128>,
        |
            decode_outcome(
                res,
                p.instruction_data@,
                p.accounts@,
                (p.signature@, p.slot, p.index@),
                now,
            ) && (res matches Ok(e) ==> events == seq![e]) && (res is Err ==> events.len() == 0),
    }
}

/// The Raydium AMM V4 event parser.
#[derive(Debug, Clone, Copy)]
pub struct Parser;

impl Default for Parser {
    fn default() -> (p: Parser)
        ensures
            p == Parser,
    {
        Parser
    }
}

impl Parser {
    /// A parser.
    pub fn new() -> (p: Parser)
        ensures
            p == Parser,
    {
        Parser
    }

    /// Whether `program_id` is the Raydium AMM V4 program.
    pub fn should_handle(&self, program_id: &Pubkey) -> (r: bool)
        ensures
            r == (program_id@ == RAYDIUM_AMM_V4_PROGRAM_ID_BYTES@),
    {
        *program_id == raydium_amm_v4_program_id()
    }

    /// The one program this parser handles.
    pub fn supported_program_ids(&self) -> (r: Vec<Pubkey>)
        ensures
            r@.len() == 1,
            r@[0]@ == RAYDIUM_AMM_V4_PROGRAM_ID_BYTES@,
    {
        let mut v: Vec<Pubkey> = Vec::new();
        v.push(raydium_amm_v4_program_id());
        v
    }

    /// Only top-level instructions are decoded.
    pub fn can_parse(&self, input: &SolanaTransactionInput) -> (r: bool)
        ensures
            r == accepts(*input),
    {
        match input {
            SolanaTransactionInput::Instruction(_) => true,
            SolanaTransactionInput::InnerInstruction(_) => false,
        }
    }

    /// Decodes a top-level instruction into at most one event; a failed decode and an inner
    /// instruction give no event.
    pub fn parse(&self, input: &SolanaTransactionInput) -> (r: Vec<RaydiumAmmV4Event>)
        ensures
            parse_outcome(*input, r@),
    {
        match input {
            SolanaTransactionInput::Instruction(p) => {
                let res = parse_instruction_internal(
                    p.instruction_data.as_slice(),
                    p.accounts.as_slice(),
                    p.signature.as_str(),
                    p.slot,
                    p.index.as_str(),
                );
                let mut out: Vec<RaydiumAmmV4Event> = Vec::new();
                match res {
                    Ok(e) => {
                        out.push(e);
                    },
                    Err(_) => {},
                }
                proof {
                    assert(res matches Ok(e) ==> out@ =~= seq![e]);
                }
                out
            },
            SolanaTransactionInput::InnerInstruction(_) => Vec::new(),
        }
    }
}

} // verus!
