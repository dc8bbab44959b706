use std::mem::size_of;

use riglr_solana_events::protocols::bonk::{
    EventParser as BonkEventParser, PoolCreateEvent as BonkPoolCreateEvent,
    TradeDirection, TradeEvent as BonkTradeEvent,
};
use riglr_solana_events::protocols::jupiter::{
    EventParser as JupiterEventParser, LiquidityEvent as JupiterLiquidityEvent,
    SwapEvent as JupiterSwapEvent,
};
use riglr_solana_events::protocols::marginfi::{
    MarginFiAccount, MarginFiDepositEvent, MarginFiEventParser, MarginFiWithdrawEvent,
};
use riglr_solana_events::protocols::meteora::{
    DynamicLiquidityEvent as MeteoraDynamicLiquidityEvent, Parser as MeteoraEventParser,
    SwapEvent as MeteoraSwapEvent,
};
use riglr_solana_events::protocols::orca::{
    Parser as OrcaEventParser, PositionEvent as OrcaPositionEvent, SwapEvent as OrcaSwapEvent,
};
use riglr_solana_events::protocols::pumpswap::{
    PumpSwapBuyEvent, PumpSwapEventParser, PumpSwapSellEvent,
};
use riglr_solana_events::protocols::raydium_amm_v4::{
    DepositEvent as RaydiumAmmV4DepositEvent, Parser as RaydiumAmmV4EventParser,
    SwapEvent as RaydiumAmmV4SwapEvent,
};
use riglr_solana_events::protocols::raydium_clmm::{
    raydium_clmm_program_id, CreatePoolEvent as RaydiumClmmCreatePoolEvent,
    Parser as RaydiumClmmEventParser, SwapEvent as RaydiumClmmSwapEvent,
};

#[test]
fn bonk_module_exports_when_accessed_should_be_available() {
    let _trade_event = size_of::<BonkTradeEvent>();
    let _pool_event = size_of::<BonkPoolCreateEvent>();
    let _parser = size_of::<BonkEventParser>();
    let _direction = size_of::<TradeDirection>();
}

#[test]
fn jupiter_module_exports_when_accessed_should_be_available() {
    let _swap_event = size_of::<JupiterSwapEvent>();
    let _liquidity_event = size_of::<JupiterLiquidityEvent>();
    let _parser = size_of::<JupiterEventParser>();
}

#[test]
fn marginfi_module_exports_when_accessed_should_be_available() {
    let _deposit_event = size_of::<MarginFiDepositEvent>();
    let _withdraw_event = size_of::<MarginFiWithdrawEvent>();
    let _parser = size_of::<MarginFiEventParser>();
    let _account = size_of::<MarginFiAccount>();
}

#[test]
fn meteora_module_exports_when_accessed_should_be_available() {
    let _swap_event = size_of::<MeteoraSwapEvent>();
    let _liquidity_event = size_of::<MeteoraDynamicLiquidityEvent>();
    let _parser = size_of::<MeteoraEventParser>();
}

#[test]
fn orca_module_exports_when_accessed_should_be_available() {
    let _swap_event = size_of::<OrcaSwapEvent>();
    let _position_event = size_of::<OrcaPositionEvent>();
    let _parser = size_of::<OrcaEventParser>();
}

#[test]
fn pumpswap_module_exports_when_accessed_should_be_available() {
    let _buy_event = size_of::<PumpSwapBuyEvent>();
    let _sell_event = size_of::<PumpSwapSellEvent>();
    let _parser = size_of::<PumpSwapEventParser>();
}

#[test]
fn raydium_v4_module_exports_when_accessed_should_be_available() {
    let _swap_event = size_of::<RaydiumAmmV4SwapEvent>();
    let _deposit_event = size_of::<RaydiumAmmV4DepositEvent>();
    let _parser = size_of::<RaydiumAmmV4EventParser>();
}

#[test]
fn raydium_clmm_module_exports_when_accessed_should_be_available() {
    let _swap_event = size_of::<RaydiumClmmSwapEvent>();
    let _create_pool_event = size_of::<RaydiumClmmCreatePoolEvent>();
    let _parser = size_of::<RaydiumClmmEventParser>();
    let program_id = raydium_clmm_program_id();
    let _ = program_id;
}

#[test]
fn module_compilation_when_imported_should_succeed() {}

#[test]
fn re_exports_when_used_should_not_conflict() {
    let _bonk_trade_event = size_of::<BonkTradeEvent>();
    let _jupiter_swap_event = size_of::<JupiterSwapEvent>();
    let _marginfi_deposit_event = size_of::<MarginFiDepositEvent>();
    let _meteora_swap_event = size_of::<MeteoraSwapEvent>();
    let _orca_swap_event = size_of::<OrcaSwapEvent>();
    let _pumpswap_buy_event = size_of::<PumpSwapBuyEvent>();
    let _v4_swap_event = size_of::<RaydiumAmmV4SwapEvent>();
    let _clmm_swap_event = size_of::<RaydiumClmmSwapEvent>();
}
