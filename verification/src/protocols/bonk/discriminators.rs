use vstd::prelude::*;

verus! {

/// Name of the trade event in the parser's table of logged events.
pub const TRADE_EVENT: &'static str = "bonk_trade_event";

/// Name of the pool creation event in the parser's table of logged events.
pub const POOL_CREATE_EVENT: &'static str = "bonk_pool_create_event";

/// Log discriminator of trade events.
pub const TRADE_EVENT_BYTES: [u8; 16] = [
    0x42, 0x6F, 0x6E, 0x6B, 0x54, 0x72, 0x61, 0x64, 0x65, 0x45, 0x76, 0x65, 0x6E, 0x74, 0x00, 0x00,
];

/// Log discriminator of pool creation events.
pub const POOL_CREATE_EVENT_BYTES: [u8; 16] = [
    0x42, 0x6F, 0x6E, 0x6B, 0x50, 0x6F, 0x6F, 0x6C, 0x43, 0x72, 0x65, 0x61, 0x74, 0x65, 0x00, 0x00,
];

/// Instruction discriminator of exact-input buys.
pub const BUY_EXACT_IN_IX: [u8; 8] = [0x42, 0x75, 0x79, 0x49, 0x6E, 0x00, 0x00, 0x00];

/// Instruction discriminator of exact-output buys.
pub const BUY_EXACT_OUT_IX: [u8; 8] = [0x42, 0x75, 0x79, 0x4F, 0x75, 0x74, 0x00, 0x00];

/// Instruction discriminator of exact-input sells.
pub const SELL_EXACT_IN_IX: [u8; 8] = [0x53, 0x65, 0x6C, 0x6C, 0x49, 0x6E, 0x00, 0x00];

/// Instruction discriminator of exact-output sells.
pub const SELL_EXACT_OUT_IX: [u8; 8] = [0x53, 0x65, 0x6C, 0x6C, 0x4F, 0x75, 0x74, 0x00];

/// Instruction discriminator of pool initialization.
pub const INITIALIZE_IX: [u8; 8] = [0x49, 0x6E, 0x69, 0x74, 0x00, 0x00, 0x00, 0x00];

/// Instruction discriminator of migration to the AMM.
pub const MIGRATE_TO_AMM_IX: [u8; 8] = [0x4D, 0x69, 0x67, 0x41, 0x4D, 0x4D, 0x00, 0x00];

/// Instruction discriminator of migration to CPSwap.
pub const MIGRATE_TO_CPSWAP_IX: [u8; 8] = [0x4D, 0x69, 0x67, 0x43, 0x50, 0x00, 0x00, 0x00];

} // verus!
