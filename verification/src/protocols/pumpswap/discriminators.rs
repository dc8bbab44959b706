use vstd::prelude::*;

verus! {

/// Name of the buy event in the parser's table of logged events.
pub const BUY_EVENT: &'static str = "pumpswap_buy_event";

/// Name of the sell event in the parser's table of logged events.
pub const SELL_EVENT: &'static str = "pumpswap_sell_event";

/// Name of the pool creation event in the parser's table of logged events.
pub const CREATE_POOL_EVENT: &'static str = "pumpswap_create_pool_event";

/// Name of the deposit event in the parser's table of logged events.
pub const DEPOSIT_EVENT: &'static str = "pumpswap_deposit_event";

/// Name of the withdrawal event in the parser's table of logged events.
pub const WITHDRAW_EVENT: &'static str = "pumpswap_withdraw_event";

/// Log discriminator of buy events.
pub const BUY_EVENT_BYTES: [u8; 16] = [
    0xe4, 0x45, 0xa5, 0x2e, 0x51, 0xcb, 0x9a, 0x1d, 0x67, 0xf4, 0x52, 0x1f, 0x2c, 0xf5, 0x77, 0x77,
];

/// Log discriminator of sell events.
pub const SELL_EVENT_BYTES: [u8; 16] = [
    0xe4, 0x45, 0xa5, 0x2e, 0x51, 0xcb, 0x9a, 0x1d, 0x3e, 0x2f, 0x37, 0x0a, 0xa5, 0x03, 0xdc, 0x2a,
];

/// Log discriminator of pool creation events.
pub const CREATE_POOL_EVENT_BYTES: [u8; 16] = [
    0xe4, 0x45, 0xa5, 0x2e, 0x51, 0xcb, 0x9a, 0x1d, 0xb1, 0x31, 0x0c, 0xd2, 0xa0, 0x76, 0xa7, 0x74,
];

/// Log discriminator of deposit events.
pub const DEPOSIT_EVENT_BYTES: [u8; 16] = [
    0xe4, 0x45, 0xa5, 0x2e, 0x51, 0xcb, 0x9a, 0x1d, 0x78, 0xf8, 0x3d, 0x53, 0x1f, 0x8e, 0x6b, 0x90,
];

/// Log discriminator of withdrawal events.
pub const WITHDRAW_EVENT_BYTES: [u8; 16] = [
    0xe4, 0x45, 0xa5, 0x2e, 0x51, 0xcb, 0x9a, 0x1d, 0x16, 0x09, 0x85, 0x1a, 0xa0, 0x2c, 0x47, 0xc0,
];

/// Instruction discriminator of buys.
pub const BUY_IX: [u8; 8] = [102, 6, 61, 18, 1, 218, 235, 234];

/// Instruction discriminator of sells.
pub const SELL_IX: [u8; 8] = [51, 230, 133, 164, 1, 127, 131, 173];

/// Instruction discriminator of pool creations.
pub const CREATE_POOL_IX: [u8; 8] = [233, 146, 209, 142, 207, 104, 64, 188];

/// Instruction discriminator of deposits.
pub const DEPOSIT_IX: [u8; 8] = [242, 35, 198, 137, 82, 225, 242, 182];

/// Instruction discriminator of withdrawals.
pub const WITHDRAW_IX: [u8; 8] = [183, 18, 70, 156, 148, 109, 161, 34];

} // verus!
