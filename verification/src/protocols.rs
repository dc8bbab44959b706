pub mod bonk;
pub mod jupiter;
pub mod marginfi;
pub mod meteora;
pub mod orca;
pub mod pumpswap;
pub mod raydium_amm_v4;
pub mod raydium_clmm;
