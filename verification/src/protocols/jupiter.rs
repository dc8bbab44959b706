use vstd::prelude::*;
use vstd::string::*;

use crate::factory::{config_is, EventParseConfig, SolanaTransactionInput};
use crate::types::{
    key_of_text, key_or_zero, metadata_from, metadata_from_parameters, pubkey_from_text, zero_key,
    EventMetadata, EventParameters, EventType, ProtocolType, ProtocolTypeView, Pubkey,
    TransferData,
};

verus! {

/// The Jupiter V6 program address, as base58 text.
pub const JUPITER_V6_PROGRAM_ID: &'static str = "JUP6LkbZbjS1jKKwapdHNy74zcZ3tLUZoi5QNyVTaV4";

/// Instruction discriminator of shared-accounts routes.
pub const ROUTE_DISCRIMINATOR: [u8; 8] = [0x57, 0x03, 0xfe, 0xb8, 0xe7, 0x57, 0x39, 0x09];

/// Instruction discriminator of shared-accounts exact-output routes.
pub const EXACT_OUT_ROUTE_DISCRIMINATOR: [u8; 8] = [0x41, 0xd8, 0xfa, 0x8d, 0xac, 0x72, 0x6b, 0x69];

/// Instruction discriminator of routes.
pub const LEGACY_ROUTE_DISCRIMINATOR: [u8; 8] = [0xe5, 0x17, 0xcb, 0x97, 0x7a, 0xe3, 0xad, 0x2a];

/// Instruction discriminator of exact-output routes.
pub const LEGACY_EXACT_OUT_DISCRIMINATOR: [u8; 8] = [0x7e, 0x2c, 0x8e, 0xa1, 0xd9, 0xa6, 0x5b, 0xc6];

/// Instruction discriminator of swaps.
pub const SWAP_DISCRIMINATOR: [u8; 8] = [0xf8, 0xc6, 0x9e, 0x91, 0xe1, 0x75, 0x87, 0xc8];

/// Instruction discriminator of routes with a token ledger.
pub const ROUTE_WITH_TOKEN_LEDGER_DISCRIMINATOR: [u8; 8] = [0x34, 0x65, 0x0f, 0x14, 0x74, 0x5e, 0x8d, 0xe8];

/// An account that a route step passes to a swap program.
#[derive(Debug, Clone)]
pub struct AccountMeta {
    pub is_signer: bool,
    pub is_writable: bool,
    pub pubkey: Pubkey,
}

/// The swap that one route step performs.
#[derive(Debug, Clone)]
pub struct SwapInfo {
    pub destination_token: Pubkey,
    pub destination_token_account: Pubkey,
    pub source_token: Pubkey,
    pub source_token_account: Pubkey,
    pub swap_accounts: Vec<AccountMeta>,
    pub swap_data: Vec<u8>,
    pub swap_program_id: Pubkey,
}

/// One step of a route: a share of the amount and the swap it goes through.
#[derive(Debug, Clone)]
pub struct RoutePlanStep {
    pub percent: u8,
    pub swap: SwapInfo,
}

/// The arguments of a shared-accounts route.
#[derive(Debug, Clone)]
pub struct SharedAccountsRouteData {
    pub in_amount: u64,
    pub platform_fee_bps: u8,
    pub quoted_out_amount: u64,
    pub route_plan: Vec<RoutePlanStep>,
    pub slippage_bps: u16,
}

/// The arguments of a shared-accounts exact-output route.
#[derive(Debug, Clone)]
pub struct SharedAccountsExactOutRouteData {
    pub out_amount: u64,
    pub platform_fee_bps: u8,
    pub quoted_in_amount: u64,
    pub route_plan: Vec<RoutePlanStep>,
    pub slippage_bps: u16,
}

/// One leg of a swap's route, as reported.
#[derive(Debug, Clone)]
pub struct RoutePlan {
    pub amount_in: u64,
    pub amount_out: u64,
    pub dex_label: String,
    pub input_mint: Pubkey,
    pub output_mint: Pubkey,
}

/// What a Jupiter swap reports.
#[derive(Debug, Clone)]
pub struct JupiterSwapData {
    pub input_amount: u64,
    pub input_mint: Pubkey,
    pub output_amount: u64,
    pub output_mint: Pubkey,
    pub platform_fee_bps: Option<u32>,
    pub price_impact_pct: Option<String>,
    pub route_plan: Vec<RoutePlan>,
    pub user: Pubkey,
}

impl Default for JupiterSwapData {
    fn default() -> (r: JupiterSwapData)
        ensures
            r.input_amount == 0,
            r.input_mint@ == zero_key(),
            r.output_amount == 0,
            r.output_mint@ == zero_key(),
            r.platform_fee_bps is None,
            r.price_impact_pct is None,
            r.route_plan@.len() == 0,
            r.user@ == zero_key(),
    {
        JupiterSwapData {
            input_amount: 0,
            input_mint: Pubkey::default(),
            output_amount: 0,
            output_mint: Pubkey::default(),
            platform_fee_bps: None,
            price_impact_pct: None,
            route_plan: Vec::new(),
            user: Pubkey::default(),
        }
    }
}

/// The accounts of a swap instruction.
#[derive(Debug, Clone)]
pub struct AccountLayout {
    pub destination_mint: Pubkey,
    pub destination_token_account: Pubkey,
    pub platform_fee_account: Option<Pubkey>,
    pub source_mint: Pubkey,
    pub user_destination_token_account: Pubkey,
    pub user_source_token_account: Pubkey,
    pub user_transfer_authority: Pubkey,
}

/// A swap.
#[derive(Debug, Clone)]
pub struct SwapEvent {
    pub metadata: EventMetadata,
    pub swap_data: JupiterSwapData,
    pub transfer_data: Vec<TransferData>,
}

/// A liquidity change.
#[derive(Debug, Clone)]
pub struct LiquidityEvent {
    pub amount_a: u64,
    pub amount_b: u64,
    pub is_remove: bool,
    pub liquidity_amount: u64,
    pub metadata: EventMetadata,
    pub mint_a: Pubkey,
    pub mint_b: Pubkey,
    pub transfer_data: Vec<TransferData>,
    pub user: Pubkey,
}

/// A swap as the program logs it.
#[derive(Debug, Clone)]
pub struct SwapBorshEvent {
    pub input_amount: u64,
    pub input_mint: Pubkey,
    pub metadata: EventMetadata,
    pub output_amount: u64,
    pub output_mint: Pubkey,
    pub platform_fee_bps: u8,
    pub slippage_bps: u16,
    pub user: Pubkey,
}

/// An event of the Jupiter program.
#[derive(Debug, Clone)]
pub enum JupiterEvent {
    Swap(SwapEvent),
    Liquidity(LiquidityEvent),
}

impl SwapEvent {
    /// A swap described by `swap_data`, with metadata built from `params`.
    pub fn new(params: EventParameters, swap_data: JupiterSwapData) -> (e: SwapEvent)
        ensures
            metadata_from(e.metadata, params, EventType::Swap, ProtocolTypeView::Jupiter),
            e.swap_data == swap_data,
            e.transfer_data@.len() == 0,
    {
        SwapEvent {
            metadata: metadata_from_parameters(params, EventType::Swap, ProtocolType::Jupiter),
            swap_data,
            transfer_data: Vec::new(),
        }
    }

    /// The same swap with `transfer_data` as its transfers.
    pub fn with_transfer_data(self, transfer_data: Vec<TransferData>) -> (e: SwapEvent)
        ensures
            e == (SwapEvent { transfer_data, ..self }),
    {
        SwapEvent { transfer_data, ..self }
    }
}

impl LiquidityEvent {
    /// A liquidity addition with metadata built from `params` and everything else empty.
    pub fn new(params: EventParameters) -> (e: LiquidityEvent)
        ensures
            metadata_from(e.metadata, params, EventType::AddLiquidity, ProtocolTypeView::Jupiter),
            e.user@ == zero_key(),
            e.mint_a@ == zero_key(),
            e.mint_b@ == zero_key(),
            e.amount_a == 0,
            e.amount_b == 0,
            e.liquidity_amount == 0,
            !e.is_remove,
            e.transfer_data@.len() == 0,
    {
        LiquidityEvent {
            amount_a: 0,
            amount_b: 0,
            is_remove: false,
            liquidity_amount: 0,
            metadata: metadata_from_parameters(params, EventType::AddLiquidity, ProtocolType::Jupiter),
            mint_a: Pubkey::default(),
            mint_b: Pubkey::default(),
            transfer_data: Vec::new(),
            user: Pubkey::default(),
        }
    }

    /// The same event with `transfer_data` as its transfers.
    pub fn with_transfer_data(self, transfer_data: Vec<TransferData>) -> (e: LiquidityEvent)
        ensures
            e == (LiquidityEvent { transfer_data, ..self }),
    {
        LiquidityEvent { transfer_data, ..self }
    }

    /// The same event with the three amounts set.
    pub fn with_amounts(self, amount_a: u64, amount_b: u64, liquidity_amount: u64) -> (e: LiquidityEvent)
        ensures
            e == (LiquidityEvent { amount_a, amount_b, liquidity_amount, ..self }),
    {
        LiquidityEvent { amount_a, amount_b, liquidity_amount, ..self }
    }

    /// The same event with the two mints set.
    pub fn with_mints(self, mint_a: Pubkey, mint_b: Pubkey) -> (e: LiquidityEvent)
        ensures
            e == (LiquidityEvent { mint_a, mint_b, ..self }),
    {
        LiquidityEvent { mint_a, mint_b, ..self }
    }

    /// The same event marked as a removal or not.
    pub fn with_removal(self, is_remove: bool) -> (e: LiquidityEvent)
        ensures
            e == (LiquidityEvent { is_remove, ..self }),
    {
        LiquidityEvent { is_remove, ..self }
    }

    /// The same event with the user set.
    pub fn with_user(self, user: Pubkey) -> (e: LiquidityEvent)
        ensures
            e == (LiquidityEvent { user, ..self }),
    {
        LiquidityEvent { user, ..self }
    }
}

/// The Jupiter V6 program address; the zero address were the text not to name one.
pub fn v6_program_id() -> (k: Pubkey)
    ensures
        k@ == key_or_zero(key_of_text(JUPITER_V6_PROGRAM_ID@)),
{
    match pubkey_from_text(JUPITER_V6_PROGRAM_ID) {
        Some(k) => k,
        None => Pubkey::default(),
    }
}

/// Whether `program_id` is the Jupiter V6 program.
pub fn is_jupiter_v6_program(program_id: &Pubkey) -> (r: bool)
    ensures
        r == (program_id@ == key_or_zero(key_of_text(JUPITER_V6_PROGRAM_ID@))),
{
    *program_id == v6_program_id()
}

/// Whether the parser accepts `input`.
pub open spec fn accepts(input: SolanaTransactionInput) -> bool {
    true
}

/// What parsing `input` may give.
pub open spec fn parse_outcome(input: SolanaTransactionInput, events: Seq<JupiterEvent>) -> bool {
    events.len() == 0
}

/// The decoders that the Jupiter tables hand an instruction or its log to.
#[derive(Debug, Clone, Copy, PartialEq, Eq, Structural)]
pub enum JupiterDecoder {
    Route,
    ExactOutRoute,
}

/// Whether `c` is entry `i` of the Jupiter tables, in the order in which they list them.
pub open spec fn jupiter_config(c: EventParseConfig<JupiterDecoder>, i: int) -> bool {
    let program = key_or_zero(key_of_text(JUPITER_V6_PROGRAM_ID@));
    if i == 0 {
        config_is(c, JupiterDecoder::Route, EventType::Swap, "swap"@, ROUTE_DISCRIMINATOR@, program, ProtocolTypeView::Other("Jupiter"@))
    } else {
        config_is(c, JupiterDecoder::ExactOutRoute, EventType::Swap, "exactOutRoute"@, EXACT_OUT_ROUTE_DISCRIMINATOR@, program, ProtocolTypeView::Other("Jupiter"@))
    }
}

fn jupiter_entry(i: usize) -> (c: EventParseConfig<JupiterDecoder>)
    requires
        i < 2,
    ensures
        jupiter_config(c, i as int),
{
    let program = v6_program_id();
    if i == 0 {
        EventParseConfig::new(JupiterDecoder::Route, EventType::Swap, "swap", ROUTE_DISCRIMINATOR.as_slice(), program, ProtocolType::Other(String::from_str("Jupiter")))
    } else {
        EventParseConfig::new(JupiterDecoder::ExactOutRoute, EventType::Swap, "exactOutRoute", EXACT_OUT_ROUTE_DISCRIMINATOR.as_slice(), program, ProtocolType::Other(String::from_str("Jupiter")))
    }
}

/// The Jupiter event parser. It recognises the V6 program but decodes no events yet.
#[derive(Debug, Clone, Copy)]
pub struct EventParser;

impl Default for EventParser {
    fn default() -> (p: EventParser)
        ensures
            p == EventParser,
    {
        EventParser
    }
}

impl EventParser {
    /// The entries of the tables, in order.
    pub fn configs(&self) -> (r: Vec<EventParseConfig<JupiterDecoder>>)
        ensures
            r@.len() == 2,
            forall|i: int| 0 <= i < 2 ==> #[trigger] jupiter_config(r@[i], i),
    {
        let mut r: Vec<EventParseConfig<JupiterDecoder>> = Vec::new();
        let mut i: usize = 0;
        while i < 2
            invariant
                0 <= i <= 2,
                r@.len() == i,
                forall|j: int| 0 <= j < i ==> #[trigger] jupiter_config(r@[j], j),
            decreases 2 - i,
        {
            r.push(jupiter_entry(i));
            i = i + 1;
        }
        r
    }

    /// The table keyed by the name of a logged event: each name with its one entry.
    pub fn inner_instruction_configs(&self) -> (r: Vec<(&'static str, Vec<EventParseConfig<JupiterDecoder>>)>)
        ensures
            r@.len() == 2,
            forall|i: int|
                0 <= i < 2 ==> (#[trigger] r@[i]).1@.len() == 1 && jupiter_config(r@[i].1@[0], i)
                    && r@[i].0@ == r@[i].1@[0].inner_instruction_discriminator@,
    {
        let mut r: Vec<(&'static str, Vec<EventParseConfig<JupiterDecoder>>)> = Vec::new();
        let mut i: usize = 0;
        while i < 2
            invariant
                0 <= i <= 2,
                r@.len() == i,
                forall|j: int|
                    0 <= j < i ==> (#[trigger] r@[j]).1@.len() == 1 && jupiter_config(r@[j].1@[0], j)
                        && r@[j].0@ == r@[j].1@[0].inner_instruction_discriminator@,
            decreases 2 - i,
        {
            let c = jupiter_entry(i);
            let key = c.inner_instruction_discriminator;
            let mut entry: Vec<EventParseConfig<JupiterDecoder>> = Vec::new();
            entry.push(c);
            r.push((key, entry));
            i = i + 1;
        }
        r
    }

    /// The table keyed by an instruction's discriminator: each discriminator with its one entry.
    pub fn instruction_configs(&self) -> (r: Vec<(Vec<u8>, Vec<EventParseConfig<JupiterDecoder>>)>)
        ensures
            r@.len() == 2,
            forall|i: int|
                0 <= i < 2 ==> (#[trigger] r@[i]).1@.len() == 1 && jupiter_config(r@[i].1@[0], i)
                    && r@[i].0@ == r@[i].1@[0].instruction_discriminator@,
    {
        let mut r: Vec<(Vec<u8>, Vec<EventParseConfig<JupiterDecoder>>)> = Vec::new();
        let mut i: usize = 0;
        while i < 2
            invariant
                0 <= i <= 2,
                r@.len() == i,
                forall|j: int|
                    0 <= j < i ==> (#[trigger] r@[j]).1@.len() == 1 && jupiter_config(r@[j].1@[0], j)
                        && r@[j].0@ == r@[j].1@[0].instruction_discriminator@,
            decreases 2 - i,
        {
            let c = jupiter_entry(i);
            let key = jupiter_entry(i).instruction_discriminator;
            let mut entry: Vec<EventParseConfig<JupiterDecoder>> = Vec::new();
            entry.push(c);
            r.push((key, entry));
            i = i + 1;
        }
        r
    }

    /// A parser.
    pub fn new() -> (p: EventParser)
        ensures
            p == EventParser,
    {
        EventParser
    }

    /// Whether `program_id` is the Jupiter V6 program.
    pub fn should_handle(&self, program_id: &Pubkey) -> (r: bool)
        ensures
            r == (program_id@ == key_or_zero(key_of_text(JUPITER_V6_PROGRAM_ID@))),
    {
        is_jupiter_v6_program(program_id)
    }

    /// The one program this parser handles.
    pub fn supported_program_ids(&self) -> (r: Vec<Pubkey>)
        ensures
            r@.len() == 1,
            r@[0]@ == key_or_zero(key_of_text(JUPITER_V6_PROGRAM_ID@)),
    {
        let mut v: Vec<Pubkey> = Vec::new();
        v.push(v6_program_id());
        v
    }

    /// Every input is accepted.
    pub fn can_parse(&self, input: &SolanaTransactionInput) -> (r: bool)
        ensures
            r == accepts(*input),
    {
        true
    }

    /// No input gives an event.
    pub fn parse(&self, input: &SolanaTransactionInput) -> (r: Vec<JupiterEvent>)
        ensures
            parse_outcome(*input, r@),
    {
        Vec::new()
    }
}

} // verus!
