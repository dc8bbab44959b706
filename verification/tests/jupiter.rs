use riglr_solana_events::protocols::jupiter::{
    is_jupiter_v6_program, v6_program_id, AccountLayout, EventParser, JupiterSwapData,
    LiquidityEvent, RoutePlan, SwapEvent, EXACT_OUT_ROUTE_DISCRIMINATOR, JUPITER_V6_PROGRAM_ID,
    LEGACY_EXACT_OUT_DISCRIMINATOR, LEGACY_ROUTE_DISCRIMINATOR, ROUTE_DISCRIMINATOR,
    ROUTE_WITH_TOKEN_LEDGER_DISCRIMINATOR, SWAP_DISCRIMINATOR,
};
use riglr_solana_events::types::{EventParameters, EventType, ProtocolType, Pubkey, TransferData};

#[test]
fn jupiter_program_id_constant() {
    assert_eq!(JUPITER_V6_PROGRAM_ID, "JUP6LkbZbjS1jKKwapdHNy74zcZ3tLUZoi5QNyVTaV4");
}

#[test]
fn v6_program_id_function() {
    let program_id = v6_program_id();
    assert_eq!(program_id.to_base58(), JUPITER_V6_PROGRAM_ID);
}

#[test]
fn is_jupiter_v6_program_when_correct_program_id_should_return_true() {
    let program_id = v6_program_id();
    assert!(is_jupiter_v6_program(&program_id));
}

#[test]
fn is_jupiter_v6_program_when_incorrect_program_id_should_return_false() {
    let other_program_id = Pubkey::default();
    assert!(!is_jupiter_v6_program(&other_program_id));
}

#[test]
fn discriminator_constants_have_correct_length() {
    assert_eq!(ROUTE_DISCRIMINATOR.len(), 8);
    assert_eq!(EXACT_OUT_ROUTE_DISCRIMINATOR.len(), 8);
    assert_eq!(LEGACY_ROUTE_DISCRIMINATOR.len(), 8);
    assert_eq!(LEGACY_EXACT_OUT_DISCRIMINATOR.len(), 8);
    assert_eq!(SWAP_DISCRIMINATOR.len(), 8);
    assert_eq!(ROUTE_WITH_TOKEN_LEDGER_DISCRIMINATOR.len(), 8);
}

#[test]
fn discriminator_constants_are_unique() {
    let discriminators = [
        ROUTE_DISCRIMINATOR,
        EXACT_OUT_ROUTE_DISCRIMINATOR,
        LEGACY_ROUTE_DISCRIMINATOR,
        LEGACY_EXACT_OUT_DISCRIMINATOR,
        SWAP_DISCRIMINATOR,
        ROUTE_WITH_TOKEN_LEDGER_DISCRIMINATOR,
    ];
    for (i, disc1) in discriminators.iter().enumerate() {
        for (j, disc2) in discriminators.iter().enumerate() {
            if i != j {
                assert_ne!(disc1, disc2, "Discriminators at indices {i} and {j} are identical");
            }
        }
    }
}

#[test]
fn discriminator_constants_have_expected_values() {
    assert_eq!(ROUTE_DISCRIMINATOR, [0x57, 0x03, 0xfe, 0xb8, 0xe7, 0x57, 0x39, 0x09]);
    assert_eq!(EXACT_OUT_ROUTE_DISCRIMINATOR, [0x41, 0xd8, 0xfa, 0x8d, 0xac, 0x72, 0x6b, 0x69]);
    assert_eq!(LEGACY_ROUTE_DISCRIMINATOR, [0xe5, 0x17, 0xcb, 0x97, 0x7a, 0xe3, 0xad, 0x2a]);
    assert_eq!(LEGACY_EXACT_OUT_DISCRIMINATOR, [0x7e, 0x2c, 0x8e, 0xa1, 0xd9, 0xa6, 0x5b, 0xc6]);
    assert_eq!(SWAP_DISCRIMINATOR, [0xf8, 0xc6, 0x9e, 0x91, 0xe1, 0x75, 0x87, 0xc8]);
    assert_eq!(
        ROUTE_WITH_TOKEN_LEDGER_DISCRIMINATOR,
        [0x34, 0x65, 0x0f, 0x14, 0x74, 0x5e, 0x8d, 0xe8]
    );
}

#[test]
fn jupiter_module_exports_parser() {
    let parser = EventParser::new();
    assert!(!parser.supported_program_ids().is_empty());
}

#[test]
fn jupiter_module_exports_events() {
    let _event = EventParameters::default();
    let _liquidity_event = LiquidityEvent::new(EventParameters::default());
}

#[test]
fn module_exports_types() {
    let program_id = v6_program_id();
    assert!(is_jupiter_v6_program(&program_id));
    let _: [u8; 8] = ROUTE_DISCRIMINATOR;
    let _: [u8; 8] = EXACT_OUT_ROUTE_DISCRIMINATOR;
    let _: [u8; 8] = LEGACY_ROUTE_DISCRIMINATOR;
    let _: [u8; 8] = LEGACY_EXACT_OUT_DISCRIMINATOR;
    let _: [u8; 8] = SWAP_DISCRIMINATOR;
    let _: [u8; 8] = ROUTE_WITH_TOKEN_LEDGER_DISCRIMINATOR;
    let _route_plan = RoutePlan {
        input_mint: Pubkey::default(),
        output_mint: Pubkey::default(),
        amount_in: 0,
        amount_out: 0,
        dex_label: String::default(),
    };
    let _account_layout = AccountLayout {
        user_transfer_authority: Pubkey::default(),
        user_source_token_account: Pubkey::default(),
        user_destination_token_account: Pubkey::default(),
        destination_token_account: Pubkey::default(),
        source_mint: Pubkey::default(),
        destination_mint: Pubkey::default(),
        platform_fee_account: None,
    };
}

fn params() -> EventParameters {
    EventParameters {
        id: "jup-id".to_string(),
        signature: "sig".to_string(),
        slot: 7,
        block_time: 1_700_000_000,
        block_time_ms: 1_700_000_000_000,
        program_received_time_ms: 99,
        index: "2".to_string(),
    }
}

#[test]
fn jupiter_liquidity_event_builders_set_their_fields() {
    let user = Pubkey::new_from_array([9; 32]);
    let mint_a = Pubkey::new_from_array([1; 32]);
    let mint_b = Pubkey::new_from_array([2; 32]);
    let event = LiquidityEvent::new(params())
        .with_amounts(10, 20, 30)
        .with_mints(mint_a, mint_b)
        .with_removal(true)
        .with_user(user);
    assert_eq!(event.amount_a, 10);
    assert_eq!(event.amount_b, 20);
    assert_eq!(event.liquidity_amount, 30);
    assert_eq!(event.mint_a, mint_a);
    assert_eq!(event.mint_b, mint_b);
    assert!(event.is_remove);
    assert_eq!(event.user, user);
    assert_eq!(event.metadata.id, "jup-id");
    assert_eq!(event.metadata.block_time, Some(1_700_000_000));
    assert_eq!(event.metadata.event_type, EventType::AddLiquidity);
    assert_eq!(event.metadata.protocol_type, ProtocolType::Jupiter);
}

#[test]
fn jupiter_swap_event_new_keeps_data_and_context() {
    let data = JupiterSwapData {
        input_amount: 5,
        input_mint: Pubkey::default(),
        output_amount: 6,
        output_mint: Pubkey::default(),
        platform_fee_bps: Some(3),
        price_impact_pct: None,
        route_plan: vec![],
        user: Pubkey::default(),
    };
    let event = SwapEvent::new(params(), data);
    assert_eq!(event.swap_data.input_amount, 5);
    assert_eq!(event.swap_data.output_amount, 6);
    assert_eq!(event.metadata.signature, "sig");
    assert_eq!(event.metadata.slot, 7);
    assert_eq!(event.metadata.index, "2");
    assert_eq!(event.metadata.received_time_ms, 99);
    assert_eq!(event.metadata.event_type, EventType::Swap);
}

#[test]
fn jupiter_events_take_transfer_data() {
    let data = JupiterSwapData::default();
    assert_eq!(data.input_amount, 0);
    assert_eq!(data.user, Pubkey::default());
    assert!(data.route_plan.is_empty());
    assert!(data.platform_fee_bps.is_none());
    let swap = SwapEvent::new(EventParameters::default(), data);
    assert!(swap.transfer_data.is_empty());
    let transfer = TransferData {
        source: Pubkey::new_from_array([1; 32]),
        destination: Pubkey::new_from_array([2; 32]),
        mint: Some(Pubkey::new_from_array([3; 32])),
        amount: 9,
    };
    let swap = swap.with_transfer_data(vec![transfer.clone(), transfer]);
    assert_eq!(swap.transfer_data.len(), 2);
    let liquidity = LiquidityEvent::new(EventParameters::default()).with_transfer_data(vec![]);
    assert!(liquidity.transfer_data.is_empty());
}

#[test]
fn jupiter_tables_list_route_and_exact_out() {
    let parser = EventParser::new();
    let inner = parser.inner_instruction_configs();
    assert_eq!(inner.len(), 2);
    assert_eq!(inner[0].0, "swap");
    assert_eq!(inner[1].0, "exactOutRoute");
    let ix = parser.instruction_configs();
    assert_eq!(ix[0].0, ROUTE_DISCRIMINATOR.to_vec());
    assert_eq!(ix[1].1[0].event_type, EventType::Swap);
    assert_eq!(ix[1].1[0].program_id, v6_program_id());
    assert_eq!(ix[1].1[0].protocol_type, ProtocolType::Other("Jupiter".to_string()));
}
