use riglr_solana_events::factory::{
    OwnedInnerInstructionParseParams, OwnedInstructionParseParams, SolanaTransactionInput,
};
use riglr_solana_events::protocols::bonk::discriminators::{
    INITIALIZE_IX, MIGRATE_TO_AMM_IX, POOL_CREATE_EVENT, POOL_CREATE_EVENT_BYTES, TRADE_EVENT,
    TRADE_EVENT_BYTES,
};
use riglr_solana_events::protocols::bonk::{
    bonk_program_id, parse_buy_exact_in_instruction, parse_buy_exact_out_instruction,
    parse_initialize_instruction, parse_migrate_to_amm_instruction,
    parse_pool_create_inner_instruction, parse_sell_exact_in_instruction,
    parse_sell_exact_out_instruction, parse_trade_inner_instruction, BonkEvent, EventParser,
    PoolStatus, TradeDirection, TRADE_RECORD_LEN,
};
use riglr_solana_events::error::ParseError;
use riglr_solana_events::common::encode_base58;
use riglr_solana_events::types::{EventMetadata, EventType, ProtocolType, Pubkey};

fn create_test_pubkey(value: u8) -> Pubkey {
    let mut bytes = [0_u8; 32];
    bytes[31] = value;
    Pubkey::new_from_array(bytes)
}

fn create_test_event_metadata(event_type: EventType) -> EventMetadata {
    EventMetadata {
        id: "test-signature".to_string(),
        signature: "test-signature".to_string(),
        slot: 12345,
        block_time: Some(12345),
        received_time_ms: 12345,
        index: "0".to_string(),
        event_type,
        protocol_type: ProtocolType::Bonk,
    }
}

fn trade_record(direction: TradeDirection) -> Vec<u8> {
    let mut data = vec![0u8; TRADE_RECORD_LEN];
    data[280] = match direction {
        TradeDirection::Buy => 0,
        TradeDirection::Sell => 1,
    };
    data
}

fn default_pool_create_record() -> Vec<u8> {
    vec![0u8; 217]
}

fn pool_create_record_with_names() -> Vec<u8> {
    let mut data = Vec::new();
    data.extend_from_slice(&[1u8; 32]);
    data.extend_from_slice(&[2u8; 32]);
    data.push(1);
    data.push(4);
    data.extend_from_slice(&10u64.to_le_bytes());
    data.extend_from_slice(&20u64.to_le_bytes());
    data.extend_from_slice(&30u64.to_le_bytes());
    data.push(0);
    data.push(1);
    data.push(2);
    data.extend_from_slice(&7u64.to_le_bytes());
    data.extend_from_slice(&8u64.to_le_bytes());
    data.extend_from_slice(&[3u8; 32]);
    data.push(9);
    for text in ["Bonk", "BONK", "https://x"] {
        data.extend_from_slice(&(text.len() as u32).to_le_bytes());
        data.extend_from_slice(text.as_bytes());
    }
    data.extend_from_slice(&[4u8; 32]);
    data.push(2);
    data.extend_from_slice(&[5u8; 32]);
    for v in [100u64, 200, 1, 2, 3] {
        data.extend_from_slice(&v.to_le_bytes());
    }
    data
}

#[test]
fn bonk_program_id_when_checked_should_be_correct() {
    assert_eq!(bonk_program_id().to_base58(), "bonksoHKfNJJ8Wo8ZJjpw7dHGePNxS2z2WE5GxUPdSo");
}

#[test]
fn bonk_event_parser_default_when_created_should_equal_new() {
    let parser_new = EventParser::new();
    let parser_default = EventParser::default();
    assert_eq!(parser_new.supported_program_ids(), parser_default.supported_program_ids());
}

#[test]
fn bonk_event_parser_should_handle_when_bonk_program_id_should_return_true() {
    let parser = EventParser::new();
    assert!(parser.should_handle(&bonk_program_id()));
}

#[test]
fn bonk_event_parser_should_handle_when_other_program_id_should_return_false() {
    let parser = EventParser::new();
    assert!(!parser.should_handle(&create_test_pubkey(1)));
}

#[test]
fn bonk_event_parser_supported_program_ids_when_called_should_contain_bonk() {
    let parser = EventParser::new();
    let supported = parser.supported_program_ids();
    assert_eq!(supported.len(), 1);
    assert_eq!(supported.first().expect("Should have at least one program ID"), &bonk_program_id());
}

#[test]
fn parse_trade_inner_instruction_when_valid_buy_exact_in_should_return_event() {
    let data = trade_record(TradeDirection::Buy);
    let metadata = create_test_event_metadata(EventType::BonkBuyExactIn);
    let result = parse_trade_inner_instruction(&data, metadata);
    assert!(result.is_ok());
}

#[test]
fn parse_trade_inner_instruction_when_valid_buy_exact_out_should_return_event() {
    let data = trade_record(TradeDirection::Buy);
    parse_trade_inner_instruction(&data, create_test_event_metadata(EventType::BonkBuyExactOut)).unwrap();
}

#[test]
fn parse_trade_inner_instruction_when_valid_sell_exact_in_should_return_event() {
    let data = trade_record(TradeDirection::Sell);
    parse_trade_inner_instruction(&data, create_test_event_metadata(EventType::BonkSellExactIn)).unwrap();
}

#[test]
fn parse_trade_inner_instruction_when_valid_sell_exact_out_should_return_event() {
    let data = trade_record(TradeDirection::Sell);
    parse_trade_inner_instruction(&data, create_test_event_metadata(EventType::BonkSellExactOut)).unwrap();
}

#[test]
fn parse_trade_inner_instruction_when_invalid_data_should_return_none() {
    let data = vec![1_u8, 2_u8, 3_u8];
    parse_trade_inner_instruction(&data, create_test_event_metadata(EventType::BonkBuyExactIn)).unwrap_err();
}

#[test]
fn parse_trade_inner_instruction_when_empty_data_should_return_none() {
    let data = vec![];
    parse_trade_inner_instruction(&data, create_test_event_metadata(EventType::BonkBuyExactIn)).unwrap_err();
}

#[test]
fn parse_trade_inner_instruction_when_wrong_trade_direction_buy_should_return_none() {
    let data = trade_record(TradeDirection::Sell);
    let err = parse_trade_inner_instruction(&data, create_test_event_metadata(EventType::BonkBuyExactIn)).unwrap_err();
    assert_eq!(
        err,
        ParseError::InvalidDataFormat("Trade direction does not match expected buy direction".to_string())
    );
}

#[test]
fn parse_trade_inner_instruction_when_wrong_trade_direction_sell_should_return_none() {
    let data = trade_record(TradeDirection::Buy);
    let err = parse_trade_inner_instruction(&data, create_test_event_metadata(EventType::BonkSellExactIn)).unwrap_err();
    assert_eq!(
        err,
        ParseError::InvalidDataFormat("Trade direction does not match expected sell direction".to_string())
    );
}

#[test]
fn parse_pool_create_inner_instruction_when_valid_data_should_return_event() {
    let data = default_pool_create_record();
    parse_pool_create_inner_instruction(&data, create_test_event_metadata(EventType::BonkInitialize)).unwrap();
}

#[test]
fn parse_pool_create_inner_instruction_when_invalid_data_should_return_none() {
    let data = vec![1_u8, 2_u8, 3_u8];
    parse_pool_create_inner_instruction(&data, create_test_event_metadata(EventType::BonkInitialize)).unwrap_err();
}

#[test]
fn parse_pool_create_inner_instruction_when_empty_data_should_return_none() {
    let data = vec![];
    parse_pool_create_inner_instruction(&data, create_test_event_metadata(EventType::BonkInitialize)).unwrap_err();
}

#[test]
fn parse_buy_exact_in_instruction_when_valid_data_should_return_event() {
    let mut data = vec![0_u8; 16];
    data.get_mut(0..8).expect("Data buffer should be large enough").copy_from_slice(&1000_u64.to_le_bytes());
    data.get_mut(8..16).expect("Data buffer should be large enough").copy_from_slice(&950_u64.to_le_bytes());
    let accounts = vec![create_test_pubkey(1); 10];
    let metadata = create_test_event_metadata(EventType::BonkBuyExactIn);
    let event = parse_buy_exact_in_instruction(&data, &accounts, metadata)
        .expect("Should successfully parse buy exact in instruction");
    match event {
        BonkEvent::Trade(bonk_event) => {
            assert_eq!(bonk_event.amount_in, 1000);
            assert_eq!(bonk_event.trade_direction, TradeDirection::Buy);
            assert_eq!(
                bonk_event.metadata.id,
                format!("test-signature-{}-1000-950", create_test_pubkey(1).to_base58())
            );
        }
        _ => panic!("expected a trade"),
    }
}

#[test]
fn all_trade_instruction_parsers_return_correct_directions() {
    let data = vec![0_u8; 16];
    let accounts = vec![create_test_pubkey(1); 10];
    let metadata = create_test_event_metadata(EventType::BonkBuyExactIn);
    let direction = |r: BonkEvent| match r {
        BonkEvent::Trade(t) => t.trade_direction,
        _ => panic!("expected a trade"),
    };
    assert_eq!(direction(parse_buy_exact_in_instruction(&data, &accounts, metadata.clone()).unwrap()), TradeDirection::Buy);
    assert_eq!(direction(parse_buy_exact_out_instruction(&data, &accounts, metadata.clone()).unwrap()), TradeDirection::Buy);
    assert_eq!(direction(parse_sell_exact_in_instruction(&data, &accounts, metadata.clone()).unwrap()), TradeDirection::Sell);
    assert_eq!(direction(parse_sell_exact_out_instruction(&data, &accounts, metadata).unwrap()), TradeDirection::Sell);
}

#[test]
fn bonk_discriminator_constants() {
    assert_eq!(TRADE_EVENT, "bonk_trade_event");
    assert_eq!(POOL_CREATE_EVENT, "bonk_pool_create_event");
    assert_eq!(&TRADE_EVENT_BYTES[..14], b"BonkTradeEvent");
    assert_eq!(&POOL_CREATE_EVENT_BYTES[..14], b"BonkPoolCreate");
}

#[test]
fn bonk_defaults() {
    assert_eq!(TradeDirection::default(), TradeDirection::Buy);
    assert_eq!(PoolStatus::default(), PoolStatus::Fund);
}

#[test]
fn bonk_pool_create_record_fields() {
    let data = pool_create_record_with_names();
    let event = parse_pool_create_inner_instruction(&data, create_test_event_metadata(EventType::BonkInitialize)).unwrap();
    match event {
        BonkEvent::PoolCreate(e) => {
            assert_eq!(e.base_mint, Pubkey::new_from_array([1; 32]));
            let constant = e.curve_params.constant_curve.unwrap();
            assert_eq!(constant.migrate_type, 4);
            assert_eq!(constant.supply, 10);
            assert_eq!(constant.total_quote_fund_raising, 30);
            assert!(e.curve_params.fixed_curve.is_none());
            let linear = e.curve_params.linear_curve.unwrap();
            assert_eq!(linear.migrate_type, 2);
            assert_eq!(linear.supply, 7);
            assert_eq!(e.fee_recipient, Pubkey::new_from_array([3; 32]));
            assert_eq!(e.mint_params.decimals, 9);
            assert_eq!(e.mint_params.name, "Bonk");
            assert_eq!(e.mint_params.symbol, "BONK");
            assert_eq!(e.mint_params.uri, "https://x");
            assert_eq!(e.pool_state, Pubkey::new_from_array([4; 32]));
            assert_eq!(e.pool_status, PoolStatus::Trade);
            assert_eq!(e.timestamp, 100);
            assert_eq!(e.total_base_supply, 200);
            assert_eq!(e.vesting_params.unlock_period, 3);
        }
        _ => panic!("expected a pool creation"),
    }
    let mut trailing = data.clone();
    trailing.push(0);
    assert!(matches!(
        parse_pool_create_inner_instruction(&trailing, create_test_event_metadata(EventType::BonkInitialize)),
        Err(ParseError::BorshError(_))
    ));
    let mut bad_utf8 = data;
    bad_utf8[64 + 26 + 1 + 18 + 32 + 1 + 4] = 0xff;
    assert!(matches!(
        parse_pool_create_inner_instruction(&bad_utf8, create_test_event_metadata(EventType::BonkInitialize)),
        Err(ParseError::BorshError(_))
    ));
}

#[test]
fn bonk_pool_instructions_from_accounts() {
    let accounts: Vec<Pubkey> = (1..=8u8).map(create_test_pubkey).collect();
    let meta = create_test_event_metadata(EventType::BonkInitialize);
    match parse_initialize_instruction(&[], &accounts, meta.clone()).unwrap() {
        BonkEvent::PoolCreate(e) => {
            assert_eq!(e.pool_state, accounts[0]);
            assert_eq!(e.creator, accounts[1]);
            assert_eq!(e.base_mint, accounts[3]);
            assert_eq!(e.metadata, meta);
        }
        _ => panic!("expected a pool creation"),
    }
    match parse_migrate_to_amm_instruction(&[], &accounts[..5], meta.clone()).unwrap() {
        BonkEvent::PoolCreate(e) => {
            assert_eq!(e.metadata.id, format!("test-signature-{}", accounts[0].to_base58()));
        }
        _ => panic!("expected a pool creation"),
    }
    let err = parse_initialize_instruction(&[], &accounts[..7], meta).unwrap_err();
    assert_eq!(
        err,
        ParseError::InvalidDataFormat(
            "Insufficient accounts for Bonk initialize instruction: expected at least 8, got 7".to_string()
        )
    );
}

fn inner(data: &[u8]) -> SolanaTransactionInput {
    SolanaTransactionInput::InnerInstruction(OwnedInnerInstructionParseParams {
        block_time: Some(1),
        index: "2".to_string(),
        inner_instruction_data: encode_base58(data),
        program_received_time_ms: 3,
        signature: "tx".to_string(),
        slot: 4,
    })
}

#[test]
fn bonk_table_gives_two_events_per_trade_and_three_per_pool() {
    let parser = EventParser::new();
    let events = parser.parse(&inner(&trade_record(TradeDirection::Sell)));
    assert_eq!(events.len(), 2);
    assert!(matches!(&events[0], BonkEvent::Trade(t) if t.metadata.event_type == EventType::BonkSellExactIn));
    assert!(matches!(&events[1], BonkEvent::Trade(t) if t.metadata.event_type == EventType::BonkSellExactOut));
    let events = parser.parse(&inner(&default_pool_create_record()));
    assert_eq!(events.len(), 3);
    assert!(matches!(&events[2], BonkEvent::PoolCreate(p) if p.metadata.event_type == EventType::BonkMigrateToCpswap && p.metadata.id == "tx_2"));
}

#[test]
fn bonk_table_decodes_pool_instructions_only() {
    let parser = EventParser::new();
    let accounts: Vec<Pubkey> = (1..=8u8).map(create_test_pubkey).collect();
    let input = |data: &[u8]| {
        SolanaTransactionInput::Instruction(OwnedInstructionParseParams {
            accounts: accounts.clone(),
            block_time: None,
            index: "0".to_string(),
            instruction_data: data.to_vec(),
            program_received_time_ms: 0,
            signature: "tx".to_string(),
            slot: 0,
        })
    };
    assert_eq!(parser.parse(&input(&INITIALIZE_IX)).len(), 1);
    assert_eq!(parser.parse(&input(&MIGRATE_TO_AMM_IX)).len(), 1);
    let mut longer = INITIALIZE_IX.to_vec();
    longer.push(0);
    assert!(parser.parse(&input(&longer)).is_empty());
}

#[test]
fn bonk_event_parser_new_when_created_should_have_configs() {
    let parser = EventParser::new();
    let instruction_configs = parser.instruction_configs();
    assert!(!instruction_configs.is_empty());
    let inner_configs = parser.inner_instruction_configs();
    assert!(!inner_configs.is_empty());
}

#[test]
fn bonk_inner_table_groups_trades_and_pool_events() {
    let parser = EventParser::new();
    let inner = parser.inner_instruction_configs();
    assert_eq!(inner.len(), 2);
    assert_eq!(inner[0].1.len(), 4);
    assert_eq!(inner[1].1.len(), 3);
    assert_eq!(parser.instruction_configs().len(), 7);
    assert_eq!(parser.configs()[6].event_type, EventType::BonkMigrateToCpswap);
}
