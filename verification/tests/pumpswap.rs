use riglr_solana_events::error::ParseError;
use riglr_solana_events::factory::{
    OwnedInnerInstructionParseParams, OwnedInstructionParseParams, SolanaTransactionInput,
};
use riglr_solana_events::protocols::pumpswap::discriminators;
use riglr_solana_events::protocols::pumpswap::{
    parse_buy_inner_instruction, parse_buy_instruction, parse_create_pool_instruction,
    parse_deposit_instruction, parse_sell_instruction, parse_withdraw_instruction,
    pumpswap_program_id, PumpSwapEvent, PumpSwapEventParser, BUY_EVENT_LEN, DEPOSIT_EVENT_LEN,
};
use riglr_solana_events::common::encode_base58;
use riglr_solana_events::types::{EventMetadata, EventType, ProtocolType, Pubkey};

fn key(i: u8) -> Pubkey {
    Pubkey::new_from_array([i; 32])
}

fn accounts(n: u8) -> Vec<Pubkey> {
    (1..=n).map(key).collect()
}

fn metadata() -> EventMetadata {
    EventMetadata {
        id: "sig_3".to_string(),
        signature: "sig".to_string(),
        slot: 10,
        block_time: Some(5),
        received_time_ms: 6,
        index: "3".to_string(),
        event_type: EventType::PumpSwapBuy,
        protocol_type: ProtocolType::PumpSwap,
    }
}

#[test]
fn module_exports_discriminators() {
    assert_eq!(discriminators::BUY_EVENT, "pumpswap_buy_event");
    assert_eq!(discriminators::SELL_EVENT, "pumpswap_sell_event");
    assert_eq!(discriminators::CREATE_POOL_EVENT, "pumpswap_create_pool_event");
    assert_eq!(discriminators::DEPOSIT_EVENT, "pumpswap_deposit_event");
    assert_eq!(discriminators::WITHDRAW_EVENT, "pumpswap_withdraw_event");
}

#[test]
fn module_exports_discriminator_bytes() {
    assert_eq!(discriminators::BUY_EVENT_BYTES.len(), 16);
    assert_eq!(discriminators::SELL_EVENT_BYTES.len(), 16);
    assert_eq!(discriminators::CREATE_POOL_EVENT_BYTES.len(), 16);
    assert_eq!(discriminators::DEPOSIT_EVENT_BYTES.len(), 16);
    assert_eq!(discriminators::WITHDRAW_EVENT_BYTES.len(), 16);
}

#[test]
fn module_exports_instruction_discriminators() {
    assert_eq!(discriminators::BUY_IX.len(), 8);
    assert_eq!(discriminators::SELL_IX.len(), 8);
    assert_eq!(discriminators::CREATE_POOL_IX.len(), 8);
    assert_eq!(discriminators::DEPOSIT_IX.len(), 8);
    assert_eq!(discriminators::WITHDRAW_IX.len(), 8);
}

#[test]
fn module_exports_program_id() {
    let program_id = pumpswap_program_id();
    assert_ne!(program_id, Pubkey::default());
    assert_eq!(program_id.to_base58(), "pAMMBay6oceH9fJKBRHGP5D4bD4sWpmSwMn52FMfXEA");
}

#[test]
fn pumpswap_program_id_constant() {
    assert_eq!(pumpswap_program_id().to_base58(), "pAMMBay6oceH9fJKBRHGP5D4bD4sWpmSwMn52FMfXEA");
}

#[test]
fn discriminators_are_unique() {
    let discriminators = [
        discriminators::BUY_EVENT,
        discriminators::SELL_EVENT,
        discriminators::CREATE_POOL_EVENT,
        discriminators::DEPOSIT_EVENT,
        discriminators::WITHDRAW_EVENT,
    ];
    for (i, disc1) in discriminators.iter().enumerate() {
        for (j, disc2) in discriminators.iter().enumerate() {
            if i != j {
                assert_ne!(disc1, disc2, "Discriminators should be unique");
            }
        }
    }
}

#[test]
fn byte_discriminators_are_unique() {
    let byte_discriminators = [
        discriminators::BUY_EVENT_BYTES,
        discriminators::SELL_EVENT_BYTES,
        discriminators::CREATE_POOL_EVENT_BYTES,
        discriminators::DEPOSIT_EVENT_BYTES,
        discriminators::WITHDRAW_EVENT_BYTES,
    ];
    for (i, disc1) in byte_discriminators.iter().enumerate() {
        for (j, disc2) in byte_discriminators.iter().enumerate() {
            if i != j {
                assert_ne!(disc1, disc2, "Byte discriminators should be unique");
            }
        }
    }
}

#[test]
fn instruction_discriminators_are_unique() {
    let instruction_discriminators = [
        discriminators::BUY_IX,
        discriminators::SELL_IX,
        discriminators::CREATE_POOL_IX,
        discriminators::DEPOSIT_IX,
        discriminators::WITHDRAW_IX,
    ];
    for (i, disc1) in instruction_discriminators.iter().enumerate() {
        for (j, disc2) in instruction_discriminators.iter().enumerate() {
            if i != j {
                assert_ne!(disc1, disc2, "Instruction discriminators should be unique");
            }
        }
    }
}

#[test]
fn pumpswap_module_exports_parser() {
    let _parser = PumpSwapEventParser::new();
    let _default_parser = PumpSwapEventParser::default();
}

#[test]
fn supported_program_ids_contains_pumpswap() {
    let parser = PumpSwapEventParser::new();
    let supported = parser.supported_program_ids();
    assert!(supported.contains(&pumpswap_program_id()), "Should support PUMPSWAP_PROGRAM_ID");
    assert!(!supported.is_empty(), "Should have at least one supported program ID");
}

#[test]
fn parser_default() {
    let parser = PumpSwapEventParser::default();
    assert!(parser.should_handle(&pumpswap_program_id()));
    assert_eq!(parser.supported_program_ids(), vec![pumpswap_program_id()]);
}

#[test]
fn parser_should_handle_valid_program_id() {
    let parser = PumpSwapEventParser::default();
    assert!(parser.should_handle(&pumpswap_program_id()));
}

#[test]
fn parser_should_not_handle_invalid_program_id() {
    let parser = PumpSwapEventParser::default();
    assert!(!parser.should_handle(&key(77)));
}

fn amounts(values: &[u64]) -> Vec<u8> {
    values.iter().flat_map(|v| v.to_le_bytes()).collect()
}

#[test]
fn pumpswap_buy_instruction_reads_amounts_and_accounts() {
    let data = amounts(&[500, 900]);
    let event = parse_buy_instruction(&data, &accounts(11), metadata()).unwrap();
    match event {
        PumpSwapEvent::Buy(e) => {
            assert_eq!(e.base_amount_out, 500);
            assert_eq!(e.max_quote_amount_in, 900);
            assert_eq!(e.pool, key(1));
            assert_eq!(e.user, key(2));
            assert_eq!(e.base_mint, key(4));
            assert_eq!(e.protocol_fee_recipient_token_account, key(11));
            assert_eq!(e.coin_creator, Pubkey::default());
            assert_eq!(e.metadata, metadata());
        }
        _ => panic!("expected a buy"),
    }
    let short = parse_buy_instruction(&data[..15], &accounts(11), metadata()).unwrap_err();
    assert_eq!(
        short,
        ParseError::InvalidDataFormat(
            "Insufficient data for PumpSwap buy instruction: expected at least 16 bytes, got 15"
                .to_string()
        )
    );
    let few = parse_buy_instruction(&data, &accounts(10), metadata()).unwrap_err();
    assert_eq!(
        few,
        ParseError::InvalidDataFormat(
            "Insufficient accounts for PumpSwap buy instruction: expected at least 11, got 10"
                .to_string()
        )
    );
}

#[test]
fn pumpswap_sell_instruction_names_user_pool_and_amount() {
    let data = amounts(&[42, 7]);
    let accs = accounts(19);
    match parse_sell_instruction(&data, &accs, metadata()).unwrap() {
        PumpSwapEvent::Sell(e) => {
            assert_eq!(e.base_amount_in, 42);
            assert_eq!(e.min_quote_amount_out, 7);
            assert_eq!(e.coin_creator_vault_ata, key(18));
            assert_eq!(e.coin_creator_vault_authority, key(19));
            let expected = format!("sig-{}-{}-42", key(2).to_base58(), key(1).to_base58());
            assert_eq!(e.metadata.id, expected);
        }
        _ => panic!("expected a sell"),
    }
    let err = parse_sell_instruction(&data, &accounts(10), metadata()).unwrap_err();
    assert_eq!(
        err,
        ParseError::InvalidDataFormat(
            "Insufficient data or accounts for PumpSwap sell instruction".to_string()
        )
    );
}

#[test]
fn pumpswap_create_pool_instruction_reads_optional_creator() {
    let mut data = vec![3u8, 0];
    data.extend(amounts(&[1000, 2000]));
    match parse_create_pool_instruction(&data, &accounts(11), metadata()).unwrap() {
        PumpSwapEvent::CreatePool(e) => {
            assert_eq!(e.index, 3);
            assert_eq!(e.base_amount_in, 1000);
            assert_eq!(e.quote_amount_in, 2000);
            assert_eq!(e.coin_creator, Pubkey::default());
            assert_eq!(e.creator, key(3));
            let expected = format!("sig-{}-{}-1000", key(1).to_base58(), key(3).to_base58());
            assert_eq!(e.metadata.id, expected);
        }
        _ => panic!("expected a pool creation"),
    }
    data.extend_from_slice(&[9u8; 32]);
    match parse_create_pool_instruction(&data, &accounts(11), metadata()).unwrap() {
        PumpSwapEvent::CreatePool(e) => assert_eq!(e.coin_creator, key(9)),
        _ => panic!("expected a pool creation"),
    }
}

#[test]
fn pumpswap_deposit_and_withdraw_instructions() {
    let data = amounts(&[10, 20, 30]);
    match parse_deposit_instruction(&data, &accounts(11), metadata()).unwrap() {
        PumpSwapEvent::Deposit(e) => {
            assert_eq!(e.lp_token_amount_out, 10);
            assert_eq!(e.max_base_amount_in, 20);
            assert_eq!(e.max_quote_amount_in, 30);
            assert_eq!(e.user, key(3));
            assert_eq!(e.user_pool_token_account, key(9));
            let expected = format!("sig-{}-{}-10", key(1).to_base58(), key(3).to_base58());
            assert_eq!(e.metadata.id, expected);
        }
        _ => panic!("expected a deposit"),
    }
    match parse_withdraw_instruction(&data, &accounts(11), metadata()).unwrap() {
        PumpSwapEvent::Withdraw(e) => {
            assert_eq!(e.lp_token_amount_in, 10);
            assert_eq!(e.min_base_amount_out, 20);
            assert_eq!(e.min_quote_amount_out, 30);
        }
        _ => panic!("expected a withdrawal"),
    }
    let err = parse_withdraw_instruction(&data[..23], &accounts(11), metadata()).unwrap_err();
    assert_eq!(
        err,
        ParseError::InvalidDataFormat(
            "Insufficient data or accounts for PumpSwap withdraw instruction".to_string()
        )
    );
}

#[test]
fn pumpswap_buy_log_record_decodes() {
    let mut record = vec![0u8; BUY_EVENT_LEN];
    record[0..8].copy_from_slice(&77u64.to_le_bytes());
    record[192..224].copy_from_slice(&[5u8; 32]);
    record[456] = 1;
    match parse_buy_inner_instruction(&record, metadata()).unwrap() {
        PumpSwapEvent::Buy(e) => {
            assert_eq!(e.base_amount_out, 77);
            assert_eq!(e.pool, key(5));
            assert!(e.track_volume);
            assert_eq!(e.metadata.id, format!("sig-{}-buy", key(5).to_base58()));
        }
        _ => panic!("expected a buy"),
    }
    record[456] = 2;
    assert_eq!(
        parse_buy_inner_instruction(&record, metadata()).unwrap_err(),
        ParseError::InvalidDataFormat("Failed to parse PumpSwap buy event".to_string())
    );
}

fn inner(data: &[u8]) -> SolanaTransactionInput {
    SolanaTransactionInput::InnerInstruction(OwnedInnerInstructionParseParams {
        block_time: None,
        index: "4".to_string(),
        inner_instruction_data: encode_base58(data),
        program_received_time_ms: 1,
        signature: "tx".to_string(),
        slot: 2,
    })
}

#[test]
fn pumpswap_deposit_shaped_log_gives_deposit_and_withdrawal() {
    let parser = PumpSwapEventParser::new();
    let record = vec![1u8; DEPOSIT_EVENT_LEN];
    let events = parser.parse(&inner(&record));
    assert_eq!(events.len(), 2);
    assert!(matches!(&events[0], PumpSwapEvent::Deposit(e)
        if e.metadata.event_type == EventType::PumpSwapDeposit && e.metadata.id.ends_with("-deposit")));
    assert!(matches!(&events[1], PumpSwapEvent::Withdraw(e)
        if e.metadata.event_type == EventType::PumpSwapWithdraw && e.metadata.id.ends_with("-withdraw")));
    assert_eq!(parser.parse(&inner(&[1, 2, 3])).len(), 0);
}

#[test]
fn pumpswap_top_level_instructions_give_no_event() {
    let parser = PumpSwapEventParser::new();
    let input = SolanaTransactionInput::Instruction(OwnedInstructionParseParams {
        accounts: accounts(11),
        block_time: None,
        index: "0".to_string(),
        instruction_data: discriminators::BUY_IX.to_vec(),
        program_received_time_ms: 0,
        signature: "tx".to_string(),
        slot: 0,
    });
    assert!(parser.can_parse(&input));
    assert!(parser.parse(&input).is_empty());
}

#[test]
fn parser_default_vs_new() {
    let parser1 = PumpSwapEventParser::default();
    let parser2 = PumpSwapEventParser::new();
    assert_eq!(parser1.supported_program_ids(), parser2.supported_program_ids());
    assert!(parser1.should_handle(&pumpswap_program_id()));
    assert!(parser2.should_handle(&pumpswap_program_id()));
    let random_pubkey = Pubkey::new_from_array([42; 32]);
    assert!(!parser1.should_handle(&random_pubkey));
    assert!(!parser2.should_handle(&random_pubkey));
}

#[test]
fn parser_configs_accessible() {
    let parser = PumpSwapEventParser::new();
    let inner_configs = parser.inner_instruction_configs();
    assert!(!inner_configs.is_empty(), "Should have inner instruction configs");
    let instruction_configs = parser.instruction_configs();
    assert!(!instruction_configs.is_empty(), "Should have instruction configs");
}

#[test]
fn parser_inner_instruction_configs() {
    let parser = PumpSwapEventParser::default();
    let configs = parser.inner_instruction_configs();
    assert!(!configs.is_empty());
}

#[test]
fn parser_instruction_configs() {
    let parser = PumpSwapEventParser::default();
    let configs = parser.instruction_configs();
    assert!(!configs.is_empty());
}

#[test]
fn pumpswap_config_entries_follow_the_discriminators() {
    let parser = PumpSwapEventParser::new();
    let inner = parser.inner_instruction_configs();
    assert_eq!(inner.len(), 5);
    assert_eq!(inner[0].0, discriminators::BUY_EVENT);
    assert_eq!(inner[4].0, discriminators::WITHDRAW_EVENT);
    let ix = parser.instruction_configs();
    assert_eq!(ix[2].0, discriminators::CREATE_POOL_IX.to_vec());
    assert_eq!(ix[2].1[0].event_type, EventType::PumpSwapCreatePool);
    assert_eq!(ix[2].1[0].program_id, pumpswap_program_id());
}
