use riglr_solana_events::factory::{OwnedInstructionParseParams, SolanaTransactionInput};
use riglr_solana_events::protocols::marginfi::{
    amount_to_shares, bank_program_id, calculate_interest_rate, calculate_liquidation_threshold,
    is_marginfi_program, parse_marginfi_deposit_instruction, parse_marginfi_repay_inner_instruction,
    program_id, shares_to_amount, MarginFiAccountType, MarginFiEvent, MarginFiEventParser,
    MARGINFI_BORROW_DISCRIMINATOR, MARGINFI_DEPOSIT_DISCRIMINATOR, MARGINFI_LIQUIDATE_DISCRIMINATOR,
    MARGINFI_REPAY_DISCRIMINATOR, MARGINFI_WITHDRAW_DISCRIMINATOR,
};
use riglr_solana_events::error::ParseError;
use riglr_solana_events::types::{EventMetadata, EventType, ProtocolType, Pubkey};

#[test]
fn discriminators_consistency() {
    assert_eq!(MARGINFI_DEPOSIT_DISCRIMINATOR.len(), 8);
    assert_eq!(MARGINFI_WITHDRAW_DISCRIMINATOR.len(), 8);
    assert_eq!(MARGINFI_BORROW_DISCRIMINATOR.len(), 8);
    assert_eq!(MARGINFI_REPAY_DISCRIMINATOR.len(), 8);
    assert_eq!(MARGINFI_LIQUIDATE_DISCRIMINATOR.len(), 8);
    let discriminators = [
        MARGINFI_DEPOSIT_DISCRIMINATOR,
        MARGINFI_WITHDRAW_DISCRIMINATOR,
        MARGINFI_BORROW_DISCRIMINATOR,
        MARGINFI_REPAY_DISCRIMINATOR,
        MARGINFI_LIQUIDATE_DISCRIMINATOR,
    ];
    for (i, disc1) in discriminators.iter().enumerate() {
        for (j, disc2) in discriminators.iter().enumerate() {
            if i != j {
                assert_ne!(disc1, disc2, "Discriminators should be unique");
            }
        }
    }
}

#[test]
fn program_id_functions() {
    let main_program_id = program_id();
    let bank_program_id = bank_program_id();
    assert_ne!(main_program_id, bank_program_id);
    assert!(is_marginfi_program(&main_program_id));
    assert!(is_marginfi_program(&bank_program_id));
    assert!(!is_marginfi_program(&Pubkey::new_from_array([7; 32])));
}

#[test]
fn marginfi_account_type_enum() {
    assert_eq!(MarginFiAccountType::MarginfiGroup, MarginFiAccountType::MarginfiGroup);
    assert_ne!(MarginFiAccountType::Bank, MarginFiAccountType::MarginfiAccount);
    assert_ne!(MarginFiAccountType::MarginfiGroup, MarginFiAccountType::Unknown);
}

#[test]
fn marginfi_program_ids_spell_the_addresses() {
    assert_eq!(program_id().to_base58(), "MFv2hWf31Z9kbCa1snEPYctwafyhdvnV7FZnsebVacA");
    assert_eq!(bank_program_id().to_base58(), "4Be9aW2D8f3G2b3ZP8uo5kd9z8zwJ3FYD1tNKmQ9c9xA");
}

#[test]
fn liquidation_threshold_examples() {
    assert_eq!(calculate_liquidation_threshold(0, 8_000), Some(0));
    assert_eq!(calculate_liquidation_threshold(10_000, 8_000), Some(8_000));
    assert_eq!(calculate_liquidation_threshold(12_345, 10_000), Some(12_345));
    assert_eq!(calculate_liquidation_threshold(u128::MAX, 2), None);
}

#[test]
fn share_conversion_examples() {
    assert_eq!(shares_to_amount(0, 1000), Some(0));
    assert_eq!(amount_to_shares(0, 1000), Some(0));
    assert_eq!(amount_to_shares(100, 0), Some(100));
    let one = 1u128 << 64;
    assert_eq!(shares_to_amount(5, one), Some(5));
    assert_eq!(amount_to_shares(5, one), Some(5));
    assert_eq!(amount_to_shares(3, 2 * one), Some(1));
    assert_eq!(shares_to_amount(u128::MAX, 2), None);
}

#[test]
fn share_round_trip_never_gains() {
    let values = [1u128, 3, 1 << 60, (1 << 64) + 7, 12_345_678_901_234_567];
    for &v in values.iter() {
        for &a in [0u64, 1, 999, 123_456_789].iter() {
            let s = amount_to_shares(a, v).unwrap();
            if let Some(b) = shares_to_amount(s, v) {
                assert!(b <= a);
            }
        }
    }
}

#[test]
fn interest_rate_examples() {
    let rate = calculate_interest_rate(5_000, 200, 800, 2_000, 8_000).unwrap();
    assert_eq!(rate, 700);
    let rate_high = calculate_interest_rate(9_000, 200, 800, 2_000, 8_000).unwrap();
    assert_eq!(rate_high, 2_000);
    assert!(rate_high > rate);
    assert_eq!(calculate_interest_rate(0, 5, 800, 2_000, 0), Some(5));
    assert_eq!(calculate_interest_rate(10_001, 5, 800, 2_000, 10_000), Some(5));
    assert_eq!(calculate_interest_rate(10_002, 5, 800, 2_000, 10_001), None);
    assert_eq!(calculate_interest_rate(u64::MAX, 5, 2, 2_000, u64::MAX), None);
}

fn table_metadata() -> EventMetadata {
    EventMetadata {
        id: "sig_0".to_string(),
        signature: "sig".to_string(),
        slot: 3,
        block_time: Some(55),
        received_time_ms: 77,
        index: "0".to_string(),
        event_type: EventType::AddLiquidity,
        protocol_type: ProtocolType::MarginFi,
    }
}

#[test]
fn marginfi_deposit_instruction_reads_amount_and_accounts() {
    let mut data = MARGINFI_DEPOSIT_DISCRIMINATOR.to_vec();
    data.extend_from_slice(&1_000_000u64.to_le_bytes());
    let accounts: Vec<Pubkey> = (0..8u8).map(|i| Pubkey::new_from_array([i + 1; 32])).collect();
    let event = parse_marginfi_deposit_instruction(&data, &accounts, &table_metadata()).unwrap();
    match event {
        MarginFiEvent::Deposit(e) => {
            assert_eq!(e.deposit_data.amount, 1_000_000);
            assert_eq!(e.deposit_data.signer, accounts[0]);
            assert_eq!(e.deposit_data.marginfi_group, accounts[1]);
            assert_eq!(e.deposit_data.token_program, accounts[6]);
            assert_eq!(e.metadata.id, "sig_0");
            assert_eq!(e.metadata.block_time, Some(0));
            assert_eq!(e.metadata.event_type, EventType::Deposit);
        }
        _ => panic!("expected a deposit"),
    }
    let short = parse_marginfi_deposit_instruction(&data[..15], &accounts, &table_metadata());
    assert_eq!(
        short.unwrap_err(),
        ParseError::InvalidDataFormat("Failed to parse MarginFi deposit instruction data".to_string())
    );
}

#[test]
fn marginfi_repay_log_reads_flag() {
    let mut data = vec![0u8; 8];
    data.extend_from_slice(&42u64.to_le_bytes());
    data.push(1);
    match parse_marginfi_repay_inner_instruction(&data, &table_metadata()).unwrap() {
        MarginFiEvent::Repay(e) => {
            assert_eq!(e.repay_data.amount, 42);
            assert!(e.repay_data.repay_all);
            assert_eq!(e.repay_data.bank, Pubkey::default());
        }
        _ => panic!("expected a repayment"),
    }
}

#[test]
fn marginfi_parser_dispatches_on_prefix() {
    let parser = MarginFiEventParser::new();
    let mut data = MARGINFI_LIQUIDATE_DISCRIMINATOR.to_vec();
    data.extend_from_slice(&9u64.to_le_bytes());
    data.extend_from_slice(&4u64.to_le_bytes());
    let input = SolanaTransactionInput::Instruction(OwnedInstructionParseParams {
        accounts: vec![],
        block_time: None,
        index: "1".to_string(),
        instruction_data: data,
        program_received_time_ms: 0,
        signature: "s".to_string(),
        slot: 1,
    });
    assert!(parser.can_parse(&input));
    let events = parser.parse(&input);
    assert_eq!(events.len(), 1);
    match &events[0] {
        MarginFiEvent::Liquidation(e) => {
            assert_eq!(e.liquidation_data.asset_amount, 9);
            assert_eq!(e.liquidation_data.liab_amount, 4);
            assert_eq!(e.metadata.id, "s_1");
        }
        _ => panic!("expected a liquidation"),
    }
    assert_eq!(parser.supported_program_ids().len(), 2);
    assert!(parser.should_handle(&program_id()));
    assert!(parser.should_handle(&bank_program_id()));
}

#[test]
fn marginfi_event_parser_default() {
    let parser = MarginFiEventParser::default();
    let program_ids = parser.supported_program_ids();
    assert_eq!(program_ids.len(), 2);
    assert!(program_ids.contains(&program_id()));
    assert!(program_ids.contains(&bank_program_id()));
    assert!(parser.should_handle(&program_id()));
    assert!(parser.should_handle(&bank_program_id()));
    assert!(!parser.should_handle(&Pubkey::new_from_array([9; 32])));

    let inner_configs = parser.inner_instruction_configs();
    let instruction_configs = parser.instruction_configs();
    assert!(!inner_configs.is_empty());
    assert!(!instruction_configs.is_empty());
    let has_inner = |key: &str| inner_configs.iter().any(|(k, _)| *k == key);
    assert!(has_inner("lendingAccountDeposit"));
    assert!(has_inner("lendingAccountWithdraw"));
    assert!(has_inner("lendingAccountBorrow"));
    assert!(has_inner("lendingAccountRepay"));
    assert!(has_inner("lendingAccountLiquidate"));
    let has_disc = |key: &[u8]| instruction_configs.iter().any(|(k, _)| k.as_slice() == key);
    assert!(has_disc(MARGINFI_DEPOSIT_DISCRIMINATOR.as_slice()));
    assert!(has_disc(MARGINFI_WITHDRAW_DISCRIMINATOR.as_slice()));
    assert!(has_disc(MARGINFI_BORROW_DISCRIMINATOR.as_slice()));
    assert!(has_disc(MARGINFI_REPAY_DISCRIMINATOR.as_slice()));
    assert!(has_disc(MARGINFI_LIQUIDATE_DISCRIMINATOR.as_slice()));
}

#[test]
fn marginfi_config_entries_carry_their_event_types() {
    let configs = MarginFiEventParser::new().configs();
    assert_eq!(configs.len(), 5);
    assert_eq!(configs[0].event_type, EventType::AddLiquidity);
    assert_eq!(configs[1].event_type, EventType::RemoveLiquidity);
    assert_eq!(configs[4].inner_instruction_discriminator, "lendingAccountLiquidate");
    assert_eq!(configs[4].program_id, program_id());
    assert_eq!(configs[2].protocol_type, ProtocolType::MarginFi);
}
