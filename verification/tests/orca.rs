use riglr_solana_events::factory::{
    OwnedInnerInstructionParseParams, OwnedInstructionParseParams, SolanaTransactionInput,
};
use riglr_solana_events::protocols::orca::{
    is_orca_whirlpool_program, parse_liquidity_data, parse_liquidity_data_from_instruction,
    parse_position_data, parse_position_data_from_instruction, parse_swap_data,
    parse_swap_data_from_instruction, parse_swap_inner_instruction, whirlpool_program_id,
    OrcaEvent, Parser, PositionRewardInfo, SwapDirection, CLOSE_POSITION_DISCRIMINATOR,
    DECREASE_LIQUIDITY_DISCRIMINATOR, INCREASE_LIQUIDITY_DISCRIMINATOR,
    OPEN_POSITION_DISCRIMINATOR, ORCA_WHIRLPOOL_PROGRAM_ID, SWAP_DISCRIMINATOR,
};
use riglr_solana_events::common::encode_base58;
use riglr_solana_events::types::{EventMetadata, EventType, ProtocolType, Pubkey};

fn create_test_accounts() -> Vec<Pubkey> {
    (0..15u8)
        .map(|i| {
            let mut full_bytes = [0u8; 32];
            full_bytes[0] = 0xA0;
            full_bytes[8] = i;
            Pubkey::new_from_array(full_bytes)
        })
        .collect()
}

fn swap_record(flags: u8) -> Vec<u8> {
    let mut data = vec![0u8; 64];
    data.get_mut(8..16).unwrap().copy_from_slice(&1000u64.to_le_bytes());
    data.get_mut(16..24).unwrap().copy_from_slice(&2000u64.to_le_bytes());
    data.get_mut(24..40).unwrap().copy_from_slice(&123_456_789_u128.to_le_bytes());
    *data.get_mut(40).unwrap() = flags;
    *data.get_mut(41).unwrap() = flags;
    data
}

fn position_record() -> Vec<u8> {
    let mut data = vec![0u8; 32];
    data.get_mut(8..12).unwrap().copy_from_slice(&(-100i32).to_le_bytes());
    data.get_mut(12..16).unwrap().copy_from_slice(&100i32.to_le_bytes());
    data
}

fn liquidity_record() -> Vec<u8> {
    let mut data = vec![0u8; 40];
    data.get_mut(8..24).unwrap().copy_from_slice(&123_456_789_u128.to_le_bytes());
    data.get_mut(24..32).unwrap().copy_from_slice(&1000u64.to_le_bytes());
    data.get_mut(32..40).unwrap().copy_from_slice(&2000u64.to_le_bytes());
    data
}

fn create_test_metadata() -> EventMetadata {
    EventMetadata {
        id: "test_id".to_string(),
        signature: "test_sig".to_string(),
        slot: 12345,
        block_time: None,
        received_time_ms: 1000,
        index: "0".to_string(),
        event_type: EventType::Swap,
        protocol_type: ProtocolType::OrcaWhirlpool,
    }
}

#[test]
fn test_swap_direction_atob_equality() {
    assert_eq!(SwapDirection::AtoB, SwapDirection::AtoB);
    assert_ne!(SwapDirection::AtoB, SwapDirection::BtoA);
}

#[test]
fn test_swap_direction_btoa_equality() {
    assert_eq!(SwapDirection::BtoA, SwapDirection::BtoA);
    assert_ne!(SwapDirection::BtoA, SwapDirection::AtoB);
}

#[test]
fn test_swap_direction_clone() {
    let direction = SwapDirection::AtoB;
    let cloned = direction.clone();
    assert_eq!(direction, cloned);
}

#[test]
fn test_swap_direction_debug() {
    let direction = SwapDirection::AtoB;
    let debug_str = format!("{direction:?}");
    assert_eq!(debug_str, "AtoB");
    let direction = SwapDirection::BtoA;
    let debug_str = format!("{direction:?}");
    assert_eq!(debug_str, "BtoA");
}

#[test]
fn test_position_reward_info_default() {
    let reward_info = PositionRewardInfo::default();
    assert_eq!(reward_info.growth_inside_checkpoint, 0);
    assert_eq!(reward_info.amount_owed, 0);
}

#[test]
fn test_position_reward_info_creation() {
    let reward_info = PositionRewardInfo { growth_inside_checkpoint: 5000, amount_owed: 250 };
    assert_eq!(reward_info.growth_inside_checkpoint, 5000);
    assert_eq!(reward_info.amount_owed, 250);
}

#[test]
fn test_position_reward_info_copy() {
    let original = PositionRewardInfo { growth_inside_checkpoint: 5000, amount_owed: 250 };
    let copied = original;
    assert_eq!(original.growth_inside_checkpoint, copied.growth_inside_checkpoint);
    assert_eq!(original.amount_owed, copied.amount_owed);
}

#[test]
fn test_constants_values() {
    assert_eq!(ORCA_WHIRLPOOL_PROGRAM_ID, "whirLbMiicVdio4qvUfM5KAg6Ct8VwpYzGff3uctyCc");
    assert_eq!(SWAP_DISCRIMINATOR, [0xf8, 0xc6, 0x9e, 0x91, 0xe1, 0x75, 0x87, 0xc8]);
    assert_eq!(OPEN_POSITION_DISCRIMINATOR, [0x87, 0x80, 0x2f, 0x4d, 0x0f, 0x98, 0xf0, 0x31]);
    assert_eq!(CLOSE_POSITION_DISCRIMINATOR, [0x7b, 0x86, 0x51, 0x00, 0x31, 0x44, 0x62, 0x62]);
    assert_eq!(INCREASE_LIQUIDITY_DISCRIMINATOR, [0x2e, 0x9c, 0xf3, 0x76, 0x0d, 0xcd, 0xfb, 0xb2]);
    assert_eq!(DECREASE_LIQUIDITY_DISCRIMINATOR, [0xa0, 0x26, 0xd0, 0x6f, 0x68, 0x5b, 0x2c, 0x01]);
}

#[test]
fn test_serialization_compatibility() {
    let swap_direction = SwapDirection::AtoB;
    let _serialized = format!("{swap_direction:?}");
    let position_reward = PositionRewardInfo { growth_inside_checkpoint: 100, amount_owed: 50 };
    let _serialized = format!("{position_reward:?}");
}

#[test]
fn types_module_reexports_discriminators() {
    assert_eq!(SWAP_DISCRIMINATOR.len(), 8);
    assert_eq!(OPEN_POSITION_DISCRIMINATOR.len(), 8);
    assert_eq!(CLOSE_POSITION_DISCRIMINATOR.len(), 8);
    assert_eq!(INCREASE_LIQUIDITY_DISCRIMINATOR.len(), 8);
    assert_eq!(DECREASE_LIQUIDITY_DISCRIMINATOR.len(), 8);
}

#[test]
fn types_module_reexports_swap_direction() {
    let direction_a_to_b = SwapDirection::AtoB;
    let direction_b_to_a = SwapDirection::BtoA;
    assert_eq!(direction_a_to_b, SwapDirection::AtoB);
    assert_eq!(direction_b_to_a, SwapDirection::BtoA);
    assert_ne!(direction_a_to_b, direction_b_to_a);
}

#[test]
fn module_constants_are_accessible() {
    assert_eq!(ORCA_WHIRLPOOL_PROGRAM_ID, "whirLbMiicVdio4qvUfM5KAg6Ct8VwpYzGff3uctyCc");
    assert_eq!(SWAP_DISCRIMINATOR, [0xf8, 0xc6, 0x9e, 0x91, 0xe1, 0x75, 0x87, 0xc8]);
    assert_eq!(OPEN_POSITION_DISCRIMINATOR, [0x87, 0x80, 0x2f, 0x4d, 0x0f, 0x98, 0xf0, 0x31]);
    assert_eq!(CLOSE_POSITION_DISCRIMINATOR, [0x7b, 0x86, 0x51, 0x00, 0x31, 0x44, 0x62, 0x62]);
    assert_eq!(INCREASE_LIQUIDITY_DISCRIMINATOR, [0x2e, 0x9c, 0xf3, 0x76, 0x0d, 0xcd, 0xfb, 0xb2]);
    assert_eq!(DECREASE_LIQUIDITY_DISCRIMINATOR, [0xa0, 0x26, 0xd0, 0x6f, 0x68, 0x5b, 0x2c, 0x01]);
}

#[test]
fn test_whirlpool_program_id_should_return_valid_pubkey() {
    let program_id = whirlpool_program_id();
    assert_eq!(program_id.to_base58(), ORCA_WHIRLPOOL_PROGRAM_ID);
}

#[test]
fn test_is_orca_whirlpool_program_when_correct_program_id_should_return_true() {
    let program_id = whirlpool_program_id();
    assert!(is_orca_whirlpool_program(&program_id));
}

#[test]
fn test_is_orca_whirlpool_program_when_different_program_id_should_return_false() {
    assert!(!is_orca_whirlpool_program(&Pubkey::default()));
}

#[test]
fn test_should_handle_when_program_id_matches_should_return_true() {
    let parser = Parser::new();
    assert!(parser.should_handle(&whirlpool_program_id()));
}

#[test]
fn test_should_handle_when_program_id_not_matches_should_return_false() {
    let parser = Parser::new();
    assert!(!parser.should_handle(&Pubkey::default()));
}

#[test]
fn test_supported_program_ids() {
    let parser = Parser::new();
    let supported_ids = parser.supported_program_ids();
    assert_eq!(supported_ids.len(), 1);
    assert_eq!(supported_ids.first().copied(), Some(whirlpool_program_id()));
}

fn inner_input(data: &[u8]) -> SolanaTransactionInput {
    SolanaTransactionInput::InnerInstruction(OwnedInnerInstructionParseParams {
        block_time: Some(1000),
        index: "0".to_string(),
        inner_instruction_data: encode_base58(data),
        program_received_time_ms: 2000,
        signature: "test_sig".to_string(),
        slot: 12345,
    })
}

fn instruction_input(data: Vec<u8>, accounts: Vec<Pubkey>) -> SolanaTransactionInput {
    SolanaTransactionInput::Instruction(OwnedInstructionParseParams {
        accounts,
        block_time: Some(1000),
        index: "0".to_string(),
        instruction_data: data,
        program_received_time_ms: 2000,
        signature: "test_sig".to_string(),
        slot: 12345,
    })
}

#[test]
fn test_parse_events_from_inner_instruction_when_valid_data_should_parse() {
    let parser = Parser::new();
    let mut data = swap_record(1);
    data.get_mut(0..8).unwrap().copy_from_slice(&[1, 2, 3, 4, 5, 6, 7, 8]);
    let events = parser.parse(&inner_input(&data));
    assert_eq!(events.len(), 5);
}

#[test]
fn test_parse_events_from_inner_instruction_when_invalid_data_should_return_empty() {
    let parser = Parser::new();
    let input = SolanaTransactionInput::InnerInstruction(OwnedInnerInstructionParseParams {
        block_time: Some(1000),
        index: "0".to_string(),
        inner_instruction_data: "invalid_base58".to_string(),
        program_received_time_ms: 2000,
        signature: "test_sig".to_string(),
        slot: 12345,
    });
    assert_eq!(parser.parse(&input).len(), 0);
}

#[test]
fn test_parse_events_from_instruction_when_discriminator_matches_should_parse() {
    let parser = Parser::new();
    let mut data = swap_record(1);
    data.get_mut(0..8).unwrap().copy_from_slice(&SWAP_DISCRIMINATOR);
    let events = parser.parse(&instruction_input(data, create_test_accounts()));
    assert_eq!(events.len(), 1);
    match &events[0] {
        OrcaEvent::Swap(e) => {
            assert_eq!(e.metadata.id, "test_sig_0");
            assert_eq!(e.metadata.event_type, EventType::Swap);
            assert_eq!(e.metadata.block_time, None);
            assert_eq!(e.swap_data.amount_in, 1000);
        }
        _ => panic!("expected a swap"),
    }
}

#[test]
fn test_parse_events_from_instruction_when_no_discriminator_match_should_return_empty() {
    let parser = Parser::new();
    let events = parser.parse(&instruction_input(vec![99; 8], create_test_accounts()));
    assert_eq!(events.len(), 0);
}

#[test]
fn test_parse_orca_swap_data_when_valid_data_should_return_some() {
    let swap_data = parse_swap_data(&swap_record(1));
    assert!(swap_data.is_some());
    let swap_data = swap_data.expect("Valid swap data should parse successfully");
    assert_eq!(swap_data.amount, 1000);
    assert_eq!(swap_data.sqrt_price_limit, 123_456_789);
    assert!(swap_data.amount_specified_is_input);
    assert!(swap_data.a_to_b);
    assert_eq!(swap_data.amount_in, 1000);
    assert_eq!(swap_data.amount_out, 2000);
}

#[test]
fn test_parse_orca_swap_data_when_amount_not_input_should_swap_amounts() {
    let swap_data = parse_swap_data(&swap_record(0)).expect("Valid swap data should parse successfully");
    assert!(!swap_data.amount_specified_is_input);
    assert!(!swap_data.a_to_b);
    assert_eq!(swap_data.amount_in, 2000);
    assert_eq!(swap_data.amount_out, 1000);
}

#[test]
fn test_parse_orca_swap_data_when_insufficient_data_should_return_none() {
    assert!(parse_swap_data(&vec![0u8; 32]).is_none());
}

#[test]
fn test_parse_orca_swap_data_from_instruction_when_sufficient_accounts_should_extract() {
    let accounts = create_test_accounts();
    let swap_data = parse_swap_data_from_instruction(&swap_record(1), &accounts).unwrap();
    assert_eq!(swap_data.user, *accounts.first().unwrap());
    assert_eq!(swap_data.whirlpool, *accounts.get(1).unwrap());
    assert_eq!(swap_data.token_vault_a, *accounts.get(3).unwrap());
    assert_eq!(swap_data.token_vault_b, *accounts.get(4).unwrap());
}

#[test]
fn test_parse_orca_swap_data_from_instruction_when_insufficient_accounts_should_use_defaults() {
    let accounts = vec![*create_test_accounts().first().unwrap()];
    let swap_data = parse_swap_data_from_instruction(&swap_record(1), &accounts).unwrap();
    assert_eq!(swap_data.whirlpool, Pubkey::default());
    assert_eq!(swap_data.user, Pubkey::default());
}

#[test]
fn test_parse_orca_position_data_when_valid_data_should_return_some() {
    let position_data = parse_position_data(&position_record()).unwrap();
    assert_eq!(position_data.tick_lower_index, -100);
    assert_eq!(position_data.tick_upper_index, 100);
}

#[test]
fn test_parse_orca_position_data_when_insufficient_data_should_return_none() {
    assert!(parse_position_data(&vec![0u8; 16]).is_none());
}

#[test]
fn test_parse_orca_position_data_from_instruction_when_sufficient_accounts_should_extract() {
    let accounts = create_test_accounts();
    let position_data = parse_position_data_from_instruction(&position_record(), &accounts).unwrap();
    assert_eq!(position_data.position_authority, *accounts.first().unwrap());
    assert_eq!(position_data.whirlpool, *accounts.get(1).unwrap());
    assert_eq!(position_data.position, *accounts.get(2).unwrap());
    assert_eq!(position_data.position_mint, *accounts.get(3).unwrap());
    assert_eq!(position_data.position_token_account, *accounts.get(4).unwrap());
}

#[test]
fn test_parse_orca_position_data_from_instruction_when_insufficient_accounts_should_use_defaults() {
    let accounts = vec![*create_test_accounts().first().unwrap()];
    let position_data = parse_position_data_from_instruction(&position_record(), &accounts).unwrap();
    assert_eq!(position_data.whirlpool, Pubkey::default());
    assert_eq!(position_data.position_authority, Pubkey::default());
}

#[test]
fn test_parse_orca_liquidity_data_when_valid_data_should_return_some() {
    let liquidity_data = parse_liquidity_data(&liquidity_record(), true).unwrap();
    assert_eq!(liquidity_data.liquidity_amount, 123_456_789);
    assert_eq!(liquidity_data.token_max_a, 1000);
    assert_eq!(liquidity_data.token_max_b, 2000);
    assert!(liquidity_data.is_increase);
    assert_eq!(liquidity_data.token_actual_a, 1000);
    assert_eq!(liquidity_data.token_actual_b, 2000);
}

#[test]
fn test_parse_orca_liquidity_data_when_decrease_should_set_flag() {
    let liquidity_data = parse_liquidity_data(&liquidity_record(), false).unwrap();
    assert!(!liquidity_data.is_increase);
}

#[test]
fn test_parse_orca_liquidity_data_when_insufficient_data_should_return_none() {
    assert!(parse_liquidity_data(&vec![0u8; 20], true).is_none());
}

#[test]
fn test_parse_orca_liquidity_data_from_instruction_when_sufficient_accounts_should_extract() {
    let accounts = create_test_accounts();
    let liquidity_data = parse_liquidity_data_from_instruction(&liquidity_record(), &accounts, true).unwrap();
    assert_eq!(liquidity_data.position_authority, *accounts.first().unwrap());
    assert_eq!(liquidity_data.whirlpool, *accounts.get(1).unwrap());
    assert_eq!(liquidity_data.position, *accounts.get(2).unwrap());
    assert_eq!(liquidity_data.token_vault_a, *accounts.get(5).unwrap());
    assert_eq!(liquidity_data.token_vault_b, *accounts.get(6).unwrap());
}

#[test]
fn test_parse_orca_liquidity_data_from_instruction_when_insufficient_accounts_should_use_defaults() {
    let accounts = vec![*create_test_accounts().first().unwrap()];
    let liquidity_data = parse_liquidity_data_from_instruction(&liquidity_record(), &accounts, true).unwrap();
    assert_eq!(liquidity_data.whirlpool, Pubkey::default());
    assert_eq!(liquidity_data.position_authority, Pubkey::default());
}

#[test]
fn test_parse_orca_swap_inner_instruction_when_valid_data_should_return_event() {
    assert!(parse_swap_inner_instruction(&swap_record(1), &create_test_metadata()).is_ok());
}

#[test]
fn test_parse_orca_swap_inner_instruction_when_invalid_data_should_return_none() {
    assert!(parse_swap_inner_instruction(&vec![0u8; 10], &create_test_metadata()).is_err());
}

#[test]
fn orca_log_of_forty_bytes_gives_positions_and_liquidity_changes() {
    let parser = Parser::new();
    let events = parser.parse(&inner_input(&liquidity_record()));
    assert_eq!(events.len(), 4);
    assert!(matches!(&events[0], OrcaEvent::Position(e) if e.is_open));
    assert!(matches!(&events[1], OrcaEvent::Position(e) if !e.is_open));
    assert!(matches!(&events[2], OrcaEvent::Liquidity(e) if e.liquidity_data.is_increase));
    assert!(matches!(&events[3], OrcaEvent::Liquidity(e) if !e.liquidity_data.is_increase
        && e.metadata.event_type == EventType::AddLiquidity));
}

#[test]
fn orca_can_parse_follows_discriminators() {
    let parser = Parser::new();
    let mut data = position_record();
    data.get_mut(0..8).unwrap().copy_from_slice(&CLOSE_POSITION_DISCRIMINATOR);
    assert!(parser.can_parse(&instruction_input(data, vec![])));
    assert!(!parser.can_parse(&instruction_input(vec![1, 2, 3], vec![])));
    assert!(parser.can_parse(&inner_input(&[1, 2, 3])));
}
