use riglr_solana_events::factory::{
    CompiledInstruction, InnerInstructionParseParams, InstructionParseParams, Protocol,
    UiCompiledInstruction,
};
use riglr_solana_events::protocols::raydium_clmm::{RaydiumClmmEvent, CLOSE_POSITION};
use riglr_solana_events::protocols::{jupiter, marginfi, orca, raydium_clmm};
use riglr_solana_events::registry::{EventParserRegistry, RegisteredParser, SolanaEvent};
use riglr_solana_events::types::Pubkey;

fn jupiter_parser() -> RegisteredParser {
    RegisteredParser::Jupiter(jupiter::EventParser::new())
}

#[test]
fn event_parser_registry_new() {
    let registry = EventParserRegistry::default();
    assert_eq!(registry.parser_count(), 0);
    assert_eq!(registry.program_mapping_count(), 0);
}

#[test]
fn event_parser_registry_default() {
    let registry = EventParserRegistry::default();
    assert_eq!(registry.parser_count(), 0);
    assert_eq!(registry.program_mapping_count(), 0);
}

#[test]
fn event_parser_registry_add_parser() {
    let mut registry = EventParserRegistry::default();
    registry.add_parser(Protocol::Jupiter, jupiter_parser());
    assert_eq!(registry.parser_count(), 1);
    assert!(registry.get_parser(&Protocol::Jupiter).is_some());
}

#[test]
fn event_parser_registry_add_parser_multiple_program_ids() {
    let mut registry = EventParserRegistry::default();
    registry.add_parser(Protocol::Jupiter, jupiter_parser());
    assert_eq!(registry.parser_count(), 1);
    assert!(registry.get_parser(&Protocol::Jupiter).is_some());
}

#[test]
fn event_parser_registry_get_parser_exists() {
    let mut registry = EventParserRegistry::default();
    registry.add_parser(Protocol::Jupiter, jupiter_parser());
    let retrieved_parser = registry.get_parser(&Protocol::Jupiter);
    assert!(retrieved_parser.is_some());
}

#[test]
fn event_parser_registry_get_parser_not_exists() {
    let registry = EventParserRegistry::default();
    let retrieved_parser = registry.get_parser(&Protocol::Jupiter);
    assert!(retrieved_parser.is_none());
}

#[test]
fn event_parser_registry_get_parser_for_program_not_exists() {
    let registry = EventParserRegistry::default();
    let program_id = Pubkey::new_from_array([7; 32]);
    let retrieved_parser = registry.get_parser_for_program(&program_id);
    assert!(retrieved_parser.is_none());
}

#[test]
fn event_parser_registry_supported_program_ids_empty() {
    let registry = EventParserRegistry::default();
    let program_ids = registry.supported_program_ids();
    assert!(program_ids.is_empty());
}

#[test]
fn event_parser_registry_should_handle_false() {
    let registry = EventParserRegistry::default();
    let program_id = Pubkey::new_from_array([7; 32]);
    assert!(!registry.should_handle(&program_id));
}

#[test]
fn event_parser_registry_parse_events_from_inner_instruction_empty_registry() {
    let registry = EventParserRegistry::default();
    let inner_instruction = UiCompiledInstruction {
        program_id_index: 0,
        accounts: vec![],
        data: "test_data".to_owned(),
        stack_height: None,
    };
    let params = InnerInstructionParseParams {
        inner_instruction: &inner_instruction,
        signature: "test_signature",
        slot: 12345,
        block_time: Some(1_234_567_890),
        program_received_time_ms: 1_234_567_890_123,
        index: "0".to_owned(),
    };
    let events = registry.parse_events_from_inner_instruction(params);
    assert_eq!(events.len(), 0);
}

#[test]
fn event_parser_registry_parse_events_from_instruction_no_parser() {
    let registry = EventParserRegistry::default();
    let program_id = Pubkey::new_from_array([7; 32]);
    let instruction = CompiledInstruction { program_id_index: 0, accounts: vec![], data: vec![] };
    let accounts = vec![program_id];
    let params = InstructionParseParams {
        instruction: &instruction,
        accounts: &accounts,
        signature: "test_signature",
        slot: 12345,
        block_time: Some(1_234_567_890),
        program_received_time_ms: 1_234_567_890_123,
        index: "0".to_owned(),
    };
    let events = registry.parse_events_from_instruction(params);
    assert_eq!(events.len(), 0);
}

#[test]
fn registry_second_parser_for_a_protocol_replaces_the_first() {
    let mut registry = EventParserRegistry::new();
    registry.add_parser(Protocol::Custom("x".to_owned()), jupiter_parser());
    registry.add_parser(Protocol::MarginFi, jupiter_parser());
    registry.add_parser(
        Protocol::Custom("x".to_owned()),
        RegisteredParser::RaydiumClmm(raydium_clmm::Parser::new()),
    );
    assert_eq!(registry.parser_count(), 2);
    assert!(matches!(
        registry.get_parser(&Protocol::Custom("x".to_owned())),
        Some(RegisteredParser::RaydiumClmm(_))
    ));
    assert!(matches!(registry.get_parser(&Protocol::MarginFi), Some(RegisteredParser::Jupiter(_))));
    assert!(registry.get_parser(&Protocol::Custom("y".to_owned())).is_none());
}

#[test]
fn registry_gives_the_events_of_the_first_parser_that_finds_any() {
    let accounts: Vec<Pubkey> = (1..=9u8).map(|i| Pubkey::new_from_array([i; 32])).collect();
    let instruction = CompiledInstruction {
        program_id_index: 0,
        accounts: vec![],
        data: CLOSE_POSITION.to_vec(),
    };
    let params = InstructionParseParams {
        instruction: &instruction,
        accounts: &accounts,
        signature: "sig",
        slot: 4,
        block_time: None,
        program_received_time_ms: 9,
        index: "1".to_owned(),
    };
    let registry = EventParserRegistry::with_all_parsers();
    let events = registry.parse_events_from_instruction(params);
    assert_eq!(events.len(), 1);
    match &events[0] {
        SolanaEvent::RaydiumClmm(RaydiumClmmEvent::ClosePosition(e)) => {
            assert_eq!(e.nft_owner, accounts[0]);
            assert_eq!(e.position_nft_mint, accounts[1]);
        }
        _ => panic!("expected a position closing"),
    }

    let mut only_jupiter = EventParserRegistry::new();
    only_jupiter.add_parser(Protocol::Jupiter, jupiter_parser());
    let params = InstructionParseParams {
        instruction: &instruction,
        accounts: &accounts,
        signature: "sig",
        slot: 4,
        block_time: None,
        program_received_time_ms: 9,
        index: "1".to_owned(),
    };
    assert!(only_jupiter.parse_events_from_instruction(params).is_empty());
}

#[test]
fn instruction_parse_params_creation() {
    let instruction = CompiledInstruction { program_id_index: 0, accounts: vec![], data: vec![] };
    let accounts = vec![Pubkey::new_from_array([7; 32])];
    let signature = "test_signature";
    let slot = 12345;
    let block_time = Some(1_234_567_890);
    let program_received_time_ms = 1_234_567_890_123;
    let index = "0".to_owned();
    let params = InstructionParseParams {
        instruction: &instruction,
        accounts: &accounts,
        signature,
        slot,
        block_time,
        program_received_time_ms,
        index: index.clone(),
    };
    assert_eq!(params.signature, signature);
    assert_eq!(params.slot, slot);
    assert_eq!(params.block_time, block_time);
    assert_eq!(params.program_received_time_ms, program_received_time_ms);
    assert_eq!(params.index, index);
}

#[test]
fn inner_instruction_parse_params_creation() {
    let inner_instruction = UiCompiledInstruction {
        program_id_index: 0,
        accounts: vec![],
        data: "test_data".to_owned(),
        stack_height: None,
    };
    let signature = "test_signature";
    let slot = 12345;
    let block_time = Some(1_234_567_890);
    let program_received_time_ms = 1_234_567_890_123;
    let index = "0".to_owned();
    let params = InnerInstructionParseParams {
        inner_instruction: &inner_instruction,
        signature,
        slot,
        block_time,
        program_received_time_ms,
        index: index.clone(),
    };
    assert_eq!(params.signature, signature);
    assert_eq!(params.slot, slot);
    assert_eq!(params.block_time, block_time);
    assert_eq!(params.program_received_time_ms, program_received_time_ms);
    assert_eq!(params.index, index);
}

#[test]
fn instruction_parse_params_debug() {
    let instruction = CompiledInstruction { program_id_index: 0, accounts: vec![], data: vec![] };
    let accounts = vec![Pubkey::new_from_array([7; 32])];
    let params = InstructionParseParams {
        instruction: &instruction,
        accounts: &accounts,
        signature: "test_signature",
        slot: 12345,
        block_time: Some(1_234_567_890),
        program_received_time_ms: 1_234_567_890_123,
        index: "0".to_owned(),
    };
    let debug_str = format!("{params:?}");
    assert!(debug_str.contains("InstructionParseParams"));
}

#[test]
fn inner_instruction_parse_params_debug() {
    let inner_instruction = UiCompiledInstruction {
        program_id_index: 0,
        accounts: vec![],
        data: "test_data".to_owned(),
        stack_height: None,
    };
    let params = InnerInstructionParseParams {
        inner_instruction: &inner_instruction,
        signature: "test_signature",
        slot: 12345,
        block_time: Some(1_234_567_890),
        program_received_time_ms: 1_234_567_890_123,
        index: "0".to_owned(),
    };
    let debug_str = format!("{params:?}");
    assert!(debug_str.contains("InnerInstructionParseParams"));
}

#[test]
fn event_parser_registry_get_parser_for_program_exists() {
    let mut registry = EventParserRegistry::default();
    let program_id = jupiter::v6_program_id();
    registry.add_parser(Protocol::Jupiter, jupiter_parser());
    let retrieved_parser = registry.get_parser_for_program(&program_id);
    assert!(retrieved_parser.is_some());
}

#[test]
fn registry_files_each_parser_under_its_program_ids() {
    let mut registry = EventParserRegistry::default();
    registry.add_parser(Protocol::Jupiter, jupiter_parser());
    registry.add_parser(
        Protocol::MarginFi,
        RegisteredParser::MarginFi(marginfi::MarginFiEventParser::default()),
    );
    let program_ids = registry.supported_program_ids();
    assert_eq!(program_ids, vec![jupiter::v6_program_id(), marginfi::program_id(), marginfi::bank_program_id()]);
    assert!(registry.should_handle(&marginfi::bank_program_id()));
    assert!(!registry.should_handle(&Pubkey::new_from_array([7; 32])));
    assert!(matches!(
        registry.get_parser_for_program(&marginfi::program_id()),
        Some(RegisteredParser::MarginFi(_))
    ));
    registry.add_parser(Protocol::Custom("again".to_owned()), RegisteredParser::Orca(orca::Parser::new()));
    registry.add_parser(Protocol::Custom("jup".to_owned()), RegisteredParser::MarginFi(marginfi::MarginFiEventParser::new()));
    assert_eq!(registry.program_mapping_count(), 4);
    assert!(matches!(
        registry.get_parser_for_program(&jupiter::v6_program_id()),
        Some(RegisteredParser::Jupiter(_))
    ));
}

#[test]
fn event_parser_registry_should_handle_true() {
    let mut registry = EventParserRegistry::default();
    let program_id = Pubkey::new_from_array([7; 32]);
    registry.add_parser(Protocol::Jupiter, jupiter_parser());
    assert!(!registry.should_handle(&program_id));
}

#[test]
fn event_parser_registry_with_all_parsers() {
    let registry = EventParserRegistry::with_all_parsers();
    assert_eq!(registry.parser_count(), 8);
    assert_eq!(registry.program_mapping_count(), 0);
    assert!(registry.get_parser(&Protocol::Bonk).is_some());
    assert!(registry.get_parser(&Protocol::Jupiter).is_some());
    assert!(registry.get_parser(&Protocol::MarginFi).is_some());
    assert!(registry.get_parser(&Protocol::MeteoraDlmm).is_some());
    assert!(registry.get_parser(&Protocol::OrcaWhirlpool).is_some());
    assert!(registry.get_parser(&Protocol::PumpSwap).is_some());
    assert!(registry.get_parser(&Protocol::RaydiumAmmV4).is_some());
    assert!(registry.get_parser(&Protocol::RaydiumClmm).is_some());
    assert!(registry.get_parser(&Protocol::RaydiumCpmm).is_none());
}

#[test]
fn registry_with_all_parsers_handles_no_program_until_one_is_added() {
    let mut registry = EventParserRegistry::with_all_parsers();
    assert!(registry.supported_program_ids().is_empty());
    assert!(!registry.should_handle(&orca::whirlpool_program_id()));
    assert!(registry.get_parser(&Protocol::PumpFun).is_none());
    registry.add_parser(Protocol::OrcaWhirlpool, RegisteredParser::Orca(orca::Parser::new()));
    assert_eq!(registry.parser_count(), 8);
    assert!(matches!(
        registry.get_parser_for_program(&orca::whirlpool_program_id()),
        Some(RegisteredParser::Orca(_))
    ));
}
