use riglr_solana_events::factory::{OwnedInstructionParseParams, SolanaTransactionInput};
use riglr_solana_events::protocols::raydium_amm_v4::{
    raydium_amm_v4_program_id, Parser as AmmParser, DEPOSIT, INITIALIZE2, SWAP_BASE_IN,
    SwapDirection, SWAP_BASE_OUT, WITHDRAW, WITHDRAW_PNL,
};
use riglr_solana_events::protocols::raydium_clmm::{
    raydium_clmm_program_id, Parser as ClmmParser, RaydiumClmmEvent, CLOSE_POSITION, CREATE_POOL,
    DECREASE_LIQUIDITY_V2, INCREASE_LIQUIDITY_V2, OPEN_POSITION_V2, OPEN_POSITION_WITH_TOKEN_22_NFT,
    SWAP, SWAP_V2,
};
use riglr_solana_events::types::{EventType, Pubkey};

#[test]
fn raydium_amm_v4_module_structure_integrity() {
    let swap_base_in = SWAP_BASE_IN;
    let swap_base_out = SWAP_BASE_OUT;
    let deposit = DEPOSIT;
    let withdraw = WITHDRAW;
    let _ = INITIALIZE2;
    let _ = WITHDRAW_PNL;
    assert_ne!(swap_base_in, swap_base_out);
    assert_ne!(deposit, withdraw);
}

#[test]
fn raydium_clmm_module_structure_integrity() {
    assert_eq!(SWAP.len(), 8);
    assert_eq!(SWAP_V2.len(), 8);
    assert_eq!(CLOSE_POSITION.len(), 8);
    assert_eq!(DECREASE_LIQUIDITY_V2.len(), 8);
    assert_eq!(CREATE_POOL.len(), 8);
    assert_eq!(INCREASE_LIQUIDITY_V2.len(), 8);
    assert_eq!(OPEN_POSITION_WITH_TOKEN_22_NFT.len(), 8);
    assert_eq!(OPEN_POSITION_V2.len(), 8);
    let discriminators = [
        SWAP,
        SWAP_V2,
        CLOSE_POSITION,
        DECREASE_LIQUIDITY_V2,
        CREATE_POOL,
        INCREASE_LIQUIDITY_V2,
        OPEN_POSITION_WITH_TOKEN_22_NFT,
        OPEN_POSITION_V2,
    ];
    for (i, &disc1) in discriminators.iter().enumerate() {
        for (j, &disc2) in discriminators.iter().enumerate() {
            if i != j {
                assert_ne!(disc1, disc2);
            }
        }
    }
}

#[test]
fn raydium_amm_v4_module_exports_parser() {
    let parser = AmmParser::new();
    let supported_ids = parser.supported_program_ids();
    assert!(!supported_ids.is_empty());
    assert!(supported_ids.contains(&raydium_amm_v4_program_id()));
}

#[test]
fn raydium_amm_v4_module_exports_program_id_constant() {
    assert_ne!(raydium_amm_v4_program_id(), Pubkey::default());
}

#[test]
fn raydium_amm_v4_parser_should_handle_correct_program_id() {
    let parser = AmmParser::new();
    assert!(parser.should_handle(&raydium_amm_v4_program_id()));
    assert!(!parser.should_handle(&Pubkey::default()));
    let mut other = [0u8; 32];
    other[31] = 1;
    assert!(!parser.should_handle(&Pubkey::new_from_array(other)));
}

#[test]
fn raydium_clmm_module_exports_parser() {
    let parser = ClmmParser::new();
    let supported_ids = parser.supported_program_ids();
    assert!(!supported_ids.is_empty());
    assert!(supported_ids.contains(&raydium_clmm_program_id()));
}

#[test]
fn raydium_clmm_module_exports_program_id_constant() {
    assert_ne!(raydium_clmm_program_id(), Pubkey::default());
}

#[test]
fn raydium_clmm_parser_should_handle_correct_program_id() {
    let parser = ClmmParser::new();
    assert!(parser.should_handle(&raydium_clmm_program_id()));
    assert!(!parser.should_handle(&Pubkey::default()));
    let mut other = [0u8; 32];
    other[31] = 1;
    assert!(!parser.should_handle(&Pubkey::new_from_array(other)));
}

#[test]
fn re_exports_available() {
    let _: Pubkey = raydium_clmm_program_id();
    let _ = std::mem::size_of::<ClmmParser>();
}

#[test]
fn raydium_program_ids_spell_the_addresses() {
    assert_eq!(raydium_clmm_program_id().to_base58(), "CAMMCzo5YL8w4VFF8KVHrK22GGUsp5VTaW7grrKgrWqK");
    assert_eq!(
        raydium_amm_v4_program_id().to_base58(),
        "675kPX9MHTjS2zt1qfr1NYHuzeLXfQM9H24wFSUt1Mp8"
    );
}

#[test]
fn raydium_clmm_table_closes_positions_from_accounts() {
    let parser = ClmmParser::new();
    let accounts: Vec<Pubkey> = (1..=9u8).map(|i| Pubkey::new_from_array([i; 32])).collect();
    let input = SolanaTransactionInput::Instruction(OwnedInstructionParseParams {
        accounts: accounts.clone(),
        block_time: Some(3),
        index: "1".to_string(),
        instruction_data: CLOSE_POSITION.to_vec(),
        program_received_time_ms: 9,
        signature: "sig".to_string(),
        slot: 4,
    });
    let events = parser.parse(&input);
    assert_eq!(events.len(), 1);
    match &events[0] {
        RaydiumClmmEvent::ClosePosition(e) => {
            assert_eq!(e.nft_owner, accounts[0]);
            assert_eq!(e.position_nft_mint, accounts[1]);
            assert_eq!(e.metadata.id, format!("sig-{}-close", accounts[1].to_base58()));
            assert_eq!(e.metadata.event_type, EventType::ClosePosition);
        }
        _ => panic!("expected a position closing"),
    }
    let mut longer = CLOSE_POSITION.to_vec();
    longer.push(0);
    let input = SolanaTransactionInput::Instruction(OwnedInstructionParseParams {
        accounts,
        block_time: None,
        index: "1".to_string(),
        instruction_data: longer,
        program_received_time_ms: 0,
        signature: "sig".to_string(),
        slot: 4,
    });
    assert!(parser.parse(&input).is_empty());
}

#[test]
fn module_exports_swap_direction_enum() {
    let base_in = SwapDirection::BaseIn;
    let base_out = SwapDirection::BaseOut;
    let base_in_clone = base_in;
    assert!(format!("{base_in_clone:?}").contains("BaseIn"));
    assert!(format!("{base_out:?}").contains("BaseOut"));
    let default_direction = SwapDirection::default();
    assert!(matches!(default_direction, SwapDirection::BaseIn));
}

#[test]
fn raydium_clmm_tables_list_each_instruction() {
    let parser = ClmmParser::new();
    let inner = parser.inner_instruction_configs();
    assert_eq!(inner.len(), 1);
    assert_eq!(inner[0].0, "");
    assert_eq!(inner[0].1.len(), 8);
    let ix = parser.instruction_configs();
    assert_eq!(ix.len(), 8);
    assert_eq!(ix[2].0, CLOSE_POSITION.to_vec());
    assert_eq!(ix[2].1[0].event_type, EventType::ClosePosition);
    assert_eq!(ix[2].1[0].program_id, raydium_clmm_program_id());
}
