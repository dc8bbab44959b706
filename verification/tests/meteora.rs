use riglr_solana_events::protocols::meteora::{
    calculate_liquidity_distribution, dlmm_program_id, dynamic_program_id,
    is_meteora_dlmm_program, is_meteora_dynamic_program, DynamicLiquidityEvent, Parser, SwapEvent,
    DLMM_ADD_LIQUIDITY_DISCRIMINATOR, DLMM_REMOVE_LIQUIDITY_DISCRIMINATOR,
    DLMM_SWAP_DISCRIMINATOR, DYNAMIC_ADD_LIQUIDITY_DISCRIMINATOR,
    DYNAMIC_REMOVE_LIQUIDITY_DISCRIMINATOR, METEORA_DLMM_PROGRAM_ID, METEORA_DYNAMIC_PROGRAM_ID,
};
use riglr_solana_events::protocols::meteora::{DynamicLiquidityData, SwapData};
use riglr_solana_events::types::{EventParameters, EventType, ProtocolType, Pubkey, TransferData};

#[test]
fn events_module_accessibility() {
    let _ = std::mem::size_of::<SwapEvent>();
    let _ = std::mem::size_of::<DynamicLiquidityEvent>();
}

#[test]
fn parser_module_accessibility() {
    let _ = std::mem::size_of::<Parser>();
}

#[test]
fn types_module_accessibility() {
    let _ = METEORA_DLMM_PROGRAM_ID;
}

#[test]
fn module_reexports_compile() {}

#[test]
fn dlmm_program_id_when_called_should_return_valid_pubkey() {
    let program_id = dlmm_program_id();
    assert_eq!(program_id.to_base58(), "LBUZKhRxPF3XUpBCjp4YzTKgLccjZhTSDM9YuVaPwxo");
}

#[test]
fn dynamic_program_id_when_called_should_return_valid_pubkey() {
    let program_id = dynamic_program_id();
    assert_eq!(program_id.to_base58(), "Dooar9JkhdZ7J3LHN3A7YCuoGRUggXhQaG4kijfLGU2j");
}

#[test]
fn is_meteora_dlmm_program_when_correct_pubkey_should_return_true() {
    let correct_pubkey = dlmm_program_id();
    assert!(is_meteora_dlmm_program(&correct_pubkey));
}

#[test]
fn is_meteora_dynamic_program_when_correct_pubkey_should_return_true() {
    let correct_pubkey = dynamic_program_id();
    assert!(is_meteora_dynamic_program(&correct_pubkey));
}

#[test]
fn is_meteora_dlmm_program_when_incorrect_pubkey_should_return_false() {
    let mut bytes = [0u8; 32];
    bytes[31] = 1;
    assert!(!is_meteora_dlmm_program(&Pubkey::new_from_array(bytes)));
}

#[test]
fn is_meteora_dynamic_program_when_incorrect_pubkey_should_return_false() {
    let mut bytes = [0u8; 32];
    bytes[31] = 1;
    assert!(!is_meteora_dynamic_program(&Pubkey::new_from_array(bytes)));
}

#[test]
fn calculate_liquidity_distribution_when_equal_range_should_distribute_evenly() {
    let distribution = calculate_liquidity_distribution(1000, 2000, 100, 102, 101);
    assert_eq!(distribution.len(), 3);
    assert_eq!(distribution.first().copied(), Some((100, 333, 0)));
    assert_eq!(distribution.get(1).copied(), Some((101, 333, 666)));
    assert_eq!(distribution.get(2).copied(), Some((102, 0, 666)));
}

#[test]
fn calculate_liquidity_distribution_when_single_bin_should_contain_all() {
    let distribution = calculate_liquidity_distribution(1000, 2000, 100, 100, 100);
    assert_eq!(distribution.len(), 1);
    assert_eq!(distribution.first().copied(), Some((100, 1000, 2000)));
}

#[test]
fn calculate_liquidity_distribution_when_active_below_range_should_only_have_y() {
    let distribution = calculate_liquidity_distribution(1000, 2000, 100, 102, 99);
    assert_eq!(distribution.len(), 3);
    for (_, x_amount, y_amount) in distribution {
        assert_eq!(x_amount, 0);
        assert_eq!(y_amount, 666);
    }
}

#[test]
fn calculate_liquidity_distribution_when_active_above_range_should_only_have_x() {
    let distribution = calculate_liquidity_distribution(1000, 2000, 100, 102, 103);
    assert_eq!(distribution.len(), 3);
    for (_, x_amount, y_amount) in distribution {
        assert_eq!(x_amount, 333);
        assert_eq!(y_amount, 0);
    }
}

#[test]
fn calculate_liquidity_distribution_when_invalid_range_should_return_empty() {
    let distribution = calculate_liquidity_distribution(1000, 2000, 102, 100, 101);
    assert!(distribution.is_empty());
}

#[test]
fn calculate_liquidity_distribution_when_zero_amounts_should_work() {
    let distribution = calculate_liquidity_distribution(0, 0, 100, 102, 101);
    assert_eq!(distribution.len(), 3);
    for (_, x_amount, y_amount) in distribution {
        assert_eq!(x_amount, 0);
        assert_eq!(y_amount, 0);
    }
}

#[test]
fn distribution_hands_out_no_more_than_given() {
    let distribution = calculate_liquidity_distribution(1001, 7, 10, 16, 13);
    let x: u64 = distribution.iter().map(|e| e.1).sum();
    let y: u64 = distribution.iter().map(|e| e.2).sum();
    assert_eq!(x, 4 * 143);
    assert_eq!(y, 4);
    assert!(x <= 1001 && y <= 7);
}

#[test]
fn distribution_at_top_of_range_does_not_overflow() {
    let distribution = calculate_liquidity_distribution(10, 10, u32::MAX - 1, u32::MAX, u32::MAX);
    assert_eq!(distribution, vec![(u32::MAX - 1, 5, 0), (u32::MAX, 5, 5)]);
}

#[test]
fn constants_values() {
    assert_eq!(METEORA_DLMM_PROGRAM_ID, "LBUZKhRxPF3XUpBCjp4YzTKgLccjZhTSDM9YuVaPwxo");
    assert_eq!(METEORA_DYNAMIC_PROGRAM_ID, "Dooar9JkhdZ7J3LHN3A7YCuoGRUggXhQaG4kijfLGU2j");
    assert_eq!(DLMM_SWAP_DISCRIMINATOR, [0x14, 0x65, 0x32, 0x1f, 0x7a, 0x43, 0x2a, 0x9f]);
    assert_eq!(DLMM_ADD_LIQUIDITY_DISCRIMINATOR, [0x4c, 0x1c, 0x9b, 0x2d, 0xe3, 0x7a, 0x8b, 0x12]);
    assert_eq!(DLMM_REMOVE_LIQUIDITY_DISCRIMINATOR, [0xa2, 0xfd, 0x67, 0xe3, 0x45, 0x1b, 0x8c, 0x9a]);
    assert_eq!(DYNAMIC_ADD_LIQUIDITY_DISCRIMINATOR, [0x85, 0x72, 0x1a, 0x5f, 0x9d, 0x4e, 0x23, 0x7c]);
    assert_eq!(
        DYNAMIC_REMOVE_LIQUIDITY_DISCRIMINATOR,
        [0x6a, 0x8b, 0x47, 0x2e, 0x1c, 0x93, 0x5f, 0x4d]
    );
}

#[test]
fn meteora_parser_handles_both_programs_and_decodes_nothing() {
    let parser = Parser::new();
    assert!(parser.should_handle(&dlmm_program_id()));
    assert!(parser.should_handle(&dynamic_program_id()));
    assert!(!parser.should_handle(&Pubkey::default()));
    assert_eq!(parser.supported_program_ids().len(), 2);
}

#[test]
fn meteora_swap_data_default() {
    let swap_data = SwapData::default();
    assert_eq!(swap_data.amount_in, 0);
    assert_eq!(swap_data.min_amount_out, 0);
    assert_eq!(swap_data.actual_amount_out, 0);
    assert!(!swap_data.swap_for_y);
    assert_eq!(swap_data.active_id_before, 0);
    assert_eq!(swap_data.active_id_after, 0);
    assert_eq!(swap_data.fee_amount, 0);
    assert_eq!(swap_data.protocol_fee, 0);
    assert!(swap_data.bins_traversed.is_empty());
}

#[test]
fn meteora_dynamic_liquidity_data_default() {
    let liquidity_data = DynamicLiquidityData::default();
    assert_eq!(liquidity_data.pool_token_amount, 0);
    assert_eq!(liquidity_data.token_a_amount, 0);
    assert_eq!(liquidity_data.token_b_amount, 0);
    assert_eq!(liquidity_data.minimum_pool_token_amount, 0);
    assert_eq!(liquidity_data.maximum_token_a_amount, 0);
    assert_eq!(liquidity_data.maximum_token_b_amount, 0);
    assert!(!liquidity_data.is_deposit);
}

#[test]
fn meteora_event_constructors_keep_the_parameters() {
    let params = EventParameters::new(
        "m-id".to_owned(),
        "m-sig".to_owned(),
        7,
        1000,
        1_000_000,
        1_000_001,
        "3".to_owned(),
    );
    let swap = SwapEvent::new(params.clone(), SwapData::default());
    assert_eq!(swap.metadata.id, "m-id");
    assert_eq!(swap.metadata.block_time, Some(1000));
    assert_eq!(swap.metadata.received_time_ms, 1_000_001);
    assert_eq!(swap.metadata.event_type, EventType::Swap);
    assert_eq!(swap.metadata.protocol_type, ProtocolType::MeteoraDlmm);
    assert!(swap.transfer_data.is_empty());
    let transfer = TransferData {
        source: Pubkey::new_from_array([1; 32]),
        destination: Pubkey::new_from_array([2; 32]),
        mint: None,
        amount: 42,
    };
    let swap = swap.with_transfer_data(vec![transfer]);
    assert_eq!(swap.transfer_data.len(), 1);
    assert_eq!(swap.transfer_data[0].amount, 42);
    let liquidity = DynamicLiquidityEvent::new(params, DynamicLiquidityData::default());
    assert_eq!(liquidity.metadata.event_type, EventType::AddLiquidity);
    assert_eq!(liquidity.metadata.protocol_type, ProtocolType::MeteoraDlmm);
    assert!(liquidity.with_transfer_data(vec![]).transfer_data.is_empty());
}
