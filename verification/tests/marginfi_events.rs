use riglr_solana_events::protocols::marginfi::{
    MarginFiBalance, MarginFiBankConfig, MarginFiBorrowData, MarginFiBorrowEvent,
    MarginFiDepositData, MarginFiDepositEvent, MarginFiLiquidationData, MarginFiLiquidationEvent,
    MarginFiRepayData, MarginFiRepayEvent, MarginFiWithdrawData, MarginFiWithdrawEvent,
};
use riglr_solana_events::types::{EventParameters, EventType, ProtocolType, Pubkey, TransferData};

fn key(n: u8) -> Pubkey {
    Pubkey::new_from_array([n; 32])
}

fn transfer(n: u8, amount: u64) -> TransferData {
    TransferData { source: key(n), destination: key(n + 1), amount, mint: Some(key(n + 2)) }
}

#[test]
fn event_parameters_creation_and_usage() {
    let params = EventParameters::new(
        "test_id".to_owned(),
        "test_signature".to_owned(),
        12345,
        1_640_995_200,
        1_640_995_200_000,
        1_640_995_200_500,
        "0".to_owned(),
    );
    assert_eq!(params.id, "test_id");
    assert_eq!(params.signature, "test_signature");
    assert_eq!(params.slot, 12345);
    assert_eq!(params.block_time, 1_640_995_200);
    assert_eq!(params.block_time_ms, 1_640_995_200_000);
    assert_eq!(params.program_received_time_ms, 1_640_995_200_500);
    assert_eq!(params.index, "0");

    let deposit_data = MarginFiDepositData::default();
    let event = MarginFiDepositEvent::new(params, deposit_data);
    assert_eq!(event.metadata.id, "test_id");
    assert_eq!(event.metadata.signature, "test_signature");
    assert_eq!(event.metadata.slot, 12345);
}

#[test]
fn event_parameters_default() {
    let params = EventParameters::default();
    assert_eq!(params.id, "");
    assert_eq!(params.signature, "");
    assert_eq!(params.slot, 0);
    assert_eq!(params.block_time, 0);
    assert_eq!(params.block_time_ms, 0);
    assert_eq!(params.program_received_time_ms, 0);
    assert_eq!(params.index, "");
}

#[test]
fn marginfi_deposit_event_with_transfer_data() {
    let params = EventParameters::default();
    let deposit_data = MarginFiDepositData::default();
    let transfer_data = vec![transfer(1, 500_000), transfer(4, 250_000)];
    let event = MarginFiDepositEvent::new(params, deposit_data).with_transfer_data(transfer_data);
    assert_eq!(event.transfer_data.len(), 2);
    let first_transfer = event.transfer_data.first().expect("Transfer data should exist");
    let second_transfer = event.transfer_data.get(1).expect("Second transfer should exist");
    assert_eq!(first_transfer.amount, 500_000);
    assert_eq!(second_transfer.amount, 250_000);
}

#[test]
fn marginfi_withdraw_event_creation() {
    let params = EventParameters::new(
        "withdraw_test".to_owned(),
        "sig456".to_owned(),
        200,
        1_640_995_300,
        1_640_995_300_000,
        1_640_995_300_200,
        "2".to_owned(),
    );
    let withdraw_data = MarginFiWithdrawData {
        marginfi_group: key(1),
        marginfi_account: key(2),
        signer: key(3),
        bank: key(4),
        token_account: key(5),
        bank_liquidity_vault: key(6),
        bank_liquidity_vault_authority: key(7),
        token_program: key(8),
        amount: 2_000_000,
        withdraw_all: true,
    };
    let event = MarginFiWithdrawEvent::new(params, withdraw_data);
    assert_eq!(event.metadata.id, "withdraw_test");
    assert_eq!(event.metadata.signature, "sig456");
    assert_eq!(event.metadata.slot, 200);
    assert_eq!(event.withdraw_data.amount, 2_000_000);
    assert!(event.withdraw_data.withdraw_all);
    assert!(event.transfer_data.is_empty());
}

#[test]
fn marginfi_withdraw_event_with_transfer_data() {
    let params = EventParameters::default();
    let withdraw_data = MarginFiWithdrawData::default();
    let transfer_data = vec![transfer(1, 750_000)];
    let event = MarginFiWithdrawEvent::new(params, withdraw_data).with_transfer_data(transfer_data);
    assert_eq!(event.transfer_data.len(), 1);
    let first_transfer = event.transfer_data.first().expect("Transfer data should exist");
    assert_eq!(first_transfer.amount, 750_000);
}

#[test]
fn marginfi_borrow_event_creation() {
    let params = EventParameters::new(
        "borrow_test".to_owned(),
        "sig789".to_owned(),
        300,
        1_640_995_400,
        1_640_995_400_000,
        1_640_995_400_300,
        "3".to_owned(),
    );
    let borrow_data = MarginFiBorrowData {
        marginfi_group: key(1),
        marginfi_account: key(2),
        signer: key(3),
        bank: key(4),
        token_account: key(5),
        bank_liquidity_vault: key(6),
        bank_liquidity_vault_authority: key(7),
        token_program: key(8),
        amount: 3_000_000,
    };
    let event = MarginFiBorrowEvent::new(params, borrow_data);
    assert_eq!(event.metadata.id, "borrow_test");
    assert_eq!(event.metadata.signature, "sig789");
    assert_eq!(event.metadata.slot, 300);
    assert_eq!(event.borrow_data.amount, 3_000_000);
    assert!(event.transfer_data.is_empty());
}

#[test]
fn marginfi_borrow_event_with_transfer_data() {
    let params = EventParameters::default();
    let borrow_data = MarginFiBorrowData::default();
    let transfer_data = vec![transfer(1, 1_500_000)];
    let event = MarginFiBorrowEvent::new(params, borrow_data).with_transfer_data(transfer_data);
    assert_eq!(event.transfer_data.len(), 1);
    let first_transfer = event.transfer_data.first().expect("Transfer data should exist");
    assert_eq!(first_transfer.amount, 1_500_000);
}

#[test]
fn marginfi_repay_event_creation() {
    let params = EventParameters::new(
        "repay_test".to_owned(),
        "sig101112".to_owned(),
        400,
        1_640_995_500,
        1_640_995_500_000,
        1_640_995_500_400,
        "4".to_owned(),
    );
    let repay_data = MarginFiRepayData {
        marginfi_group: key(1),
        marginfi_account: key(2),
        signer: key(3),
        bank: key(4),
        token_account: key(5),
        bank_liquidity_vault: key(6),
        token_program: key(7),
        amount: 4_000_000,
        repay_all: false,
    };
    let event = MarginFiRepayEvent::new(params, repay_data);
    assert_eq!(event.metadata.id, "repay_test");
    assert_eq!(event.metadata.signature, "sig101112");
    assert_eq!(event.metadata.slot, 400);
    assert_eq!(event.repay_data.amount, 4_000_000);
    assert!(!event.repay_data.repay_all);
    assert!(event.transfer_data.is_empty());
}

#[test]
fn marginfi_repay_event_with_transfer_data() {
    let params = EventParameters::default();
    let repay_data = MarginFiRepayData::default();
    let transfer_data = vec![transfer(1, 2_250_000)];
    let event = MarginFiRepayEvent::new(params, repay_data).with_transfer_data(transfer_data);
    assert_eq!(event.transfer_data.len(), 1);
    let first_transfer = event.transfer_data.first().expect("Transfer data should exist");
    assert_eq!(first_transfer.amount, 2_250_000);
}

#[test]
fn marginfi_liquidation_event_creation() {
    let params = EventParameters::new(
        "liquidation_test".to_owned(),
        "sig131415".to_owned(),
        500,
        1_640_995_600,
        1_640_995_600_000,
        1_640_995_600_500,
        "5".to_owned(),
    );
    let liquidation_data = MarginFiLiquidationData {
        marginfi_group: key(1),
        asset_bank: key(2),
        liab_bank: key(3),
        liquidatee_marginfi_account: key(4),
        liquidator_marginfi_account: key(5),
        liquidator: key(6),
        asset_bank_liquidity_vault: key(7),
        liab_bank_liquidity_vault: key(8),
        liquidator_token_account: key(9),
        token_program: key(10),
        asset_amount: 5_000_000,
        liab_amount: 4_500_000,
    };
    let event = MarginFiLiquidationEvent::new(params, liquidation_data);
    assert_eq!(event.metadata.id, "liquidation_test");
    assert_eq!(event.metadata.signature, "sig131415");
    assert_eq!(event.metadata.slot, 500);
    assert_eq!(event.liquidation_data.asset_amount, 5_000_000);
    assert_eq!(event.liquidation_data.liab_amount, 4_500_000);
    assert!(event.transfer_data.is_empty());
}

#[test]
fn marginfi_liquidation_event_with_transfer_data() {
    let params = EventParameters::default();
    let liquidation_data = MarginFiLiquidationData::default();
    let transfer_data = vec![transfer(1, 3_000_000), transfer(4, 2_700_000)];
    let event =
        MarginFiLiquidationEvent::new(params, liquidation_data).with_transfer_data(transfer_data);
    assert_eq!(event.transfer_data.len(), 2);
    let first_transfer = event.transfer_data.first().expect("Transfer data should exist");
    let second_transfer = event.transfer_data.get(1).expect("Second transfer should exist");
    assert_eq!(first_transfer.amount, 3_000_000);
    assert_eq!(second_transfer.amount, 2_700_000);
}

#[test]
fn complex_data_structures() {
    let bank_config = MarginFiBankConfig {
        bank: key(1),
        mint: key(2),
        vault: key(3),
        oracle: key(4),
        bank_authority: key(5),
        collected_insurance_fees_outstanding: 1000,
        fee_rate: 100,
        insurance_fee_rate: 50,
        insurance_vault: key(6),
        deposit_limit: 1_000_000_000,
        borrow_limit: 800_000_000,
        operational_state: 1,
        oracle_setup: 2,
        oracle_keys: [key(7); 5],
    };
    assert_eq!(bank_config.fee_rate, 100);
    assert_eq!(bank_config.oracle_keys.len(), 5);

    let balance = MarginFiBalance {
        active: true,
        bank_pk: key(8),
        asset_shares: 1_000_000,
        liability_shares: 500_000,
        emissions_outstanding: 100,
        last_update: 1_640_995_200,
        padding: [0; 1],
    };
    assert!(balance.active);
    assert_eq!(balance.asset_shares, 1_000_000);
    assert_eq!(balance.liability_shares, 500_000);
}

#[test]
fn empty_transfer_data_operations() {
    let params = EventParameters::default();
    let deposit_data = MarginFiDepositData::default();
    let event = MarginFiDepositEvent::new(params, deposit_data).with_transfer_data(vec![]);
    assert!(event.transfer_data.is_empty());

    let transfer1 = vec![transfer(1, 100)];
    let transfer2 = vec![transfer(4, 200)];
    let params2 = EventParameters::default();
    let deposit_data2 = MarginFiDepositData::default();
    let event = MarginFiDepositEvent::new(params2, deposit_data2)
        .with_transfer_data(transfer1)
        .with_transfer_data(transfer2);
    assert_eq!(event.transfer_data.len(), 1);
    let first_transfer = event.transfer_data.first().expect("Transfer data should exist");
    assert_eq!(first_transfer.amount, 200);
}

#[test]
fn marginfi_event_constructors_keep_the_parameters() {
    let params = EventParameters::new(
        "deposit_test".to_owned(),
        "sig123".to_owned(),
        100,
        1_640_995_200,
        1_640_995_200_000,
        1_640_995_200_100,
        "1".to_owned(),
    );
    let event = MarginFiDepositEvent::new(params, MarginFiDepositData::default());
    assert_eq!(event.metadata.id, "deposit_test");
    assert_eq!(event.metadata.block_time, Some(1_640_995_200));
    assert_eq!(event.metadata.received_time_ms, 0);
    assert_eq!(event.metadata.index, "1");
    assert_eq!(event.metadata.event_type, EventType::Deposit);
    assert_eq!(event.metadata.protocol_type, ProtocolType::MarginFi);
    assert_eq!(event.deposit_data.amount, 0);
    assert_eq!(event.deposit_data.bank, Pubkey::default());
}

#[test]
fn marginfi_data_defaults_are_empty() {
    let deposit = MarginFiDepositData::default();
    assert_eq!(deposit.amount, 0);
    assert_eq!(deposit.bank, Pubkey::default());
    let withdraw = MarginFiWithdrawData::default();
    assert!(!withdraw.withdraw_all);
    assert_eq!(withdraw.amount, 0);
    let borrow = MarginFiBorrowData::default();
    assert_eq!(borrow.amount, 0);
    let repay = MarginFiRepayData::default();
    assert!(!repay.repay_all);
    let liquidation = MarginFiLiquidationData::default();
    assert_eq!(liquidation.asset_amount, 0);
    assert_eq!(liquidation.liab_amount, 0);
    assert_eq!(liquidation.liquidator, Pubkey::default());
}

#[test]
fn marginfi_deposit_event_creation() {
    let params = EventParameters::new(
        "deposit_test".to_owned(),
        "sig123".to_owned(),
        100,
        1_640_995_200,
        1_640_995_200_000,
        1_640_995_200_100,
        "1".to_owned(),
    );
    let deposit_data = MarginFiDepositData {
        marginfi_group: key(1),
        marginfi_account: key(2),
        signer: key(3),
        bank: key(4),
        token_account: key(5),
        bank_liquidity_vault: key(6),
        token_program: key(7),
        amount: 1_000_000,
    };
    let event = MarginFiDepositEvent::new(params, deposit_data);
    assert_eq!(event.metadata.id, "deposit_test");
    assert_eq!(event.metadata.signature, "sig123");
    assert_eq!(event.metadata.slot, 100);
    assert_eq!(event.deposit_data.amount, 1_000_000);
    assert!(event.transfer_data.is_empty());
    assert_eq!(event.metadata.received_time_ms, 0);
}
