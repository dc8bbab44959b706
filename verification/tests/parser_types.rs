use riglr_solana_events::parser_types::GenericEventParser;
use riglr_solana_events::protocols::bonk::discriminators::{POOL_CREATE_EVENT, TRADE_EVENT};
use riglr_solana_events::protocols::bonk::{bonk_program_id, BonkDecoder, EventParser};
use riglr_solana_events::types::Pubkey;

#[test]
fn generic_parser_groups_bonk_entries_by_log_name() {
    let configs = EventParser::new().configs();
    let parser = GenericEventParser::new(vec![bonk_program_id()], configs);
    let inner = parser.inner_instruction_configs();
    assert_eq!(inner.len(), 2);
    assert_eq!(inner[0].0, TRADE_EVENT);
    assert_eq!(inner[0].1.len(), 4);
    assert_eq!(inner[0].1[0].decoder, BonkDecoder::BuyExactIn);
    assert_eq!(inner[0].1[3].decoder, BonkDecoder::SellExactOut);
    assert_eq!(inner[1].0, POOL_CREATE_EVENT);
    assert_eq!(inner[1].1.len(), 3);
    assert_eq!(inner[1].1[2].decoder, BonkDecoder::MigrateToCpswap);
}

#[test]
fn generic_parser_keeps_one_group_per_instruction_discriminator() {
    let configs = EventParser::new().configs();
    let parser = GenericEventParser::new(vec![bonk_program_id()], configs.clone());
    let table = parser.instruction_configs();
    assert_eq!(table.len(), 7);
    for (i, (key, group)) in table.iter().enumerate() {
        assert_eq!(*key, configs[i].instruction_discriminator);
        assert_eq!(group.len(), 1);
        assert_eq!(group[0].decoder, configs[i].decoder);
    }
}

#[test]
fn generic_parser_puts_repeated_keys_in_one_group_in_order() {
    let configs = EventParser::new().configs();
    let mut first = configs[0].clone();
    first.instruction_discriminator = vec![1, 2, 3];
    let mut second = configs[4].clone();
    second.instruction_discriminator = vec![9];
    let mut third = configs[1].clone();
    third.instruction_discriminator = vec![1, 2, 3];
    let parser = GenericEventParser::new(vec![], vec![first, second, third]);
    let table = parser.instruction_configs();
    assert_eq!(table.len(), 2);
    assert_eq!(table[0].0, vec![1, 2, 3]);
    assert_eq!(table[0].1.len(), 2);
    assert_eq!(table[0].1[0].decoder, BonkDecoder::BuyExactIn);
    assert_eq!(table[0].1[1].decoder, BonkDecoder::BuyExactOut);
    assert_eq!(table[1].0, vec![9]);
    let inner = parser.inner_instruction_configs();
    assert_eq!(inner.len(), 2);
    assert_eq!(inner[0].0, TRADE_EVENT);
    assert_eq!(inner[0].1.len(), 2);
    assert_eq!(inner[1].0, POOL_CREATE_EVENT);
}

#[test]
fn generic_parser_handles_its_program_ids_only() {
    let parser = GenericEventParser::<BonkDecoder>::new(vec![bonk_program_id()], vec![]);
    assert!(parser.should_handle(&bonk_program_id()));
    assert!(!parser.should_handle(&Pubkey::new_from_array([7; 32])));
    assert_eq!(parser.supported_program_ids(), vec![bonk_program_id()]);
    assert!(parser.inner_instruction_configs().is_empty());
    assert!(parser.instruction_configs().is_empty());
}
