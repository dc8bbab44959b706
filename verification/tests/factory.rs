use std::collections::HashMap;

use riglr_solana_events::factory::Protocol;
use riglr_solana_events::types::{EventType, ProtocolType};

#[test]
fn module_types_accessible() {
    let protocol = ProtocolType::OrcaWhirlpool;
    assert_eq!(protocol, ProtocolType::OrcaWhirlpool);
    let event = EventType::Swap;
    assert_eq!(event, EventType::Swap);
}

#[test]
fn types_reexport_protocol_type_variants() {
    let jupiter = ProtocolType::Jupiter;
    let orca = ProtocolType::OrcaWhirlpool;
    let raydium = ProtocolType::Raydium;
    let serum = ProtocolType::Serum;
    assert_eq!(jupiter, ProtocolType::Jupiter);
    assert_eq!(orca, ProtocolType::OrcaWhirlpool);
    assert_eq!(raydium, ProtocolType::Raydium);
    assert_eq!(serum, ProtocolType::Serum);
    assert_ne!(jupiter, orca);
    assert_ne!(orca, raydium);
    assert_ne!(raydium, serum);
}

#[test]
fn types_reexport_event_type_variants() {
    let swap = EventType::Swap;
    let transfer = EventType::Transfer;
    let liquidity_provision = EventType::LiquidityProvision;
    let liquidity_removal = EventType::LiquidityRemoval;
    assert_eq!(swap, EventType::Swap);
    assert_eq!(transfer, EventType::Transfer);
    assert_eq!(liquidity_provision, EventType::LiquidityProvision);
    assert_eq!(liquidity_removal, EventType::LiquidityRemoval);
    assert_ne!(swap, transfer);
    assert_ne!(transfer, liquidity_provision);
    assert_ne!(liquidity_provision, liquidity_removal);
}

#[test]
fn protocol_variants() {
    let protocols = vec![
        Protocol::OrcaWhirlpool,
        Protocol::MeteoraDlmm,
        Protocol::MarginFi,
        Protocol::Jupiter,
        Protocol::RaydiumAmmV4,
        Protocol::RaydiumClmm,
        Protocol::RaydiumCpmm,
        Protocol::PumpFun,
        Protocol::PumpSwap,
        Protocol::Bonk,
        Protocol::Custom("TestProtocol".to_owned()),
    ];
    for protocol in protocols {
        assert!(matches!(
            protocol,
            Protocol::OrcaWhirlpool
                | Protocol::MeteoraDlmm
                | Protocol::MarginFi
                | Protocol::Jupiter
                | Protocol::RaydiumAmmV4
                | Protocol::RaydiumClmm
                | Protocol::RaydiumCpmm
                | Protocol::PumpFun
                | Protocol::PumpSwap
                | Protocol::Bonk
                | Protocol::Custom(_)
        ));
    }
}

#[test]
fn protocol_equality() {
    assert_eq!(Protocol::OrcaWhirlpool, Protocol::OrcaWhirlpool);
    assert_eq!(Protocol::Custom("test".to_owned()), Protocol::Custom("test".to_owned()));
    assert_ne!(Protocol::OrcaWhirlpool, Protocol::MeteoraDlmm);
    assert_ne!(Protocol::Custom("test1".to_owned()), Protocol::Custom("test2".to_owned()));
}

#[test]
fn protocol_clone() {
    let protocol = Protocol::Custom("test".to_owned());
    let cloned = protocol.clone();
    assert_eq!(protocol, cloned);
}

#[test]
fn protocol_hash() {
    let mut map = HashMap::new();
    map.insert(Protocol::OrcaWhirlpool, "orca");
    map.insert(Protocol::Custom("test".to_owned()), "custom");
    assert_eq!(map.get(&Protocol::OrcaWhirlpool), Some(&"orca"));
    assert_eq!(map.get(&Protocol::Custom("test".to_owned())), Some(&"custom"));
}

#[test]
fn protocol_from_protocol_type_orca_whirlpool() {
    let protocol = Protocol::from(ProtocolType::OrcaWhirlpool);
    assert_eq!(protocol, Protocol::OrcaWhirlpool);
}

#[test]
fn protocol_from_protocol_type_meteora_dlmm() {
    let protocol = Protocol::from(ProtocolType::MeteoraDlmm);
    assert_eq!(protocol, Protocol::MeteoraDlmm);
}

#[test]
fn protocol_from_protocol_type_margin_fi() {
    let protocol = Protocol::from(ProtocolType::MarginFi);
    assert_eq!(protocol, Protocol::MarginFi);
}

#[test]
fn protocol_from_protocol_type_bonk() {
    let protocol = Protocol::from(ProtocolType::Bonk);
    assert_eq!(protocol, Protocol::Bonk);
}

#[test]
fn protocol_from_protocol_type_pump_swap() {
    let protocol = Protocol::from(ProtocolType::PumpSwap);
    assert_eq!(protocol, Protocol::PumpSwap);
}

#[test]
fn protocol_from_protocol_type_raydium_amm() {
    let protocol = Protocol::from(ProtocolType::RaydiumAmm);
    assert_eq!(protocol, Protocol::RaydiumAmmV4);
}

#[test]
fn protocol_from_protocol_type_raydium_amm_v4() {
    let protocol = Protocol::from(ProtocolType::RaydiumAmmV4);
    assert_eq!(protocol, Protocol::RaydiumAmmV4);
}

#[test]
fn protocol_from_protocol_type_raydium_clmm() {
    let protocol = Protocol::from(ProtocolType::RaydiumClmm);
    assert_eq!(protocol, Protocol::RaydiumClmm);
}

#[test]
fn protocol_from_protocol_type_raydium_cpmm() {
    let protocol = Protocol::from(ProtocolType::RaydiumCpmm);
    assert_eq!(protocol, Protocol::RaydiumCpmm);
}

#[test]
fn protocol_from_protocol_type_jupiter() {
    let protocol = Protocol::from(ProtocolType::Jupiter);
    assert_eq!(protocol, Protocol::Jupiter);
}

#[test]
fn protocol_from_protocol_type_other_jupiter() {
    let protocol = Protocol::from(ProtocolType::Other("Jupiter".to_owned()));
    assert_eq!(protocol, Protocol::Jupiter);
}

#[test]
fn protocol_from_protocol_type_other_raydium_amm_v4() {
    let protocol = Protocol::from(ProtocolType::Other("RaydiumAmmV4".to_owned()));
    assert_eq!(protocol, Protocol::RaydiumAmmV4);
}

#[test]
fn protocol_from_protocol_type_other_raydium_clmm() {
    let protocol = Protocol::from(ProtocolType::Other("RaydiumClmm".to_owned()));
    assert_eq!(protocol, Protocol::RaydiumClmm);
}

#[test]
fn protocol_from_protocol_type_other_raydium_cpmm() {
    let protocol = Protocol::from(ProtocolType::Other("RaydiumCpmm".to_owned()));
    assert_eq!(protocol, Protocol::RaydiumCpmm);
}

#[test]
fn protocol_from_protocol_type_other_pump_fun() {
    let protocol = Protocol::from(ProtocolType::Other("PumpFun".to_owned()));
    assert_eq!(protocol, Protocol::PumpFun);
}

#[test]
fn protocol_from_protocol_type_other_bonk() {
    let protocol = Protocol::from(ProtocolType::Other("Bonk".to_owned()));
    assert_eq!(protocol, Protocol::Bonk);
}

#[test]
fn protocol_from_protocol_type_other_custom() {
    let protocol = Protocol::from(ProtocolType::Other("CustomProtocol".to_owned()));
    assert_eq!(protocol, Protocol::Custom("CustomProtocol".to_owned()));
}

#[test]
fn protocol_type_from_protocol_orca_whirlpool() {
    let protocol_type = ProtocolType::from(Protocol::OrcaWhirlpool);
    assert_eq!(protocol_type, ProtocolType::OrcaWhirlpool);
}

#[test]
fn protocol_type_from_protocol_meteora_dlmm() {
    let protocol_type = ProtocolType::from(Protocol::MeteoraDlmm);
    assert_eq!(protocol_type, ProtocolType::MeteoraDlmm);
}

#[test]
fn protocol_type_from_protocol_margin_fi() {
    let protocol_type = ProtocolType::from(Protocol::MarginFi);
    assert_eq!(protocol_type, ProtocolType::MarginFi);
}

#[test]
fn protocol_type_from_protocol_jupiter() {
    let protocol_type = ProtocolType::from(Protocol::Jupiter);
    assert_eq!(protocol_type, ProtocolType::Jupiter);
}

#[test]
fn protocol_type_from_protocol_raydium_amm_v4() {
    let protocol_type = ProtocolType::from(Protocol::RaydiumAmmV4);
    assert_eq!(protocol_type, ProtocolType::RaydiumAmmV4);
}

#[test]
fn protocol_type_from_protocol_raydium_clmm() {
    let protocol_type = ProtocolType::from(Protocol::RaydiumClmm);
    assert_eq!(protocol_type, ProtocolType::RaydiumClmm);
}

#[test]
fn protocol_type_from_protocol_raydium_cpmm() {
    let protocol_type = ProtocolType::from(Protocol::RaydiumCpmm);
    assert_eq!(protocol_type, ProtocolType::RaydiumCpmm);
}

#[test]
fn protocol_type_from_protocol_pump_fun() {
    let protocol_type = ProtocolType::from(Protocol::PumpFun);
    assert_eq!(protocol_type, ProtocolType::Other("PumpFun".to_owned()));
}

#[test]
fn protocol_type_from_protocol_pump_swap() {
    let protocol_type = ProtocolType::from(Protocol::PumpSwap);
    assert_eq!(protocol_type, ProtocolType::PumpSwap);
}

#[test]
fn protocol_type_from_protocol_bonk() {
    let protocol_type = ProtocolType::from(Protocol::Bonk);
    assert_eq!(protocol_type, ProtocolType::Bonk);
}

#[test]
fn protocol_type_from_protocol_custom() {
    let protocol_type = ProtocolType::from(Protocol::Custom("CustomProtocol".to_owned()));
    assert_eq!(protocol_type, ProtocolType::Other("CustomProtocol".to_owned()));
}

#[test]
fn protocol_from_serum_is_custom() {
    let protocol = Protocol::from(ProtocolType::Serum);
    assert_eq!(protocol, Protocol::Custom("Serum".to_owned()));
}

#[test]
fn protocol_from_general_raydium_is_amm_v4() {
    assert_eq!(Protocol::from(ProtocolType::Raydium), Protocol::RaydiumAmmV4);
}

#[test]
fn protocol_round_trip_on_values() {
    for p in [Protocol::PumpFun, Protocol::Bonk, Protocol::Custom("Serum".to_owned())] {
        let back = Protocol::from(ProtocolType::from(p.clone()));
        assert_eq!(back, p);
    }
    let reserved = Protocol::Custom("Jupiter".to_owned());
    assert_eq!(
        Protocol::from(ProtocolType::from(reserved)),
        Protocol::Jupiter
    );
}

#[test]
fn protocol_debug() {
    let protocol = Protocol::Jupiter;
    let debug_str = format!("{protocol:?}");
    assert!(debug_str.contains("Jupiter"));
}

#[test]
fn protocol_custom_debug() {
    let protocol = Protocol::Custom("TestProtocol".to_owned());
    let debug_str = format!("{protocol:?}");
    assert!(debug_str.contains("Custom"));
    assert!(debug_str.contains("TestProtocol"));
}

#[test]
fn from_conversions_agree_with_the_named_conversions() {
    for t in [ProtocolType::Serum, ProtocolType::Other("Bonk".to_owned()), ProtocolType::Raydium] {
        assert_eq!(Protocol::from(t.clone()), Protocol::from_protocol_type(t));
    }
    for p in [Protocol::PumpFun, Protocol::Custom("X".to_owned()), Protocol::RaydiumCpmm] {
        assert_eq!(ProtocolType::from(p.clone()), ProtocolType::from_protocol(p));
    }
}
