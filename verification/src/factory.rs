use vstd::prelude::*;
use vstd::string::*;

use crate::error::ParseResult;
use crate::text::concat3;
use crate::types::{metadata_is, EventMetadata, EventType, ProtocolType, ProtocolTypeView, Pubkey};

verus! {

/// The protocols that a parser can be registered for.
#[derive(Debug, Clone, PartialEq, Eq, Hash)]
pub enum Protocol {
    Bonk,
    Custom(String),
    Jupiter,
    MarginFi,
    MeteoraDlmm,
    OrcaWhirlpool,
    PumpFun,
    PumpSwap,
    RaydiumAmmV4,
    RaydiumClmm,
    RaydiumCpmm,
}

/// The mathematical form of a `Protocol`: the name of `Custom` as text.
pub enum ProtocolView {
    Bonk,
    Custom(Seq<char>),
    Jupiter,
    MarginFi,
    MeteoraDlmm,
    OrcaWhirlpool,
    PumpFun,
    PumpSwap,
    RaydiumAmmV4,
    RaydiumClmm,
    RaydiumCpmm,
}

impl View for Protocol {
    type V = ProtocolView;

    open spec fn view(&self) -> ProtocolView {
        match self {
            Protocol::Bonk => ProtocolView::Bonk,
            Protocol::Custom(name) => ProtocolView::Custom(name@),
            Protocol::Jupiter => ProtocolView::Jupiter,
            Protocol::MarginFi => ProtocolView::MarginFi,
            Protocol::MeteoraDlmm => ProtocolView::MeteoraDlmm,
            Protocol::OrcaWhirlpool => ProtocolView::OrcaWhirlpool,
            Protocol::PumpFun => ProtocolView::PumpFun,
            Protocol::PumpSwap => ProtocolView::PumpSwap,
            Protocol::RaydiumAmmV4 => ProtocolView::RaydiumAmmV4,
            Protocol::RaydiumClmm => ProtocolView::RaydiumClmm,
            Protocol::RaydiumCpmm => ProtocolView::RaydiumCpmm,
        }
    }
}

/// The protocol that a named `Other` protocol type stands for.
pub open spec fn protocol_of_name(name: Seq<char>) -> ProtocolView {
    if name == "Jupiter"@ {
        ProtocolView::Jupiter
    } else if name == "RaydiumAmmV4"@ {
        ProtocolView::RaydiumAmmV4
    } else if name == "RaydiumClmm"@ {
        ProtocolView::RaydiumClmm
    } else if name == "RaydiumCpmm"@ {
        ProtocolView::RaydiumCpmm
    } else if name == "PumpFun"@ {
        ProtocolView::PumpFun
    } else if name == "Bonk"@ {
        ProtocolView::Bonk
    } else {
        ProtocolView::Custom(name)
    }
}

/// The protocol a protocol type maps to: every Raydium AMM flavour is AMM V4, Serum is a
/// custom protocol, and a named `Other` is recognised by its name.
pub open spec fn protocol_of_type(t: ProtocolTypeView) -> ProtocolView {
    match t {
        ProtocolTypeView::OrcaWhirlpool => ProtocolView::OrcaWhirlpool,
        ProtocolTypeView::MeteoraDlmm => ProtocolView::MeteoraDlmm,
        ProtocolTypeView::MarginFi => ProtocolView::MarginFi,
        ProtocolTypeView::Bonk => ProtocolView::Bonk,
        ProtocolTypeView::PumpSwap => ProtocolView::PumpSwap,
        ProtocolTypeView::RaydiumAmm => ProtocolView::RaydiumAmmV4,
        ProtocolTypeView::RaydiumAmmV4 => ProtocolView::RaydiumAmmV4,
        ProtocolTypeView::Raydium => ProtocolView::RaydiumAmmV4,
        ProtocolTypeView::RaydiumClmm => ProtocolView::RaydiumClmm,
        ProtocolTypeView::RaydiumCpmm => ProtocolView::RaydiumCpmm,
        ProtocolTypeView::Jupiter => ProtocolView::Jupiter,
        ProtocolTypeView::Serum => ProtocolView::Custom("Serum"@),
        ProtocolTypeView::Other(name) => protocol_of_name(name),
    }
}

/// The protocol type a protocol maps to: PumpFun and custom protocols become `Other`.
pub open spec fn type_of_protocol(p: ProtocolView) -> ProtocolTypeView {
    match p {
        ProtocolView::OrcaWhirlpool => ProtocolTypeView::OrcaWhirlpool,
        ProtocolView::MeteoraDlmm => ProtocolTypeView::MeteoraDlmm,
        ProtocolView::MarginFi => ProtocolTypeView::MarginFi,
        ProtocolView::Jupiter => ProtocolTypeView::Jupiter,
        ProtocolView::RaydiumAmmV4 => ProtocolTypeView::RaydiumAmmV4,
        ProtocolView::RaydiumClmm => ProtocolTypeView::RaydiumClmm,
        ProtocolView::RaydiumCpmm => ProtocolTypeView::RaydiumCpmm,
        ProtocolView::PumpFun => ProtocolTypeView::Other("PumpFun"@),
        ProtocolView::PumpSwap => ProtocolTypeView::PumpSwap,
        ProtocolView::Bonk => ProtocolTypeView::Bonk,
        ProtocolView::Custom(name) => ProtocolTypeView::Other(name),
    }
}

fn same_text(s: &String, lit: &str) -> (r: bool)
    ensures
        r == (s@ == lit@),
{
    let t = String::from_str(lit);
    *s == t
}

impl Protocol {
    /// The protocol that a protocol type stands for.
    pub fn from_protocol_type(protocol_type: ProtocolType) -> (r: Protocol)
        ensures
            r@ == protocol_of_type(protocol_type@),
    {
        proof {
            reveal_strlit("Serum");
            reveal_strlit("Jupiter");
            reveal_strlit("RaydiumAmmV4");
            reveal_strlit("RaydiumClmm");
            reveal_strlit("RaydiumCpmm");
            reveal_strlit("PumpFun");
            reveal_strlit("Bonk");
        }
        match protocol_type {
            ProtocolType::OrcaWhirlpool => Protocol::OrcaWhirlpool,
            ProtocolType::MeteoraDlmm => Protocol::MeteoraDlmm,
            ProtocolType::MarginFi => Protocol::MarginFi,
            ProtocolType::Bonk => Protocol::Bonk,
            ProtocolType::PumpSwap => Protocol::PumpSwap,
            ProtocolType::RaydiumAmm | ProtocolType::RaydiumAmmV4 | ProtocolType::Raydium => {
                Protocol::RaydiumAmmV4
            },
            ProtocolType::RaydiumClmm => Protocol::RaydiumClmm,
            ProtocolType::RaydiumCpmm => Protocol::RaydiumCpmm,
            ProtocolType::Jupiter => Protocol::Jupiter,
            ProtocolType::Serum => Protocol::Custom(String::from_str("Serum")),
            ProtocolType::Other(name) => {
                if same_text(&name, "Jupiter") {
                    Protocol::Jupiter
                } else if same_text(&name, "RaydiumAmmV4") {
                    Protocol::RaydiumAmmV4
                } else if same_text(&name, "RaydiumClmm") {
                    Protocol::RaydiumClmm
                } else if same_text(&name, "RaydiumCpmm") {
                    Protocol::RaydiumCpmm
                } else if same_text(&name, "PumpFun") {
                    Protocol::PumpFun
                } else if same_text(&name, "Bonk") {
                    Protocol::Bonk
                } else {
                    Protocol::Custom(name)
                }
            },
        }
    }
}

impl ProtocolType {
    /// The protocol type that a protocol stands for.
    pub fn from_protocol(protocol: Protocol) -> (r: ProtocolType)
        ensures
            r@ == type_of_protocol(protocol@),
    {
        proof {
            reveal_strlit("PumpFun");
        }
        match protocol {
            Protocol::OrcaWhirlpool => ProtocolType::OrcaWhirlpool,
            Protocol::MeteoraDlmm => ProtocolType::MeteoraDlmm,
            Protocol::MarginFi => ProtocolType::MarginFi,
            Protocol::Jupiter => ProtocolType::Jupiter,
            Protocol::RaydiumAmmV4 => ProtocolType::RaydiumAmmV4,
            Protocol::RaydiumClmm => ProtocolType::RaydiumClmm,
            Protocol::RaydiumCpmm => ProtocolType::RaydiumCpmm,
            Protocol::PumpFun => ProtocolType::Other(String::from_str("PumpFun")),
            Protocol::PumpSwap => ProtocolType::PumpSwap,
            Protocol::Bonk => ProtocolType::Bonk,
            Protocol::Custom(name) => ProtocolType::Other(name),
        }
    }
}

impl From<ProtocolType> for Protocol {
    /// The protocol that a protocol type stands for, as `from_protocol_type` gives it.
    fn from(protocol_type: ProtocolType) -> (r: Protocol)
        ensures
            r@ == protocol_of_type(protocol_type@),
    {
        Protocol::from_protocol_type(protocol_type)
    }
}

/// The conversion is stated over views, in `from` itself: two strings of the same text are not
/// known to be the same value, so no value-level conversion is claimed here.
impl vstd::std_specs::convert::FromSpecImpl<ProtocolType> for Protocol {
    open spec fn obeys_from_spec() -> bool {
        false
    }

    open spec fn from_spec(v: ProtocolType) -> Protocol {
        choose|p: Protocol| p@ == protocol_of_type(v@)
    }
}

impl From<Protocol> for ProtocolType {
    /// The protocol type that a protocol stands for, as `from_protocol` gives it.
    fn from(protocol: Protocol) -> (r: ProtocolType)
        ensures
            r@ == type_of_protocol(protocol@),
    {
        ProtocolType::from_protocol(protocol)
    }
}

/// The conversion is stated over views, in `from` itself: two strings of the same text are not
/// known to be the same value, so no value-level conversion is claimed here.
impl vstd::std_specs::convert::FromSpecImpl<Protocol> for ProtocolType {
    open spec fn obeys_from_spec() -> bool {
        false
    }

    open spec fn from_spec(v: Protocol) -> ProtocolType {
        choose|t: ProtocolType| t@ == type_of_protocol(v@)
    }
}

/// Whether a custom protocol name is one that a protocol type of that name maps to a
/// built-in protocol.
pub open spec fn is_reserved_name(name: Seq<char>) -> bool {
    name == "Jupiter"@ || name == "RaydiumAmmV4"@ || name == "RaydiumClmm"@
        || name == "RaydiumCpmm"@ || name == "PumpFun"@ || name == "Bonk"@
}

proof fn lemma_names_distinct()
    ensures
        !is_reserved_name("Serum"@),
        "PumpFun"@ != "Jupiter"@,
        "PumpFun"@ != "RaydiumAmmV4"@,
        "PumpFun"@ != "RaydiumClmm"@,
        "PumpFun"@ != "RaydiumCpmm"@,
{
    reveal_strlit("PumpFun");
    reveal_strlit("Serum");
    reveal_strlit("Jupiter");
    reveal_strlit("RaydiumAmmV4");
    reveal_strlit("RaydiumClmm");
    reveal_strlit("RaydiumCpmm");
    reveal_strlit("Bonk");
    assert("PumpFun"@[0] != "Jupiter"@[0]);
    assert("PumpFun"@.len() != "RaydiumAmmV4"@.len());
    assert("PumpFun"@.len() != "RaydiumClmm"@.len());
    assert("PumpFun"@.len() != "RaydiumCpmm"@.len());
    assert("Serum"@.len() != "Jupiter"@.len());
    assert("Serum"@.len() != "RaydiumAmmV4"@.len());
    assert("Serum"@.len() != "RaydiumClmm"@.len());
    assert("Serum"@.len() != "RaydiumCpmm"@.len());
    assert("Serum"@.len() != "PumpFun"@.len());
    assert("Serum"@.len() != "Bonk"@.len());
}

/// Turning a protocol into a protocol type and back gives the protocol again, except for a
/// custom protocol that carries the name of a built-in one.
pub proof fn protocol_round_trip(p: ProtocolView)
    requires
        !(p matches ProtocolView::Custom(name) && is_reserved_name(name)),
    ensures
        protocol_of_type(type_of_protocol(p)) == p,
{
    reveal_strlit("PumpFun");
    reveal_strlit("Jupiter");
    reveal_strlit("RaydiumAmmV4");
    reveal_strlit("RaydiumClmm");
    reveal_strlit("RaydiumCpmm");
    reveal_strlit("Bonk");
    lemma_names_distinct();
}

/// Every protocol type maps to a protocol whose protocol type maps back to the same protocol.
pub proof fn protocol_type_round_trip(t: ProtocolTypeView)
    ensures
        protocol_of_type(type_of_protocol(protocol_of_type(t))) == protocol_of_type(t),
{
    reveal_strlit("PumpFun");
    reveal_strlit("Serum");
    reveal_strlit("Jupiter");
    reveal_strlit("RaydiumAmmV4");
    reveal_strlit("RaydiumClmm");
    reveal_strlit("RaydiumCpmm");
    reveal_strlit("Bonk");
    lemma_names_distinct();
}

/// What the owned form of an instruction carries to a parser.
#[derive(Debug, Clone)]
pub struct OwnedInstructionParseParams {
    pub accounts: Vec<Pubkey>,
    pub block_time: Option<i64>,
    pub index: String,
    pub instruction_data: Vec<u8>,
    pub program_received_time_ms: i64,
    pub signature: String,
    pub slot: u64,
}

/// What the owned form of an inner instruction carries to a parser; its data is base58 text.
#[derive(Debug, Clone)]
pub struct OwnedInnerInstructionParseParams {
    pub block_time: Option<i64>,
    pub index: String,
    pub inner_instruction_data: String,
    pub program_received_time_ms: i64,
    pub signature: String,
    pub slot: u64,
}

/// A compiled instruction of a transaction message: the index of its program among the
/// account keys, the indexes of its accounts, and its data.
#[derive(Debug, Clone)]
pub struct CompiledInstruction {
    pub accounts: Vec<u8>,
    pub data: Vec<u8>,
    pub program_id_index: u8,
}

/// An inner instruction as transaction metadata reports it: its data is base58 text.
#[derive(Debug, Clone)]
pub struct UiCompiledInstruction {
    pub accounts: Vec<u8>,
    pub data: String,
    pub program_id_index: u8,
    pub stack_height: Option<u32>,
}

/// What the registry is handed for an instruction: borrowed from the transaction.
#[derive(Debug)]
pub struct InstructionParseParams<'a> {
    pub accounts: &'a [Pubkey],
    pub block_time: Option<i64>,
    pub index: String,
    pub instruction: &'a CompiledInstruction,
    pub program_received_time_ms: i64,
    pub signature: &'a str,
    pub slot: u64,
}

/// What the registry is handed for an inner instruction: borrowed from the transaction.
#[derive(Debug)]
pub struct InnerInstructionParseParams<'a> {
    pub block_time: Option<i64>,
    pub index: String,
    pub inner_instruction: &'a UiCompiledInstruction,
    pub program_received_time_ms: i64,
    pub signature: &'a str,
    pub slot: u64,
}

/// One entry of a parser's tables, as plain values: the decoder that an instruction or its log
/// goes to, the key of each table, and the program, protocol and event type of the entry.
#[derive(Debug, Clone)]
pub struct EventParseConfig<D> {
    pub decoder: D,
    pub event_type: EventType,
    pub inner_instruction_discriminator: &'static str,
    pub instruction_discriminator: Vec<u8>,
    pub program_id: Pubkey,
    pub protocol_type: ProtocolType,
}

/// The mathematical form of a table entry: its parts as plain values.
pub struct ConfigView<D> {
    pub decoder: D,
    pub event_type: EventType,
    pub inner_key: Seq<char>,
    pub instruction_key: Seq<u8>,
    pub program_id: Seq<u8>,
    pub protocol_type: ProtocolTypeView,
}

impl<D> View for EventParseConfig<D> {
    type V = ConfigView<D>;

    open spec fn view(&self) -> ConfigView<D> {
        ConfigView {
            decoder: self.decoder,
            event_type: self.event_type,
            inner_key: self.inner_instruction_discriminator@,
            instruction_key: self.instruction_discriminator@,
            program_id: self.program_id@,
            protocol_type: self.protocol_type@,
        }
    }
}

/// Whether `c` is the table entry made of the given parts.
pub open spec fn config_is<D>(
    c: EventParseConfig<D>,
    decoder: D,
    event_type: EventType,
    inner_key: Seq<char>,
    instruction_key: Seq<u8>,
    program_id: Seq<u8>,
    protocol_type: ProtocolTypeView,
) -> bool {
    &&& c.decoder == decoder
    &&& c.event_type == event_type
    &&& c.inner_instruction_discriminator@ == inner_key
    &&& c.instruction_discriminator@ == instruction_key
    &&& c.program_id@ == program_id
    &&& c.protocol_type@ == protocol_type
}

impl<D> EventParseConfig<D> {
    /// The table entry made of the given parts.
    pub fn new(
        decoder: D,
        event_type: EventType,
        inner_instruction_discriminator: &'static str,
        instruction_discriminator: &[u8],
        program_id: Pubkey,
        protocol_type: ProtocolType,
    ) -> (c: EventParseConfig<D>)
        ensures
            config_is(
                c,
                decoder,
                event_type,
                inner_instruction_discriminator@,
                instruction_discriminator@,
                program_id@,
                protocol_type@,
            ),
    {
        let key = crate::borsh_records::copy_range(
            instruction_discriminator,
            0,
            instruction_discriminator.len(),
        );
        proof {
            assert(key@ =~= instruction_discriminator@);
        }
        EventParseConfig {
            decoder,
            event_type,
            inner_instruction_discriminator,
            instruction_discriminator: key,
            program_id,
            protocol_type,
        }
    }
}

/// The input of a protocol parser.
#[derive(Debug, Clone)]
pub enum SolanaTransactionInput {
    InnerInstruction(OwnedInnerInstructionParseParams),
    Instruction(OwnedInstructionParseParams),
}

/// The metadata that a table-driven parser hands an instruction's decoder: identified by the
/// signature and the instruction index, joined by an underscore.
pub fn instruction_metadata(
    p: &OwnedInstructionParseParams,
    event_type: EventType,
    protocol_type: ProtocolType,
) -> (m: EventMetadata)
    ensures
        metadata_is(
            m,
            p.signature@ + "_"@ + p.index@,
            p.signature@,
            p.slot,
            p.block_time,
            p.program_received_time_ms,
            p.index@,
            event_type,
            protocol_type@,
        ),
{
    EventMetadata {
        id: concat3(p.signature.as_str(), "_", p.index.as_str()),
        signature: p.signature.clone(),
        slot: p.slot,
        block_time: p.block_time,
        received_time_ms: p.program_received_time_ms,
        index: p.index.clone(),
        event_type,
        protocol_type,
    }
}

/// The metadata that a table-driven parser hands an inner instruction's decoder.
pub fn inner_metadata(
    p: &OwnedInnerInstructionParseParams,
    event_type: EventType,
    protocol_type: ProtocolType,
) -> (m: EventMetadata)
    ensures
        metadata_is(
            m,
            p.signature@ + "_"@ + p.index@,
            p.signature@,
            p.slot,
            p.block_time,
            p.program_received_time_ms,
            p.index@,
            event_type,
            protocol_type@,
        ),
{
    EventMetadata {
        id: concat3(p.signature.as_str(), "_", p.index.as_str()),
        signature: p.signature.clone(),
        slot: p.slot,
        block_time: p.block_time,
        received_time_ms: p.program_received_time_ms,
        index: p.index.clone(),
        event_type,
        protocol_type,
    }
}

/// The events that one decoder call contributes: its event, or none where it failed.
pub open spec fn ok_events<T>(r: ParseResult<T>) -> Seq<T> {
    match r {
        Ok(e) => seq![e],
        Err(_) => Seq::empty(),
    }
}

/// Appends the event of a successful decode; a failed decode adds nothing.
pub fn push_ok<T>(out: &mut Vec<T>, r: ParseResult<T>)
    ensures
        final(out)@ == old(out)@ + ok_events(r),
{
    match r {
        Ok(e) => {
            out.push(e);
            proof {
                assert(out@ =~= old(out)@ + ok_events(r));
            }
        },
        Err(_) => {
            proof {
                assert(out@ =~= old(out)@ + ok_events(r));
            }
        },
    }
}

} // verus!
