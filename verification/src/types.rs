use vstd::prelude::*;
use vstd::string::*;

verus! {

/// A 32-byte Solana account address.
#[derive(Clone, Copy, Debug)]
pub struct Pubkey(pub [u8; 32]);

impl View for Pubkey {
    type V = Seq<u8>;

    open spec fn view(&self) -> Seq<u8> {
        self.0@
    }
}

/// The address made of 32 zero bytes.
pub open spec fn zero_key() -> Seq<u8> {
    Seq::new(32, |i: int| 0u8)
}

impl Pubkey {
    /// Builds an address from its 32 bytes.
    pub fn new_from_array(bytes: [u8; 32]) -> (r: Pubkey)
        ensures
            r@ == bytes@,
    {
        Pubkey(bytes)
    }

    /// The 32 bytes of the address.
    pub fn to_bytes(&self) -> (r: [u8; 32])
        ensures
            r@ == self@,
    {
        self.0
    }
}

impl Default for Pubkey {
    fn default() -> (r: Pubkey)
        ensures
            r@ == zero_key(),
    {
        let r = Pubkey([0u8; 32]);
        proof {
            assert(r@ =~= zero_key());
        }
        r
    }
}

impl PartialEq for Pubkey {
    fn eq(&self, other: &Self) -> (r: bool) {
        let mut i: usize = 0;
        while i < 32
            invariant
                0 <= i <= 32,
                forall|j: int| 0 <= j < i ==> self.0@[j] == other.0@[j],
            decreases 32 - i,
        {
            if self.0[i] != other.0[i] {
                return false;
            }
            i = i + 1;
        }
        proof {
            assert(self.0@ =~= other.0@);
        }
        true
    }
}

impl Eq for Pubkey {}

impl vstd::std_specs::cmp::PartialEqSpecImpl for Pubkey {
    open spec fn obeys_eq_spec() -> bool {
        true
    }

    open spec fn eq_spec(&self, other: &Pubkey) -> bool {
        self.0@ == other.0@
    }
}

/// The protocols whose events this library decodes.
#[derive(Debug, Clone, PartialEq, Eq)]
pub enum ProtocolType {
    OrcaWhirlpool,
    MeteoraDlmm,
    MarginFi,
    Bonk,
    PumpSwap,
    RaydiumAmm,
    RaydiumAmmV4,
    RaydiumClmm,
    RaydiumCpmm,
    Raydium,
    Jupiter,
    Serum,
    Other(String),
}

/// The mathematical form of a `ProtocolType`: the name of `Other` as text.
pub enum ProtocolTypeView {
    OrcaWhirlpool,
    MeteoraDlmm,
    MarginFi,
    Bonk,
    PumpSwap,
    RaydiumAmm,
    RaydiumAmmV4,
    RaydiumClmm,
    RaydiumCpmm,
    Raydium,
    Jupiter,
    Serum,
    Other(Seq<char>),
}

impl View for ProtocolType {
    type V = ProtocolTypeView;

    open spec fn view(&self) -> ProtocolTypeView {
        match self {
            ProtocolType::OrcaWhirlpool => ProtocolTypeView::OrcaWhirlpool,
            ProtocolType::MeteoraDlmm => ProtocolTypeView::MeteoraDlmm,
            ProtocolType::MarginFi => ProtocolTypeView::MarginFi,
            ProtocolType::Bonk => ProtocolTypeView::Bonk,
            ProtocolType::PumpSwap => ProtocolTypeView::PumpSwap,
            ProtocolType::RaydiumAmm => ProtocolTypeView::RaydiumAmm,
            ProtocolType::RaydiumAmmV4 => ProtocolTypeView::RaydiumAmmV4,
            ProtocolType::RaydiumClmm => ProtocolTypeView::RaydiumClmm,
            ProtocolType::RaydiumCpmm => ProtocolTypeView::RaydiumCpmm,
            ProtocolType::Raydium => ProtocolTypeView::Raydium,
            ProtocolType::Jupiter => ProtocolTypeView::Jupiter,
            ProtocolType::Serum => ProtocolTypeView::Serum,
            ProtocolType::Other(name) => ProtocolTypeView::Other(name@),
        }
    }
}

/// The kinds of events that decoded instructions describe.
#[derive(Debug, Clone, Copy, PartialEq, Eq, Structural)]
pub enum EventType {
    Swap,
    Transfer,
    AddLiquidity,
    RemoveLiquidity,
    LiquidityProvision,
    LiquidityRemoval,
    CreatePool,
    OpenPosition,
    ClosePosition,
    Deposit,
    Withdraw,
    Borrow,
    Repay,
    Liquidate,
    PumpSwapBuy,
    PumpSwapSell,
    PumpSwapCreatePool,
    PumpSwapDeposit,
    PumpSwapWithdraw,
    BonkBuyExactIn,
    BonkBuyExactOut,
    BonkSellExactIn,
    BonkSellExactOut,
    BonkInitialize,
    BonkMigrateToAmm,
    BonkMigrateToCpswap,
    Unknown,
}

/// What every decoded event records about the instruction it came from.
#[derive(Debug, Clone, PartialEq, Eq)]
pub struct EventMetadata {
    pub id: String,
    pub signature: String,
    pub slot: u64,
    pub block_time: Option<i64>,
    pub received_time_ms: i64,
    pub index: String,
    pub event_type: EventType,
    pub protocol_type: ProtocolType,
}

} // verus!

verus! {

/// Whether `m` records exactly the given instruction context.
pub open spec fn metadata_is(
    m: EventMetadata,
    id: Seq<char>,
    signature: Seq<char>,
    slot: u64,
    block_time: Option<i64>,
    received_time_ms: i64,
    index: Seq<char>,
    event_type: EventType,
    protocol_type: ProtocolTypeView,
) -> bool {
    &&& m.id@ == id
    &&& m.signature@ == signature
    &&& m.slot == slot
    &&& m.block_time == block_time
    &&& m.received_time_ms == received_time_ms
    &&& m.index@ == index
    &&& m.event_type == event_type
    &&& m.protocol_type@ == protocol_type
}

/// Assembles the metadata of an event.
pub fn create_metadata(
    id: String,
    signature: String,
    slot: u64,
    block_time: Option<i64>,
    received_time_ms: i64,
    index: String,
    event_type: EventType,
    protocol_type: ProtocolType,
) -> (m: EventMetadata)
    ensures
        metadata_is(m, id@, signature@, slot, block_time, received_time_ms, index@, event_type, protocol_type@),
{
    EventMetadata { id, signature, slot, block_time, received_time_ms, index, event_type, protocol_type }
}

} // verus!

verus! {

/// Whether `b` records the same instruction context as `a`, with `id` as its identifier.
pub open spec fn renamed(b: EventMetadata, a: EventMetadata, id: Seq<char>) -> bool {
    metadata_is(b, id, a.signature@, a.slot, a.block_time, a.received_time_ms, a.index@, a.event_type, a.protocol_type@)
}

/// Replaces the identifier of `m`.
pub fn with_id(m: EventMetadata, id: String) -> (r: EventMetadata)
    ensures
        renamed(r, m, id@),
{
    EventMetadata { id, ..m }
}

impl Pubkey {
    /// The address as base58 text, which reads back as the same address.
    pub fn to_base58(&self) -> (r: String)
        ensures
            r@ == crate::text::base58_encoding(self@),
            key_of_text(r@) == Some(self@),
    {
        let r = crate::text::base58_encode(self.0.as_slice());
        proof {
            crate::text::base58_reads_back(self@);
            crate::text::base58_encoding_shape(self@);
            vstd::utf8::is_ascii_chars_encode_utf8(r@);
        }
        r
    }
}

} // verus!

verus! {

/// The address that base58 text names: text of at most 44 UTF-8 bytes whose decoding is
/// exactly 32 bytes.
pub open spec fn key_of_text(t: Seq<char>) -> Option<Seq<u8>> {
    if vstd::utf8::encode_utf8(t).len() > 44 {
        None
    } else {
        match crate::text::base58_decoding(t) {
            Some(b) => if b.len() == 32 {
                Some(b)
            } else {
                None
            },
            None => None,
        }
    }
}

/// The address that `key_of_text` gives, or the zero address where the text names none.
pub open spec fn key_or_zero(k: Option<Seq<u8>>) -> Seq<u8> {
    match k {
        Some(b) => b,
        None => zero_key(),
    }
}

/// Reads an address written as base58 text.
pub fn pubkey_from_text(s: &str) -> (r: Option<Pubkey>)
    ensures
        r is Some <==> key_of_text(s@) is Some,
        r matches Some(k) ==> key_of_text(s@) == Some(k@),
{
    let n = s.as_bytes().len();
    if n > 44 {
        return None;
    }
    match crate::text::base58_decode(s) {
        Ok(v) => {
            if v.len() == 32 {
                let k = crate::common::key_from(v.as_slice(), 0);
                proof {
                    assert(k@ =~= v@);
                }
                Some(k)
            } else {
                None
            }
        },
        Err(_) => None,
    }
}

} // verus!

verus! {

/// What a caller hands an event constructor about the instruction the event comes from.
#[derive(Debug, Clone)]
pub struct EventParameters {
    pub id: String,
    pub signature: String,
    pub slot: u64,
    pub block_time: i64,
    pub block_time_ms: i64,
    pub program_received_time_ms: i64,
    pub index: String,
}

impl EventParameters {
    /// Parameters made of the given parts.
    pub fn new(
        id: String,
        signature: String,
        slot: u64,
        block_time: i64,
        block_time_ms: i64,
        program_received_time_ms: i64,
        index: String,
    ) -> (r: EventParameters)
        ensures
            r == (EventParameters {
                id,
                signature,
                slot,
                block_time,
                block_time_ms,
                program_received_time_ms,
                index,
            }),
    {
        EventParameters { id, signature, slot, block_time, block_time_ms, program_received_time_ms, index }
    }
}

/// A token transfer that accompanies an event.
#[derive(Debug, Clone)]
pub struct TransferData {
    pub amount: u64,
    pub destination: Pubkey,
    pub mint: Option<Pubkey>,
    pub source: Pubkey,
}

impl Default for EventParameters {
    fn default() -> (r: EventParameters)
        ensures
            r.id@.len() == 0,
            r.signature@.len() == 0,
            r.slot == 0,
            r.block_time == 0,
            r.block_time_ms == 0,
            r.program_received_time_ms == 0,
            r.index@.len() == 0,
    {
        EventParameters {
            id: String::new(),
            signature: String::new(),
            slot: 0,
            block_time: 0,
            block_time_ms: 0,
            program_received_time_ms: 0,
            index: String::new(),
        }
    }
}

/// Whether `m` is the metadata that an event constructor builds from `p`.
pub open spec fn metadata_from(
    m: EventMetadata,
    p: EventParameters,
    event_type: EventType,
    protocol_type: ProtocolTypeView,
) -> bool {
    metadata_is(
        m,
        p.id@,
        p.signature@,
        p.slot,
        Some(p.block_time),
        p.program_received_time_ms,
        p.index@,
        event_type,
        protocol_type,
    )
}

/// The metadata of an event built from `p`.
pub fn metadata_from_parameters(
    p: EventParameters,
    event_type: EventType,
    protocol_type: ProtocolType,
) -> (m: EventMetadata)
    ensures
        metadata_from(m, p, event_type, protocol_type@),
{
    EventMetadata {
        id: p.id,
        signature: p.signature,
        slot: p.slot,
        block_time: Some(p.block_time),
        received_time_ms: p.program_received_time_ms,
        index: p.index,
        event_type,
        protocol_type,
    }
}

} // verus!
