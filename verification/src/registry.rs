use vstd::prelude::*;

use crate::factory::{
    InnerInstructionParseParams, InstructionParseParams, OwnedInnerInstructionParseParams,
    OwnedInstructionParseParams, Protocol, ProtocolView, SolanaTransactionInput,
};
use crate::protocols::{
    bonk, jupiter, marginfi, meteora, orca, pumpswap, raydium_amm_v4, raydium_clmm,
};
use crate::types::{key_of_text, key_or_zero, Pubkey};

verus! {

/// A parser of one of the supported protocols.
#[derive(Debug, Clone, Copy)]
pub enum RegisteredParser {
    Bonk(bonk::EventParser),
    Jupiter(jupiter::EventParser),
    MarginFi(marginfi::MarginFiEventParser),
    Meteora(meteora::Parser),
    Orca(orca::Parser),
    PumpSwap(pumpswap::PumpSwapEventParser),
    RaydiumAmmV4(raydium_amm_v4::Parser),
    RaydiumClmm(raydium_clmm::Parser),
}

/// An event decoded by one of the supported parsers.
#[derive(Debug, Clone)]
pub enum SolanaEvent {
    Bonk(bonk::BonkEvent),
    Jupiter(jupiter::JupiterEvent),
    MarginFi(marginfi::MarginFiEvent),
    Meteora(meteora::MeteoraEvent),
    Orca(orca::OrcaEvent),
    PumpSwap(pumpswap::PumpSwapEvent),
    RaydiumAmmV4(raydium_amm_v4::RaydiumAmmV4Event),
    RaydiumClmm(raydium_clmm::RaydiumClmmEvent),
}

/// Whether parser `p` accepts `input`.
pub open spec fn parser_accepts(p: RegisteredParser, input: SolanaTransactionInput) -> bool {
    match p {
        RegisteredParser::Bonk(_) => bonk::accepts(input),
        RegisteredParser::Jupiter(_) => jupiter::accepts(input),
        RegisteredParser::MarginFi(_) => marginfi::accepts(input),
        RegisteredParser::Meteora(_) => meteora::accepts(input),
        RegisteredParser::Orca(_) => orca::accepts(input),
        RegisteredParser::PumpSwap(_) => pumpswap::accepts(input),
        RegisteredParser::RaydiumAmmV4(_) => raydium_amm_v4::accepts(input),
        RegisteredParser::RaydiumClmm(_) => raydium_clmm::accepts(input),
    }
}

/// Whether parsing `input` with `p` may give `events`: the protocol's own events, each
/// wrapped as a `SolanaEvent`.
pub open spec fn parses_to(p: RegisteredParser, input: SolanaTransactionInput, events: Seq<SolanaEvent>) -> bool {
    match p {
        RegisteredParser::Bonk(_) => exists|s: Seq<bonk::BonkEvent>|
            #[trigger] bonk::parse_outcome(input, s) && events == s.map_values(
                |x: bonk::BonkEvent| SolanaEvent::Bonk(x),
            ),
        RegisteredParser::Jupiter(_) => exists|s: Seq<jupiter::JupiterEvent>|
            #[trigger] jupiter::parse_outcome(input, s) && events == s.map_values(
                |x: jupiter::JupiterEvent| SolanaEvent::Jupiter(x),
            ),
        RegisteredParser::MarginFi(_) => exists|s: Seq<marginfi::MarginFiEvent>|
            #[trigger] marginfi::parse_outcome(input, s) && events == s.map_values(
                |x: marginfi::MarginFiEvent| SolanaEvent::MarginFi(x),
            ),
        RegisteredParser::Meteora(_) => exists|s: Seq<meteora::MeteoraEvent>|
            #[trigger] meteora::parse_outcome(input, s) && events == s.map_values(
                |x: meteora::MeteoraEvent| SolanaEvent::Meteora(x),
            ),
        RegisteredParser::Orca(_) => exists|s: Seq<orca::OrcaEvent>|
            #[trigger] orca::parse_outcome(input, s) && events == s.map_values(
                |x: orca::OrcaEvent| SolanaEvent::Orca(x),
            ),
        RegisteredParser::PumpSwap(_) => exists|s: Seq<pumpswap::PumpSwapEvent>|
            #[trigger] pumpswap::parse_outcome(input, s) && events == s.map_values(
                |x: pumpswap::PumpSwapEvent| SolanaEvent::PumpSwap(x),
            ),
        RegisteredParser::RaydiumAmmV4(_) => exists|s: Seq<raydium_amm_v4::RaydiumAmmV4Event>|
            #[trigger] raydium_amm_v4::parse_outcome(input, s) && events == s.map_values(
                |x: raydium_amm_v4::RaydiumAmmV4Event| SolanaEvent::RaydiumAmmV4(x),
            ),
        RegisteredParser::RaydiumClmm(_) => exists|s: Seq<raydium_clmm::RaydiumClmmEvent>|
            #[trigger] raydium_clmm::parse_outcome(input, s) && events == s.map_values(
                |x: raydium_clmm::RaydiumClmmEvent| SolanaEvent::RaydiumClmm(x),
            ),
    }
}

fn wrap_bonk(v: Vec<bonk::BonkEvent>) -> (r: Vec<SolanaEvent>)
    ensures
        r@ == v@.map_values(|x: bonk::BonkEvent| SolanaEvent::Bonk(x)),
{
    let ghost whole = v@;
    let mut rest = v;
    let mut out: Vec<SolanaEvent> = Vec::new();
    while rest.len() > 0
        invariant
            out@.len() + rest@.len() == whole.len(),
            rest@ == whole.subrange(out@.len() as int, whole.len() as int),
            out@ == whole.subrange(0, out@.len() as int).map_values(|x: bonk::BonkEvent| SolanaEvent::Bonk(x)),
        decreases rest@.len(),
    {
        let x = rest.remove(0);
        out.push(SolanaEvent::Bonk(x));
        proof {
            assert(out@ =~= whole.subrange(0, out@.len() as int).map_values(
                |x: bonk::BonkEvent| SolanaEvent::Bonk(x),
            ));
            assert(rest@ =~= whole.subrange(out@.len() as int, whole.len() as int));
        }
    }
    proof {
        assert(whole.subrange(0, whole.len() as int) =~= whole);
    }
    out
}

fn wrap_jupiter(v: Vec<jupiter::JupiterEvent>) -> (r: Vec<SolanaEvent>)
    ensures
        r@ == v@.map_values(|x: jupiter::JupiterEvent| SolanaEvent::Jupiter(x)),
{
    let ghost whole = v@;
    let mut rest = v;
    let mut out: Vec<SolanaEvent> = Vec::new();
    while rest.len() > 0
        invariant
            out@.len() + rest@.len() == whole.len(),
            rest@ == whole.subrange(out@.len() as int, whole.len() as int),
            out@ == whole.subrange(0, out@.len() as int).map_values(|x: jupiter::JupiterEvent| SolanaEvent::Jupiter(x)),
        decreases rest@.len(),
    {
        let x = rest.remove(0);
        out.push(SolanaEvent::Jupiter(x));
        proof {
            assert(out@ =~= whole.subrange(0, out@.len() as int).map_values(
                |x: jupiter::JupiterEvent| SolanaEvent::Jupiter(x),
            ));
            assert(rest@ =~= whole.subrange(out@.len() as int, whole.len() as int));
        }
    }
    proof {
        assert(whole.subrange(0, whole.len() as int) =~= whole);
    }
    out
}

fn wrap_marginfi(v: Vec<marginfi::MarginFiEvent>) -> (r: Vec<SolanaEvent>)
    ensures
        r@ == v@.map_values(|x: marginfi::MarginFiEvent| SolanaEvent::MarginFi(x)),
{
    let ghost whole = v@;
    let mut rest = v;
    let mut out: Vec<SolanaEvent> = Vec::new();
    while rest.len() > 0
        invariant
            out@.len() + rest@.len() == whole.len(),
            rest@ == whole.subrange(out@.len() as int, whole.len() as int),
            out@ == whole.subrange(0, out@.len() as int).map_values(|x: marginfi::MarginFiEvent| SolanaEvent::MarginFi(x)),
        decreases rest@.len(),
    {
        let x = rest.remove(0);
        out.push(SolanaEvent::MarginFi(x));
        proof {
            assert(out@ =~= whole.subrange(0, out@.len() as int).map_values(
                |x: marginfi::MarginFiEvent| SolanaEvent::MarginFi(x),
            ));
            assert(rest@ =~= whole.subrange(out@.len() as int, whole.len() as int));
        }
    }
    proof {
        assert(whole.subrange(0, whole.len() as int) =~= whole);
    }
    out
}

fn wrap_meteora(v: Vec<meteora::MeteoraEvent>) -> (r: Vec<SolanaEvent>)
    ensures
        r@ == v@.map_values(|x: meteora::MeteoraEvent| SolanaEvent::Meteora(x)),
{
    let ghost whole = v@;
    let mut rest = v;
    let mut out: Vec<SolanaEvent> = Vec::new();
    while rest.len() > 0
        invariant
            out@.len() + rest@.len() == whole.len(),
            rest@ == whole.subrange(out@.len() as int, whole.len() as int),
            out@ == whole.subrange(0, out@.len() as int).map_values(|x: meteora::MeteoraEvent| SolanaEvent::Meteora(x)),
        decreases rest@.len(),
    {
        let x = rest.remove(0);
        out.push(SolanaEvent::Meteora(x));
        proof {
            assert(out@ =~= whole.subrange(0, out@.len() as int).map_values(
                |x: meteora::MeteoraEvent| SolanaEvent::Meteora(x),
            ));
            assert(rest@ =~= whole.subrange(out@.len() as int, whole.len() as int));
        }
    }
    proof {
        assert(whole.subrange(0, whole.len() as int) =~= whole);
    }
    out
}

fn wrap_orca(v: Vec<orca::OrcaEvent>) -> (r: Vec<SolanaEvent>)
    ensures
        r@ == v@.map_values(|x: orca::OrcaEvent| SolanaEvent::Orca(x)),
{
    let ghost whole = v@;
    let mut rest = v;
    let mut out: Vec<SolanaEvent> = Vec::new();
    while rest.len() > 0
        invariant
            out@.len() + rest@.len() == whole.len(),
            rest@ == whole.subrange(out@.len() as int, whole.len() as int),
            out@ == whole.subrange(0, out@.len() as int).map_values(|x: orca::OrcaEvent| SolanaEvent::Orca(x)),
        decreases rest@.len(),
    {
        let x = rest.remove(0);
        out.push(SolanaEvent::Orca(x));
        proof {
            assert(out@ =~= whole.subrange(0, out@.len() as int).map_values(
                |x: orca::OrcaEvent| SolanaEvent::Orca(x),
            ));
            assert(rest@ =~= whole.subrange(out@.len() as int, whole.len() as int));
        }
    }
    proof {
        assert(whole.subrange(0, whole.len() as int) =~= whole);
    }
    out
}

fn wrap_pumpswap(v: Vec<pumpswap::PumpSwapEvent>) -> (r: Vec<SolanaEvent>)
    ensures
        r@ == v@.map_values(|x: pumpswap::PumpSwapEvent| SolanaEvent::PumpSwap(x)),
{
    let ghost whole = v@;
    let mut rest = v;
    let mut out: Vec<SolanaEvent> = Vec::new();
    while rest.len() > 0
        invariant
            out@.len() + rest@.len() == whole.len(),
            rest@ == whole.subrange(out@.len() as int, whole.len() as int),
            out@ == whole.subrange(0, out@.len() as int).map_values(|x: pumpswap::PumpSwapEvent| SolanaEvent::PumpSwap(x)),
        decreases rest@.len(),
    {
        let x = rest.remove(0);
        out.push(SolanaEvent::PumpSwap(x));
        proof {
            assert(out@ =~= whole.subrange(0, out@.len() as int).map_values(
                |x: pumpswap::PumpSwapEvent| SolanaEvent::PumpSwap(x),
            ));
            assert(rest@ =~= whole.subrange(out@.len() as int, whole.len() as int));
        }
    }
    proof {
        assert(whole.subrange(0, whole.len() as int) =~= whole);
    }
    out
}

fn wrap_raydium_amm_v4(v: Vec<raydium_amm_v4::RaydiumAmmV4Event>) -> (r: Vec<SolanaEvent>)
    ensures
        r@ == v@.map_values(|x: raydium_amm_v4::RaydiumAmmV4Event| SolanaEvent::RaydiumAmmV4(x)),
{
    let ghost whole = v@;
    let mut rest = v;
    let mut out: Vec<SolanaEvent> = Vec::new();
    while rest.len() > 0
        invariant
            out@.len() + rest@.len() == whole.len(),
            rest@ == whole.subrange(out@.len() as int, whole.len() as int),
            out@ == whole.subrange(0, out@.len() as int).map_values(|x: raydium_amm_v4::RaydiumAmmV4Event| SolanaEvent::RaydiumAmmV4(x)),
        decreases rest@.len(),
    {
        let x = rest.remove(0);
        out.push(SolanaEvent::RaydiumAmmV4(x));
        proof {
            assert(out@ =~= whole.subrange(0, out@.len() as int).map_values(
                |x: raydium_amm_v4::RaydiumAmmV4Event| SolanaEvent::RaydiumAmmV4(x),
            ));
            assert(rest@ =~= whole.subrange(out@.len() as int, whole.len() as int));
        }
    }
    proof {
        assert(whole.subrange(0, whole.len() as int) =~= whole);
    }
    out
}

fn wrap_raydium_clmm(v: Vec<raydium_clmm::RaydiumClmmEvent>) -> (r: Vec<SolanaEvent>)
    ensures
        r@ == v@.map_values(|x: raydium_clmm::RaydiumClmmEvent| SolanaEvent::RaydiumClmm(x)),
{
    let ghost whole = v@;
    let mut rest = v;
    let mut out: Vec<SolanaEvent> = Vec::new();
    while rest.len() > 0
        invariant
            out@.len() + rest@.len() == whole.len(),
            rest@ == whole.subrange(out@.len() as int, whole.len() as int),
            out@ == whole.subrange(0, out@.len() as int).map_values(|x: raydium_clmm::RaydiumClmmEvent| SolanaEvent::RaydiumClmm(x)),
        decreases rest@.len(),
    {
        let x = rest.remove(0);
        out.push(SolanaEvent::RaydiumClmm(x));
        proof {
            assert(out@ =~= whole.subrange(0, out@.len() as int).map_values(
                |x: raydium_clmm::RaydiumClmmEvent| SolanaEvent::RaydiumClmm(x),
            ));
            assert(rest@ =~= whole.subrange(out@.len() as int, whole.len() as int));
        }
    }
    proof {
        assert(whole.subrange(0, whole.len() as int) =~= whole);
    }
    out
}

impl RegisteredParser {
    /// Whether this parser accepts `input`.
    pub fn can_parse(&self, input: &SolanaTransactionInput) -> (r: bool)
        ensures
            r == parser_accepts(*self, *input),
    {
        match self {
            RegisteredParser::Bonk(p) => p.can_parse(input),
            RegisteredParser::Jupiter(p) => p.can_parse(input),
            RegisteredParser::MarginFi(p) => p.can_parse(input),
            RegisteredParser::Meteora(p) => p.can_parse(input),
            RegisteredParser::Orca(p) => p.can_parse(input),
            RegisteredParser::PumpSwap(p) => p.can_parse(input),
            RegisteredParser::RaydiumAmmV4(p) => p.can_parse(input),
            RegisteredParser::RaydiumClmm(p) => p.can_parse(input),
        }
    }

    /// The program ids that this parser reports as its own.
    pub fn supported_program_ids(&self) -> (r: Vec<Pubkey>)
        ensures
            r@.map_values(|k: Pubkey| k@) == parser_program_ids(*self),
    {
        let r = match self {
            RegisteredParser::Bonk(p) => p.supported_program_ids(),
            RegisteredParser::Jupiter(p) => p.supported_program_ids(),
            RegisteredParser::MarginFi(p) => p.supported_program_ids(),
            RegisteredParser::Meteora(p) => p.supported_program_ids(),
            RegisteredParser::Orca(p) => p.supported_program_ids(),
            RegisteredParser::PumpSwap(p) => p.supported_program_ids(),
            RegisteredParser::RaydiumAmmV4(p) => p.supported_program_ids(),
            RegisteredParser::RaydiumClmm(p) => p.supported_program_ids(),
        };
        proof {
            assert(r@.map_values(|k: Pubkey| k@) =~= parser_program_ids(*self));
        }
        r
    }

    /// Decodes `input` with this parser.
    pub fn parse(&self, input: &SolanaTransactionInput) -> (r: Vec<SolanaEvent>)
        ensures
            parses_to(*self, *input, r@),
    {
        match self {
            RegisteredParser::Bonk(p) => {
                let events = p.parse(input);
                let r = wrap_bonk(events);
                proof {
                    assert(bonk::parse_outcome(*input, events@));
                }
                r
            },
            RegisteredParser::Jupiter(p) => {
                let events = p.parse(input);
                let r = wrap_jupiter(events);
                proof {
                    assert(jupiter::parse_outcome(*input, events@));
                }
                r
            },
            RegisteredParser::MarginFi(p) => {
                let events = p.parse(input);
                let r = wrap_marginfi(events);
                proof {
                    assert(marginfi::parse_outcome(*input, events@));
                }
                r
            },
            RegisteredParser::Meteora(p) => {
                let events = p.parse(input);
                let r = wrap_meteora(events);
                proof {
                    assert(meteora::parse_outcome(*input, events@));
                }
                r
            },
            RegisteredParser::Orca(p) => {
                let events = p.parse(input);
                let r = wrap_orca(events);
                proof {
                    assert(orca::parse_outcome(*input, events@));
                }
                r
            },
            RegisteredParser::PumpSwap(p) => {
                let events = p.parse(input);
                let r = wrap_pumpswap(events);
                proof {
                    assert(pumpswap::parse_outcome(*input, events@));
                }
                r
            },
            RegisteredParser::RaydiumAmmV4(p) => {
                let events = p.parse(input);
                let r = wrap_raydium_amm_v4(events);
                proof {
                    assert(raydium_amm_v4::parse_outcome(*input, events@));
                }
                r
            },
            RegisteredParser::RaydiumClmm(p) => {
                let events = p.parse(input);
                let r = wrap_raydium_clmm(events);
                proof {
                    assert(raydium_clmm::parse_outcome(*input, events@));
                }
                r
            },
        }
    }
}


/// Whether some entry of `s` is filed under `k`.
pub open spec fn has_key<K, V>(s: Seq<(K, V)>, k: K) -> bool {
    exists|i: int| 0 <= i < s.len() && #[trigger] s[i].0 == k
}

/// Whether no two entries of `s` are filed under the same key.
pub open spec fn keys_distinct<K, V>(s: Seq<(K, V)>) -> bool {
    forall|i: int, j: int|
        #![trigger s[i], s[j]]
        0 <= i < s.len() && 0 <= j < s.len() && i != j ==> s[i].0 != s[j].0
}

/// The position of the entry filed under `k`.
pub open spec fn key_index<K, V>(s: Seq<(K, V)>, k: K) -> int {
    choose|i: int| 0 <= i < s.len() && #[trigger] s[i].0 == k
}

/// The value filed under `k`, if any.
pub open spec fn lookup<K, V>(s: Seq<(K, V)>, k: K) -> Option<V> {
    if has_key(s, k) {
        Some(s[key_index(s, k)].1)
    } else {
        None
    }
}

/// The entries after filing `v` under `k`: an entry already filed under `k` is replaced in
/// place, otherwise the new entry comes last.
pub open spec fn added<K, V>(s: Seq<(K, V)>, k: K, v: V) -> Seq<(K, V)> {
    if has_key(s, k) {
        s.update(key_index(s, k), (k, v))
    } else {
        s.push((k, v))
    }
}

proof fn lemma_index_of_key<K, V>(s: Seq<(K, V)>, k: K, i: int)
    requires
        keys_distinct(s),
        0 <= i < s.len(),
        s[i].0 == k,
    ensures
        has_key(s, k),
        key_index(s, k) == i,
{
    assert(has_key(s, k));
    let j = key_index(s, k);
    assert(s[j].0 == k);
}

proof fn lemma_added_distinct<K, V>(s: Seq<(K, V)>, p: K, x: V)
    requires
        keys_distinct(s),
    ensures
        keys_distinct(added(s, p, x)),
        added(s, p, x).len() == s.len() + (if has_key(s, p) { 0int } else { 1int }),
{
    let t = added(s, p, x);
    if has_key(s, p) {
        let k = key_index(s, p);
        assert forall|i: int, j: int|
            0 <= i < t.len() && 0 <= j < t.len() && i != j implies #[trigger] t[i].0 != #[trigger] t[j].0 by {
            if i == k {
                assert(s[k].0 == p);
                assert(s[j].0 != s[k].0);
            } else if j == k {
                assert(s[k].0 == p);
                assert(s[i].0 != s[k].0);
            } else {
                assert(s[i].0 != s[j].0);
            }
        }
    } else {
        assert forall|i: int, j: int|
            0 <= i < t.len() && 0 <= j < t.len() && i != j implies #[trigger] t[i].0 != #[trigger] t[j].0 by {
            if i == s.len() {
                assert(s[j].0 != p);
            } else if j == s.len() {
                assert(s[i].0 != p);
            } else {
                assert(s[i].0 != s[j].0);
            }
        }
    }
}

proof fn lemma_added_found<K, V>(s: Seq<(K, V)>, p: K, x: V)
    requires
        keys_distinct(s),
    ensures
        lookup(added(s, p, x), p) == Some(x),
{
    lemma_added_distinct(s, p, x);
    let t = added(s, p, x);
    if has_key(s, p) {
        lemma_index_of_key(t, p, key_index(s, p));
    } else {
        lemma_index_of_key(t, p, s.len() as int);
    }
}

proof fn lemma_added_other<K, V>(s: Seq<(K, V)>, p: K, q: K, x: V)
    requires
        keys_distinct(s),
        p != q,
    ensures
        lookup(added(s, p, x), q) == lookup(s, q),
{
    lemma_added_distinct(s, p, x);
    let t = added(s, p, x);
    if has_key(s, q) {
        let i = key_index(s, q);
        assert(t[i] == s[i]);
        lemma_index_of_key(t, q, i);
    } else {
        if has_key(t, q) {
            let i = key_index(t, q);
            assert(s[i].0 == q);
        }
    }
}

/// After a parser is added under a protocol, looking that protocol up gives that parser.
pub proof fn added_parser_is_found(
    s: Seq<(ProtocolView, RegisteredParser)>,
    p: ProtocolView,
    x: RegisteredParser,
)
    requires
        keys_distinct(s),
    ensures
        lookup(added(s, p, x), p) == Some(x),
{
    lemma_added_found(s, p, x);
}

/// Adding a parser under one protocol leaves the parser of every other protocol as it was.
pub proof fn adding_keeps_other_parsers(
    s: Seq<(ProtocolView, RegisteredParser)>,
    p: ProtocolView,
    q: ProtocolView,
    x: RegisteredParser,
)
    requires
        keys_distinct(s),
        p != q,
    ensures
        lookup(added(s, p, x), q) == lookup(s, q),
{
    lemma_added_other(s, p, q, x);
}

/// Adding a parser keeps one parser per protocol: a second parser for a protocol replaces the
/// first, and only a new protocol makes the registry longer.
pub proof fn adding_keeps_keys_distinct(
    s: Seq<(ProtocolView, RegisteredParser)>,
    p: ProtocolView,
    x: RegisteredParser,
)
    requires
        keys_distinct(s),
    ensures
        keys_distinct(added(s, p, x)),
        added(s, p, x).len() == s.len() + (if has_key(s, p) { 0int } else { 1int }),
{
    lemma_added_distinct(s, p, x);
}

/// The entries after filing `v` under each of `keys` in turn.
pub open spec fn added_all<K, V>(s: Seq<(K, V)>, keys: Seq<K>, v: V) -> Seq<(K, V)>
    decreases keys.len(),
{
    if keys.len() == 0 {
        s
    } else {
        added(added_all(s, keys.drop_last(), v), keys.last(), v)
    }
}

proof fn lemma_added_all_distinct<K, V>(s: Seq<(K, V)>, keys: Seq<K>, v: V)
    requires
        keys_distinct(s),
    ensures
        keys_distinct(added_all(s, keys, v)),
    decreases keys.len(),
{
    if keys.len() > 0 {
        lemma_added_all_distinct(s, keys.drop_last(), v);
        lemma_added_distinct(added_all(s, keys.drop_last(), v), keys.last(), v);
    }
}

/// After a parser is added, each of its program ids leads to it.
pub proof fn added_program_is_found(
    s: Seq<(Seq<u8>, RegisteredParser)>,
    keys: Seq<Seq<u8>>,
    k: Seq<u8>,
    x: RegisteredParser,
)
    requires
        keys_distinct(s),
        keys.contains(k),
    ensures
        lookup(added_all(s, keys, x), k) == Some(x),
    decreases keys.len(),
{
    let prefix = keys.drop_last();
    lemma_added_all_distinct(s, prefix, x);
    if keys.last() == k {
        lemma_added_found(added_all(s, prefix, x), k, x);
    } else {
        let i = choose|i: int| 0 <= i < keys.len() && keys[i] == k;
        assert(prefix[i] == k);
        added_program_is_found(s, prefix, k, x);
        lemma_added_other(added_all(s, prefix, x), keys.last(), k, x);
    }
}

/// Adding a parser leaves every program id that it does not name leading where it led.
pub proof fn adding_keeps_other_programs(
    s: Seq<(Seq<u8>, RegisteredParser)>,
    keys: Seq<Seq<u8>>,
    k: Seq<u8>,
    x: RegisteredParser,
)
    requires
        keys_distinct(s),
        !keys.contains(k),
    ensures
        lookup(added_all(s, keys, x), k) == lookup(s, k),
    decreases keys.len(),
{
    if keys.len() > 0 {
        let prefix = keys.drop_last();
        assert(!prefix.contains(k)) by {
            if prefix.contains(k) {
                let i = choose|i: int| 0 <= i < prefix.len() && prefix[i] == k;
                assert(keys[i] == k);
            }
        }
        assert(keys[keys.len() - 1] != k);
        lemma_added_all_distinct(s, prefix, x);
        adding_keeps_other_programs(s, prefix, k, x);
        lemma_added_other(added_all(s, prefix, x), keys.last(), k, x);
    }
}

/// The program ids that a parser reports as its own.
pub open spec fn parser_program_ids(p: RegisteredParser) -> Seq<Seq<u8>> {
    match p {
        RegisteredParser::Bonk(_) => seq![bonk::BONK_PROGRAM_ID_BYTES@],
        RegisteredParser::Jupiter(_) => seq![key_or_zero(key_of_text(jupiter::JUPITER_V6_PROGRAM_ID@))],
        RegisteredParser::MarginFi(_) => seq![
            key_or_zero(key_of_text(marginfi::MARGINFI_PROGRAM_ID@)),
            key_or_zero(key_of_text(marginfi::MARGINFI_BANK_PROGRAM_ID@)),
        ],
        RegisteredParser::Meteora(_) => seq![
            key_or_zero(key_of_text(meteora::METEORA_DLMM_PROGRAM_ID@)),
            key_or_zero(key_of_text(meteora::METEORA_DYNAMIC_PROGRAM_ID@)),
        ],
        RegisteredParser::Orca(_) => seq![key_or_zero(key_of_text(orca::ORCA_WHIRLPOOL_PROGRAM_ID@))],
        RegisteredParser::PumpSwap(_) => seq![pumpswap::PUMPSWAP_PROGRAM_ID_BYTES@],
        RegisteredParser::RaydiumAmmV4(_) => seq![raydium_amm_v4::RAYDIUM_AMM_V4_PROGRAM_ID_BYTES@],
        RegisteredParser::RaydiumClmm(_) => seq![raydium_clmm::RAYDIUM_CLMM_PROGRAM_ID_BYTES@],
    }
}

/// Whether `events` is what trying the parsers `ps` in turn may give for `input`: the events
/// of the first parser that accepts the input and finds any, or none at all.
pub open spec fn first_found(
    ps: Seq<RegisteredParser>,
    input: SolanaTransactionInput,
    events: Seq<SolanaEvent>,
) -> bool
    decreases ps.len(),
{
    if ps.len() == 0 {
        events.len() == 0
    } else {
        ||| parser_accepts(ps[0], input) && events.len() > 0 && parses_to(ps[0], input, events)
        ||| (!parser_accepts(ps[0], input) || parses_to(ps[0], input, Seq::empty()))
            && first_found(ps.drop_first(), input, events)
    }
}

/// Whether `o` carries what `p` borrows from an instruction.
pub open spec fn carries_instruction(p: InstructionParseParams, o: OwnedInstructionParseParams) -> bool {
    &&& o.accounts@ == p.accounts@
    &&& o.block_time == p.block_time
    &&& o.index@ == p.index@
    &&& o.instruction_data@ == p.instruction.data@
    &&& o.program_received_time_ms == p.program_received_time_ms
    &&& o.signature@ == p.signature@
    &&& o.slot == p.slot
}

/// Whether `o` carries what `p` borrows from an inner instruction.
pub open spec fn carries_inner(p: InnerInstructionParseParams, o: OwnedInnerInstructionParseParams) -> bool {
    &&& o.block_time == p.block_time
    &&& o.index@ == p.index@
    &&& o.inner_instruction_data@ == p.inner_instruction.data@
    &&& o.program_received_time_ms == p.program_received_time_ms
    &&& o.signature@ == p.signature@
    &&& o.slot == p.slot
}

fn same_protocol(a: &Protocol, b: &Protocol) -> (r: bool)
    ensures
        r == (a@ == b@),
{
    match (a, b) {
        (Protocol::Bonk, Protocol::Bonk) => true,
        (Protocol::Custom(x), Protocol::Custom(y)) => *x == *y,
        (Protocol::Jupiter, Protocol::Jupiter) => true,
        (Protocol::MarginFi, Protocol::MarginFi) => true,
        (Protocol::MeteoraDlmm, Protocol::MeteoraDlmm) => true,
        (Protocol::OrcaWhirlpool, Protocol::OrcaWhirlpool) => true,
        (Protocol::PumpFun, Protocol::PumpFun) => true,
        (Protocol::PumpSwap, Protocol::PumpSwap) => true,
        (Protocol::RaydiumAmmV4, Protocol::RaydiumAmmV4) => true,
        (Protocol::RaydiumClmm, Protocol::RaydiumClmm) => true,
        (Protocol::RaydiumCpmm, Protocol::RaydiumCpmm) => true,
        _ => false,
    }
}

/// The mathematical form of a registry: its parsers in the order they were added, each under
/// its protocol, and its parsers by program id.
pub struct RegistryView {
    pub parsers: Seq<(ProtocolView, RegisteredParser)>,
    pub programs: Seq<(Seq<u8>, RegisteredParser)>,
}

/// Parsers by protocol, tried in turn on each instruction, and by program id for lookup.
pub struct EventParserRegistry {
    parsers: Vec<(Protocol, RegisteredParser)>,
    program_id_to_parser: Vec<(Pubkey, RegisteredParser)>,
}

impl View for EventParserRegistry {
    type V = RegistryView;

    closed spec fn view(&self) -> RegistryView {
        RegistryView {
            parsers: self.parsers@.map_values(|e: (Protocol, RegisteredParser)| (e.0@, e.1)),
            programs: self.program_id_to_parser@.map_values(
                |e: (Pubkey, RegisteredParser)| (e.0@, e.1),
            ),
        }
    }
}

impl Default for EventParserRegistry {
    fn default() -> (r: EventParserRegistry)
        ensures
            r.wf(),
            r@.parsers.len() == 0,
            r@.programs.len() == 0,
    {
        EventParserRegistry::new()
    }
}

impl EventParserRegistry {
    /// One parser per protocol, and one per program id.
    pub open spec fn wf(&self) -> bool {
        keys_distinct(self@.parsers) && keys_distinct(self@.programs)
    }

    /// The parsers in the order in which they are tried.
    pub open spec fn parser_order(&self) -> Seq<RegisteredParser> {
        self@.parsers.map_values(|e: (ProtocolView, RegisteredParser)| e.1)
    }

    /// A registry with no parsers.
    pub fn new() -> (r: EventParserRegistry)
        ensures
            r.wf(),
            r@.parsers.len() == 0,
            r@.programs.len() == 0,
    {
        let r = EventParserRegistry { parsers: Vec::new(), program_id_to_parser: Vec::new() };
        proof {
            assert(r@.parsers.len() == 0);
            assert(r@.programs.len() == 0);
        }
        r
    }

    /// How many protocols have a parser.
    pub fn parser_count(&self) -> (n: usize)
        ensures
            n == self@.parsers.len(),
    {
        self.parsers.len()
    }

    /// How many program ids have a parser.
    pub fn program_mapping_count(&self) -> (n: usize)
        ensures
            n == self@.programs.len(),
    {
        self.program_id_to_parser.len()
    }

    /// Files `parser` under `protocol`, replacing the parser that was filed there, and under
    /// each program id that the parser reports, replacing what was filed there. So once a parser
    /// is added, `get_parser_for_program`, `should_handle` and `supported_program_ids` see its
    /// program ids; a registry built by `with_all_parsers` alone handles none.
    pub fn add_parser(&mut self, protocol: Protocol, parser: RegisteredParser)
        requires
            old(self).wf(),
        ensures
            final(self).wf(),
            final(self)@.parsers == added(old(self)@.parsers, protocol@, parser),
            final(self)@.programs == added_all(old(self)@.programs, parser_program_ids(parser), parser),
    {
        self.file_protocol(protocol, parser);
        let ids = parser.supported_program_ids();
        let ghost keys = ids@.map_values(|k: Pubkey| k@);
        let ghost mid = self@.parsers;
        let mut i: usize = 0;
        proof {
            assert(keys.take(0) =~= Seq::<Seq<u8>>::empty());
        }
        while i < ids.len()
            invariant
                0 <= i <= ids.len(),
                keys == ids@.map_values(|k: Pubkey| k@),
                self.wf(),
                self@.parsers == mid,
                self@.programs == added_all(old(self)@.programs, keys.take(i as int), parser),
            decreases ids.len() - i,
        {
            self.file_program(ids[i], parser);
            proof {
                assert(keys.take(i + 1).drop_last() =~= keys.take(i as int));
                assert(keys.take(i + 1).last() == ids@[i as int]@);
            }
            i = i + 1;
        }
        proof {
            assert(keys.take(i as int) =~= keys);
        }
    }

    fn file_program(&mut self, key: Pubkey, parser: RegisteredParser)
        requires
            old(self).wf(),
        ensures
            final(self).wf(),
            final(self)@.parsers == old(self)@.parsers,
            final(self)@.programs == added(old(self)@.programs, key@, parser),
    {
        let ghost s = old(self)@.programs;
        let mut i: usize = 0;
        while i < self.program_id_to_parser.len()
            invariant
                0 <= i <= self.program_id_to_parser.len(),
                self.program_id_to_parser@ == old(self).program_id_to_parser@,
                self.parsers@ == old(self).parsers@,
                s == self@.programs,
                keys_distinct(s),
                keys_distinct(old(self)@.parsers),
                forall|j: int| 0 <= j < i ==> #[trigger] s[j].0 != key@,
            decreases self.program_id_to_parser.len() - i,
        {
            if self.program_id_to_parser[i].0 == key {
                proof {
                    assert(s[i as int].0 == key@);
                    lemma_index_of_key(s, key@, i as int);
                }
                self.program_id_to_parser.set(i, (key, parser));
                proof {
                    assert(self@.programs =~= added(s, key@, parser));
                    lemma_added_distinct(s, key@, parser);
                    assert(self@.parsers =~= old(self)@.parsers);
                    assert(keys_distinct(self@.parsers));
                    assert(keys_distinct(self@.programs));
                }
                return;
            }
            i = i + 1;
        }
        proof {
            assert(!has_key(s, key@));
        }
        self.program_id_to_parser.push((key, parser));
        proof {
            assert(self@.programs =~= added(s, key@, parser));
            lemma_added_distinct(s, key@, parser);
            assert(self@.parsers =~= old(self)@.parsers);
        }
    }

    fn file_protocol(&mut self, protocol: Protocol, parser: RegisteredParser)
        requires
            old(self).wf(),
        ensures
            final(self).wf(),
            final(self)@.parsers == added(old(self)@.parsers, protocol@, parser),
            final(self)@.programs == old(self)@.programs,
    {
        let ghost s = old(self)@.parsers;
        let mut i: usize = 0;
        while i < self.parsers.len()
            invariant
                0 <= i <= self.parsers.len(),
                self.parsers@ == old(self).parsers@,
                self.program_id_to_parser@ == old(self).program_id_to_parser@,
                s == self@.parsers,
                keys_distinct(s),
                keys_distinct(old(self)@.programs),
                forall|j: int| 0 <= j < i ==> #[trigger] s[j].0 != protocol@,
            decreases self.parsers.len() - i,
        {
            if same_protocol(&self.parsers[i].0, &protocol) {
                proof {
                    assert(s[i as int].0 == protocol@);
                    lemma_index_of_key(s, protocol@, i as int);
                }
                self.parsers.set(i, (protocol, parser));
                proof {
                    assert(self@.parsers =~= added(s, protocol@, parser));
                    adding_keeps_keys_distinct(s, protocol@, parser);
                    assert(self@.programs =~= old(self)@.programs);
                    assert(keys_distinct(self@.parsers));
                    assert(keys_distinct(self@.programs));
                }
                return;
            }
            i = i + 1;
        }
        proof {
            assert(!has_key(s, protocol@));
        }
        self.parsers.push((protocol, parser));
        proof {
            assert(self@.parsers =~= added(s, protocol@, parser));
            adding_keeps_keys_distinct(s, protocol@, parser);
            assert(self@.programs =~= old(self)@.programs);
        }
    }

    /// The parser filed under `protocol`, if any.
    pub fn get_parser(&self, protocol: &Protocol) -> (r: Option<&RegisteredParser>)
        requires
            self.wf(),
        ensures
            match r {
                Some(x) => lookup(self@.parsers, protocol@) == Some(*x),
                None => lookup(self@.parsers, protocol@) is None,
            },
    {
        let ghost s = self@.parsers;
        let mut i: usize = 0;
        while i < self.parsers.len()
            invariant
                0 <= i <= self.parsers.len(),
                s == self@.parsers,
                keys_distinct(s),
                forall|j: int| 0 <= j < i ==> #[trigger] s[j].0 != protocol@,
            decreases self.parsers.len() - i,
        {
            if same_protocol(&self.parsers[i].0, protocol) {
                proof {
                    assert(s[i as int].0 == protocol@);
                    lemma_index_of_key(s, protocol@, i as int);
                }
                return Some(&self.parsers[i].1);
            }
            i = i + 1;
        }
        proof {
            assert(!has_key(s, protocol@));
        }
        None
    }

    /// The parser filed under `program_id`, if any.
    pub fn get_parser_for_program(&self, program_id: &Pubkey) -> (r: Option<&RegisteredParser>)
        requires
            self.wf(),
        ensures
            match r {
                Some(x) => lookup(self@.programs, program_id@) == Some(*x),
                None => lookup(self@.programs, program_id@) is None,
            },
    {
        let ghost s = self@.programs;
        let mut i: usize = 0;
        while i < self.program_id_to_parser.len()
            invariant
                0 <= i <= self.program_id_to_parser.len(),
                s == self@.programs,
                keys_distinct(s),
                forall|j: int| 0 <= j < i ==> #[trigger] s[j].0 != program_id@,
            decreases self.program_id_to_parser.len() - i,
        {
            if self.program_id_to_parser[i].0 == *program_id {
                proof {
                    assert(s[i as int].0 == program_id@);
                    lemma_index_of_key(s, program_id@, i as int);
                }
                return Some(&self.program_id_to_parser[i].1);
            }
            i = i + 1;
        }
        proof {
            assert(!has_key(s, program_id@));
        }
        None
    }

    /// Whether a parser is filed under `program_id`.
    pub fn should_handle(&self, program_id: &Pubkey) -> (r: bool)
        requires
            self.wf(),
        ensures
            r == has_key(self@.programs, program_id@),
    {
        self.get_parser_for_program(program_id).is_some()
    }

    /// The program ids that have a parser.
    pub fn supported_program_ids(&self) -> (r: Vec<Pubkey>)
        ensures
            r@.map_values(|k: Pubkey| k@) == self@.programs.map_values(
                |e: (Seq<u8>, RegisteredParser)| e.0,
            ),
    {
        let ghost s = self@.programs;
        let mut r: Vec<Pubkey> = Vec::new();
        let mut i: usize = 0;
        while i < self.program_id_to_parser.len()
            invariant
                0 <= i <= self.program_id_to_parser.len(),
                s == self@.programs,
                r@.len() == i,
                forall|j: int| 0 <= j < i ==> (#[trigger] r@[j])@ == s[j].0,
            decreases self.program_id_to_parser.len() - i,
        {
            r.push(self.program_id_to_parser[i].0);
            i = i + 1;
        }
        proof {
            assert(r@.map_values(|k: Pubkey| k@) =~= s.map_values(
                |e: (Seq<u8>, RegisteredParser)| e.0,
            ));
        }
        r
    }

    /// A registry with a parser filed under each protocol that this library decodes: Bonk,
    /// Jupiter, MarginFi, Meteora DLMM, Orca Whirlpool, PumpSwap, Raydium AMM V4 and Raydium
    /// CLMM. Raydium CPMM has no parser in this library and is left out. The parsers are filed
    /// by protocol only: the program map stays empty, so no program id is handled until
    /// `add_parser` files a parser under its ids.
    pub fn with_all_parsers() -> (r: EventParserRegistry)
        ensures
            r.wf(),
            r@.parsers == seq![
                (ProtocolView::Bonk, RegisteredParser::Bonk(bonk::EventParser)),
                (ProtocolView::Jupiter, RegisteredParser::Jupiter(jupiter::EventParser)),
                (ProtocolView::MarginFi, RegisteredParser::MarginFi(marginfi::MarginFiEventParser)),
                (ProtocolView::MeteoraDlmm, RegisteredParser::Meteora(meteora::Parser)),
                (ProtocolView::OrcaWhirlpool, RegisteredParser::Orca(orca::Parser)),
                (ProtocolView::PumpSwap, RegisteredParser::PumpSwap(pumpswap::PumpSwapEventParser)),
                (ProtocolView::RaydiumAmmV4, RegisteredParser::RaydiumAmmV4(raydium_amm_v4::Parser)),
                (ProtocolView::RaydiumClmm, RegisteredParser::RaydiumClmm(raydium_clmm::Parser)),
            ],
            r@.programs.len() == 0,
    {
        let mut r = EventParserRegistry::new();
        r.file_protocol(Protocol::Bonk, RegisteredParser::Bonk(bonk::EventParser::new()));
        r.file_protocol(Protocol::Jupiter, RegisteredParser::Jupiter(jupiter::EventParser::new()));
        r.file_protocol(Protocol::MarginFi, RegisteredParser::MarginFi(marginfi::MarginFiEventParser::new()));
        r.file_protocol(Protocol::MeteoraDlmm, RegisteredParser::Meteora(meteora::Parser::new()));
        r.file_protocol(Protocol::OrcaWhirlpool, RegisteredParser::Orca(orca::Parser::new()));
        r.file_protocol(Protocol::PumpSwap, RegisteredParser::PumpSwap(pumpswap::PumpSwapEventParser::new()));
        r.file_protocol(Protocol::RaydiumAmmV4, RegisteredParser::RaydiumAmmV4(raydium_amm_v4::Parser::new()));
        r.file_protocol(Protocol::RaydiumClmm, RegisteredParser::RaydiumClmm(raydium_clmm::Parser::new()));
        r
    }

    fn parse_input(&self, input: &SolanaTransactionInput) -> (r: Vec<SolanaEvent>)
        ensures
            first_found(self.parser_order(), *input, r@),
    {
        let ghost ps = self.parser_order();
        proof {
            assert(ps.skip(0) =~= ps);
        }
        let mut i: usize = 0;
        while i < self.parsers.len()
            invariant
                0 <= i <= self.parsers.len(),
                ps == self.parser_order(),
                ps.len() == self.parsers.len(),
                forall|ev: Seq<SolanaEvent>|
                    #[trigger] first_found(ps.skip(i as int), *input, ev) ==> first_found(ps, *input, ev),
            decreases self.parsers.len() - i,
        {
            let p = &self.parsers[i].1;
            proof {
                assert(ps.skip(i as int)[0] == *p);
                assert(ps.skip(i as int).drop_first() =~= ps.skip(i + 1));
            }
            if p.can_parse(input) {
                let events = p.parse(input);
                if events.len() > 0 {
                    proof {
                        assert(first_found(ps.skip(i as int), *input, events@));
                    }
                    return events;
                }
                proof {
                    assert(events@ =~= Seq::<SolanaEvent>::empty());
                }
            }
            proof {
                assert forall|ev: Seq<SolanaEvent>| #[trigger]
                    first_found(ps.skip(i + 1), *input, ev) implies first_found(ps, *input, ev) by {
                    assert(first_found(ps.skip(i as int), *input, ev));
                }
            }
            i = i + 1;
        }
        let r: Vec<SolanaEvent> = Vec::new();
        proof {
            assert(ps.skip(i as int).len() == 0);
            assert(first_found(ps.skip(i as int), *input, r@));
        }
        r
    }

    /// Hands an instruction to the registered parsers in turn and gives the events of the
    /// first that accepts it and finds any; none where no parser does.
    pub fn parse_events_from_instruction(&self, params: InstructionParseParams) -> (r: Vec<SolanaEvent>)
        ensures
            exists|o: OwnedInstructionParseParams|
                carries_instruction(params, o) && #[trigger] first_found(
                    self.parser_order(),
                    SolanaTransactionInput::Instruction(o),
                    r@,
                ),
    {
        let mut accounts: Vec<Pubkey> = Vec::new();
        let mut i: usize = 0;
        while i < params.accounts.len()
            invariant
                0 <= i <= params.accounts.len(),
                accounts@ == params.accounts@.subrange(0, i as int),
            decreases params.accounts.len() - i,
        {
            accounts.push(params.accounts[i]);
            i = i + 1;
            proof {
                assert(accounts@ =~= params.accounts@.subrange(0, i as int));
            }
        }
        proof {
            assert(params.accounts@.subrange(0, i as int) =~= params.accounts@);
        }
        let data = params.instruction.data.clone();
        proof {
            assert(data@ =~= params.instruction.data@);
        }
        let o = OwnedInstructionParseParams {
            accounts,
            block_time: params.block_time,
            index: params.index,
            instruction_data: data,
            program_received_time_ms: params.program_received_time_ms,
            signature: params.signature.to_owned(),
            slot: params.slot,
        };
        let input = SolanaTransactionInput::Instruction(o);
        let r = self.parse_input(&input);
        proof {
            assert(carries_instruction(params, o));
        }
        r
    }

    /// Hands an inner instruction to the registered parsers in turn and gives the events of
    /// the first that accepts it and finds any; none where no parser does.
    pub fn parse_events_from_inner_instruction(&self, params: InnerInstructionParseParams) -> (r: Vec<SolanaEvent>)
        ensures
            exists|o: OwnedInnerInstructionParseParams|
                carries_inner(params, o) && #[trigger] first_found(
                    self.parser_order(),
                    SolanaTransactionInput::InnerInstruction(o),
                    r@,
                ),
    {
        let o = OwnedInnerInstructionParseParams {
            block_time: params.block_time,
            index: params.index,
            inner_instruction_data: params.inner_instruction.data.clone(),
            program_received_time_ms: params.program_received_time_ms,
            signature: params.signature.to_owned(),
            slot: params.slot,
        };
        let input = SolanaTransactionInput::InnerInstruction(o);
        let r = self.parse_input(&input);
        proof {
            assert(carries_inner(params, o));
        }
        r
    }
}

} // verus!
