use vstd::prelude::*;
use vstd::string::*;

use crate::factory::{ConfigView, EventParseConfig};
use crate::registry::keys_distinct;
use crate::types::{ProtocolType, Pubkey};

verus! {

/// The groups after one more entry: an item under a key that already has a group joins the
/// end of it, otherwise the key starts a new group at the end.
pub open spec fn group_in<K, C>(prev: Seq<(K, Seq<C>)>, k: K, c: C) -> Seq<(K, Seq<C>)> {
    if exists|i: int| 0 <= i < prev.len() && #[trigger] prev[i].0 == k {
        let i = choose|i: int| 0 <= i < prev.len() && #[trigger] prev[i].0 == k;
        prev.update(i, (k, prev[i].1.push(c)))
    } else {
        prev.push((k, seq![c]))
    }
}

/// `entries`, each a key and an item, gathered by key: the keys in the order of their first
/// entry, and under each key its items in order.
pub open spec fn grouped<K, C>(entries: Seq<(K, C)>) -> Seq<(K, Seq<C>)>
    decreases entries.len(),
{
    if entries.len() == 0 {
        Seq::empty()
    } else {
        group_in(grouped(entries.drop_last()), entries.last().0, entries.last().1)
    }
}

proof fn lemma_group_in_distinct<K, C>(prev: Seq<(K, Seq<C>)>, k: K, c: C)
    requires
        keys_distinct(prev),
    ensures
        keys_distinct(group_in(prev, k, c)),
{
    let t = group_in(prev, k, c);
    if exists|i: int| 0 <= i < prev.len() && #[trigger] prev[i].0 == k {
        let m = choose|i: int| 0 <= i < prev.len() && #[trigger] prev[i].0 == k;
        assert forall|i: int, j: int|
            0 <= i < t.len() && 0 <= j < t.len() && i != j implies #[trigger] t[i].0 != #[trigger] t[j].0 by {
            if i == m {
                assert(prev[j].0 != prev[m].0);
            } else if j == m {
                assert(prev[i].0 != prev[m].0);
            } else {
                assert(prev[i].0 != prev[j].0);
            }
        }
    } else {
        assert forall|i: int, j: int|
            0 <= i < t.len() && 0 <= j < t.len() && i != j implies #[trigger] t[i].0 != #[trigger] t[j].0 by {
            if i == prev.len() {
                assert(prev[j].0 != k);
            } else if j == prev.len() {
                assert(prev[i].0 != k);
            } else {
                assert(prev[i].0 != prev[j].0);
            }
        }
    }
}

/// Grouping never files two groups under one key.
pub proof fn grouped_keys_distinct<K, C>(entries: Seq<(K, C)>)
    ensures
        keys_distinct(grouped(entries)),
    decreases entries.len(),
{
    if entries.len() > 0 {
        grouped_keys_distinct(entries.drop_last());
        lemma_group_in_distinct(grouped(entries.drop_last()), entries.last().0, entries.last().1);
    }
}

/// The items of `entries` filed under `k`, in order.
pub open spec fn items_under<K, C>(entries: Seq<(K, C)>, k: K) -> Seq<C>
    decreases entries.len(),
{
    if entries.len() == 0 {
        Seq::empty()
    } else if entries.last().0 == k {
        items_under(entries.drop_last(), k).push(entries.last().1)
    } else {
        items_under(entries.drop_last(), k)
    }
}

/// Grouping loses and invents nothing: a key has a group exactly when some entry is filed under
/// it, and its group holds the items filed under it, in order.
pub proof fn grouped_holds_items_under_each_key<K, C>(entries: Seq<(K, C)>, k: K)
    ensures
        (exists|i: int| 0 <= i < grouped(entries).len() && #[trigger] grouped(entries)[i].0 == k)
            <==> items_under(entries, k).len() > 0,
        forall|i: int|
            0 <= i < grouped(entries).len() && #[trigger] grouped(entries)[i].0 == k
                ==> grouped(entries)[i].1 == items_under(entries, k),
    decreases entries.len(),
{
    if entries.len() > 0 {
        let d = entries.drop_last();
        let k0 = entries.last().0;
        let c0 = entries.last().1;
        let p = grouped(d);
        let g = grouped(entries);
        grouped_holds_items_under_each_key(d, k);
        grouped_holds_items_under_each_key(d, k0);
        grouped_keys_distinct(d);
        assert(g == group_in(p, k0, c0));
        if exists|i: int| 0 <= i < p.len() && #[trigger] p[i].0 == k0 {
            let m = choose|i: int| 0 <= i < p.len() && #[trigger] p[i].0 == k0;
            assert(g == p.update(m, (k0, p[m].1.push(c0))));
            assert forall|i: int| 0 <= i < g.len() && #[trigger] g[i].0 == k implies g[i].1 == items_under(entries, k) by {
                if i != m {
                    assert(p[i].0 != p[m].0);
                    assert(g[i] == p[i]);
                }
            }
            if k == k0 {
                assert(g[m].0 == k);
            } else if items_under(d, k).len() > 0 {
                let j = choose|i: int| 0 <= i < p.len() && #[trigger] p[i].0 == k;
                assert(g[j].0 == k);
            } else {
                assert forall|i: int| 0 <= i < g.len() implies #[trigger] g[i].0 != k by {
                    if i != m {
                        assert(g[i] == p[i]);
                    }
                }
            }
        } else {
            assert(g == p.push((k0, seq![c0])));
            assert(items_under(d, k0).len() == 0);
            assert(items_under(d, k0).push(c0) =~= seq![c0]);
            assert forall|i: int| 0 <= i < g.len() && #[trigger] g[i].0 == k implies g[i].1 == items_under(entries, k) by {
                if i < p.len() {
                    assert(g[i] == p[i]);
                }
            }
            if k == k0 {
                assert(g[p.len() as int].0 == k);
            } else if items_under(d, k).len() > 0 {
                let j = choose|i: int| 0 <= i < p.len() && #[trigger] p[i].0 == k;
                assert(g[j].0 == k);
            } else {
                assert forall|i: int| 0 <= i < g.len() implies #[trigger] g[i].0 != k by {
                    if i < p.len() {
                        assert(g[i] == p[i]);
                    }
                }
            }
        }
    }
}

/// The entries of a configuration list, each under its log name.
pub open spec fn by_inner_key<D>(configs: Seq<ConfigView<D>>) -> Seq<(Seq<char>, ConfigView<D>)> {
    configs.map_values(|c: ConfigView<D>| (c.inner_key, c))
}

/// The entries of a configuration list, each under its instruction discriminator.
pub open spec fn by_instruction_key<D>(configs: Seq<ConfigView<D>>) -> Seq<(Seq<u8>, ConfigView<D>)> {
    configs.map_values(|c: ConfigView<D>| (c.instruction_key, c))
}

/// The mathematical form of a table keyed by log name.
pub open spec fn inner_table_view<D>(
    t: Seq<(&'static str, Vec<EventParseConfig<D>>)>,
) -> Seq<(Seq<char>, Seq<ConfigView<D>>)> {
    t.map_values(
        |e: (&'static str, Vec<EventParseConfig<D>>)|
            (e.0@, e.1@.map_values(|c: EventParseConfig<D>| c@)),
    )
}

/// The mathematical form of a table keyed by instruction discriminator.
pub open spec fn instruction_table_view<D>(
    t: Seq<(Vec<u8>, Vec<EventParseConfig<D>>)>,
) -> Seq<(Seq<u8>, Seq<ConfigView<D>>)> {
    t.map_values(
        |e: (Vec<u8>, Vec<EventParseConfig<D>>)| (e.0@, e.1@.map_values(|c: EventParseConfig<D>| c@)),
    )
}

fn same_str(a: &str, b: &str) -> (r: bool)
    ensures
        r == (a@ == b@),
{
    let x = String::from_str(a);
    let y = String::from_str(b);
    x == y
}

fn same_bytes(a: &[u8], b: &[u8]) -> (r: bool)
    ensures
        r == (a@ == b@),
{
    if a.len() != b.len() {
        return false;
    }
    let mut i: usize = 0;
    while i < a.len()
        invariant
            0 <= i <= a.len(),
            a@.len() == b@.len(),
            forall|j: int| 0 <= j < i ==> a@[j] == b@[j],
        decreases a.len() - i,
    {
        if a[i] != b[i] {
            return false;
        }
        i = i + 1;
    }
    proof {
        assert(a@ =~= b@);
    }
    true
}

fn copy_protocol_type(t: &ProtocolType) -> (r: ProtocolType)
    ensures
        r == *t,
{
    match t {
        ProtocolType::OrcaWhirlpool => ProtocolType::OrcaWhirlpool,
        ProtocolType::MeteoraDlmm => ProtocolType::MeteoraDlmm,
        ProtocolType::MarginFi => ProtocolType::MarginFi,
        ProtocolType::Bonk => ProtocolType::Bonk,
        ProtocolType::PumpSwap => ProtocolType::PumpSwap,
        ProtocolType::RaydiumAmm => ProtocolType::RaydiumAmm,
        ProtocolType::RaydiumAmmV4 => ProtocolType::RaydiumAmmV4,
        ProtocolType::RaydiumClmm => ProtocolType::RaydiumClmm,
        ProtocolType::RaydiumCpmm => ProtocolType::RaydiumCpmm,
        ProtocolType::Raydium => ProtocolType::Raydium,
        ProtocolType::Jupiter => ProtocolType::Jupiter,
        ProtocolType::Serum => ProtocolType::Serum,
        ProtocolType::Other(name) => ProtocolType::Other(name.clone()),
    }
}

/// A copy of a table entry.
fn copy_config<D: Copy>(c: &EventParseConfig<D>) -> (r: EventParseConfig<D>)
    ensures
        r@ == c@,
{
    let key = crate::borsh_records::copy_range(
        c.instruction_discriminator.as_slice(),
        0,
        c.instruction_discriminator.len(),
    );
    proof {
        assert(key@ =~= c.instruction_discriminator@);
    }
    EventParseConfig {
        decoder: c.decoder,
        event_type: c.event_type,
        inner_instruction_discriminator: c.inner_instruction_discriminator,
        instruction_discriminator: key,
        program_id: c.program_id,
        protocol_type: copy_protocol_type(&c.protocol_type),
    }
}

fn file_by_inner_key<D: Copy>(table: &mut Vec<(&'static str, Vec<EventParseConfig<D>>)>, c: &EventParseConfig<D>)
    requires
        keys_distinct(inner_table_view(old(table)@)),
    ensures
        inner_table_view(final(table)@) == group_in(inner_table_view(old(table)@), c@.inner_key, c@),
{
    let ghost prev = inner_table_view(old(table)@);
    let key = c.inner_instruction_discriminator;
    let mut j: usize = 0;
    while j < table.len()
        invariant
            0 <= j <= table.len(),
            table@ == old(table)@,
            prev == inner_table_view(table@),
            keys_distinct(prev),
            key@ == c@.inner_key,
            forall|i: int| 0 <= i < j ==> #[trigger] prev[i].0 != key@,
        decreases table.len() - j,
    {
        if same_str(table[j].0, key) {
            proof {
                assert(prev[j as int].0 == key@);
                let m = choose|i: int| 0 <= i < prev.len() && #[trigger] prev[i].0 == key@;
                assert(prev[m].0 == key@);
            }
            let ghost before = table@;
            let (k, mut group) = table.remove(j);
            let ghost g_old = group@;
            let item = copy_config(c);
            let ghost item_v = item;
            group.push(item);
            let ghost g_new = group@;
            table.insert(j, (k, group));
            proof {
                let t2 = inner_table_view(table@);
                let g = group_in(prev, key@, c@);
                let m = choose|i: int| 0 <= i < prev.len() && #[trigger] prev[i].0 == key@;
                if m != j {
                    assert(prev[m].0 != prev[j as int].0);
                }
                assert(table@[j as int].1@ == g_new);
                assert(g_new =~= g_old.push(item_v));
                assert(t2[j as int].1 =~= prev[j as int].1.push(c@));
                assert forall|i: int| 0 <= i < t2.len() && i != j implies t2[i] == g[i] by {
                    assert(table@[i] == before[i]);
                }
                assert(t2 =~= g);
            }
            return;
        }
        j = j + 1;
    }
    let ghost before = table@;
    let mut group: Vec<EventParseConfig<D>> = Vec::new();
    let item = copy_config(c);
    let ghost item_v = item;
    group.push(item);
    let ghost g_new = group@;
    table.push((key, group));
    proof {
        assert(!(exists|i: int| 0 <= i < prev.len() && #[trigger] prev[i].0 == key@));
        assert(table@ =~= before.push(table@.last()));
        assert(g_new =~= seq![item_v]);
        assert(inner_table_view(table@).last().1 =~= seq![c@]);
        assert(inner_table_view(table@) =~= group_in(prev, c@.inner_key, c@));
    }
}

fn file_by_instruction_key<D: Copy>(table: &mut Vec<(Vec<u8>, Vec<EventParseConfig<D>>)>, c: &EventParseConfig<D>)
    requires
        keys_distinct(instruction_table_view(old(table)@)),
    ensures
        instruction_table_view(final(table)@) == group_in(
            instruction_table_view(old(table)@),
            c@.instruction_key,
            c@,
        ),
{
    let ghost prev = instruction_table_view(old(table)@);
    let mut j: usize = 0;
    while j < table.len()
        invariant
            0 <= j <= table.len(),
            table@ == old(table)@,
            prev == instruction_table_view(table@),
            keys_distinct(prev),
            forall|i: int| 0 <= i < j ==> #[trigger] prev[i].0 != c@.instruction_key,
        decreases table.len() - j,
    {
        if same_bytes(table[j].0.as_slice(), c.instruction_discriminator.as_slice()) {
            proof {
                assert(prev[j as int].0 == c@.instruction_key);
                let m = choose|i: int| 0 <= i < prev.len() && #[trigger] prev[i].0 == c@.instruction_key;
                assert(prev[m].0 == c@.instruction_key);
            }
            let ghost before = table@;
            let (k, mut group) = table.remove(j);
            let ghost g_old = group@;
            let item = copy_config(c);
            let ghost item_v = item;
            group.push(item);
            let ghost g_new = group@;
            table.insert(j, (k, group));
            proof {
                let t2 = instruction_table_view(table@);
                let g = group_in(prev, c@.instruction_key, c@);
                let m = choose|i: int| 0 <= i < prev.len() && #[trigger] prev[i].0 == c@.instruction_key;
                if m != j {
                    assert(prev[m].0 != prev[j as int].0);
                }
                assert(table@[j as int].1@ == g_new);
                assert(g_new =~= g_old.push(item_v));
                assert(t2[j as int].1 =~= prev[j as int].1.push(c@));
                assert forall|i: int| 0 <= i < t2.len() && i != j implies t2[i] == g[i] by {
                    assert(table@[i] == before[i]);
                }
                assert(t2 =~= g);
            }
            return;
        }
        j = j + 1;
    }
    let key = crate::borsh_records::copy_range(
        c.instruction_discriminator.as_slice(),
        0,
        c.instruction_discriminator.len(),
    );
    let ghost before = table@;
    let mut group: Vec<EventParseConfig<D>> = Vec::new();
    let item = copy_config(c);
    let ghost item_v = item;
    group.push(item);
    let ghost g_new = group@;
    table.push((key, group));
    proof {
        assert(key@ =~= c@.instruction_key);
        assert(table@ =~= before.push(table@.last()));
        assert(g_new =~= seq![item_v]);
        assert(instruction_table_view(table@).last().1 =~= seq![c@]);
        assert(!(exists|i: int| 0 <= i < prev.len() && #[trigger] prev[i].0 == c@.instruction_key));
        assert(instruction_table_view(table@) =~= group_in(prev, c@.instruction_key, c@));
    }
}

/// A parser made of a list of table entries: the entries gathered by log name and by
/// instruction discriminator, and the program ids it handles.
pub struct GenericEventParser<D> {
    pub inner_instruction_configs: Vec<(&'static str, Vec<EventParseConfig<D>>)>,
    pub instruction_configs: Vec<(Vec<u8>, Vec<EventParseConfig<D>>)>,
    pub program_ids: Vec<Pubkey>,
}

impl<D: Copy> GenericEventParser<D> {
    /// A parser for `program_ids` whose tables gather `configs` by key, keys in the order of
    /// their first entry and the entries under each key in order.
    pub fn new(program_ids: Vec<Pubkey>, configs: Vec<EventParseConfig<D>>) -> (r: GenericEventParser<D>)
        ensures
            inner_table_view(r.inner_instruction_configs@) == grouped(
                by_inner_key(configs@.map_values(|c: EventParseConfig<D>| c@)),
            ),
            instruction_table_view(r.instruction_configs@) == grouped(
                by_instruction_key(configs@.map_values(|c: EventParseConfig<D>| c@)),
            ),
            r.program_ids@ == program_ids@,
    {
        let ghost views = configs@.map_values(|c: EventParseConfig<D>| c@);
        let ghost inner_entries = by_inner_key(views);
        let ghost ix_entries = by_instruction_key(views);
        let mut inner: Vec<(&'static str, Vec<EventParseConfig<D>>)> = Vec::new();
        let mut ix: Vec<(Vec<u8>, Vec<EventParseConfig<D>>)> = Vec::new();
        let mut i: usize = 0;
        proof {
            assert(inner_entries.take(0) =~= Seq::<(Seq<char>, ConfigView<D>)>::empty());
            assert(ix_entries.take(0) =~= Seq::<(Seq<u8>, ConfigView<D>)>::empty());
            assert(inner_table_view(inner@) =~= Seq::<(Seq<char>, Seq<ConfigView<D>>)>::empty());
            assert(instruction_table_view(ix@) =~= Seq::<(Seq<u8>, Seq<ConfigView<D>>)>::empty());
        }
        while i < configs.len()
            invariant
                0 <= i <= configs.len(),
                views == configs@.map_values(|c: EventParseConfig<D>| c@),
                inner_entries == by_inner_key(views),
                ix_entries == by_instruction_key(views),
                inner_table_view(inner@) == grouped(inner_entries.take(i as int)),
                instruction_table_view(ix@) == grouped(ix_entries.take(i as int)),
            decreases configs.len() - i,
        {
            proof {
                grouped_keys_distinct(inner_entries.take(i as int));
                grouped_keys_distinct(ix_entries.take(i as int));
                assert(inner_entries.take(i + 1).drop_last() =~= inner_entries.take(i as int));
                assert(ix_entries.take(i + 1).drop_last() =~= ix_entries.take(i as int));
            }
            file_by_inner_key(&mut inner, &configs[i]);
            file_by_instruction_key(&mut ix, &configs[i]);
            i = i + 1;
        }
        proof {
            assert(inner_entries.take(i as int) =~= inner_entries);
            assert(ix_entries.take(i as int) =~= ix_entries);
        }
        GenericEventParser { inner_instruction_configs: inner, instruction_configs: ix, program_ids }
    }

    /// The table keyed by log name.
    pub fn inner_instruction_configs(&self) -> (r: &Vec<(&'static str, Vec<EventParseConfig<D>>)>)
        ensures
            r@ == self.inner_instruction_configs@,
    {
        &self.inner_instruction_configs
    }

    /// The table keyed by instruction discriminator.
    pub fn instruction_configs(&self) -> (r: &Vec<(Vec<u8>, Vec<EventParseConfig<D>>)>)
        ensures
            r@ == self.instruction_configs@,
    {
        &self.instruction_configs
    }

    /// Whether `program_id` is one of the parser's program ids.
    pub fn should_handle(&self, program_id: &Pubkey) -> (r: bool)
        ensures
            r == exists|i: int| 0 <= i < self.program_ids@.len() && (#[trigger] self.program_ids@[i])@ == program_id@,
    {
        let mut i: usize = 0;
        while i < self.program_ids.len()
            invariant
                0 <= i <= self.program_ids.len(),
                forall|j: int| 0 <= j < i ==> (#[trigger] self.program_ids@[j])@ != program_id@,
            decreases self.program_ids.len() - i,
        {
            if self.program_ids[i] == *program_id {
                return true;
            }
            i = i + 1;
        }
        false
    }

    /// The parser's program ids, in order.
    pub fn supported_program_ids(&self) -> (r: Vec<Pubkey>)
        ensures
            r@ == self.program_ids@,
    {
        let mut r: Vec<Pubkey> = Vec::new();
        let mut i: usize = 0;
        while i < self.program_ids.len()
            invariant
                0 <= i <= self.program_ids.len(),
                r@ == self.program_ids@.take(i as int),
            decreases self.program_ids.len() - i,
        {
            r.push(self.program_ids[i]);
            i = i + 1;
            proof {
                assert(r@ =~= self.program_ids@.take(i as int));
            }
        }
        proof {
            assert(self.program_ids@.take(i as int) =~= self.program_ids@);
        }
        r
    }
}

} // verus!
