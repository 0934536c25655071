use crate::config::IdTable;
use crate::resolution::{entry_position, find_entry_index, looked_up};
use crate::types::{
    component_views, entry_views, ComponentType, InstalledComponent, InstalledComponentView,
    StoreEntry, StoreEntryView,
};
use vstd::prelude::*;

verus! {

/// The components of the kinds that are known from the registry alone, in order.
pub open spec fn registry_part(cs: Seq<InstalledComponentView>) -> Seq<InstalledComponentView>
    decreases cs.len(),
{
    if cs.len() == 0 {
        Seq::empty()
    } else if cs.last().component_type.is_registry_only() {
        registry_part(cs.drop_last()).push(cs.last())
    } else {
        registry_part(cs.drop_last())
    }
}

/// The components of the kinds that keep metadata on disk, in order.
pub open spec fn regular_part(cs: Seq<InstalledComponentView>) -> Seq<InstalledComponentView>
    decreases cs.len(),
{
    if cs.len() == 0 {
        Seq::empty()
    } else if cs.last().component_type.is_registry_only() {
        regular_part(cs.drop_last())
    } else {
        regular_part(cs.drop_last()).push(cs.last())
    }
}

/// Splits the components into those of registry-only kinds and the others.
pub fn partition_components(components: Vec<InstalledComponent>) -> (r: (
    Vec<InstalledComponent>,
    Vec<InstalledComponent>,
))
    ensures
        component_views(r.0@) == registry_part(component_views(components@)),
        component_views(r.1@) == regular_part(component_views(components@)),
{
    let ghost all = component_views(components@);
    let mut registry: Vec<InstalledComponent> = Vec::new();
    let mut regular: Vec<InstalledComponent> = Vec::new();
    let mut i: usize = 0;
    proof {
        assert(all.take(0) =~= Seq::<InstalledComponentView>::empty());
        assert(component_views(registry@) =~= Seq::<InstalledComponentView>::empty());
        assert(component_views(regular@) =~= Seq::<InstalledComponentView>::empty());
    }
    while i < components.len()
        invariant
            i <= components.len(),
            all == component_views(components@),
            component_views(registry@) == registry_part(all.take(i as int)),
            component_views(regular@) == regular_part(all.take(i as int)),
        decreases components.len() - i,
    {
        let ghost reg_before = registry@;
        let ghost other_before = regular@;
        let c = components[i].clone();
        proof {
            assert(all.take(i as int + 1).drop_last() =~= all.take(i as int));
            assert(all.take(i as int + 1).last() == components@[i as int]@);
        }
        if c.component_type.registry_only() {
            registry.push(c);
            proof {
                assert(component_views(registry@) =~= component_views(reg_before).push(c@));
            }
        } else {
            regular.push(c);
            proof {
                assert(component_views(regular@) =~= component_views(other_before).push(c@));
            }
        }
        i += 1;
    }
    proof {
        assert(all.take(i as int) =~= all);
    }
    (registry, regular)
}

/// The catalog id that is known for a component without asking the
/// catalog: the one from the registry, else the one from the fallback table.
pub open spec fn locally_known(
    c: InstalledComponentView,
    table: Map<Seq<char>, u64>,
    cache: Map<Seq<char>, u64>,
) -> Option<u64> {
    if looked_up(cache, c.directory_name) is Some {
        looked_up(cache, c.directory_name)
    } else {
        looked_up(table, c.directory_name)
    }
}

/// Resolves the catalog id of a component from local data alone.
pub fn resolve_id_locally(
    component: &InstalledComponent,
    widgets_id_table: &IdTable,
    registry_id_cache: &IdTable,
) -> (r: Option<u64>)
    ensures
        r == locally_known(component@, widgets_id_table@, registry_id_cache@),
{
    match registry_id_cache.get(component.directory_name.as_str()) {
        Some(id) => Some(id),
        None => widgets_id_table.get(component.directory_name.as_str()),
    }
}

/// The kinds of the components, each once, in the order in which they first occur.
pub open spec fn kinds_of(cs: Seq<InstalledComponentView>) -> Seq<ComponentType>
    decreases cs.len(),
{
    if cs.len() == 0 {
        Seq::empty()
    } else if kinds_of(cs.drop_last()).contains(cs.last().component_type) {
        kinds_of(cs.drop_last())
    } else {
        kinds_of(cs.drop_last()).push(cs.last().component_type)
    }
}

fn has_kind(kinds: &Vec<ComponentType>, kind: ComponentType) -> (r: bool)
    ensures
        r == kinds@.contains(kind),
{
    let mut i: usize = 0;
    while i < kinds.len()
        invariant
            i <= kinds.len(),
            forall|j: int| 0 <= j < i ==> kinds@[j] != kind,
        decreases kinds.len() - i,
    {
        if kinds[i] == kind {
            return true;
        }
        i += 1;
    }
    false
}

/// The distinct kinds of the components.
pub fn distinct_types(components: &Vec<InstalledComponent>) -> (r: Vec<ComponentType>)
    ensures
        r@ == kinds_of(component_views(components@)),
{
    let ghost all = component_views(components@);
    let mut kinds: Vec<ComponentType> = Vec::new();
    let mut i: usize = 0;
    proof {
        assert(all.take(0) =~= Seq::<InstalledComponentView>::empty());
    }
    while i < components.len()
        invariant
            i <= components.len(),
            all == component_views(components@),
            kinds@ == kinds_of(all.take(i as int)),
        decreases components.len() - i,
    {
        proof {
            assert(all.take(i as int + 1).drop_last() =~= all.take(i as int));
            assert(all.take(i as int + 1).last() == components@[i as int]@);
        }
        let kind = components[i].component_type;
        if !has_kind(&kinds, kind) {
            kinds.push(kind);
        }
        i += 1;
    }
    proof {
        assert(all.take(i as int) =~= all);
    }
    kinds
}

/// The catalog ids that are known locally for the components, in order.
pub open spec fn known_ids_of(
    cs: Seq<InstalledComponentView>,
    table: Map<Seq<char>, u64>,
    cache: Map<Seq<char>, u64>,
) -> Seq<u64>
    decreases cs.len(),
{
    if cs.len() == 0 {
        Seq::empty()
    } else {
        match locally_known(cs.last(), table, cache) {
            Some(id) => known_ids_of(cs.drop_last(), table, cache).push(id),
            None => known_ids_of(cs.drop_last(), table, cache),
        }
    }
}

/// The catalog ids that are known locally for the components.
pub fn known_ids(
    components: &Vec<InstalledComponent>,
    widgets_id_table: &IdTable,
    registry_id_cache: &IdTable,
) -> (r: Vec<u64>)
    ensures
        r@ == known_ids_of(component_views(components@), widgets_id_table@, registry_id_cache@),
{
    let ghost all = component_views(components@);
    let mut ids: Vec<u64> = Vec::new();
    let mut i: usize = 0;
    proof {
        assert(all.take(0) =~= Seq::<InstalledComponentView>::empty());
    }
    while i < components.len()
        invariant
            i <= components.len(),
            all == component_views(components@),
            ids@ == known_ids_of(all.take(i as int), widgets_id_table@, registry_id_cache@),
        decreases components.len() - i,
    {
        proof {
            assert(all.take(i as int + 1).drop_last() =~= all.take(i as int));
            assert(all.take(i as int + 1).last() == components@[i as int]@);
        }
        match resolve_id_locally(&components[i], widgets_id_table, registry_id_cache) {
            Some(id) => {
                ids.push(id);
            },
            None => {},
        }
        i += 1;
    }
    proof {
        assert(all.take(i as int) =~= all);
    }
    ids
}

/// Whether one of the catalog entries has the id.
pub open spec fn has_id(entries: Seq<StoreEntryView>, id: u64) -> bool {
    entry_position(entries, id) < entries.len()
}

/// The ids to ask the catalog for one by one: those among `ids` that no
/// fetched entry has, each once, in the order in which they first occur.
pub open spec fn missing_from(ids: Seq<u64>, entries: Seq<StoreEntryView>) -> Seq<u64>
    decreases ids.len(),
{
    if ids.len() == 0 {
        Seq::empty()
    } else if has_id(entries, ids.last()) || missing_from(ids.drop_last(), entries).contains(
        ids.last(),
    ) {
        missing_from(ids.drop_last(), entries)
    } else {
        missing_from(ids.drop_last(), entries).push(ids.last())
    }
}

fn has_number(ids: &Vec<u64>, id: u64) -> (r: bool)
    ensures
        r == ids@.contains(id),
{
    let mut i: usize = 0;
    while i < ids.len()
        invariant
            i <= ids.len(),
            forall|j: int| 0 <= j < i ==> ids@[j] != id,
        decreases ids.len() - i,
    {
        if ids[i] == id {
            return true;
        }
        i += 1;
    }
    false
}

/// The ids to ask the catalog for one by one, given what its pages returned.
pub fn missing_ids(known: &Vec<u64>, catalog: &Vec<StoreEntry>) -> (r: Vec<u64>)
    ensures
        r@ == missing_from(known@, entry_views(catalog@)),
{
    let mut missing: Vec<u64> = Vec::new();
    let mut i: usize = 0;
    proof {
        assert(known@.take(0) =~= Seq::<u64>::empty());
    }
    while i < known.len()
        invariant
            i <= known.len(),
            missing@ == missing_from(known@.take(i as int), entry_views(catalog@)),
        decreases known.len() - i,
    {
        proof {
            assert(known@.take(i as int + 1).drop_last() =~= known@.take(i as int));
            assert(known@.take(i as int + 1).last() == known@[i as int]);
        }
        let id = known[i];
        let present = find_entry_index(catalog, id).is_some();
        if !present && !has_number(&missing, id) {
            missing.push(id);
        }
        i += 1;
    }
    proof {
        assert(known@.take(i as int) =~= known@);
    }
    missing
}

/// No id that is asked for one by one is on a fetched page, none is asked
/// for twice, and every given id that no fetched entry has is asked for.
pub proof fn targeted_ids_are_the_missing_ones(ids: Seq<u64>, entries: Seq<StoreEntryView>)
    ensures
        forall|k: int|
            0 <= k < missing_from(ids, entries).len() ==> !has_id(
                entries,
                #[trigger] missing_from(ids, entries)[k],
            ),
        forall|k: int, l: int|
            0 <= k < l < missing_from(ids, entries).len() ==> missing_from(ids, entries)[k]
                != missing_from(ids, entries)[l],
        forall|k: int|
            0 <= k < ids.len() && !has_id(entries, #[trigger] ids[k]) ==> missing_from(
                ids,
                entries,
            ).contains(ids[k]),
        forall|k: int|
            0 <= k < missing_from(ids, entries).len() ==> ids.contains(
                #[trigger] missing_from(ids, entries)[k],
            ),
    decreases ids.len(),
{
    if ids.len() > 0 {
        let before = missing_from(ids.drop_last(), entries);
        let now = missing_from(ids, entries);
        targeted_ids_are_the_missing_ones(ids.drop_last(), entries);
        assert forall|k: int| 0 <= k < ids.len() && !has_id(entries, #[trigger] ids[k]) implies now.contains(
            ids[k],
        ) by {
            if k < ids.len() - 1 {
                assert(ids.drop_last()[k] == ids[k]);
                let w = choose|w: int| 0 <= w < before.len() && before[w] == ids[k];
                assert(now[w] == ids[k]);
            } else {
                if before.contains(ids.last()) {
                    let w = choose|w: int| 0 <= w < before.len() && before[w] == ids.last();
                    assert(now[w] == ids[k]);
                } else {
                    assert(now[now.len() - 1] == ids[k]);
                }
            }
        }
        assert forall|k: int| 0 <= k < now.len() implies ids.contains(#[trigger] now[k]) by {
            if k < before.len() {
                let w = choose|w: int|
                    0 <= w < ids.drop_last().len() && ids.drop_last()[w] == before[k];
                assert(ids[w] == now[k]);
            } else {
                assert(ids[ids.len() - 1] == now[k]);
            }
        }
    }
}

/// What to ask the catalog for before the components can be evaluated.
#[derive(Debug)]
pub struct FetchPlan {
    /// The kinds whose catalog pages are fetched.
    pub types: Vec<ComponentType>,
    /// The catalog ids that are known without asking.
    pub known_ids: Vec<u64>,
}

/// Plans the requests for a run of components that keep metadata on disk:
/// the pages of every kind among them, whether or not their ids are known.
pub fn plan_fetch(
    regular_components: &Vec<InstalledComponent>,
    widgets_id_table: &IdTable,
    registry_id_cache: &IdTable,
) -> (r: FetchPlan)
    ensures
        r.types@ == kinds_of(component_views(regular_components@)),
        r.known_ids@ == known_ids_of(
            component_views(regular_components@),
            widgets_id_table@,
            registry_id_cache@,
        ),
{
    FetchPlan {
        types: distinct_types(regular_components),
        known_ids: known_ids(regular_components, widgets_id_table, registry_id_cache),
    }
}

/// The entries that the pages returned, followed by those that were
/// fetched one by one.
pub fn merge_entries(catalog: Vec<StoreEntry>, targeted: Vec<StoreEntry>) -> (r: Vec<StoreEntry>)
    ensures
        r@ == catalog@ + targeted@,
{
    let mut all = catalog;
    let mut rest = targeted;
    all.append(&mut rest);
    all
}

/// The total number of pages of a catalog with `total_items` entries.
pub open spec fn page_count(total_items: u32, page_size: u8) -> nat {
    if page_size == 0 {
        0
    } else {
        ((total_items + page_size - 1) / (page_size as int)) as nat
    }
}

/// The pages that remain to be fetched after the first: none where the
/// first page holds everything or pages hold nothing, else the pages from 1
/// to the last.
pub open spec fn remaining_pages_of(total_items: u32, page_size: u8) -> Seq<u32> {
    if total_items <= page_size || page_size == 0 {
        Seq::empty()
    } else {
        Seq::new((page_count(total_items, page_size) - 1) as nat, |i: int| (i + 1) as u32)
    }
}

/// The pages that remain to be fetched after the first.
pub fn remaining_pages(total_items: u32, page_size: u8) -> (r: Vec<u32>)
    ensures
        r@ == remaining_pages_of(total_items, page_size),
{
    let mut pages: Vec<u32> = Vec::new();
    if total_items <= page_size as u32 || page_size == 0 {
        return pages;
    }
    let size: u32 = page_size as u32;
    let whole: u32 = total_items / size;
    let rest: u32 = total_items % size;
    proof {
        assert(rest != 0 ==> whole < u32::MAX) by (nonlinear_arith)
            requires
                size > 0,
                whole == total_items / size,
                rest == total_items % size,
                total_items <= u32::MAX,
        {
            if size == 1 {
                assert(total_items % 1 == 0);
            } else {
                assert(total_items / size <= total_items / 2);
            }
        }
    }
    proof {
        assert(whole >= 1) by (nonlinear_arith)
            requires
                size > 0,
                total_items > size,
                whole == total_items / size,
        ;
    }
    let total_pages: u32 = whole + (if rest == 0 {
        0
    } else {
        1
    });
    proof {
        assert(total_pages == page_count(total_items, page_size)) by (nonlinear_arith)
            requires
                size == page_size,
                size > 0,
                total_pages == total_items / size + (if total_items % size == 0 {
                    0int
                } else {
                    1int
                }),
        ;
    }
    let mut page: u32 = 1;
    while page < total_pages
        invariant
            1 <= page <= total_pages,
            pages@.len() == page - 1,
            forall|i: int| 0 <= i < pages@.len() ==> pages@[i] == i + 1,
        decreases total_pages - page,
    {
        pages.push(page);
        page += 1;
    }
    proof {
        assert(pages@ =~= remaining_pages_of(total_items, page_size));
    }
    pages
}

} // verus!
