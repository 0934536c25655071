use crate::evaluation::{
    check_result, checked, entry_for, evaluated, fetched_for, no_findings, registry_checked,
    resolved_names, with_outcome, with_regular, with_registry, with_resolved, with_unresolved,
    CheckOutcome,
};
use crate::resolution::{entry_position, entry_position_is_first, resolved_id};
use crate::store::{has_id, regular_part, registry_part};
use crate::types::{
    AvailableUpdateView, CheckResultView, InstalledComponentView, StoreEntryView,
};
use crate::version::update_available;
use vstd::prelude::*;

verus! {

/// Whether an entry is one of those that were fetched: from a page, or one by one.
pub open spec fn is_fetched(
    e: StoreEntryView,
    entries: Seq<StoreEntryView>,
    fetched: Seq<(u64, StoreEntryView)>,
) -> bool {
    entries.contains(e) || exists|k: int| 0 <= k < fetched.len() && (#[trigger] fetched[k]).1 == e
}

/// Whether an update is the one that the entry `e` offers for the
/// component `c`: it carries the component and the entry's version and
/// date, and the update predicate holds of the two.
pub open spec fn backs(c: InstalledComponentView, e: StoreEntryView, u: AvailableUpdateView) -> bool {
    u.installed == c && u.latest_version == e.version && u.release_date == e.changed_date
        && update_available(c.version, e.version, c.release_date, e.changed_date)
}

/// Whether an update is backed by one of the components and one of the
/// fetched entries.
pub open spec fn justified(
    u: AvailableUpdateView,
    cs: Seq<InstalledComponentView>,
    entries: Seq<StoreEntryView>,
    fetched: Seq<(u64, StoreEntryView)>,
) -> bool {
    exists|c: InstalledComponentView, e: StoreEntryView|
        cs.contains(c) && is_fetched(e, entries, fetched) && #[trigger] backs(c, e, u)
}

/// Whether every update of a run is justified.
pub open spec fn all_justified(
    us: Seq<AvailableUpdateView>,
    cs: Seq<InstalledComponentView>,
    entries: Seq<StoreEntryView>,
    fetched: Seq<(u64, StoreEntryView)>,
) -> bool {
    forall|i: int| 0 <= i < us.len() ==> justified(#[trigger] us[i], cs, entries, fetched)
}

proof fn fetched_for_is_fetched(fetched: Seq<(u64, StoreEntryView)>, id: u64)
    ensures
        fetched_for(fetched, id) matches Some(e) ==> exists|k: int|
            0 <= k < fetched.len() && (#[trigger] fetched[k]).1 == e,
    decreases fetched.len(),
{
    if fetched.len() > 0 {
        if fetched.last().0 == id {
            assert(fetched[fetched.len() - 1].1 == fetched.last().1);
        } else {
            fetched_for_is_fetched(fetched.drop_last(), id);
            if fetched_for(fetched, id) is Some {
                let e = fetched_for(fetched, id)->0;
                let k = choose|k: int|
                    0 <= k < fetched.drop_last().len() && (#[trigger] fetched.drop_last()[k]).1
                        == e;
                assert(fetched[k].1 == e);
            }
        }
    }
}

proof fn regular_step_justified(
    c: InstalledComponentView,
    cs: Seq<InstalledComponentView>,
    entries: Seq<StoreEntryView>,
    fetched: Seq<(u64, StoreEntryView)>,
    table: Map<Seq<char>, u64>,
    cache: Map<Seq<char>, u64>,
)
    requires
        cs.contains(c),
    ensures
        checked(c, entries, table, cache) matches CheckOutcome::Update(u) ==> justified(
            u,
            cs,
            entries,
            fetched,
        ),
        registry_checked(c, entries, fetched, table, cache) matches CheckOutcome::Update(u)
            ==> justified(u, cs, entries, fetched),
{
    match resolved_id(c, entries, table, cache) {
        Some(id) => {
            entry_position_is_first(entries, id);
            if has_id(entries, id) {
                let e = entries[entry_position(entries, id)];
                assert(entries.contains(e));
                if evaluated(c, e, id) is Update {
                    assert(backs(c, e, evaluated(c, e, id)->Update_0));
                }
            } else {
                fetched_for_is_fetched(fetched, id);
                if fetched_for(fetched, id) is Some {
                    let e = fetched_for(fetched, id)->0;
                    if evaluated(c, e, id) is Update {
                        assert(backs(c, e, evaluated(c, e, id)->Update_0));
                    }
                }
            }
        },
        None => {},
    }
}

proof fn justified_grows(
    u: AvailableUpdateView,
    cs: Seq<InstalledComponentView>,
    more: Seq<InstalledComponentView>,
    entries: Seq<StoreEntryView>,
    fetched: Seq<(u64, StoreEntryView)>,
)
    requires
        justified(u, cs, entries, fetched),
        forall|c: InstalledComponentView| cs.contains(c) ==> more.contains(c),
    ensures
        justified(u, more, entries, fetched),
{
    let (c, e) = choose|c: InstalledComponentView, e: StoreEntryView|
        cs.contains(c) && is_fetched(e, entries, fetched) && #[trigger] backs(c, e, u);
    assert(more.contains(c) && is_fetched(e, entries, fetched) && backs(c, e, u));
}

proof fn regular_updates_justified(
    r: CheckResultView,
    part: Seq<InstalledComponentView>,
    cs: Seq<InstalledComponentView>,
    entries: Seq<StoreEntryView>,
    fetched: Seq<(u64, StoreEntryView)>,
    table: Map<Seq<char>, u64>,
    cache: Map<Seq<char>, u64>,
)
    requires
        all_justified(r.updates, cs, entries, fetched),
        forall|i: int| 0 <= i < part.len() ==> cs.contains(#[trigger] part[i]),
    ensures
        all_justified(with_regular(r, part, entries, table, cache).updates, cs, entries, fetched),
    decreases part.len(),
{
    if part.len() > 0 {
        assert forall|i: int| 0 <= i < part.drop_last().len() implies cs.contains(
            #[trigger] part.drop_last()[i],
        ) by {
            assert(part.drop_last()[i] == part[i]);
        }
        regular_updates_justified(r, part.drop_last(), cs, entries, fetched, table, cache);
        assert(cs.contains(part[part.len() - 1]));
        regular_step_justified(part.last(), cs, entries, fetched, table, cache);
    }
}

proof fn resolved_updates_justified(
    r: CheckResultView,
    part: Seq<InstalledComponentView>,
    cs: Seq<InstalledComponentView>,
    entries: Seq<StoreEntryView>,
    fetched: Seq<(u64, StoreEntryView)>,
    table: Map<Seq<char>, u64>,
    cache: Map<Seq<char>, u64>,
)
    requires
        all_justified(r.updates, cs, entries, fetched),
        forall|i: int| 0 <= i < part.len() ==> cs.contains(#[trigger] part[i]),
    ensures
        all_justified(
            with_resolved(r, part, entries, fetched, table, cache).updates,
            cs,
            entries,
            fetched,
        ),
    decreases part.len(),
{
    if part.len() > 0 {
        assert forall|i: int| 0 <= i < part.drop_last().len() implies cs.contains(
            #[trigger] part.drop_last()[i],
        ) by {
            assert(part.drop_last()[i] == part[i]);
        }
        resolved_updates_justified(r, part.drop_last(), cs, entries, fetched, table, cache);
        assert(cs.contains(part[part.len() - 1]));
        regular_step_justified(part.last(), cs, entries, fetched, table, cache);
    }
}

proof fn unresolved_keeps_updates(
    r: CheckResultView,
    part: Seq<InstalledComponentView>,
    names: Seq<Seq<char>>,
)
    ensures
        with_unresolved(r, part, names).updates == r.updates,
    decreases part.len(),
{
    if part.len() > 0 {
        unresolved_keeps_updates(r, part.drop_last(), names);
    }
}

proof fn parts_are_within(cs: Seq<InstalledComponentView>)
    ensures
        forall|i: int| 0 <= i < regular_part(cs).len() ==> cs.contains(#[trigger] regular_part(cs)[i]),
        forall|i: int|
            0 <= i < registry_part(cs).len() ==> cs.contains(#[trigger] registry_part(cs)[i]),
    decreases cs.len(),
{
    if cs.len() > 0 {
        parts_are_within(cs.drop_last());
        assert forall|i: int| 0 <= i < regular_part(cs).len() implies cs.contains(
            #[trigger] regular_part(cs)[i],
        ) by {
            if i < regular_part(cs.drop_last()).len() {
                let x = regular_part(cs.drop_last())[i];
                let k = choose|k: int| 0 <= k < cs.drop_last().len() && cs.drop_last()[k] == x;
                assert(cs[k] == x);
            } else {
                assert(cs[cs.len() - 1] == regular_part(cs)[i]);
            }
        }
        assert forall|i: int| 0 <= i < registry_part(cs).len() implies cs.contains(
            #[trigger] registry_part(cs)[i],
        ) by {
            if i < registry_part(cs.drop_last()).len() {
                let x = registry_part(cs.drop_last())[i];
                let k = choose|k: int| 0 <= k < cs.drop_last().len() && cs.drop_last()[k] == x;
                assert(cs[k] == x);
            } else {
                assert(cs[cs.len() - 1] == registry_part(cs)[i]);
            }
        }
    }
}

/// Every update that a check reports is backed: it carries one of the
/// checked components and the version and date of one of the fetched
/// entries, and the update predicate holds of that component and that entry.
pub proof fn reported_updates_are_due(
    cs: Seq<InstalledComponentView>,
    entries: Seq<StoreEntryView>,
    fetched: Seq<(u64, StoreEntryView)>,
    table: Map<Seq<char>, u64>,
    cache: Map<Seq<char>, u64>,
)
    ensures
        all_justified(check_result(cs, entries, fetched, table, cache).updates, cs, entries, fetched),
{
    parts_are_within(cs);
    let regular = with_regular(no_findings(), regular_part(cs), entries, table, cache);
    regular_updates_justified(no_findings(), regular_part(cs), cs, entries, fetched, table, cache);
    let resolved = with_resolved(regular, registry_part(cs), entries, fetched, table, cache);
    resolved_updates_justified(regular, registry_part(cs), cs, entries, fetched, table, cache);
    unresolved_keeps_updates(
        resolved,
        registry_part(cs),
        resolved_names(registry_part(cs), entries, table, cache),
    );
}

/// The number of components with a directory name.
pub open spec fn components_named(cs: Seq<InstalledComponentView>, name: Seq<char>) -> nat
    decreases cs.len(),
{
    if cs.len() == 0 {
        0
    } else {
        components_named(cs.drop_last(), name) + if cs.last().directory_name == name {
            1nat
        } else {
            0nat
        }
    }
}

/// The number of updates for components with a directory name.
pub open spec fn updates_named(us: Seq<AvailableUpdateView>, name: Seq<char>) -> nat
    decreases us.len(),
{
    if us.len() == 0 {
        0
    } else {
        updates_named(us.drop_last(), name) + if us.last().installed.directory_name == name {
            1nat
        } else {
            0nat
        }
    }
}

proof fn pushed_update_counts(us: Seq<AvailableUpdateView>, u: AvailableUpdateView, name: Seq<char>)
    ensures
        updates_named(us.push(u), name) == updates_named(us, name) + if u.installed.directory_name
            == name {
            1nat
        } else {
            0nat
        },
{
    assert(us.push(u).drop_last() =~= us);
}

proof fn outcome_counts(
    r: CheckResultView,
    o: CheckOutcome,
    c: InstalledComponentView,
    name: Seq<char>,
)
    requires
        o matches CheckOutcome::Update(u) ==> u.installed == c,
    ensures
        updates_named(with_outcome(r, o).updates, name) <= updates_named(r.updates, name)
            + if c.directory_name == name {
            1nat
        } else {
            0nat
        },
{
    match o {
        CheckOutcome::Update(u) => {
            pushed_update_counts(r.updates, u, name);
        },
        _ => {},
    }
}

proof fn regular_counts(
    r: CheckResultView,
    part: Seq<InstalledComponentView>,
    entries: Seq<StoreEntryView>,
    table: Map<Seq<char>, u64>,
    cache: Map<Seq<char>, u64>,
    name: Seq<char>,
)
    ensures
        updates_named(with_regular(r, part, entries, table, cache).updates, name) <= updates_named(
            r.updates,
            name,
        ) + components_named(part, name),
    decreases part.len(),
{
    if part.len() > 0 {
        regular_counts(r, part.drop_last(), entries, table, cache, name);
        outcome_counts(
            with_regular(r, part.drop_last(), entries, table, cache),
            checked(part.last(), entries, table, cache),
            part.last(),
            name,
        );
    }
}

proof fn resolved_counts(
    r: CheckResultView,
    part: Seq<InstalledComponentView>,
    entries: Seq<StoreEntryView>,
    fetched: Seq<(u64, StoreEntryView)>,
    table: Map<Seq<char>, u64>,
    cache: Map<Seq<char>, u64>,
    name: Seq<char>,
)
    ensures
        updates_named(with_resolved(r, part, entries, fetched, table, cache).updates, name)
            <= updates_named(r.updates, name) + components_named(part, name),
    decreases part.len(),
{
    if part.len() > 0 {
        resolved_counts(r, part.drop_last(), entries, fetched, table, cache, name);
        outcome_counts(
            with_resolved(r, part.drop_last(), entries, fetched, table, cache),
            registry_checked(part.last(), entries, fetched, table, cache),
            part.last(),
            name,
        );
    }
}

proof fn parts_count(cs: Seq<InstalledComponentView>, name: Seq<char>)
    ensures
        components_named(regular_part(cs), name) + components_named(registry_part(cs), name)
            == components_named(cs, name),
    decreases cs.len(),
{
    if cs.len() > 0 {
        parts_count(cs.drop_last(), name);
        if cs.last().component_type.is_registry_only() {
            assert(registry_part(cs).drop_last() =~= registry_part(cs.drop_last()));
        } else {
            assert(regular_part(cs).drop_last() =~= regular_part(cs.drop_last()));
        }
    }
}

/// A check reports no more updates for a directory name than there are
/// components with that name.
pub proof fn updates_follow_components(
    cs: Seq<InstalledComponentView>,
    entries: Seq<StoreEntryView>,
    fetched: Seq<(u64, StoreEntryView)>,
    table: Map<Seq<char>, u64>,
    cache: Map<Seq<char>, u64>,
    name: Seq<char>,
)
    ensures
        updates_named(check_result(cs, entries, fetched, table, cache).updates, name)
            <= components_named(cs, name),
{
    let regular = with_regular(no_findings(), regular_part(cs), entries, table, cache);
    regular_counts(no_findings(), regular_part(cs), entries, table, cache, name);
    let resolved = with_resolved(regular, registry_part(cs), entries, fetched, table, cache);
    resolved_counts(regular, registry_part(cs), entries, fetched, table, cache, name);
    unresolved_keeps_updates(
        resolved,
        registry_part(cs),
        resolved_names(registry_part(cs), entries, table, cache),
    );
    parts_count(cs, name);
}

/// Where no two of the checked components share a directory name, a check
/// reports at most one update for every directory name.
pub proof fn one_update_per_directory(
    cs: Seq<InstalledComponentView>,
    entries: Seq<StoreEntryView>,
    fetched: Seq<(u64, StoreEntryView)>,
    table: Map<Seq<char>, u64>,
    cache: Map<Seq<char>, u64>,
)
    requires
        forall|name: Seq<char>| components_named(cs, name) <= 1,
    ensures
        forall|name: Seq<char>| #[trigger]
            updates_named(check_result(cs, entries, fetched, table, cache).updates, name) <= 1,
{
    assert forall|name: Seq<char>| #[trigger]
        updates_named(check_result(cs, entries, fetched, table, cache).updates, name) <= 1 by {
        updates_follow_components(cs, entries, fetched, table, cache, name);
    }
}

} // verus!
