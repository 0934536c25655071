use crate::config::IdTable;
use crate::resolution::{
    entry_position, find_store_entry, resolve_content_id, resolved_id, select_download_with_info,
    selected_link,
};
use crate::store::{has_id, missing_from, missing_ids, partition_components, regular_part, registry_part};
use crate::text::{chars_of, decimal, push_decimal, push_str, str_eq, string_of};
use crate::types::{
    component_views, diagnostic_views, entry_views, joined_update, update_views, AvailableUpdate,
    AvailableUpdateView, CheckResultView, ComponentDiagnostic, DiagnosticView,
    InstalledComponent, InstalledComponentView, StoreEntry, StoreEntryView, UpdateCheckResult,
};
use crate::version::{is_update_available_with_date, update_available};
use vstd::prelude::*;

verus! {

/// What the check of one component found.
#[derive(Debug)]
pub enum ComponentCheckResult {
    /// The catalog offers a newer revision.
    Update(AvailableUpdate),
    /// No catalog entry could be found for the component.
    Unresolved(ComponentDiagnostic),
    /// The catalog entry of the component cannot be used.
    CheckFailed(ComponentDiagnostic),
    /// The component is up to date.
    UpToDate,
}

/// The mathematical value of a [`ComponentCheckResult`].
pub enum CheckOutcome {
    Update(AvailableUpdateView),
    Unresolved(DiagnosticView),
    CheckFailed(DiagnosticView),
    UpToDate,
}

impl View for ComponentCheckResult {
    type V = CheckOutcome;

    open spec fn view(&self) -> CheckOutcome {
        match self {
            ComponentCheckResult::Update(u) => CheckOutcome::Update(u@),
            ComponentCheckResult::Unresolved(d) => CheckOutcome::Unresolved(d@),
            ComponentCheckResult::CheckFailed(d) => CheckOutcome::CheckFailed(d@),
            ComponentCheckResult::UpToDate => CheckOutcome::UpToDate,
        }
    }
}

/// A text where it is given: none for the empty text.
pub open spec fn given(s: Seq<char>) -> Option<Seq<char>> {
    if s.len() > 0 {
        Some(s)
    } else {
        None
    }
}

/// A size in bytes for a size in kilobytes, held at the largest number
/// that fits where the product does not.
pub open spec fn bytes_of(size_kb: Option<u64>) -> Option<u64> {
    match size_kb {
        Some(kb) => Some(
            if kb * 1024 <= u64::MAX {
                (kb * 1024) as u64
            } else {
                u64::MAX
            },
        ),
        None => None,
    }
}

/// What a component's catalog entry means for it: nothing where no update
/// is due; a failure where an update is due and the entry has no download;
/// else the update, with the download chosen for the entry's version.
pub open spec fn evaluated(c: InstalledComponentView, e: StoreEntryView, content_id: u64) -> CheckOutcome {
    if !update_available(c.version, e.version, c.release_date, e.changed_date) {
        CheckOutcome::UpToDate
    } else {
        match selected_link(e.download_links, e.version) {
            None => CheckOutcome::CheckFailed(
                DiagnosticView {
                    name: c.name,
                    reason: "no download url available"@,
                    installed_version: given(c.version),
                    available_version: given(e.version),
                    content_id: Some(content_id),
                },
            ),
            Some(link) => CheckOutcome::Update(
                joined_update(
                    c,
                    content_id,
                    e.version,
                    link.url,
                    e.changed_date,
                    link.checksum,
                    bytes_of(link.size_kb),
                ),
            ),
        }
    }
}

/// The diagnostic for a component that no catalog id could be found for.
pub open spec fn unmatched(c: InstalledComponentView) -> DiagnosticView {
    DiagnosticView {
        name: c.name,
        reason: "could not match to kde store entry"@,
        installed_version: given(c.version),
        available_version: None,
        content_id: None,
    }
}

/// The diagnostic for a component whose catalog entry was not fetched.
pub open spec fn not_fetched(c: InstalledComponentView, content_id: u64) -> DiagnosticView {
    DiagnosticView {
        name: c.name,
        reason: "store entry "@ + decimal(content_id as nat) + " not in fetched data"@,
        installed_version: None,
        available_version: None,
        content_id: Some(content_id),
    }
}

/// What the check of a component finds among the fetched entries.
pub open spec fn checked(
    c: InstalledComponentView,
    entries: Seq<StoreEntryView>,
    table: Map<Seq<char>, u64>,
    cache: Map<Seq<char>, u64>,
) -> CheckOutcome {
    match resolved_id(c, entries, table, cache) {
        None => CheckOutcome::Unresolved(unmatched(c)),
        Some(id) => if has_id(entries, id) {
            evaluated(c, entries[entry_position(entries, id)], id)
        } else {
            CheckOutcome::Unresolved(not_fetched(c, id))
        },
    }
}

fn given_text(s: &String) -> (r: Option<String>)
    ensures
        crate::types::opt_text(r) == given(s@),
{
    if s.as_str().unicode_len() > 0 {
        Some(s.clone())
    } else {
        None
    }
}

/// Evaluates a catalog entry against an installed component.
pub fn evaluate_store_entry(component: &InstalledComponent, entry: &StoreEntry, content_id: u64) -> (r:
    ComponentCheckResult)
    ensures
        r@ == evaluated(component@, entry@, content_id),
{
    if !is_update_available_with_date(
        component.version.as_str(),
        entry.version.as_str(),
        component.release_date.as_str(),
        entry.changed_date.as_str(),
    ) {
        return ComponentCheckResult::UpToDate;
    }
    match select_download_with_info(entry, entry.version.as_str()) {
        None => {
            let diagnostic = ComponentDiagnostic::new(
                component.name.clone(),
                "no download url available".to_owned(),
            ).with_versions(given_text(&component.version), given_text(&entry.version))
                .with_content_id(content_id);
            ComponentCheckResult::CheckFailed(diagnostic)
        },
        Some(info) => {
            let size = match info.size_kb {
                Some(kb) => Some(
                    if kb > u64::MAX / 1024 {
                        u64::MAX
                    } else {
                        kb * 1024
                    },
                ),
                None => None,
            };
            let update = AvailableUpdate::builder(
                component.clone(),
                content_id,
                entry.version.clone(),
                info.url,
                entry.changed_date.clone(),
            ).checksum(info.checksum).download_size(size).build();
            ComponentCheckResult::Update(update)
        },
    }
}

/// Checks one component against the fetched catalog entries.
pub fn check_component(
    component: &InstalledComponent,
    store_entries: &Vec<StoreEntry>,
    widgets_id_table: &IdTable,
    registry_id_cache: &IdTable,
) -> (r: ComponentCheckResult)
    ensures
        r@ == checked(
            component@,
            entry_views(store_entries@),
            widgets_id_table@,
            registry_id_cache@,
        ),
{
    let content_id = match resolve_content_id(
        component,
        store_entries,
        widgets_id_table,
        registry_id_cache,
    ) {
        Some(id) => id,
        None => {
            let diagnostic = ComponentDiagnostic::new(
                component.name.clone(),
                "could not match to kde store entry".to_owned(),
            ).with_versions(given_text(&component.version), None);
            return ComponentCheckResult::Unresolved(diagnostic);
        },
    };
    match find_store_entry(store_entries, content_id) {
        Some(entry) => {
            proof {
                let i = entry_position(entry_views(store_entries@), content_id);
                crate::resolution::entry_position_is_first(
                    entry_views(store_entries@),
                    content_id,
                );
                assert(entry_views(store_entries@)[i] == entry@);
            }
            evaluate_store_entry(component, entry, content_id)
        },
        None => {
            let mut reason = chars_of("store entry ");
            push_decimal(&mut reason, content_id);
            push_str(&mut reason, " not in fetched data");
            let diagnostic = ComponentDiagnostic::new(component.name.clone(), string_of(&reason))
                .with_content_id(content_id);
            ComponentCheckResult::Unresolved(diagnostic)
        },
    }
}

/// A check result with one more outcome recorded in it.
pub open spec fn with_outcome(r: CheckResultView, o: CheckOutcome) -> CheckResultView {
    match o {
        CheckOutcome::Update(u) => CheckResultView { updates: r.updates.push(u), ..r },
        CheckOutcome::Unresolved(d) => CheckResultView { unresolved: r.unresolved.push(d), ..r },
        CheckOutcome::CheckFailed(d) => CheckResultView {
            check_failures: r.check_failures.push(d),
            ..r
        },
        CheckOutcome::UpToDate => r,
    }
}

/// A check result without findings.
pub open spec fn no_findings() -> CheckResultView {
    CheckResultView { updates: Seq::empty(), unresolved: Seq::empty(), check_failures: Seq::empty() }
}

/// Records the outcome of one component's check.
pub fn record_outcome(result: &mut UpdateCheckResult, outcome: ComponentCheckResult)
    ensures
        final(result)@ == with_outcome(old(result)@, outcome@),
{
    match outcome {
        ComponentCheckResult::Update(update) => {
            result.add_update(update);
            proof {
                assert(update_views(result.updates@) =~= update_views(old(result).updates@).push(
                    update@,
                ));
            }
        },
        ComponentCheckResult::Unresolved(diagnostic) => {
            result.add_unresolved(diagnostic);
            proof {
                assert(diagnostic_views(result.unresolved@) =~= diagnostic_views(
                    old(result).unresolved@,
                ).push(diagnostic@));
            }
        },
        ComponentCheckResult::CheckFailed(diagnostic) => {
            result.add_check_failure(diagnostic);
            proof {
                assert(diagnostic_views(result.check_failures@) =~= diagnostic_views(
                    old(result).check_failures@,
                ).push(diagnostic@));
            }
        },
        ComponentCheckResult::UpToDate => {},
    }
}

/// The check result after the components that keep metadata on disk have
/// been checked one after the other.
pub open spec fn with_regular(
    r: CheckResultView,
    cs: Seq<InstalledComponentView>,
    entries: Seq<StoreEntryView>,
    table: Map<Seq<char>, u64>,
    cache: Map<Seq<char>, u64>,
) -> CheckResultView
    decreases cs.len(),
{
    if cs.len() == 0 {
        r
    } else {
        with_outcome(
            with_regular(r, cs.drop_last(), entries, table, cache),
            checked(cs.last(), entries, table, cache),
        )
    }
}

/// Checks the components that keep metadata on disk against the fetched entries.
pub fn check_regular_components(
    components: &Vec<InstalledComponent>,
    store_entries: &Vec<StoreEntry>,
    widgets_id_table: &IdTable,
    registry_id_cache: &IdTable,
    result: &mut UpdateCheckResult,
)
    ensures
        final(result)@ == with_regular(
            old(result)@,
            component_views(components@),
            entry_views(store_entries@),
            widgets_id_table@,
            registry_id_cache@,
        ),
{
    let ghost all = component_views(components@);
    let mut i: usize = 0;
    proof {
        assert(all.take(0) =~= Seq::<InstalledComponentView>::empty());
    }
    while i < components.len()
        invariant
            i <= components.len(),
            all == component_views(components@),
            result@ == with_regular(
                old(result)@,
                all.take(i as int),
                entry_views(store_entries@),
                widgets_id_table@,
                registry_id_cache@,
            ),
        decreases components.len() - i,
    {
        proof {
            assert(all.take(i as int + 1).drop_last() =~= all.take(i as int));
            assert(all.take(i as int + 1).last() == components@[i as int]@);
        }
        let outcome = check_component(
            &components[i],
            store_entries,
            widgets_id_table,
            registry_id_cache,
        );
        record_outcome(result, outcome);
        i += 1;
    }
    proof {
        assert(all.take(i as int) =~= all);
    }
}

/// The views of the entries that were fetched one by one, each with the
/// id that was asked for.
pub open spec fn fetched_views(fetched: Seq<(u64, StoreEntry)>) -> Seq<(u64, StoreEntryView)> {
    fetched.map_values(|p: (u64, StoreEntry)| (p.0, p.1@))
}

/// The entry that was fetched for an id: the last one, where it was asked
/// for more than once.
pub open spec fn fetched_for(fetched: Seq<(u64, StoreEntryView)>, id: u64) -> Option<StoreEntryView>
    decreases fetched.len(),
{
    if fetched.len() == 0 {
        None
    } else if fetched.last().0 == id {
        Some(fetched.last().1)
    } else {
        fetched_for(fetched.drop_last(), id)
    }
}

/// The catalog entry for an id: the first among the entries of the pages,
/// else the one that was fetched for the id.
pub open spec fn entry_for(
    id: u64,
    entries: Seq<StoreEntryView>,
    fetched: Seq<(u64, StoreEntryView)>,
) -> Option<StoreEntryView> {
    if has_id(entries, id) {
        Some(entries[entry_position(entries, id)])
    } else {
        fetched_for(fetched, id)
    }
}

/// The diagnostic for a component whose catalog entry could not be fetched.
pub open spec fn fetch_failed(c: InstalledComponentView, content_id: u64) -> DiagnosticView {
    DiagnosticView {
        name: c.name,
        reason: "failed to fetch store entry"@,
        installed_version: None,
        available_version: None,
        content_id: Some(content_id),
    }
}

/// The diagnostic for a registry-only component without a catalog id.
pub open spec fn unmatched_in_registry(c: InstalledComponentView) -> DiagnosticView {
    DiagnosticView {
        name: c.name,
        reason: "could not match to kde store entry"@,
        installed_version: None,
        available_version: None,
        content_id: None,
    }
}

/// What the check of a registry-only component with a catalog id finds;
/// nothing for one without.
pub open spec fn registry_checked(
    c: InstalledComponentView,
    entries: Seq<StoreEntryView>,
    fetched: Seq<(u64, StoreEntryView)>,
    table: Map<Seq<char>, u64>,
    cache: Map<Seq<char>, u64>,
) -> CheckOutcome {
    match resolved_id(c, entries, table, cache) {
        None => CheckOutcome::UpToDate,
        Some(id) => match entry_for(id, entries, fetched) {
            Some(e) => evaluated(c, e, id),
            None => CheckOutcome::CheckFailed(fetch_failed(c, id)),
        },
    }
}

/// The check result after the registry-only components with a catalog id
/// have been checked one after the other.
pub open spec fn with_resolved(
    r: CheckResultView,
    cs: Seq<InstalledComponentView>,
    entries: Seq<StoreEntryView>,
    fetched: Seq<(u64, StoreEntryView)>,
    table: Map<Seq<char>, u64>,
    cache: Map<Seq<char>, u64>,
) -> CheckResultView
    decreases cs.len(),
{
    if cs.len() == 0 {
        r
    } else {
        with_outcome(
            with_resolved(r, cs.drop_last(), entries, fetched, table, cache),
            registry_checked(cs.last(), entries, fetched, table, cache),
        )
    }
}

/// The directory names of the components that have a catalog id, in order.
pub open spec fn resolved_names(
    cs: Seq<InstalledComponentView>,
    entries: Seq<StoreEntryView>,
    table: Map<Seq<char>, u64>,
    cache: Map<Seq<char>, u64>,
) -> Seq<Seq<char>>
    decreases cs.len(),
{
    if cs.len() == 0 {
        Seq::empty()
    } else if resolved_id(cs.last(), entries, table, cache) is Some {
        resolved_names(cs.drop_last(), entries, table, cache).push(cs.last().directory_name)
    } else {
        resolved_names(cs.drop_last(), entries, table, cache)
    }
}

/// The catalog ids of the components that have one, in order.
pub open spec fn resolved_ids(
    cs: Seq<InstalledComponentView>,
    entries: Seq<StoreEntryView>,
    table: Map<Seq<char>, u64>,
    cache: Map<Seq<char>, u64>,
) -> Seq<u64>
    decreases cs.len(),
{
    if cs.len() == 0 {
        Seq::empty()
    } else {
        match resolved_id(cs.last(), entries, table, cache) {
            Some(id) => resolved_ids(cs.drop_last(), entries, table, cache).push(id),
            None => resolved_ids(cs.drop_last(), entries, table, cache),
        }
    }
}

/// The check result after every component whose directory name is not
/// among `names` has been recorded as unmatched.
pub open spec fn with_unresolved(
    r: CheckResultView,
    cs: Seq<InstalledComponentView>,
    names: Seq<Seq<char>>,
) -> CheckResultView
    decreases cs.len(),
{
    if cs.len() == 0 {
        r
    } else if names.contains(cs.last().directory_name) {
        with_unresolved(r, cs.drop_last(), names)
    } else {
        with_outcome(
            with_unresolved(r, cs.drop_last(), names),
            CheckOutcome::Unresolved(unmatched_in_registry(cs.last())),
        )
    }
}

/// The check result after the registry-only components have been checked:
/// first those with a catalog id, then those whose directory name has none.
pub open spec fn with_registry(
    r: CheckResultView,
    cs: Seq<InstalledComponentView>,
    entries: Seq<StoreEntryView>,
    fetched: Seq<(u64, StoreEntryView)>,
    table: Map<Seq<char>, u64>,
    cache: Map<Seq<char>, u64>,
) -> CheckResultView {
    with_unresolved(
        with_resolved(r, cs, entries, fetched, table, cache),
        cs,
        resolved_names(cs, entries, table, cache),
    )
}

/// The catalog ids of the registry-only components that the pages did not
/// return, and that are to be fetched one by one.
pub fn registry_ids_to_fetch(
    registry_components: &Vec<InstalledComponent>,
    store_entries: &Vec<StoreEntry>,
    widgets_id_table: &IdTable,
    registry_id_cache: &IdTable,
) -> (r: Vec<u64>)
    ensures
        r@ == missing_from(
            resolved_ids(
                component_views(registry_components@),
                entry_views(store_entries@),
                widgets_id_table@,
                registry_id_cache@,
            ),
            entry_views(store_entries@),
        ),
{
    let ghost all = component_views(registry_components@);
    let mut ids: Vec<u64> = Vec::new();
    let mut i: usize = 0;
    proof {
        assert(all.take(0) =~= Seq::<InstalledComponentView>::empty());
    }
    while i < registry_components.len()
        invariant
            i <= registry_components.len(),
            all == component_views(registry_components@),
            ids@ == resolved_ids(
                all.take(i as int),
                entry_views(store_entries@),
                widgets_id_table@,
                registry_id_cache@,
            ),
        decreases registry_components.len() - i,
    {
        proof {
            assert(all.take(i as int + 1).drop_last() =~= all.take(i as int));
            assert(all.take(i as int + 1).last() == registry_components@[i as int]@);
        }
        match resolve_content_id(
            &registry_components[i],
            store_entries,
            widgets_id_table,
            registry_id_cache,
        ) {
            Some(id) => {
                ids.push(id);
            },
            None => {},
        }
        i += 1;
    }
    proof {
        assert(all.take(i as int) =~= all);
    }
    missing_ids(&ids, store_entries)
}

fn find_fetched(fetched: &Vec<(u64, StoreEntry)>, id: u64) -> (r: Option<&StoreEntry>)
    ensures
        r is Some == fetched_for(fetched_views(fetched@), id) is Some,
        r matches Some(e) ==> fetched_for(fetched_views(fetched@), id) == Some(e@),
{
    let ghost all = fetched_views(fetched@);
    let mut n: usize = fetched.len();
    proof {
        assert(all.take(n as int) =~= all);
    }
    while n > 0
        invariant
            n <= fetched.len(),
            all == fetched_views(fetched@),
            fetched_for(all, id) == fetched_for(all.take(n as int), id),
        decreases n,
    {
        proof {
            assert(all.take(n as int).drop_last() =~= all.take(n - 1));
            assert(all.take(n as int).last() == (fetched@[n - 1].0, fetched@[n - 1].1@));
        }
        if fetched[n - 1].0 == id {
            return Some(&fetched[n - 1].1);
        }
        n -= 1;
    }
    None
}

fn has_name(names: &Vec<String>, name: &str) -> (r: bool)
    ensures
        r == crate::registry::texts(names@).contains(name@),
{
    let mut i: usize = 0;
    while i < names.len()
        invariant
            i <= names.len(),
            forall|j: int| 0 <= j < i ==> crate::registry::texts(names@)[j] != name@,
        decreases names.len() - i,
    {
        proof {
            assert(crate::registry::texts(names@)[i as int] == names@[i as int]@);
        }
        if str_eq(names[i].as_str(), name) {
            return true;
        }
        i += 1;
    }
    false
}

/// Checks the registry-only components: each one with a catalog id against
/// its entry, from the pages or fetched for it; the others are reported as
/// unmatched.
pub fn check_components(
    registry_components: &Vec<InstalledComponent>,
    store_entries: &Vec<StoreEntry>,
    fetched: &Vec<(u64, StoreEntry)>,
    widgets_id_table: &IdTable,
    registry_id_cache: &IdTable,
    result: &mut UpdateCheckResult,
)
    ensures
        final(result)@ == with_registry(
            old(result)@,
            component_views(registry_components@),
            entry_views(store_entries@),
            fetched_views(fetched@),
            widgets_id_table@,
            registry_id_cache@,
        ),
{
    let ghost all = component_views(registry_components@);
    let ghost entries = entry_views(store_entries@);
    let ghost got = fetched_views(fetched@);
    let mut names: Vec<String> = Vec::new();
    let mut i: usize = 0;
    proof {
        assert(all.take(0) =~= Seq::<InstalledComponentView>::empty());
        assert(crate::registry::texts(names@) =~= Seq::<Seq<char>>::empty());
    }
    while i < registry_components.len()
        invariant
            i <= registry_components.len(),
            all == component_views(registry_components@),
            entries == entry_views(store_entries@),
            got == fetched_views(fetched@),
            result@ == with_resolved(
                old(result)@,
                all.take(i as int),
                entries,
                got,
                widgets_id_table@,
                registry_id_cache@,
            ),
            crate::registry::texts(names@) == resolved_names(
                all.take(i as int),
                entries,
                widgets_id_table@,
                registry_id_cache@,
            ),
        decreases registry_components.len() - i,
    {
        let component = &registry_components[i];
        let ghost names_before = names@;
        proof {
            assert(all.take(i as int + 1).drop_last() =~= all.take(i as int));
            assert(all.take(i as int + 1).last() == component@);
        }
        match resolve_content_id(component, store_entries, widgets_id_table, registry_id_cache) {
            Some(content_id) => {
                names.push(component.directory_name.clone());
                proof {
                    assert(crate::registry::texts(names@) =~= crate::registry::texts(
                        names_before,
                    ).push(component@.directory_name));
                }
                let entry = match find_store_entry(store_entries, content_id) {
                    Some(e) => {
                        proof {
                            crate::resolution::entry_position_is_first(entries, content_id);
                            assert(entries[entry_position(entries, content_id)] == e@);
                        }
                        Some(e)
                    },
                    None => find_fetched(fetched, content_id),
                };
                let outcome = match entry {
                    Some(e) => evaluate_store_entry(component, e, content_id),
                    None => ComponentCheckResult::CheckFailed(
                        ComponentDiagnostic::new(
                            component.name.clone(),
                            "failed to fetch store entry".to_owned(),
                        ).with_content_id(content_id),
                    ),
                };
                record_outcome(result, outcome);
            },
            None => {},
        }
        i += 1;
    }
    proof {
        assert(all.take(i as int) =~= all);
    }
    let ghost resolved = result@;
    let mut k: usize = 0;
    while k < registry_components.len()
        invariant
            k <= registry_components.len(),
            all == component_views(registry_components@),
            crate::registry::texts(names@) == resolved_names(
                all,
                entries,
                widgets_id_table@,
                registry_id_cache@,
            ),
            result@ == with_unresolved(
                resolved,
                all.take(k as int),
                crate::registry::texts(names@),
            ),
        decreases registry_components.len() - k,
    {
        let component = &registry_components[k];
        proof {
            assert(all.take(k as int + 1).drop_last() =~= all.take(k as int));
            assert(all.take(k as int + 1).last() == component@);
        }
        if !has_name(&names, component.directory_name.as_str()) {
            let diagnostic = ComponentDiagnostic::new(
                component.name.clone(),
                "could not match to kde store entry".to_owned(),
            );
            record_outcome(result, ComponentCheckResult::Unresolved(diagnostic));
        }
        k += 1;
    }
    proof {
        assert(all.take(k as int) =~= all);
    }
}

/// What a check finds for a run of installed components, given the catalog
/// entries of the pages and those that were fetched one by one: first the
/// findings for the components that keep metadata on disk, then those for
/// the registry-only components.
pub open spec fn check_result(
    cs: Seq<InstalledComponentView>,
    entries: Seq<StoreEntryView>,
    fetched: Seq<(u64, StoreEntryView)>,
    table: Map<Seq<char>, u64>,
    cache: Map<Seq<char>, u64>,
) -> CheckResultView {
    with_registry(
        with_regular(no_findings(), regular_part(cs), entries, table, cache),
        registry_part(cs),
        entries,
        fetched,
        table,
        cache,
    )
}

/// Checks for updates of the given components against the fetched catalog entries.
pub fn check_with_components(
    components: Vec<InstalledComponent>,
    store_entries: &Vec<StoreEntry>,
    fetched: &Vec<(u64, StoreEntry)>,
    widgets_id_table: &IdTable,
    registry_id_cache: &IdTable,
) -> (r: UpdateCheckResult)
    ensures
        r@ == check_result(
            component_views(components@),
            entry_views(store_entries@),
            fetched_views(fetched@),
            widgets_id_table@,
            registry_id_cache@,
        ),
{
    let (registry_components, regular_components) = partition_components(components);
    let mut result = UpdateCheckResult::new();
    proof {
        assert(result@.updates =~= Seq::<AvailableUpdateView>::empty());
        assert(result@.unresolved =~= Seq::<DiagnosticView>::empty());
        assert(result@.check_failures =~= Seq::<DiagnosticView>::empty());
    }
    check_regular_components(
        &regular_components,
        store_entries,
        widgets_id_table,
        registry_id_cache,
        &mut result,
    );
    check_components(
        &registry_components,
        store_entries,
        fetched,
        widgets_id_table,
        registry_id_cache,
        &mut result,
    );
    result
}

} // verus!
