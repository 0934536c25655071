use crate::config::IdTable;
use crate::text::str_eq;
use crate::types::{
    clone_opt, entry_views, link_views, opt_text, DownloadLink, DownloadLinkView,
    InstalledComponent, InstalledComponentView, StoreEntry, StoreEntryView,
};
use vstd::prelude::*;

verus! {

/// The download that was chosen for a catalog entry.
#[derive(Debug)]
pub struct DownloadInfo {
    pub url: String,
    pub checksum: Option<String>,
    pub size_kb: Option<u64>,
}

/// Whether a catalog entry is the one of a component by its name: the
/// names are the same and the entry's type belongs to the component's kind.
pub open spec fn name_matches(c: InstalledComponentView, e: StoreEntryView) -> bool {
    e.name == c.name && c.component_type.owns_type_id(e.type_id)
}

/// The id of the first catalog entry that matches a component by name.
pub open spec fn resolved_by_name(c: InstalledComponentView, entries: Seq<StoreEntryView>) -> Option<
    u64,
>
    decreases entries.len(),
{
    if entries.len() == 0 {
        None
    } else if name_matches(c, entries[0]) {
        Some(entries[0].id)
    } else {
        resolved_by_name(c, entries.skip(1))
    }
}

/// The id that a table gives to a directory name.
pub open spec fn looked_up(table: Map<Seq<char>, u64>, name: Seq<char>) -> Option<u64> {
    if table.contains_key(name) {
        Some(table[name])
    } else {
        None
    }
}

/// The catalog id of a component: the one that the registry records for its
/// directory name; else that of the first catalog entry with its name and
/// kind; else the one that the fallback table gives its directory name.
pub open spec fn resolved_id(
    c: InstalledComponentView,
    entries: Seq<StoreEntryView>,
    table: Map<Seq<char>, u64>,
    cache: Map<Seq<char>, u64>,
) -> Option<u64> {
    if looked_up(cache, c.directory_name) is Some {
        looked_up(cache, c.directory_name)
    } else if resolved_by_name(c, entries) is Some {
        resolved_by_name(c, entries)
    } else {
        looked_up(table, c.directory_name)
    }
}

/// Finds the catalog id of a component by its name and kind.
pub fn resolve_by_name(component: &InstalledComponent, store_entries: &Vec<StoreEntry>) -> (r:
    Option<u64>)
    ensures
        r == resolved_by_name(component@, entry_views(store_entries@)),
{
    let ghost all = entry_views(store_entries@);
    let mut i: usize = 0;
    proof {
        assert(all.skip(0) =~= all);
    }
    while i < store_entries.len()
        invariant
            i <= store_entries.len(),
            all == entry_views(store_entries@),
            resolved_by_name(component@, all) == resolved_by_name(component@, all.skip(i as int)),
        decreases store_entries.len() - i,
    {
        let e = &store_entries[i];
        proof {
            assert(all.skip(i as int)[0] == e@);
            assert(all.skip(i as int).skip(1) =~= all.skip(i as int + 1));
        }
        if str_eq(e.name.as_str(), component.name.as_str())
            && component.component_type.matches_type_id(e.type_id) {
            return Some(e.id);
        }
        i += 1;
    }
    None
}

/// Finds the catalog id of a component in the fallback table.
pub fn resolve_by_table(component: &InstalledComponent, widgets_id_table: &IdTable) -> (r: Option<
    u64,
>)
    ensures
        r == looked_up(widgets_id_table@, component@.directory_name),
{
    widgets_id_table.get(component.directory_name.as_str())
}

/// Resolves the catalog id of an installed component: from the registry
/// first, then by name, then from the fallback table.
pub fn resolve_content_id(
    component: &InstalledComponent,
    store_entries: &Vec<StoreEntry>,
    widgets_id_table: &IdTable,
    registry_id_cache: &IdTable,
) -> (r: Option<u64>)
    ensures
        r == resolved_id(
            component@,
            entry_views(store_entries@),
            widgets_id_table@,
            registry_id_cache@,
        ),
{
    match registry_id_cache.get(component.directory_name.as_str()) {
        Some(id) => Some(id),
        None => match resolve_by_name(component, store_entries) {
            Some(id) => Some(id),
            None => resolve_by_table(component, widgets_id_table),
        },
    }
}

/// The position of the first link that delivers a version, or the number
/// of links where none does.
pub open spec fn link_for(links: Seq<DownloadLinkView>, version: Seq<char>) -> int
    decreases links.len(),
{
    if links.len() == 0 {
        0
    } else if links[0].version == version {
        0
    } else {
        1 + link_for(links.skip(1), version)
    }
}

/// The link to download an entry by: the only one where there is one; else
/// the first that delivers the wanted version; else the first of all.
pub open spec fn selected_link(links: Seq<DownloadLinkView>, version: Seq<char>) -> Option<
    DownloadLinkView,
> {
    if links.len() == 0 {
        None
    } else if links.len() == 1 {
        Some(links[0])
    } else if 0 <= link_for(links, version) < links.len() {
        Some(links[link_for(links, version)])
    } else {
        Some(links[0])
    }
}

proof fn link_for_unique(links: Seq<DownloadLinkView>, version: Seq<char>, i: int)
    requires
        0 <= i <= links.len(),
        i < links.len() ==> links[i].version == version,
        forall|j: int| 0 <= j < i ==> (#[trigger] links[j]).version != version,
    ensures
        link_for(links, version) == i,
    decreases links.len(),
{
    if links.len() > 0 && i > 0 {
        assert(links[0].version != version);
        assert forall|j: int| 0 <= j < i - 1 implies (#[trigger] links.skip(1)[j]).version
            != version by {
            assert(links.skip(1)[j] == links[j + 1]);
        }
        link_for_unique(links.skip(1), version, i - 1);
    }
}

fn find_link(links: &Vec<DownloadLink>, version: &str) -> (r: usize)
    ensures
        r == link_for(link_views(links@), version@),
        r <= links@.len(),
{
    let mut i: usize = 0;
    while i < links.len()
        invariant
            i <= links.len(),
            forall|j: int| 0 <= j < i ==> (#[trigger] link_views(links@)[j]).version != version@,
        decreases links.len() - i,
    {
        proof {
            assert(link_views(links@)[i as int] == links@[i as int]@);
        }
        if str_eq(links[i].version.as_str(), version) {
            proof {
                link_for_unique(link_views(links@), version@, i as int);
            }
            return i;
        }
        i += 1;
    }
    proof {
        link_for_unique(link_views(links@), version@, i as int);
    }
    i
}

/// Chooses the download of a catalog entry for a version.
pub fn select_download_with_info(entry: &StoreEntry, target_version: &str) -> (r: Option<
    DownloadInfo,
>)
    ensures
        r is Some == selected_link(entry@.download_links, target_version@) is Some,
        r matches Some(info) ==> {
            let link = selected_link(entry@.download_links, target_version@)->0;
            info.url@ == link.url && opt_text(info.checksum) == link.checksum && info.size_kb
                == link.size_kb
        },
{
    let links = &entry.download_links;
    if links.len() == 0 {
        return None;
    }
    let at = if links.len() == 1 {
        0
    } else {
        let found = find_link(links, target_version);
        if found < links.len() {
            found
        } else {
            0
        }
    };
    let link = &links[at];
    proof {
        assert(link_views(links@)[at as int] == link@);
    }
    Some(
        DownloadInfo {
            url: link.url.clone(),
            checksum: clone_opt(&link.checksum),
            size_kb: link.size_kb,
        },
    )
}

/// Chooses the address to download a catalog entry from.
pub fn select_download_url(entry: &StoreEntry, target_version: &str) -> (r: Option<String>)
    ensures
        r is Some == selected_link(entry@.download_links, target_version@) is Some,
        r matches Some(url) ==> url@ == selected_link(
            entry@.download_links,
            target_version@,
        )->0.url,
{
    match select_download_with_info(entry, target_version) {
        Some(info) => Some(info.url),
        None => None,
    }
}

/// The position of the first entry with an id, or the number of entries
/// where none has it.
pub open spec fn entry_position(entries: Seq<StoreEntryView>, id: u64) -> int
    decreases entries.len(),
{
    if entries.len() == 0 {
        0
    } else if entries[0].id == id {
        0
    } else {
        1 + entry_position(entries.skip(1), id)
    }
}

/// `entry_position` is the least position whose entry has the id.
pub proof fn entry_position_is_first(entries: Seq<StoreEntryView>, id: u64)
    ensures
        0 <= entry_position(entries, id) <= entries.len(),
        entry_position(entries, id) < entries.len() ==> entries[entry_position(entries, id)].id
            == id,
        forall|j: int| 0 <= j < entry_position(entries, id) ==> (#[trigger] entries[j]).id != id,
    decreases entries.len(),
{
    if entries.len() > 0 && entries[0].id != id {
        entry_position_is_first(entries.skip(1), id);
        assert forall|j: int| 0 <= j < entry_position(entries, id) implies (
        #[trigger] entries[j]).id != id by {
            if j > 0 {
                assert(entries.skip(1)[j - 1] == entries[j]);
            }
        }
    }
}

proof fn entry_position_unique(entries: Seq<StoreEntryView>, id: u64, i: int)
    requires
        0 <= i <= entries.len(),
        i < entries.len() ==> entries[i].id == id,
        forall|j: int| 0 <= j < i ==> (#[trigger] entries[j]).id != id,
    ensures
        entry_position(entries, id) == i,
{
    entry_position_is_first(entries, id);
    let k = entry_position(entries, id);
    if k < i {
        assert(entries[k].id != id);
    } else if i < k {
        assert(entries[i].id != id);
    }
}

/// The position of the first entry with an id.
pub fn find_entry_index(entries: &Vec<StoreEntry>, content_id: u64) -> (r: Option<usize>)
    ensures
        r matches Some(i) ==> i == entry_position(entry_views(entries@), content_id) && i
            < entries@.len(),
        r is None ==> entry_position(entry_views(entries@), content_id) == entries@.len(),
{
    let mut i: usize = 0;
    while i < entries.len()
        invariant
            i <= entries.len(),
            forall|j: int| 0 <= j < i ==> (#[trigger] entry_views(entries@)[j]).id != content_id,
        decreases entries.len() - i,
    {
        proof {
            assert(entry_views(entries@)[i as int] == entries@[i as int]@);
        }
        if entries[i].id == content_id {
            proof {
                entry_position_unique(entry_views(entries@), content_id, i as int);
            }
            return Some(i);
        }
        i += 1;
    }
    proof {
        entry_position_unique(entry_views(entries@), content_id, i as int);
    }
    None
}

/// Finds the first catalog entry with an id.
pub fn find_store_entry(entries: &Vec<StoreEntry>, content_id: u64) -> (r: Option<&StoreEntry>)
    ensures
        r is Some == (entry_position(entry_views(entries@), content_id) < entries@.len()),
        r matches Some(e) ==> *e == entries@[entry_position(entry_views(entries@), content_id)],
{
    match find_entry_index(entries, content_id) {
        Some(i) => Some(&entries[i]),
        None => None,
    }
}

} // verus!
