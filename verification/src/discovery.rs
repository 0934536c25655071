use crate::metadata::{metadata_view, package_metadata, read_package_metadata, MetadataView};
use crate::paths::{join_path, joined, user_path};
use crate::registry::{
    components_from_entries, components_of, entry_map, parse_registry_entries, raw_entries_of,
    registry_entries_of, registry_views, release_dates_of, texts, RegistryEntry,
    RegistryEntryView, RegistryMap,
};
use crate::text::str_eq;
use crate::types::{
    component_views, opt_text, ComponentType, InstalledComponent, InstalledComponentView,
};
use crate::xml::{document_events, plain_run};
use vstd::prelude::*;

verus! {

/// What an install directory holds under one name.
#[derive(Debug)]
pub struct DirEntryInfo {
    /// The name of the entry within the install directory.
    pub name: String,
    pub is_dir: bool,
    /// The text of the entry's `metadata.json`, where it can be read.
    pub metadata_json: Option<String>,
    /// The text of the entry's `metadata.desktop`, where it can be read.
    pub metadata_desktop: Option<String>,
}

/// The mathematical value of a [`DirEntryInfo`].
pub struct DirEntryView {
    pub name: Seq<char>,
    pub is_dir: bool,
    pub metadata_json: Option<Seq<char>>,
    pub metadata_desktop: Option<Seq<char>>,
}

impl View for DirEntryInfo {
    type V = DirEntryView;

    open spec fn view(&self) -> DirEntryView {
        DirEntryView {
            name: self.name@,
            is_dir: self.is_dir,
            metadata_json: opt_text(self.metadata_json),
            metadata_desktop: opt_text(self.metadata_desktop),
        }
    }
}

/// The views of the entries of an install directory.
pub open spec fn dir_views(entries: Seq<DirEntryInfo>) -> Seq<DirEntryView> {
    entries.map_values(|e: DirEntryInfo| e@)
}

/// The metadata of an entry of an install directory; none for an entry
/// that is no directory or has no metadata file that can be understood.
pub open spec fn entry_metadata(e: DirEntryView) -> Option<MetadataView> {
    if e.is_dir {
        package_metadata(e.metadata_json, e.metadata_desktop)
    } else {
        None
    }
}

/// The name that metadata gives a component, else its directory name.
pub open spec fn name_from(m: MetadataView, directory_name: Seq<char>) -> Seq<char> {
    match m.kplugin {
        Some(k) => match k.name {
            Some(n) => n,
            None => directory_name,
        },
        None => directory_name,
    }
}

/// The version that metadata gives a component, else `0.0.0`.
pub open spec fn version_from(m: MetadataView) -> Seq<char> {
    match m.kplugin {
        Some(k) => match k.version {
            Some(v) => v,
            None => "0.0.0"@,
        },
        None => "0.0.0"@,
    }
}

/// The release date that the registry records for a directory name, else
/// the empty text.
pub open spec fn date_from(dates: Map<Seq<char>, Seq<char>>, directory_name: Seq<char>) -> Seq<char> {
    if dates.contains_key(directory_name) {
        dates[directory_name]
    } else {
        Seq::empty()
    }
}

/// The component that an entry of an install directory stands for.
pub open spec fn component_at(
    dir: Seq<char>,
    e: DirEntryView,
    kind: ComponentType,
    is_system: bool,
    dates: Map<Seq<char>, Seq<char>>,
) -> Option<InstalledComponentView> {
    match entry_metadata(e) {
        Some(m) => Some(
            InstalledComponentView {
                name: name_from(m, e.name),
                directory_name: e.name,
                version: version_from(m),
                component_type: kind,
                path: joined(dir, e.name),
                is_system,
                release_date: date_from(dates, e.name),
            },
        ),
        None => None,
    }
}

/// The components that the entries of an install directory stand for, in order.
pub open spec fn scanned(
    dir: Seq<char>,
    entries: Seq<DirEntryView>,
    kind: ComponentType,
    is_system: bool,
    dates: Map<Seq<char>, Seq<char>>,
) -> Seq<InstalledComponentView>
    decreases entries.len(),
{
    if entries.len() == 0 {
        Seq::empty()
    } else {
        match component_at(dir, entries.last(), kind, is_system, dates) {
            Some(c) => scanned(dir, entries.drop_last(), kind, is_system, dates).push(c),
            None => scanned(dir, entries.drop_last(), kind, is_system, dates),
        }
    }
}

/// Finds the components in an install directory: every subdirectory with a
/// metadata file that can be understood is one. A missing name gives way to
/// the directory name, a missing version to `0.0.0`; the release date is the
/// one that the registry records for the directory name.
pub fn scan_directory(
    dir: &str,
    entries: &Vec<DirEntryInfo>,
    component_type: ComponentType,
    is_system: bool,
    registry_map: &RegistryMap,
) -> (r: Vec<InstalledComponent>)
    ensures
        component_views(r@) == scanned(
            dir@,
            dir_views(entries@),
            component_type,
            is_system,
            registry_map.release_dates(),
        ),
{
    let ghost all = dir_views(entries@);
    let mut components: Vec<InstalledComponent> = Vec::new();
    let mut i: usize = 0;
    proof {
        assert(all.take(0) =~= Seq::<DirEntryView>::empty());
        assert(component_views(components@) =~= Seq::<InstalledComponentView>::empty());
    }
    while i < entries.len()
        invariant
            i <= entries.len(),
            all == dir_views(entries@),
            component_views(components@) == scanned(
                dir@,
                all.take(i as int),
                component_type,
                is_system,
                registry_map.release_dates(),
            ),
        decreases entries.len() - i,
    {
        let e = &entries[i];
        let ghost before = components@;
        proof {
            assert(all.take(i as int + 1).drop_last() =~= all.take(i as int));
            assert(all.take(i as int + 1).last() == e@);
        }
        if e.is_dir {
            let json: Option<&str> = match &e.metadata_json {
                Some(s) => Some(s.as_str()),
                None => None,
            };
            let desktop: Option<&str> = match &e.metadata_desktop {
                Some(s) => Some(s.as_str()),
                None => None,
            };
            match read_package_metadata(json, desktop) {
                Some(metadata) => {
                    let name = match metadata.name() {
                        Some(n) => n.to_owned(),
                        None => e.name.clone(),
                    };
                    let version = match metadata.version() {
                        Some(v) => v.to_owned(),
                        None => "0.0.0".to_owned(),
                    };
                    let release_date = match registry_map.release_date(e.name.as_str()) {
                        Some(d) => d,
                        None => String::new(),
                    };
                    let c = InstalledComponent {
                        name,
                        directory_name: e.name.clone(),
                        version,
                        component_type,
                        path: join_path(dir, e.name.as_str()),
                        is_system,
                        release_date,
                    };
                    components.push(c);
                    proof {
                        assert(component_views(components@) =~= component_views(before).push(c@));
                    }
                },
                None => {},
            }
        }
        i += 1;
    }
    proof {
        assert(all.take(i as int) =~= all);
    }
    components
}

/// What is found on disk for one kind of component.
#[derive(Debug)]
pub struct KindSnapshot {
    pub kind: ComponentType,
    /// The text of the kind's registry file, where it exists.
    pub registry_content: Option<String>,
    /// The entries of the kind's install directory, where it exists.
    pub install_dir: Option<Vec<DirEntryInfo>>,
}

/// The mathematical value of a [`KindSnapshot`].
pub struct KindSnapshotView {
    pub kind: ComponentType,
    pub registry_content: Option<Seq<char>>,
    pub install_dir: Option<Seq<DirEntryView>>,
}

impl View for KindSnapshot {
    type V = KindSnapshotView;

    open spec fn view(&self) -> KindSnapshotView {
        KindSnapshotView {
            kind: self.kind,
            registry_content: opt_text(self.registry_content),
            install_dir: match self.install_dir {
                Some(d) => Some(dir_views(d@)),
                None => None,
            },
        }
    }
}

/// The views of a run of snapshots.
pub open spec fn snapshot_views(snaps: Seq<KindSnapshot>) -> Seq<KindSnapshotView> {
    snaps.map_values(|s: KindSnapshot| s@)
}

/// The entries of a registry file, none where the file does not exist.
pub open spec fn registry_of(content: Option<Seq<char>>) -> Seq<RegistryEntryView> {
    match content {
        Some(c) => registry_entries_of(raw_entries_of(plain_run(document_events(c)))),
        None => Seq::empty(),
    }
}

/// Where the components of a kind are installed: the system-wide
/// directory, or the kind's directory below the user's data directory, which
/// is empty for a kind that is installed system-wide only.
pub open spec fn install_path(kind: ComponentType, system: bool, data_home: Seq<char>) -> Seq<char> {
    if system {
        kind.system_dir()
    } else {
        match kind.user_dir() {
            Some(suffix) => joined(data_home, suffix),
            None => Seq::empty(),
        }
    }
}

/// How far discovery has come: the components found, and the install
/// directories that were scanned.
pub struct Discovery {
    pub components: Seq<InstalledComponentView>,
    pub scanned_dirs: Seq<Seq<char>>,
}

/// Discovery after one more kind.
///
/// A registry-only kind gives the components of its registry file. Any
/// other kind gives the components of its install directory, unless the kind
/// has no install directory, the directory does not exist or an earlier kind
/// has scanned it already.
pub open spec fn discover_step(
    d: Discovery,
    s: KindSnapshotView,
    system: bool,
    data_home: Seq<char>,
) -> Discovery {
    if s.kind.is_registry_only() {
        Discovery {
            components: d.components + components_of(s.kind, registry_of(s.registry_content)),
            ..d
        }
    } else {
        let path = install_path(s.kind, system, data_home);
        if path.len() == 0 || s.install_dir is None || d.scanned_dirs.contains(path) {
            d
        } else {
            Discovery {
                components: d.components + scanned(
                    path,
                    s.install_dir->0,
                    s.kind,
                    system,
                    release_dates_of(registry_of(s.registry_content)),
                ),
                scanned_dirs: d.scanned_dirs.push(path),
            }
        }
    }
}

/// Discovery after a run of kinds.
pub open spec fn discovered(snaps: Seq<KindSnapshotView>, system: bool, data_home: Seq<char>) -> Discovery
    decreases snaps.len(),
{
    if snaps.len() == 0 {
        Discovery { components: Seq::empty(), scanned_dirs: Seq::empty() }
    } else {
        discover_step(discovered(snaps.drop_last(), system, data_home), snaps.last(), system, data_home)
    }
}

fn was_scanned(dirs: &Vec<String>, path: &str) -> (r: bool)
    ensures
        r == texts(dirs@).contains(path@),
{
    let mut i: usize = 0;
    while i < dirs.len()
        invariant
            i <= dirs.len(),
            forall|j: int| 0 <= j < i ==> texts(dirs@)[j] != path@,
        decreases dirs.len() - i,
    {
        proof {
            assert(texts(dirs@)[i as int] == dirs@[i as int]@);
        }
        if str_eq(dirs[i].as_str(), path) {
            return true;
        }
        i += 1;
    }
    false
}

fn entries_of_registry(content: &Option<String>) -> (r: Vec<RegistryEntry>)
    ensures
        registry_views(r@) == registry_of(opt_text(*content)),
{
    match content {
        Some(c) => parse_registry_entries(c.as_str()),
        None => {
            let r: Vec<RegistryEntry> = Vec::new();
            proof {
                assert(registry_views(r@) =~= Seq::<RegistryEntryView>::empty());
            }
            r
        },
    }
}

/// Discovers the installed components from what was found on disk for
/// each kind, in the order of the kinds.
pub fn find_installed(system: bool, data_home: &str, snapshots: &Vec<KindSnapshot>) -> (r: Vec<
    InstalledComponent,
>)
    ensures
        component_views(r@) == discovered(snapshot_views(snapshots@), system, data_home@).components,
{
    let ghost all = snapshot_views(snapshots@);
    let mut components: Vec<InstalledComponent> = Vec::new();
    let mut scanned_dirs: Vec<String> = Vec::new();
    let mut i: usize = 0;
    proof {
        assert(all.take(0) =~= Seq::<KindSnapshotView>::empty());
        assert(component_views(components@) =~= Seq::<InstalledComponentView>::empty());
        assert(texts(scanned_dirs@) =~= Seq::<Seq<char>>::empty());
    }
    while i < snapshots.len()
        invariant
            i <= snapshots.len(),
            all == snapshot_views(snapshots@),
            discovered(all.take(i as int), system, data_home@) == (Discovery {
                components: component_views(components@),
                scanned_dirs: texts(scanned_dirs@),
            }),
        decreases snapshots.len() - i,
    {
        let snap = &snapshots[i];
        let ghost before = components@;
        let ghost dirs_before = scanned_dirs@;
        proof {
            assert(all.take(i as int + 1).drop_last() =~= all.take(i as int));
            assert(all.take(i as int + 1).last() == snap@);
        }
        if snap.kind.registry_only() {
            let entries = entries_of_registry(&snap.registry_content);
            let mut found = components_from_entries(snap.kind, &entries);
            let ghost found_views = component_views(found@);
            components.append(&mut found);
            proof {
                assert(component_views(components@) =~= component_views(before) + found_views);
            }
        } else {
            let path = if system {
                snap.kind.system_path()
            } else {
                user_path(snap.kind, data_home)
            };
            if path.as_str().unicode_len() > 0 && !was_scanned(&scanned_dirs, path.as_str()) {
                match &snap.install_dir {
                    Some(dir_entries) => {
                        let entries = entries_of_registry(&snap.registry_content);
                        let registry_map = entry_map(&entries);
                        let mut found = scan_directory(
                            path.as_str(),
                            dir_entries,
                            snap.kind,
                            system,
                            &registry_map,
                        );
                        let ghost found_views = component_views(found@);
                        components.append(&mut found);
                        scanned_dirs.push(path);
                        proof {
                            assert(component_views(components@) =~= component_views(before)
                                + found_views);
                            assert(texts(scanned_dirs@) =~= texts(dirs_before).push(path@));
                        }
                    },
                    None => {},
                }
            }
        }
        i += 1;
    }
    proof {
        assert(all.take(i as int) =~= all);
    }
    components
}

/// Every component that a scan of an install directory finds stands for a
/// subdirectory with a metadata file that can be understood, and lies at
/// that subdirectory's path.
pub proof fn scanned_components_have_metadata(
    dir: Seq<char>,
    entries: Seq<DirEntryView>,
    kind: ComponentType,
    is_system: bool,
    dates: Map<Seq<char>, Seq<char>>,
)
    ensures
        forall|i: int|
            0 <= i < scanned(dir, entries, kind, is_system, dates).len() ==> exists|k: int|
                0 <= k < entries.len() && component_at(
                    dir,
                    #[trigger] entries[k],
                    kind,
                    is_system,
                    dates,
                ) == Some(#[trigger] scanned(dir, entries, kind, is_system, dates)[i]),
    decreases entries.len(),
{
    if entries.len() > 0 {
        scanned_components_have_metadata(dir, entries.drop_last(), kind, is_system, dates);
        let now = scanned(dir, entries, kind, is_system, dates);
        let before = scanned(dir, entries.drop_last(), kind, is_system, dates);
        assert forall|i: int| 0 <= i < now.len() implies exists|k: int|
            0 <= k < entries.len() && component_at(
                dir,
                #[trigger] entries[k],
                kind,
                is_system,
                dates,
            ) == Some(#[trigger] now[i]) by {
            if i < before.len() {
                let k = choose|k: int|
                    0 <= k < entries.drop_last().len() && component_at(
                        dir,
                        #[trigger] entries.drop_last()[k],
                        kind,
                        is_system,
                        dates,
                    ) == Some(before[i]);
                assert(entries[k] == entries.drop_last()[k]);
            } else {
                assert(component_at(dir, entries[entries.len() - 1], kind, is_system, dates)
                    == Some(now[i]));
            }
        }
    }
}

/// Whether a component is accounted for by what was found on disk: it is
/// of a registry-only kind and stands in that kind's registry file, or it is
/// of another kind and stands for a subdirectory of that kind's install
/// directory with a metadata file that can be understood.
pub open spec fn accounted_for(
    c: InstalledComponentView,
    snaps: Seq<KindSnapshotView>,
    system: bool,
    data_home: Seq<char>,
) -> bool {
    exists|k: int|
        0 <= k < snaps.len() && #[trigger] backs_component(c, snaps[k], system, data_home)
}

/// Whether the snapshot of a kind accounts for a component.
pub open spec fn backs_component(
    c: InstalledComponentView,
    s: KindSnapshotView,
    system: bool,
    data_home: Seq<char>,
) -> bool {
    if s.kind.is_registry_only() {
        components_of(s.kind, registry_of(s.registry_content)).contains(c)
    } else {
        s.install_dir is Some && exists|j: int|
            0 <= j < s.install_dir->0.len() && entry_metadata(#[trigger] s.install_dir->0[j])
                is Some && c.directory_name == s.install_dir->0[j].name && c.path == joined(
                install_path(s.kind, system, data_home),
                s.install_dir->0[j].name,
            )
    }
}

/// Every discovered component is accounted for: it comes from the
/// registry file of a registry-only kind, or a metadata file exists for it in
/// its install directory.
pub proof fn discovered_components_are_accounted_for(
    snaps: Seq<KindSnapshotView>,
    system: bool,
    data_home: Seq<char>,
)
    ensures
        forall|i: int|
            0 <= i < discovered(snaps, system, data_home).components.len() ==> accounted_for(
                #[trigger] discovered(snaps, system, data_home).components[i],
                snaps,
                system,
                data_home,
            ),
    decreases snaps.len(),
{
    if snaps.len() > 0 {
        let prev = discovered(snaps.drop_last(), system, data_home);
        let now = discovered(snaps, system, data_home);
        let s = snaps.last();
        discovered_components_are_accounted_for(snaps.drop_last(), system, data_home);
        assert forall|i: int| 0 <= i < now.components.len() implies accounted_for(
            #[trigger] now.components[i],
            snaps,
            system,
            data_home,
        ) by {
            let c = now.components[i];
            if i < prev.components.len() {
                assert(c == prev.components[i]);
                let k = choose|k: int|
                    0 <= k < snaps.drop_last().len() && #[trigger] backs_component(
                        c,
                        snaps.drop_last()[k],
                        system,
                        data_home,
                    );
                assert(snaps[k] == snaps.drop_last()[k]);
                assert(backs_component(c, snaps[k], system, data_home));
            } else {
                let j = i - prev.components.len();
                if s.kind.is_registry_only() {
                    let found = components_of(s.kind, registry_of(s.registry_content));
                    assert(found[j] == c);
                    assert(found.contains(c));
                } else {
                    let path = install_path(s.kind, system, data_home);
                    let dates = release_dates_of(registry_of(s.registry_content));
                    let found = scanned(path, s.install_dir->0, s.kind, system, dates);
                    assert(found[j] == c);
                    scanned_components_have_metadata(path, s.install_dir->0, s.kind, system, dates);
                    let e = choose|e: int|
                        0 <= e < s.install_dir->0.len() && component_at(
                            path,
                            #[trigger] s.install_dir->0[e],
                            s.kind,
                            system,
                            dates,
                        ) == Some(found[j]);
                    assert(entry_metadata(s.install_dir->0[e]) is Some);
                }
                assert(backs_component(c, snaps[snaps.len() - 1], system, data_home));
            }
        }
    }
}

/// Discovers the installed components; the same as [`find_installed`].
pub fn scan_installed_components(system: bool, data_home: &str, snapshots: &Vec<KindSnapshot>) -> (r:
    Vec<InstalledComponent>)
    ensures
        component_views(r@) == discovered(snapshot_views(snapshots@), system, data_home@).components,
{
    find_installed(system, data_home, snapshots)
}

} // verus!
