use crate::config::IdTable;
use crate::paths::{directory_name_of, extract_directory_name, join_path, joined, registry_path};
use crate::text::{
    chars_eq, chars_of, parse_u64, parsed_u64, pieces, rows_of, slice_chars, split_chars, str_eq,
    string_of,
};
use crate::types::{component_views, ComponentType, InstalledComponent, InstalledComponentView};
use vstd::hash_map::StringHashMap;
use crate::xml::{
    document_events, plain_run, read_document, views_of, XmlEvent, XmlEventKind, XmlEventView,
};
use vstd::prelude::*;

verus! {

/// The views of a run of texts.
pub open spec fn texts(v: Seq<String>) -> Seq<Seq<char>> {
    v.map_values(|s: String| s@)
}

/// The fields of one `<stuff>` element of a registry file, as they stand in it.
#[derive(Debug)]
pub struct RawEntry {
    pub name: String,
    pub version: String,
    /// The catalog id as written; it may be no number.
    pub id_text: String,
    pub release_date: String,
    /// The paths of the `installedfile` elements, in document order.
    pub installed_files: Vec<String>,
    /// The paths of the `uninstalledfile` elements, in document order.
    pub uninstalled_files: Vec<String>,
}

/// The mathematical value of a [`RawEntry`].
pub struct RawEntryView {
    pub name: Seq<char>,
    pub version: Seq<char>,
    pub id_text: Seq<char>,
    pub release_date: Seq<char>,
    pub installed_files: Seq<Seq<char>>,
    pub uninstalled_files: Seq<Seq<char>>,
}

impl View for RawEntry {
    type V = RawEntryView;

    open spec fn view(&self) -> RawEntryView {
        RawEntryView {
            name: self.name@,
            version: self.version@,
            id_text: self.id_text@,
            release_date: self.release_date@,
            installed_files: texts(self.installed_files@),
            uninstalled_files: texts(self.uninstalled_files@),
        }
    }
}

/// The views of a run of raw entries.
pub open spec fn raw_views(entries: Seq<RawEntry>) -> Seq<RawEntryView> {
    entries.map_values(|e: RawEntry| e@)
}

/// An entry of which nothing has been read yet.
pub open spec fn blank_entry() -> RawEntryView {
    RawEntryView {
        name: Seq::empty(),
        version: Seq::empty(),
        id_text: Seq::empty(),
        release_date: Seq::empty(),
        installed_files: Seq::empty(),
        uninstalled_files: Seq::empty(),
    }
}

/// Where the reading of a registry file stands after some of its events.
pub struct ScanState {
    /// The name of the element that was opened last.
    pub element: Seq<char>,
    /// Whether a `<stuff>` element is open.
    pub in_entry: bool,
    /// What has been read of the open entry.
    pub current: RawEntryView,
    /// The entries that were closed, in document order.
    pub entries: Seq<RawEntryView>,
}

/// The state before any event.
pub open spec fn scan_start() -> ScanState {
    ScanState {
        element: Seq::empty(),
        in_entry: false,
        current: blank_entry(),
        entries: Seq::empty(),
    }
}

/// The entry after a text node of the element `element` has been read into it.
pub open spec fn with_text(entry: RawEntryView, element: Seq<char>, text: Seq<char>) -> RawEntryView {
    if element == "name"@ {
        RawEntryView { name: text, ..entry }
    } else if element == "version"@ {
        RawEntryView { version: text, ..entry }
    } else if element == "id"@ {
        RawEntryView { id_text: text, ..entry }
    } else if element == "releasedate"@ {
        RawEntryView { release_date: text, ..entry }
    } else if element == "installedfile"@ {
        RawEntryView { installed_files: entry.installed_files.push(text), ..entry }
    } else if element == "uninstalledfile"@ {
        RawEntryView { uninstalled_files: entry.uninstalled_files.push(text), ..entry }
    } else {
        entry
    }
}

/// The state after one more event.
///
/// A start tag names the element that following text belongs to, and a
/// `<stuff>` start tag opens a fresh entry. The `</stuff>` end tag closes the
/// open entry. Text inside an entry goes to the field that the last opened
/// element stands for. Every other event leaves the state as it is.
pub open spec fn scan_step(st: ScanState, ev: XmlEventView) -> ScanState {
    match ev.kind {
        XmlEventKind::Start => if ev.name == "stuff"@ {
            ScanState { element: ev.name, in_entry: true, current: blank_entry(), ..st }
        } else {
            ScanState { element: ev.name, ..st }
        },
        XmlEventKind::End => if ev.name == "stuff"@ && st.in_entry {
            ScanState {
                in_entry: false,
                current: blank_entry(),
                entries: st.entries.push(st.current),
                ..st
            }
        } else {
            st
        },
        XmlEventKind::Text => if st.in_entry {
            ScanState { current: with_text(st.current, st.element, ev.text), ..st }
        } else {
            st
        },
        _ => st,
    }
}

/// The state after a run of events.
pub open spec fn scan(events: Seq<XmlEventView>) -> ScanState
    decreases events.len(),
{
    if events.len() == 0 {
        scan_start()
    } else {
        scan_step(scan(events.drop_last()), events.last())
    }
}

/// The raw entries that a run of events holds: one for each closed `<stuff>` element.
pub open spec fn raw_entries_of(events: Seq<XmlEventView>) -> Seq<RawEntryView> {
    scan(events).entries
}

impl RawEntry {
    /// An entry of which nothing has been read yet.
    pub fn blank() -> (r: Self)
        ensures
            r@ == blank_entry(),
    {
        let r = RawEntry {
            name: String::new(),
            version: String::new(),
            id_text: String::new(),
            release_date: String::new(),
            installed_files: Vec::new(),
            uninstalled_files: Vec::new(),
        };
        proof {
            assert(texts(r.installed_files@) =~= Seq::<Seq<char>>::empty());
            assert(texts(r.uninstalled_files@) =~= Seq::<Seq<char>>::empty());
        }
        r
    }

    /// Reads a text node of the element `element` into the entry.
    pub fn take_text(&mut self, element: &str, text: &str)
        ensures
            final(self)@ == with_text(old(self)@, element@, text@),
    {
        proof {
            reveal_strlit("name");
            reveal_strlit("version");
            reveal_strlit("id");
            reveal_strlit("releasedate");
            reveal_strlit("installedfile");
            reveal_strlit("uninstalledfile");
        }
        if str_eq(element, "name") {
            self.name = text.to_owned();
        } else if str_eq(element, "version") {
            self.version = text.to_owned();
        } else if str_eq(element, "id") {
            self.id_text = text.to_owned();
        } else if str_eq(element, "releasedate") {
            self.release_date = text.to_owned();
        } else if str_eq(element, "installedfile") {
            let t = text.to_owned();
            self.installed_files.push(t);
            proof {
                assert(texts(self.installed_files@) =~= texts(old(self).installed_files@).push(
                    text@,
                ));
            }
        } else if str_eq(element, "uninstalledfile") {
            let t = text.to_owned();
            self.uninstalled_files.push(t);
            proof {
                assert(texts(self.uninstalled_files@) =~= texts(
                    old(self).uninstalled_files@,
                ).push(text@));
            }
        }
    }
}

/// Collects the raw entries from the events of a registry file.
pub fn raw_entries_from_events(events: &Vec<XmlEvent>) -> (r: Vec<RawEntry>)
    ensures
        raw_views(r@) == raw_entries_of(views_of(events@)),
{
    let ghost all = views_of(events@);
    let mut entries: Vec<RawEntry> = Vec::new();
    let mut element: String = String::new();
    let mut in_entry = false;
    let mut current = RawEntry::blank();
    let mut i: usize = 0;
    proof {
        assert(all.take(0) =~= Seq::<XmlEventView>::empty());
        assert(raw_views(entries@) =~= Seq::<RawEntryView>::empty());
    }
    while i < events.len()
        invariant
            i <= events.len(),
            all == views_of(events@),
            scan(all.take(i as int)) == (ScanState {
                element: element@,
                in_entry,
                current: current@,
                entries: raw_views(entries@),
            }),
        decreases events.len() - i,
    {
        let ev = &events[i];
        let ghost before = entries@;
        proof {
            assert(all.take(i as int + 1).drop_last() =~= all.take(i as int));
            assert(all.take(i as int + 1).last() == ev@);
            reveal_strlit("stuff");
        }
        match ev.kind {
            XmlEventKind::Start => {
                element = ev.name.clone();
                if str_eq(ev.name.as_str(), "stuff") {
                    in_entry = true;
                    current = RawEntry::blank();
                }
            },
            XmlEventKind::End => {
                if str_eq(ev.name.as_str(), "stuff") && in_entry {
                    let finished = current;
                    current = RawEntry::blank();
                    entries.push(finished);
                    in_entry = false;
                    proof {
                        assert(raw_views(entries@) =~= raw_views(before).push(finished@));
                    }
                }
            },
            XmlEventKind::Text => {
                if in_entry {
                    current.take_text(element.as_str(), ev.text.as_str());
                }
            },
            _ => {},
        }
        i += 1;
    }
    proof {
        assert(all.take(i as int) =~= all);
    }
    entries
}

/// Reads the raw entries of a registry file.
///
/// Where the file is ill-formed, the entries that were closed before the
/// error are returned.
pub fn parse_raw_entries(xml: &str) -> (r: Vec<RawEntry>)
    ensures
        raw_views(r@) == raw_entries_of(plain_run(document_events(xml@))),
{
    let doc = read_document(xml);
    raw_entries_from_events(&doc.events)
}

/// A path without the `/*` that may end it, however often it is repeated.
pub open spec fn without_glob(s: Seq<char>) -> Seq<char>
    decreases s.len(),
{
    if s.len() >= 2 && s[s.len() - 2] == '/' && s[s.len() - 1] == '*' {
        without_glob(s.take(s.len() - 2))
    } else {
        s
    }
}

/// The path at which an entry says its component is installed: the first
/// of its installed files, without a trailing `/*`.
pub open spec fn first_path(e: RawEntryView) -> Option<Seq<char>> {
    if e.installed_files.len() > 0 {
        Some(without_glob(e.installed_files[0]))
    } else {
        None
    }
}

/// Whether one of the segments of `path` between slashes is `name`.
pub open spec fn has_segment(path: Seq<char>, name: Seq<char>) -> bool {
    pieces(path, '/').contains(name)
}

/// Whether one of the paths has `name` as a segment.
pub open spec fn any_has_segment(paths: Seq<Seq<char>>, name: Seq<char>) -> bool {
    exists|i: int| 0 <= i < paths.len() && has_segment(#[trigger] paths[i], name)
}

/// Whether an entry names `directory_name` in one of its installed or
/// uninstalled files.
pub open spec fn entry_mentions(e: RawEntryView, directory_name: Seq<char>) -> bool {
    any_has_segment(e.installed_files, directory_name) || any_has_segment(
        e.uninstalled_files,
        directory_name,
    )
}

/// Removes every `/*` from the end of a path.
pub fn strip_glob(path: &str) -> (r: String)
    ensures
        r@ == without_glob(path@),
{
    let v = chars_of(path);
    let mut n: usize = v.len();
    proof {
        assert(v@.take(n as int) =~= v@);
    }
    while n >= 2 && v[n - 2] == '/' && v[n - 1] == '*'
        invariant
            n <= v.len(),
            without_glob(v@) == without_glob(v@.take(n as int)),
        decreases n,
    {
        proof {
            assert(v@.take(n as int).take(n - 2) =~= v@.take(n - 2));
        }
        n -= 2;
    }
    let r = slice_chars(&v, 0, n);
    proof {
        assert(r@ =~= v@.take(n as int));
    }
    string_of(&r)
}

/// Checks if a path contains a directory name as a segment.
#[verifier::loop_isolation(false)]
pub fn path_matches_directory(path: &str, directory_name: &str) -> (r: bool)
    ensures
        r == has_segment(path@, directory_name@),
{
    let v = chars_of(path);
    let name = chars_of(directory_name);
    let ps = split_chars(&v, '/');
    let mut i: usize = 0;
    while i < ps.len()
        invariant
            i <= ps.len(),
            rows_of(ps@) == pieces(v@, '/'),
            name@ == directory_name@,
            forall|j: int| 0 <= j < i ==> rows_of(ps@)[j] != name@,
        decreases ps.len() - i,
    {
        proof {
            assert(rows_of(ps@)[i as int] == ps@[i as int]@);
        }
        if chars_eq(&ps[i], &name) {
            proof {
                assert(pieces(path@, '/')[i as int] == directory_name@);
            }
            return true;
        }
        i += 1;
    }
    false
}

fn any_path_matches(paths: &Vec<String>, directory_name: &str) -> (r: bool)
    ensures
        r == any_has_segment(texts(paths@), directory_name@),
{
    let mut i: usize = 0;
    while i < paths.len()
        invariant
            i <= paths.len(),
            forall|j: int| 0 <= j < i ==> !has_segment(#[trigger] texts(paths@)[j], directory_name@),
        decreases paths.len() - i,
    {
        proof {
            assert(texts(paths@)[i as int] == paths@[i as int]@);
        }
        if path_matches_directory(paths[i].as_str(), directory_name) {
            return true;
        }
        i += 1;
    }
    false
}

impl RawEntry {
    /// The catalog id of the entry, where its id field is a number.
    pub fn content_id(&self) -> (r: Option<u64>)
        ensures
            r == parsed_u64(self.id_text@),
    {
        parse_u64(self.id_text.as_str())
    }

    /// The path at which the entry says its component is installed.
    pub fn first_installed_path(&self) -> (r: Option<String>)
        ensures
            r is Some == first_path(self@) is Some,
            r matches Some(p) ==> first_path(self@) == Some(p@),
    {
        if self.installed_files.len() > 0 {
            proof {
                assert(texts(self.installed_files@)[0] == self.installed_files@[0]@);
            }
            Some(strip_glob(self.installed_files[0].as_str()))
        } else {
            None
        }
    }

    /// Whether the entry names `directory_name` in one of its files.
    pub fn path_matches_directory(&self, directory_name: &str) -> (r: bool)
        ensures
            r == entry_mentions(self@, directory_name@),
    {
        any_path_matches(&self.installed_files, directory_name) || any_path_matches(
            &self.uninstalled_files,
            directory_name,
        )
    }
}

/// An installed component as a registry file records it.
#[derive(Debug)]
pub struct RegistryEntry {
    pub name: String,
    pub version: String,
    /// The catalog id; zero where the file gives none.
    pub content_id: u64,
    pub installed_path: String,
    pub release_date: String,
}

/// The mathematical value of a [`RegistryEntry`].
pub struct RegistryEntryView {
    pub name: Seq<char>,
    pub version: Seq<char>,
    pub content_id: u64,
    pub installed_path: Seq<char>,
    pub release_date: Seq<char>,
}

impl View for RegistryEntry {
    type V = RegistryEntryView;

    open spec fn view(&self) -> RegistryEntryView {
        RegistryEntryView {
            name: self.name@,
            version: self.version@,
            content_id: self.content_id,
            installed_path: self.installed_path@,
            release_date: self.release_date@,
        }
    }
}

impl Clone for RegistryEntry {
    fn clone(&self) -> (r: Self)
        ensures
            r@ == self@,
    {
        RegistryEntry {
            name: self.name.clone(),
            version: self.version.clone(),
            content_id: self.content_id,
            installed_path: self.installed_path.clone(),
            release_date: self.release_date.clone(),
        }
    }
}

/// The views of a run of registry entries.
pub open spec fn registry_views(entries: Seq<RegistryEntry>) -> Seq<RegistryEntryView> {
    entries.map_values(|e: RegistryEntry| e@)
}

/// The registry entry that a raw entry stands for: none where it names no
/// component or no installed file.
pub open spec fn registry_entry_of(raw: RawEntryView) -> Option<RegistryEntryView> {
    match first_path(raw) {
        Some(p) => if raw.name.len() == 0 || p.len() == 0 {
            None
        } else {
            Some(
                RegistryEntryView {
                    name: raw.name,
                    version: raw.version,
                    content_id: match parsed_u64(raw.id_text) {
                        Some(id) => id,
                        None => 0,
                    },
                    installed_path: p,
                    release_date: raw.release_date,
                },
            )
        },
        None => None,
    }
}

/// The registry entries that a run of raw entries stands for, in order.
pub open spec fn registry_entries_of(raws: Seq<RawEntryView>) -> Seq<RegistryEntryView>
    decreases raws.len(),
{
    if raws.len() == 0 {
        Seq::empty()
    } else {
        match registry_entry_of(raws.last()) {
            Some(e) => registry_entries_of(raws.drop_last()).push(e),
            None => registry_entries_of(raws.drop_last()),
        }
    }
}

/// The registry entry that a raw entry stands for.
pub fn entry_from_raw(raw: &RawEntry) -> (r: Option<RegistryEntry>)
    ensures
        r is Some == registry_entry_of(raw@) is Some,
        r matches Some(e) ==> registry_entry_of(raw@) == Some(e@),
{
    match raw.first_installed_path() {
        Some(p) => {
            if raw.name.as_str().unicode_len() == 0 || p.as_str().unicode_len() == 0 {
                None
            } else {
                let content_id = match raw.content_id() {
                    Some(id) => id,
                    None => 0,
                };
                Some(
                    RegistryEntry {
                        name: raw.name.clone(),
                        version: raw.version.clone(),
                        content_id,
                        installed_path: p,
                        release_date: raw.release_date.clone(),
                    },
                )
            }
        },
        None => None,
    }
}

/// The registry entries that a run of raw entries stands for.
pub fn entries_from_raw(raws: &Vec<RawEntry>) -> (r: Vec<RegistryEntry>)
    ensures
        registry_views(r@) == registry_entries_of(raw_views(raws@)),
{
    let ghost all = raw_views(raws@);
    let mut r: Vec<RegistryEntry> = Vec::new();
    let mut i: usize = 0;
    proof {
        assert(all.take(0) =~= Seq::<RawEntryView>::empty());
        assert(registry_views(r@) =~= Seq::<RegistryEntryView>::empty());
    }
    while i < raws.len()
        invariant
            i <= raws.len(),
            all == raw_views(raws@),
            registry_views(r@) == registry_entries_of(all.take(i as int)),
        decreases raws.len() - i,
    {
        let ghost before = r@;
        proof {
            assert(all.take(i as int + 1).drop_last() =~= all.take(i as int));
            assert(all.take(i as int + 1).last() == raws@[i as int]@);
        }
        match entry_from_raw(&raws[i]) {
            Some(e) => {
                r.push(e);
                proof {
                    assert(registry_views(r@) =~= registry_views(before).push(e@));
                }
            },
            None => {},
        }
        i += 1;
    }
    proof {
        assert(all.take(i as int) =~= all);
    }
    r
}

/// Reads the entries of a registry file.
pub fn parse_registry_entries(xml: &str) -> (r: Vec<RegistryEntry>)
    ensures
        registry_views(r@) == registry_entries_of(
            raw_entries_of(plain_run(document_events(xml@))),
        ),
{
    let raws = parse_raw_entries(xml);
    entries_from_raw(&raws)
}

/// The installed component that a registry entry of a kind stands for: none
/// where its path names nothing.
pub open spec fn component_of(kind: ComponentType, e: RegistryEntryView) -> Option<
    InstalledComponentView,
> {
    match directory_name_of(e.installed_path) {
        Some(directory_name) => Some(
            InstalledComponentView {
                name: e.name,
                directory_name,
                version: e.version,
                component_type: kind,
                path: e.installed_path,
                is_system: false,
                release_date: e.release_date,
            },
        ),
        None => None,
    }
}

/// The installed components that a run of registry entries stands for, in order.
pub open spec fn components_of(kind: ComponentType, entries: Seq<RegistryEntryView>) -> Seq<
    InstalledComponentView,
>
    decreases entries.len(),
{
    if entries.len() == 0 {
        Seq::empty()
    } else {
        match component_of(kind, entries.last()) {
            Some(c) => components_of(kind, entries.drop_last()).push(c),
            None => components_of(kind, entries.drop_last()),
        }
    }
}

/// The installed components that the entries of a registry file stand for.
pub fn components_from_entries(component_type: ComponentType, entries: &Vec<RegistryEntry>) -> (r:
    Vec<InstalledComponent>)
    ensures
        component_views(r@) == components_of(component_type, registry_views(entries@)),
{
    let ghost all = registry_views(entries@);
    let mut r: Vec<InstalledComponent> = Vec::new();
    let mut i: usize = 0;
    proof {
        assert(all.take(0) =~= Seq::<RegistryEntryView>::empty());
        assert(component_views(r@) =~= Seq::<InstalledComponentView>::empty());
    }
    while i < entries.len()
        invariant
            i <= entries.len(),
            all == registry_views(entries@),
            component_views(r@) == components_of(component_type, all.take(i as int)),
        decreases entries.len() - i,
    {
        let ghost before = r@;
        let e = &entries[i];
        proof {
            assert(all.take(i as int + 1).drop_last() =~= all.take(i as int));
            assert(all.take(i as int + 1).last() == e@);
        }
        match extract_directory_name(e.installed_path.as_str()) {
            Some(directory_name) => {
                let c = InstalledComponent {
                    name: e.name.clone(),
                    directory_name,
                    version: e.version.clone(),
                    component_type,
                    path: e.installed_path.clone(),
                    is_system: false,
                    release_date: e.release_date.clone(),
                };
                r.push(c);
                proof {
                    assert(component_views(r@) =~= component_views(before).push(c@));
                }
            },
            None => {},
        }
        i += 1;
    }
    proof {
        assert(all.take(i as int) =~= all);
    }
    r
}

/// Finds the installed components of a kind in the text of its registry file.
pub fn scan_registry_components(component_type: ComponentType, content: &str) -> (r: Vec<
    InstalledComponent,
>)
    ensures
        component_views(r@) == components_of(
            component_type,
            registry_entries_of(raw_entries_of(plain_run(document_events(content@)))),
        ),
{
    let entries = parse_registry_entries(content);
    components_from_entries(component_type, &entries)
}

/// The id table after the raw entries of a registry file have been read
/// into it: each entry with a numeric id and a path that names a component
/// gives that component's directory name its id.
pub open spec fn cache_with(table: Map<Seq<char>, u64>, raws: Seq<RawEntryView>) -> Map<
    Seq<char>,
    u64,
>
    decreases raws.len(),
{
    if raws.len() == 0 {
        table
    } else {
        let before = cache_with(table, raws.drop_last());
        match cache_item(raws.last()) {
            Some((name, id)) => before.insert(name, id),
            None => before,
        }
    }
}

/// The directory name and catalog id that a raw entry gives to the id table.
pub open spec fn cache_item(raw: RawEntryView) -> Option<(Seq<char>, u64)> {
    match (parsed_u64(raw.id_text), first_path(raw)) {
        (Some(id), Some(p)) => match directory_name_of(p) {
            Some(name) => Some((name, id)),
            None => None,
        },
        _ => None,
    }
}

/// Reads the raw entries of one registry file into an id table.
pub fn add_to_id_cache(cache: &mut IdTable, raws: &Vec<RawEntry>)
    ensures
        final(cache)@ == cache_with(old(cache)@, raw_views(raws@)),
{
    let ghost all = raw_views(raws@);
    let mut i: usize = 0;
    proof {
        assert(all.take(0) =~= Seq::<RawEntryView>::empty());
    }
    while i < raws.len()
        invariant
            i <= raws.len(),
            all == raw_views(raws@),
            cache@ == cache_with(old(cache)@, all.take(i as int)),
        decreases raws.len() - i,
    {
        let raw = &raws[i];
        proof {
            assert(all.take(i as int + 1).drop_last() =~= all.take(i as int));
            assert(all.take(i as int + 1).last() == raw@);
        }
        match raw.content_id() {
            Some(id) => match raw.first_installed_path() {
                Some(p) => match extract_directory_name(p.as_str()) {
                    Some(name) => {
                        cache.insert(name, id);
                    },
                    None => {},
                },
                None => {},
            },
            None => {},
        }
        i += 1;
    }
    proof {
        assert(all.take(i as int) =~= all);
    }
}

/// The id table that a run of registry files builds, file after file.
pub open spec fn id_cache_of(files: Seq<Seq<char>>) -> Map<Seq<char>, u64>
    decreases files.len(),
{
    if files.len() == 0 {
        Map::empty()
    } else {
        cache_with(
            id_cache_of(files.drop_last()),
            raw_entries_of(plain_run(document_events(files.last()))),
        )
    }
}

/// Builds the table from directory names to catalog ids out of the texts of
/// the registry files, taken in the order of the kinds.
pub fn build_id_cache(files: &Vec<String>) -> (r: IdTable)
    ensures
        r@ == id_cache_of(texts(files@)),
{
    let ghost all = texts(files@);
    let mut cache = IdTable::new();
    let mut i: usize = 0;
    proof {
        assert(all.take(0) =~= Seq::<Seq<char>>::empty());
    }
    while i < files.len()
        invariant
            i <= files.len(),
            all == texts(files@),
            cache@ == id_cache_of(all.take(i as int)),
        decreases files.len() - i,
    {
        proof {
            assert(all.take(i as int + 1).drop_last() =~= all.take(i as int));
            assert(all.take(i as int + 1).last() == files@[i as int]@);
        }
        let raws = parse_raw_entries(files[i].as_str());
        add_to_id_cache(&mut cache, &raws);
        i += 1;
    }
    proof {
        assert(all.take(i as int) =~= all);
    }
    cache
}

/// The release dates that the entries of a registry file give, by the
/// directory name of each entry's component; a later entry for a name takes
/// the place of an earlier one.
pub open spec fn release_dates_of(entries: Seq<RegistryEntryView>) -> Map<Seq<char>, Seq<char>>
    decreases entries.len(),
{
    if entries.len() == 0 {
        Map::empty()
    } else {
        match directory_name_of(entries.last().installed_path) {
            Some(name) => release_dates_of(entries.drop_last()).insert(
                name,
                entries.last().release_date,
            ),
            None => release_dates_of(entries.drop_last()),
        }
    }
}

/// The catalog ids that the entries of a registry file give, by directory name.
pub open spec fn content_ids_of(entries: Seq<RegistryEntryView>) -> Map<Seq<char>, u64>
    decreases entries.len(),
{
    if entries.len() == 0 {
        Map::empty()
    } else {
        match directory_name_of(entries.last().installed_path) {
            Some(name) => content_ids_of(entries.drop_last()).insert(
                name,
                entries.last().content_id,
            ),
            None => content_ids_of(entries.drop_last()),
        }
    }
}

/// The entries of a registry file by the directory name of their component.
pub struct RegistryMap {
    map: StringHashMap<RegistryEntry>,
}

impl RegistryMap {
    /// The release date that the map gives for each directory name.
    pub closed spec fn release_dates(self) -> Map<Seq<char>, Seq<char>> {
        self.map@.map_values(|e: RegistryEntry| e.release_date@)
    }

    /// The catalog id that the map gives for each directory name.
    pub closed spec fn content_ids(self) -> Map<Seq<char>, u64> {
        self.map@.map_values(|e: RegistryEntry| e.content_id)
    }

    /// The release date of the component with the given directory name.
    pub fn release_date(&self, directory_name: &str) -> (r: Option<String>)
        ensures
            r is Some == self.release_dates().contains_key(directory_name@),
            r matches Some(d) ==> d@ == self.release_dates()[directory_name@],
    {
        match self.map.get(directory_name) {
            Some(e) => Some(e.release_date.clone()),
            None => None,
        }
    }

    /// The catalog id of the component with the given directory name.
    pub fn content_id(&self, directory_name: &str) -> (r: Option<u64>)
        ensures
            r == (if self.content_ids().contains_key(directory_name@) {
                Some(self.content_ids()[directory_name@])
            } else {
                None
            }),
    {
        match self.map.get(directory_name) {
            Some(e) => Some(e.content_id),
            None => None,
        }
    }
}

/// Loads the entries of a registry file into a map keyed by directory name.
pub fn entry_map(entries: &Vec<RegistryEntry>) -> (r: RegistryMap)
    ensures
        r.release_dates() == release_dates_of(registry_views(entries@)),
        r.content_ids() == content_ids_of(registry_views(entries@)),
{
    let ghost all = registry_views(entries@);
    let mut map: StringHashMap<RegistryEntry> = StringHashMap::new();
    let mut i: usize = 0;
    proof {
        assert(all.take(0) =~= Seq::<RegistryEntryView>::empty());
        assert(map@.map_values(|e: RegistryEntry| e.release_date@) =~= Map::<
            Seq<char>,
            Seq<char>,
        >::empty());
        assert(map@.map_values(|e: RegistryEntry| e.content_id) =~= Map::<Seq<char>, u64>::empty());
    }
    while i < entries.len()
        invariant
            i <= entries.len(),
            all == registry_views(entries@),
            map@.map_values(|e: RegistryEntry| e.release_date@) == release_dates_of(
                all.take(i as int),
            ),
            map@.map_values(|e: RegistryEntry| e.content_id) == content_ids_of(all.take(i as int)),
        decreases entries.len() - i,
    {
        let e = &entries[i];
        let ghost before = map@;
        proof {
            assert(all.take(i as int + 1).drop_last() =~= all.take(i as int));
            assert(all.take(i as int + 1).last() == e@);
        }
        match extract_directory_name(e.installed_path.as_str()) {
            Some(name) => {
                let copy = e.clone();
                map.insert(name, copy);
                proof {
                    assert(map@.map_values(|e: RegistryEntry| e.release_date@) =~= before.map_values(
                        |e: RegistryEntry| e.release_date@,
                    ).insert(name@, e.release_date@));
                    assert(map@.map_values(|e: RegistryEntry| e.content_id) =~= before.map_values(
                        |e: RegistryEntry| e.content_id,
                    ).insert(name@, e.content_id));
                }
            },
            None => {},
        }
        i += 1;
    }
    proof {
        assert(all.take(i as int) =~= all);
    }
    RegistryMap { map }
}

/// Loads the text of a registry file into a map keyed by directory name.
pub fn load_registry_map(content: &str) -> (r: RegistryMap)
    ensures
        r.release_dates() == release_dates_of(
            registry_entries_of(raw_entries_of(plain_run(document_events(content@)))),
        ),
        r.content_ids() == content_ids_of(
            registry_entries_of(raw_entries_of(plain_run(document_events(content@)))),
        ),
{
    let entries = parse_registry_entries(content);
    entry_map(&entries)
}

/// The registry file of one kind of component.
pub struct RegistryManager {
    file_path: String,
}

impl RegistryManager {
    /// The path of the registry file.
    pub closed spec fn location(self) -> Seq<char> {
        self.file_path@
    }

    /// The manager of the registry file of a kind, below the given registry directory.
    pub fn for_component_type(component_type: ComponentType, knewstuff_dir: &str) -> (r: Option<
        Self,
    >)
        ensures
            r is Some,
            r->0.location() == joined(knewstuff_dir@, component_type.registry_name()->0),
    {
        match registry_path(component_type, knewstuff_dir) {
            Some(file_path) => Some(RegistryManager { file_path }),
            None => None,
        }
    }

    /// The path of the registry file.
    pub fn path(&self) -> (r: &str)
        ensures
            r@ == self.location(),
    {
        self.file_path.as_str()
    }

    /// The entries of the registry file, given its text; none where the
    /// file does not exist.
    pub fn read_entries(&self, content: Option<&str>) -> (r: Vec<RegistryEntry>)
        ensures
            registry_views(r@) == match content {
                Some(c) => registry_entries_of(raw_entries_of(plain_run(document_events(c@)))),
                None => Seq::<RegistryEntryView>::empty(),
            },
    {
        match content {
            Some(c) => parse_registry_entries(c),
            None => {
                let r: Vec<RegistryEntry> = Vec::new();
                proof {
                    assert(registry_views(r@) =~= Seq::<RegistryEntryView>::empty());
                }
                r
            },
        }
    }

    /// The entries of the registry file by directory name.
    pub fn load_entry_map(&self, content: Option<&str>) -> (r: RegistryMap)
        ensures
            r.content_ids() == content_ids_of(
                match content {
                    Some(c) => registry_entries_of(
                        raw_entries_of(plain_run(document_events(c@))),
                    ),
                    None => Seq::<RegistryEntryView>::empty(),
                },
            ),
    {
        let entries = self.read_entries(content);
        entry_map(&entries)
    }

    /// The catalog id that the registry file records for a directory name.
    pub fn find_content_id(&self, content: Option<&str>, directory_name: &str) -> (r: Option<u64>)
        ensures
            ({
                let ids = content_ids_of(
                    match content {
                        Some(c) => registry_entries_of(
                            raw_entries_of(plain_run(document_events(c@))),
                        ),
                        None => Seq::<RegistryEntryView>::empty(),
                    },
                );
                r == (if ids.contains_key(directory_name@) {
                    Some(ids[directory_name@])
                } else {
                    None
                })
            }),
    {
        let map = self.load_entry_map(content);
        map.content_id(directory_name)
    }
}

} // verus!
