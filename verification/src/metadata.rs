use crate::error::Error;
use crate::json::{
    json_from_text, json_get, json_kind, json_kind_of, json_member, json_parse, json_pretty,
    json_set, json_str, json_string, json_text_of, json_to_pretty, json_with_member, parsed_json,
    JsonKind,
};
use crate::text::{
    chars_of, has_prefix, lines_of, push_chars, push_str, rows_of, split_lines,
    starts_with_chars, string_of,
};
use crate::types::{opt_text, ComponentType, KPluginInfo, PackageMetadata};
use serde_json::Value;
use vstd::prelude::*;

verus! {

/// The value of the first entry for a key in a section of a desktop file;
/// none where the file cannot be read, or has no such section or entry.
pub uninterp spec fn desktop_value(content: Seq<char>, section: Seq<char>, key: Seq<char>) -> Option<
    Seq<char>,
>;

/// Whether a desktop file can be read and has a section.
pub uninterp spec fn desktop_section_exists(content: Seq<char>, section: Seq<char>) -> bool;

/// `Entry::parse`, `Entry::section` and `Section::attr` of
/// `freedesktop_entry_parser`: the first value of a key in a section.
#[verifier::external_body]
pub(crate) fn desktop_attr(content: &str, section: &str, key: &str) -> (r: Option<String>)
    ensures
        opt_text(r) == desktop_value(content@, section@, key@),
{
    let entry = freedesktop_entry_parser::Entry::parse(content).ok()?;
    entry.section(section)?.attr(key).first().cloned()
}

/// `Entry::parse` and `Entry::has_section` of `freedesktop_entry_parser`:
/// whether the file can be read and has the section.
#[verifier::external_body]
pub(crate) fn desktop_has_section(content: &str, section: &str) -> (r: bool)
    ensures
        r == desktop_section_exists(content@, section@),
{
    freedesktop_entry_parser::Entry::parse(content).map_or(false, |e| e.has_section(section))
}

/// The mathematical value of a [`KPluginInfo`].
pub struct KPluginView {
    pub name: Option<Seq<char>>,
    pub version: Option<Seq<char>>,
    pub description: Option<Seq<char>>,
    pub icon: Option<Seq<char>>,
}

/// The mathematical value of a [`PackageMetadata`].
pub struct MetadataView {
    pub kplugin: Option<KPluginView>,
    pub kpackage_structure: Option<Seq<char>>,
}

/// The view of a plugin section.
pub open spec fn plugin_view(k: KPluginInfo) -> KPluginView {
    KPluginView {
        name: opt_text(k.name),
        version: opt_text(k.version),
        description: opt_text(k.description),
        icon: opt_text(k.icon),
    }
}

/// The view of a component's metadata.
pub open spec fn metadata_view(m: PackageMetadata) -> MetadataView {
    MetadataView {
        kplugin: match m.kplugin {
            Some(k) => Some(plugin_view(k)),
            None => None,
        },
        kpackage_structure: opt_text(m.kpackage_structure),
    }
}

/// What a desktop file says of a component: the name, version, icon and
/// comment of its `Desktop Entry` section; nothing where the file has no
/// such section.
pub open spec fn desktop_metadata(content: Seq<char>) -> Option<MetadataView> {
    if desktop_section_exists(content, "Desktop Entry"@) {
        Some(
            MetadataView {
                kplugin: Some(
                    KPluginView {
                        name: desktop_value(content, "Desktop Entry"@, "Name"@),
                        version: desktop_value(
                            content,
                            "Desktop Entry"@,
                            "X-KDE-PluginInfo-Version"@,
                        ),
                        description: desktop_value(content, "Desktop Entry"@, "Comment"@),
                        icon: desktop_value(content, "Desktop Entry"@, "Icon"@),
                    },
                ),
                kpackage_structure: None,
            },
        )
    } else {
        None
    }
}

/// Reads a component's metadata from the text of its `metadata.desktop` file.
pub fn read_metadata_desktop(content: &str) -> (r: Option<PackageMetadata>)
    ensures
        r is Some == desktop_metadata(content@) is Some,
        r matches Some(m) ==> desktop_metadata(content@) == Some(metadata_view(m)),
{
    if !desktop_has_section(content, "Desktop Entry") {
        return None;
    }
    Some(
        PackageMetadata {
            kplugin: Some(
                KPluginInfo {
                    name: desktop_attr(content, "Desktop Entry", "Name"),
                    version: desktop_attr(content, "Desktop Entry", "X-KDE-PluginInfo-Version"),
                    icon: desktop_attr(content, "Desktop Entry", "Icon"),
                    description: desktop_attr(content, "Desktop Entry", "Comment"),
                },
            ),
            kpackage_structure: None,
        },
    )
}

/// What an optional text member of a JSON object holds.
pub enum TextMember {
    /// The member is missing or null.
    Absent,
    /// The member is a string with this text.
    Given(Seq<char>),
    /// The member is of another kind.
    Invalid,
}

/// What the optional text member of a JSON object under a key holds.
pub open spec fn text_member(v: Value, key: Seq<char>) -> TextMember {
    match json_member(v, key) {
        None => TextMember::Absent,
        Some(m) => if json_kind_of(m) == JsonKind::Null {
            TextMember::Absent
        } else if json_kind_of(m) == JsonKind::Text {
            TextMember::Given(json_text_of(m))
        } else {
            TextMember::Invalid
        },
    }
}

/// The text of a member that is given.
pub open spec fn member_text(m: TextMember) -> Option<Seq<char>> {
    match m {
        TextMember::Given(t) => Some(t),
        _ => None,
    }
}

/// The plugin section that a JSON value stands for; none where it is no
/// object or one of its texts is of another kind.
pub open spec fn plugin_of(v: Value) -> Option<KPluginView> {
    if json_kind_of(v) != JsonKind::Object || text_member(v, "Name"@) is Invalid || text_member(
        v,
        "Version"@,
    ) is Invalid || text_member(v, "Description"@) is Invalid || text_member(v, "Icon"@)
        is Invalid {
        None
    } else {
        Some(
            KPluginView {
                name: member_text(text_member(v, "Name"@)),
                version: member_text(text_member(v, "Version"@)),
                description: member_text(text_member(v, "Description"@)),
                icon: member_text(text_member(v, "Icon"@)),
            },
        )
    }
}

/// The metadata that a JSON value stands for; none where it is no object,
/// or its plugin section or its package structure is of the wrong kind.
pub open spec fn metadata_of(v: Value) -> Option<MetadataView> {
    if json_kind_of(v) != JsonKind::Object || text_member(v, "KPackageStructure"@) is Invalid {
        None
    } else {
        match json_member(v, "KPlugin"@) {
            None => Some(
                MetadataView {
                    kplugin: None,
                    kpackage_structure: member_text(text_member(v, "KPackageStructure"@)),
                },
            ),
            Some(k) => if json_kind_of(k) == JsonKind::Null {
                Some(
                    MetadataView {
                        kplugin: None,
                        kpackage_structure: member_text(text_member(v, "KPackageStructure"@)),
                    },
                )
            } else {
                match plugin_of(k) {
                    Some(p) => Some(
                        MetadataView {
                            kplugin: Some(p),
                            kpackage_structure: member_text(
                                text_member(v, "KPackageStructure"@),
                            ),
                        },
                    ),
                    None => None,
                }
            },
        }
    }
}

/// What the text of a `metadata.json` file says of a component; nothing
/// where the text is no JSON or not of the expected shape.
pub open spec fn json_metadata(content: Seq<char>) -> Option<MetadataView> {
    match parsed_json(content) {
        Some(v) => metadata_of(v),
        None => None,
    }
}

fn read_text_member(v: &Value, key: &str) -> (r: Result<Option<String>, ()>)
    ensures
        r is Err == text_member(*v, key@) is Invalid,
        r matches Ok(o) ==> opt_text(o) == member_text(text_member(*v, key@)),
{
    match json_get(v, key) {
        None => Ok(None),
        Some(m) => match json_kind(&m) {
            JsonKind::Null => Ok(None),
            JsonKind::Text => Ok(json_str(&m)),
            _ => Err(()),
        },
    }
}

fn read_plugin(v: &Value) -> (r: Option<KPluginInfo>)
    ensures
        r is Some == plugin_of(*v) is Some,
        r matches Some(k) ==> plugin_of(*v) == Some(plugin_view(k)),
{
    match json_kind(v) {
        JsonKind::Object => {},
        _ => {
            return None;
        },
    }
    let name = match read_text_member(v, "Name") {
        Ok(o) => o,
        Err(_) => {
            return None;
        },
    };
    let version = match read_text_member(v, "Version") {
        Ok(o) => o,
        Err(_) => {
            return None;
        },
    };
    let description = match read_text_member(v, "Description") {
        Ok(o) => o,
        Err(_) => {
            return None;
        },
    };
    let icon = match read_text_member(v, "Icon") {
        Ok(o) => o,
        Err(_) => {
            return None;
        },
    };
    Some(KPluginInfo { name, version, description, icon })
}

/// Reads a component's metadata from the text of its `metadata.json` file.
pub fn read_metadata_json(content: &str) -> (r: Option<PackageMetadata>)
    ensures
        r is Some == json_metadata(content@) is Some,
        r matches Some(m) ==> json_metadata(content@) == Some(metadata_view(m)),
{
    let v = match json_parse(content) {
        Ok(v) => v,
        Err(_) => {
            return None;
        },
    };
    match json_kind(&v) {
        JsonKind::Object => {},
        _ => {
            return None;
        },
    }
    let kpackage_structure = match read_text_member(&v, "KPackageStructure") {
        Ok(o) => o,
        Err(_) => {
            return None;
        },
    };
    let kplugin = match json_get(&v, "KPlugin") {
        None => None,
        Some(k) => match json_kind(&k) {
            JsonKind::Null => None,
            _ => match read_plugin(&k) {
                Some(p) => Some(p),
                None => {
                    return None;
                },
            },
        },
    };
    Some(PackageMetadata { kplugin, kpackage_structure })
}

/// What the metadata files of a package say of it: the JSON file where it
/// can be read, else the desktop file.
pub open spec fn package_metadata(json: Option<Seq<char>>, desktop: Option<Seq<char>>) -> Option<
    MetadataView,
> {
    let from_json = match json {
        Some(c) => json_metadata(c),
        None => None,
    };
    if from_json is Some {
        from_json
    } else {
        match desktop {
            Some(c) => desktop_metadata(c),
            None => None,
        }
    }
}

/// Reads the metadata of a package from the texts of its metadata files,
/// as far as they exist.
pub fn read_package_metadata(json: Option<&str>, desktop: Option<&str>) -> (r: Option<
    PackageMetadata,
>)
    ensures
        r is Some == package_metadata(
            match json {
                Some(c) => Some(c@),
                None => None,
            },
            match desktop {
                Some(c) => Some(c@),
                None => None,
            },
        ) is Some,
        r matches Some(m) ==> package_metadata(
            match json {
                Some(c) => Some(c@),
                None => None,
            },
            match desktop {
                Some(c) => Some(c@),
                None => None,
            },
        ) == Some(metadata_view(m)),
{
    let from_json = match json {
        Some(c) => read_metadata_json(c),
        None => None,
    };
    match from_json {
        Some(m) => Some(m),
        None => match desktop {
            Some(c) => read_metadata_desktop(c),
            None => None,
        },
    }
}

/// What patching makes of a metadata value: the package structure is set
/// to the kind's packaging type where it has one, and the version of the
/// plugin section is set where the value has such a section. None where a
/// value that is to be written into is neither an object nor null.
pub open spec fn patched_value(v: Value, kind: ComponentType, version: Seq<char>) -> Option<Value> {
    let first = match kind.packaging() {
        Some(t) => if json_kind_of(v) == JsonKind::Object || json_kind_of(v) == JsonKind::Null {
            Some(json_with_member(v, "KPackageStructure"@, json_string(t)))
        } else {
            None
        },
        None => Some(v),
    };
    match first {
        None => None,
        Some(f) => match json_member(f, "KPlugin"@) {
            None => Some(f),
            Some(k) => if (json_kind_of(k) == JsonKind::Object || json_kind_of(k)
                == JsonKind::Null) && (json_kind_of(f) == JsonKind::Object || json_kind_of(f)
                == JsonKind::Null) {
                Some(
                    json_with_member(
                        f,
                        "KPlugin"@,
                        json_with_member(k, "Version"@, json_string(version)),
                    ),
                )
            } else {
                None
            },
        },
    }
}

/// The text of a `metadata.json` file after patching; none where the text
/// is no JSON of the expected shape or cannot be written out again.
pub open spec fn patched_json(content: Seq<char>, kind: ComponentType, version: Seq<char>) -> Option<
    Seq<char>,
> {
    match parsed_json(content) {
        None => None,
        Some(v) => match patched_value(v, kind, version) {
            None => None,
            Some(p) => json_pretty(p),
        },
    }
}

/// Patches the text of a `metadata.json` file: sets the package structure
/// to the kind's packaging type and the plugin's version to the new version.
pub fn patch_metadata(content: &str, component_type: ComponentType, new_version: &str) -> (r:
    Result<String, Error>)
    ensures
        r is Ok == patched_json(content@, component_type, new_version@) is Some,
        r matches Ok(s) ==> patched_json(content@, component_type, new_version@) == Some(s@),
        r matches Err(e) ==> e is MetadataParse,
{
    let v = match json_parse(content) {
        Ok(v) => v,
        Err(msg) => {
            return Err(Error::MetadataParse(msg));
        },
    };
    let first = match component_type.kpackage_type() {
        Some(t) => {
            match json_kind(&v) {
                JsonKind::Object | JsonKind::Null => json_set(
                    v,
                    "KPackageStructure",
                    json_from_text(t),
                ),
                _ => {
                    return Err(Error::MetadataParse("metadata is not an object".to_owned()));
                },
            }
        },
        None => v,
    };
    let patched = match json_get(&first, "KPlugin") {
        None => first,
        Some(k) => {
            let plugin_ok = match json_kind(&k) {
                JsonKind::Object | JsonKind::Null => true,
                _ => false,
            };
            let outer_ok = match json_kind(&first) {
                JsonKind::Object | JsonKind::Null => true,
                _ => false,
            };
            if !plugin_ok || !outer_ok {
                return Err(Error::MetadataParse("KPlugin is not an object".to_owned()));
            }
            let plugin = json_set(k, "Version", json_from_text(new_version));
            json_set(first, "KPlugin", plugin)
        },
    };
    match json_to_pretty(&patched) {
        Some(s) => Ok(s),
        None => Err(Error::MetadataParse("metadata cannot be written".to_owned())),
    }
}

/// A line of a desktop file after patching: the version line carries the
/// new version, every other line is kept.
pub open spec fn patched_line(line: Seq<char>, version: Seq<char>) -> Seq<char> {
    if has_prefix(line, "X-KDE-PluginInfo-Version="@) {
        "X-KDE-PluginInfo-Version="@ + version
    } else {
        line
    }
}

/// The lines of a text, each patched and followed by a line feed.
pub open spec fn patched_lines(lines: Seq<Seq<char>>, version: Seq<char>) -> Seq<char>
    decreases lines.len(),
{
    if lines.len() == 0 {
        Seq::empty()
    } else {
        patched_lines(lines.drop_last(), version) + patched_line(lines.last(), version) + seq![
            '\n',
        ]
    }
}

/// Whether one of the lines is a version line.
pub open spec fn has_version_line(lines: Seq<Seq<char>>) -> bool {
    exists|i: int|
        0 <= i < lines.len() && has_prefix(#[trigger] lines[i], "X-KDE-PluginInfo-Version="@)
}

/// The text of a desktop file with the new version: its lines, patched and
/// joined by line feeds; a line feed is added at the end where the text had
/// one and the joined lines have none. None where no line gives a version.
pub open spec fn patched_desktop(content: Seq<char>, version: Seq<char>) -> Option<Seq<char>> {
    let lines = lines_of(content);
    if !has_version_line(lines) {
        None
    } else {
        let all = patched_lines(lines, version);
        let joined_lines = all.drop_last();
        if content.last() == '\n' && !(joined_lines.len() > 0 && joined_lines.last() == '\n') {
            Some(all)
        } else {
            Some(joined_lines)
        }
    }
}

/// Patches the text of a `metadata.desktop` file to carry the new version.
/// Returns `None` where the file has no version line and is left alone.
pub fn patch_metadata_desktop(content: &str, new_version: &str) -> (r: Option<String>)
    ensures
        r is Some == patched_desktop(content@, new_version@) is Some,
        r matches Some(s) ==> patched_desktop(content@, new_version@) == Some(s@),
{
    let v = chars_of(content);
    let lines = split_lines(&v);
    let key = chars_of("X-KDE-PluginInfo-Version=");
    let version = chars_of(new_version);
    let ghost all = rows_of(lines@);
    let mut out: Vec<char> = Vec::new();
    let mut found = false;
    let mut i: usize = 0;
    proof {
        assert(all.take(0) =~= Seq::<Seq<char>>::empty());
    }
    while i < lines.len()
        invariant
            i <= lines.len(),
            all == rows_of(lines@),
            key@ == "X-KDE-PluginInfo-Version="@,
            version@ == new_version@,
            out@ == patched_lines(all.take(i as int), new_version@),
            found == has_version_line(all.take(i as int)),
            i > 0 ==> out@.len() > 0 && out@.last() == '\n',
        decreases lines.len() - i,
    {
        proof {
            assert(all.take(i as int + 1).drop_last() =~= all.take(i as int));
            assert(all.take(i as int + 1).last() == lines@[i as int]@);
            assert(all[i as int] == lines@[i as int]@);
        }
        let ghost found_before = found;
        if starts_with_chars(&lines[i], &key) {
            found = true;
            push_chars(&mut out, &key);
            push_chars(&mut out, &version);
        } else {
            push_chars(&mut out, &lines[i]);
        }
        out.push('\n');
        proof {
            let prefix = all.take(i as int);
            let next = all.take(i as int + 1);
            assert(out@ =~= patched_lines(next, new_version@));
            if found_before {
                let w = choose|w: int|
                    0 <= w < prefix.len() && has_prefix(
                        #[trigger] prefix[w],
                        "X-KDE-PluginInfo-Version="@,
                    );
                assert(next[w] == prefix[w]);
            }
            if has_version_line(next) && !found {
                let w = choose|w: int|
                    0 <= w < next.len() && has_prefix(
                        #[trigger] next[w],
                        "X-KDE-PluginInfo-Version="@,
                    );
                if w < i {
                    assert(prefix[w] == next[w]);
                }
            }
            if found && !found_before {
                assert(has_prefix(next[i as int], "X-KDE-PluginInfo-Version="@));
            }
        }
        i += 1;
    }
    proof {
        assert(all.take(i as int) =~= all);
    }
    if !found {
        return None;
    }
    let ends_with_newline = v.len() > 0 && v[v.len() - 1] == '\n';
    proof {
        if v@.len() > 0 {
            assert(v@.last() == v@[v@.len() - 1]);
        }
    }
    let n = out.len();
    let joined_ends = n >= 2 && out[n - 2] == '\n';
    proof {
        if n >= 2 {
            assert(out@.drop_last().last() == out@[n - 2]);
        }
    }
    if !(ends_with_newline && !joined_ends) {
        out.pop();
    }
    Some(string_of(&out))
}

} // verus!
