use libplasmoid_updater::paths::extract_directory_name;
use libplasmoid_updater::registry::{
    build_id_cache, load_registry_map, parse_raw_entries, parse_registry_entries,
    path_matches_directory, scan_registry_components, strip_glob,
};
use libplasmoid_updater::registry_write::{
    add_entry, create_empty_registry, escape_xml_text, extract_date_from_iso,
    registry_after_install, registry_installed_file_path, update_entry, NewEntry, UpdateFields,
};
use libplasmoid_updater::types::{AvailableUpdate, ComponentType, InstalledComponent};

const SAMPLE: &str = r#"<?xml version="1.0" encoding="UTF-8"?>
<!DOCTYPE khotnewstuff3>
<hotnewstuffregistry>
  <stuff category="705">
    <name>Example</name>
    <providerid>api.kde-look.org</providerid>
    <author>someone</author>
    <version>1.0</version>
    <installedfile>/home/u/.local/share/plasma/plasmoids/com.example/metadata.json</installedfile>
    <id>999</id>
    <releasedate>2024-01-01</releasedate>
    <payload>https://host/old.tar.gz</payload>
    <status>updateable</status>
    <custom attr="x">kept &amp; sound</custom>
  </stuff>
  <stuff category="112">
    <name>Scheme</name>
    <version>2</version>
    <installedfile>/home/u/.local/share/color-schemes/Nice.colors</installedfile>
    <id>12</id>
    <releasedate>2023-05-05</releasedate>
  </stuff>
</hotnewstuffregistry>
"#;

fn widget(dir: &str, name: &str, version: &str) -> InstalledComponent {
    InstalledComponent {
        name: name.to_string(),
        directory_name: dir.to_string(),
        version: version.to_string(),
        component_type: ComponentType::PlasmaWidget,
        path: format!("/home/u/.local/share/plasma/plasmoids/{dir}"),
        is_system: false,
        release_date: String::new(),
    }
}

#[test]
fn raw_entries_are_read_in_document_order() {
    let raws = parse_raw_entries(SAMPLE);
    assert_eq!(raws.len(), 2);
    assert_eq!(raws[0].name, "Example");
    assert_eq!(raws[0].version, "1.0");
    assert_eq!(raws[0].id_text, "999");
    assert_eq!(raws[0].release_date, "2024-01-01");
    assert_eq!(
        raws[0].installed_files,
        vec!["/home/u/.local/share/plasma/plasmoids/com.example/metadata.json".to_string()]
    );
    assert_eq!(raws[0].content_id(), Some(999));
    assert_eq!(raws[1].name, "Scheme");
    assert!(raws[0].path_matches_directory("com.example"));
    assert!(!raws[0].path_matches_directory("com.exam"));
    assert!(!raws[1].path_matches_directory("com.example"));
}

#[test]
fn ill_formed_registry_keeps_the_closed_entries() {
    let broken = "<hotnewstuffregistry><stuff><name>A</name><installedfile>/x/a</installedfile></stuff><stuff><name>B</wrong>";
    let raws = parse_raw_entries(broken);
    assert_eq!(raws.len(), 1);
    assert_eq!(raws[0].name, "A");
}

#[test]
fn registry_entries_need_a_name_and_a_path() {
    let xml = "<hotnewstuffregistry>\
        <stuff><name>NoPath</name></stuff>\
        <stuff><installedfile>/x/y</installedfile></stuff>\
        <stuff><name>Good</name><id>abc</id><installedfile>/x/icons/Good/*</installedfile></stuff>\
        </hotnewstuffregistry>";
    let entries = parse_registry_entries(xml);
    assert_eq!(entries.len(), 1);
    assert_eq!(entries[0].name, "Good");
    assert_eq!(entries[0].installed_path, "/x/icons/Good");
    assert_eq!(entries[0].content_id, 0);
}

#[test]
fn glob_suffix_is_stripped_however_often_it_repeats() {
    assert_eq!(strip_glob("/a/b/*"), "/a/b");
    assert_eq!(strip_glob("/a/b/*/*"), "/a/b");
    assert_eq!(strip_glob("/a/b*"), "/a/b*");
    assert_eq!(strip_glob(""), "");
}

#[test]
fn directory_name_comes_from_the_path() {
    assert_eq!(
        extract_directory_name("/home/u/.local/share/plasma/plasmoids/com.example/metadata.json"),
        Some("com.example".to_string())
    );
    assert_eq!(
        extract_directory_name("/home/u/x/com.example/metadata.desktop"),
        Some("com.example".to_string())
    );
    assert_eq!(
        extract_directory_name("/home/u/.local/share/color-schemes/Nice.colors"),
        Some("Nice.colors".to_string())
    );
    assert_eq!(extract_directory_name("/home/u/icons/Papirus/"), Some("Papirus".to_string()));
    assert_eq!(extract_directory_name("metadata.json"), None);
    assert_eq!(extract_directory_name("/"), None);
    assert_eq!(extract_directory_name(""), None);
    assert_eq!(extract_directory_name("/a/.."), None);
}

#[test]
fn path_segments_are_compared_whole() {
    assert!(path_matches_directory("/a/com.foo/metadata.json", "com.foo"));
    assert!(!path_matches_directory("/a/com.foobar/metadata.json", "com.foo"));
    assert!(path_matches_directory("com.foo", "com.foo"));
    assert!(path_matches_directory("/a//b", ""));
}

#[test]
fn registry_components_are_scanned() {
    let comps = scan_registry_components(ComponentType::ColorScheme, SAMPLE);
    assert_eq!(comps.len(), 2);
    assert_eq!(comps[1].name, "Scheme");
    assert_eq!(comps[1].directory_name, "Nice.colors");
    assert_eq!(comps[1].version, "2");
    assert_eq!(comps[1].path, "/home/u/.local/share/color-schemes/Nice.colors");
    assert_eq!(comps[1].release_date, "2023-05-05");
    assert_eq!(comps[1].component_type, ComponentType::ColorScheme);
    assert!(!comps[1].is_system);
    assert_eq!(comps[0].directory_name, "com.example");
}

#[test]
fn id_cache_maps_directory_names_to_ids() {
    let cache = build_id_cache(&vec![SAMPLE.to_string()]);
    assert_eq!(cache.len(), 2);
    assert_eq!(cache.get("com.example"), Some(999));
    assert_eq!(cache.get("Nice.colors"), Some(12));
    assert_eq!(cache.get("other"), None);
}

#[test]
fn registry_map_gives_release_dates() {
    let map = load_registry_map(SAMPLE);
    assert_eq!(map.release_date("com.example"), Some("2024-01-01".to_string()));
    assert_eq!(map.content_id("com.example"), Some(999));
    assert_eq!(map.release_date("missing"), None);
}

#[test]
fn xml_text_is_escaped() {
    assert_eq!(escape_xml_text("a & b < c > d"), "a &amp; b &lt; c &gt; d");
    assert_eq!(escape_xml_text("plain \"quoted\""), "plain \"quoted\"");
    assert_eq!(escape_xml_text(""), "");
}

#[test]
fn date_is_the_part_before_the_t() {
    assert_eq!(extract_date_from_iso("2024-03-07T09:39:52+00:00"), "2024-03-07");
    assert_eq!(extract_date_from_iso("2024-03-07"), "2024-03-07");
    assert_eq!(extract_date_from_iso(""), "");
}

#[test]
fn recorded_path_depends_on_the_shape() {
    assert_eq!(registry_installed_file_path("/x/com.foo", false), "/x/com.foo/metadata.json");
    assert_eq!(registry_installed_file_path("/x/Nice.colors", true), "/x/Nice.colors");
}

#[test]
fn update_rewrites_the_first_entry_that_names_the_component() {
    let fields = UpdateFields {
        directory_name: "com.example",
        content_id: 1001,
        new_version: "1.1 <beta>",
        download_url: "https://host/new.tar.gz?a=1&b=2",
        installed_path: "/home/u/.local/share/plasma/plasmoids/com.example",
        installed_is_file: false,
        release_date: "2024-06-01",
    };
    let out = update_entry(SAMPLE, &fields).unwrap().expect("entry is found");
    assert!(out.contains("<version>1.1 &lt;beta&gt;</version>"));
    assert!(out.contains("<id>1001</id>"));
    assert!(out.contains("<payload>https://host/new.tar.gz?a=1&amp;b=2</payload>"));
    assert!(out.contains("<releasedate>2024-06-01</releasedate>"));
    assert!(out.contains("<status>installed</status>"));
    assert!(out.contains(
        "<installedfile>/home/u/.local/share/plasma/plasmoids/com.example/metadata.json</installedfile>"
    ));
    // what the update does not know is kept as it stands
    assert!(out.contains("<custom attr=\"x\">kept &amp; sound</custom>"));
    assert!(out.contains("<author>someone</author>"));
    assert!(out.contains("<!DOCTYPE khotnewstuff3>"));
    // the other entry is untouched
    assert!(out.contains("<version>2</version>"));
    assert!(out.contains("<id>12</id>"));
    let raws = parse_raw_entries(&out);
    assert_eq!(raws.len(), 2);
    assert_eq!(raws[0].id_text, "1001");
    assert_eq!(raws[1].id_text, "12");
}

#[test]
fn update_of_an_unknown_component_changes_nothing() {
    let fields = UpdateFields {
        directory_name: "not.there",
        content_id: 1,
        new_version: "1",
        download_url: "u",
        installed_path: "/p",
        installed_is_file: false,
        release_date: "d",
    };
    assert_eq!(update_entry(SAMPLE, &fields).unwrap(), None);
}

#[test]
fn rewriting_keeps_the_entries_of_the_file() {
    let before = parse_raw_entries(SAMPLE);
    let fields = UpdateFields {
        directory_name: "Nice.colors",
        content_id: 12,
        new_version: "2",
        download_url: "",
        installed_path: "/home/u/.local/share/color-schemes/Nice.colors",
        installed_is_file: true,
        release_date: "2023-05-05",
    };
    let out = update_entry(SAMPLE, &fields).unwrap().unwrap();
    let after = parse_raw_entries(&out);
    assert_eq!(before.len(), after.len());
    for (b, a) in before.iter().zip(after.iter()) {
        assert_eq!(b.name, a.name);
        assert_eq!(b.version, a.version);
        assert_eq!(b.id_text, a.id_text);
        assert_eq!(b.release_date, a.release_date);
        assert_eq!(b.installed_files, a.installed_files);
    }
}

#[test]
fn new_entry_goes_before_the_closing_tag() {
    let entry = NewEntry {
        name: "Foo & Bar",
        component_type: ComponentType::PlasmaWidget,
        content_id: 7,
        version: "0.9",
        download_url: "https://host/foo.tar.gz",
        installed_path: "/home/u/.local/share/plasma/plasmoids/com.foo",
        installed_is_file: false,
        release_date: "2024-02-02",
    };
    let out = add_entry(&create_empty_registry(), &entry);
    let expected = "<?xml version=\"1.0\" encoding=\"UTF-8\"?>\n<!DOCTYPE khotnewstuff3>\n<hotnewstuffregistry>\n  <stuff category=\"705\">\n    <name>Foo &amp; Bar</name>\n    <providerid>api.kde-look.org</providerid>\n    <author></author>\n    <homepage>https://store.kde.org/p/7</homepage>\n    <licence></licence>\n    <version>0.9</version>\n    <rating>0</rating>\n    <downloads>0</downloads>\n    <installedfile>/home/u/.local/share/plasma/plasmoids/com.foo/metadata.json</installedfile>\n    <id>7</id>\n    <releasedate>2024-02-02</releasedate>\n    <summary></summary>\n    <changelog></changelog>\n    <preview></preview>\n    <previewBig></previewBig>\n    <payload>https://host/foo.tar.gz</payload>\n    <tags></tags>\n    <status>installed</status>\n  </stuff>\n</hotnewstuffregistry>\n";
    assert_eq!(out, expected);
    // a text without the closing tag gives way to a fresh registry
    assert_eq!(add_entry("garbage", &entry), expected);
}

#[test]
fn registry_update_creates_entry() {
    let update = AvailableUpdate::new(
        widget("com.foo", "foo", "0.8"),
        7,
        "0.9".to_string(),
        "https://host/foo.tar.gz".to_string(),
        "2024-02-02T10:00:00+00:00".to_string(),
    );
    let out = registry_after_install(None, &update, false).unwrap();
    assert!(out.starts_with(
        "<?xml version=\"1.0\" encoding=\"UTF-8\"?>\n<!DOCTYPE khotnewstuff3>\n<hotnewstuffregistry>\n"
    ));
    let raws = parse_raw_entries(&out);
    assert_eq!(raws.len(), 1);
    assert_eq!(
        raws[0].installed_files,
        vec!["/home/u/.local/share/plasma/plasmoids/com.foo/metadata.json".to_string()]
    );
    assert_eq!(raws[0].version, "0.9");
    assert_eq!(raws[0].id_text, "7");
    assert_eq!(raws[0].release_date, "2024-02-02");
    assert!(out.contains("<status>installed</status>"));
    assert!(raws[0].path_matches_directory("com.foo"));
}

#[test]
fn registry_update_rewrites_an_existing_entry() {
    let update = AvailableUpdate::new(
        widget("com.example", "Example", "1.0"),
        999,
        "1.3.0".to_string(),
        "https://host/sample-1.3.0.tar.gz".to_string(),
        "2024-06-01T00:00:00+00:00".to_string(),
    );
    let out = registry_after_install(Some(SAMPLE), &update, false).unwrap();
    let raws = parse_raw_entries(&out);
    assert_eq!(raws.len(), 2);
    let matching: Vec<_> =
        raws.iter().filter(|r| r.path_matches_directory("com.example")).collect();
    assert_eq!(matching.len(), 1);
    assert_eq!(matching[0].version, "1.3.0");
    assert_eq!(matching[0].id_text, "999");
    assert_eq!(matching[0].release_date, "2024-06-01");
    assert!(out.contains("<payload>https://host/sample-1.3.0.tar.gz</payload>"));
    assert!(out.contains("<status>installed</status>"));
}
