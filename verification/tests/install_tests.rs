use libplasmoid_updater::cli::{
    bold, count_message, dry_run_summary, exit_code_from_status, exit_code_from_summary,
    filter_by_name, filled_cells, format_download_size, format_version, name_width,
    padding_between, spinner_index, stage_label, summary_line, ExitCode,
};
use libplasmoid_updater::config::{parse_verbosity, RestartBehavior, Verbosity};
use libplasmoid_updater::discovery::{find_installed, scan_directory, DirEntryInfo, KindSnapshot};
use libplasmoid_updater::error::Error;
use libplasmoid_updater::install::{
    dir_contains, find_component_root_in_archive, find_icon_theme_dir, find_metadata_json,
    find_package_dir, find_wallpaper_source, get_install_strategy, has_component_structure,
    install_direct, install_via_kpackagetool, is_raw_installable_file, is_single_file_component,
    locate_color_scheme_file, ArchiveEntry, InstallStrategy,
};
use libplasmoid_updater::metadata::{
    patch_metadata, patch_metadata_desktop, read_metadata_desktop, read_metadata_json,
    read_package_metadata,
};
use libplasmoid_updater::pipeline::{
    any_requires_restart, checksum_of, download_file_name, extract_dir_name, filter_excluded,
    is_excluded, record_update, requires_plasmashell_restart, restart_decision, verify_checksum,
    verify_download, NextAction, Pipeline, RestartAction, Stage,
};
use libplasmoid_updater::registry::load_registry_map;
use libplasmoid_updater::types::{
    AvailableUpdate, CheckResult, ComponentDiagnostic, ComponentType, InstalledComponent,
    JsonOutput, UpdateSummary,
};

fn component(kind: ComponentType, dir: &str, name: &str) -> InstalledComponent {
    InstalledComponent {
        name: name.to_string(),
        directory_name: dir.to_string(),
        version: "1.0".to_string(),
        component_type: kind,
        path: format!("/home/u/.local/share/x/{dir}"),
        is_system: false,
        release_date: String::new(),
    }
}

fn update(kind: ComponentType, dir: &str, name: &str, id: u64) -> AvailableUpdate {
    AvailableUpdate::new(
        component(kind, dir, name),
        id,
        "2.0".to_string(),
        "https://host/x.tar.gz".to_string(),
        "2024-06-01".to_string(),
    )
}

fn file(parent: &str, name: &str) -> ArchiveEntry {
    ArchiveEntry {
        path: format!("{parent}/{name}"),
        parent: parent.to_string(),
        name: name.to_string(),
        is_dir: false,
        is_file: true,
    }
}

fn dir(parent: &str, name: &str) -> ArchiveEntry {
    ArchiveEntry {
        path: format!("{parent}/{name}"),
        parent: parent.to_string(),
        name: name.to_string(),
        is_dir: true,
        is_file: false,
    }
}

#[test]
fn checksum_is_verified_without_regard_to_case() {
    assert_eq!(checksum_of(&vec![]), "d41d8cd98f00b204e9800998ecf8427e");
    assert_eq!(checksum_of(&b"abc".to_vec()), "900150983cd24fb0d6963f7d28e17f72");
    assert!(verify_download(&vec![], Some("D41D8CD98F00B204E9800998ECF8427E")).is_ok());
    assert!(verify_download(&vec![], None).is_ok());
    match verify_download(&b"abc".to_vec(), Some("d41d8cd98f00b204e9800998ecf8427e")) {
        Err(Error::ChecksumMismatch { expected, actual }) => {
            assert_eq!(expected, "d41d8cd98f00b204e9800998ecf8427e");
            assert_eq!(actual, "900150983cd24fb0d6963f7d28e17f72");
        }
        other => panic!("unexpected {:?}", other),
    }
    assert!(verify_checksum(Some("ABC"), "abc").is_ok());
    assert!(verify_checksum(Some("abc"), "ABC").is_err());
}

#[test]
fn download_names() {
    assert_eq!(download_file_name("https://host/dir/sample-1.3.0.tar.gz"), "sample-1.3.0.tar.gz");
    assert_eq!(download_file_name("plain"), "plain");
    assert_eq!(download_file_name("https://host/dir/"), "");
    assert_eq!(extract_dir_name("com.foo"), "extract-com.foo");
}

#[test]
fn rollback_on_extraction_failure() {
    let (p, action) = Pipeline::start();
    assert!(matches!(action, NextAction::Run(Stage::Backup)));
    let (p, action) = p.advance(Ok(()));
    assert!(matches!(action, NextAction::Run(Stage::Download)));
    let (p, action) = p.advance(Ok(()));
    assert!(matches!(action, NextAction::Run(Stage::Install)));
    let (p, action) = p.advance(Err(Error::extraction("bsdtar exited with status 1")));
    // the backup is restored, and the registry is never touched
    assert!(matches!(action, NextAction::Run(Stage::Restore)));
    let (_, action) = p.advance(Ok(()));
    match action {
        NextAction::Finish(Err(Error::ExtractionFailed(m))) => {
            assert_eq!(m, "bsdtar exited with status 1")
        }
        other => panic!("unexpected {:?}", other),
    }
}

#[test]
fn pipeline_steps_in_order() {
    let (p, _) = Pipeline::start();
    let (p, _) = p.advance(Ok(()));
    let (p, _) = p.advance(Ok(()));
    let (p, action) = p.advance(Ok(()));
    assert!(matches!(action, NextAction::Run(Stage::PostInstall)));
    // a failure after the install does not fail the update
    let (_, action) = p.advance(Err(Error::Io("registry is read-only".into())));
    assert!(matches!(action, NextAction::Finish(Ok(()))));

    // a failed backup ends the update before anything is changed
    let (p, _) = Pipeline::start();
    let (_, action) = p.advance(Err(Error::backup("disk full")));
    assert!(matches!(action, NextAction::Finish(Err(Error::BackupFailed(_)))));

    // a failed download is restored too
    let (p, _) = Pipeline::start();
    let (p, _) = p.advance(Ok(()));
    let (p, action) = p.advance(Err(Error::checksum("a", "b")));
    assert!(matches!(action, NextAction::Run(Stage::Restore)));
    // where restoring fails as well, the error says so
    let (_, action) = p.advance(Err(Error::backup("copy dir: denied")));
    match action {
        NextAction::Finish(Err(Error::Other(m))) => assert_eq!(
            m,
            "installation failed and restore failed: backup failed: copy dir: denied"
        ),
        other => panic!("unexpected {:?}", other),
    }
}

#[test]
fn restart_policy() {
    assert!(requires_plasmashell_restart(&component(ComponentType::PlasmaWidget, "a", "A")));
    assert!(requires_plasmashell_restart(&component(ComponentType::KWinSwitcher, "a", "A")));
    assert!(!requires_plasmashell_restart(&component(ComponentType::KWinEffect, "a", "A")));
    assert!(!requires_plasmashell_restart(&component(ComponentType::IconTheme, "a", "A")));
    let updates = vec![
        update(ComponentType::KWinEffect, "e", "Effect", 1),
        update(ComponentType::PlasmaWidget, "w", "Widget", 2),
    ];
    assert!(any_requires_restart(&updates));
    assert!(!any_requires_restart(&updates[..1].to_vec()));
    assert!(!any_requires_restart(&vec![]));
    let both = vec!["Effect".to_string(), "Widget".to_string()];
    let effect_only = vec!["Effect".to_string()];
    assert_eq!(restart_decision(RestartBehavior::Always, &updates, &both), RestartAction::Restart);
    assert_eq!(restart_decision(RestartBehavior::Prompt, &updates, &both), RestartAction::Ask);
    assert_eq!(restart_decision(RestartBehavior::Never, &updates, &both), RestartAction::Nothing);
    assert_eq!(
        restart_decision(RestartBehavior::Always, &updates, &effect_only),
        RestartAction::Nothing
    );
    assert_eq!(restart_decision(RestartBehavior::Always, &updates, &vec![]), RestartAction::Nothing);
}

#[test]
fn exclusion_matches_name_or_directory() {
    let updates = vec![
        update(ComponentType::PlasmaWidget, "org.kde.a", "Alpha", 1),
        update(ComponentType::PlasmaWidget, "org.kde.b", "Beta", 2),
        update(ComponentType::PlasmaWidget, "org.kde.c", "Gamma", 3),
    ];
    let excluded = vec!["org.kde.a".to_string(), "Gamma".to_string()];
    assert!(is_excluded(&updates[0], &excluded));
    assert!(!is_excluded(&updates[1], &excluded));
    assert!(is_excluded(&updates[2], &excluded));
    let kept = filter_excluded(&updates, &excluded);
    assert_eq!(kept.len(), 1);
    assert_eq!(kept[0].installed.name, "Beta");
    assert_eq!(filter_excluded(&updates, &vec![]).len(), 3);
    let named = filter_by_name(&updates, "beta");
    assert_eq!(named.len(), 1);
    assert_eq!(named[0].content_id, 2);
    assert_eq!(filter_by_name(&updates, "org.kde.c")[0].content_id, 3);
    assert_eq!(filter_by_name(&updates, "1")[0].content_id, 1);
    assert!(filter_by_name(&updates, "ORG.KDE.C").is_empty());
}

#[test]
fn outcomes_are_recorded() {
    let mut summary = UpdateSummary::new();
    record_update(&mut summary, "A".to_string(), Ok(()));
    record_update(&mut summary, "B".to_string(), Err(Error::install("tool failed")));
    summary.add_skipped("C".to_string());
    assert_eq!(summary.succeeded, vec!["A".to_string()]);
    assert_eq!(summary.failed, vec![("B".to_string(), "installation failed: tool failed".to_string())]);
    assert_eq!(summary.skipped, vec!["C".to_string()]);
    assert!(summary.has_failures());
    assert_eq!(summary.exit_code(), 1);
    assert_eq!(summary.total_processed(), 3);
    assert_eq!(exit_code_from_summary(&summary), ExitCode::PartialFailure);
    assert_eq!(summary_line(&summary), "Update Summary: 1 succeeded, 1 failed, 1 skipped (3 total)");
    let mut other = UpdateSummary::new();
    other.add_success("D".to_string());
    assert_eq!(other.exit_code(), 0);
    assert_eq!(exit_code_from_summary(&other), ExitCode::Success);
    summary.merge(other);
    assert_eq!(summary.succeeded, vec!["A".to_string(), "D".to_string()]);
    let updates = vec![
        update(ComponentType::PlasmaWidget, "a", "Alpha", 1),
        update(ComponentType::PlasmaWidget, "b", "Beta", 2),
    ];
    let dry = dry_run_summary(&updates);
    assert_eq!(dry.skipped, vec!["Alpha".to_string(), "Beta".to_string()]);
    assert!(dry.succeeded.is_empty() && dry.failed.is_empty());
}

#[test]
fn kinds_choose_their_strategy() {
    assert_eq!(get_install_strategy(ComponentType::ColorScheme), Some(InstallStrategy::ColorScheme));
    assert_eq!(get_install_strategy(ComponentType::IconTheme), Some(InstallStrategy::IconTheme));
    assert_eq!(get_install_strategy(ComponentType::Wallpaper), Some(InstallStrategy::Wallpaper));
    assert_eq!(get_install_strategy(ComponentType::SddmTheme), Some(InstallStrategy::ThemeDir));
    assert_eq!(get_install_strategy(ComponentType::PlasmaWidget), None);
    for kind in ComponentType::all() {
        assert_eq!(get_install_strategy(kind).is_some(), kind.kpackage_type().is_none());
    }
}

#[test]
fn single_file_components() {
    assert!(is_single_file_component("/tmp/x/Nice.colors", ComponentType::ColorScheme));
    assert!(is_single_file_component("/tmp/x/NICE.COLORSCHEME", ComponentType::ColorScheme));
    assert!(!is_single_file_component("/tmp/x/nice.tar.gz", ComponentType::ColorScheme));
    assert!(is_single_file_component("/tmp/x/hills.JPG", ComponentType::Wallpaper));
    assert!(is_single_file_component("/tmp/x/hills.webp", ComponentType::Wallpaper));
    assert!(!is_single_file_component("/tmp/x/hills.jpg", ComponentType::ColorScheme));
    assert!(!is_single_file_component("/tmp/x/hills.jpg", ComponentType::PlasmaWidget));
    assert!(!is_single_file_component("/", ComponentType::Wallpaper));
    assert!(is_raw_installable_file("/tmp/x/a.png", ComponentType::Wallpaper));
}

#[test]
fn archive_is_searched_in_walk_order() {
    let root = "/tmp/extract-x";
    let listing = vec![
        file(root, "README"),
        dir(root, "pkg"),
        dir("/tmp/extract-x/pkg", "contents"),
        file("/tmp/extract-x/pkg", "metadata.desktop"),
        dir(root, "other"),
        file("/tmp/extract-x/other", "metadata.json"),
        file("/tmp/extract-x/other", "theme.colors"),
        file(root, "top.PNG"),
    ];
    assert!(dir_contains(&listing, root, "pkg"));
    assert!(!dir_contains(&listing, root, "contents"));
    // a metadata.json is preferred, wherever it lies
    assert_eq!(find_package_dir(root, &listing), Some("/tmp/extract-x/other".to_string()));
    assert_eq!(
        find_metadata_json(root, &listing),
        Some("/tmp/extract-x/other/metadata.json".to_string())
    );
    assert_eq!(find_package_dir(root, &listing[..5].to_vec_entries()), Some("/tmp/extract-x/pkg".to_string()));
    assert_eq!(find_icon_theme_dir(root, &listing), None);
    assert_eq!(
        locate_color_scheme_file(&listing),
        Some("/tmp/extract-x/other/theme.colors".to_string())
    );
    let w = find_wallpaper_source(root, &listing).unwrap();
    assert_eq!(w.path, "/tmp/extract-x/pkg");
    assert!(!w.is_file);
    let images = vec![file(root, "notes.txt"), dir(root, "sub"), file("/tmp/extract-x/sub", "deep.jpg"), file(root, "top.PNG")];
    let w = find_wallpaper_source(root, &images).unwrap();
    assert_eq!(w.path, "/tmp/extract-x/top.PNG");
    assert!(w.is_file);
    assert!(find_wallpaper_source(root, &vec![]).is_none());
}

trait ToEntries {
    fn to_vec_entries(&self) -> Vec<ArchiveEntry>;
}

impl ToEntries for [ArchiveEntry] {
    fn to_vec_entries(&self) -> Vec<ArchiveEntry> {
        self.iter()
            .map(|e| ArchiveEntry {
                path: e.path.clone(),
                parent: e.parent.clone(),
                name: e.name.clone(),
                is_dir: e.is_dir,
                is_file: e.is_file,
            })
            .collect()
    }
}

#[test]
fn theme_layouts_are_recognized() {
    let root = "/t";
    let aurorae = vec![dir(root, "MyDeco"), file("/t/MyDeco", "decoration.svg")];
    assert!(!has_component_structure(&aurorae, root, ComponentType::AuroraeDecoration));
    assert!(has_component_structure(&aurorae, "/t/MyDeco", ComponentType::AuroraeDecoration));
    assert_eq!(
        find_component_root_in_archive(root, &aurorae, ComponentType::AuroraeDecoration),
        Some("/t/MyDeco".to_string())
    );
    let style = vec![dir(root, "colors")];
    assert_eq!(
        find_component_root_in_archive(root, &style, ComponentType::PlasmaStyle),
        Some("/t".to_string())
    );
    let sddm = vec![dir(root, "a"), dir("/t/a", "b"), file("/t/a/b", "Main.qml")];
    // only the root and what lies directly below it are looked at
    assert_eq!(find_component_root_in_archive(root, &sddm, ComponentType::SddmTheme), None);
    assert!(!has_component_structure(&style, root, ComponentType::PlasmaWidget));
    let icons = vec![dir(root, "a"), dir("/t/a", "Papirus"), file("/t/a/Papirus", "index.theme")];
    assert_eq!(find_icon_theme_dir(root, &icons), Some("/t/a/Papirus".to_string()));
}

#[test]
fn direct_install_names_its_source_or_its_failure() {
    let root = "/t";
    let listing = vec![dir(root, "x"), file("/t/x", "scheme.colorscheme")];
    let s = install_direct(root, &listing, ComponentType::ColorScheme).unwrap();
    assert_eq!(s.path, "/t/x/scheme.colorscheme");
    assert!(s.is_file);
    let message = |r: Result<_, Error>| match r {
        Err(Error::InstallFailed(m)) => m,
        other => panic!("unexpected {:?}", other.map(|s: libplasmoid_updater::install::InstallSource| s.path)),
    };
    assert_eq!(
        message(install_direct(root, &vec![], ComponentType::ColorScheme)),
        "no color scheme file found in archive"
    );
    assert_eq!(
        message(install_direct(root, &vec![], ComponentType::IconTheme)),
        "no icon theme (index.theme) found in archive"
    );
    assert_eq!(
        message(install_direct(root, &vec![], ComponentType::Wallpaper)),
        "no wallpaper found in archive"
    );
    assert_eq!(
        message(install_direct(root, &vec![], ComponentType::GlobalTheme)),
        "no valid Global Theme structure found in archive"
    );
    assert_eq!(
        message(install_direct(root, &vec![], ComponentType::PlasmaWidget)),
        "Plasma Widget should use kpackagetool"
    );
}

#[test]
fn packaging_tool_arguments() {
    assert_eq!(
        install_via_kpackagetool("/t/pkg", ComponentType::PlasmaWidget, false).unwrap(),
        vec!["-t", "Plasma/Applet", "-u", "/t/pkg"]
    );
    assert_eq!(
        install_via_kpackagetool("/t/pkg", ComponentType::KWinScript, true).unwrap(),
        vec!["-t", "KWin/Script", "--global", "-u", "/t/pkg"]
    );
    match install_via_kpackagetool("/t/pkg", ComponentType::IconTheme, false) {
        Err(Error::InstallFailed(m)) => assert_eq!(m, "Icon Theme has no kpackage type"),
        other => panic!("unexpected {:?}", other),
    }
}

#[test]
fn metadata_json_is_read() {
    let m = read_metadata_json(
        r#"{"KPlugin": {"Name": "Clock", "Version": "1.2", "Icon": "clock", "Id": "org.clock"}, "KPackageStructure": "Plasma/Applet", "X": 1}"#,
    )
    .unwrap();
    assert_eq!(m.name(), Some("Clock"));
    assert_eq!(m.version(), Some("1.2"));
    assert_eq!(m.kpackage_structure, Some("Plasma/Applet".to_string()));
    let k = m.kplugin.unwrap();
    assert_eq!(k.icon, Some("clock".to_string()));
    assert_eq!(k.description, None);
    let bare = read_metadata_json("{}").unwrap();
    assert_eq!(bare.name(), None);
    assert_eq!(bare.version(), None);
    assert!(bare.kplugin.is_none());
    assert!(read_metadata_json(r#"{"KPlugin": null}"#).unwrap().kplugin.is_none());
    assert!(read_metadata_json("not json").is_none());
    assert!(read_metadata_json("[1, 2]").is_none());
    assert!(read_metadata_json(r#"{"KPlugin": {"Name": 5}}"#).is_none());
    assert!(read_metadata_json(r#"{"KPlugin": "x"}"#).is_none());
    assert!(read_metadata_json(r#"{"KPackageStructure": 1}"#).is_none());
}

#[test]
fn metadata_desktop_is_read() {
    let content = "[Desktop Entry]\nName=Clock\nComment=Tells the time\nIcon=clock\nX-KDE-PluginInfo-Version=0.5\n";
    let m = read_metadata_desktop(content).unwrap();
    assert_eq!(m.name(), Some("Clock"));
    assert_eq!(m.version(), Some("0.5"));
    let k = m.kplugin.unwrap();
    assert_eq!(k.description, Some("Tells the time".to_string()));
    assert_eq!(k.icon, Some("clock".to_string()));
    assert!(read_metadata_desktop("[Other]\nName=x\n").is_none());
    // the json file is preferred, the desktop file is the fallback
    let m = read_package_metadata(Some(r#"{"KPlugin": {"Name": "J"}}"#), Some(content)).unwrap();
    assert_eq!(m.name(), Some("J"));
    let m = read_package_metadata(Some("broken"), Some(content)).unwrap();
    assert_eq!(m.name(), Some("Clock"));
    let m = read_package_metadata(None, Some(content)).unwrap();
    assert_eq!(m.name(), Some("Clock"));
    assert!(read_package_metadata(None, None).is_none());
    assert!(read_package_metadata(Some("broken"), None).is_none());
}

#[test]
fn metadata_patch_without_plugin_section_touches_the_structure_only() {
    let patched = patch_metadata(r#"{"Other": 1}"#, ComponentType::PlasmaWidget, "2.0").unwrap();
    let v: serde_json::Value = serde_json::from_str(&patched).unwrap();
    assert_eq!(v["KPackageStructure"], "Plasma/Applet");
    assert_eq!(v["Other"], 1);
    assert!(v.get("KPlugin").is_none());
    assert_eq!(v.as_object().unwrap().len(), 2);
}

#[test]
fn metadata_patch_sets_version_and_structure() {
    let patched = patch_metadata(
        r#"{"KPlugin": {"Name": "Clock", "Version": "1.0"}, "KPackageStructure": "Old"}"#,
        ComponentType::KWinEffect,
        "2.0",
    )
    .unwrap();
    let v: serde_json::Value = serde_json::from_str(&patched).unwrap();
    assert_eq!(v["KPackageStructure"], "KWin/Effect");
    assert_eq!(v["KPlugin"]["Version"], "2.0");
    assert_eq!(v["KPlugin"]["Name"], "Clock");
    assert!(patched.contains('\n'));
    // a kind without a packaging type leaves the structure alone
    let patched = patch_metadata(r#"{"KPlugin": {}}"#, ComponentType::GlobalTheme, "3").unwrap();
    let v: serde_json::Value = serde_json::from_str(&patched).unwrap();
    assert!(v.get("KPackageStructure").is_none());
    assert_eq!(v["KPlugin"]["Version"], "3");
    assert!(matches!(
        patch_metadata("nonsense", ComponentType::PlasmaWidget, "2.0"),
        Err(Error::MetadataParse(_))
    ));
    assert!(matches!(
        patch_metadata("[1]", ComponentType::PlasmaWidget, "2.0"),
        Err(Error::MetadataParse(_))
    ));
    assert!(matches!(
        patch_metadata(r#"{"KPlugin": 3}"#, ComponentType::GlobalTheme, "2.0"),
        Err(Error::MetadataParse(_))
    ));
}

#[test]
fn desktop_patch_rewrites_the_version_line() {
    assert_eq!(
        patch_metadata_desktop("[Desktop Entry]\nName=x\nX-KDE-PluginInfo-Version=1.0\nIcon=i\n", "2.0"),
        Some("[Desktop Entry]\nName=x\nX-KDE-PluginInfo-Version=2.0\nIcon=i\n".to_string())
    );
    assert_eq!(
        patch_metadata_desktop("X-KDE-PluginInfo-Version=1.0", "2.0"),
        Some("X-KDE-PluginInfo-Version=2.0".to_string())
    );
    assert_eq!(
        patch_metadata_desktop("a\r\nX-KDE-PluginInfo-Version=1\r\nb", "2"),
        Some("a\nX-KDE-PluginInfo-Version=2\nb".to_string())
    );
    assert_eq!(patch_metadata_desktop("[Desktop Entry]\nName=x\n", "2.0"), None);
    assert_eq!(patch_metadata_desktop("", "2.0"), None);
}

fn entry(name: &str, is_dir: bool, json: Option<&str>, desktop: Option<&str>) -> DirEntryInfo {
    DirEntryInfo {
        name: name.to_string(),
        is_dir,
        metadata_json: json.map(|s| s.to_string()),
        metadata_desktop: desktop.map(|s| s.to_string()),
    }
}

const REGISTRY: &str = "<hotnewstuffregistry><stuff><name>Clock</name><version>1</version>\
<installedfile>/d/plasma/plasmoids/org.clock/metadata.json</installedfile>\
<releasedate>2024-01-01</releasedate></stuff>\
<stuff><name>Papirus</name><version>7</version><id>44</id>\
<installedfile>/d/icons/Papirus/*</installedfile><releasedate>2023-03-03</releasedate></stuff>\
</hotnewstuffregistry>";

#[test]
fn install_directory_is_scanned() {
    let entries = vec![
        entry("org.clock", true, Some(r#"{"KPlugin": {"Name": "Clock", "Version": "1.2"}}"#), None),
        entry("stray.txt", false, Some("{}"), None),
        entry("no.metadata", true, None, None),
        entry("org.bare", true, Some("{}"), None),
        entry("org.old", true, Some("broken"), Some("[Desktop Entry]\nName=Old\n")),
    ];
    let map = load_registry_map(REGISTRY);
    let found = scan_directory("/d/plasma/plasmoids", &entries, ComponentType::PlasmaWidget, false, &map);
    assert_eq!(found.len(), 3);
    assert_eq!(found[0].name, "Clock");
    assert_eq!(found[0].directory_name, "org.clock");
    assert_eq!(found[0].version, "1.2");
    assert_eq!(found[0].path, "/d/plasma/plasmoids/org.clock");
    assert_eq!(found[0].release_date, "2024-01-01");
    assert_eq!(found[0].component_type, ComponentType::PlasmaWidget);
    assert!(!found[0].is_system);
    assert_eq!(found[1].name, "org.bare");
    assert_eq!(found[1].version, "0.0.0");
    assert_eq!(found[1].release_date, "");
    assert_eq!(found[2].name, "Old");
    assert_eq!(found[2].version, "0.0.0");
}

#[test]
fn empty_install_directory_gives_no_components() {
    let map = load_registry_map("");
    assert!(scan_directory("/d", &vec![], ComponentType::PlasmaWidget, false, &map).is_empty());
    let snaps = vec![KindSnapshot {
        kind: ComponentType::PlasmaWidget,
        registry_content: None,
        install_dir: Some(vec![]),
    }];
    assert!(find_installed(false, "/d", &snaps).is_empty());
    assert!(find_installed(false, "/d", &vec![]).is_empty());
}

#[test]
fn discovery_joins_directories_and_registries() {
    let look = |name: &str| entry(name, true, Some(r#"{"KPlugin": {"Name": "Look"}}"#), None);
    let snaps = vec![
        KindSnapshot {
            kind: ComponentType::PlasmaWidget,
            registry_content: Some(REGISTRY.to_string()),
            install_dir: Some(vec![entry(
                "org.clock",
                true,
                Some(r#"{"KPlugin": {"Name": "Clock", "Version": "1.2"}}"#),
                None,
            )]),
        },
        KindSnapshot {
            kind: ComponentType::KWinEffect,
            registry_content: None,
            install_dir: None,
        },
        KindSnapshot {
            kind: ComponentType::GlobalTheme,
            registry_content: None,
            install_dir: Some(vec![look("org.look")]),
        },
        KindSnapshot {
            kind: ComponentType::SplashScreen,
            registry_content: None,
            install_dir: Some(vec![look("org.look")]),
        },
        KindSnapshot {
            kind: ComponentType::SddmTheme,
            registry_content: None,
            install_dir: Some(vec![look("sddm.theme")]),
        },
        KindSnapshot {
            kind: ComponentType::IconTheme,
            registry_content: Some(REGISTRY.to_string()),
            install_dir: Some(vec![look("ignored")]),
        },
    ];
    let found = find_installed(false, "/d", &snaps);
    let names: Vec<_> = found
        .iter()
        .map(|c| (c.component_type, c.directory_name.clone(), c.path.clone()))
        .collect();
    assert_eq!(
        names,
        vec![
            (
                ComponentType::PlasmaWidget,
                "org.clock".to_string(),
                "/d/plasma/plasmoids/org.clock".to_string()
            ),
            // the splash screens share the directory of the global themes,
            // which is scanned once; the login themes have no user directory
            (
                ComponentType::GlobalTheme,
                "org.look".to_string(),
                "/d/plasma/look-and-feel/org.look".to_string()
            ),
            (
                ComponentType::IconTheme,
                "org.clock".to_string(),
                "/d/plasma/plasmoids/org.clock/metadata.json".to_string()
            ),
            (ComponentType::IconTheme, "Papirus".to_string(), "/d/icons/Papirus".to_string()),
        ]
    );
    assert_eq!(found[0].release_date, "2024-01-01");
    let system = find_installed(true, "/d", &snaps);
    assert!(system.iter().any(|c| c.path == "/usr/share/sddm/themes/sddm.theme" && c.is_system));
    assert!(system.iter().any(|c| c.path == "/usr/share/plasma/plasmoids/org.clock"));
}

#[test]
fn taxonomy_of_kinds() {
    assert_eq!(ComponentType::all().len(), 13);
    assert_eq!(ComponentType::all_user().len(), 12);
    assert!(!ComponentType::all_user().contains(&ComponentType::SddmTheme));
    assert_eq!(ComponentType::PlasmaWidget.category_id(), 705);
    assert_eq!(ComponentType::Wallpaper.category_id(), 299);
    assert_eq!(ComponentType::KWinSwitcher.kpackage_type(), Some("KWin/WindowSwitcher"));
    assert_eq!(ComponentType::GlobalTheme.kpackage_type(), None);
    let registry_only: Vec<_> =
        ComponentType::all().into_iter().filter(|k| k.registry_only()).collect();
    assert_eq!(
        registry_only,
        vec![ComponentType::ColorScheme, ComponentType::IconTheme, ComponentType::Wallpaper]
    );
    assert_eq!(ComponentType::SddmTheme.user_path("/d"), "");
    assert_eq!(ComponentType::SplashScreen.user_path("/d"), "/d/plasma/look-and-feel");
    assert_eq!(ComponentType::SddmTheme.system_path(), "/usr/share/sddm/themes");
    assert_eq!(ComponentType::IconTheme.system_path_str(), "/usr/share/icons");
    assert_eq!(ComponentType::SplashScreen.backup_subdir(), "plasma-splash");
    assert_eq!(ComponentType::PlasmaStyle.registry_file(), Some("plasma-themes.knsregistry"));
    assert_eq!(ComponentType::KWinEffect.display_name(), "KWin Effect");
    assert_eq!(ComponentType::PlasmaWidget.user_suffix(), Some("plasma/plasmoids"));
}

#[test]
fn updates_are_built_from_their_parts() {
    let u = AvailableUpdate::builder(
        component(ComponentType::PlasmaWidget, "d", "N"),
        42,
        "2.0".to_string(),
        "url".to_string(),
        "2024".to_string(),
    )
    .checksum(Some("abc".to_string()))
    .download_size(Some(10))
    .build();
    assert_eq!(u.store_url, "https://store.kde.org/p/42");
    assert_eq!(u.checksum, Some("abc".to_string()));
    assert_eq!(u.download_size, Some(10));
    let v = update(ComponentType::PlasmaWidget, "d", "N", 0)
        .with_checksum(Some("x".to_string()))
        .with_download_size(Some(5));
    assert_eq!(v.store_url, "https://store.kde.org/p/0");
    assert_eq!(v.checksum, Some("x".to_string()));
    assert_eq!(v.download_size, Some(5));
    let d = ComponentDiagnostic::new("n".into(), "r".into())
        .with_versions(Some("1".into()), None)
        .with_content_id(3);
    assert_eq!(d.installed_version, Some("1".to_string()));
    assert_eq!(d.available_version, None);
    assert_eq!(d.content_id, Some(3));
    let mut c = CheckResult::new();
    assert!(!c.has_issues());
    c.add_unresolved("a".into(), "b".into());
    c.add_update(update(ComponentType::PlasmaWidget, "d", "N", 1));
    let mut c2 = CheckResult::new();
    c2.add_check_failure("x".into(), "y".into());
    c.merge(c2);
    assert!(c.has_issues());
    assert_eq!(c.updates.len(), 1);
    assert_eq!(c.check_failures, vec![("x".to_string(), "y".to_string())]);
    let ok = JsonOutput::ok(5);
    assert!(ok.success && ok.error.is_none() && ok.data == Some(5));
    let err: JsonOutput<u8> = JsonOutput::err("bad");
    assert!(!err.success && err.data.is_none());
    assert_eq!(err.error, Some("bad".to_string()));
}

#[test]
fn output_helpers() {
    assert_eq!(format_version(""), "N/A");
    assert_eq!(format_version("0.0.0"), "N/A");
    assert_eq!(format_version("1.0"), "1.0");
    assert_eq!(format_download_size(None), "-");
    assert!(!format_download_size(Some(2048)).is_empty());
    assert_ne!(format_download_size(Some(2048)), format_download_size(Some(4096)));
    assert_eq!(bold("x"), "\x1b[1mx\x1b[0m");
    assert_eq!(count_message(1, "update"), "1 update available.");
    assert_eq!(count_message(3, "update"), "3 updates available.");
    assert_eq!(count_message(0, "update"), "0 updates available.");
    assert_eq!(name_width(&vec!["short".to_string()]), 10);
    assert_eq!(name_width(&vec!["a name of twenty-one".to_string(), "x".to_string()]), 20);
    assert_eq!(name_width(&vec![]), 10);
    assert_eq!(padding_between(10, 4, 20), "     ");
    assert_eq!(padding_between(10, 4, 15), " ");
    assert_eq!(padding_between(10, 4, 3), " ");
    assert_eq!(stage_label(0), "Backing up");
    assert_eq!(stage_label(1), "Downloading");
    assert_eq!(stage_label(2), "Extracting");
    assert_eq!(stage_label(3), "Installing");
    assert_eq!(stage_label(9), "Installing");
    assert_eq!(filled_cells(2), 2);
    assert_eq!(filled_cells(9), 4);
    assert_eq!(spinner_index(0), 0);
    assert_eq!(spinner_index(250), 2);
    assert_eq!(spinner_index(1050), 0);
    assert_eq!(ExitCode::Success.as_i32(), 0);
    assert_eq!(ExitCode::PartialFailure.as_i32(), 1);
    assert_eq!(ExitCode::FatalError.as_i32(), 2);
    assert_eq!(exit_code_from_status(Some(0)), ExitCode::Success);
    assert_eq!(exit_code_from_status(Some(1)), ExitCode::PartialFailure);
    assert_eq!(exit_code_from_status(Some(7)), ExitCode::FatalError);
    assert_eq!(exit_code_from_status(None), ExitCode::FatalError);
    assert_eq!(parse_verbosity(Some("quiet")), Verbosity::Quiet);
    assert_eq!(parse_verbosity(Some("verbose")), Verbosity::Verbose);
    assert_eq!(parse_verbosity(Some("loud")), Verbosity::Normal);
    assert_eq!(parse_verbosity(None), Verbosity::Normal);
    assert_eq!(Verbosity::Quiet.as_str(), "quiet");
}

#[test]
fn table_rows() {
    let u = update(ComponentType::KWinEffect, "d", "Blur", 77).with_download_size(None);
    assert_eq!(
        libplasmoid_updater::cli::update_row(&u),
        vec!["Blur", "1.0", "2.0", "77", "-", "KWin Effect"]
    );
    let mut c = component(ComponentType::IconTheme, "Papirus", "Papirus");
    c.version = "0.0.0".to_string();
    assert_eq!(
        libplasmoid_updater::cli::component_row(&c),
        vec!["Papirus", "N/A", "Icon Theme"]
    );
}

#[test]
fn progress_rows() {
    use_progress_rows();
}

fn use_progress_rows() {
    let bar = libplasmoid_updater::cli::progress_bar(2);
    assert_eq!(bar, "[\x1b[32m\u{28ff}\u{28ff}\x1b[0m  ]");
    assert_eq!(libplasmoid_updater::cli::progress_bar(0), "[\x1b[32m\x1b[0m    ]");
    assert_eq!(
        libplasmoid_updater::cli::progress_bar(9),
        "[\x1b[32m\u{28ff}\u{28ff}\u{28ff}\u{28ff}\x1b[0m]"
    );
    assert_eq!(libplasmoid_updater::cli::spinner_frame(0), '\u{280b}');
    assert_eq!(libplasmoid_updater::cli::spinner_frame(250), '\u{2839}');
    assert_eq!(libplasmoid_updater::cli::spinner_frame(950), '\u{280f}');
    assert_eq!(libplasmoid_updater::cli::spinner_frame(1000), '\u{280b}');
    let done = libplasmoid_updater::cli::render_complete_row("Clock", true, "1.5s", 40);
    assert_eq!(
        done,
        format!(
            "\x1b[32m\u{2713}\x1b[0m Clock \x1b[32mUpdated\x1b[0m{}\x1b[36m1.5s\x1b[0m",
            " ".repeat(18)
        )
    );
    let failed = libplasmoid_updater::cli::render_complete_row("Clock", false, "1.5s", 10);
    assert_eq!(failed, "\x1b[31m\u{2717}\x1b[0m Clock \x1b[31mFailed\x1b[0m \x1b[36m1.5s\x1b[0m");
    let row = libplasmoid_updater::cli::render_progress_row("Clock", 1, 120, "0.1s", 40);
    // what is seen left of the time: spinner, name, bar of four cells, label
    let left = "\u{2819} Clock [    ] Downloading".len();
    assert_eq!(
        row,
        format!(
            "\x1b[33m\u{2819}\x1b[0m Clock [\x1b[32m\u{28ff}\x1b[0m   ] Downloading{}\x1b[36m0.1s\x1b[0m",
            " ".repeat(40 - left - 1 - 4)
        )
    );
}
