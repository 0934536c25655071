use libplasmoid_updater::api::{
    build_category_string, content_url, page_url, parse_download_index, retries_exhausted,
    retry_start, retry_step, ApiConfig, DownloadParts, RetryDecision, StatusCode,
};
use libplasmoid_updater::config::IdTable;
use libplasmoid_updater::error::Error;
use libplasmoid_updater::evaluation::{
    check_component, check_with_components, evaluate_store_entry, registry_ids_to_fetch,
    ComponentCheckResult,
};
use libplasmoid_updater::ocs::parse_ocs_response;
use libplasmoid_updater::resolution::{
    find_store_entry, resolve_by_name, resolve_by_table, resolve_content_id,
    select_download_url, select_download_with_info,
};
use libplasmoid_updater::store::{
    distinct_types, known_ids, merge_entries, missing_ids, partition_components, plan_fetch,
    remaining_pages, resolve_id_locally,
};
use libplasmoid_updater::types::{ComponentType, DownloadLink, InstalledComponent, StoreEntry};

fn component(kind: ComponentType, dir: &str, name: &str, version: &str) -> InstalledComponent {
    InstalledComponent {
        name: name.to_string(),
        directory_name: dir.to_string(),
        version: version.to_string(),
        component_type: kind,
        path: format!("/home/u/.local/share/x/{dir}"),
        is_system: false,
        release_date: String::new(),
    }
}

fn link(url: &str, version: &str) -> DownloadLink {
    DownloadLink { url: url.to_string(), version: version.to_string(), checksum: None, size_kb: None }
}

fn entry(id: u64, name: &str, type_id: u16, version: &str, links: Vec<DownloadLink>) -> StoreEntry {
    StoreEntry {
        id,
        name: name.to_string(),
        version: version.to_string(),
        type_id,
        download_links: links,
        changed_date: String::new(),
    }
}

fn table(pairs: &[(&str, u64)]) -> IdTable {
    let mut t = IdTable::new();
    for (k, v) in pairs {
        t.insert(k.to_string(), *v);
    }
    t
}

const ANSWER: &str = r#"<?xml version="1.0" encoding="UTF-8"?>
<ocs>
 <meta>
  <status>ok</status>
  <statuscode>100</statuscode>
  <message></message>
  <totalitems>1</totalitems>
  <itemsperpage>100</itemsperpage>
 </meta>
 <data>
  <content details="summary">
   <id>500001</id>
   <name>org.kde.sample</name>
   <version>1.3.0</version>
   <typeid>706</typeid>
   <changed>2024-06-01T10:00:00+00:00</changed>
   <personid>someone</personid>
   <downloadlink1>https://host/sample-1.3.0.tar.gz?a=1&amp;b=2</downloadlink1>
   <downloadmd5sum1>d41d8cd98f00b204e9800998ecf8427e</downloadmd5sum1>
   <download_version1>1.3.0</download_version1>
   <downloadsize1>12</downloadsize1>
   <downloadlink2></downloadlink2>
   <download_version2>1.2.0</download_version2>
   <downloadlink3>https://host/sample-1.1.0.tar.gz</downloadlink3>
   <downloadmd5sum3></downloadmd5sum3>
   <downloadlink65>https://host/ignored</downloadlink65>
  </content>
 </data>
</ocs>
"#;

#[test]
fn catalog_answer_is_decoded() {
    let (entries, meta) = parse_ocs_response(ANSWER).unwrap();
    assert_eq!(meta.status_code, StatusCode::Success);
    assert_eq!(meta.total_items, 1);
    assert_eq!(entries.len(), 1);
    let e = &entries[0];
    assert_eq!(e.id, 500001);
    assert_eq!(e.name, "org.kde.sample");
    assert_eq!(e.version, "1.3.0");
    assert_eq!(e.type_id, 706);
    assert_eq!(e.changed_date, "2024-06-01T10:00:00+00:00");
    // the empty second slot is dropped, the slot beyond the last is ignored
    assert_eq!(e.download_links.len(), 2);
    assert_eq!(e.download_links[0].url, "https://host/sample-1.3.0.tar.gz?a=1&b=2");
    assert_eq!(
        e.download_links[0].checksum,
        Some("d41d8cd98f00b204e9800998ecf8427e".to_string())
    );
    assert_eq!(e.download_links[0].version, "1.3.0");
    assert_eq!(e.download_links[0].size_kb, Some(12));
    assert_eq!(e.download_links[1].url, "https://host/sample-1.1.0.tar.gz");
    assert_eq!(e.download_links[1].checksum, None);
    assert_eq!(e.download_links[1].version, "");
    assert_eq!(e.download_links[1].size_kb, None);
}

fn answer_with_status(code: &str) -> String {
    format!("<ocs><meta><statuscode>{code}</statuscode></meta><data></data></ocs>")
}

#[test]
fn catalog_status_decides_the_outcome() {
    let (entries, meta) = parse_ocs_response(&answer_with_status("0")).unwrap();
    assert!(entries.is_empty());
    assert_eq!(meta.status_code, StatusCode::OkLegacy);
    assert_eq!(meta.total_items, 0);
    assert!(matches!(parse_ocs_response(&answer_with_status("200")), Err(Error::RateLimited)));
    assert!(matches!(parse_ocs_response(&answer_with_status("101")), Err(Error::ApiError(101))));
    assert!(matches!(parse_ocs_response(&answer_with_status("abc")), Err(Error::XmlParse(_))));
    assert!(matches!(parse_ocs_response(&answer_with_status("70000")), Err(Error::XmlParse(_))));
    assert!(matches!(
        parse_ocs_response("<ocs><meta></meta><data></data></ocs>"),
        Err(Error::XmlParse(_))
    ));
    assert!(matches!(parse_ocs_response("<ocs><meta>"), Err(Error::XmlParse(_))));
    assert!(matches!(
        parse_ocs_response("<ocs><meta><statuscode>100</statuscode></wrong></ocs>"),
        Err(Error::XmlParse(_))
    ));
}

#[test]
fn catalog_entries_need_id_and_name() {
    let no_id = "<ocs><meta><statuscode>100</statuscode></meta><data><content><name>x</name></content></data></ocs>";
    assert!(matches!(parse_ocs_response(no_id), Err(Error::XmlParse(_))));
    let no_name = "<ocs><meta><statuscode>100</statuscode></meta><data><content><id>1</id></content></data></ocs>";
    assert!(matches!(parse_ocs_response(no_name), Err(Error::XmlParse(_))));
    let bad_size = "<ocs><meta><statuscode>100</statuscode></meta><data><content><id>1</id><name>x</name><downloadsize1>big</downloadsize1></content></data></ocs>";
    assert!(matches!(parse_ocs_response(bad_size), Err(Error::XmlParse(_))));
    let minimal = "<ocs><meta><statuscode>100</statuscode></meta><data><content><id>1</id><name>x</name></content><content><id>2</id><name>y</name></content></data></ocs>";
    let (entries, _) = parse_ocs_response(minimal).unwrap();
    assert_eq!(entries.len(), 2);
    assert_eq!(entries[0].version, "");
    assert_eq!(entries[0].type_id, 0);
    assert!(entries[0].download_links.is_empty());
    assert_eq!(entries[1].id, 2);
}

#[test]
fn download_fields_are_numbered_from_one() {
    assert_eq!(parse_download_index("downloadlink1", "downloadlink"), Some(0));
    assert_eq!(parse_download_index("downloadlink64", "downloadlink"), Some(63));
    assert_eq!(parse_download_index("downloadlink65", "downloadlink"), None);
    assert_eq!(parse_download_index("downloadlink0", "downloadlink"), None);
    assert_eq!(parse_download_index("downloadlink", "downloadlink"), None);
    assert_eq!(parse_download_index("downloadlinkx", "downloadlink"), None);
    assert_eq!(parse_download_index("download_version3", "downloadlink"), None);
    assert_eq!(parse_download_index("download_version3", "download_version"), Some(2));
}

#[test]
fn empty_link_slot_is_dropped() {
    let parts = DownloadParts {
        url: Some(String::new()),
        version: Some("1".into()),
        checksum: None,
        size_kb: None,
    };
    assert!(parts.into_link().is_none());
    assert!(DownloadParts::empty().into_link().is_none());
    let parts = DownloadParts {
        url: Some("u".into()),
        version: None,
        checksum: Some(String::new()),
        size_kb: Some(3),
    };
    let l = parts.into_link().unwrap();
    assert_eq!(l.url, "u");
    assert_eq!(l.version, "");
    assert_eq!(l.checksum, None);
    assert_eq!(l.size_kb, Some(3));
}

#[test]
fn status_codes_keep_their_numbers() {
    assert_eq!(StatusCode::from_code(100), StatusCode::Success);
    assert_eq!(StatusCode::from_code(0), StatusCode::OkLegacy);
    assert_eq!(StatusCode::from_code(200), StatusCode::RateLimited);
    assert_eq!(StatusCode::from_code(404), StatusCode::Unknown(404));
    assert!(StatusCode::Success.is_success());
    assert!(StatusCode::OkLegacy.is_success());
    assert!(!StatusCode::RateLimited.is_success());
    assert!(StatusCode::RateLimited.is_rate_limited());
    assert!(!StatusCode::Unknown(1).is_rate_limited());
    for code in [0u16, 100, 200, 404, 65535] {
        assert_eq!(StatusCode::from_code(code).as_u16(), code);
    }
}

#[test]
fn request_addresses() {
    let types = vec![ComponentType::PlasmaWidget, ComponentType::KWinEffect];
    assert_eq!(build_category_string(&types), "705x719");
    assert_eq!(build_category_string(&vec![ComponentType::Wallpaper]), "299");
    assert_eq!(build_category_string(&vec![]), "");
    let config = ApiConfig::new();
    assert_eq!(config.base_url, "https://api.kde-look.org/ocs/v1");
    assert_eq!(config.page_size, 100);
    assert_eq!(
        page_url(config.base_url, "705x719", 0, config.page_size),
        "https://api.kde-look.org/ocs/v1/content/data?categories=705x719&page=0&pagesize=100&sort=new"
    );
    assert_eq!(
        content_url(config.base_url, 500001),
        "https://api.kde-look.org/ocs/v1/content/data/500001"
    );
}

#[test]
fn rate_limit_three_times_in_a_row_is_surfaced() {
    let config = ApiConfig::new();
    let state = retry_start(&config);
    assert_eq!(state.failed, 0);
    assert_eq!(state.backoff_ms, 100);
    let state = match retry_step::<u8>(state, &config, Err(Error::RateLimited)) {
        RetryDecision::Retry { wait_ms, next } => {
            assert_eq!(wait_ms, 100);
            next
        }
        other => panic!("unexpected {:?}", other),
    };
    let state = match retry_step::<u8>(state, &config, Err(Error::RateLimited)) {
        RetryDecision::Retry { wait_ms, next } => {
            assert_eq!(wait_ms, 200);
            assert_eq!(next.backoff_ms, 400);
            next
        }
        other => panic!("unexpected {:?}", other),
    };
    match retry_step::<u8>(state, &config, Err(Error::RateLimited)) {
        RetryDecision::Finish(Err(Error::RateLimited)) => {}
        other => panic!("unexpected {:?}", other),
    }
}

#[test]
fn other_outcomes_end_the_tries_at_once() {
    let config = ApiConfig::new();
    match retry_step(retry_start(&config), &config, Ok(7u8)) {
        RetryDecision::Finish(Ok(7)) => {}
        other => panic!("unexpected {:?}", other),
    }
    match retry_step::<u8>(retry_start(&config), &config, Err(Error::ApiError(500))) {
        RetryDecision::Finish(Err(Error::ApiError(500))) => {}
        other => panic!("unexpected {:?}", other),
    }
    match retry_step::<u8>(retry_start(&config), &config, Err(Error::Network("down".into()))) {
        RetryDecision::Retry { wait_ms: 100, .. } => {}
        other => panic!("unexpected {:?}", other),
    }
    assert_eq!(retries_exhausted().message(), "max retries exceeded");
}

#[test]
fn version_bump_via_catalog_name_match() {
    let installed = component(ComponentType::PlasmaWidget, "org.kde.sample", "org.kde.sample", "1.2.0");
    let (entries, _) = parse_ocs_response(ANSWER).unwrap();
    let result = check_with_components(
        vec![installed],
        &entries,
        &vec![],
        &IdTable::new(),
        &IdTable::new(),
    );
    assert_eq!(result.updates.len(), 1);
    assert!(result.unresolved.is_empty());
    assert!(result.check_failures.is_empty());
    let u = &result.updates[0];
    assert_eq!(u.content_id, 500001);
    assert_eq!(u.download_url, "https://host/sample-1.3.0.tar.gz?a=1&b=2");
    assert_eq!(u.checksum, Some("d41d8cd98f00b204e9800998ecf8427e".to_string()));
    assert_eq!(u.latest_version, "1.3.0");
    assert_eq!(u.download_size, Some(12 * 1024));
    assert_eq!(u.store_url, "https://store.kde.org/p/500001");
    assert_eq!(u.release_date, "2024-06-01T10:00:00+00:00");
    assert_eq!(u.installed.directory_name, "org.kde.sample");
}

#[test]
fn side_channel_resolution_is_preferred_over_name() {
    let installed = component(ComponentType::PlasmaWidget, "com.example", "Example", "1.0");
    let entries = vec![
        entry(1001, "Example", 705, "2.0", vec![]),
        entry(999, "Example", 705, "2.0", vec![]),
    ];
    let registry = "<hotnewstuffregistry><stuff category=\"705\"><name>Example</name>\
<id>999</id><installedfile>/home/u/.local/share/plasma/plasmoids/com.example/metadata.json\
</installedfile></stuff></hotnewstuffregistry>";
    let cache = libplasmoid_updater::registry::build_id_cache(&vec![registry.to_string()]);
    assert_eq!(cache.get("com.example"), Some(999));
    let fallback = table(&[("com.example", 5)]);
    assert_eq!(resolve_content_id(&installed, &entries, &fallback, &cache), Some(999));
    // without the registry the first entry of that name wins
    assert_eq!(resolve_content_id(&installed, &entries, &fallback, &IdTable::new()), Some(1001));
    // without a name match the fallback table is asked
    assert_eq!(resolve_content_id(&installed, &vec![], &fallback, &IdTable::new()), Some(5));
    assert_eq!(resolve_content_id(&installed, &vec![], &IdTable::new(), &IdTable::new()), None);
}

#[test]
fn name_match_respects_the_kind() {
    let installed = component(ComponentType::PlasmaWidget, "d", "Clock", "1.0");
    let entries = vec![
        entry(1, "Clock", 114, "1", vec![]),
        entry(2, "Other", 705, "1", vec![]),
        entry(3, "Clock", 723, "1", vec![]),
        entry(4, "Clock", 705, "1", vec![]),
    ];
    assert_eq!(resolve_by_name(&installed, &entries), Some(3));
    let decoration = component(ComponentType::AuroraeDecoration, "d", "Clock", "1.0");
    assert_eq!(resolve_by_name(&decoration, &entries), Some(1));
    let effect = component(ComponentType::KWinEffect, "d", "Clock", "1.0");
    assert_eq!(resolve_by_name(&effect, &entries), None);
    assert_eq!(resolve_by_table(&installed, &table(&[("d", 9)])), Some(9));
    assert!(ComponentType::PlasmaWidget.matches_type_id(705));
    assert!(ComponentType::PlasmaWidget.matches_type_id(706));
    assert!(ComponentType::PlasmaWidget.matches_type_id(713));
    assert!(ComponentType::PlasmaWidget.matches_type_id(723));
    assert!(!ComponentType::PlasmaWidget.matches_type_id(714));
    assert!(!ComponentType::PlasmaWidget.matches_type_id(722));
    assert!(ComponentType::GlobalTheme.matches_type_id(722));
    assert!(!ComponentType::GlobalTheme.matches_type_id(706));
}

#[test]
fn download_is_selected_by_version() {
    let none = entry(1, "a", 705, "2.0", vec![]);
    assert!(select_download_with_info(&none, "2.0").is_none());
    assert_eq!(select_download_url(&none, "2.0"), None);
    let one = entry(1, "a", 705, "2.0", vec![link("only", "1.0")]);
    assert_eq!(select_download_url(&one, "2.0"), Some("only".to_string()));
    let many = entry(
        1,
        "a",
        705,
        "2.0",
        vec![link("first", "1.0"), link("second", "2.0"), link("third", "2.0")],
    );
    assert_eq!(select_download_url(&many, "2.0"), Some("second".to_string()));
    assert_eq!(select_download_url(&many, "3.0"), Some("first".to_string()));
    let entries = vec![entry(1, "a", 705, "1", vec![]), entry(2, "b", 705, "1", vec![])];
    assert_eq!(find_store_entry(&entries, 2).map(|e| e.name.clone()), Some("b".to_string()));
    assert!(find_store_entry(&entries, 3).is_none());
}

#[test]
fn planner_asks_for_pages_and_nothing_more() {
    let mut components = Vec::new();
    let mut cache = IdTable::new();
    let mut page = Vec::new();
    for i in 0..10u64 {
        let dir = format!("org.kde.w{i}");
        components.push(component(ComponentType::PlasmaWidget, &dir, &dir, "1.0"));
        cache.insert(dir.clone(), 100 + i);
        page.push(entry(100 + i, &dir, 705, "1.0", vec![]));
    }
    let plan = plan_fetch(&components, &IdTable::new(), &cache);
    assert_eq!(plan.types, vec![ComponentType::PlasmaWidget]);
    assert_eq!(plan.known_ids.len(), 10);
    // one page holds everything: no further pages, no targeted requests
    assert!(remaining_pages(10, 100).is_empty());
    assert!(missing_ids(&plan.known_ids, &page).is_empty());
}

#[test]
fn planner_targets_only_what_the_pages_lack() {
    let page = vec![entry(1, "a", 705, "1", vec![]), entry(2, "b", 705, "1", vec![])];
    assert_eq!(missing_ids(&vec![1, 3, 2, 3, 4], &page), vec![3, 4]);
    assert_eq!(missing_ids(&vec![], &page), Vec::<u64>::new());
    assert_eq!(missing_ids(&vec![5, 5], &vec![]), vec![5]);
    assert_eq!(remaining_pages(100, 100), Vec::<u32>::new());
    assert_eq!(remaining_pages(101, 100), vec![1]);
    assert_eq!(remaining_pages(250, 100), vec![1, 2]);
    assert_eq!(remaining_pages(300, 100), vec![1, 2]);
    assert_eq!(remaining_pages(0, 100), Vec::<u32>::new());
    let merged = merge_entries(page, vec![entry(9, "z", 705, "1", vec![])]);
    assert_eq!(merged.iter().map(|e| e.id).collect::<Vec<_>>(), vec![1, 2, 9]);
}

#[test]
fn components_are_partitioned_by_kind() {
    let comps = vec![
        component(ComponentType::PlasmaWidget, "a", "a", "1"),
        component(ComponentType::IconTheme, "b", "b", "1"),
        component(ComponentType::KWinEffect, "c", "c", "1"),
        component(ComponentType::ColorScheme, "d", "d", "1"),
        component(ComponentType::PlasmaWidget, "e", "e", "1"),
    ];
    assert_eq!(
        distinct_types(&comps),
        vec![
            ComponentType::PlasmaWidget,
            ComponentType::IconTheme,
            ComponentType::KWinEffect,
            ComponentType::ColorScheme
        ]
    );
    let cache = table(&[("a", 1)]);
    let fallback = table(&[("a", 7), ("c", 3)]);
    assert_eq!(resolve_id_locally(&comps[0], &fallback, &cache), Some(1));
    assert_eq!(resolve_id_locally(&comps[2], &fallback, &cache), Some(3));
    assert_eq!(resolve_id_locally(&comps[1], &fallback, &cache), None);
    assert_eq!(known_ids(&comps, &fallback, &cache), vec![1, 3]);
    let (registry, regular) = partition_components(comps);
    assert_eq!(
        registry.iter().map(|c| c.directory_name.as_str()).collect::<Vec<_>>(),
        vec!["b", "d"]
    );
    assert_eq!(
        regular.iter().map(|c| c.directory_name.as_str()).collect::<Vec<_>>(),
        vec!["a", "c", "e"]
    );
}

#[test]
fn check_reports_what_it_cannot_match() {
    let comps = vec![
        component(ComponentType::PlasmaWidget, "lost", "Lost", "1.0"),
        component(ComponentType::PlasmaWidget, "gone", "Gone", ""),
        component(ComponentType::PlasmaWidget, "bare", "Bare", "1.0"),
        component(ComponentType::PlasmaWidget, "fine", "Fine", "2.0"),
    ];
    let entries = vec![
        entry(30, "Bare", 705, "2.0", vec![]),
        entry(40, "Fine", 705, "2.0", vec![link("u", "2.0")]),
    ];
    let fallback = table(&[("gone", 77)]);
    let result = check_with_components(comps, &entries, &vec![], &fallback, &IdTable::new());
    assert!(result.updates.is_empty());
    assert!(result.has_issues());
    assert_eq!(result.unresolved.len(), 2);
    assert_eq!(result.unresolved[0].name, "Lost");
    assert_eq!(result.unresolved[0].reason, "could not match to kde store entry");
    assert_eq!(result.unresolved[0].installed_version, Some("1.0".to_string()));
    assert_eq!(result.unresolved[0].content_id, None);
    assert_eq!(result.unresolved[1].name, "Gone");
    assert_eq!(result.unresolved[1].reason, "store entry 77 not in fetched data");
    assert_eq!(result.unresolved[1].content_id, Some(77));
    assert_eq!(result.check_failures.len(), 1);
    assert_eq!(result.check_failures[0].name, "Bare");
    assert_eq!(result.check_failures[0].reason, "no download url available");
    assert_eq!(result.check_failures[0].installed_version, Some("1.0".to_string()));
    assert_eq!(result.check_failures[0].available_version, Some("2.0".to_string()));
    assert_eq!(result.check_failures[0].content_id, Some(30));
}

#[test]
fn registry_only_components_use_fetched_entries() {
    let comps = vec![
        component(ComponentType::IconTheme, "Papirus", "Papirus", "1.0"),
        component(ComponentType::Wallpaper, "Hills", "Hills", "1.0"),
        component(ComponentType::ColorScheme, "Nice.colors", "Nice", "1.0"),
    ];
    let cache = table(&[("Papirus", 10), ("Hills", 20)]);
    let fetched = vec![(10u64, entry(10, "Papirus icons", 132, "2.0", vec![link("p", "2.0")]))];
    let ids = registry_ids_to_fetch(&comps, &vec![], &IdTable::new(), &cache);
    assert_eq!(ids, vec![10, 20]);
    let result = check_with_components(comps, &vec![], &fetched, &IdTable::new(), &cache);
    assert_eq!(result.updates.len(), 1);
    assert_eq!(result.updates[0].installed.directory_name, "Papirus");
    assert_eq!(result.updates[0].download_url, "p");
    assert_eq!(result.check_failures.len(), 1);
    assert_eq!(result.check_failures[0].name, "Hills");
    assert_eq!(result.check_failures[0].reason, "failed to fetch store entry");
    assert_eq!(result.check_failures[0].content_id, Some(20));
    assert_eq!(result.unresolved.len(), 1);
    assert_eq!(result.unresolved[0].name, "Nice");
    assert_eq!(result.unresolved[0].reason, "could not match to kde store entry");
}

#[test]
fn check_is_repeatable_and_gives_one_update_per_directory() {
    let comps = || {
        vec![
            component(ComponentType::PlasmaWidget, "a", "A", "1.0"),
            component(ComponentType::KWinEffect, "b", "B", "1.0"),
            component(ComponentType::PlasmaWidget, "c", "C", "3.0"),
        ]
    };
    let entries = vec![
        entry(1, "A", 705, "2.0", vec![link("ua", "2.0")]),
        entry(2, "B", 719, "1.1", vec![link("ub", "1.1")]),
        entry(3, "C", 705, "2.0", vec![link("uc", "2.0")]),
    ];
    let first = check_with_components(comps(), &entries, &vec![], &IdTable::new(), &IdTable::new());
    let second = check_with_components(comps(), &entries, &vec![], &IdTable::new(), &IdTable::new());
    let key = |r: &libplasmoid_updater::types::UpdateCheckResult| {
        r.updates
            .iter()
            .map(|u| (u.content_id, u.latest_version.clone(), u.installed.directory_name.clone()))
            .collect::<Vec<_>>()
    };
    assert_eq!(key(&first), key(&second));
    assert_eq!(
        key(&first),
        vec![(1, "2.0".to_string(), "a".to_string()), (2, "1.1".to_string(), "b".to_string())]
    );
    assert!(!first.has_issues());
}

#[test]
fn single_component_check() {
    let c = component(ComponentType::PlasmaWidget, "a", "A", "2.0");
    let entries = vec![entry(1, "A", 705, "2.0", vec![link("ua", "2.0")])];
    assert!(matches!(
        check_component(&c, &entries, &IdTable::new(), &IdTable::new()),
        ComponentCheckResult::UpToDate
    ));
    let newer = entry(1, "A", 705, "2.1", vec![DownloadLink {
        url: "big".into(),
        version: "2.1".into(),
        checksum: None,
        size_kb: Some(u64::MAX),
    }]);
    match evaluate_store_entry(&c, &newer, 1) {
        ComponentCheckResult::Update(u) => {
            assert_eq!(u.download_size, Some(u64::MAX));
            assert_eq!(u.content_id, 1);
        }
        other => panic!("unexpected {:?}", other),
    }
}
