use libplasmoid_updater::config::{parse_widgets_id_line, Config, IdTable};

#[test]
fn test_parse_widgets_id_line_valid() {
    let line = "998890 com.bxabi.bumblebee-indicator";
    let result = parse_widgets_id_line(line);
    assert_eq!(
        result,
        Some((998890, "com.bxabi.bumblebee-indicator".to_string()))
    );
}

#[test]
fn test_parse_widgets_id_line_comment() {
    let line = "#2182964 adhe.menu.11 #Ignored, not a unique ID";
    let result = parse_widgets_id_line(line);
    assert_eq!(result, None);
}

#[test]
fn test_parse_widgets_id_line_empty() {
    let line = "";
    let result = parse_widgets_id_line(line);
    assert_eq!(result, None);
}

#[test]
fn test_parse_widgets_id_table() {
    let content = "998890 com.bxabi.bumblebee-indicator\n\
                   998913 org.kde.plasma.awesomewidget\n\
                   # Comment line\n\
                   1155946 com.dschopf.plasma.qalculate\n";
    let table = Config::parse_widgets_id(content);
    assert_eq!(table.len(), 3);
    assert_eq!(table.get("com.bxabi.bumblebee-indicator"), Some(998890));
    assert_eq!(table.get("org.kde.plasma.awesomewidget"), Some(998913));
    assert_eq!(table.get("com.dschopf.plasma.qalculate"), Some(1155946));
}

#[test]
fn test_default_widgets_id_table_loads() {
    let config = Config::new();
    assert!(
        !config.widgets_id_table.is_empty(),
        "Default widgets_id_table should not be empty"
    );
    assert_eq!(
        config.widgets_id_table.get("com.bxabi.bumblebee-indicator"),
        Some(998890)
    );
    assert_eq!(
        config.widgets_id_table.get("org.kde.plasma.awesomewidget"),
        Some(998913)
    );
}

#[test]
fn test_config_with_custom_widgets_id_table() {
    let mut custom_table = IdTable::new();
    custom_table.insert("custom.widget".to_string(), 123456);

    let config = Config::new().with_widgets_id_table(custom_table);

    assert_eq!(config.widgets_id_table.len(), 1);
    assert_eq!(config.widgets_id_table.get("custom.widget"), Some(123456));
    assert_eq!(
        config.widgets_id_table.get("com.bxabi.bumblebee-indicator"),
        None
    );
}
