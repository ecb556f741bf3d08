use hass_sql_sensors::catalog::{catalog, columns_to_probe, PropertyDefinition, Tier};
use hass_sql_sensors::cfg_gen::{generate_config, push_device_entries, select_devices};
use hass_sql_sensors::hass_cfg::{name_section, HassConfig, SensorEntry};

fn names(config: &HassConfig) -> Vec<String> {
    config.sql.0.iter().map(|entry| entry.name.clone()).collect()
}

fn names_of(entries: &[SensorEntry]) -> Vec<String> {
    entries.iter().map(|entry| entry.name.clone()).collect()
}

#[test]
fn catalog_is_declared_in_three_tiers() {
    let items = catalog();
    let listed: Vec<(&str, &str, Option<&str>, Option<&str>, Tier)> = items
        .iter()
        .map(|p| (p.display_name, p.storage_column, p.device_class, p.unit, p.tier))
        .collect();
    assert_eq!(
        listed,
        vec![
            ("Temperature", "temperature", Some("temperature"), Some("\u{b0}C"), Tier::Always),
            ("Humidity", "humidity", Some("humidity"), Some("%"), Tier::Always),
            (
                "Air Pressure",
                "air_pressure",
                Some("atmospheric_pressure"),
                Some("hPa"),
                Tier::Conditional
            ),
            ("Battery Voltage", "battery", Some("voltage"), Some("V"), Tier::Stat),
            ("WiFi SSID", "wifi_ssid", None, None, Tier::Stat),
            ("WiFi RSSI", "wifi_rssi", Some("signal_strength"), Some("dBm"), Tier::Stat),
        ]
    );
}

#[test]
fn catalog_has_no_duplicate_name_or_column() {
    let items = catalog();
    for (i, a) in items.iter().enumerate() {
        for b in items.iter().skip(i + 1) {
            assert_ne!(a.display_name, b.display_name);
            assert_ne!(a.storage_column, b.storage_column);
        }
    }
}

#[test]
fn columns_to_probe_are_those_of_the_conditional_records() {
    assert_eq!(columns_to_probe(&catalog()), vec!["air_pressure"]);
    let mixed = vec![
        PropertyDefinition::air_pressure(),
        PropertyDefinition::temperature(),
        PropertyDefinition {
            display_name: "CO2",
            storage_column: "co2",
            device_class: None,
            unit: Some("ppm"),
            tier: Tier::Conditional,
        },
        PropertyDefinition::wifi_rssi(),
    ];
    assert_eq!(columns_to_probe(&mixed), vec!["air_pressure", "co2"]);
    assert_eq!(columns_to_probe(&Vec::new()), Vec::<&str>::new());
}

#[test]
fn devices_one_and_two_where_two_lacks_pressure() {
    let config = generate_config("db", &vec![1, 2], &vec![vec![true], vec![false]], false);
    assert_eq!(
        names(&config),
        vec![
            "Node #1 Temperature",
            "Node #1 Humidity",
            "Node #1 Air Pressure",
            "Node #2 Temperature",
            "Node #2 Humidity",
        ]
    );
    let config = generate_config("db", &vec![1, 2], &vec![vec![false], vec![false]], false);
    assert_eq!(
        names(&config),
        vec![
            "Node #1 Temperature",
            "Node #1 Humidity",
            "Node #2 Temperature",
            "Node #2 Humidity",
        ]
    );
}

#[test]
fn always_present_entries_come_once_whatever_the_data() {
    for answers in [vec![], vec![vec![false]], vec![vec![true]], vec![vec![true, true, false]]] {
        for stats in [false, true] {
            let config = generate_config("db", &vec![5], &answers, stats);
            let all = names(&config);
            assert_eq!(all.iter().filter(|n| *n == "Node #5 Temperature").count(), 1);
            assert_eq!(all.iter().filter(|n| *n == "Node #5 Humidity").count(), 1);
        }
    }
}

#[test]
fn conditional_entry_comes_exactly_where_data_was_found() {
    for stats in [false, true] {
        let with = generate_config("db", &vec![5], &vec![vec![true]], stats);
        assert_eq!(names(&with).iter().filter(|n| *n == "Node #5 Air Pressure").count(), 1);
        let without = generate_config("db", &vec![5], &vec![vec![false]], stats);
        assert!(!names(&without).contains(&"Node #5 Air Pressure".to_string()));
    }
}

#[test]
fn missing_answers_count_as_no_data() {
    let config = generate_config("db", &vec![1, 2], &vec![vec![true]], false);
    assert_eq!(
        names(&config),
        vec![
            "Node #1 Temperature",
            "Node #1 Humidity",
            "Node #1 Air Pressure",
            "Node #2 Temperature",
            "Node #2 Humidity",
        ]
    );
    let config = generate_config("db", &vec![1], &vec![vec![]], false);
    assert_eq!(names(&config), vec!["Node #1 Temperature", "Node #1 Humidity"]);
}

#[test]
fn statistics_add_their_entries_and_nothing_else() {
    let plain = generate_config("db", &vec![3, 4], &vec![vec![true], vec![false]], false);
    let full = generate_config("db", &vec![3, 4], &vec![vec![true], vec![false]], true);
    assert_eq!(
        names(&full),
        vec![
            "Node #3 Temperature",
            "Node #3 Humidity",
            "Node #3 Air Pressure",
            "Node #3 Battery Voltage",
            "Node #3 WiFi SSID",
            "Node #3 WiFi RSSI",
            "Node #4 Temperature",
            "Node #4 Humidity",
            "Node #4 Battery Voltage",
            "Node #4 WiFi SSID",
            "Node #4 WiFi RSSI",
        ]
    );
    assert_eq!(full.sql.0.len(), plain.sql.0.len() + 2 * 3);
    let rest: Vec<String> = names(&full)
        .into_iter()
        .filter(|n| !n.contains("Battery") && !n.contains("WiFi"))
        .collect();
    assert_eq!(rest, names(&plain));
    for name in names(&plain) {
        assert!(!name.contains("Battery") && !name.contains("WiFi"));
    }
}

#[test]
fn entries_carry_the_address_and_the_catalog() {
    let config = generate_config("postgres://h/db", &vec![8], &vec![vec![true]], true);
    for entry in &config.sql.0 {
        assert_eq!(entry.db_url, "postgres://h/db");
    }
    let pressure = &config.sql.0[2];
    assert_eq!(pressure.column, "air_pressure");
    assert_eq!(pressure.device_class.as_deref(), Some("atmospheric_pressure"));
    assert_eq!(pressure.unit_of_measurement.as_deref(), Some("hPa"));
    assert_eq!(
        pressure.query,
        "SELECT air_pressure FROM measurements WHERE node = 8 ORDER BY id DESC LIMIT 1;"
    );
    let ssid = &config.sql.0[4];
    assert_eq!(ssid.column, "wifi_ssid");
    assert_eq!(ssid.device_class, None);
    assert_eq!(ssid.unit_of_measurement, None);
}

#[test]
fn no_device_gives_an_empty_document() {
    let config = generate_config("db", &Vec::new(), &Vec::new(), true);
    assert!(config.sql.0.is_empty());
}

#[test]
fn a_device_that_was_discovered_twice_has_its_entries_twice() {
    let config = generate_config("db", &vec![6, 6], &vec![vec![false], vec![true]], false);
    assert_eq!(
        names(&config),
        vec![
            "Node #6 Temperature",
            "Node #6 Humidity",
            "Node #6 Temperature",
            "Node #6 Humidity",
            "Node #6 Air Pressure",
        ]
    );
}

#[test]
fn device_entries_follow_any_catalog() {
    let items = vec![
        PropertyDefinition {
            display_name: "CO2",
            storage_column: "co2",
            device_class: None,
            unit: Some("ppm"),
            tier: Tier::Conditional,
        },
        PropertyDefinition::wifi_rssi(),
        PropertyDefinition::temperature(),
        PropertyDefinition::air_pressure(),
    ];
    let mut out = vec![];
    push_device_entries(&mut out, "db", 1, &items, &vec![false, true], false);
    assert_eq!(names_of(&out), vec!["Node #1 Temperature", "Node #1 Air Pressure"]);
    push_device_entries(&mut out, "db", 2, &items, &vec![true, false], true);
    assert_eq!(
        names_of(&out),
        vec![
            "Node #1 Temperature",
            "Node #1 Air Pressure",
            "Node #2 CO2",
            "Node #2 WiFi RSSI",
            "Node #2 Temperature",
        ]
    );
    assert_eq!(out[2].device_class, None);
    assert_eq!(out[2].unit_of_measurement.as_deref(), Some("ppm"));
}

#[test]
fn select_devices_removes_the_skipped_and_keeps_the_order() {
    assert_eq!(select_devices(&vec![1, 2, 3, 4], &vec![2, 4]), vec![1, 3]);
    assert_eq!(select_devices(&vec![3, 1, 2], &vec![]), vec![3, 1, 2]);
    assert_eq!(select_devices(&vec![3, 1, 2], &vec![9]), vec![3, 1, 2]);
    assert_eq!(select_devices(&vec![5, 1, 5, 2, 5], &vec![5]), vec![1, 2]);
    assert_eq!(select_devices(&vec![1, 1, 2], &vec![2, 2]), vec![1, 1]);
    assert_eq!(select_devices(&vec![], &vec![1]), Vec::<i16>::new());
    assert_eq!(select_devices(&vec![7], &vec![7]), Vec::<i16>::new());
}

#[test]
fn skipping_a_device_removes_its_entries_and_no_others() {
    let ids = vec![1, 2, 3];
    let data = |d: i16| vec![d != 2 && d != 3];
    let all = select_devices(&ids, &vec![]);
    let answers: Vec<Vec<bool>> = all.iter().map(|d| data(*d)).collect();
    let whole = generate_config("db", &all, &answers, true);

    let kept = select_devices(&ids, &vec![2]);
    let answers: Vec<Vec<bool>> = kept.iter().map(|d| data(*d)).collect();
    let part = generate_config("db", &kept, &answers, true);

    let expected: Vec<String> =
        names(&whole).into_iter().filter(|n| !n.starts_with("Node #2 ")).collect();
    assert_eq!(names(&part), expected);
    assert!(names(&part).iter().all(|n| !n.starts_with("Node #2 ")));
}

#[test]
fn name_section_rewrites_the_key_only() {
    let document = "sql:\n- db_url: postgresql://h/db\n  name: Node #1 Temperature\n";
    assert_eq!(name_section(document, None), document);
    assert_eq!(
        name_section(document, Some("attic")),
        "sql attic:\n- db_url: postgresql://h/db\n  name: Node #1 Temperature\n"
    );
    assert_eq!(name_section("sql: []\n", Some("2")), "sql 2: []\n");
    assert_eq!(name_section("sql:", Some("x")), "sql x:");
}

#[test]
fn name_section_leaves_other_text_alone() {
    assert_eq!(name_section("", Some("x")), "");
    assert_eq!(name_section("sql", Some("x")), "sql");
    assert_eq!(name_section("sensor:\n- sql: 1\n", Some("x")), "sensor:\n- sql: 1\n");
    assert_eq!(name_section(" sql:\n", Some("x")), " sql:\n");
    assert_eq!(name_section("sq\u{142}:", Some("x")), "sq\u{142}:");
    assert_eq!(name_section("sql:\u{e9}", Some("\u{fc}")), "sql \u{fc}:\u{e9}");
}
