use hass_sql_sensors::catalog::{catalog, PropertyDefinition, Tier};
use hass_sql_sensors::cfg_gen::{
    generate_entry, generate_stat_entry, probe_query, property_entry, sql_fmt, write_direct_query,
    write_display_name, write_stat_query,
};

#[test]
fn direct_entry_has_the_documented_shape() {
    let entry = generate_entry(
        "postgres://u:p@h:5432/d",
        7,
        "Temperature",
        "temperature",
        "temperature",
        "\u{b0}C",
    );
    assert_eq!(entry.db_url, "postgres://u:p@h:5432/d");
    assert_eq!(entry.name, "Node #7 Temperature");
    assert_eq!(
        entry.query,
        "SELECT temperature FROM measurements WHERE node = 7 ORDER BY id DESC LIMIT 1;"
    );
    assert_eq!(entry.column, "temperature");
    assert_eq!(entry.device_class.as_deref(), Some("temperature"));
    assert_eq!(entry.unit_of_measurement.as_deref(), Some("\u{b0}C"));
}

#[test]
fn direct_entry_leaves_out_empty_annotations() {
    let entry = generate_entry("url", 1, "Raw", "raw", "", "");
    assert_eq!(entry.device_class, None);
    assert_eq!(entry.unit_of_measurement, None);
    let entry = generate_entry("url", 1, "Raw", "raw", "", "V");
    assert_eq!(entry.device_class, None);
    assert_eq!(entry.unit_of_measurement.as_deref(), Some("V"));
}

#[test]
fn stat_entry_has_the_documented_shape() {
    let entry = generate_stat_entry(
        "url",
        12,
        "WiFi RSSI",
        "wifi_rssi",
        Some("signal_strength"),
        Some("dBm"),
    );
    assert_eq!(entry.db_url, "url");
    assert_eq!(entry.name, "Node #12 WiFi RSSI");
    assert_eq!(
        entry.query,
        "SELECT statistics.wifi_rssi FROM statistics INNER JOIN measurements ON measurements.id = statistics.measurement WHERE measurements.node = 12 ORDER BY measurements.id DESC LIMIT 1;"
    );
    assert_eq!(entry.column, "wifi_rssi");
    assert_eq!(entry.device_class.as_deref(), Some("signal_strength"));
    assert_eq!(entry.unit_of_measurement.as_deref(), Some("dBm"));
}

#[test]
fn stat_entry_keeps_annotations_as_given() {
    let entry = generate_stat_entry("url", 3, "WiFi SSID", "wifi_ssid", None, None);
    assert_eq!(entry.device_class, None);
    assert_eq!(entry.unit_of_measurement, None);
    let entry = generate_stat_entry("url", 3, "X", "x", Some(""), Some(""));
    assert_eq!(entry.device_class.as_deref(), Some(""));
    assert_eq!(entry.unit_of_measurement.as_deref(), Some(""));
}

#[test]
fn stat_query_is_a_single_line_without_runs_of_blanks() {
    for node in [i16::MIN, -1, 0, 1, 42, i16::MAX] {
        for property in catalog() {
            if property.tier == Tier::Stat {
                let entry = property_entry("url", node, &property);
                assert!(!entry.query.contains('\n'), "{}", entry.query);
                assert!(!entry.query.contains("  "), "{}", entry.query);
                assert!(entry.query.starts_with("SELECT statistics."));
                assert!(entry.query.ends_with("LIMIT 1;"));
            }
        }
    }
}

#[test]
fn stat_query_of_an_untidy_column_is_still_normal() {
    let query = write_stat_query(" a \n  b\n", 5);
    assert_eq!(
        query,
        "SELECT statistics. a b FROM statistics INNER JOIN measurements ON measurements.id = statistics.measurement WHERE measurements.node = 5 ORDER BY measurements.id DESC LIMIT 1;"
    );
    assert!(!query.contains('\n'));
    assert!(!query.contains("  "));
}

#[test]
fn every_query_selects_and_limits_to_one_row() {
    for property in catalog() {
        let entry = property_entry("url", 9, &property);
        assert!(entry.query.starts_with("SELECT "), "{}", entry.query);
        assert!(entry.query.ends_with("LIMIT 1;"), "{}", entry.query);
    }
}

#[test]
fn probe_counts_values_that_are_not_null() {
    assert_eq!(
        probe_query(-3, "air_pressure"),
        "SELECT CAST(COUNT(air_pressure) AS INT8) FROM measurements WHERE air_pressure IS NOT NULL AND node = -3;"
    );
    assert_eq!(
        probe_query(15, "co2"),
        "SELECT CAST(COUNT(co2) AS INT8) FROM measurements WHERE co2 IS NOT NULL AND node = 15;"
    );
}

#[test]
fn display_name_and_queries_take_wide_identifiers() {
    assert_eq!(write_display_name(65535, "Humidity"), "Node #65535 Humidity");
    assert_eq!(write_display_name(-32768, "Humidity"), "Node #-32768 Humidity");
    assert_eq!(
        write_direct_query("humidity", 65535),
        "SELECT humidity FROM measurements WHERE node = 65535 ORDER BY id DESC LIMIT 1;"
    );
}

#[test]
fn property_entry_follows_the_tier() {
    let direct = property_entry("db", 2, &PropertyDefinition::air_pressure());
    assert_eq!(direct.name, "Node #2 Air Pressure");
    assert_eq!(
        direct.query,
        "SELECT air_pressure FROM measurements WHERE node = 2 ORDER BY id DESC LIMIT 1;"
    );
    assert_eq!(direct.column, "air_pressure");
    assert_eq!(direct.device_class.as_deref(), Some("atmospheric_pressure"));
    assert_eq!(direct.unit_of_measurement.as_deref(), Some("hPa"));

    let joined = property_entry("db", 2, &PropertyDefinition::battery_voltage());
    assert_eq!(joined.name, "Node #2 Battery Voltage");
    assert_eq!(
        joined.query,
        "SELECT statistics.battery FROM statistics INNER JOIN measurements ON measurements.id = statistics.measurement WHERE measurements.node = 2 ORDER BY measurements.id DESC LIMIT 1;"
    );
    assert_eq!(joined.device_class.as_deref(), Some("voltage"));
    assert_eq!(joined.unit_of_measurement.as_deref(), Some("V"));

    let bare = property_entry("db", 2, &PropertyDefinition::wifi_ssid());
    assert_eq!(bare.device_class, None);
    assert_eq!(bare.unit_of_measurement, None);
}

#[test]
fn sql_fmt_collapses_blanks_and_deletes_line_feeds() {
    let text =
        "  SELECT statistics.battery\n            FROM statistics\n   WHERE x = 1;\n\t ".to_string();
    assert_eq!(sql_fmt(text), "SELECT statistics.battery FROM statistics WHERE x = 1;");
}

#[test]
fn sql_fmt_of_the_query_written_over_several_lines() {
    let text = "SELECT statistics.battery
            FROM statistics
            INNER JOIN measurements ON measurements.id = statistics.measurement
            WHERE measurements.node = 4
            ORDER BY measurements.id DESC LIMIT 1;"
        .to_string();
    assert_eq!(
        sql_fmt(text),
        "SELECT statistics.battery FROM statistics INNER JOIN measurements ON measurements.id = statistics.measurement WHERE measurements.node = 4 ORDER BY measurements.id DESC LIMIT 1;"
    );
}
