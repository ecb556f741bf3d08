use hass_sql_sensors::generator::{run, start, Failure, Reply, Request, RequestKind, Step};
use hass_sql_sensors::hass_cfg::HassConfig;

fn names(config: &HassConfig) -> Vec<String> {
    config.sql.0.iter().map(|entry| entry.name.clone()).collect()
}

/// Plays the part of the database: answers each request from the list of replies
/// and records the queries that were asked.
fn drive(
    stats: bool,
    verify: bool,
    skip: Vec<i16>,
    replies: Vec<Reply>,
) -> (Result<HassConfig, Failure>, Vec<(RequestKind, String)>) {
    let (mut state, mut request) = start(stats, verify, skip, "postgres://h/db");
    let mut asked = vec![];
    let mut replies = replies.into_iter();
    loop {
        asked.push((request.kind, request.query.clone()));
        let reply = match replies.next() {
            Some(reply) => reply,
            None => panic!("the run asks for more than was prepared: {:?}", asked),
        };
        match run(state, reply) {
            Step::Ask(next, following) => {
                state = next;
                request = following;
            }
            Step::Emit(config) => {
                assert!(replies.next().is_none(), "replies are left over");
                return (Ok(config), asked);
            }
            Step::Abort(failure) => return (Err(failure), asked),
        }
    }
}

fn probe(node: i16) -> (RequestKind, String) {
    (
        RequestKind::Probe,
        format!(
            "SELECT CAST(COUNT(air_pressure) AS INT8) FROM measurements WHERE air_pressure IS NOT NULL AND node = {node};"
        ),
    )
}

#[test]
fn run_begins_with_the_list_of_the_devices() {
    let (_, request): (_, Request) = start(false, false, vec![], "url");
    assert_eq!(request.kind, RequestKind::ListDevices);
    assert_eq!(request.query, "SELECT id FROM devices");
}

#[test]
fn run_of_two_devices_where_the_second_lacks_pressure() {
    let (result, asked) = drive(
        false,
        false,
        vec![],
        vec![Reply::Devices(vec![1, 2]), Reply::Count(3), Reply::Count(0)],
    );
    let config = result.unwrap();
    assert_eq!(
        names(&config),
        vec![
            "Node #1 Temperature",
            "Node #1 Humidity",
            "Node #1 Air Pressure",
            "Node #2 Temperature",
            "Node #2 Humidity",
        ]
    );
    assert_eq!(
        asked,
        vec![
            (RequestKind::ListDevices, "SELECT id FROM devices".to_string()),
            probe(1),
            probe(2),
        ]
    );
    for entry in &config.sql.0 {
        assert_eq!(entry.db_url, "postgres://h/db");
    }
}

#[test]
fn run_of_two_devices_without_any_pressure() {
    let (result, _) = drive(
        false,
        false,
        vec![],
        vec![Reply::Devices(vec![1, 2]), Reply::Count(0), Reply::Count(0)],
    );
    assert_eq!(
        names(&result.unwrap()),
        vec![
            "Node #1 Temperature",
            "Node #1 Humidity",
            "Node #2 Temperature",
            "Node #2 Humidity",
        ]
    );
}

#[test]
fn count_must_be_greater_than_zero() {
    for (count, listed) in [(i64::MIN, false), (-1, false), (0, false), (1, true), (i64::MAX, true)]
    {
        let (result, _) =
            drive(false, false, vec![], vec![Reply::Devices(vec![4]), Reply::Count(count)]);
        let found = names(&result.unwrap()).contains(&"Node #4 Air Pressure".to_string());
        assert_eq!(found, listed, "count {count}");
    }
}

#[test]
fn run_with_statistics_lists_them_for_every_device() {
    let (result, asked) = drive(
        true,
        false,
        vec![],
        vec![Reply::Devices(vec![10, 11]), Reply::Count(0), Reply::Count(1)],
    );
    assert_eq!(
        names(&result.unwrap()),
        vec![
            "Node #10 Temperature",
            "Node #10 Humidity",
            "Node #10 Battery Voltage",
            "Node #10 WiFi SSID",
            "Node #10 WiFi RSSI",
            "Node #11 Temperature",
            "Node #11 Humidity",
            "Node #11 Air Pressure",
            "Node #11 Battery Voltage",
            "Node #11 WiFi SSID",
            "Node #11 WiFi RSSI",
        ]
    );
    assert_eq!(asked.len(), 3);
}

#[test]
fn run_skips_devices_and_does_not_probe_them() {
    let (result, asked) = drive(
        false,
        false,
        vec![2, 9],
        vec![Reply::Devices(vec![1, 2, 3, 2]), Reply::Count(1), Reply::Count(1)],
    );
    assert_eq!(
        names(&result.unwrap()),
        vec![
            "Node #1 Temperature",
            "Node #1 Humidity",
            "Node #1 Air Pressure",
            "Node #3 Temperature",
            "Node #3 Humidity",
            "Node #3 Air Pressure",
        ]
    );
    assert_eq!(
        asked,
        vec![
            (RequestKind::ListDevices, "SELECT id FROM devices".to_string()),
            probe(1),
            probe(3),
        ]
    );
}

#[test]
fn run_without_devices_emits_an_empty_document() {
    for verify in [false, true] {
        let (result, asked) = drive(true, verify, vec![], vec![Reply::Devices(vec![])]);
        assert!(result.unwrap().sql.0.is_empty());
        assert_eq!(asked.len(), 1);
        let (result, asked) = drive(true, verify, vec![1], vec![Reply::Devices(vec![1, 1])]);
        assert!(result.unwrap().sql.0.is_empty());
        assert_eq!(asked.len(), 1);
    }
}

#[test]
fn verification_runs_every_query_once_in_order() {
    let (result, asked) = drive(
        true,
        true,
        vec![],
        vec![
            Reply::Devices(vec![1]),
            Reply::Count(2),
            Reply::Row,
            Reply::Row,
            Reply::Row,
            Reply::Row,
            Reply::Row,
            Reply::Row,
        ],
    );
    let config = result.unwrap();
    assert_eq!(config.sql.0.len(), 6);
    let verified: Vec<String> = asked
        .iter()
        .filter(|(kind, _)| *kind == RequestKind::Verify)
        .map(|(_, query)| query.clone())
        .collect();
    let queries: Vec<String> = config.sql.0.iter().map(|entry| entry.query.clone()).collect();
    assert_eq!(verified, queries);
}

#[test]
fn verification_takes_no_row_for_success() {
    let (result, asked) = drive(
        false,
        true,
        vec![],
        vec![
            Reply::Devices(vec![1, 2]),
            Reply::Count(0),
            Reply::Count(0),
            Reply::NoRow,
            Reply::Row,
            Reply::NoRow,
            Reply::NoRow,
        ],
    );
    assert_eq!(
        names(&result.unwrap()),
        vec![
            "Node #1 Temperature",
            "Node #1 Humidity",
            "Node #2 Temperature",
            "Node #2 Humidity",
        ]
    );
    assert_eq!(asked.len(), 7);
}

#[test]
fn verification_ends_the_run_at_the_first_error() {
    let (result, asked) = drive(
        false,
        true,
        vec![],
        vec![
            Reply::Devices(vec![1, 2]),
            Reply::Count(0),
            Reply::Count(0),
            Reply::NoRow,
            Reply::Error("column \"humidity\" does not exist".to_string()),
            Reply::Row,
            Reply::Row,
        ],
    );
    match result {
        Err(Failure::Verification { name, query, error }) => {
            assert_eq!(name, "Node #1 Humidity");
            assert_eq!(
                query,
                "SELECT humidity FROM measurements WHERE node = 1 ORDER BY id DESC LIMIT 1;"
            );
            assert_eq!(error, "column \"humidity\" does not exist");
        }
        other => panic!("{:?}", other.map(|config| names(&config))),
    }
    assert_eq!(asked.len(), 5);
}

#[test]
fn verification_error_at_the_last_entry_still_emits_nothing() {
    let (result, _) = drive(
        false,
        true,
        vec![],
        vec![Reply::Devices(vec![1]), Reply::Count(0), Reply::Row, Reply::Error("e".to_string())],
    );
    assert!(matches!(result, Err(Failure::Verification { .. })));
}

#[test]
fn database_error_ends_the_run_in_discovery() {
    let (result, asked) = drive(true, true, vec![], vec![Reply::Error("refused".to_string())]);
    match result {
        Err(Failure::Database { error }) => assert_eq!(error, "refused"),
        _ => panic!(),
    }
    assert_eq!(asked.len(), 1);
}

#[test]
fn database_error_ends_the_run_in_probing() {
    let (result, asked) = drive(
        true,
        true,
        vec![],
        vec![Reply::Devices(vec![1, 2]), Reply::Count(1), Reply::Error("gone".to_string())],
    );
    match result {
        Err(Failure::Database { error }) => assert_eq!(error, "gone"),
        _ => panic!(),
    }
    assert_eq!(asked.len(), 3);
}

#[test]
fn reply_of_another_kind_ends_the_run() {
    for reply in [Reply::Count(1), Reply::Row, Reply::NoRow] {
        let (result, _) = drive(false, false, vec![], vec![reply]);
        assert!(matches!(result, Err(Failure::Protocol)));
    }
    for reply in [Reply::Devices(vec![1]), Reply::Row, Reply::NoRow] {
        let (result, _) = drive(false, false, vec![], vec![Reply::Devices(vec![1]), reply]);
        assert!(matches!(result, Err(Failure::Protocol)));
    }
    for reply in [Reply::Devices(vec![1]), Reply::Count(1)] {
        let (result, _) =
            drive(false, true, vec![], vec![Reply::Devices(vec![1]), Reply::Count(0), reply]);
        assert!(matches!(result, Err(Failure::Protocol)));
    }
}

#[test]
fn report_of_a_failed_verification_names_sensor_error_and_query() {
    let failure = Failure::Verification {
        name: "Node #1 Battery Voltage".to_string(),
        query: "SELECT statistics.battery\n   FROM statistics  LIMIT 1;".to_string(),
        error: "relation \"statistics\" does not exist".to_string(),
    };
    assert_eq!(
        failure.report(),
        "Failed to verify query for sensor `Node #1 Battery Voltage` (relation \"statistics\" does not exist):\nSELECT statistics.battery FROM statistics LIMIT 1;\n"
    );
}

#[test]
fn report_of_the_other_failures() {
    let failure = Failure::Database { error: "connection reset".to_string() };
    assert_eq!(failure.report(), "Database error: connection reset");
    assert_eq!(Failure::Protocol.report(), "The reply does not answer the pending request");
}

#[test]
fn every_failure_ends_the_process_with_status_one() {
    assert_eq!(Failure::Protocol.exit_status(), 1);
    assert_eq!(Failure::Database { error: String::new() }.exit_status(), 1);
    let failure =
        Failure::Verification { name: String::new(), query: String::new(), error: String::new() };
    assert_eq!(failure.exit_status(), 1);
}
