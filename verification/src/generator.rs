//! The run of the generator, one database round trip at a time.
//!
//! The generator never touches the database. It says which query it needs
//! answered next, and [`run`] takes the answer and says what follows: another
//! query, the finished document, or the failure that ends the run.

use crate::catalog::{catalog, catalog_items, columns_to_probe, probe_columns};
use crate::cfg_gen::{
    all_entries, device_query, generate_config, kept_devices, probe_query, select_devices,
    support_query,
};
use crate::hass_cfg::{HassConfig, SensorEntry, SensorEntryView, SqlIntegrationConfig};
use crate::spacing::{normalize, normalized};
use vstd::prelude::*;

verus! {

/// What the answer to a query is needed for.
#[derive(Clone, Copy, Debug, PartialEq, Eq, Structural)]
pub enum RequestKind {
    /// The query lists the identifiers of the devices.
    ListDevices,
    /// The query counts the values that a device has of a conditional property.
    Probe,
    /// The query is that of a generated entry and is run once to see that it works.
    Verify,
}

/// A query that the generator needs answered.
#[derive(Debug)]
pub struct Request {
    pub kind: RequestKind,
    pub query: String,
}

/// What a [`Request`] holds, as plain text.
pub struct RequestView {
    pub kind: RequestKind,
    pub query: Seq<char>,
}

impl View for Request {
    type V = RequestView;

    open spec fn view(&self) -> RequestView {
        RequestView { kind: self.kind, query: self.query@ }
    }
}

/// What the database said to a query.
#[derive(Debug)]
pub enum Reply {
    /// The identifiers of the devices, in the order of the rows.
    Devices(Vec<i16>),
    /// The count that a probe returned.
    Count(i64),
    /// The query returned a row.
    Row,
    /// The database reported that the query found no row.
    NoRow,
    /// The database reported any other error.
    Error(String),
}

/// What a [`Reply`] holds, as plain values.
pub enum ReplyView {
    Devices(Seq<i16>),
    Count(int),
    Row,
    NoRow,
    Error(Seq<char>),
}

impl View for Reply {
    type V = ReplyView;

    open spec fn view(&self) -> ReplyView {
        match self {
            Reply::Devices(ids) => ReplyView::Devices(ids@),
            Reply::Count(count) => ReplyView::Count(*count as int),
            Reply::Row => ReplyView::Row,
            Reply::NoRow => ReplyView::NoRow,
            Reply::Error(error) => ReplyView::Error(error@),
        }
    }
}

/// Why a run ended without a document.
#[derive(Debug)]
pub enum Failure {
    /// The database failed to list the devices or to answer a probe.
    Database { error: String },
    /// The query of an entry failed when it was verified.
    Verification { name: String, query: String, error: String },
    /// The reply does not answer the request that was pending.
    Protocol,
}

/// What a [`Failure`] holds, as plain text.
pub enum FailureView {
    Database { error: Seq<char> },
    Verification { name: Seq<char>, query: Seq<char>, error: Seq<char> },
    Protocol,
}

impl View for Failure {
    type V = FailureView;

    open spec fn view(&self) -> FailureView {
        match self {
            Failure::Database { error } => FailureView::Database { error: error@ },
            Failure::Verification { name, query, error } => FailureView::Verification {
                name: name@,
                query: query@,
                error: error@,
            },
            Failure::Protocol => FailureView::Protocol,
        }
    }
}

impl FailureView {
    /// The message that tells the user of the failure. That of a failed
    /// verification names the sensor and the error and shows the query in
    /// normal form.
    pub open spec fn report(self) -> Seq<char> {
        match self {
            FailureView::Database { error } => "Database error: "@ + error,
            FailureView::Verification { name, query, error } =>
                "Failed to verify query for sensor `"@ + name + "` ("@ + error + "):\n"@
                    + normalized(query) + "\n"@,
            FailureView::Protocol => "The reply does not answer the pending request"@,
        }
    }
}

impl Failure {
    /// The status with which the process ends after the failure: 1, whatever
    /// the failure.
    pub fn exit_status(&self) -> (status: i32)
        ensures
            status == 1,
    {
        1
    }

    /// Writes the message that tells the user of the failure.
    pub fn report(&self) -> (message: String)
        ensures
            message@ == self@.report(),
    {
        match self {
            Failure::Database { error } => {
                let mut message = String::from_str("Database error: ");
                message.append(error.as_str());
                message
            },
            Failure::Verification { name, query, error } => {
                let mut message = String::from_str("Failed to verify query for sensor `");
                message.append(name.as_str());
                message.append("` (");
                message.append(error.as_str());
                message.append("):\n");
                message.append(normalize(query.as_str()).as_str());
                message.append("\n");
                message
            },
            Failure::Protocol => String::from_str("The reply does not answer the pending request"),
        }
    }
}

/// Where a run stands.
pub enum PhaseView {
    /// The list of the devices is awaited.
    Discovering,
    /// The answer to a probe is awaited: that of the device after those that
    /// have their row in `answers`, for the column after those that have
    /// their answer in `current`.
    Probing { devices: Seq<i16>, answers: Seq<Seq<bool>>, current: Seq<bool> },
    /// The outcome of the query of the entry at `checked` is awaited.
    Verifying { entries: Seq<SensorEntryView>, checked: int },
}

/// The state of a run, as plain values.
pub struct GeneratorView {
    pub db_url: Seq<char>,
    pub include_stats: bool,
    pub verify: bool,
    pub skip: Seq<i16>,
    pub phase: PhaseView,
}

impl GeneratorView {
    /// Whether the query that the state awaits an answer to exists.
    pub open spec fn well_formed(self) -> bool {
        match self.phase {
            PhaseView::Discovering => true,
            PhaseView::Probing { devices, answers, current } => answers.len() < devices.len()
                && current.len() < probe_columns().len(),
            PhaseView::Verifying { entries, checked } => 0 <= checked < entries.len(),
        }
    }

    /// The same run in another phase.
    pub open spec fn at(self, phase: PhaseView) -> GeneratorView {
        GeneratorView {
            db_url: self.db_url,
            include_stats: self.include_stats,
            verify: self.verify,
            skip: self.skip,
            phase,
        }
    }
}

/// What follows a reply.
pub enum StepView {
    Ask(GeneratorView, RequestView),
    Emit(Seq<SensorEntryView>),
    Abort(FailureView),
}

/// The request for the list of the devices.
pub open spec fn discovery_request() -> RequestView {
    RequestView { kind: RequestKind::ListDevices, query: device_query() }
}

/// The request for the probe of a device for a column.
pub open spec fn probe_request(device: i16, column: Seq<char>) -> RequestView {
    RequestView { kind: RequestKind::Probe, query: support_query(column, device as int) }
}

/// The request for the verification of an entry.
pub open spec fn verify_request(entry: SensorEntryView) -> RequestView {
    RequestView { kind: RequestKind::Verify, query: entry.query }
}

/// The state in which a run begins.
pub open spec fn initial_state(
    db_url: Seq<char>,
    include_stats: bool,
    verify: bool,
    skip: Seq<i16>,
) -> GeneratorView {
    GeneratorView { db_url, include_stats, verify, skip, phase: PhaseView::Discovering }
}

/// What follows when every probe is answered: the document is assembled, and
/// either its first entry is verified or, if verification was not asked for
/// or there is no entry, the document is emitted.
pub open spec fn after_probing(
    state: GeneratorView,
    devices: Seq<i16>,
    answers: Seq<Seq<bool>>,
) -> StepView {
    let entries = all_entries(
        state.db_url,
        devices,
        catalog_items(),
        answers,
        state.include_stats,
    );
    if state.verify && entries.len() > 0 {
        StepView::Ask(
            state.at(PhaseView::Verifying { entries, checked: 0 }),
            verify_request(entries[0]),
        )
    } else {
        StepView::Emit(entries)
    }
}

/// What follows the list of the devices: the first probe of the first device
/// that is not skipped, or, if there is nothing to probe, what follows the probing.
pub open spec fn after_discovery(state: GeneratorView, ids: Seq<i16>) -> StepView {
    let devices = kept_devices(ids, state.skip);
    if devices.len() > 0 && probe_columns().len() > 0 {
        StepView::Ask(
            state.at(
                PhaseView::Probing { devices, answers: Seq::empty(), current: Seq::empty() },
            ),
            probe_request(devices[0], probe_columns()[0]),
        )
    } else {
        after_probing(state, devices, Seq::empty())
    }
}

/// What follows the count of a probe: the device has data of the column if
/// the count is greater than zero. Then comes the next column of the same
/// device, or the first column of the next device, or, after the last, what
/// follows the probing.
pub open spec fn after_count(
    state: GeneratorView,
    devices: Seq<i16>,
    answers: Seq<Seq<bool>>,
    current: Seq<bool>,
    count: int,
) -> StepView {
    let row = current.push(count > 0);
    if row.len() < probe_columns().len() {
        StepView::Ask(
            state.at(PhaseView::Probing { devices, answers, current: row }),
            probe_request(devices[answers.len() as int], probe_columns()[row.len() as int]),
        )
    } else if answers.len() + 1 < devices.len() {
        StepView::Ask(
            state.at(
                PhaseView::Probing { devices, answers: answers.push(row), current: Seq::empty() },
            ),
            probe_request(devices[(answers.len() + 1) as int], probe_columns()[0]),
        )
    } else {
        after_probing(state, devices, answers.push(row))
    }
}

/// What follows a query of an entry that did not fail: the next entry is
/// verified, or, after the last, the document is emitted.
pub open spec fn after_pass(
    state: GeneratorView,
    entries: Seq<SensorEntryView>,
    checked: int,
) -> StepView {
    if checked + 1 < entries.len() {
        StepView::Ask(
            state.at(PhaseView::Verifying { entries, checked: checked + 1 }),
            verify_request(entries[checked + 1]),
        )
    } else {
        StepView::Emit(entries)
    }
}

/// What follows a reply in a state.
///
/// A database error ends the run. While the document is verified, a row and
/// the report that no row was found both let the run go on. A reply of a kind
/// that does not answer the pending request ends the run.
pub open spec fn next_step(state: GeneratorView, reply: ReplyView) -> StepView {
    match state.phase {
        PhaseView::Discovering => match reply {
            ReplyView::Devices(ids) => after_discovery(state, ids),
            ReplyView::Error(error) => StepView::Abort(FailureView::Database { error }),
            _ => StepView::Abort(FailureView::Protocol),
        },
        PhaseView::Probing { devices, answers, current } => match reply {
            ReplyView::Count(count) => after_count(state, devices, answers, current, count),
            ReplyView::Error(error) => StepView::Abort(FailureView::Database { error }),
            _ => StepView::Abort(FailureView::Protocol),
        },
        PhaseView::Verifying { entries, checked } => match reply {
            ReplyView::Row => after_pass(state, entries, checked),
            ReplyView::NoRow => after_pass(state, entries, checked),
            ReplyView::Error(error) => StepView::Abort(
                FailureView::Verification {
                    name: entries[checked].name,
                    query: entries[checked].query,
                    error,
                },
            ),
            _ => StepView::Abort(FailureView::Protocol),
        },
    }
}

enum Phase {
    Discovering,
    Probing { devices: Vec<i16>, answers: Vec<Vec<bool>>, current: Vec<bool> },
    Verifying { entries: Vec<SensorEntry>, checked: usize },
}

impl Phase {
    spec fn view(&self) -> PhaseView {
        match self {
            Phase::Discovering => PhaseView::Discovering,
            Phase::Probing { devices, answers, current } => PhaseView::Probing {
                devices: devices@,
                answers: answers.deep_view(),
                current: current@,
            },
            Phase::Verifying { entries, checked } => PhaseView::Verifying {
                entries: entries.deep_view(),
                checked: *checked as int,
            },
        }
    }
}

/// The state of a run: its settings and where it stands.
pub struct Generator {
    db_url: String,
    include_stats: bool,
    verify: bool,
    skip: Vec<i16>,
    phase: Phase,
}

impl View for Generator {
    type V = GeneratorView;

    closed spec fn view(&self) -> GeneratorView {
        GeneratorView {
            db_url: self.db_url@,
            include_stats: self.include_stats,
            verify: self.verify,
            skip: self.skip@,
            phase: self.phase.view(),
        }
    }
}

impl Generator {
    #[verifier::type_invariant]
    spec fn is_consistent(self) -> bool {
        self@.well_formed()
    }
}

/// What follows a reply: the next state with the request to make, the
/// document, or the failure.
pub enum Step {
    Ask(Generator, Request),
    Emit(HassConfig),
    Abort(Failure),
}

impl View for Step {
    type V = StepView;

    open spec fn view(&self) -> StepView {
        match self {
            Step::Ask(state, request) => StepView::Ask(state@, request@),
            Step::Emit(config) => StepView::Emit(config@),
            Step::Abort(failure) => StepView::Abort(failure@),
        }
    }
}

fn finish_probing(
    db_url: String,
    include_stats: bool,
    verify: bool,
    skip: Vec<i16>,
    devices: Vec<i16>,
    answers: Vec<Vec<bool>>,
) -> (step: Step)
    ensures
        step@ == after_probing(
            initial_state(db_url@, include_stats, verify, skip@),
            devices@,
            answers.deep_view(),
        ),
{
    let config = generate_config(db_url.as_str(), &devices, &answers, include_stats);
    let entries = config.sql.0;
    if verify && entries.len() > 0 {
        let request = Request { kind: RequestKind::Verify, query: entries[0].query.clone() };
        Step::Ask(
            Generator {
                db_url,
                include_stats,
                verify,
                skip,
                phase: Phase::Verifying { entries, checked: 0 },
            },
            request,
        )
    } else {
        Step::Emit(HassConfig { sql: SqlIntegrationConfig(entries) })
    }
}

/// Begins a run: returns its first state and the request for the list of the
/// devices. Devices whose identifier is in `skip` will be left out.
pub fn start(stats: bool, verify: bool, skip: Vec<i16>, db_url: &str) -> (begin: (
    Generator,
    Request,
))
    ensures
        begin.0@ == initial_state(db_url@, stats, verify, skip@),
        begin.0@.well_formed(),
        begin.1@ == discovery_request(),
{
    let state = Generator {
        db_url: String::from_str(db_url),
        include_stats: stats,
        verify,
        skip,
        phase: Phase::Discovering,
    };
    let request = Request {
        kind: RequestKind::ListDevices,
        query: String::from_str("SELECT id FROM devices"),
    };
    (state, request)
}

/// Takes the reply to the pending request and says what follows.
pub fn run(state: Generator, reply: Reply) -> (step: Step)
    ensures
        step@ == next_step(state@, reply@),
        step matches Step::Ask(next, _) ==> next@.well_formed(),
{
    proof {
        use_type_invariant(&state);
    }
    let Generator { db_url, include_stats, verify, skip, phase } = state;
    match phase {
        Phase::Discovering => match reply {
            Reply::Devices(ids) => {
                let devices = select_devices(&ids, &skip);
                let columns = columns_to_probe(&catalog());
                if devices.len() > 0 && columns.len() > 0 {
                    let request = Request {
                        kind: RequestKind::Probe,
                        query: probe_query(devices[0], columns[0]),
                    };
                    let answers: Vec<Vec<bool>> = Vec::new();
                    let current: Vec<bool> = Vec::new();
                    assert(answers.deep_view() =~= Seq::<Seq<bool>>::empty());
                    assert(columns.deep_view()[0] == columns[0]@);
                    Step::Ask(
                        Generator {
                            db_url,
                            include_stats,
                            verify,
                            skip,
                            phase: Phase::Probing { devices, answers, current },
                        },
                        request,
                    )
                } else {
                    let answers: Vec<Vec<bool>> = Vec::new();
                    assert(answers.deep_view() =~= Seq::<Seq<bool>>::empty());
                    finish_probing(db_url, include_stats, verify, skip, devices, answers)
                }
            },
            Reply::Error(error) => Step::Abort(Failure::Database { error }),
            _ => Step::Abort(Failure::Protocol),
        },
        Phase::Probing { devices, answers, current } => match reply {
            Reply::Count(count) => {
                let columns = columns_to_probe(&catalog());
                let ghost rows = answers.deep_view();
                let mut answers = answers;
                let mut current = current;
                current.push(count > 0);
                if current.len() < columns.len() {
                    let request = Request {
                        kind: RequestKind::Probe,
                        query: probe_query(devices[answers.len()], columns[current.len()]),
                    };
                    assert(columns.deep_view()[current.len() as int] == columns[current.len() as int]@);
                    Step::Ask(
                        Generator {
                            db_url,
                            include_stats,
                            verify,
                            skip,
                            phase: Phase::Probing { devices, answers, current },
                        },
                        request,
                    )
                } else {
                    let ghost row = current@;
                    assert(current.deep_view() =~= row);
                    answers.push(current);
                    assert(answers.deep_view() =~= rows.push(row));
                    if answers.len() < devices.len() {
                        let request = Request {
                            kind: RequestKind::Probe,
                            query: probe_query(devices[answers.len()], columns[0]),
                        };
                        assert(columns.deep_view()[0] == columns[0]@);
                        Step::Ask(
                            Generator {
                                db_url,
                                include_stats,
                                verify,
                                skip,
                                phase: Phase::Probing { devices, answers, current: Vec::new() },
                            },
                            request,
                        )
                    } else {
                        finish_probing(db_url, include_stats, verify, skip, devices, answers)
                    }
                }
            },
            Reply::Error(error) => Step::Abort(Failure::Database { error }),
            _ => Step::Abort(Failure::Protocol),
        },
        Phase::Verifying { entries, checked } => match reply {
            Reply::Row | Reply::NoRow => {
                assert(checked < entries.len());
                if checked + 1 < entries.len() {
                    let request = Request {
                        kind: RequestKind::Verify,
                        query: entries[checked + 1].query.clone(),
                    };
                    Step::Ask(
                        Generator {
                            db_url,
                            include_stats,
                            verify,
                            skip,
                            phase: Phase::Verifying { entries, checked: checked + 1 },
                        },
                        request,
                    )
                } else {
                    Step::Emit(HassConfig { sql: SqlIntegrationConfig(entries) })
                }
            },
            Reply::Error(error) => Step::Abort(
                Failure::Verification {
                    name: entries[checked].name.clone(),
                    query: entries[checked].query.clone(),
                    error,
                },
            ),
            _ => Step::Abort(Failure::Protocol),
        },
    }
}

} // verus!
