//! Query synthesis and the assembly of the sensor entries.

use crate::catalog::{catalog, catalog_items, conditional_count, PropertyDefinition, PropertyView, Tier};
use crate::decimal::{decimal, push_decimal};
use crate::hass_cfg::{HassConfig, SensorEntry, SensorEntryView, SqlIntegrationConfig};
use crate::spacing::{is_normal, normalize, normalized};
use vstd::prelude::*;

verus! {

/// The name under which the sensor of a property of a device is shown.
pub open spec fn display_name(node: int, property: Seq<char>) -> Seq<char> {
    "Node #"@ + decimal(node) + " "@ + property
}

/// The query that reads the latest value of a column of the measurements of a device.
pub open spec fn direct_query(column: Seq<char>, node: int) -> Seq<char> {
    "SELECT "@ + column + " FROM measurements WHERE node = "@ + decimal(node)
        + " ORDER BY id DESC LIMIT 1;"@
}

/// The query that reads the statistics column that belongs to the latest
/// measurement of a device, before it is brought into normal form.
pub open spec fn joined_query(column: Seq<char>, node: int) -> Seq<char> {
    "SELECT statistics."@ + column
        + " FROM statistics INNER JOIN measurements ON measurements.id = statistics.measurement WHERE measurements.node = "@
        + decimal(node) + " ORDER BY measurements.id DESC LIMIT 1;"@
}

/// The query that counts the values of a column that a device has recorded.
pub open spec fn support_query(column: Seq<char>, node: int) -> Seq<char> {
    "SELECT CAST(COUNT("@ + column + ") AS INT8) FROM measurements WHERE "@ + column
        + " IS NOT NULL AND node = "@ + decimal(node) + ";"@
}

/// The query that lists the devices.
pub open spec fn device_query() -> Seq<char> {
    "SELECT id FROM devices"@
}

/// An annotation that is left out where its text is empty.
pub open spec fn text_or_none(text: Seq<char>) -> Option<Seq<char>> {
    if text.len() == 0 {
        None
    } else {
        Some(text)
    }
}

/// The entry of a property that is read from the measurements directly.
pub open spec fn direct_entry(
    db_url: Seq<char>,
    node: int,
    property: Seq<char>,
    column: Seq<char>,
    device_class: Seq<char>,
    unit: Seq<char>,
) -> SensorEntryView {
    SensorEntryView {
        db_url,
        name: display_name(node, property),
        query: direct_query(column, node),
        column,
        device_class: text_or_none(device_class),
        unit_of_measurement: text_or_none(unit),
    }
}

/// The entry of a property that is read from the statistics.
pub open spec fn stat_entry(
    db_url: Seq<char>,
    node: int,
    property: Seq<char>,
    column: Seq<char>,
    device_class: Option<Seq<char>>,
    unit: Option<Seq<char>>,
) -> SensorEntryView {
    SensorEntryView {
        db_url,
        name: display_name(node, property),
        query: normalized(joined_query(column, node)),
        column,
        device_class,
        unit_of_measurement: unit,
    }
}

fn owned(text: Option<&str>) -> (out: Option<String>)
    ensures
        out.deep_view() == text.deep_view(),
{
    match text {
        Some(t) => Some(String::from_str(t)),
        None => None,
    }
}

fn owned_unless_empty(text: &str) -> (out: Option<String>)
    ensures
        out.deep_view() == text_or_none(text@),
{
    if text.is_empty() {
        None
    } else {
        Some(String::from_str(text))
    }
}

/// Writes the name under which the sensor of a property of a device is shown.
pub fn write_display_name(node: i32, prop_name: &str) -> (name: String)
    ensures
        name@ == display_name(node as int, prop_name@),
{
    let mut name = String::from_str("Node #");
    push_decimal(&mut name, node);
    name.append(" ");
    name.append(prop_name);
    name
}

/// Writes the query that reads the latest value of a column of the
/// measurements of a device.
pub fn write_direct_query(col: &str, node: i32) -> (query: String)
    ensures
        query@ == direct_query(col@, node as int),
{
    let mut query = String::from_str("SELECT ");
    query.append(col);
    query.append(" FROM measurements WHERE node = ");
    push_decimal(&mut query, node);
    query.append(" ORDER BY id DESC LIMIT 1;");
    query
}

/// Writes the query that reads the statistics column that belongs to the
/// latest measurement of a device, in normal form.
pub fn write_stat_query(col: &str, node: i32) -> (query: String)
    ensures
        query@ == normalized(joined_query(col@, node as int)),
        is_normal(query@),
{
    let mut query = String::from_str("SELECT statistics.");
    query.append(col);
    query.append(
        " FROM statistics INNER JOIN measurements ON measurements.id = statistics.measurement WHERE measurements.node = ",
    );
    push_decimal(&mut query, node);
    query.append(" ORDER BY measurements.id DESC LIMIT 1;");
    sql_fmt(query)
}

/// Brings query text into normal form: a single line in which no two blanks
/// follow each other.
pub fn sql_fmt(sql: String) -> (out: String)
    ensures
        out@ == normalized(sql@),
        is_normal(out@),
{
    normalize(sql.as_str())
}

/// Writes the query by which a device is probed for a conditional property:
/// it counts the values of `col` that are not null among the measurements of
/// `node`.
pub fn probe_query(node: i16, col: &str) -> (query: String)
    ensures
        query@ == support_query(col@, node as int),
{
    let mut query = String::from_str("SELECT CAST(COUNT(");
    query.append(col);
    query.append(") AS INT8) FROM measurements WHERE ");
    query.append(col);
    query.append(" IS NOT NULL AND node = ");
    push_decimal(&mut query, node as i32);
    query.append(";");
    query
}

/// Generates the entry of a property that is read from the measurements
/// directly. An empty device class or unit is left out of the entry.
pub fn generate_entry(
    db_url: &str,
    node_id: i16,
    prop_name: &str,
    col: &str,
    dev_class: &str,
    unit: &str,
) -> (entry: SensorEntry)
    ensures
        entry@ == direct_entry(db_url@, node_id as int, prop_name@, col@, dev_class@, unit@),
{
    SensorEntry {
        db_url: String::from_str(db_url),
        name: write_display_name(node_id as i32, prop_name),
        query: write_direct_query(col, node_id as i32),
        column: String::from_str(col),
        device_class: owned_unless_empty(dev_class),
        unit_of_measurement: owned_unless_empty(unit),
    }
}

/// Generates the entry of a property that is read from the statistics. Its
/// query is stored in normal form.
pub fn generate_stat_entry(
    db_url: &str,
    node_id: i16,
    prop_name: &str,
    col: &str,
    dev_class: Option<&str>,
    unit: Option<&str>,
) -> (entry: SensorEntry)
    ensures
        entry@ == stat_entry(
            db_url@,
            node_id as int,
            prop_name@,
            col@,
            dev_class.deep_view(),
            unit.deep_view(),
        ),
        is_normal(entry.query@),
{
    SensorEntry {
        db_url: String::from_str(db_url),
        name: write_display_name(node_id as i32, prop_name),
        query: write_stat_query(col, node_id as i32),
        column: String::from_str(col),
        device_class: owned(dev_class),
        unit_of_measurement: owned(unit),
    }
}

/// The text of an annotation, empty where there is none.
pub open spec fn text_of(annotation: Option<Seq<char>>) -> Seq<char> {
    match annotation {
        Some(text) => text,
        None => Seq::empty(),
    }
}

/// The entry that a record of the catalog yields for a device.
pub open spec fn expected_entry(db_url: Seq<char>, node: int, property: PropertyView) -> SensorEntryView {
    if property.tier == Tier::Stat {
        stat_entry(
            db_url,
            node,
            property.display_name,
            property.storage_column,
            property.device_class,
            property.unit,
        )
    } else {
        direct_entry(
            db_url,
            node,
            property.display_name,
            property.storage_column,
            text_of(property.device_class),
            text_of(property.unit),
        )
    }
}

/// Whether a property of the given tier is listed for a device: always, if
/// the device has data of it, or if statistics were asked for.
pub open spec fn is_listed(tier: Tier, has_data: bool, include_stats: bool) -> bool {
    match tier {
        Tier::Always => true,
        Tier::Conditional => has_data,
        Tier::Stat => include_stats,
    }
}

/// Whether the probe with the given index found data. A probe that has no
/// answer found none.
pub open spec fn supported(answers: Seq<bool>, probe: int) -> bool {
    0 <= probe < answers.len() && answers[probe]
}

/// The index of the probe that belongs to the record at `position`: the
/// number of conditional records before it.
pub open spec fn probe_index(items: Seq<PropertyView>, position: int) -> int {
    conditional_count(items.take(position)) as int
}

/// Whether the record at `position` is listed for a device with the given answers.
pub open spec fn is_included(
    items: Seq<PropertyView>,
    position: int,
    answers: Seq<bool>,
    include_stats: bool,
) -> bool {
    is_listed(
        items[position].tier,
        supported(answers, probe_index(items, position)),
        include_stats,
    )
}

/// The entries of one device: for each record of `items`, in their order, its
/// entry if the record is listed.
pub open spec fn device_entries(
    db_url: Seq<char>,
    node: int,
    items: Seq<PropertyView>,
    answers: Seq<bool>,
    include_stats: bool,
) -> Seq<SensorEntryView>
    decreases items.len(),
{
    if items.len() == 0 {
        Seq::empty()
    } else {
        let before = device_entries(db_url, node, items.drop_last(), answers, include_stats);
        if is_included(items, items.len() - 1, answers, include_stats) {
            before.push(expected_entry(db_url, node, items.last()))
        } else {
            before
        }
    }
}

/// The answers of the device at `index`, none where `answers` has no row for it.
pub open spec fn answers_of(answers: Seq<Seq<bool>>, index: int) -> Seq<bool> {
    if 0 <= index < answers.len() {
        answers[index]
    } else {
        Seq::empty()
    }
}

/// The entries of all devices: device by device in the order of `devices`,
/// each with the row of `answers` at its index.
pub open spec fn all_entries(
    db_url: Seq<char>,
    devices: Seq<i16>,
    items: Seq<PropertyView>,
    answers: Seq<Seq<bool>>,
    include_stats: bool,
) -> Seq<SensorEntryView>
    decreases devices.len(),
{
    if devices.len() == 0 {
        Seq::empty()
    } else {
        all_entries(db_url, devices.drop_last(), items, answers, include_stats) + device_entries(
            db_url,
            devices.last() as int,
            items,
            answers_of(answers, devices.len() - 1),
            include_stats,
        )
    }
}

/// Generates the entry that a record of the catalog yields for a device.
pub fn property_entry(db_url: &str, node_id: i16, property: &PropertyDefinition) -> (entry:
    SensorEntry)
    ensures
        entry@ == expected_entry(db_url@, node_id as int, property@),
{
    match property.tier {
        Tier::Stat => generate_stat_entry(
            db_url,
            node_id,
            property.display_name,
            property.storage_column,
            property.device_class,
            property.unit,
        ),
        _ => {
            let device_class = match property.device_class {
                Some(text) => text,
                None => "",
            };
            let unit = match property.unit {
                Some(text) => text,
                None => "",
            };
            proof {
                reveal_strlit("");
                assert(""@ =~= Seq::<char>::empty());
            }
            generate_entry(
                db_url,
                node_id,
                property.display_name,
                property.storage_column,
                device_class,
                unit,
            )
        },
    }
}

/// Appends the entries of one device to `out`.
pub fn push_device_entries(
    out: &mut Vec<SensorEntry>,
    db_url: &str,
    node_id: i16,
    items: &Vec<PropertyDefinition>,
    answers: &Vec<bool>,
    include_stats: bool,
)
    ensures
        final(out).deep_view() == old(out).deep_view() + device_entries(
            db_url@,
            node_id as int,
            items.deep_view(),
            answers@,
            include_stats,
        ),
{
    let ghost all = items.deep_view();
    let mut probe: usize = 0;
    let mut position: usize = 0;
    assert(all.take(0) =~= Seq::<PropertyView>::empty());
    assert(out.deep_view() =~= old(out).deep_view() + Seq::<SensorEntryView>::empty());
    while position < items.len()
        invariant
            0 <= position <= items.len(),
            all == items.deep_view(),
            probe <= position,
            probe == conditional_count(all.take(position as int)),
            out.deep_view() == old(out).deep_view() + device_entries(
                db_url@,
                node_id as int,
                all.take(position as int),
                answers@,
                include_stats,
            ),
        decreases items.len() - position,
    {
        let property = &items[position];
        let ghost seen = all.take(position as int);
        let ghost next = all.take(position + 1);
        let ghost before = out.deep_view();
        proof {
            assert(next.drop_last() =~= seen);
            assert(next.last() == property@);
            assert(next.take(position as int) =~= seen);
        }
        let listed = match property.tier {
            Tier::Always => true,
            Tier::Conditional => {
                let has_data = probe < answers.len() && answers[probe];
                probe += 1;
                has_data
            },
            Tier::Stat => include_stats,
        };
        assert(listed == is_included(next, position as int, answers@, include_stats));
        if listed {
            let entry = property_entry(db_url, node_id, property);
            out.push(entry);
            assert(out.deep_view() =~= before.push(entry@));
        }
        position += 1;
        assert(out.deep_view() =~= old(out).deep_view() + device_entries(
            db_url@,
            node_id as int,
            next,
            answers@,
            include_stats,
        ));
    }
    assert(all.take(items.len() as int) =~= all);
}

/// Assembles the document: the entries of every device in `devices`, in their
/// order, from the catalog. Row `i` of `answers` holds what the probes of
/// device `i` found, one answer for each conditional record in the order of
/// the catalog; an answer that is missing counts as no data.
pub fn generate_config(
    db_url: &str,
    devices: &Vec<i16>,
    answers: &Vec<Vec<bool>>,
    include_stats: bool,
) -> (config: HassConfig)
    ensures
        config@ == all_entries(
            db_url@,
            devices@,
            catalog_items(),
            answers.deep_view(),
            include_stats,
        ),
{
    let items = catalog();
    let none: Vec<bool> = Vec::new();
    let mut sensors: Vec<SensorEntry> = Vec::new();
    let mut index: usize = 0;
    assert(devices@.take(0) =~= Seq::<i16>::empty());
    assert(sensors.deep_view() =~= Seq::<SensorEntryView>::empty());
    while index < devices.len()
        invariant
            0 <= index <= devices.len(),
            items.deep_view() == catalog_items(),
            none@.len() == 0,
            sensors.deep_view() == all_entries(
                db_url@,
                devices@.take(index as int),
                catalog_items(),
                answers.deep_view(),
                include_stats,
            ),
        decreases devices.len() - index,
    {
        let ghost next = devices@.take(index + 1);
        proof {
            assert(next.drop_last() =~= devices@.take(index as int));
            assert(next.last() == devices[index as int]);
        }
        let row = if index < answers.len() {
            &answers[index]
        } else {
            &none
        };
        assert(row@ =~= answers_of(answers.deep_view(), index as int));
        push_device_entries(&mut sensors, db_url, devices[index], &items, row, include_stats);
        index += 1;
    }
    assert(devices@.take(devices.len() as int) =~= devices@);
    HassConfig { sql: SqlIntegrationConfig(sensors) }
}

/// The devices that are not in the skip set, in their order.
pub open spec fn kept_devices(devices: Seq<i16>, skip: Seq<i16>) -> Seq<i16>
    decreases devices.len(),
{
    if devices.len() == 0 {
        Seq::empty()
    } else {
        let before = kept_devices(devices.drop_last(), skip);
        if skip.contains(devices.last()) {
            before
        } else {
            before.push(devices.last())
        }
    }
}

fn is_skipped(skip: &Vec<i16>, device: i16) -> (found: bool)
    ensures
        found == skip@.contains(device),
{
    let mut index: usize = 0;
    while index < skip.len()
        invariant
            0 <= index <= skip.len(),
            forall|k: int| 0 <= k < index ==> skip@[k] != device,
        decreases skip.len() - index,
    {
        if skip[index] == device {
            return true;
        }
        index += 1;
    }
    false
}

/// Leaves out the devices that are in the skip set. The others keep their
/// order, and a device that was discovered twice stays twice.
pub fn select_devices(devices: &Vec<i16>, skip: &Vec<i16>) -> (kept: Vec<i16>)
    ensures
        kept@ == kept_devices(devices@, skip@),
{
    let mut kept: Vec<i16> = Vec::new();
    let mut index: usize = 0;
    assert(devices@.take(0) =~= Seq::<i16>::empty());
    while index < devices.len()
        invariant
            0 <= index <= devices.len(),
            kept@ == kept_devices(devices@.take(index as int), skip@),
        decreases devices.len() - index,
    {
        let device = devices[index];
        assert(devices@.take(index + 1).drop_last() =~= devices@.take(index as int));
        if !is_skipped(skip, device) {
            kept.push(device);
        }
        index += 1;
    }
    assert(devices@.take(devices.len() as int) =~= devices@);
    kept
}

} // verus!
