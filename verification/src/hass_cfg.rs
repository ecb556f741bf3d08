//! The generated document: one section that lists the sensor entries.

use crate::spacing::begins_with;
use vstd::prelude::*;

verus! {

/// One sensor of the SQL integration: where to connect, what to call the
/// sensor, which query to run and which column of its single row to read.
#[derive(Debug)]
pub struct SensorEntry {
    pub db_url: String,
    pub name: String,
    pub query: String,
    pub column: String,
    pub device_class: Option<String>,
    pub unit_of_measurement: Option<String>,
}

/// What a [`SensorEntry`] holds, as plain text.
pub struct SensorEntryView {
    pub db_url: Seq<char>,
    pub name: Seq<char>,
    pub query: Seq<char>,
    pub column: Seq<char>,
    pub device_class: Option<Seq<char>>,
    pub unit_of_measurement: Option<Seq<char>>,
}

impl View for SensorEntry {
    type V = SensorEntryView;

    open spec fn view(&self) -> SensorEntryView {
        SensorEntryView {
            db_url: self.db_url@,
            name: self.name@,
            query: self.query@,
            column: self.column@,
            device_class: self.device_class.deep_view(),
            unit_of_measurement: self.unit_of_measurement.deep_view(),
        }
    }
}

impl DeepView for SensorEntry {
    type V = SensorEntryView;

    open spec fn deep_view(&self) -> SensorEntryView {
        self@
    }
}

/// The entries of the SQL integration, in the order in which they were generated.
#[derive(Debug)]
pub struct SqlIntegrationConfig(pub Vec<SensorEntry>);

impl View for SqlIntegrationConfig {
    type V = Seq<SensorEntryView>;

    open spec fn view(&self) -> Seq<SensorEntryView> {
        self.0.deep_view()
    }
}

/// The whole document: the section of the SQL integration.
#[derive(Debug)]
pub struct HassConfig {
    pub sql: SqlIntegrationConfig,
}

impl View for HassConfig {
    type V = Seq<SensorEntryView>;

    open spec fn view(&self) -> Seq<SensorEntryView> {
        self.sql@
    }
}

/// A serialized document under the key of a named instance: where the text
/// begins with the key `sql:` of the section, the key becomes `sql <name>:`;
/// any other text stays as it is.
pub open spec fn named_section(document: Seq<char>, instance: Seq<char>) -> Seq<char> {
    if begins_with(document, "sql:"@) {
        "sql "@ + instance + document.skip(3)
    } else {
        document
    }
}

/// Rewrites the key of the section in a serialized document so that it names
/// the instance, if one is given. Only the key at the beginning of the text
/// changes: the entries are not read.
pub fn name_section(document: &str, instance: Option<&str>) -> (named: String)
    ensures
        named@ == (match instance {
            Some(name) => named_section(document@, name@),
            None => document@,
        }),
{
    let name = match instance {
        Some(name) => name,
        None => {
            return String::from_str(document);
        },
    };
    proof {
        reveal_strlit("sql:");
    }
    let length = document.unicode_len();
    if length >= 4 && document.get_char(0) == 's' && document.get_char(1) == 'q'
        && document.get_char(2) == 'l' && document.get_char(3) == ':' {
        assert(document@.subrange(0, 4) =~= "sql:"@);
        let mut named = String::from_str("sql ");
        named.append(name);
        named.append(document.substring_char(3, length));
        named
    } else {
        assert(!begins_with(document@, "sql:"@)) by {
            if begins_with(document@, "sql:"@) {
                assert(document@.subrange(0, 4)[0] == 's');
                assert(document@.subrange(0, 4)[1] == 'q');
                assert(document@.subrange(0, 4)[2] == 'l');
                assert(document@.subrange(0, 4)[3] == ':');
            }
        }
        String::from_str(document)
    }
}

} // verus!
