//! Sensor entities with typed annotations.

use crate::catalog::{
    battery_voltage, humidity, temperature, wifi_rssi, wifi_ssid, PropertyDefinition,
    PropertyView, Tier,
};
use crate::cfg_gen::{
    display_name, expected_entry, write_direct_query, write_display_name, write_stat_query,
};
use crate::hass_cfg::SensorEntryView;
use vstd::prelude::*;

verus! {

/// The kind of quantity that a sensor reports.
#[derive(Clone, Copy, Debug, PartialEq, Eq, Structural)]
#[non_exhaustive]
pub enum DeviceClass {
    Humidity,
    Temperature,
    SignalStrength,
    Voltage,
}

/// How the values of a sensor relate to each other over time.
#[derive(Clone, Copy, Debug, PartialEq, Eq, Structural)]
#[non_exhaustive]
pub enum StateClass {
    Measurement,
}

impl DeviceClass {
    /// The name of the class as the sensor platform writes it.
    pub open spec fn text(self) -> Seq<char> {
        match self {
            DeviceClass::Humidity => "humidity"@,
            DeviceClass::Temperature => "temperature"@,
            DeviceClass::SignalStrength => "signal_strength"@,
            DeviceClass::Voltage => "voltage"@,
        }
    }

    /// Writes the name of the class in lower case, its words joined by underscores.
    pub fn to_string(&self) -> (name: String)
        ensures
            name@ == self.text(),
    {
        match self {
            DeviceClass::Humidity => String::from_str("humidity"),
            DeviceClass::Temperature => String::from_str("temperature"),
            DeviceClass::SignalStrength => String::from_str("signal_strength"),
            DeviceClass::Voltage => String::from_str("voltage"),
        }
    }
}

impl StateClass {
    /// The name of the class as the sensor platform writes it.
    pub open spec fn text(self) -> Seq<char> {
        match self {
            StateClass::Measurement => "MEASUREMENT"@,
        }
    }

    /// Writes the name of the class in upper case.
    pub fn to_string(&self) -> (name: String)
        ensures
            name@ == self.text(),
    {
        match self {
            StateClass::Measurement => String::from_str("MEASUREMENT"),
        }
    }
}

/// The sensor of one property of one device.
#[derive(Debug)]
pub struct Entity {
    name: String,
    query: String,
    column: &'static str,
    db_url: String,
    unit_of_measurement: Option<&'static str>,
    device_class: Option<DeviceClass>,
    state_class: Option<StateClass>,
    icon: &'static str,
}

/// What an [`Entity`] holds, as plain values.
pub struct EntityView {
    pub name: Seq<char>,
    pub query: Seq<char>,
    pub column: Seq<char>,
    pub db_url: Seq<char>,
    pub unit_of_measurement: Option<Seq<char>>,
    pub device_class: Option<DeviceClass>,
    pub state_class: Option<StateClass>,
    pub icon: Seq<char>,
}

impl EntityView {
    /// The entry of the document that says of the sensor what the entity
    /// says of it, without state class and icon.
    pub open spec fn sensor_entry(self) -> SensorEntryView {
        SensorEntryView {
            db_url: self.db_url,
            name: self.name,
            query: self.query,
            column: self.column,
            device_class: match self.device_class {
                Some(class) => Some(class.text()),
                None => None,
            },
            unit_of_measurement: self.unit_of_measurement,
        }
    }
}

/// The entity of a record of the catalog for a device: name, query, column
/// and unit are those of the record's entry.
pub open spec fn entity_of(
    db_url: Seq<char>,
    node: int,
    property: PropertyView,
    device_class: Option<DeviceClass>,
    state_class: Option<StateClass>,
    icon: Seq<char>,
) -> EntityView {
    EntityView {
        name: display_name(node, property.display_name),
        query: expected_entry(db_url, node, property).query,
        column: property.storage_column,
        db_url,
        unit_of_measurement: property.unit,
        device_class,
        state_class,
        icon,
    }
}

impl View for Entity {
    type V = EntityView;

    closed spec fn view(&self) -> EntityView {
        EntityView {
            name: self.name@,
            query: self.query@,
            column: self.column@,
            db_url: self.db_url@,
            unit_of_measurement: self.unit_of_measurement.deep_view(),
            device_class: self.device_class,
            state_class: self.state_class,
            icon: self.icon@,
        }
    }
}

impl Entity {
    fn of_property(
        node_id: u16,
        db_url: &str,
        property: PropertyDefinition,
        device_class: Option<DeviceClass>,
        state_class: Option<StateClass>,
        icon: &'static str,
    ) -> (entity: Self)
        ensures
            entity@ == entity_of(
                db_url@,
                node_id as int,
                property@,
                device_class,
                state_class,
                icon@,
            ),
    {
        let query = match property.tier {
            Tier::Stat => write_stat_query(property.storage_column, node_id as i32),
            _ => write_direct_query(property.storage_column, node_id as i32),
        };
        Entity {
            name: write_display_name(node_id as i32, property.display_name),
            query,
            column: property.storage_column,
            db_url: String::from_str(db_url),
            unit_of_measurement: property.unit,
            device_class,
            state_class,
            icon,
        }
    }

    /// The sensor of the temperature of a device.
    pub fn new_temperature(node_id: u16, db_url: &str) -> (entity: Self)
        ensures
            entity@ == entity_of(
                db_url@,
                node_id as int,
                temperature(),
                Some(DeviceClass::Temperature),
                Some(StateClass::Measurement),
                "mdi:thermometer"@,
            ),
    {
        Self::of_property(
            node_id,
            db_url,
            PropertyDefinition::temperature(),
            Some(DeviceClass::Temperature),
            Some(StateClass::Measurement),
            "mdi:thermometer",
        )
    }

    /// The sensor of the relative humidity of a device.
    pub fn new_humidity(node_id: u16, db_url: &str) -> (entity: Self)
        ensures
            entity@ == entity_of(
                db_url@,
                node_id as int,
                humidity(),
                Some(DeviceClass::Humidity),
                Some(StateClass::Measurement),
                "mdi:water-percent"@,
            ),
    {
        Self::of_property(
            node_id,
            db_url,
            PropertyDefinition::humidity(),
            Some(DeviceClass::Humidity),
            Some(StateClass::Measurement),
            "mdi:water-percent",
        )
    }

    /// The sensor of the battery voltage of a device.
    pub fn new_battery(node_id: u16, db_url: &str) -> (entity: Self)
        ensures
            entity@ == entity_of(
                db_url@,
                node_id as int,
                battery_voltage(),
                Some(DeviceClass::Voltage),
                Some(StateClass::Measurement),
                "mdi:battery"@,
            ),
    {
        Self::of_property(
            node_id,
            db_url,
            PropertyDefinition::battery_voltage(),
            Some(DeviceClass::Voltage),
            Some(StateClass::Measurement),
            "mdi:battery",
        )
    }

    /// The sensor of the name of the wireless network of a device.
    pub fn new_wifi_essid(node_id: u16, db_url: &str) -> (entity: Self)
        ensures
            entity@ == entity_of(
                db_url@,
                node_id as int,
                wifi_ssid(),
                None,
                None,
                "mdi:wifi"@,
            ),
    {
        Self::of_property(node_id, db_url, PropertyDefinition::wifi_ssid(), None, None, "mdi:wifi")
    }

    /// The sensor of the strength of the wireless signal of a device.
    pub fn new_wifi_rssi(node_id: u16, db_url: &str) -> (entity: Self)
        ensures
            entity@ == entity_of(
                db_url@,
                node_id as int,
                wifi_rssi(),
                Some(DeviceClass::SignalStrength),
                Some(StateClass::Measurement),
                "mdi:signal-cellular-2"@,
            ),
    {
        Self::of_property(
            node_id,
            db_url,
            PropertyDefinition::wifi_rssi(),
            Some(DeviceClass::SignalStrength),
            Some(StateClass::Measurement),
            "mdi:signal-cellular-2",
        )
    }

    /// The name under which the sensor is shown.
    pub fn name(&self) -> (name: &str)
        ensures
            name@ == self@.name,
    {
        self.name.as_str()
    }

    /// The query that reads the value of the sensor.
    pub fn query(&self) -> (query: &str)
        ensures
            query@ == self@.query,
    {
        self.query.as_str()
    }

    /// The column of the query's row that holds the value.
    pub fn column(&self) -> (column: &'static str)
        ensures
            column@ == self@.column,
    {
        self.column
    }

    /// The address of the database that the query is sent to.
    pub fn db_url(&self) -> (db_url: &str)
        ensures
            db_url@ == self@.db_url,
    {
        self.db_url.as_str()
    }

    /// The unit of the value, if it has one.
    pub fn unit_of_measurement(&self) -> (unit: Option<&'static str>)
        ensures
            unit.deep_view() == self@.unit_of_measurement,
    {
        self.unit_of_measurement
    }

    /// The kind of quantity that the sensor reports, if it is a known one.
    pub fn device_class(&self) -> (class: Option<DeviceClass>)
        ensures
            class == self@.device_class,
    {
        self.device_class
    }

    /// How the values relate over time, if that is known.
    pub fn state_class(&self) -> (class: Option<StateClass>)
        ensures
            class == self@.state_class,
    {
        self.state_class
    }

    /// The icon of the sensor.
    pub fn icon(&self) -> (icon: &'static str)
        ensures
            icon@ == self@.icon,
    {
        self.icon
    }
}

/// The typed class of every entity names the class that the catalog has for
/// its property: the entry of the entity is the entry that the catalog yields.
pub proof fn law_entities_match_catalog(db_url: Seq<char>, node: int)
    ensures
        entity_of(
            db_url,
            node,
            temperature(),
            Some(DeviceClass::Temperature),
            Some(StateClass::Measurement),
            "mdi:thermometer"@,
        ).sensor_entry() == expected_entry(db_url, node, temperature()),
        entity_of(
            db_url,
            node,
            humidity(),
            Some(DeviceClass::Humidity),
            Some(StateClass::Measurement),
            "mdi:water-percent"@,
        ).sensor_entry() == expected_entry(db_url, node, humidity()),
        entity_of(
            db_url,
            node,
            battery_voltage(),
            Some(DeviceClass::Voltage),
            Some(StateClass::Measurement),
            "mdi:battery"@,
        ).sensor_entry() == expected_entry(db_url, node, battery_voltage()),
        entity_of(db_url, node, wifi_ssid(), None, None, "mdi:wifi"@).sensor_entry()
            == expected_entry(db_url, node, wifi_ssid()),
        entity_of(
            db_url,
            node,
            wifi_rssi(),
            Some(DeviceClass::SignalStrength),
            Some(StateClass::Measurement),
            "mdi:signal-cellular-2"@,
        ).sensor_entry() == expected_entry(db_url, node, wifi_rssi()),
{
    reveal_strlit("temperature");
    reveal_strlit("humidity");
    reveal_strlit("\u{b0}C");
    reveal_strlit("%");
}

} // verus!
