//! The property catalog: what is known of each measured property.

use vstd::prelude::*;

verus! {

/// How the generator learns whether a device has a property.
#[derive(Clone, Copy, Debug, PartialEq, Eq, Structural)]
pub enum Tier {
    /// Every device has it.
    Always,
    /// A device has it if the database holds a value of it for that device.
    Conditional,
    /// It is derived from the statistics table and listed only on request.
    Stat,
}

/// One record of the catalog.
#[derive(Clone, Copy, Debug)]
pub struct PropertyDefinition {
    pub display_name: &'static str,
    pub storage_column: &'static str,
    pub device_class: Option<&'static str>,
    pub unit: Option<&'static str>,
    pub tier: Tier,
}

/// What a [`PropertyDefinition`] holds, as plain text.
pub struct PropertyView {
    pub display_name: Seq<char>,
    pub storage_column: Seq<char>,
    pub device_class: Option<Seq<char>>,
    pub unit: Option<Seq<char>>,
    pub tier: Tier,
}

impl View for PropertyDefinition {
    type V = PropertyView;

    open spec fn view(&self) -> PropertyView {
        PropertyView {
            display_name: self.display_name@,
            storage_column: self.storage_column@,
            device_class: self.device_class.deep_view(),
            unit: self.unit.deep_view(),
            tier: self.tier,
        }
    }
}

impl DeepView for PropertyDefinition {
    type V = PropertyView;

    open spec fn deep_view(&self) -> PropertyView {
        self@
    }
}

/// The temperature that every device measures.
pub open spec fn temperature() -> PropertyView {
    PropertyView {
        display_name: "Temperature"@,
        storage_column: "temperature"@,
        device_class: Some("temperature"@),
        unit: Some("\u{b0}C"@),
        tier: Tier::Always,
    }
}

/// The relative humidity that every device measures.
pub open spec fn humidity() -> PropertyView {
    PropertyView {
        display_name: "Humidity"@,
        storage_column: "humidity"@,
        device_class: Some("humidity"@),
        unit: Some("%"@),
        tier: Tier::Always,
    }
}

/// The air pressure, which only some devices measure.
pub open spec fn air_pressure() -> PropertyView {
    PropertyView {
        display_name: "Air Pressure"@,
        storage_column: "air_pressure"@,
        device_class: Some("atmospheric_pressure"@),
        unit: Some("hPa"@),
        tier: Tier::Conditional,
    }
}

/// The voltage of the battery of a device.
pub open spec fn battery_voltage() -> PropertyView {
    PropertyView {
        display_name: "Battery Voltage"@,
        storage_column: "battery"@,
        device_class: Some("voltage"@),
        unit: Some("V"@),
        tier: Tier::Stat,
    }
}

/// The name of the wireless network of a device.
pub open spec fn wifi_ssid() -> PropertyView {
    PropertyView {
        display_name: "WiFi SSID"@,
        storage_column: "wifi_ssid"@,
        device_class: None,
        unit: None,
        tier: Tier::Stat,
    }
}

/// The strength of the wireless signal that a device receives.
pub open spec fn wifi_rssi() -> PropertyView {
    PropertyView {
        display_name: "WiFi RSSI"@,
        storage_column: "wifi_rssi"@,
        device_class: Some("signal_strength"@),
        unit: Some("dBm"@),
        tier: Tier::Stat,
    }
}

/// The catalog, in the order in which it is declared.
pub open spec fn catalog_items() -> Seq<PropertyView> {
    seq![temperature(), humidity(), air_pressure(), battery_voltage(), wifi_ssid(), wifi_rssi()]
}

/// Whether no two records of `items` share a display name or a storage column.
pub open spec fn has_distinct_items(items: Seq<PropertyView>) -> bool {
    forall|i: int, j: int|
        0 <= i < j < items.len() ==> (#[trigger] items[i]).display_name != (
        #[trigger] items[j]).display_name && items[i].storage_column != items[j].storage_column
}

/// The number of conditional records in `items`.
pub open spec fn conditional_count(items: Seq<PropertyView>) -> nat
    decreases items.len(),
{
    if items.len() == 0 {
        0
    } else {
        conditional_count(items.drop_last()) + if items.last().tier == Tier::Conditional {
            1nat
        } else {
            0nat
        }
    }
}

impl PropertyDefinition {
    /// The record of the temperature.
    pub fn temperature() -> (property: PropertyDefinition)
        ensures
            property@ == temperature(),
    {
        PropertyDefinition {
            display_name: "Temperature",
            storage_column: "temperature",
            device_class: Some("temperature"),
            unit: Some("\u{b0}C"),
            tier: Tier::Always,
        }
    }

    /// The record of the relative humidity.
    pub fn humidity() -> (property: PropertyDefinition)
        ensures
            property@ == humidity(),
    {
        PropertyDefinition {
            display_name: "Humidity",
            storage_column: "humidity",
            device_class: Some("humidity"),
            unit: Some("%"),
            tier: Tier::Always,
        }
    }

    /// The record of the air pressure.
    pub fn air_pressure() -> (property: PropertyDefinition)
        ensures
            property@ == air_pressure(),
    {
        PropertyDefinition {
            display_name: "Air Pressure",
            storage_column: "air_pressure",
            device_class: Some("atmospheric_pressure"),
            unit: Some("hPa"),
            tier: Tier::Conditional,
        }
    }

    /// The record of the voltage of the battery.
    pub fn battery_voltage() -> (property: PropertyDefinition)
        ensures
            property@ == battery_voltage(),
    {
        PropertyDefinition {
            display_name: "Battery Voltage",
            storage_column: "battery",
            device_class: Some("voltage"),
            unit: Some("V"),
            tier: Tier::Stat,
        }
    }

    /// The record of the name of the wireless network.
    pub fn wifi_ssid() -> (property: PropertyDefinition)
        ensures
            property@ == wifi_ssid(),
    {
        PropertyDefinition {
            display_name: "WiFi SSID",
            storage_column: "wifi_ssid",
            device_class: None,
            unit: None,
            tier: Tier::Stat,
        }
    }

    /// The record of the strength of the wireless signal.
    pub fn wifi_rssi() -> (property: PropertyDefinition)
        ensures
            property@ == wifi_rssi(),
    {
        PropertyDefinition {
            display_name: "WiFi RSSI",
            storage_column: "wifi_rssi",
            device_class: Some("signal_strength"),
            unit: Some("dBm"),
            tier: Tier::Stat,
        }
    }
}

/// The catalog.
pub fn catalog() -> (items: Vec<PropertyDefinition>)
    ensures
        items.deep_view() == catalog_items(),
{
    let items = vec![
        PropertyDefinition::temperature(),
        PropertyDefinition::humidity(),
        PropertyDefinition::air_pressure(),
        PropertyDefinition::battery_voltage(),
        PropertyDefinition::wifi_ssid(),
        PropertyDefinition::wifi_rssi(),
    ];
    assert(items.deep_view() =~= catalog_items());
    items
}

/// No two records of the catalog share a display name or a storage column.
pub proof fn law_catalog_is_distinct()
    ensures
        has_distinct_items(catalog_items()),
{
    reveal_strlit("Temperature");
    reveal_strlit("Humidity");
    reveal_strlit("Air Pressure");
    reveal_strlit("Battery Voltage");
    reveal_strlit("WiFi SSID");
    reveal_strlit("WiFi RSSI");
    reveal_strlit("temperature");
    reveal_strlit("humidity");
    reveal_strlit("air_pressure");
    reveal_strlit("battery");
    reveal_strlit("wifi_ssid");
    reveal_strlit("wifi_rssi");
    let items = catalog_items();
    assert(items[0].display_name.len() == 11 && items[0].storage_column.len() == 11);
    assert(items[1].display_name.len() == 8 && items[1].storage_column.len() == 8);
    assert(items[2].display_name.len() == 12 && items[2].storage_column.len() == 12);
    assert(items[3].display_name.len() == 15 && items[3].storage_column.len() == 7);
    assert(items[4].display_name.len() == 9 && items[4].storage_column.len() == 9);
    assert(items[5].display_name.len() == 9 && items[5].storage_column.len() == 9);
    assert(items[4].display_name[5] != items[5].display_name[5]);
    assert(items[4].storage_column[5] != items[5].storage_column[5]);
}

/// The storage columns of the conditional records of `items`, in their order.
pub open spec fn conditional_columns(items: Seq<PropertyView>) -> Seq<Seq<char>>
    decreases items.len(),
{
    if items.len() == 0 {
        Seq::empty()
    } else {
        let before = conditional_columns(items.drop_last());
        if items.last().tier == Tier::Conditional {
            before.push(items.last().storage_column)
        } else {
            before
        }
    }
}

/// The columns for which every device is probed: those of the conditional
/// records of the catalog.
pub open spec fn probe_columns() -> Seq<Seq<char>> {
    conditional_columns(catalog_items())
}

/// There are as many columns to probe as conditional records, and the column
/// with the index of a record's probe is the column of that record.
pub proof fn law_probe_asks_for_the_column(items: Seq<PropertyView>, position: int)
    requires
        0 <= position < items.len(),
        items[position].tier == Tier::Conditional,
    ensures
        conditional_columns(items).len() == conditional_count(items),
        conditional_count(items.take(position)) < conditional_columns(items).len(),
        conditional_columns(items)[conditional_count(items.take(position)) as int]
            == items[position].storage_column,
    decreases items.len(),
{
    lemma_conditional_columns_len(items);
    let front = items.drop_last();
    if position == items.len() - 1 {
        assert(items.take(position) =~= front);
        lemma_conditional_columns_len(front);
    } else {
        assert(front.take(position) =~= items.take(position));
        law_probe_asks_for_the_column(front, position);
    }
}

/// There are as many columns to probe as conditional records.
pub proof fn lemma_conditional_columns_len(items: Seq<PropertyView>)
    ensures
        conditional_columns(items).len() == conditional_count(items),
    decreases items.len(),
{
    if items.len() > 0 {
        lemma_conditional_columns_len(items.drop_last());
    }
}

/// Picks the storage columns of the conditional records of `items`.
pub fn columns_to_probe(items: &Vec<PropertyDefinition>) -> (columns: Vec<&'static str>)
    ensures
        columns.deep_view() == conditional_columns(items.deep_view()),
{
    let ghost all = items.deep_view();
    let mut columns: Vec<&'static str> = Vec::new();
    let mut position: usize = 0;
    assert(all.take(0) =~= Seq::<PropertyView>::empty());
    assert(columns.deep_view() =~= Seq::<Seq<char>>::empty());
    while position < items.len()
        invariant
            0 <= position <= items.len(),
            all == items.deep_view(),
            columns.deep_view() == conditional_columns(all.take(position as int)),
        decreases items.len() - position,
    {
        let ghost before = columns.deep_view();
        let ghost next = all.take(position + 1);
        assert(next.drop_last() =~= all.take(position as int));
        assert(next.last() == items[position as int]@);
        match items[position].tier {
            Tier::Conditional => {
                columns.push(items[position].storage_column);
                assert(columns.deep_view() =~= before.push(items[position as int]@.storage_column));
            },
            _ => {},
        }
        position += 1;
    }
    assert(all.take(items.len() as int) =~= all);
    columns
}

} // verus!
