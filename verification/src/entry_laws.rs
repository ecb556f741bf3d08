//! What holds of the entries of a device, whatever the catalog.

use crate::catalog::{has_distinct_items, PropertyView, Tier};
use crate::cfg_gen::{
    all_entries, answers_of, device_entries, display_name, expected_entry, is_included,
    kept_devices, probe_index, supported,
};
use crate::decimal::decimal;
use crate::hass_cfg::SensorEntryView;
use vstd::prelude::*;

verus! {

/// How often `entry` occurs in `entries`.
pub open spec fn occurrences(entries: Seq<SensorEntryView>, entry: SensorEntryView) -> nat
    decreases entries.len(),
{
    if entries.len() == 0 {
        0
    } else {
        occurrences(entries.drop_last(), entry) + if entries.last() == entry {
            1nat
        } else {
            0nat
        }
    }
}

/// The number of records of `items` that belong to the statistics tier.
pub open spec fn stat_count(items: Seq<PropertyView>) -> nat
    decreases items.len(),
{
    if items.len() == 0 {
        0
    } else {
        stat_count(items.drop_last()) + if items.last().tier == Tier::Stat {
            1nat
        } else {
            0nat
        }
    }
}

/// An entry occurs in a sequence exactly if it is one of its elements.
pub proof fn lemma_occurrences_contains(entries: Seq<SensorEntryView>, entry: SensorEntryView)
    ensures
        occurrences(entries, entry) > 0 <==> entries.contains(entry),
    decreases entries.len(),
{
    if entries.len() > 0 {
        let front = entries.drop_last();
        lemma_occurrences_contains(front, entry);
        if front.contains(entry) {
            let i = choose|i: int| 0 <= i < front.len() && front[i] == entry;
            assert(entries[i] == entry);
        }
        if entries.last() == entry {
            assert(entries[entries.len() - 1] == entry);
        }
        if entries.contains(entry) {
            let i = choose|i: int| 0 <= i < entries.len() && entries[i] == entry;
            if i < front.len() {
                assert(front[i] == entry);
            }
        }
    }
}

/// Every entry of a device is the entry of a record of the catalog that is
/// listed for it.
pub proof fn lemma_entries_come_from_catalog(
    db_url: Seq<char>,
    node: int,
    items: Seq<PropertyView>,
    answers: Seq<bool>,
    include_stats: bool,
    entry: SensorEntryView,
)
    requires
        device_entries(db_url, node, items, answers, include_stats).contains(entry),
    ensures
        exists|k: int|
            0 <= k < items.len() && is_included(items, k, answers, include_stats) && entry
                == #[trigger] expected_entry(db_url, node, items[k]),
    decreases items.len(),
{
    let entries = device_entries(db_url, node, items, answers, include_stats);
    let i = choose|i: int| 0 <= i < entries.len() && entries[i] == entry;
    let front = items.drop_last();
    let before = device_entries(db_url, node, front, answers, include_stats);
    let last = items.len() - 1;
    if i < before.len() {
        assert(before[i] == entry);
        lemma_entries_come_from_catalog(db_url, node, front, answers, include_stats, entry);
        let k = choose|k: int|
            0 <= k < front.len() && is_included(front, k, answers, include_stats) && entry
                == #[trigger] expected_entry(db_url, node, front[k]);
        assert(front.take(k) =~= items.take(k));
        assert(is_included(items, k, answers, include_stats));
        assert(entry == expected_entry(db_url, node, items[k]));
    } else {
        assert(is_included(items, last, answers, include_stats));
        assert(entry == expected_entry(db_url, node, items[last]));
    }
}

/// The entry of a record of a catalog without duplicates occurs once among
/// the entries of a device if the record is listed for it, and not at all if
/// it is not.
pub proof fn lemma_entry_occurs_once_if_listed(
    db_url: Seq<char>,
    node: int,
    items: Seq<PropertyView>,
    answers: Seq<bool>,
    include_stats: bool,
    position: int,
)
    requires
        has_distinct_items(items),
        0 <= position < items.len(),
    ensures
        occurrences(
            device_entries(db_url, node, items, answers, include_stats),
            expected_entry(db_url, node, items[position]),
        ) == (if is_included(items, position, answers, include_stats) {
            1nat
        } else {
            0nat
        }),
    decreases items.len(),
{
    let entry = expected_entry(db_url, node, items[position]);
    let front = items.drop_last();
    let before = device_entries(db_url, node, front, answers, include_stats);
    let last = items.len() - 1;
    if position < last {
        assert(front.take(position) =~= items.take(position));
        lemma_entry_occurs_once_if_listed(db_url, node, front, answers, include_stats, position);
        assert(items[position].storage_column != items[last].storage_column);
        if is_included(items, last, answers, include_stats) {
            assert(before.push(expected_entry(db_url, node, items.last())).drop_last() =~= before);
        }
    } else {
        if before.contains(entry) {
            lemma_entries_come_from_catalog(db_url, node, front, answers, include_stats, entry);
            let k = choose|k: int|
                0 <= k < front.len() && is_included(front, k, answers, include_stats) && entry
                    == #[trigger] expected_entry(db_url, node, front[k]);
            assert(items[k].storage_column != items[last].storage_column);
        }
        lemma_occurrences_contains(before, entry);
        if is_included(items, last, answers, include_stats) {
            assert(before.push(entry).drop_last() =~= before);
        }
    }
}

/// A record of the always-present tier yields exactly one entry for every
/// device, whatever the probes found and whether or not statistics were
/// asked for.
pub proof fn law_always_present_once(
    db_url: Seq<char>,
    node: int,
    items: Seq<PropertyView>,
    answers: Seq<bool>,
    include_stats: bool,
    position: int,
)
    requires
        has_distinct_items(items),
        0 <= position < items.len(),
        items[position].tier == Tier::Always,
    ensures
        occurrences(
            device_entries(db_url, node, items, answers, include_stats),
            expected_entry(db_url, node, items[position]),
        ) == 1,
{
    lemma_entry_occurs_once_if_listed(db_url, node, items, answers, include_stats, position);
}

/// A conditional record yields an entry for a device if and only if its
/// probe found data, and then exactly one.
pub proof fn law_conditional_iff_supported(
    db_url: Seq<char>,
    node: int,
    items: Seq<PropertyView>,
    answers: Seq<bool>,
    include_stats: bool,
    position: int,
)
    requires
        has_distinct_items(items),
        0 <= position < items.len(),
        items[position].tier == Tier::Conditional,
    ensures
        device_entries(db_url, node, items, answers, include_stats).contains(
            expected_entry(db_url, node, items[position]),
        ) <==> supported(answers, probe_index(items, position)),
        occurrences(
            device_entries(db_url, node, items, answers, include_stats),
            expected_entry(db_url, node, items[position]),
        ) <= 1,
{
    lemma_entry_occurs_once_if_listed(db_url, node, items, answers, include_stats, position);
    lemma_occurrences_contains(
        device_entries(db_url, node, items, answers, include_stats),
        expected_entry(db_url, node, items[position]),
    );
}

/// With statistics, every record of the statistics tier yields exactly one
/// entry for a device; without, none. A record of another tier yields as many
/// entries with statistics as without.
pub proof fn law_statistics_follow_flag(
    db_url: Seq<char>,
    node: int,
    items: Seq<PropertyView>,
    answers: Seq<bool>,
    position: int,
)
    requires
        has_distinct_items(items),
        0 <= position < items.len(),
    ensures
        items[position].tier == Tier::Stat ==> occurrences(
            device_entries(db_url, node, items, answers, true),
            expected_entry(db_url, node, items[position]),
        ) == 1 && occurrences(
            device_entries(db_url, node, items, answers, false),
            expected_entry(db_url, node, items[position]),
        ) == 0,
        items[position].tier != Tier::Stat ==> occurrences(
            device_entries(db_url, node, items, answers, true),
            expected_entry(db_url, node, items[position]),
        ) == occurrences(
            device_entries(db_url, node, items, answers, false),
            expected_entry(db_url, node, items[position]),
        ),
{
    lemma_entry_occurs_once_if_listed(db_url, node, items, answers, true, position);
    lemma_entry_occurs_once_if_listed(db_url, node, items, answers, false, position);
}

/// Asking for statistics adds one entry for each record of the statistics
/// tier and nothing else.
pub proof fn law_statistics_add_their_number(
    db_url: Seq<char>,
    node: int,
    items: Seq<PropertyView>,
    answers: Seq<bool>,
)
    ensures
        device_entries(db_url, node, items, answers, true).len() == device_entries(
            db_url,
            node,
            items,
            answers,
            false,
        ).len() + stat_count(items),
    decreases items.len(),
{
    if items.len() > 0 {
        law_statistics_add_their_number(db_url, node, items.drop_last(), answers);
    }
}

/// The entries of the devices depend on no answer but those of the devices.
pub proof fn lemma_entries_read_own_answers(
    db_url: Seq<char>,
    devices: Seq<i16>,
    items: Seq<PropertyView>,
    answers: Seq<Seq<bool>>,
    others: Seq<Seq<bool>>,
    include_stats: bool,
)
    requires
        forall|i: int| 0 <= i < devices.len() ==> answers_of(answers, i) == answers_of(others, i),
    ensures
        all_entries(db_url, devices, items, answers, include_stats) == all_entries(
            db_url,
            devices,
            items,
            others,
            include_stats,
        ),
    decreases devices.len(),
{
    if devices.len() > 0 {
        lemma_entries_read_own_answers(
            db_url,
            devices.drop_last(),
            items,
            answers,
            others,
            include_stats,
        );
    }
}

/// The document of a list of devices is the document of its first part
/// followed by that of its second part: each device has its entries in one
/// block, and the blocks stand in the order of the devices.
pub proof fn law_entries_by_device(
    db_url: Seq<char>,
    first: Seq<i16>,
    second: Seq<i16>,
    items: Seq<PropertyView>,
    first_answers: Seq<Seq<bool>>,
    second_answers: Seq<Seq<bool>>,
    include_stats: bool,
)
    requires
        first_answers.len() == first.len(),
    ensures
        all_entries(db_url, first + second, items, first_answers + second_answers, include_stats)
            == all_entries(db_url, first, items, first_answers, include_stats) + all_entries(
            db_url,
            second,
            items,
            second_answers,
            include_stats,
        ),
    decreases second.len(),
{
    let devices = first + second;
    let answers = first_answers + second_answers;
    if second.len() == 0 {
        assert(devices =~= first);
        lemma_entries_read_own_answers(db_url, first, items, answers, first_answers, include_stats);
        assert(all_entries(db_url, second, items, second_answers, include_stats)
            =~= Seq::<SensorEntryView>::empty());
        assert(all_entries(db_url, first, items, first_answers, include_stats) + Seq::<
            SensorEntryView,
        >::empty() =~= all_entries(db_url, first, items, first_answers, include_stats));
    } else {
        let front = second.drop_last();
        assert(devices.drop_last() =~= first + front);
        law_entries_by_device(
            db_url,
            first,
            front,
            items,
            first_answers,
            second_answers,
            include_stats,
        );
        assert(answers_of(answers, devices.len() - 1) == answers_of(
            second_answers,
            second.len() - 1,
        ));
        let head = all_entries(db_url, first, items, first_answers, include_stats);
        let middle = all_entries(db_url, front, items, second_answers, include_stats);
        let block = device_entries(
            db_url,
            second.last() as int,
            items,
            answers_of(second_answers, second.len() - 1),
            include_stats,
        );
        assert((head + middle) + block =~= head + (middle + block));
    }
}

/// The document that the data of the devices calls for: for each discovered
/// device, in the order of discovery, nothing if the device is in the skip
/// set, and else its entries, which depend on the device and its data alone.
pub open spec fn entries_unless_skipped(
    db_url: Seq<char>,
    devices: Seq<i16>,
    skip: Seq<i16>,
    items: Seq<PropertyView>,
    data: spec_fn(i16) -> Seq<bool>,
    include_stats: bool,
) -> Seq<SensorEntryView>
    decreases devices.len(),
{
    if devices.len() == 0 {
        Seq::empty()
    } else {
        entries_unless_skipped(db_url, devices.drop_last(), skip, items, data, include_stats) + (
        if skip.contains(devices.last()) {
            Seq::empty()
        } else {
            device_entries(db_url, devices.last() as int, items, data(devices.last()), include_stats)
        })
    }
}

/// A device in the skip set has no entry in the document, and the other
/// devices have the entries that they would have without it, in the order in
/// which the devices were discovered.
pub proof fn law_skipped_devices_leave_no_entries(
    db_url: Seq<char>,
    devices: Seq<i16>,
    skip: Seq<i16>,
    items: Seq<PropertyView>,
    data: spec_fn(i16) -> Seq<bool>,
    include_stats: bool,
)
    ensures
        all_entries(
            db_url,
            kept_devices(devices, skip),
            items,
            kept_devices(devices, skip).map_values(data),
            include_stats,
        ) == entries_unless_skipped(db_url, devices, skip, items, data, include_stats),
        forall|i: int|
            0 <= i < kept_devices(devices, skip).len() ==> !skip.contains(
                #[trigger] kept_devices(devices, skip)[i],
            ),
    decreases devices.len(),
{
    if devices.len() > 0 {
        let front = devices.drop_last();
        let before = kept_devices(front, skip);
        let kept = kept_devices(devices, skip);
        law_skipped_devices_leave_no_entries(db_url, front, skip, items, data, include_stats);
        let head = entries_unless_skipped(db_url, front, skip, items, data, include_stats);
        if skip.contains(devices.last()) {
            assert(head + Seq::<SensorEntryView>::empty() =~= head);
        } else {
            assert(kept.drop_last() =~= before);
            lemma_entries_read_own_answers(
                db_url,
                before,
                items,
                kept.map_values(data),
                before.map_values(data),
                include_stats,
            );
        }
    }
}

/// A device that is not in the skip set is kept, and devices keep their order:
/// what is kept of two lists in a row is what is kept of the first, then what
/// is kept of the second.
pub proof fn law_kept_devices_keep_order(first: Seq<i16>, second: Seq<i16>, skip: Seq<i16>)
    ensures
        kept_devices(first + second, skip) == kept_devices(first, skip) + kept_devices(
            second,
            skip,
        ),
        forall|d: i16|
            kept_devices(seq![d], skip) == (if skip.contains(d) {
                Seq::<i16>::empty()
            } else {
                seq![d]
            }),
    decreases second.len(),
{
    assert forall|d: i16|
        kept_devices(seq![d], skip) == (if skip.contains(d) {
            Seq::<i16>::empty()
        } else {
            seq![d]
        }) by {
        assert(seq![d].drop_last() =~= Seq::<i16>::empty());
        assert(kept_devices(seq![d].drop_last(), skip) =~= Seq::<i16>::empty());
        assert(Seq::<i16>::empty().push(d) =~= seq![d]);
    }
    if second.len() == 0 {
        assert(first + second =~= first);
        assert(kept_devices(first, skip) + kept_devices(second, skip) =~= kept_devices(
            first,
            skip,
        ));
    } else {
        assert((first + second).drop_last() =~= first + second.drop_last());
        law_kept_devices_keep_order(first, second.drop_last(), skip);
        assert(kept_devices(first + second, skip) =~= kept_devices(first, skip) + kept_devices(
            second,
            skip,
        ));
    }
}

/// For one device, two records of a catalog without duplicates have different
/// display names.
pub proof fn law_display_names_differ(node: int, items: Seq<PropertyView>, i: int, j: int)
    requires
        has_distinct_items(items),
        0 <= i < j < items.len(),
    ensures
        display_name(node, items[i].display_name) != display_name(node, items[j].display_name),
{
    let prefix = "Node #"@ + decimal(node) + " "@;
    let a = items[i].display_name;
    let b = items[j].display_name;
    if prefix + a == prefix + b {
        assert((prefix + a).subrange(prefix.len() as int, (prefix + a).len() as int) =~= a);
        assert((prefix + b).subrange(prefix.len() as int, (prefix + b).len() as int) =~= b);
    }
}

} // verus!
