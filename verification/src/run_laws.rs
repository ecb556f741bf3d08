//! What holds of every run of the generator.

use crate::catalog::{catalog_items, probe_columns};
use crate::cfg_gen::{all_entries, answers_of, kept_devices};
use crate::entry_laws::lemma_entries_read_own_answers;
use crate::generator::{
    after_probing, discovery_request, initial_state, next_step, probe_request, verify_request,
    FailureView, GeneratorView, PhaseView, ReplyView, StepView,
};
use crate::hass_cfg::SensorEntryView;
use vstd::prelude::*;

verus! {

/// While the document is verified, a query that returns a row and a query for
/// which the database reports that it found no row both count as success: the
/// run goes on to the next entry, and after the last entry it emits the
/// document with all its entries.
pub proof fn law_no_row_is_success(
    state: GeneratorView,
    entries: Seq<SensorEntryView>,
    checked: int,
    reply: ReplyView,
)
    requires
        state.well_formed(),
        state.phase == (PhaseView::Verifying { entries, checked }),
        reply is Row || reply is NoRow,
    ensures
        checked + 1 < entries.len() ==> next_step(state, reply) == StepView::Ask(
            state.at(PhaseView::Verifying { entries, checked: checked + 1 }),
            verify_request(entries[checked + 1]),
        ),
        checked + 1 == entries.len() ==> next_step(state, reply) == StepView::Emit(entries),
        !(next_step(state, reply) is Abort),
{
}

/// While the document is verified, any other database error ends the run:
/// what follows is the failure, which names the entry and its query and holds
/// the error, and no document.
pub proof fn law_query_error_ends_run(
    state: GeneratorView,
    entries: Seq<SensorEntryView>,
    checked: int,
    error: Seq<char>,
)
    requires
        state.well_formed(),
        state.phase == (PhaseView::Verifying { entries, checked }),
    ensures
        next_step(state, ReplyView::Error(error)) == StepView::Abort(
            FailureView::Verification {
                name: entries[checked].name,
                query: entries[checked].query,
                error,
            },
        ),
{
}

/// A database error ends the run in every phase: no document is emitted and
/// no further query is asked for.
pub proof fn law_database_error_is_fatal(state: GeneratorView, error: Seq<char>)
    ensures
        next_step(state, ReplyView::Error(error)) is Abort,
{
}

/// Every state that a run reaches awaits the answer to a query that exists.
pub proof fn law_states_stay_well_formed(state: GeneratorView, reply: ReplyView)
    requires
        state.well_formed(),
    ensures
        next_step(state, reply) matches StepView::Ask(next, _) ==> next.well_formed(),
{
}

/// What follows a reply after a step. A run that has ended stays as it ended.
pub open spec fn fed(step: StepView, reply: ReplyView) -> StepView {
    match step {
        StepView::Ask(state, _) => next_step(state, reply),
        _ => step,
    }
}

/// Where a run that began with `begin` stands after the replies, taken in their order.
pub open spec fn outcome(begin: StepView, replies: Seq<ReplyView>) -> StepView
    decreases replies.len(),
{
    if replies.len() == 0 {
        begin
    } else {
        fed(outcome(begin, replies.drop_last()), replies.last())
    }
}

/// The step with which every run begins.
pub open spec fn first_step(
    db_url: Seq<char>,
    include_stats: bool,
    verify: bool,
    skip: Seq<i16>,
) -> StepView {
    StepView::Ask(initial_state(db_url, include_stats, verify, skip), discovery_request())
}

/// What the probes of one device found: data where the count is greater than zero.
pub open spec fn found(counts: Seq<int>) -> Seq<bool> {
    Seq::new(counts.len(), |i: int| counts[i] > 0)
}

/// What the probes of all devices found.
pub open spec fn all_found(counts: Seq<Seq<int>>) -> Seq<Seq<bool>> {
    Seq::new(counts.len(), |i: int| found(counts[i]))
}

/// The replies that hand the counts of one device to the run.
pub open spec fn count_replies(counts: Seq<int>) -> Seq<ReplyView> {
    Seq::new(counts.len(), |i: int| ReplyView::Count(counts[i]))
}

/// The replies that hand the counts of all devices to the run, device by device.
pub open spec fn probe_replies(counts: Seq<Seq<int>>) -> Seq<ReplyView>
    decreases counts.len(),
{
    if counts.len() == 0 {
        Seq::empty()
    } else {
        probe_replies(counts.drop_last()) + count_replies(counts.last())
    }
}

/// Whether every reply of `replies` is a row or the report that no row was found.
pub open spec fn all_pass(replies: Seq<ReplyView>) -> bool {
    forall|i: int| 0 <= i < replies.len() ==> replies[i] is Row || replies[i] is NoRow
}

/// The step at which the probe of a device for a column is awaited.
pub open spec fn probing_step(
    state: GeneratorView,
    devices: Seq<i16>,
    answers: Seq<Seq<bool>>,
    current: Seq<bool>,
) -> StepView {
    StepView::Ask(
        state.at(PhaseView::Probing { devices, answers, current }),
        probe_request(devices[answers.len() as int], probe_columns()[current.len() as int]),
    )
}

/// The step that follows the last probe of a device.
pub open spec fn device_done(
    state: GeneratorView,
    devices: Seq<i16>,
    answers: Seq<Seq<bool>>,
) -> StepView {
    if answers.len() < devices.len() {
        probing_step(state, devices, answers, Seq::empty())
    } else {
        after_probing(state, devices, answers)
    }
}

/// The step at which the outcome of the query of an entry is awaited, or,
/// after the last entry, the document.
pub open spec fn verifying_step(
    state: GeneratorView,
    entries: Seq<SensorEntryView>,
    checked: int,
) -> StepView {
    if checked < entries.len() {
        StepView::Ask(
            state.at(PhaseView::Verifying { entries, checked }),
            verify_request(entries[checked]),
        )
    } else {
        StepView::Emit(entries)
    }
}

/// Replies in two parts lead where the second part leads from where the first led.
pub proof fn lemma_outcome_in_parts(begin: StepView, first: Seq<ReplyView>, second: Seq<ReplyView>)
    ensures
        outcome(begin, first + second) == outcome(outcome(begin, first), second),
    decreases second.len(),
{
    if second.len() == 0 {
        assert(first + second =~= first);
    } else {
        assert((first + second).drop_last() =~= first + second.drop_last());
        lemma_outcome_in_parts(begin, first, second.drop_last());
    }
}

proof fn lemma_counts_of_a_device(
    state: GeneratorView,
    devices: Seq<i16>,
    answers: Seq<Seq<bool>>,
    current: Seq<bool>,
    counts: Seq<int>,
)
    requires
        answers.len() < devices.len(),
        current.len() + counts.len() <= probe_columns().len(),
        current.len() < probe_columns().len(),
    ensures
        outcome(probing_step(state, devices, answers, current), count_replies(counts)) == (
        if current.len() + counts.len() < probe_columns().len() {
            probing_step(state, devices, answers, current + found(counts))
        } else {
            device_done(state, devices, answers.push(current + found(counts)))
        }),
    decreases counts.len(),
{
    let begin = probing_step(state, devices, answers, current);
    if counts.len() == 0 {
        assert(current + found(counts) =~= current);
    } else {
        let front = counts.drop_last();
        assert(count_replies(counts).drop_last() =~= count_replies(front));
        assert(count_replies(counts).last() == ReplyView::Count(counts.last()));
        lemma_counts_of_a_device(state, devices, answers, current, front);
        let row = current + found(front);
        assert(row.push(counts.last() > 0) =~= current + found(counts));
        let here = state.at(PhaseView::Probing { devices, answers, current: row });
        assert(outcome(begin, count_replies(front)) == probing_step(state, devices, answers, row));
        assert(here.at(PhaseView::Probing { devices, answers, current: row.push(counts.last() > 0) })
            == state.at(
            PhaseView::Probing { devices, answers, current: row.push(counts.last() > 0) },
        ));
    }
}

proof fn lemma_counts_of_devices(
    state: GeneratorView,
    devices: Seq<i16>,
    answers: Seq<Seq<bool>>,
    counts: Seq<Seq<int>>,
)
    requires
        probe_columns().len() > 0,
        answers.len() < devices.len(),
        answers.len() + counts.len() <= devices.len(),
        forall|i: int| 0 <= i < counts.len() ==> (#[trigger] counts[i]).len() == probe_columns().len(),
    ensures
        outcome(probing_step(state, devices, answers, Seq::empty()), probe_replies(counts))
            == device_done(state, devices, answers + all_found(counts)),
    decreases counts.len(),
{
    let begin = probing_step(state, devices, answers, Seq::empty());
    if counts.len() == 0 {
        assert(answers + all_found(counts) =~= answers);
    } else {
        let front = counts.drop_last();
        let before = answers + all_found(front);
        lemma_counts_of_devices(state, devices, answers, front);
        lemma_outcome_in_parts(begin, probe_replies(front), count_replies(counts.last()));
        lemma_counts_of_a_device(state, devices, before, Seq::empty(), counts.last());
        assert(Seq::<bool>::empty() + found(counts.last()) =~= found(counts.last()));
        assert(before.push(found(counts.last())) =~= answers + all_found(counts));
    }
}

proof fn lemma_passes(
    state: GeneratorView,
    entries: Seq<SensorEntryView>,
    checked: int,
    passes: Seq<ReplyView>,
)
    requires
        0 <= checked < entries.len(),
        checked + passes.len() <= entries.len(),
        all_pass(passes),
    ensures
        outcome(verifying_step(state, entries, checked), passes) == verifying_step(
            state,
            entries,
            checked + passes.len(),
        ),
    decreases passes.len(),
{
    if passes.len() > 0 {
        let front = passes.drop_last();
        assert(all_pass(front));
        lemma_passes(state, entries, checked, front);
        let reached = checked + front.len();
        let here = state.at(PhaseView::Verifying { entries, checked: reached });
        assert(passes.last() is Row || passes.last() is NoRow);
        assert(here.at(PhaseView::Verifying { entries, checked: reached + 1 }) == state.at(
            PhaseView::Verifying { entries, checked: reached + 1 },
        ));
    }
}

/// The step that a run reaches when the devices are listed and every probe
/// is answered: what follows the probing of the devices that are not
/// skipped, with what the counts say.
pub proof fn lemma_run_reaches_assembly(
    db_url: Seq<char>,
    include_stats: bool,
    verify: bool,
    skip: Seq<i16>,
    ids: Seq<i16>,
    counts: Seq<Seq<int>>,
)
    requires
        counts.len() == kept_devices(ids, skip).len(),
        forall|i: int| 0 <= i < counts.len() ==> (#[trigger] counts[i]).len() == probe_columns().len(),
    ensures
        outcome(
            first_step(db_url, include_stats, verify, skip),
            seq![ReplyView::Devices(ids)] + probe_replies(counts),
        ) == after_probing(
            initial_state(db_url, include_stats, verify, skip),
            kept_devices(ids, skip),
            all_found(counts),
        ),
{
    let state = initial_state(db_url, include_stats, verify, skip);
    let begin = first_step(db_url, include_stats, verify, skip);
    let devices = kept_devices(ids, skip);
    let listed = seq![ReplyView::Devices(ids)];
    assert(listed.drop_last() =~= Seq::<ReplyView>::empty());
    assert(outcome(begin, listed.drop_last()) == begin);
    assert(outcome(begin, listed) == next_step(state, ReplyView::Devices(ids)));
    lemma_outcome_in_parts(begin, listed, probe_replies(counts));
    if devices.len() > 0 && probe_columns().len() > 0 {
        lemma_counts_of_devices(state, devices, Seq::empty(), counts);
        assert(Seq::<Seq<bool>>::empty() + all_found(counts) =~= all_found(counts));
    } else {
        lemma_no_probe_replies(counts);
        assert forall|i: int| 0 <= i < devices.len() implies answers_of(Seq::empty(), i)
            == answers_of(all_found(counts), i) by {
            assert(all_found(counts)[i] =~= Seq::<bool>::empty());
        }
        lemma_entries_read_own_answers(
            db_url,
            devices,
            catalog_items(),
            Seq::empty(),
            all_found(counts),
            include_stats,
        );
    }
}

proof fn lemma_no_probe_replies(counts: Seq<Seq<int>>)
    requires
        forall|i: int| 0 <= i < counts.len() ==> (#[trigger] counts[i]).len() == 0,
    ensures
        probe_replies(counts) == Seq::<ReplyView>::empty(),
    decreases counts.len(),
{
    if counts.len() > 0 {
        lemma_no_probe_replies(counts.drop_last());
        assert(probe_replies(counts) =~= Seq::<ReplyView>::empty());
    }
}

/// A run without verification emits, once the devices are listed and every
/// probe of every device that is not skipped is answered, the document of
/// those devices, in which a conditional property has its entry exactly
/// where the count was greater than zero.
pub proof fn law_run_emits_the_document(
    db_url: Seq<char>,
    include_stats: bool,
    skip: Seq<i16>,
    ids: Seq<i16>,
    counts: Seq<Seq<int>>,
)
    requires
        counts.len() == kept_devices(ids, skip).len(),
        forall|i: int| 0 <= i < counts.len() ==> (#[trigger] counts[i]).len() == probe_columns().len(),
    ensures
        outcome(
            first_step(db_url, include_stats, false, skip),
            seq![ReplyView::Devices(ids)] + probe_replies(counts),
        ) == StepView::Emit(
            all_entries(
                db_url,
                kept_devices(ids, skip),
                catalog_items(),
                all_found(counts),
                include_stats,
            ),
        ),
{
    lemma_run_reaches_assembly(db_url, include_stats, false, skip, ids, counts);
}

/// A run with verification emits the same document if the query of every
/// entry returns a row or finds none.
pub proof fn law_verified_run_emits_the_document(
    db_url: Seq<char>,
    include_stats: bool,
    skip: Seq<i16>,
    ids: Seq<i16>,
    counts: Seq<Seq<int>>,
    checks: Seq<ReplyView>,
)
    requires
        counts.len() == kept_devices(ids, skip).len(),
        forall|i: int| 0 <= i < counts.len() ==> (#[trigger] counts[i]).len() == probe_columns().len(),
        all_pass(checks),
        checks.len() == all_entries(
            db_url,
            kept_devices(ids, skip),
            catalog_items(),
            all_found(counts),
            include_stats,
        ).len(),
    ensures
        outcome(
            first_step(db_url, include_stats, true, skip),
            seq![ReplyView::Devices(ids)] + probe_replies(counts) + checks,
        ) == StepView::Emit(
            all_entries(
                db_url,
                kept_devices(ids, skip),
                catalog_items(),
                all_found(counts),
                include_stats,
            ),
        ),
{
    let state = initial_state(db_url, include_stats, true, skip);
    let begin = first_step(db_url, include_stats, true, skip);
    let entries = all_entries(
        db_url,
        kept_devices(ids, skip),
        catalog_items(),
        all_found(counts),
        include_stats,
    );
    lemma_run_reaches_assembly(db_url, include_stats, true, skip, ids, counts);
    lemma_outcome_in_parts(begin, seq![ReplyView::Devices(ids)] + probe_replies(counts), checks);
    if entries.len() > 0 {
        lemma_passes(state, entries, 0, checks);
    } else {
        assert(checks =~= Seq::<ReplyView>::empty());
    }
}

/// A run with verification ends at the first query that fails with another
/// error than that no row was found: what follows is the failure of that
/// entry, and no document, whatever was verified before.
pub proof fn law_failed_verification_emits_nothing(
    db_url: Seq<char>,
    include_stats: bool,
    skip: Seq<i16>,
    ids: Seq<i16>,
    counts: Seq<Seq<int>>,
    passes: Seq<ReplyView>,
    error: Seq<char>,
)
    requires
        counts.len() == kept_devices(ids, skip).len(),
        forall|i: int| 0 <= i < counts.len() ==> (#[trigger] counts[i]).len() == probe_columns().len(),
        all_pass(passes),
        passes.len() < all_entries(
            db_url,
            kept_devices(ids, skip),
            catalog_items(),
            all_found(counts),
            include_stats,
        ).len(),
    ensures
        ({
            let entries = all_entries(
                db_url,
                kept_devices(ids, skip),
                catalog_items(),
                all_found(counts),
                include_stats,
            );
            outcome(
                first_step(db_url, include_stats, true, skip),
                seq![ReplyView::Devices(ids)] + probe_replies(counts) + passes.push(
                    ReplyView::Error(error),
                ),
            ) == StepView::Abort(
                FailureView::Verification {
                    name: entries[passes.len() as int].name,
                    query: entries[passes.len() as int].query,
                    error,
                },
            )
        }),
{
    let state = initial_state(db_url, include_stats, true, skip);
    let begin = first_step(db_url, include_stats, true, skip);
    let entries = all_entries(
        db_url,
        kept_devices(ids, skip),
        catalog_items(),
        all_found(counts),
        include_stats,
    );
    let probes = seq![ReplyView::Devices(ids)] + probe_replies(counts);
    let checks = passes.push(ReplyView::Error(error));
    lemma_run_reaches_assembly(db_url, include_stats, true, skip, ids, counts);
    lemma_outcome_in_parts(begin, probes, checks);
    assert(checks.drop_last() =~= passes);
    lemma_passes(state, entries, 0, passes);
}

} // verus!
