//! What holds of a tracker over whole histories of notifications.

use crate::clock::Timestamp;
use crate::event::{ObservationView, WinEvent};
use crate::registry::is_snapshot_of;
use crate::tracker::{hook_is_invalid, Phase, TrackerView};
use crate::window_info::WindowInfoView;
use vstd::prelude::*;

verus! {

/// One notification as it reaches a tracker: the event, what the window
/// system said of the window then, and the time.
pub struct Occurrence {
    pub event: WinEvent,
    pub seen: ObservationView,
    pub at: Timestamp,
}

/// One window as the first scan reports it.
pub struct Sighting {
    pub handle: isize,
    pub seen: ObservationView,
    pub at: Timestamp,
}

/// The state after the notifications of `occurrences`, applied in order.
pub open spec fn replay(start: TrackerView, occurrences: Seq<Occurrence>) -> TrackerView
    decreases occurrences.len(),
{
    if occurrences.len() == 0 {
        start
    } else {
        let last = occurrences.last();
        replay(start, occurrences.drop_last()).notify(last.event, last.seen, last.at)
    }
}

/// The state after a scan that reported `sightings`, in order.
pub open spec fn seed_all(start: TrackerView, sightings: Seq<Sighting>) -> TrackerView
    decreases sightings.len(),
{
    if sightings.len() == 0 {
        start
    } else {
        let last = sightings.last();
        seed_all(start, sightings.drop_last()).seed(last.handle, last.seen, last.at)
    }
}

/// The state in which a start leaves a new tracker: seeded with the whole
/// scan first, and only then told of the hook.
pub open spec fn started(sightings: Seq<Sighting>, hook: isize, thread_id: u32) -> TrackerView {
    seed_all(TrackerView::initial(), sightings).hook_installed(hook, thread_id)
}

/// Whether `occurrences[i]` is acted on and is about the window `handle`.
pub open spec fn is_about(occurrences: Seq<Occurrence>, i: int, handle: isize) -> bool {
    0 <= i < occurrences.len() && occurrences[i].event.concerns_window()
        && occurrences[i].event.hwnd == handle
}

/// Whether `occurrences[i]` is the last one that is acted on and is about
/// the window `handle`.
pub open spec fn is_latest_about(occurrences: Seq<Occurrence>, i: int, handle: isize) -> bool {
    is_about(occurrences, i, handle) && forall|j: int|
        i < j < occurrences.len() ==> !is_about(occurrences, j, handle)
}

/// Whether `sightings[i]` is the last visible one of the window `handle`.
pub open spec fn is_latest_sighting(sightings: Seq<Sighting>, i: int, handle: isize) -> bool {
    &&& 0 <= i < sightings.len()
    &&& sightings[i].handle == handle
    &&& sightings[i].seen is Visible
    &&& forall|j: int|
        i < j < sightings.len() ==> !(sightings[j].handle == handle && sightings[j].seen
            is Visible)
}

/// Notifications change the windows only, never the phase.
pub proof fn lemma_replay_keeps_phase(start: TrackerView, occurrences: Seq<Occurrence>)
    ensures
        replay(start, occurrences).phase == start.phase,
    decreases occurrences.len(),
{
    if occurrences.len() > 0 {
        lemma_replay_keeps_phase(start, occurrences.drop_last());
    }
}

/// A scan changes the windows only, never the phase.
pub proof fn lemma_seed_all_keeps_phase(start: TrackerView, sightings: Seq<Sighting>)
    ensures
        seed_all(start, sightings).phase == start.phase,
    decreases sightings.len(),
{
    if sightings.len() > 0 {
        lemma_seed_all_keeps_phase(start, sightings.drop_last());
    }
}

/// After any history of notifications, a window is tracked exactly if the
/// last notification acted on about it reported it visible, and then with
/// the state of that notification. A window that was tracked at the outset
/// and that no such notification is about stays as it was.
pub proof fn lemma_replay_keeps_latest(
    start: TrackerView,
    occurrences: Seq<Occurrence>,
    handle: isize,
)
    requires
        start.accepts_events(),
    ensures
        forall|i: int| #[trigger]
            is_latest_about(occurrences, i, handle) ==> {
                let windows = replay(start, occurrences).windows;
                if occurrences[i].seen is Visible {
                    windows.contains_key(handle) && windows[handle] == occurrences[i].seen.info_at(
                        occurrences[i].at,
                    )
                } else {
                    !windows.contains_key(handle)
                }
            },
        (forall|i: int| !is_about(occurrences, i, handle)) ==> {
            let windows = replay(start, occurrences).windows;
            &&& windows.contains_key(handle) == start.windows.contains_key(handle)
            &&& windows.contains_key(handle) ==> windows[handle] == start.windows[handle]
        },
    decreases occurrences.len(),
{
    if occurrences.len() > 0 {
        let before = occurrences.drop_last();
        let n = occurrences.len() - 1;
        lemma_replay_keeps_latest(start, before, handle);
        lemma_replay_keeps_phase(start, before);
        assert forall|j: int| is_about(before, j, handle) == (j < n && is_about(
            occurrences,
            j,
            handle,
        )) by {}
        assert forall|i: int| #[trigger]
            is_latest_about(occurrences, i, handle) implies {
            let windows = replay(start, occurrences).windows;
            if occurrences[i].seen is Visible {
                windows.contains_key(handle) && windows[handle] == occurrences[i].seen.info_at(
                    occurrences[i].at,
                )
            } else {
                !windows.contains_key(handle)
            }
        } by {
            if i < n {
                assert(!is_about(occurrences, n, handle));
                assert(is_latest_about(before, i, handle)) by {
                    assert forall|j: int| i < j < before.len() implies !is_about(
                        before,
                        j,
                        handle,
                    ) by {
                        assert(!is_about(occurrences, j, handle));
                    }
                }
            }
        }
        if forall|i: int| !is_about(occurrences, i, handle) {
            assert(!is_about(occurrences, n, handle));
            assert forall|i: int| !is_about(before, i, handle) by {
                assert(!is_about(occurrences, i, handle));
            }
        }
    }
}

/// From an empty registry, the snapshot taken after any history of
/// notifications has exactly one entry for each window whose last
/// notification reported it visible, holding what that notification
/// reported, and no entry for any other window.
pub proof fn law_snapshot_shows_latest_visibility(
    start: TrackerView,
    occurrences: Seq<Occurrence>,
    entries: Seq<(isize, WindowInfoView)>,
    handle: isize,
)
    requires
        start.accepts_events(),
        start.windows == Map::<isize, WindowInfoView>::empty(),
        is_snapshot_of(entries, replay(start, occurrences).windows),
    ensures
        forall|i: int| #[trigger]
            is_latest_about(occurrences, i, handle) && occurrences[i].seen is Visible ==> exists|
                k: int,
            |
                {
                    &&& 0 <= k < entries.len()
                    &&& #[trigger] entries[k] == (
                        handle,
                        occurrences[i].seen.info_at(occurrences[i].at),
                    )
                    &&& forall|m: int|
                        0 <= m < entries.len() && m != k ==> (#[trigger] entries[m]).0 != handle
                },
        forall|i: int| #[trigger]
            is_latest_about(occurrences, i, handle) && occurrences[i].seen is Hidden ==> forall|
                k: int,
            |
                0 <= k < entries.len() ==> (#[trigger] entries[k]).0 != handle,
        (forall|i: int| !is_about(occurrences, i, handle)) ==> forall|k: int|
            0 <= k < entries.len() ==> (#[trigger] entries[k]).0 != handle,
{
    lemma_replay_keeps_latest(start, occurrences, handle);
    let windows = replay(start, occurrences).windows;
    assert forall|i: int| #[trigger]
        is_latest_about(occurrences, i, handle) && occurrences[i].seen is Visible implies exists|
        k: int,
    |
        {
            &&& 0 <= k < entries.len()
            &&& #[trigger] entries[k] == (handle, occurrences[i].seen.info_at(occurrences[i].at))
            &&& forall|m: int|
                0 <= m < entries.len() && m != k ==> (#[trigger] entries[m]).0 != handle
        } by {
        assert(windows.contains_key(handle));
        let k = choose|k: int| 0 <= k < entries.len() && #[trigger] entries[k].0 == handle;
        assert(windows[entries[k].0] == entries[k].1);
        assert(entries[k] == (handle, occurrences[i].seen.info_at(occurrences[i].at)));
        assert forall|m: int| 0 <= m < entries.len() && m != k implies (#[trigger] entries[m]).0
            != handle by {
            if m < k {
                assert(entries[m].0 != entries[k].0);
            } else {
                assert(entries[k].0 != entries[m].0);
            }
        }
    }
    assert forall|i: int| #[trigger]
        is_latest_about(occurrences, i, handle) && occurrences[i].seen is Hidden implies forall|
        k: int,
    |
        0 <= k < entries.len() ==> (#[trigger] entries[k]).0 != handle by {
        assert(!windows.contains_key(handle));
        assert forall|k: int| 0 <= k < entries.len() implies (#[trigger] entries[k]).0
            != handle by {
            assert(windows.contains_key(entries[k].0));
        }
    }
    if forall|i: int| !is_about(occurrences, i, handle) {
        assert(!windows.contains_key(handle));
        assert forall|k: int| 0 <= k < entries.len() implies (#[trigger] entries[k]).0
            != handle by {
            assert(windows.contains_key(entries[k].0));
        }
    }
}

/// The same notification applied a second time changes no rectangle and no
/// title and tracks the same windows. Where the second is not timed before
/// the first, no observation time goes back either.
pub proof fn law_repeated_event_is_idempotent(
    state: TrackerView,
    event: WinEvent,
    seen: ObservationView,
    first: Timestamp,
    second: Timestamp,
)
    ensures
        ({
            let once = state.notify(event, seen, first);
            let twice = once.notify(event, seen, second);
            &&& twice.phase == once.phase
            &&& twice.windows.dom() == once.windows.dom()
            &&& forall|h: isize| #[trigger]
                once.windows.contains_key(h) ==> twice.windows[h].same_content(once.windows[h])
            &&& first.precedes_or_equals(second) ==> forall|h: isize| #[trigger]
                once.windows.contains_key(h) ==> once.windows[h].timestamp.precedes_or_equals(
                    twice.windows[h].timestamp,
                )
        }),
{
    let once = state.notify(event, seen, first);
    let twice = once.notify(event, seen, second);
    assert(twice.windows.dom() =~= once.windows.dom());
}

/// A start reports readiness only after the whole scan is recorded: the
/// tracker then runs, and it tracks exactly the windows that the scan saw
/// visible, each as it was last seen. So where the scan saw a window, no
/// snapshot taken from then on without a notification in between is empty.
pub proof fn law_ready_tracker_is_seeded(
    sightings: Seq<Sighting>,
    hook: isize,
    thread_id: u32,
    handle: isize,
)
    requires
        !hook_is_invalid(hook),
    ensures
        started(sightings, hook, thread_id).phase == (Phase::Running { hook, thread_id }),
        forall|i: int| #[trigger]
            is_latest_sighting(sightings, i, handle) ==> {
                let windows = started(sightings, hook, thread_id).windows;
                windows.contains_key(handle) && windows[handle] == sightings[i].seen.info_at(
                    sightings[i].at,
                )
            },
        (forall|i: int|
            0 <= i < sightings.len() ==> !(sightings[i].handle == handle && sightings[i].seen
                is Visible)) ==> !started(sightings, hook, thread_id).windows.contains_key(handle),
{
    lemma_seed_all_keeps_phase(TrackerView::initial(), sightings);
    lemma_seed_all_keeps_latest(sightings, handle);
}

/// After a scan from the initial state, a window is recorded exactly if
/// some sighting saw it visible, and with the state of the last such
/// sighting.
pub proof fn lemma_seed_all_keeps_latest(sightings: Seq<Sighting>, handle: isize)
    ensures
        forall|i: int| #[trigger]
            is_latest_sighting(sightings, i, handle) ==> {
                let windows = seed_all(TrackerView::initial(), sightings).windows;
                windows.contains_key(handle) && windows[handle] == sightings[i].seen.info_at(
                    sightings[i].at,
                )
            },
        (forall|i: int|
            0 <= i < sightings.len() ==> !(sightings[i].handle == handle && sightings[i].seen
                is Visible)) ==> !seed_all(TrackerView::initial(), sightings).windows.contains_key(
            handle,
        ),
    decreases sightings.len(),
{
    if sightings.len() > 0 {
        let before = sightings.drop_last();
        let n = sightings.len() - 1;
        lemma_seed_all_keeps_latest(before, handle);
        lemma_seed_all_keeps_phase(TrackerView::initial(), before);
        assert forall|i: int| #[trigger]
            is_latest_sighting(sightings, i, handle) implies {
            let windows = seed_all(TrackerView::initial(), sightings).windows;
            windows.contains_key(handle) && windows[handle] == sightings[i].seen.info_at(
                sightings[i].at,
            )
        } by {
            if i < n {
                assert(!(sightings[n].handle == handle && sightings[n].seen is Visible));
                assert(is_latest_sighting(before, i, handle)) by {
                    assert forall|j: int| i < j < before.len() implies !(before[j].handle == handle
                        && before[j].seen is Visible) by {
                        assert(before[j] == sightings[j]);
                    }
                }
            }
        }
        if forall|i: int|
            0 <= i < sightings.len() ==> !(sightings[i].handle == handle && sightings[i].seen
                is Visible) {
            assert(!(sightings[n].handle == handle && sightings[n].seen is Visible));
            assert forall|i: int| 0 <= i < before.len() implies !(before[i].handle == handle
                && before[i].seen is Visible) by {
                assert(before[i] == sightings[i]);
            }
        }
    }
}

/// A window that the scan saw visible is recorded when the scan ends.
pub proof fn lemma_seen_window_is_recorded(sightings: Seq<Sighting>, seen_at: int)
    requires
        0 <= seen_at < sightings.len(),
        sightings[seen_at].seen is Visible,
    ensures
        seed_all(TrackerView::initial(), sightings).windows.contains_key(
            sightings[seen_at].handle,
        ),
    decreases sightings.len(),
{
    let before = sightings.drop_last();
    lemma_seed_all_keeps_phase(TrackerView::initial(), before);
    if seen_at < sightings.len() - 1 {
        assert(before[seen_at] == sightings[seen_at]);
        lemma_seen_window_is_recorded(before, seen_at);
    }
}

/// Where the scan saw at least one window visible, the tracker that a
/// start hands over runs and tracks that window, and a snapshot taken of
/// it right then is not empty.
pub proof fn law_ready_tracker_is_not_empty(
    sightings: Seq<Sighting>,
    hook: isize,
    thread_id: u32,
    seen_at: int,
    entries: Seq<(isize, WindowInfoView)>,
)
    requires
        !hook_is_invalid(hook),
        0 <= seen_at < sightings.len(),
        sightings[seen_at].seen is Visible,
        is_snapshot_of(entries, started(sightings, hook, thread_id).windows),
    ensures
        started(sightings, hook, thread_id).phase == (Phase::Running { hook, thread_id }),
        started(sightings, hook, thread_id).windows.contains_key(sightings[seen_at].handle),
        entries.len() > 0,
{
    lemma_seed_all_keeps_phase(TrackerView::initial(), sightings);
    lemma_seen_window_is_recorded(sightings, seen_at);
}

/// Once the pump of a tracker has ended, or before it has begun, no
/// notification changes anything, however many arrive.
pub proof fn law_stopped_tracker_ignores_events(
    state: TrackerView,
    occurrences: Seq<Occurrence>,
)
    requires
        !state.accepts_events(),
    ensures
        replay(state, occurrences) == state,
    decreases occurrences.len(),
{
    if occurrences.len() > 0 {
        law_stopped_tracker_ignores_events(state, occurrences.drop_last());
    }
}

/// A stop followed by the end of the pump leaves what was tracked, and a
/// tracker that no notification can change. A second stop changes nothing.
pub proof fn law_stop_freezes_the_registry(state: TrackerView, occurrences: Seq<Occurrence>)
    requires
        state.accepts_events(),
    ensures
        ({
            let stopped = state.stop().pump_exited();
            &&& stopped.phase == Phase::Stopped
            &&& stopped.windows == state.windows
            &&& replay(stopped, occurrences) == stopped
            &&& stopped.stop() == stopped
            &&& state.stop().stop() == state.stop()
        }),
{
    law_stopped_tracker_ignores_events(state.stop().pump_exited(), occurrences);
}

/// A notification with a null handle, or about an object or a child below
/// the window, or of a class not subscribed, changes nothing.
pub proof fn law_malformed_event_changes_nothing(
    state: TrackerView,
    event: WinEvent,
    seen: ObservationView,
    at: Timestamp,
)
    requires
        !event.concerns_window(),
    ensures
        state.notify(event, seen, at) == state,
{
}

/// A history in which no notification concerns a window as a whole changes
/// nothing.
pub proof fn law_malformed_events_change_nothing(state: TrackerView, occurrences: Seq<Occurrence>)
    requires
        forall|i: int|
            0 <= i < occurrences.len() ==> !(#[trigger] occurrences[i]).event.concerns_window(),
    ensures
        replay(state, occurrences) == state,
    decreases occurrences.len(),
{
    if occurrences.len() > 0 {
        let before = occurrences.drop_last();
        assert forall|i: int| 0 <= i < before.len() implies !(#[trigger] before[i]).event.concerns_window() by {
            assert(before[i] == occurrences[i]);
        }
        law_malformed_events_change_nothing(state, before);
        assert(!occurrences.last().event.concerns_window());
    }
}

/// Every step of a tracker keeps it well formed.
pub proof fn law_steps_keep_well_formed(
    state: TrackerView,
    handle: isize,
    event: WinEvent,
    seen: ObservationView,
    at: Timestamp,
    hook: isize,
    thread_id: u32,
)
    requires
        state.well_formed(),
    ensures
        TrackerView::initial().well_formed(),
        state.seed(handle, seen, at).well_formed(),
        state.hook_installed(hook, thread_id).well_formed(),
        state.notify(event, seen, at).well_formed(),
        state.stop().well_formed(),
        state.pump_exited().well_formed(),
{
}

} // verus!
