//! The adapter between the display server and the window manager.
//!
//! An adapter starts out uninitialised. Its first call of
//! [`XlibDisplayServer::get_next_events`] bootstraps it: the call reports
//! every screen and every window that already exists and is eligible for
//! management. From then on each call reports only what has happened since.
//!
//! The adapter does not hold the connection. The caller asks the display
//! server, waits for its next event, and hands both over; the adapter decides
//! what is reported and in which order.

use vstd::prelude::*;
use crate::event::{event_views, screen_events, window_events, EventQueueItem, EventView};
use crate::screen::Screen;
use crate::window::{window_views, Window, WindowProbe, WindowView};

verus! {

/// What the display server answered when it was asked for the screens and
/// the top-level windows that exist.
#[derive(Debug, PartialEq, Eq)]
pub struct Snapshot {
    /// The physical outputs, in the order in which they were listed.
    pub screens: Vec<Screen>,
    /// One probe for each top-level window, in the order in which they were
    /// listed, or `None` where the listing itself failed.
    pub windows: Option<Vec<WindowProbe>>,
}

/// A query that failed while the existing windows were enumerated. A failure
/// costs the window it concerns; it never stops the enumeration.
#[derive(Clone, Copy, Debug, PartialEq, Eq, Structural)]
pub enum QueryFailure {
    /// The attributes of this window could not be read.
    AttributeQueryFailed(u64),
    /// The top-level windows could not be listed.
    WindowEnumerationFailed,
}

/// The windows taken under management among `probes`, in order.
pub open spec fn managed_windows(probes: Seq<WindowProbe>) -> Seq<WindowView> {
    probes.filter(|p: WindowProbe| p.managed()).map_values(|p: WindowProbe| p.window())
}

/// The attribute queries that failed among `probes`, in order.
pub open spec fn failed_queries(probes: Seq<WindowProbe>) -> Seq<QueryFailure> {
    probes.filter(|p: WindowProbe| p.query_failed()).map_values(
        |p: WindowProbe| QueryFailure::AttributeQueryFailed(p.handle),
    )
}

/// The windows that a listing puts under management. A listing that failed
/// yields none.
pub open spec fn listed_windows(listing: Option<Vec<WindowProbe>>) -> Seq<WindowView> {
    match listing {
        Some(probes) => managed_windows(probes@),
        None => Seq::empty(),
    }
}

/// The failures that a listing records: the attribute queries that failed,
/// or the failure of the listing itself.
pub open spec fn listed_failures(listing: Option<Vec<WindowProbe>>) -> Seq<QueryFailure> {
    match listing {
        Some(probes) => failed_queries(probes@),
        None => seq![QueryFailure::WindowEnumerationFailed],
    }
}

impl Snapshot {
    /// The windows that this snapshot puts under management.
    pub open spec fn windows(&self) -> Seq<WindowView> {
        listed_windows(self.windows)
    }

    /// The failures that this snapshot records.
    pub open spec fn failures(&self) -> Seq<QueryFailure> {
        listed_failures(self.windows)
    }

    /// The bootstrap batch of this snapshot: every screen, then every
    /// managed window.
    pub open spec fn bootstrap(&self) -> Seq<EventView> {
        screen_events(self.screens@) + window_events(self.windows())
    }
}

/// What a live event contributes to a batch: itself, or nothing.
pub open spec fn live_events(live: Option<EventQueueItem>) -> Seq<EventView> {
    match live {
        Some(event) => seq![event@],
        None => Seq::empty(),
    }
}

/// The batch that one call returns, given whether the adapter had been
/// bootstrapped before the call.
pub open spec fn batch(bootstrapped: bool, snapshot: Snapshot, live: Option<EventQueueItem>) -> Seq<
    EventView,
> {
    if bootstrapped {
        live_events(live)
    } else {
        snapshot.bootstrap() + live_events(live)
    }
}

/// The batches that a run of calls returns, one after the other, from an
/// adapter in the given state. Whatever the state before a call, the adapter
/// is bootstrapped after it.
pub open spec fn run(bootstrapped: bool, calls: Seq<(Snapshot, Option<EventQueueItem>)>) -> Seq<
    Seq<EventView>,
>
    decreases calls.len(),
{
    if calls.len() == 0 {
        Seq::empty()
    } else {
        seq![batch(bootstrapped, calls[0].0, calls[0].1)] + run(true, calls.drop_first())
    }
}

proof fn lemma_managed_windows_push(probes: Seq<WindowProbe>, probe: WindowProbe)
    ensures
        managed_windows(probes.push(probe)) == if probe.managed() {
            managed_windows(probes).push(probe.window())
        } else {
            managed_windows(probes)
        },
{
    let pred = |p: WindowProbe| p.managed();
    probes.lemma_filter_push(probe, pred);
    assert(managed_windows(probes.push(probe)) =~= if probe.managed() {
        managed_windows(probes).push(probe.window())
    } else {
        managed_windows(probes)
    });
}

proof fn lemma_failed_queries_push(probes: Seq<WindowProbe>, probe: WindowProbe)
    ensures
        failed_queries(probes.push(probe)) == if probe.query_failed() {
            failed_queries(probes).push(QueryFailure::AttributeQueryFailed(probe.handle))
        } else {
            failed_queries(probes)
        },
{
    let pred = |p: WindowProbe| p.query_failed();
    probes.lemma_filter_push(probe, pred);
    assert(failed_queries(probes.push(probe)) =~= if probe.query_failed() {
        failed_queries(probes).push(QueryFailure::AttributeQueryFailed(probe.handle))
    } else {
        failed_queries(probes)
    });
}

/// The adapter's state: whether it has been bootstrapped, and the failures
/// that it has recorded and not yet handed out.
#[derive(Debug)]
pub struct XlibDisplayServer {
    bootstrapped: bool,
    failures: Vec<QueryFailure>,
}

impl XlibDisplayServer {
    /// The bootstrap batch has been emitted.
    pub closed spec fn bootstrapped(&self) -> bool {
        self.bootstrapped
    }

    /// The failures recorded and not yet taken, oldest first.
    pub closed spec fn failures(&self) -> Seq<QueryFailure> {
        self.failures@
    }

    /// An adapter that has not been bootstrapped.
    pub fn new() -> (server: XlibDisplayServer)
        ensures
            !server.bootstrapped(),
            server.failures() == Seq::<QueryFailure>::empty(),
    {
        XlibDisplayServer { bootstrapped: false, failures: Vec::new() }
    }

    /// Whether the next call of [`XlibDisplayServer::get_next_events`] will
    /// read its snapshot. Only then does the caller have to take one.
    pub fn needs_bootstrap(&self) -> (needed: bool)
        ensures
            needed == !self.bootstrapped(),
    {
        !self.bootstrapped
    }

    /// The windows to manage among those that a listing found, in the order
    /// of the listing. A window whose attributes could not be read is left
    /// out, and so is every window where the listing itself failed.
    pub fn find_all_windows(windows: &Option<Vec<WindowProbe>>) -> (all: Vec<Window>)
        ensures
            window_views(all@) == listed_windows(*windows),
    {
        let mut all: Vec<Window> = Vec::new();
        match windows {
            Some(probes) => {
                let mut i: usize = 0;
                assert(managed_windows(Seq::<WindowProbe>::empty()) =~= Seq::<WindowView>::empty())
                    by {
                    reveal(Seq::filter);
                }
                while i < probes.len()
                    invariant
                        i <= probes.len(),
                        window_views(all@) == managed_windows(probes@.take(i as int)),
                    decreases probes.len() - i,
                {
                    proof {
                        assert(probes@.take(i + 1) =~= probes@.take(i as int).push(probes@[i as int]));
                        lemma_managed_windows_push(probes@.take(i as int), probes@[i as int]);
                    }
                    if probes[i].is_managed() {
                        all.push(probes[i].to_window());
                    }
                    i += 1;
                }
                assert(probes@.take(probes.len() as int) =~= probes@);
            },
            None => {},
        }
        all
    }

    /// The failures that a listing records, in the order of the listing.
    pub fn find_failures(windows: &Option<Vec<WindowProbe>>) -> (failures: Vec<QueryFailure>)
        ensures
            failures@ == listed_failures(*windows),
    {
        let mut failures: Vec<QueryFailure> = Vec::new();
        match windows {
            Some(probes) => {
                let mut i: usize = 0;
                assert(failed_queries(Seq::<WindowProbe>::empty()) =~= Seq::<QueryFailure>::empty())
                    by {
                    reveal(Seq::filter);
                }
                while i < probes.len()
                    invariant
                        i <= probes.len(),
                        failures@ == failed_queries(probes@.take(i as int)),
                    decreases probes.len() - i,
                {
                    proof {
                        assert(probes@.take(i + 1) =~= probes@.take(i as int).push(probes@[i as int]));
                        lemma_failed_queries_push(probes@.take(i as int), probes@[i as int]);
                    }
                    if probes[i].attrs.is_none() {
                        failures.push(QueryFailure::AttributeQueryFailed(probes[i].handle));
                    }
                    i += 1;
                }
                assert(probes@.take(probes.len() as int) =~= probes@);
            },
            None => {
                failures.push(QueryFailure::WindowEnumerationFailed);
            },
        }
        failures
    }

    /// The bootstrap batch for a snapshot: one `ScreenCreate` for each screen
    /// in the order of the snapshot, then one `WindowCreate` for each window
    /// that is taken under management, in the order of the listing. No item
    /// for a screen follows an item for a window.
    pub fn initial_events(snapshot: &Snapshot) -> (events: Vec<EventQueueItem>)
        ensures
            event_views(events@) == snapshot.bootstrap(),
            forall|i: int, j: int|
                0 <= i < j < events.len() && events[i]@ is WindowCreate ==> !(events[j]@
                    is ScreenCreate),
    {
        let mut events: Vec<EventQueueItem> = Vec::new();
        let mut i: usize = 0;
        while i < snapshot.screens.len()
            invariant
                i <= snapshot.screens.len(),
                event_views(events@) == screen_events(snapshot.screens@.take(i as int)),
            decreases snapshot.screens.len() - i,
        {
            let ghost before = events@;
            events.push(EventQueueItem::ScreenCreate(snapshot.screens[i]));
            assert(event_views(events@) =~= event_views(before).push(
                EventView::ScreenCreate(snapshot.screens@[i as int]),
            ));
            assert(screen_events(snapshot.screens@.take(i + 1)) =~= screen_events(
                snapshot.screens@.take(i as int),
            ).push(EventView::ScreenCreate(snapshot.screens@[i as int])));
            i += 1;
        }
        let windows = Self::find_all_windows(&snapshot.windows);
        let mut j: usize = 0;
        assert(event_views(events@) =~= screen_events(snapshot.screens@) + window_events(
            window_views(windows@).take(0),
        ));
        while j < windows.len()
            invariant
                j <= windows.len(),
                event_views(events@) == screen_events(snapshot.screens@) + window_events(
                    window_views(windows@).take(j as int),
                ),
            decreases windows.len() - j,
        {
            let ghost before = events@;
            let window = windows[j].clone();
            events.push(EventQueueItem::WindowCreate(window));
            assert(event_views(events@) =~= event_views(before).push(
                EventView::WindowCreate(windows@[j as int]@),
            ));
            assert(window_events(window_views(windows@).take(j + 1)) =~= window_events(
                window_views(windows@).take(j as int),
            ).push(EventView::WindowCreate(windows@[j as int]@)));
            j += 1;
        }
        proof {
            assert forall|i: int, j: int|
                0 <= i < j < events.len() && events[i]@ is WindowCreate implies !(events[j]@
                    is ScreenCreate) by {
                assert(event_views(events@)[i] == events[i]@);
                assert(event_views(events@)[j] == events[j]@);
                if events[j]@ is ScreenCreate {
                    lemma_screens_precede_windows(*snapshot, None, j, i);
                }
            }
        }
        events
    }

    /// The next batch of events.
    ///
    /// The first call on an adapter returns the bootstrap batch of `snapshot`
    /// and records the failures that the snapshot holds; every later call
    /// reads no snapshot. In either case the batch ends with `live`, the item
    /// that stands for the display server's next event, where that event
    /// gives rise to one.
    ///
    /// The call borrows the adapter exclusively, so two calls on one adapter
    /// never overlap: whichever comes first bootstraps it, and no other does.
    pub fn get_next_events(&mut self, snapshot: &Snapshot, live: Option<EventQueueItem>) -> (events:
        Vec<EventQueueItem>)
        ensures
            final(self).bootstrapped(),
            event_views(events@) == batch(old(self).bootstrapped(), *snapshot, live),
            final(self).failures() == if old(self).bootstrapped() {
                old(self).failures()
            } else {
                old(self).failures() + snapshot.failures()
            },
    {
        let mut events: Vec<EventQueueItem> = Vec::new();
        if !self.bootstrapped {
            self.bootstrapped = true;
            events = Self::initial_events(snapshot);
            let mut found = Self::find_failures(&snapshot.windows);
            self.failures.append(&mut found);
        }
        if let Some(event) = live {
            events.push(event);
        }
        events
    }

    /// Hands out the failures recorded so far, oldest first, and forgets
    /// them.
    pub fn take_failures(&mut self) -> (failures: Vec<QueryFailure>)
        ensures
            failures@ == old(self).failures(),
            final(self).failures() == Seq::<QueryFailure>::empty(),
            final(self).bootstrapped() == old(self).bootstrapped(),
    {
        let mut failures: Vec<QueryFailure> = Vec::new();
        failures.append(&mut self.failures);
        failures
    }
}

/// In the first batch of an adapter every `ScreenCreate` stands before every
/// `WindowCreate`.
///
/// The bootstrap part of the batch is so ordered by construction. The live
/// item at its end is whatever the display server reported; the statement
/// leaves out the one case in which that item is itself a `ScreenCreate`
/// and the snapshot has put a window under management.
pub proof fn lemma_screens_precede_windows(
    snapshot: Snapshot,
    live: Option<EventQueueItem>,
    i: int,
    j: int,
)
    requires
        live matches Some(EventQueueItem::ScreenCreate(_)) ==> snapshot.windows().len() == 0,
        0 <= i < batch(false, snapshot, live).len(),
        0 <= j < batch(false, snapshot, live).len(),
        batch(false, snapshot, live)[i] is ScreenCreate,
        batch(false, snapshot, live)[j] is WindowCreate,
    ensures
        i < j,
{
}

/// Bootstrap happens exactly once: of the batches that a run of calls on a
/// fresh adapter returns, the first is the bootstrap batch of its snapshot
/// followed by its live item, and every later one holds its live item alone,
/// whatever snapshot was passed with it.
pub proof fn lemma_bootstrap_exactly_once(calls: Seq<(Snapshot, Option<EventQueueItem>)>, i: int)
    requires
        0 <= i < calls.len(),
    ensures
        run(false, calls).len() == calls.len(),
        run(false, calls)[0] == calls[0].0.bootstrap() + live_events(calls[0].1),
        i > 0 ==> run(false, calls)[i] == live_events(calls[i].1),
{
    if i > 0 {
        lemma_bootstrapped_stays_quiet(calls.drop_first(), i - 1);
    } else if calls.len() > 1 {
        lemma_bootstrapped_stays_quiet(calls.drop_first(), 0);
    } else {
        assert(run(true, calls.drop_first()).len() == 0);
    }
}

/// An adapter that has been bootstrapped returns the live item of each call
/// and nothing else.
pub proof fn lemma_bootstrapped_stays_quiet(
    calls: Seq<(Snapshot, Option<EventQueueItem>)>,
    i: int,
)
    requires
        0 <= i < calls.len(),
    ensures
        run(true, calls).len() == calls.len(),
        run(true, calls)[i] == live_events(calls[i].1),
    decreases calls.len(),
{
    if calls.len() > 1 {
        if i > 0 {
            lemma_bootstrapped_stays_quiet(calls.drop_first(), i - 1);
        } else {
            lemma_bootstrapped_stays_quiet(calls.drop_first(), 0);
        }
    } else {
        assert(run(true, calls.drop_first()).len() == 0);
    }
}

/// A window whose attributes cannot be read costs that window and no other:
/// the windows before and after it are found as if it were not listed, in
/// their order, and the failure is recorded between theirs.
pub proof fn lemma_failed_query_costs_one_window(
    before: Seq<WindowProbe>,
    failed: WindowProbe,
    after: Seq<WindowProbe>,
)
    requires
        failed.query_failed(),
    ensures
        managed_windows(before + seq![failed] + after) == managed_windows(before) + managed_windows(
            after,
        ),
        failed_queries(before + seq![failed] + after) == failed_queries(before) + seq![
            QueryFailure::AttributeQueryFailed(failed.handle),
        ] + failed_queries(after),
{
    let managed = |p: WindowProbe| p.managed();
    let broken = |p: WindowProbe| p.query_failed();
    assert(before + seq![failed] =~= before.push(failed));
    lemma_managed_windows_push(before, failed);
    lemma_failed_queries_push(before, failed);
    Seq::filter_distributes_over_add(before.push(failed), after, managed);
    Seq::filter_distributes_over_add(before.push(failed), after, broken);
    assert(managed_windows(before + seq![failed] + after) =~= managed_windows(before)
        + managed_windows(after));
    assert(failed_queries(before.push(failed) + after) =~= failed_queries(before.push(failed))
        + failed_queries(after));
}

} // verus!
