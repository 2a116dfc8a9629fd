//! The cache refresh run: a walk over the paged repository listing whose
//! pages are persisted one batch at a time. The run decides; its driver
//! performs each action (fetch, persist, wait) and reports back the event.
use vstd::prelude::*;
use crate::db_client::DBUpdateEvent;
use crate::gh_client::{copy_cursor, RepoPageRead};

verus! {

/// Where a refresh run stands.
pub enum SyncPhase {
    /// waiting for the page that starts after `after`
    Fetching { after: Option<String> },
    /// waiting for `batch` to be committed; then the walk goes on from `next`
    /// after `delay` milliseconds
    Persisting { batch: Ghost<Seq<String>>, next: Option<String>, delay: Option<u64> },
    /// waiting out the rate limit before fetching the page after `cursor`
    Waiting { cursor: String },
    /// the last page has been handled
    Done,
    /// the run stopped on an error
    Failed,
}

/// What the driver reports after performing an action.
pub enum SyncEvent {
    PageFetched(RepoPageRead),
    FetchFailed,
    BatchPersisted,
    PersistFailed,
    WaitOver,
}

/// Why a run stopped early.
#[derive(PartialEq, Eq, Structural, Clone, Copy, Debug)]
pub enum SyncError {
    /// a page could not be fetched or read
    Fetch,
    /// a batch could not be committed
    Persist,
    /// the event does not answer the last action
    OutOfOrder,
}

/// What the driver must do next.
pub enum SyncAction {
    /// fetch the page that starts after the cursor (the first page for `None`)
    FetchPage(Option<String>),
    /// commit these names to the store as one transaction (insert or replace)
    PersistBatch(Vec<String>),
    /// sleep this many milliseconds
    Wait(u64),
    /// the run is complete
    Finish,
    /// the run is over with an error; committed batches stay
    Abort(SyncError),
}

/// A refresh run.
pub struct SyncRun {
    pub phase: SyncPhase,
}

/// Where the walk goes once a page is handled: it ends on the last page,
/// waits when the rate limit asks for it, and fetches the next page otherwise.
pub open spec fn after_page(next: Option<String>, delay: Option<u64>) -> (SyncPhase, SyncAction) {
    match next {
        None => (SyncPhase::Done, SyncAction::Finish),
        Some(c) => match delay {
            Some(d) => (SyncPhase::Waiting { cursor: c }, SyncAction::Wait(d)),
            None => (SyncPhase::Fetching { after: Some(c) }, SyncAction::FetchPage(Some(c))),
        },
    }
}

/// One step of a run. An empty page is skipped; a non-empty one is
/// persisted before the walk goes on; any failure ends the run.
pub open spec fn transition(phase: SyncPhase, event: SyncEvent) -> (SyncPhase, SyncAction) {
    match phase {
        SyncPhase::Fetching { .. } => match event {
            SyncEvent::PageFetched(p) => if p.repos@.len() == 0 {
                after_page(p.end_cursor, p.delay)
            } else {
                (
                    SyncPhase::Persisting { batch: Ghost(p.repos@), next: p.end_cursor, delay: p.delay },
                    SyncAction::PersistBatch(p.repos),
                )
            },
            SyncEvent::FetchFailed => (SyncPhase::Failed, SyncAction::Abort(SyncError::Fetch)),
            _ => (SyncPhase::Failed, SyncAction::Abort(SyncError::OutOfOrder)),
        },
        SyncPhase::Persisting { next, delay, .. } => match event {
            SyncEvent::BatchPersisted => after_page(next, delay),
            SyncEvent::PersistFailed => (SyncPhase::Failed, SyncAction::Abort(SyncError::Persist)),
            _ => (SyncPhase::Failed, SyncAction::Abort(SyncError::OutOfOrder)),
        },
        SyncPhase::Waiting { cursor } => match event {
            SyncEvent::WaitOver => (
                SyncPhase::Fetching { after: Some(cursor) },
                SyncAction::FetchPage(Some(cursor)),
            ),
            _ => (SyncPhase::Failed, SyncAction::Abort(SyncError::OutOfOrder)),
        },
        _ => (SyncPhase::Failed, SyncAction::Abort(SyncError::OutOfOrder)),
    }
}

/// The names that an event commits to the store: the pending batch when it
/// reports that batch persisted, none otherwise.
pub open spec fn committed_by(phase: SyncPhase, event: SyncEvent) -> Set<String> {
    match (phase, event) {
        (SyncPhase::Persisting { batch, .. }, SyncEvent::BatchPersisted) => batch@.to_set(),
        _ => Set::empty(),
    }
}

/// The store after one batch is committed: a table keyed by name, where a
/// name already present is replaced and never duplicated.
pub open spec fn store_after(store: Set<String>, batch: Seq<String>) -> Set<String> {
    store + batch.to_set()
}

/// The phase that a run reaches from `phase` through `events`.
pub open spec fn replay_phase(phase: SyncPhase, events: Seq<SyncEvent>) -> SyncPhase
    decreases events.len(),
{
    if events.len() == 0 {
        phase
    } else {
        replay_phase(transition(phase, events[0]).0, events.drop_first())
    }
}

/// The names that a run commits from `phase` through `events`.
pub open spec fn replay_stored(phase: SyncPhase, events: Seq<SyncEvent>) -> Set<String>
    decreases events.len(),
{
    if events.len() == 0 {
        Set::empty()
    } else {
        committed_by(phase, events[0]) + replay_stored(transition(phase, events[0]).0, events.drop_first())
    }
}

/// The actions that a run asks for from `phase` through `events`.
pub open spec fn replay_actions(phase: SyncPhase, events: Seq<SyncEvent>) -> Seq<SyncAction>
    decreases events.len(),
{
    if events.len() == 0 {
        Seq::empty()
    } else {
        seq![transition(phase, events[0]).1] + replay_actions(
            transition(phase, events[0]).0,
            events.drop_first(),
        )
    }
}

/// The events with which a driver answers the handling of page `p`: the
/// fetch, the commit of a non-empty batch, and the wait before a next page
/// when the rate limit asks for one.
pub open spec fn page_events(p: RepoPageRead) -> Seq<SyncEvent> {
    seq![SyncEvent::PageFetched(p)] + (if p.repos@.len() == 0 {
        Seq::empty()
    } else {
        seq![SyncEvent::BatchPersisted]
    }) + (if p.end_cursor is Some && p.delay is Some {
        seq![SyncEvent::WaitOver]
    } else {
        Seq::empty()
    })
}

fn next_after_page(next: Option<String>, delay: Option<u64>) -> (r: (SyncPhase, SyncAction))
    ensures
        r == after_page(next, delay),
{
    match next {
        None => (SyncPhase::Done, SyncAction::Finish),
        Some(c) => match delay {
            Some(d) => (SyncPhase::Waiting { cursor: c }, SyncAction::Wait(d)),
            None => {
                let c2 = c.clone();
                (SyncPhase::Fetching { after: Some(c) }, SyncAction::FetchPage(Some(c2)))
            },
        },
    }
}

impl SyncRun {
    /// A new run, which first asks for the first page.
    pub fn start() -> (r: (SyncRun, SyncAction))
        ensures
            r.0.phase == (SyncPhase::Fetching { after: None }),
            r.1 == SyncAction::FetchPage(None),
    {
        (SyncRun { phase: SyncPhase::Fetching { after: None } }, SyncAction::FetchPage(None))
    }

    /// Whether the run is over, complete or failed.
    pub fn is_over(&self) -> (r: bool)
        ensures
            r == (self.phase is Done || self.phase is Failed),
    {
        match self.phase {
            SyncPhase::Done => true,
            SyncPhase::Failed => true,
            _ => false,
        }
    }

    /// The progress signal that `event` raises: one for each batch that it
    /// reports committed, none for any other event.
    pub fn signal(&self, event: &SyncEvent) -> (r: Option<DBUpdateEvent>)
        ensures
            r is Some <==> (self.phase is Persisting && *event is BatchPersisted),
    {
        match (&self.phase, event) {
            (SyncPhase::Persisting { .. }, SyncEvent::BatchPersisted) => Some(DBUpdateEvent),
            _ => None,
        }
    }

    /// Takes the driver's report on the last action and returns the next one.
    pub fn step(&mut self, event: SyncEvent) -> (r: SyncAction)
        ensures
            (final(self).phase, r) == transition(old(self).phase, event),
    {
        let (phase, action) = match &self.phase {
            SyncPhase::Fetching { .. } => match event {
                SyncEvent::PageFetched(p) => if p.repos.len() == 0 {
                    next_after_page(p.end_cursor, p.delay)
                } else {
                    let batch = Ghost(p.repos@);
                    (
                        SyncPhase::Persisting { batch, next: p.end_cursor, delay: p.delay },
                        SyncAction::PersistBatch(p.repos),
                    )
                },
                SyncEvent::FetchFailed => (SyncPhase::Failed, SyncAction::Abort(SyncError::Fetch)),
                _ => (SyncPhase::Failed, SyncAction::Abort(SyncError::OutOfOrder)),
            },
            SyncPhase::Persisting { next, delay, .. } => match event {
                SyncEvent::BatchPersisted => next_after_page(copy_cursor(next), *delay),
                SyncEvent::PersistFailed => (SyncPhase::Failed, SyncAction::Abort(SyncError::Persist)),
                _ => (SyncPhase::Failed, SyncAction::Abort(SyncError::OutOfOrder)),
            },
            SyncPhase::Waiting { cursor } => match event {
                SyncEvent::WaitOver => (
                    SyncPhase::Fetching { after: Some(cursor.clone()) },
                    SyncAction::FetchPage(Some(cursor.clone())),
                ),
                _ => (SyncPhase::Failed, SyncAction::Abort(SyncError::OutOfOrder)),
            },
            _ => (SyncPhase::Failed, SyncAction::Abort(SyncError::OutOfOrder)),
        };
        self.phase = phase;
        action
    }
}

proof fn lemma_replay_one(phase: SyncPhase, e: SyncEvent)
    ensures
        replay_phase(phase, seq![e]) == transition(phase, e).0,
        replay_stored(phase, seq![e]) == committed_by(phase, e),
        replay_actions(phase, seq![e]) == seq![transition(phase, e).1],
{
    let s = seq![e];
    assert(s.drop_first() =~= Seq::<SyncEvent>::empty());
    assert(replay_phase(transition(phase, e).0, s.drop_first()) == transition(phase, e).0);
    assert(replay_stored(transition(phase, e).0, s.drop_first()) == Set::<String>::empty());
    assert(replay_actions(transition(phase, e).0, s.drop_first()) == Seq::<SyncAction>::empty());
    assert(committed_by(phase, e) + Set::<String>::empty() =~= committed_by(phase, e));
    assert(seq![transition(phase, e).1] + Seq::<SyncAction>::empty() =~= seq![
        transition(phase, e).1,
    ]);
}

proof fn lemma_replay_append(phase: SyncPhase, a: Seq<SyncEvent>, b: Seq<SyncEvent>)
    ensures
        replay_phase(phase, a + b) == replay_phase(replay_phase(phase, a), b),
        replay_stored(phase, a + b) == replay_stored(phase, a) + replay_stored(
            replay_phase(phase, a),
            b,
        ),
        replay_actions(phase, a + b) == replay_actions(phase, a) + replay_actions(
            replay_phase(phase, a),
            b,
        ),
    decreases a.len(),
{
    if a.len() == 0 {
        assert(a + b =~= b);
        assert(Set::<String>::empty() + replay_stored(phase, b) =~= replay_stored(phase, b));
        assert(Seq::<SyncAction>::empty() + replay_actions(phase, b) =~= replay_actions(phase, b));
    } else {
        let next = transition(phase, a[0]).0;
        assert((a + b)[0] == a[0]);
        assert((a + b).drop_first() =~= a.drop_first() + b);
        lemma_replay_append(next, a.drop_first(), b);
        let sa = replay_stored(next, a.drop_first());
        let sb = replay_stored(replay_phase(phase, a), b);
        assert(committed_by(phase, a[0]) + (sa + sb) =~= (committed_by(phase, a[0]) + sa) + sb);
        let xa = replay_actions(next, a.drop_first());
        let xb = replay_actions(replay_phase(phase, a), b);
        assert(seq![transition(phase, a[0]).1] + (xa + xb) =~= (seq![transition(phase, a[0]).1] + xa)
            + xb);
    }
}

/// Handling one page from a fetching run: the run commits exactly the
/// page's names, then ends on the last page and otherwise asks for the page
/// after the page's cursor.
proof fn lemma_page_handled(after: Option<String>, p: RepoPageRead)
    ensures
        replay_phase(SyncPhase::Fetching { after }, page_events(p)) == (match p.end_cursor {
            None => SyncPhase::Done,
            Some(c) => SyncPhase::Fetching { after: Some(c) },
        }),
        replay_stored(SyncPhase::Fetching { after }, page_events(p)) == p.repos@.to_set(),
        replay_actions(SyncPhase::Fetching { after }, page_events(p)).last() == (match p.end_cursor {
            None => SyncAction::Finish,
            Some(c) => SyncAction::FetchPage(Some(c)),
        }),
        forall|i: int|
            0 <= i < replay_actions(SyncPhase::Fetching { after }, page_events(p)).len() - 1
                ==> !(#[trigger] replay_actions(SyncPhase::Fetching { after }, page_events(p))[i] is FetchPage),
{
    let start = SyncPhase::Fetching { after };
    let e1: Seq<SyncEvent> = seq![SyncEvent::PageFetched(p)];
    let e2: Seq<SyncEvent> = if p.repos@.len() == 0 {
        Seq::empty()
    } else {
        seq![SyncEvent::BatchPersisted]
    };
    let e3: Seq<SyncEvent> = if p.end_cursor is Some && p.delay is Some {
        seq![SyncEvent::WaitOver]
    } else {
        Seq::empty()
    };
    assert(page_events(p) == e1 + e2 + e3);
    lemma_replay_one(start, SyncEvent::PageFetched(p));
    let ph1 = replay_phase(start, e1);
    lemma_replay_append(start, e1, e2);
    lemma_replay_append(start, e1 + e2, e3);
    let ph2 = replay_phase(start, e1 + e2);
    if p.repos@.len() == 0 {
        assert(p.repos@.to_set() =~= Set::<String>::empty());
        assert(e1 + e2 =~= e1);
        assert(committed_by(start, SyncEvent::PageFetched(p)) =~= Set::<String>::empty());
    } else {
        lemma_replay_one(ph1, SyncEvent::BatchPersisted);
        assert(Set::<String>::empty() + p.repos@.to_set() =~= p.repos@.to_set());
    }
    if p.end_cursor is Some && p.delay is Some {
        lemma_replay_one(ph2, SyncEvent::WaitOver);
        assert(p.repos@.to_set() + Set::<String>::empty() =~= p.repos@.to_set());
    } else {
        assert(e1 + e2 + e3 =~= e1 + e2);
        assert(replay_stored(ph2, e3) == Set::<String>::empty());
        assert(replay_stored(start, e1 + e2) + Set::<String>::empty() =~= replay_stored(start, e1 + e2));
        assert(replay_actions(start, e1 + e2) + Seq::<SyncAction>::empty() =~= replay_actions(start, e1 + e2));
    }
}

/// Pagination ends on the page that has no cursor: a run over a page that
/// points to a second page, and that second page, which points nowhere,
/// fetches the second page after the first one's cursor, commits the names
/// of both pages, asks for no third page and finishes.
pub proof fn lemma_two_page_walk(p1: RepoPageRead, p2: RepoPageRead)
    requires
        p1.end_cursor is Some,
        p2.end_cursor is None,
    ensures
        ({
            let start = SyncPhase::Fetching { after: None };
            let events = page_events(p1) + page_events(p2);
            let acts = replay_actions(start, events);
            &&& replay_phase(start, events) == SyncPhase::Done
            &&& replay_stored(start, events) == p1.repos@.to_set() + p2.repos@.to_set()
            &&& replay_actions(start, page_events(p1)).last() == SyncAction::FetchPage(p1.end_cursor)
            &&& acts.last() == SyncAction::Finish
            &&& forall|i: int|
                replay_actions(start, page_events(p1)).len() <= i < acts.len()
                    ==> !(#[trigger] acts[i] is FetchPage)
        }),
{
    let start = SyncPhase::Fetching { after: None };
    lemma_page_handled(None, p1);
    let mid = replay_phase(start, page_events(p1));
    lemma_page_handled(p1.end_cursor, p2);
    lemma_replay_append(start, page_events(p1), page_events(p2));
    let a1 = replay_actions(start, page_events(p1));
    let a2 = replay_actions(mid, page_events(p2));
    assert(a2.len() > 0) by {
        assert(page_events(p2).len() > 0);
        assert(page_events(p2)[0] == SyncEvent::PageFetched(p2));
    }
    assert forall|i: int| a1.len() <= i < (a1 + a2).len() implies !((a1 + a2)[i] is FetchPage) by {
        assert((a1 + a2)[i] == a2[i - a1.len()]);
    }
}

/// A failed commit ends the run with an error and keeps what was committed
/// before: when the second page of a walk cannot be persisted, the store
/// holds the first page's names alone and no further page is fetched.
pub proof fn lemma_persist_failure_keeps_earlier_pages(p1: RepoPageRead, p2: RepoPageRead)
    requires
        p1.end_cursor is Some,
        p2.repos@.len() > 0,
    ensures
        ({
            let start = SyncPhase::Fetching { after: None };
            let events = page_events(p1) + seq![SyncEvent::PageFetched(p2), SyncEvent::PersistFailed];
            &&& replay_phase(start, events) == SyncPhase::Failed
            &&& replay_stored(start, events) == p1.repos@.to_set()
            &&& replay_actions(start, events).last() == SyncAction::Abort(SyncError::Persist)
        }),
{
    let start = SyncPhase::Fetching { after: None };
    lemma_page_handled(None, p1);
    let mid = replay_phase(start, page_events(p1));
    let tail: Seq<SyncEvent> = seq![SyncEvent::PageFetched(p2), SyncEvent::PersistFailed];
    assert(tail =~= seq![SyncEvent::PageFetched(p2)] + seq![SyncEvent::PersistFailed]);
    lemma_replay_one(mid, SyncEvent::PageFetched(p2));
    let ph = transition(mid, SyncEvent::PageFetched(p2)).0;
    lemma_replay_one(ph, SyncEvent::PersistFailed);
    lemma_replay_append(mid, seq![SyncEvent::PageFetched(p2)], seq![SyncEvent::PersistFailed]);
    lemma_replay_append(start, page_events(p1), tail);
    assert(replay_stored(mid, tail) =~= Set::<String>::empty());
    assert(p1.repos@.to_set() + Set::<String>::empty() =~= p1.repos@.to_set());
}

/// Committing is an upsert: committing a batch again changes nothing, and a
/// name committed in two batches is held once, as one row.
pub proof fn lemma_upsert_idempotent(store: Set<String>, b1: Seq<String>, b2: Seq<String>, k: String)
    requires
        b1.contains(k),
        b2.contains(k),
    ensures
        store_after(store_after(store, b1), b1) == store_after(store, b1),
        store_after(store_after(store, b1), b2).contains(k),
        store_after(store_after(store, b1), b2).filter(|n: String| n == k) == set![k],
{
    assert(store_after(store_after(store, b1), b1) =~= store_after(store, b1));
    assert(b2.to_set().contains(k));
    assert(store_after(store_after(store, b1), b2).filter(|n: String| n == k) =~= set![k]);
}

} // verus!
