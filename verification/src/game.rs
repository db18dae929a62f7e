//! Game session: the Setup / Playing / Won / Lost phase machine, the owned
//! navigation history, the time budget, and the coordination of
//! asynchronous page fetches through a monotonic generation counter that
//! lets stale results be discarded.
//!
//! The session itself performs no I/O: a navigation command reports, as a
//! generation ticket, whether a fetch must be performed for the current
//! location, and the caller later hands the outcome back through
//! `commit_fetch` or `commit_fetch_error`.

use vstd::prelude::*;

use crate::history::{History, HistoryView, current_of, hist_wf, visit_step};

verus! {

/// The phase the session is in, re-evaluated at every observation tick.
#[derive(Clone, Copy, Debug, PartialEq, Eq, Structural)]
pub enum Phase {
    /// The game was not started yet; the time budget may be configured.
    Setup,
    /// The timer runs and browsing is active.
    Playing,
    /// The current location matched the destination before time ran out.
    Won,
    /// The time budget was exhausted before the destination was reached.
    Lost,
}

/// Why a page lookup failed. The lookup itself is performed outside the
/// session; the outcome is handed back through `commit_fetch_error`.
#[derive(Clone, Copy, Debug, PartialEq, Eq, Structural)]
pub enum FetchError {
    /// The document does not exist or could not be found.
    Unavailable,
    /// The document was retrieved but could not be understood.
    Malformed,
    /// A transient I/O failure; retrying may succeed.
    Io,
}

/// A time budget outside the accepted range was proposed, or the game had
/// already started; the command was rejected and changed nothing.
#[derive(Clone, Copy, Debug, PartialEq, Eq, Structural)]
pub struct ConfigurationError;

/// A move past the bounds of the history was attempted; the command was
/// rejected and changed nothing.
#[derive(Clone, Copy, Debug, PartialEq, Eq, Structural)]
pub struct NavigationError;

/// A fetched page kept for re-use: its location, its content body, and the
/// titles of its outgoing links.
pub struct CachedPage {
    pub location: String,
    pub content: String,
    pub links: Vec<String>,
}

/// Mathematical model of a cached page.
#[verifier::ext_equal]
pub ghost struct PageView {
    pub location: Seq<char>,
    pub content: Seq<char>,
    pub links: Seq<Seq<char>>,
}

impl View for CachedPage {
    type V = PageView;

    open spec fn view(&self) -> PageView {
        PageView {
            location: self.location@,
            content: self.content@,
            links: self.links.deep_view(),
        }
    }
}

impl DeepView for CachedPage {
    type V = PageView;

    open spec fn deep_view(&self) -> PageView {
        self.view()
    }
}

/// Mathematical model of a `GameSession`.
#[verifier::ext_equal]
pub ghost struct SessionView {
    pub history: HistoryView,
    /// Time budget in seconds.
    pub budget: u64,
    pub destination: Option<Seq<char>>,
    pub started: bool,
    /// Set once, at the first observation in the Playing phase.
    pub start_time: Option<u64>,
    pub paused: bool,
    pub phase: Phase,
    pub content: Option<Seq<char>>,
    pub links: Option<Seq<Seq<char>>>,
    pub fetch_error: Option<FetchError>,
    pub cache: Seq<PageView>,
    /// Generation of the most recently issued fetch; zero before the first.
    pub generation: int,
    /// Whether the most recently issued fetch is still outstanding.
    pub pending: bool,
}

/// Some cached page records this location.
pub open spec fn cache_has(c: Seq<PageView>, loc: Seq<char>) -> bool {
    exists|i: int| 0 <= i < c.len() && (#[trigger] c[i]).location == loc
}

/// The cached page recording this location (meaningful when the locations
/// in the cache are distinct and one of them is `loc`).
pub open spec fn cache_entry(c: Seq<PageView>, loc: Seq<char>) -> PageView {
    c[choose|i: int| 0 <= i < c.len() && (#[trigger] c[i]).location == loc]
}

/// Record a page: replace the entry carrying the same location, or append.
pub open spec fn cache_insert(c: Seq<PageView>, e: PageView) -> Seq<PageView> {
    if cache_has(c, e.location) {
        c.update(choose|i: int| 0 <= i < c.len() && (#[trigger] c[i]).location == e.location, e)
    } else {
        c.push(e)
    }
}

/// Well-formedness of a session.
pub open spec fn session_wf(v: SessionView) -> bool {
    &&& hist_wf(v.history)
    &&& 60 <= v.budget <= 600
    &&& (v.paused <==> (v.phase == Phase::Won || v.phase == Phase::Lost))
    &&& (v.paused ==> v.started)
    &&& (v.started <==> v.destination is Some)
    &&& (match v.destination {
        Some(d) => d.len() > 0,
        None => true,
    })
    &&& (v.start_time is Some ==> v.started)
    &&& (v.started ==> v.history.cursor >= 0)
    &&& (!v.started ==> v.cache.len() == 0 && !v.pending && v.generation == 0)
    &&& (v.pending ==> v.started)
    &&& 0 <= v.generation
    &&& (forall|i: int, j: int|
        0 <= i < j < v.cache.len() ==> (#[trigger] v.cache[i]).location != (
        #[trigger] v.cache[j]).location)
}

/// The state a fresh session is in.
pub open spec fn initial_session() -> SessionView {
    SessionView {
        history: HistoryView { entries: Seq::empty(), cursor: -1 },
        budget: 120,
        destination: None,
        started: false,
        start_time: None,
        paused: false,
        phase: Phase::Setup,
        content: None,
        links: None,
        fetch_error: None,
        cache: Seq::empty(),
        generation: 0,
        pending: false,
    }
}

/// The time budget has run out at `now`: the timer was started and at
/// least `budget` seconds have passed since.
pub open spec fn expired(v: SessionView, now: u64) -> bool {
    match v.start_time {
        Some(t) => now >= t + v.budget,
        None => false,
    }
}

/// The destination is determined and is the current location.
pub open spec fn at_destination(v: SessionView) -> bool {
    match v.destination {
        Some(d) => current_of(v.history) == d,
        None => false,
    }
}

/// A history holding `loc` as its only entry, with the cursor on it.
pub open spec fn reseeded(loc: Seq<char>) -> HistoryView {
    HistoryView { entries: Seq::empty().push(loc), cursor: 0 }
}

/// One observation tick: the phase transition function, in priority order.
/// A paused session stays exactly as it is; an expired timer loses before
/// a reached destination wins; an unstarted session shows Setup; otherwise
/// the session plays, starting the timer at the first such observation.
/// Entering a terminal phase reseeds the history with its closing entry
/// and pauses the session.
pub open spec fn observe_spec(v: SessionView, now: u64) -> SessionView {
    if v.paused {
        v
    } else if v.started && expired(v, now) {
        SessionView {
            phase: Phase::Lost,
            paused: true,
            history: reseeded(current_of(v.history)),
            ..v
        }
    } else if v.started && at_destination(v) {
        SessionView {
            phase: Phase::Won,
            paused: true,
            history: reseeded(match v.destination {
                Some(d) => d,
                None => current_of(v.history),
            }),
            ..v
        }
    } else if !v.started {
        SessionView { phase: Phase::Setup, ..v }
    } else {
        SessionView {
            phase: Phase::Playing,
            start_time: match v.start_time {
                Some(t) => Some(t),
                None => Some(now),
            },
            ..v
        }
    }
}

/// The session after the history changed to `h2` by a navigation command:
/// when the new current location is cached its page is shown at once and
/// any outstanding fetch is superseded; otherwise a fetch for it is issued
/// under the next generation and the shown content stays as it was.
pub open spec fn navigate_spec(v: SessionView, h2: HistoryView) -> SessionView {
    if cache_has(v.cache, current_of(h2)) {
        SessionView {
            history: h2,
            content: Some(cache_entry(v.cache, current_of(h2)).content),
            links: Some(cache_entry(v.cache, current_of(h2)).links),
            fetch_error: None,
            pending: false,
            ..v
        }
    } else {
        SessionView { history: h2, pending: true, generation: v.generation + 1, ..v }
    }
}

/// A commit under generation `g` is taken iff the most recent fetch is
/// still outstanding and `g` is its generation.
pub open spec fn commit_accepts(v: SessionView, g: int) -> bool {
    v.pending && g == v.generation
}

/// In a cache with distinct locations, the entry found at index `i` is the
/// one `cache_entry` denotes for its location.
proof fn lemma_cache_entry_at(c: Seq<PageView>, i: int)
    requires
        forall|a: int, b: int|
            0 <= a < b < c.len() ==> (#[trigger] c[a]).location != (#[trigger] c[b]).location,
        0 <= i < c.len(),
    ensures
        cache_has(c, c[i].location),
        cache_entry(c, c[i].location) == c[i],
        (choose|k: int| 0 <= k < c.len() && (#[trigger] c[k]).location == c[i].location) == i,
{
    let loc = c[i].location;
    assert(0 <= i < c.len() && c[i].location == loc);
    let k = choose|k: int| 0 <= k < c.len() && (#[trigger] c[k]).location == loc;
    if k < i {
        assert(c[k].location != c[i].location);
        assert(false);
    } else if k > i {
        assert(c[i].location != c[k].location);
        assert(false);
    }
}

/// Find the index of the cached page for `loc`, if one exists.
fn find_cached(cache: &Vec<CachedPage>, loc: &String) -> (r: Option<usize>)
    ensures
        match r {
            Some(i) => 0 <= i < cache@.len() && cache.deep_view()[i as int].location == loc@,
            None => !cache_has(cache.deep_view(), loc@),
        },
{
    let n = cache.len();
    let mut i: usize = 0;
    while i < n
        invariant
            n == cache@.len(),
            i <= n,
            forall|j: int| 0 <= j < i ==> (#[trigger] cache.deep_view()[j]).location != loc@,
        decreases n - i,
    {
        if cache[i].location == *loc {
            proof {
                assert(cache.deep_view()[i as int].location == loc@);
            }
            return Some(i);
        }
        proof {
            assert(cache.deep_view()[i as int].location != loc@);
        }
        i = i + 1;
    }
    None
}

/// Duplicate a list of link titles, preserving its contents.
fn clone_links(v: &Vec<String>) -> (r: Vec<String>)
    ensures
        r.deep_view() == v.deep_view(),
{
    let r = v.clone();
    proof {
        assert forall|i: int| 0 <= i < v@.len() implies r@[i] == v@[i] by {
            assert(cloned::<String>(v@[i], r@[i]));
        }
        assert(r@ =~= v@);
        assert(r.deep_view() =~= v.deep_view());
    }
    r
}

/// The top-level state of one game: phases, time budget, destination, the
/// owned history, the latest fetched page, and the fetch bookkeeping.
pub struct GameSession {
    history: History,
    total_time: u64,
    destination: Option<String>,
    started: bool,
    start_time: Option<u64>,
    paused: bool,
    phase: Phase,
    content: Option<String>,
    links: Option<Vec<String>>,
    fetch_error: Option<FetchError>,
    cache: Vec<CachedPage>,
    generation: u64,
    pending: bool,
}

impl View for GameSession {
    type V = SessionView;

    closed spec fn view(&self) -> SessionView {
        SessionView {
            history: self.history@,
            budget: self.total_time,
            destination: self.destination.deep_view(),
            started: self.started,
            start_time: self.start_time,
            paused: self.paused,
            phase: self.phase,
            content: self.content.deep_view(),
            links: self.links.deep_view(),
            fetch_error: self.fetch_error,
            cache: self.cache.deep_view(),
            generation: self.generation as int,
            pending: self.pending,
        }
    }
}

impl GameSession {
    /// A fresh session in the Setup phase with the default time budget.
    pub fn new() -> (s: GameSession)
        ensures
            s@ == initial_session(),
            session_wf(s@),
    {
        let s = GameSession {
            history: History::empty(),
            total_time: 120,
            destination: None,
            started: false,
            start_time: None,
            paused: false,
            phase: Phase::Setup,
            content: None,
            links: None,
            fetch_error: None,
            cache: Vec::new(),
            generation: 0,
            pending: false,
        };
        proof {
            assert(s@ =~~= initial_session());
        }
        s
    }

    /// Discard the session and begin again from a fresh Setup phase.
    pub fn restart(&mut self)
        ensures
            final(self)@ == initial_session(),
            session_wf(final(self)@),
    {
        *self = GameSession::new();
    }

    /// Set the time budget, in seconds. Rejected, leaving the previous
    /// budget (and everything else) unchanged, when the budget lies
    /// outside `[60, 600]` or the game has already started.
    pub fn configure_time_budget(&mut self, seconds: u64) -> (r: Result<(), ConfigurationError>)
        requires
            session_wf(old(self)@),
        ensures
            session_wf(final(self)@),
            r is Ok <==> (60 <= seconds <= 600 && !old(self)@.started),
            r is Ok ==> final(self)@ == (SessionView { budget: seconds, ..old(self)@ }),
            r is Err ==> *final(self) == *old(self),
    {
        if seconds >= 60 && seconds <= 600 && !self.started {
            self.total_time = seconds;
            Ok(())
        } else {
            Err(ConfigurationError)
        }
    }

    /// One observation tick at time `now` (seconds): apply the phase
    /// transition function and report the phase. A session that has
    /// entered Won or Lost is paused and never changes again.
    pub fn observe(&mut self, now: u64) -> (p: Phase)
        requires
            session_wf(old(self)@),
        ensures
            session_wf(final(self)@),
            final(self)@ == observe_spec(old(self)@, now),
            p == final(self)@.phase,
    {
        if self.paused {
            return self.phase;
        }
        let mut expired_now = false;
        if self.started {
            if let Some(t) = self.start_time {
                if now >= t && now - t >= self.total_time {
                    expired_now = true;
                }
            }
        }
        if expired_now {
            let cur = self.history.url();
            self.history.clean();
            self.history.new_next(cur.as_str());
            self.paused = true;
            self.phase = Phase::Lost;
            proof {
                assert(self@ =~~= observe_spec(old(self)@, now));
            }
            return Phase::Lost;
        }
        let mut won_now = false;
        match &self.destination {
            Some(d) => {
                if self.started {
                    let cur = self.history.url();
                    if cur == *d {
                        self.history.clean();
                        self.history.new_next(d.as_str());
                        won_now = true;
                    }
                }
            },
            None => {},
        }
        if won_now {
            self.paused = true;
            self.phase = Phase::Won;
            proof {
                assert(self@ =~~= observe_spec(old(self)@, now));
            }
            return Phase::Won;
        }
        if !self.started {
            self.phase = Phase::Setup;
            proof {
                assert(self@ =~~= observe_spec(old(self)@, now));
            }
            return Phase::Setup;
        }
        if self.start_time.is_none() {
            self.start_time = Some(now);
        }
        self.phase = Phase::Playing;
        proof {
            assert(self@ =~~= observe_spec(old(self)@, now));
        }
        Phase::Playing
    }

    /// Begin the game: record the destination, mark the session started,
    /// visit the starting location and issue the fetch for it. The choice
    /// of the two locations is the caller's (random start, depth-bounded
    /// destination). Returns the generation of the issued fetch.
    pub fn start_game(&mut self, start: &str, destination: &str) -> (g: u64)
        requires
            session_wf(old(self)@),
            !old(self)@.started,
            start@.len() > 0,
            destination@.len() > 0,
        ensures
            session_wf(final(self)@),
            final(self)@ == (SessionView {
                started: true,
                destination: Some(destination@),
                history: visit_step(old(self)@.history, start@),
                pending: true,
                generation: old(self)@.generation + 1,
                ..old(self)@
            }),
            g == old(self)@.generation + 1,
    {
        self.destination = Some(destination.to_owned());
        self.started = true;
        self.history.new_next(start);
        self.pending = true;
        self.generation = self.generation + 1;
        proof {
            assert(self@ =~~= (SessionView {
                started: true,
                destination: Some(destination@),
                history: visit_step(old(self)@.history, start@),
                pending: true,
                generation: old(self)@.generation + 1,
                ..old(self)@
            }));
        }
        self.generation
    }

    /// Show the page for the location now under the cursor: from the cache
    /// when it is there (superseding any outstanding fetch), else by
    /// issuing a fetch for it under the next generation.
    fn show_current(&mut self) -> (t: Option<u64>)
        requires
            session_wf(old(self)@),
            old(self)@.started,
            old(self)@.generation < u64::MAX,
        ensures
            session_wf(final(self)@),
            final(self)@ == navigate_spec(old(self)@, old(self)@.history),
            t is Some <==> !cache_has(old(self)@.cache, current_of(old(self)@.history)),
            t matches Some(g) ==> g == old(self)@.generation + 1,
    {
        let cur = self.history.url();
        let idx = find_cached(&self.cache, &cur);
        match idx {
            Some(i) => {
                proof {
                    lemma_cache_entry_at(self@.cache, i as int);
                }
                let e = &self.cache[i];
                self.content = Some(e.content.clone());
                self.links = Some(clone_links(&e.links));
                self.fetch_error = None;
                self.pending = false;
                proof {
                    assert(self@ =~~= navigate_spec(old(self)@, old(self)@.history));
                }
                None
            },
            None => {
                self.pending = true;
                self.generation = self.generation + 1;
                proof {
                    assert(self@ =~~= navigate_spec(old(self)@, old(self)@.history));
                }
                Some(self.generation)
            },
        }
    }

    /// Browse to `link`: record the visit (truncating forward history) and
    /// show its page. `Some(g)` asks the caller to perform the fetch with
    /// generation `g`; `None` means the page came from the cache.
    pub fn goto(&mut self, link: &str) -> (t: Option<u64>)
        requires
            session_wf(old(self)@),
            old(self)@.started,
            !old(self)@.paused,
            link@.len() > 0,
            old(self)@.generation < u64::MAX,
        ensures
            session_wf(final(self)@),
            final(self)@ == navigate_spec(old(self)@, visit_step(old(self)@.history, link@)),
            t is Some <==> !cache_has(old(self)@.cache, link@),
            t matches Some(g) ==> g == old(self)@.generation + 1,
    {
        self.history.new_next(link);
        proof {
            crate::history::lemma_visit_current(old(self)@.history, link@);
        }
        self.show_current()
    }

    /// Jump back to the first visited location, recorded as a genuine new
    /// history entry, and show its page as `goto` does.
    pub fn go_home(&mut self) -> (t: Option<u64>)
        requires
            session_wf(old(self)@),
            old(self)@.started,
            !old(self)@.paused,
            old(self)@.generation < u64::MAX,
        ensures
            session_wf(final(self)@),
            final(self)@ == navigate_spec(
                old(self)@,
                visit_step(old(self)@.history, old(self)@.history.entries[0]),
            ),
            t is Some <==> !cache_has(
                old(self)@.cache,
                current_of(visit_step(old(self)@.history, old(self)@.history.entries[0])),
            ),
            t matches Some(g) ==> g == old(self)@.generation + 1,
    {
        self.history.add_home();
        self.show_current()
    }

    /// Move one entry back in the history and show its page. Rejected,
    /// changing nothing, when there is no earlier entry.
    pub fn go_back(&mut self) -> (r: Result<Option<u64>, NavigationError>)
        requires
            session_wf(old(self)@),
            old(self)@.started,
            !old(self)@.paused,
            old(self)@.generation < u64::MAX,
        ensures
            session_wf(final(self)@),
            r is Err <==> old(self)@.history.cursor <= 0,
            r is Err ==> *final(self) == *old(self),
            r matches Ok(t) ==> {
                &&& final(self)@ == navigate_spec(
                    old(self)@,
                    (HistoryView { cursor: old(self)@.history.cursor - 1, ..old(self)@.history }),
                )
                &&& (t is Some <==> !cache_has(
                    old(self)@.cache,
                    old(self)@.history.entries[old(self)@.history.cursor - 1],
                ))
                &&& (t matches Some(g) ==> g == old(self)@.generation + 1)
            },
    {
        if self.history.is_first() {
            Err(NavigationError)
        } else {
            self.history.prev();
            Ok(self.show_current())
        }
    }

    /// Move one entry forward in the history and show its page. Rejected,
    /// changing nothing, when there is no later entry.
    pub fn go_forward(&mut self) -> (r: Result<Option<u64>, NavigationError>)
        requires
            session_wf(old(self)@),
            old(self)@.started,
            !old(self)@.paused,
            old(self)@.generation < u64::MAX,
        ensures
            session_wf(final(self)@),
            r is Err <==> !(0 <= old(self)@.history.cursor < old(self)@.history.entries.len() - 1),
            r is Err ==> *final(self) == *old(self),
            r matches Ok(t) ==> {
                &&& final(self)@ == navigate_spec(
                    old(self)@,
                    (HistoryView { cursor: old(self)@.history.cursor + 1, ..old(self)@.history }),
                )
                &&& (t is Some <==> !cache_has(
                    old(self)@.cache,
                    old(self)@.history.entries[old(self)@.history.cursor + 1],
                ))
                &&& (t matches Some(g) ==> g == old(self)@.generation + 1)
            },
    {
        if self.history.is_last() {
            Err(NavigationError)
        } else {
            self.history.next();
            Ok(self.show_current())
        }
    }

    /// Commit the successful outcome of the fetch issued under
    /// `generation`: taken iff that fetch is still the outstanding one,
    /// it stores content and links together, clears any error, and records
    /// the page in the cache. A stale or duplicate commit is discarded and
    /// changes nothing.
    pub fn commit_fetch(
        &mut self,
        generation: u64,
        location: &str,
        content: String,
        links: Vec<String>,
    ) -> (accepted: bool)
        requires
            session_wf(old(self)@),
        ensures
            session_wf(final(self)@),
            accepted <==> commit_accepts(old(self)@, generation as int),
            accepted ==> final(self)@ == (SessionView {
                pending: false,
                content: Some(content@),
                links: Some(links.deep_view()),
                fetch_error: None,
                cache: cache_insert(
                    old(self)@.cache,
                    (PageView {
                        location: location@,
                        content: content@,
                        links: links.deep_view(),
                    }),
                ),
                ..old(self)@
            }),
            !accepted ==> *final(self) == *old(self),
    {
        if !self.pending || generation != self.generation {
            return false;
        }
        self.pending = false;
        let page = CachedPage {
            location: location.to_owned(),
            content: content.clone(),
            links: clone_links(&links),
        };
        self.content = Some(content);
        self.links = Some(links);
        self.fetch_error = None;
        let idx = find_cached(&self.cache, &page.location);
        match idx {
            Some(i) => {
                proof {
                    lemma_cache_entry_at(self@.cache, i as int);
                }
                self.cache[i] = page;
                proof {
                    assert(self@.cache =~~= cache_insert(old(self)@.cache, (PageView {
                        location: location@,
                        content: content@,
                        links: links.deep_view(),
                    })));
                }
            },
            None => {
                self.cache.push(page);
                proof {
                    assert(self@.cache =~~= cache_insert(old(self)@.cache, (PageView {
                        location: location@,
                        content: content@,
                        links: links.deep_view(),
                    })));
                }
            },
        }
        proof {
            assert(self@ =~~= (SessionView {
                pending: false,
                content: Some(content@),
                links: Some(links.deep_view()),
                fetch_error: None,
                cache: cache_insert(old(self)@.cache, (PageView {
                    location: location@,
                    content: content@,
                    links: links.deep_view(),
                })),
                ..old(self)@
            }));
        }
        true
    }

    /// Commit the failed outcome of the fetch issued under `generation`:
    /// taken iff that fetch is still the outstanding one. The error
    /// becomes visible while content and links stay as they were — neither
    /// half of a result is ever committed alone. A stale or duplicate
    /// report is discarded and changes nothing.
    pub fn commit_fetch_error(&mut self, generation: u64, error: FetchError) -> (accepted: bool)
        requires
            session_wf(old(self)@),
        ensures
            session_wf(final(self)@),
            accepted <==> commit_accepts(old(self)@, generation as int),
            accepted ==> final(self)@ == (SessionView {
                pending: false,
                fetch_error: Some(error),
                ..old(self)@
            }),
            !accepted ==> *final(self) == *old(self),
    {
        if !self.pending || generation != self.generation {
            return false;
        }
        self.pending = false;
        self.fetch_error = Some(error);
        proof {
            assert(self@ =~~= (SessionView {
                pending: false,
                fetch_error: Some(error),
                ..old(self)@
            }));
        }
        true
    }
}

/// The seconds still left at time `now`: the full budget while the timer
/// has not started, zero once the budget is used up.
pub open spec fn remaining_spec(v: SessionView, now: u64) -> u64 {
    match v.start_time {
        None => v.budget,
        Some(t) => if now <= t {
            v.budget
        } else if now - t >= v.budget {
            0u64
        } else {
            (v.budget - (now - t)) as u64
        },
    }
}

impl GameSession {
    /// The phase chosen by the most recent observation.
    pub fn phase(&self) -> (p: Phase)
        ensures
            p == self@.phase,
    {
        self.phase
    }

    /// The location under the history cursor, or `"?"` before any visit.
    pub fn current_location(&self) -> (r: String)
        requires
            session_wf(self@),
        ensures
            r@ == current_of(self@.history),
    {
        self.history.url()
    }

    /// The destination, once determined.
    pub fn destination(&self) -> (r: Option<String>)
        ensures
            r.deep_view() == self@.destination,
    {
        match &self.destination {
            Some(d) => Some(d.clone()),
            None => None,
        }
    }

    /// The configured time budget, in seconds.
    pub fn time_budget(&self) -> (r: u64)
        ensures
            r == self@.budget,
    {
        self.total_time
    }

    /// The seconds still left at time `now`.
    pub fn remaining_time(&self, now: u64) -> (r: u64)
        ensures
            r == remaining_spec(self@, now),
    {
        match self.start_time {
            None => self.total_time,
            Some(t) => {
                if now <= t {
                    self.total_time
                } else if now - t >= self.total_time {
                    0
                } else {
                    self.total_time - (now - t)
                }
            },
        }
    }

    /// The body of the most recently committed page, if any.
    pub fn fetched_content(&self) -> (r: Option<String>)
        ensures
            r.deep_view() == self@.content,
    {
        match &self.content {
            Some(c) => Some(c.clone()),
            None => None,
        }
    }

    /// The outgoing links of the most recently committed page, if any.
    pub fn fetched_links(&self) -> (r: Option<Vec<String>>)
        ensures
            r.deep_view() == self@.links,
    {
        match &self.links {
            Some(l) => Some(clone_links(l)),
            None => None,
        }
    }

    /// The error of the most recent failed fetch, until a later success
    /// or cache hit clears it.
    pub fn fetch_error(&self) -> (r: Option<FetchError>)
        ensures
            r == self@.fetch_error,
    {
        self.fetch_error
    }

    /// Whether the game has been started.
    pub fn is_started(&self) -> (r: bool)
        ensures
            r == self@.started,
    {
        self.started
    }

    /// Whether the most recently issued fetch is still outstanding.
    pub fn is_fetch_pending(&self) -> (r: bool)
        ensures
            r == self@.pending,
    {
        self.pending
    }

    /// The generation of the most recently issued fetch, zero before the
    /// first.
    pub fn current_generation(&self) -> (r: u64)
        ensures
            r as int == self@.generation,
    {
        self.generation
    }
}

/// Once a terminal phase was entered the session is paused and every later
/// observation leaves it exactly as it is: repeated observation of a lost
/// game stays Lost, and a win is never re-judged as a loss however late it
/// is observed.
pub proof fn lemma_terminal_observation_stable(v: SessionView, now: u64)
    requires
        v.paused,
    ensures
        observe_spec(v, now) == v,
{
}

/// A playing session whose timer has expired is judged Lost and paused by
/// the next observation.
pub proof fn lemma_expiry_is_lost(v: SessionView, now: u64)
    requires
        !v.paused,
        v.started,
        expired(v, now),
    ensures
        observe_spec(v, now).phase == Phase::Lost,
        observe_spec(v, now).paused,
{
}

/// A playing session standing at its destination is judged Won and paused
/// by the next observation, provided the timer has not expired: expiry
/// takes priority.
pub proof fn lemma_destination_reached_is_won(v: SessionView, now: u64)
    requires
        !v.paused,
        v.started,
        !expired(v, now),
        at_destination(v),
    ensures
        observe_spec(v, now).phase == Phase::Won,
        observe_spec(v, now).paused,
{
}

/// A commit whose generation is older than the most recently issued fetch,
/// or whose fetch is no longer outstanding (for instance because a newer
/// generation has already committed), is discarded.
pub proof fn lemma_stale_commit_rejected(v: SessionView, g: int)
    requires
        g < v.generation || !v.pending,
    ensures
        !commit_accepts(v, g),
{
}

} // verus!

