//! Navigation history: an ordered log of visited locations with a movable
//! cursor. Browsing to a new location truncates any forward history beyond
//! the cursor; re-visiting the location already at the cursor is a no-op.

use vstd::prelude::*;

verus! {

/// Mathematical model of a `History`: the recorded locations (each a
/// sequence of characters) and the cursor, `-1` when nothing was visited.
#[verifier::ext_equal]
pub ghost struct HistoryView {
    pub entries: Seq<Seq<char>>,
    pub cursor: int,
}

/// Well-formedness: the cursor stays in `[-1, entries.len() - 1]`, `-1`
/// marks exactly the unvisited state, and every recorded location is
/// non-empty.
pub open spec fn hist_wf(v: HistoryView) -> bool {
    &&& -1 <= v.cursor < v.entries.len()
    &&& (v.cursor == -1 <==> v.entries.len() == 0)
    &&& (forall|i: int| 0 <= i < v.entries.len() ==> #[trigger] v.entries[i].len() > 0)
}

/// The location under the cursor, or the sentinel `"?"` when nothing was
/// visited yet.
pub open spec fn current_of(v: HistoryView) -> Seq<char> {
    if v.cursor >= 0 {
        v.entries[v.cursor]
    } else {
        "?"@
    }
}

/// One visit: a no-op when `loc` is already under the cursor, otherwise the
/// entries after the cursor are dropped and `loc` is appended, with the
/// cursor moved onto it.
pub open spec fn visit_step(v: HistoryView, loc: Seq<char>) -> HistoryView {
    if v.cursor >= 0 && v.entries[v.cursor] == loc {
        v
    } else {
        HistoryView { entries: v.entries.take(v.cursor + 1).push(loc), cursor: v.cursor + 1 }
    }
}

/// A whole sequence of visits, first element first.
pub open spec fn visit_all(v: HistoryView, locs: Seq<Seq<char>>) -> HistoryView
    decreases locs.len(),
{
    if locs.len() == 0 {
        v
    } else {
        visit_all(visit_step(v, locs[0]), locs.drop_first())
    }
}

/// One visit preserves well-formedness and leaves the visited location
/// under the cursor.
pub proof fn lemma_visit_current(v: HistoryView, loc: Seq<char>)
    requires
        hist_wf(v),
        loc.len() > 0,
    ensures
        hist_wf(visit_step(v, loc)),
        current_of(visit_step(v, loc)) == loc,
        visit_step(v, loc).cursor >= 0,
{
    if v.cursor >= 0 && v.entries[v.cursor] == loc {
    } else {
        let w = visit_step(v, loc);
        assert(w.entries.len() == v.cursor + 2);
        assert(w.entries[v.cursor + 1] == loc);
        assert(forall|i: int|
            0 <= i < w.entries.len() ==> #[trigger] w.entries[i].len() > 0) by {
            assert(forall|i: int|
                0 <= i <= v.cursor ==> #[trigger] w.entries[i] == v.entries[i]);
        }
    }
}

/// After any non-empty sequence of visits the current location is the last
/// location visited: a repeat of the location already under the cursor is
/// absorbed, and a distinct one becomes the new cursor entry.
pub proof fn lemma_visit_all_current(v: HistoryView, locs: Seq<Seq<char>>)
    requires
        hist_wf(v),
        locs.len() > 0,
        forall|i: int| 0 <= i < locs.len() ==> #[trigger] locs[i].len() > 0,
    ensures
        hist_wf(visit_all(v, locs)),
        current_of(visit_all(v, locs)) == locs.last(),
    decreases locs.len(),
{
    lemma_visit_current(v, locs[0]);
    if locs.len() == 1 {
        assert(visit_all(visit_step(v, locs[0]), locs.drop_first())
            == visit_step(v, locs[0]));
    } else {
        lemma_visit_all_current(visit_step(v, locs[0]), locs.drop_first());
        assert(locs.drop_first().last() == locs.last());
    }
}

/// Visiting the same location twice in a row changes nothing beyond the
/// first visit.
pub proof fn lemma_visit_idempotent(v: HistoryView, loc: Seq<char>)
    requires
        hist_wf(v),
        loc.len() > 0,
    ensures
        visit_step(visit_step(v, loc), loc) == visit_step(v, loc),
{
    lemma_visit_current(v, loc);
    let w = visit_step(v, loc);
    assert(w.entries[w.cursor] == loc);
}

/// A cursor-addressed log of the locations the player has browsed to.
pub struct History {
    entries: Vec<String>,
    // Position of the cursor counted from one; zero means unvisited.
    pos: usize,
}

impl View for History {
    type V = HistoryView;

    closed spec fn view(&self) -> HistoryView {
        HistoryView { entries: self.entries.deep_view(), cursor: self.pos - 1 }
    }
}

impl History {
    /// A fresh history: no entries, cursor at the unvisited sentinel.
    pub fn empty() -> (h: History)
        ensures
            h@ == (HistoryView { entries: Seq::empty(), cursor: -1 }),
            hist_wf(h@),
    {
        let h = History { entries: Vec::new(), pos: 0 };
        proof {
            assert(h@ =~~= (HistoryView { entries: Seq::empty(), cursor: -1 }));
        }
        h
    }

    /// True when the cursor is on the first entry or nothing was visited:
    /// retreating is not possible.
    pub fn is_first(&self) -> (r: bool)
        ensures
            r == (self@.cursor <= 0),
    {
        self.pos <= 1
    }

    /// True when the cursor is on the final entry or nothing was visited:
    /// advancing is not possible.
    pub fn is_last(&self) -> (r: bool)
        requires
            hist_wf(self@),
        ensures
            r == (self@.cursor < 0 || self@.cursor == self@.entries.len() - 1),
    {
        self.pos == 0 || self.pos == self.entries.len()
    }

    /// Move the cursor one entry back; a no-op at the lower bound, so the
    /// cursor never leaves `[-1, entries.len() - 1]`.
    pub fn prev(&mut self)
        requires
            hist_wf(old(self)@),
        ensures
            hist_wf(final(self)@),
            old(self)@.cursor > 0 ==> final(self)@ == (HistoryView {
                cursor: old(self)@.cursor - 1,
                ..old(self)@
            }),
            old(self)@.cursor <= 0 ==> *final(self) == *old(self),
    {
        if self.pos > 1 {
            self.pos = self.pos - 1;
        }
    }

    /// Move the cursor one entry forward; a no-op at the upper bound, so
    /// the cursor never leaves `[-1, entries.len() - 1]`.
    pub fn next(&mut self)
        requires
            hist_wf(old(self)@),
        ensures
            hist_wf(final(self)@),
            (0 <= old(self)@.cursor < old(self)@.entries.len() - 1) ==> final(self)@
                == (HistoryView { cursor: old(self)@.cursor + 1, ..old(self)@ }),
            !(0 <= old(self)@.cursor < old(self)@.entries.len() - 1) ==> *final(self)
                == *old(self),
    {
        if !(self.pos == 0 || self.pos == self.entries.len()) {
            self.pos = self.pos + 1;
        }
    }

    /// Browse to `value`: drop the forward history and append it, unless it
    /// is already the entry under the cursor.
    pub fn new_next(&mut self, value: &str)
        requires
            hist_wf(old(self)@),
            value@.len() > 0,
        ensures
            hist_wf(final(self)@),
            final(self)@ == visit_step(old(self)@, value@),
    {
        proof {
            lemma_visit_current(old(self)@, value@);
        }
        let owned = value.to_owned();
        let repeat = self.pos > 0 && self.entries[self.pos - 1] == owned;
        if !repeat {
            self.entries.truncate(self.pos);
            self.entries.push(owned);
            self.pos = self.entries.len();
            proof {
                assert(self@.entries =~~= visit_step(old(self)@, value@).entries);
                assert(self@ =~~= visit_step(old(self)@, value@));
            }
        }
    }

    /// The location under the cursor, or the sentinel `"?"` when nothing
    /// was visited yet.
    pub fn url(&self) -> (r: String)
        requires
            hist_wf(self@),
        ensures
            r@ == current_of(self@),
            r@.len() > 0,
    {
        if self.pos == 0 {
            let r = "?".to_owned();
            proof {
                reveal_strlit("?");
            }
            r
        } else {
            proof {
                assert(self@.entries[self.pos - 1].len() > 0);
            }
            self.entries[self.pos - 1].clone()
        }
    }

    /// Jump back to the first visited location as a fresh navigation step:
    /// the jump is recorded through `new_next`, it is not a cursor rewind.
    /// A no-op when nothing was visited yet.
    pub fn add_home(&mut self)
        requires
            hist_wf(old(self)@),
        ensures
            hist_wf(final(self)@),
            old(self)@.cursor >= 0 ==> final(self)@ == visit_step(
                old(self)@,
                old(self)@.entries[0],
            ),
            old(self)@.cursor < 0 ==> *final(self) == *old(self),
    {
        if self.pos > 0 {
            proof {
                assert(self@.entries[0].len() > 0);
            }
            let home = self.entries[0].clone();
            self.new_next(home.as_str());
        }
    }

    /// Forget everything: no entries, cursor at the unvisited sentinel.
    pub fn clean(&mut self)
        ensures
            final(self)@ == (HistoryView { entries: Seq::empty(), cursor: -1 }),
            hist_wf(final(self)@),
    {
        self.entries.clear();
        self.pos = 0;
        proof {
            assert(self@ =~~= (HistoryView { entries: Seq::empty(), cursor: -1 }));
        }
    }
}

} // verus!

