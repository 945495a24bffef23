//! The durable record of best completion percentages, one entry per
//! calendar day.
//!
//! [`ProgressHistory::add_entry`] performs the in-memory half of the
//! load-merge-sort-save cycle: merge the new entry into the list
//! (best-of-day: an existing entry for the same date is overwritten only by
//! a strictly greater percentage, otherwise the entry is appended), then
//! re-sort the whole list by percentage descending, ties broken by date
//! descending. Reading the list from durable storage and writing it back
//! are the caller's concern.

use vstd::prelude::*;

verus! {

/// A calendar day. Ordering is lexicographic on (year, month, day), which
/// is chronological order.
#[derive(Clone, Copy, PartialEq, Eq, Structural, Debug)]
pub struct Date {
    pub year: i32,
    pub month: u8,
    pub day: u8,
}

impl Date {
    /// A plausible calendar day: month and day in the ranges every
    /// calendar date satisfies.
    pub open spec fn wf(self) -> bool {
        &&& 1 <= self.month <= 12
        &&& 1 <= self.day <= 31
    }
}

/// Chronological order: `a` is on or before `b`.
pub open spec fn date_le(a: Date, b: Date) -> bool {
    if a.year != b.year {
        a.year < b.year
    } else if a.month != b.month {
        a.month < b.month
    } else {
        a.day <= b.day
    }
}

/// Executable chronological comparison.
pub fn date_le_exec(a: Date, b: Date) -> (r: bool)
    ensures
        r == date_le(a, b),
{
    if a.year != b.year {
        a.year < b.year
    } else if a.month != b.month {
        a.month < b.month
    } else {
        a.day <= b.day
    }
}

/// The best completion percentage recorded for one calendar day, in
/// thousandths of a percent.
#[derive(Clone, Copy, PartialEq, Eq, Structural, Debug)]
pub struct ProgressEntry {
    pub date: Date,
    pub percentage: u32,
}

/// The ledger order: greater percentages first, ties broken by later
/// dates first. `entry_leq(a, b)` says `a` may stand at or before `b`.
pub open spec fn entry_leq(a: ProgressEntry, b: ProgressEntry) -> bool {
    ||| a.percentage > b.percentage
    ||| (a.percentage == b.percentage && date_le(b.date, a.date))
}

/// Executable ledger-order comparison.
pub fn entry_leq_exec(a: &ProgressEntry, b: &ProgressEntry) -> (r: bool)
    ensures
        r == entry_leq(*a, *b),
{
    a.percentage > b.percentage || (a.percentage == b.percentage && date_le_exec(b.date, a.date))
}

/// Sorted by percentage descending, ties broken by date descending.
pub open spec fn entries_sorted(s: Seq<ProgressEntry>) -> bool {
    forall|i: int, j: int| 0 <= i < j < s.len() ==> entry_leq(s[i], s[j])
}

/// At most one entry per calendar day.
pub open spec fn unique_dates(s: Seq<ProgressEntry>) -> bool {
    forall|i: int, j: int| 0 <= i < j < s.len() ==> s[i].date != s[j].date
}

/// The index of the first entry dated `d` at or after position `i`, if any.
pub open spec fn find_date_from(s: Seq<ProgressEntry>, d: Date, i: int) -> Option<int>
    decreases s.len() - i,
{
    if i < 0 || i >= s.len() {
        None
    } else if s[i].date == d {
        Some(i)
    } else {
        find_date_from(s, d, i + 1)
    }
}

/// The index of the first entry dated `d`, if any.
pub open spec fn find_date(s: Seq<ProgressEntry>, d: Date) -> Option<int> {
    find_date_from(s, d, 0)
}

/// The list after merging `e`: the first entry with `e`'s date is
/// overwritten if `e`'s percentage is strictly greater, kept otherwise;
/// with no entry for that date, `e` is appended.
pub open spec fn merged_spec(s: Seq<ProgressEntry>, e: ProgressEntry) -> Seq<ProgressEntry> {
    match find_date(s, e.date) {
        Some(i) => if e.percentage > s[i].percentage {
            s.update(i, e)
        } else {
            s
        },
        None => s.push(e),
    }
}

/// The best percentage for `e.date` after merging `e` into `s`: the old
/// entry's percentage maxed with `e`'s, or `e`'s alone if the date is new.
pub open spec fn best_after(s: Seq<ProgressEntry>, e: ProgressEntry) -> u32 {
    match find_date(s, e.date) {
        Some(i) => if e.percentage > s[i].percentage {
            e.percentage
        } else {
            s[i].percentage
        },
        None => e.percentage,
    }
}

proof fn lemma_find_date_from_props(s: Seq<ProgressEntry>, d: Date, i: int)
    requires
        0 <= i,
    ensures
        match find_date_from(s, d, i) {
            Some(j) => i <= j < s.len() && s[j].date == d && (forall|k: int|
                i <= k < j ==> s[k].date != d),
            None => forall|k: int| i <= k < s.len() ==> s[k].date != d,
        },
    decreases s.len() - i,
{
    if i < s.len() && s[i].date != d {
        lemma_find_date_from_props(s, d, i + 1);
    }
}

/// What a successful or failed date lookup says of the list: a hit names
/// the first entry carrying that date, a miss says no entry carries it.
pub proof fn lemma_find_date_props(s: Seq<ProgressEntry>, d: Date)
    ensures
        match find_date(s, d) {
            Some(j) => 0 <= j < s.len() && s[j].date == d && (forall|k: int|
                0 <= k < j ==> s[k].date != d),
            None => forall|k: int| 0 <= k < s.len() ==> s[k].date != d,
        },
{
    lemma_find_date_from_props(s, d, 0);
}

proof fn lemma_merged_props(s: Seq<ProgressEntry>, e: ProgressEntry)
    requires
        unique_dates(s),
    ensures
        exists|k: int|
            0 <= k < merged_spec(s, e).len() && merged_spec(s, e)[k].date == e.date
                && #[trigger] merged_spec(s, e)[k].percentage == best_after(s, e),
        forall|k: int|
            0 <= k < merged_spec(s, e).len() && merged_spec(s, e)[k].date == e.date
                ==> #[trigger] merged_spec(s, e)[k].percentage == best_after(s, e),
        forall|k: int|
            0 <= k < merged_spec(s, e).len() && merged_spec(s, e)[k].date != e.date
                ==> s.contains(#[trigger] merged_spec(s, e)[k]),
        forall|k: int|
            0 <= k < s.len() && #[trigger] s[k].date != e.date ==> merged_spec(s, e).contains(
                s[k],
            ),
        unique_dates(merged_spec(s, e)),
{
    let m = merged_spec(s, e);
    lemma_find_date_props(s, e.date);
    match find_date(s, e.date) {
        Some(i) => {
            assert(s[i].date == e.date);
            assert(forall|k: int|
                0 <= k < s.len() && k != i ==> #[trigger] s[k].date != e.date) by {
                assert forall|k: int| 0 <= k < s.len() && k != i implies #[trigger] s[k].date
                    != e.date by {
                    if k < i {
                        assert(s[k].date != s[i].date);
                    } else {
                        assert(s[i].date != s[k].date);
                    }
                }
            }
            if e.percentage > s[i].percentage {
                assert(m == s.update(i, e));
                assert(m[i] == e);
                assert(forall|k: int| 0 <= k < m.len() && k != i ==> m[k] == s[k]);
                assert(m[i].percentage == best_after(s, e));
            } else {
                assert(m == s);
                assert(m[i].percentage == best_after(s, e));
            }
            assert forall|k: int| 0 <= k < s.len() && #[trigger] s[k].date != e.date implies m
                .contains(s[k]) by {
                assert(m[k] == s[k]);
            }
        },
        None => {
            assert(m == s.push(e));
            assert(m[s.len() as int] == e);
            assert(forall|k: int| 0 <= k < s.len() ==> m[k] == s[k]);
            assert(m[s.len() as int].percentage == best_after(s, e));
            assert forall|k: int| 0 <= k < s.len() && #[trigger] s[k].date != e.date implies m
                .contains(s[k]) by {
                assert(m[k] == s[k]);
            }
        },
    }
}

/// Best-of-day law: starting from a history with at most one entry per
/// date, any list holding exactly the entries merged with `e` — such as
/// the re-sorted list that `add_entry` leaves behind — has an entry for
/// `e`'s date whose percentage is the old best for that date maxed with
/// `e`'s percentage, every entry it holds for that date carries exactly
/// that percentage, and entries for all other dates are exactly those of
/// the old history.
pub proof fn lemma_best_of_day(s: Seq<ProgressEntry>, e: ProgressEntry, t: Seq<ProgressEntry>)
    requires
        unique_dates(s),
        t.to_multiset() == merged_spec(s, e).to_multiset(),
    ensures
        exists|i: int|
            0 <= i < t.len() && t[i].date == e.date && #[trigger] t[i].percentage == best_after(
                s,
                e,
            ),
        forall|i: int|
            0 <= i < t.len() && t[i].date == e.date ==> #[trigger] t[i].percentage == best_after(
                s,
                e,
            ),
        forall|i: int| 0 <= i < t.len() && #[trigger] t[i].date != e.date ==> s.contains(t[i]),
        forall|i: int| 0 <= i < s.len() && #[trigger] s[i].date != e.date ==> t.contains(s[i]),
        unique_dates(t),
{
    let m = merged_spec(s, e);
    lemma_merged_props(s, e);
    assert forall|i: int| 0 <= i < t.len() implies m.contains(#[trigger] t[i]) by {
        vstd::seq_lib::to_multiset_contains(t, t[i]);
        vstd::seq_lib::to_multiset_contains(m, t[i]);
        assert(t.contains(t[i]));
    }
    assert forall|k: int| 0 <= k < m.len() implies t.contains(#[trigger] m[k]) by {
        vstd::seq_lib::to_multiset_contains(t, m[k]);
        vstd::seq_lib::to_multiset_contains(m, m[k]);
        assert(m.contains(m[k]));
    }
    assert forall|i: int| 0 <= i < t.len() && t[i].date == e.date implies #[trigger] t[i].percentage
        == best_after(s, e) by {
        let k = choose|k: int| 0 <= k < m.len() && m[k] == t[i];
        assert(m[k].percentage == best_after(s, e));
    }
    let k0 = choose|k: int|
        0 <= k < m.len() && m[k].date == e.date && #[trigger] m[k].percentage == best_after(s, e);
    assert(t.contains(m[k0]));
    let i0 = choose|i: int| 0 <= i < t.len() && t[i] == m[k0];
    assert(t[i0].percentage == best_after(s, e));
    assert forall|i: int| 0 <= i < t.len() && #[trigger] t[i].date != e.date implies s.contains(
        t[i],
    ) by {
        let k = choose|k: int| 0 <= k < m.len() && m[k] == t[i];
        assert(s.contains(m[k]));
    }
    assert forall|i: int| 0 <= i < s.len() && #[trigger] s[i].date != e.date implies t.contains(
        s[i],
    ) by {
        let k = choose|k: int| 0 <= k < m.len() && m[k] == s[i];
        assert(t.contains(m[k]));
    }
    assert(m.no_duplicates()) by {
        assert forall|a: int, b: int|
            0 <= a < m.len() && 0 <= b < m.len() && a != b implies m[a] != m[b] by {
            if a < b {
                assert(m[a].date != m[b].date);
            } else {
                assert(m[b].date != m[a].date);
            }
        }
    }
    m.lemma_multiset_has_no_duplicates();
    t.lemma_multiset_has_no_duplicates_conv();
    assert forall|i: int, j: int| 0 <= i < j < t.len() implies t[i].date != t[j].date by {
        if t[i].date == t[j].date {
            if t[i] == t[j] {
                assert(false);
            } else {
                let k1 = choose|k: int| 0 <= k < m.len() && m[k] == t[i];
                let k2 = choose|k: int| 0 <= k < m.len() && m[k] == t[j];
                assert(m[k1].date == m[k2].date && k1 != k2);
                if k1 < k2 {
                    assert(m[k1].date != m[k2].date);
                }
                assert(false);
            }
        }
    }
}

/// The history of best completion percentages, ordered best-first.
pub struct ProgressHistory {
    pub entries: Vec<ProgressEntry>,
}

impl ProgressHistory {
    /// An empty history: the state before any progress was recorded, and
    /// the fallback when no durable record can be read.
    pub fn new() -> (h: ProgressHistory)
        ensures
            h.entries@ =~= Seq::<ProgressEntry>::empty(),
    {
        ProgressHistory { entries: Vec::new() }
    }

    /// The best `count` entries, in order: the prefix the leaderboard
    /// screen shows.
    pub fn top_entries(&self, count: usize) -> (r: Vec<ProgressEntry>)
        ensures
            r@ == self.entries@.subrange(0, vstd::math::min(count as int, self.entries@.len() as int)),
    {
        let mut r: Vec<ProgressEntry> = Vec::new();
        let n = if count < self.entries.len() {
            count
        } else {
            self.entries.len()
        };
        let mut i: usize = 0;
        while i < n
            invariant
                i <= n,
                n == vstd::math::min(count as int, self.entries@.len() as int),
                r@ == self.entries@.subrange(0, i as int),
            decreases n - i,
        {
            r.push(self.entries[i]);
            proof {
                assert(r@ =~= self.entries@.subrange(0, i + 1));
            }
            i += 1;
        }
        proof {
            assert(r@ =~= self.entries@.subrange(0, n as int));
        }
        r
    }

    /// Merges `new_entry` into the history (best-of-day) and re-sorts the
    /// whole list by percentage descending, ties by date descending.
    ///
    /// The resulting list holds exactly the merged entries, in sorted
    /// order.
    pub fn add_entry(&mut self, new_entry: ProgressEntry)
        ensures
            final(self).entries@.to_multiset() == merged_spec(
                old(self).entries@,
                new_entry,
            ).to_multiset(),
            final(self).entries@.len() == merged_spec(old(self).entries@, new_entry).len(),
            entries_sorted(final(self).entries@),
    {
        let ghost s0 = self.entries@;
        match find_entry_index(&self.entries, new_entry.date) {
            Some(i) => {
                if new_entry.percentage > self.entries[i].percentage {
                    self.entries[i] = new_entry;
                }
            },
            None => {
                self.entries.push(new_entry);
            },
        }
        assert(self.entries@ == merged_spec(s0, new_entry));
        let sorted = sorted_copy(&self.entries);
        self.entries = sorted;
    }
}

/// The index of the first entry dated `d`, if any.
fn find_entry_index(entries: &Vec<ProgressEntry>, d: Date) -> (r: Option<usize>)
    ensures
        match r {
            Some(i) => i < entries@.len() && find_date(entries@, d) == Some(i as int),
            None => find_date(entries@, d) is None,
        },
{
    let mut i: usize = 0;
    while i < entries.len()
        invariant
            i <= entries@.len(),
            find_date(entries@, d) == find_date_from(entries@, d, i as int),
        decreases entries@.len() - i,
    {
        if entries[i].date == d {
            return Some(i);
        }
        i += 1;
    }
    None
}

/// The index of a least entry (in ledger order) of a non-empty list.
fn min_entry_index(v: &Vec<ProgressEntry>) -> (m: usize)
    requires
        v@.len() > 0,
    ensures
        m < v@.len(),
        forall|j: int| 0 <= j < v@.len() ==> entry_leq(v@[m as int], v@[j]),
{
    let mut m: usize = 0;
    let mut i: usize = 1;
    while i < v.len()
        invariant
            m < i <= v@.len(),
            forall|j: int| 0 <= j < i ==> entry_leq(v@[m as int], v@[j]),
        decreases v@.len() - i,
    {
        if entry_leq_exec(&v[i], &v[m]) && !entry_leq_exec(&v[m], &v[i]) {
            let ghost m_old = m as int;
            m = i;
            assert forall|j: int| 0 <= j < i + 1 implies entry_leq(v@[m as int], v@[j]) by {
                if j < i {
                    assert(entry_leq(v@[m_old], v@[j]));
                }
            }
        } else {
            assert(entry_leq(v@[m as int], v@[i as int]));
        }
        i += 1;
    }
    m
}

/// A copy of the list, sorted by percentage descending, ties by date
/// descending, holding exactly the same entries.
fn sorted_copy(entries: &Vec<ProgressEntry>) -> (r: Vec<ProgressEntry>)
    ensures
        r@.to_multiset() == entries@.to_multiset(),
        r@.len() == entries@.len(),
        entries_sorted(r@),
{
    broadcast use vstd::seq_lib::group_to_multiset_ensures;
    broadcast use vstd::multiset::group_multiset_axioms;

    let mut rest: Vec<ProgressEntry> = entries.clone();
    let mut out: Vec<ProgressEntry> = Vec::new();
    assert(rest@ =~= entries@);
    assert(out@.to_multiset().add(rest@.to_multiset()) =~= entries@.to_multiset());
    while rest.len() > 0
        invariant
            out@.to_multiset().add(rest@.to_multiset()) == entries@.to_multiset(),
            out@.len() + rest@.len() == entries@.len(),
            entries_sorted(out@),
            forall|a: int, b: int|
                0 <= a < out@.len() && 0 <= b < rest@.len() ==> entry_leq(out@[a], rest@[b]),
        decreases rest@.len(),
    {
        let ghost out0 = out@;
        let ghost rest0 = rest@;
        let m = min_entry_index(&rest);
        let e = rest.remove(m);
        out.push(e);
        proof {
            rest0.remove_ensures(m as int);
            vstd::seq_lib::to_multiset_remove(rest0, m as int);
            vstd::seq_lib::to_multiset_build(out0, e);
            vstd::seq_lib::to_multiset_contains(rest0, e);
            assert(rest0.contains(rest0[m as int]));
            assert(out@.to_multiset().add(rest@.to_multiset()) =~= entries@.to_multiset());
        }
    }
    out
}

} // verus!
