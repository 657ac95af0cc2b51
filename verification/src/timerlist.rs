//! The timers of the event loop, kept in the order in which they fall due.
//!
//! Instants and intervals are counted in nanoseconds on the caller's
//! monotonic clock. An entry names its callback by a handle; whoever owns the
//! closures runs them when [`TimerList::run_ready`] hands the entries out.

use vstd::prelude::*;

verus! {

/// One scheduled callback.
#[derive(Clone, Copy, Debug, PartialEq, Eq)]
pub struct TimerEntry {
    /// The handle of the callback to run.
    pub callback: usize,
    /// The instant from which the callback is to run.
    pub due: u64,
    /// The time between a firing and the next instant at which it is due.
    pub interval: u64,
}

/// The timers, earliest first; of two that fall due together the one
/// inserted first comes first.
pub struct TimerList {
    pub timers: Vec<TimerEntry>,
}

/// How long after `now` something due at `due` has to wait: not at all if
/// that instant has passed.
pub open spec fn remaining(due: u64, now: u64) -> int {
    if due <= now {
        0
    } else {
        due - now
    }
}

/// No entry of `s` is due before one that stands in front of it.
pub open spec fn sorted_by_due(s: Seq<TimerEntry>) -> bool {
    forall|i: int, j: int| 0 <= i <= j < s.len() ==> s[i].due <= s[j].due
}

/// How many entries at the front of `s` are due at `now` or before.
pub open spec fn ready_prefix(s: Seq<TimerEntry>, now: u64) -> nat
    decreases s.len(),
{
    if s.len() > 0 && s[0].due <= now {
        1 + ready_prefix(s.subrange(1, s.len() as int), now)
    } else {
        0
    }
}

/// `s` with `entry` put behind every entry that is due no later than it.
pub open spec fn inserted(s: Seq<TimerEntry>, entry: TimerEntry) -> Seq<TimerEntry> {
    s.insert(ready_prefix(s, entry.due) as int, entry)
}

/// The entry as it is armed again after firing at `now`.
pub open spec fn rearm(entry: TimerEntry, now: u64) -> TimerEntry {
    TimerEntry { due: (now + entry.interval) as u64, ..entry }
}

/// `s` after each of `fired` has been armed again at `now` and put back, in
/// the order in which they fired.
pub open spec fn rearmed(s: Seq<TimerEntry>, fired: Seq<TimerEntry>, now: u64) -> Seq<TimerEntry>
    decreases fired.len(),
{
    if fired.len() == 0 {
        s
    } else {
        inserted(rearmed(s, fired.drop_last(), now), rearm(fired.last(), now))
    }
}

/// `delay` is the least time that any entry of `s` has to wait after `now`.
pub open spec fn is_min_remaining(s: Seq<TimerEntry>, now: u64, delay: int) -> bool {
    &&& exists|i: int| 0 <= i < s.len() && remaining(#[trigger] s[i].due, now) == delay
    &&& forall|i: int| 0 <= i < s.len() ==> delay <= remaining(#[trigger] s[i].due, now)
}

/// In a sorted list the ready entries are exactly the first `k`, where `k`
/// is any index that has only ready entries before it and none at it.
pub proof fn lemma_ready_prefix_is(s: Seq<TimerEntry>, now: u64, k: int)
    requires
        0 <= k <= s.len(),
        forall|i: int| 0 <= i < k ==> s[i].due <= now,
        k < s.len() ==> s[k].due > now,
    ensures
        ready_prefix(s, now) == k,
    decreases k,
{
    if k > 0 {
        let tail = s.subrange(1, s.len() as int);
        assert forall|i: int| 0 <= i < k - 1 implies tail[i].due <= now by {
            assert(tail[i] == s[i + 1]);
        }
        if k - 1 < tail.len() {
            assert(tail[k - 1] == s[k]);
        }
        lemma_ready_prefix_is(tail, now, k - 1);
    }
}

/// The ready entries of a sorted list are its first `ready_prefix` ones.
pub proof fn lemma_ready_prefix_splits(s: Seq<TimerEntry>, now: u64)
    requires
        sorted_by_due(s),
    ensures
        ready_prefix(s, now) <= s.len(),
        forall|i: int| 0 <= i < ready_prefix(s, now) ==> s[i].due <= now,
        forall|i: int| ready_prefix(s, now) <= i < s.len() ==> s[i].due > now,
    decreases s.len(),
{
    if s.len() > 0 && s[0].due <= now {
        let tail = s.subrange(1, s.len() as int);
        assert forall|i: int, j: int| 0 <= i <= j < tail.len() implies tail[i].due
            <= tail[j].due by {
            assert(tail[i] == s[i + 1]);
            assert(tail[j] == s[j + 1]);
        }
        lemma_ready_prefix_splits(tail, now);
        let k = ready_prefix(tail, now);
        assert forall|i: int| 0 <= i < k + 1 implies s[i].due <= now by {
            if i > 0 {
                assert(tail[i - 1] == s[i]);
            }
        }
        assert forall|i: int| k + 1 <= i < s.len() implies s[i].due > now by {
            assert(tail[i - 1] == s[i]);
        }
    } else if s.len() > 0 {
        assert forall|i: int| 0 <= i < s.len() implies s[i].due > now by {
            assert(s[0].due <= s[i].due);
        }
    }
}

/// Putting an entry into a sorted list leaves it sorted.
pub proof fn lemma_inserted_sorted(s: Seq<TimerEntry>, entry: TimerEntry)
    requires
        sorted_by_due(s),
    ensures
        sorted_by_due(inserted(s, entry)),
        inserted(s, entry).len() == s.len() + 1,
{
    lemma_ready_prefix_splits(s, entry.due);
    let k = ready_prefix(s, entry.due) as int;
    let t = inserted(s, entry);
    assert forall|i: int, j: int| 0 <= i <= j < t.len() implies t[i].due <= t[j].due by {
        if i < k {
            assert(t[i] == s[i]);
        } else if i > k {
            assert(t[i] == s[i - 1]);
        }
        if j < k {
            assert(t[j] == s[j]);
        } else if j > k {
            assert(t[j] == s[j - 1]);
        }
    }
}

/// Arming fired entries again leaves a sorted list sorted and adds one
/// entry for each.
pub proof fn lemma_rearmed_sorted(s: Seq<TimerEntry>, fired: Seq<TimerEntry>, now: u64)
    requires
        sorted_by_due(s),
    ensures
        sorted_by_due(rearmed(s, fired, now)),
        rearmed(s, fired, now).len() == s.len() + fired.len(),
    decreases fired.len(),
{
    if fired.len() > 0 {
        lemma_rearmed_sorted(s, fired.drop_last(), now);
        lemma_inserted_sorted(rearmed(s, fired.drop_last(), now), rearm(fired.last(), now));
    }
}

impl TimerList {
    /// The timers are kept in the order in which they fall due.
    pub open spec fn wf(self) -> bool {
        sorted_by_due(self.timers@)
    }

    /// Every timer that is ready at `now` can be armed again: the instant
    /// one interval after `now` can still be counted.
    pub open spec fn rearm_fits(self, now: u64) -> bool {
        forall|i: int|
            0 <= i < self.timers@.len() && (#[trigger] self.timers@[i]).due <= now ==> now
                + self.timers@[i].interval <= u64::MAX
    }

    /// A list without timers.
    pub fn new() -> (list: TimerList)
        ensures
            list.timers@ == Seq::<TimerEntry>::empty(),
            list.wf(),
    {
        TimerList { timers: Vec::new() }
    }

    /// The index of the first timer that falls due after `due`, or the
    /// number of timers if there is none.
    pub fn find_index_after(&self, due: u64) -> (idx: usize)
        requires
            self.wf(),
        ensures
            idx == ready_prefix(self.timers@, due),
            idx <= self.timers@.len(),
    {
        let mut idx: usize = 0;
        while idx < self.timers.len() && self.timers[idx].due <= due
            invariant
                idx <= self.timers@.len(),
                forall|i: int| 0 <= i < idx ==> self.timers@[i].due <= due,
            decreases self.timers@.len() - idx,
        {
            idx = idx + 1;
        }
        proof {
            lemma_ready_prefix_is(self.timers@, due, idx as int);
        }
        idx
    }

    /// Puts a timer into the list, behind every timer due no later than it.
    pub fn insert(&mut self, entry: TimerEntry)
        requires
            old(self).wf(),
        ensures
            final(self).timers@ == inserted(old(self).timers@, entry),
            final(self).timers@.len() == old(self).timers@.len() + 1,
            final(self).wf(),
    {
        let idx = self.find_index_after(entry.due);
        proof {
            lemma_inserted_sorted(self.timers@, entry);
        }
        self.timers.insert(idx, entry);
    }

    /// How long the loop may sleep at `now` before a timer is due: nothing
    /// if there is no timer, else the least remaining delay of them all.
    pub fn time_until_due(&self, now: u64) -> (delay: Option<u64>)
        requires
            self.wf(),
        ensures
            delay.is_none() <==> self.timers@.len() == 0,
            delay.is_some() ==> is_min_remaining(self.timers@, now, delay.unwrap() as int),
            delay.is_some() ==> delay.unwrap() == remaining(self.timers@[0].due, now),
    {
        if self.timers.len() == 0 {
            None
        } else {
            let first = self.timers[0];
            let delay: u64 = if first.due <= now {
                0
            } else {
                first.due - now
            };
            proof {
                let s = self.timers@;
                assert(remaining(s[0].due, now) == delay);
                assert forall|i: int| 0 <= i < s.len() implies delay <= remaining(
                    #[trigger] s[i].due,
                    now,
                ) by {
                    assert(s[0].due <= s[i].due);
                }
            }
            Some(delay)
        }
    }

    /// Whether the earliest timer is due at `now`.
    pub fn first_is_ready(&self, now: u64) -> (ready: bool)
        ensures
            ready == (self.timers@.len() > 0 && self.timers@[0].due <= now),
    {
        self.timers.len() > 0 && self.timers[0].due <= now
    }

    /// Whether [`Self::run_ready`] can be called at `now`.
    pub fn can_run_ready(&self, now: u64) -> (fits: bool)
        ensures
            fits == self.rearm_fits(now),
    {
        let mut i: usize = 0;
        while i < self.timers.len()
            invariant
                i <= self.timers@.len(),
                forall|j: int|
                    0 <= j < i && (#[trigger] self.timers@[j]).due <= now ==> now
                        + self.timers@[j].interval <= u64::MAX,
            decreases self.timers@.len() - i,
        {
            let entry = self.timers[i];
            if entry.due <= now && entry.interval > u64::MAX - now {
                return false;
            }
            i = i + 1;
        }
        true
    }

    /// Fires every timer that is due at `now`: hands them out, earliest
    /// first, for their callbacks to be run, and arms each again for one
    /// interval after `now`.
    pub fn run_ready(&mut self, now: u64) -> (fired: Vec<TimerEntry>)
        requires
            old(self).wf(),
            old(self).rearm_fits(now),
        ensures
            fired@ == old(self).timers@.subrange(0, ready_prefix(old(self).timers@, now) as int),
            final(self).timers@ == rearmed(
                old(self).timers@.subrange(
                    ready_prefix(old(self).timers@, now) as int,
                    old(self).timers@.len() as int,
                ),
                fired@,
                now,
            ),
            final(self).timers@.len() == old(self).timers@.len(),
            final(self).wf(),
    {
        let ready = self.find_index_after(now);
        proof {
            lemma_ready_prefix_splits(self.timers@, now);
        }
        let rest = self.timers.split_off(ready);
        let mut fired: Vec<TimerEntry> = Vec::new();
        fired.append(&mut self.timers);
        self.timers = rest;
        assert(fired@ == old(self).timers@.subrange(0, ready as int));
        let ghost waiting = self.timers@;
        assert(waiting == old(self).timers@.subrange(
            ready as int,
            old(self).timers@.len() as int,
        ));
        assert(sorted_by_due(waiting)) by {
            assert forall|i: int, j: int| 0 <= i <= j < waiting.len() implies waiting[i].due
                <= waiting[j].due by {
                assert(waiting[i] == old(self).timers@[i + ready]);
                assert(waiting[j] == old(self).timers@[j + ready]);
            }
        }
        let mut i: usize = 0;
        while i < fired.len()
            invariant
                i <= fired@.len(),
                self.wf(),
                self.timers@ == rearmed(waiting, fired@.subrange(0, i as int), now),
                self.timers@.len() == waiting.len() + i,
                forall|j: int| 0 <= j < fired@.len() ==> now + fired@[j].interval <= u64::MAX,
            decreases fired@.len() - i,
        {
            let entry = fired[i];
            proof {
                let next = fired@.subrange(0, i + 1);
                assert(next.drop_last() == fired@.subrange(0, i as int));
                assert(next.last() == entry);
            }
            self.insert(TimerEntry { due: now + entry.interval, ..entry });
            i = i + 1;
        }
        assert(fired@.subrange(0, fired@.len() as int) == fired@);
        fired
    }
}

/// The list that holds `entries` after they were inserted one by one, in
/// this order, into an empty list.
pub open spec fn inserted_all(entries: Seq<TimerEntry>) -> Seq<TimerEntry>
    decreases entries.len(),
{
    if entries.len() == 0 {
        Seq::<TimerEntry>::empty()
    } else {
        inserted(inserted_all(entries.drop_last()), entries.last())
    }
}

/// A list holds what it held before an insertion, and the new entry.
pub proof fn lemma_inserted_members(s: Seq<TimerEntry>, entry: TimerEntry, x: TimerEntry)
    requires
        sorted_by_due(s),
    ensures
        inserted(s, entry).contains(x) <==> (s.contains(x) || x == entry),
{
    lemma_ready_prefix_splits(s, entry.due);
    let k = ready_prefix(s, entry.due) as int;
    let t = inserted(s, entry);
    if t.contains(x) {
        let i = choose|i: int| 0 <= i < t.len() && t[i] == x;
        if i < k {
            assert(s[i] == x);
        } else if i > k {
            assert(s[i - 1] == x);
        }
    }
    if s.contains(x) {
        let i = choose|i: int| 0 <= i < s.len() && s[i] == x;
        if i < k {
            assert(t[i] == x);
        } else {
            assert(t[i + 1] == x);
        }
    }
    if x == entry {
        assert(t[k] == x);
    }
}

/// After any sequence of insertions the list is sorted and holds exactly
/// the entries that were inserted.
pub proof fn lemma_inserted_all_members(entries: Seq<TimerEntry>)
    ensures
        sorted_by_due(inserted_all(entries)),
        inserted_all(entries).len() == entries.len(),
        forall|x: TimerEntry| inserted_all(entries).contains(x) <==> entries.contains(x),
    decreases entries.len(),
{
    if entries.len() > 0 {
        let before = entries.drop_last();
        lemma_inserted_all_members(before);
        lemma_inserted_sorted(inserted_all(before), entries.last());
        assert forall|x: TimerEntry| inserted_all(entries).contains(x) <==> entries.contains(
            x,
        ) by {
            lemma_inserted_members(inserted_all(before), entries.last(), x);
            if entries.contains(x) {
                let i = choose|i: int| 0 <= i < entries.len() && entries[i] == x;
                if i < before.len() {
                    assert(before[i] == x);
                }
            }
            if before.contains(x) {
                let i = choose|i: int| 0 <= i < before.len() && before[i] == x;
                assert(entries[i] == x);
            }
            if x == entries.last() {
                assert(entries[entries.len() - 1] == x);
            }
        }
    } else {
        assert forall|x: TimerEntry| inserted_all(entries).contains(x) <==> entries.contains(
            x,
        ) by {}
    }
}

/// For any sequence of insertions, the time that [`TimerList::time_until_due`]
/// reports, which is the remaining delay of the entry at the front, is
/// the least remaining delay among all the entries that were inserted.
pub proof fn lemma_time_until_due_is_minimum(entries: Seq<TimerEntry>, now: u64)
    requires
        entries.len() > 0,
    ensures
        inserted_all(entries).len() > 0,
        is_min_remaining(entries, now, remaining(inserted_all(entries)[0].due, now)),
{
    lemma_inserted_all_members(entries);
    let list = inserted_all(entries);
    let delay = remaining(list[0].due, now);
    assert(list.contains(list[0]));
    assert(entries.contains(list[0]));
    let w = choose|i: int| 0 <= i < entries.len() && entries[i] == list[0];
    assert(remaining(entries[w].due, now) == delay);
    assert forall|i: int| 0 <= i < entries.len() implies delay <= remaining(
        #[trigger] entries[i].due,
        now,
    ) by {
        assert(entries.contains(entries[i]));
        assert(list.contains(entries[i]));
        let j = choose|j: int| 0 <= j < list.len() && list[j] == entries[i];
        assert(list[0].due <= list[j].due);
    }
}

/// After the timers that fired have been armed again, the list holds the
/// timers that did not fire, as they were, and each timer that fired, due
/// one interval after the instant of the firing; and nothing else.
pub proof fn lemma_rearmed_members(
    s: Seq<TimerEntry>,
    fired: Seq<TimerEntry>,
    now: u64,
    x: TimerEntry,
)
    requires
        sorted_by_due(s),
    ensures
        rearmed(s, fired, now).contains(x) <==> (s.contains(x) || exists|j: int|
            0 <= j < fired.len() && x == rearm(#[trigger] fired[j], now)),
    decreases fired.len(),
{
    if fired.len() > 0 {
        let before = fired.drop_last();
        lemma_rearmed_members(s, before, now, x);
        lemma_rearmed_sorted(s, before, now);
        lemma_inserted_members(rearmed(s, before, now), rearm(fired.last(), now), x);
        if exists|j: int| 0 <= j < fired.len() && x == rearm(#[trigger] fired[j], now) {
            let j = choose|j: int| 0 <= j < fired.len() && x == rearm(#[trigger] fired[j], now);
            if j < before.len() {
                assert(before[j] == fired[j]);
            }
        }
        if exists|j: int| 0 <= j < before.len() && x == rearm(#[trigger] before[j], now) {
            let j = choose|j: int| 0 <= j < before.len() && x == rearm(#[trigger] before[j], now);
            assert(fired[j] == before[j]);
        }
        if x == rearm(fired.last(), now) {
            assert(fired[fired.len() - 1] == fired.last());
        }
    }
}

/// Once the timers that were due at `now` have fired, no timer with an
/// interval is due at `now` any more: the loop can sleep.
pub proof fn lemma_nothing_due_after_firing(timers: Seq<TimerEntry>, now: u64)
    requires
        sorted_by_due(timers),
        forall|i: int| 0 <= i < timers.len() ==> (#[trigger] timers[i]).interval > 0,
        forall|i: int|
            0 <= i < timers.len() && (#[trigger] timers[i]).due <= now ==> now
                + timers[i].interval <= u64::MAX,
    ensures
        ({
            let ready = ready_prefix(timers, now) as int;
            let after = rearmed(
                timers.subrange(ready, timers.len() as int),
                timers.subrange(0, ready),
                now,
            );
            forall|i: int| 0 <= i < after.len() ==> (#[trigger] after[i]).due > now
        }),
{
    lemma_ready_prefix_splits(timers, now);
    let ready = ready_prefix(timers, now) as int;
    let waiting = timers.subrange(ready, timers.len() as int);
    let fired = timers.subrange(0, ready);
    let after = rearmed(waiting, fired, now);
    assert forall|i: int, j: int| 0 <= i <= j < waiting.len() implies waiting[i].due
        <= waiting[j].due by {
        assert(waiting[i] == timers[i + ready]);
        assert(waiting[j] == timers[j + ready]);
    }
    assert forall|i: int| 0 <= i < after.len() implies (#[trigger] after[i]).due > now by {
        let x = after[i];
        assert(after.contains(x));
        lemma_rearmed_members(waiting, fired, now, x);
        if waiting.contains(x) {
            let k = choose|k: int| 0 <= k < waiting.len() && waiting[k] == x;
            assert(waiting[k] == timers[k + ready]);
        } else {
            let j = choose|j: int| 0 <= j < fired.len() && x == rearm(#[trigger] fired[j], now);
            assert(fired[j] == timers[j]);
        }
    }
}

} // verus!
