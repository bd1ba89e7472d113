//! How often dictation was used each day.
use vstd::prelude::*;

use crate::text::{owned, to_chars};

verus! {

/// How many days are kept: two years.
pub const ACTIVITY_RETENTION_DAYS: usize = 731;

/// A day, written as year, month and day, and how often dictation was used on it.
#[derive(Debug)]
pub struct DayCount {
    pub date: String,
    pub count: u32,
}

/// The contents of a day.
pub ghost struct DayRecord {
    pub date: Seq<char>,
    pub count: int,
}

/// The contents of days.
pub open spec fn days(v: Seq<DayCount>) -> Seq<DayRecord> {
    v.map_values(|d: DayCount| DayRecord { date: d.date@, count: d.count as int })
}

/// One text stands before another in the order of their characters.
pub open spec fn text_before(a: Seq<char>, b: Seq<char>) -> bool
    decreases a.len(),
{
    if b.len() == 0 {
        false
    } else if a.len() == 0 {
        true
    } else if a[0] != b[0] {
        a[0] < b[0]
    } else {
        text_before(a.skip(1), b.skip(1))
    }
}

/// Each day stands once, the earlier before the later.
pub open spec fn ascending(list: Seq<DayRecord>) -> bool {
    forall|i: int, j: int|
        0 <= i < j < list.len() ==> text_before(
            (#[trigger] list[i]).date,
            (#[trigger] list[j]).date,
        )
}

/// The days after one more use on that day.
pub open spec fn bumped(list: Seq<DayRecord>, date: Seq<char>) -> Seq<DayRecord>
    decreases list.len(),
{
    if list.len() == 0 {
        seq![DayRecord { date, count: 1 }]
    } else if list[0].date == date {
        seq![DayRecord { date, count: list[0].count + 1 }] + list.skip(1)
    } else if text_before(date, list[0].date) {
        seq![DayRecord { date, count: 1 }] + list
    } else {
        seq![list[0]] + bumped(list.skip(1), date)
    }
}

/// The latest days, as many as are kept.
pub open spec fn latest(list: Seq<DayRecord>) -> Seq<DayRecord> {
    if list.len() > ACTIVITY_RETENTION_DAYS {
        list.skip(list.len() - ACTIVITY_RETENTION_DAYS)
    } else {
        list
    }
}

/// How texts stand to each other.
#[derive(Clone, Copy, PartialEq, Eq, Structural, Debug)]
enum Place {
    Before,
    Same,
    After,
}

proof fn lemma_text_order(a: Seq<char>, b: Seq<char>, k: int)
    requires
        0 <= k <= a.len(),
        k <= b.len(),
        forall|i: int| 0 <= i < k ==> #[trigger] a[i] == b[i],
    ensures
        text_before(a, b) == text_before(a.skip(k), b.skip(k)),
    decreases k,
{
    if k > 0 {
        let a1 = a.skip(1);
        let b1 = b.skip(1);
        assert(a[0] == b[0]);
        assert forall|i: int| 0 <= i < k - 1 implies #[trigger] a1[i] == b1[i] by {
            assert(a1[i] == a[i + 1]);
            assert(b1[i] == b[i + 1]);
        }
        lemma_text_order(a1, b1, k - 1);
        assert(a1.skip(k - 1) =~= a.skip(k));
        assert(b1.skip(k - 1) =~= b.skip(k));
    } else {
        assert(a.skip(0) =~= a);
        assert(b.skip(0) =~= b);
    }
}

/// How one text stands to another.
fn place(a: &str, b: &str) -> (r: Place)
    ensures
        r == if a@ == b@ {
            Place::Same
        } else if text_before(a@, b@) {
            Place::Before
        } else {
            Place::After
        },
{
    let x = to_chars(a);
    let y = to_chars(b);
    let mut k: usize = 0;
    while k < x.len() && k < y.len() && x[k] == y[k]
        invariant
            k <= x@.len(),
            k <= y@.len(),
            forall|i: int| 0 <= i < k ==> #[trigger] x@[i] == y@[i],
        decreases x@.len() - k,
    {
        k += 1;
    }
    proof {
        lemma_text_order(x@, y@, k as int);
        let p = x@.skip(k as int);
        let q = y@.skip(k as int);
        if k < x@.len() && k < y@.len() {
            assert(p[0] == x@[k as int]);
            assert(q[0] == y@[k as int]);
        }
        if k == x@.len() && k == y@.len() {
            assert(x@ =~= y@);
        }
    }
    if k == x.len() && k == y.len() {
        Place::Same
    } else if k == x.len() {
        Place::Before
    } else if k == y.len() {
        Place::After
    } else if x[k] < y[k] {
        Place::Before
    } else {
        Place::After
    }
}

/// Where a day stands among others, or would stand.
pub open spec fn stands(list: Seq<DayRecord>, date: Seq<char>, i: int) -> bool {
    &&& 0 <= i <= list.len()
    &&& forall|j: int|
        0 <= j < i ==> (#[trigger] list[j]).date != date && !text_before(date, list[j].date)
    &&& i < list.len() ==> list[i].date == date || text_before(date, list[i].date)
}

proof fn lemma_bumped(list: Seq<DayRecord>, date: Seq<char>, i: int)
    requires
        stands(list, date, i),
    ensures
        bumped(list, date) == if i < list.len() && list[i].date == date {
            list.update(i, DayRecord { date, count: list[i].count + 1 })
        } else {
            list.insert(i, DayRecord { date, count: 1 })
        },
    decreases i,
{
    let expected = if i < list.len() && list[i].date == date {
        list.update(i, DayRecord { date, count: list[i].count + 1 })
    } else {
        list.insert(i, DayRecord { date, count: 1 })
    };
    if i == 0 {
        assert(bumped(list, date) =~= expected);
    } else {
        let rest = list.skip(1);
        assert(list[0].date != date && !text_before(date, list[0].date));
        assert forall|j: int| 0 <= j < i - 1 implies (#[trigger] rest[j]).date != date
            && !text_before(date, rest[j].date) by {
            assert(rest[j] == list[j + 1]);
        }
        if i < list.len() {
            assert(rest[i - 1] == list[i]);
        }
        lemma_bumped(rest, date, i - 1);
        assert(bumped(list, date) =~= expected);
    }
}

/// How often dictation was used each day, the earliest day first.
#[derive(Debug)]
pub struct ActivityStore {
    pub list: Vec<DayCount>,
}

impl ActivityStore {
    /// No day yet.
    pub fn new_fallback() -> (r: ActivityStore)
        ensures
            days(r.list@) == Seq::<DayRecord>::empty(),
    {
        let r = ActivityStore { list: Vec::new() };
        assert(days(r.list@) =~= Seq::<DayRecord>::empty());
        r
    }

    /// Counts one use on that day, and drops the earliest days that are too many.
    pub fn bump(&mut self, date: &str)
        requires
            forall|i: int|
                0 <= i < old(self).list@.len() && (#[trigger] old(self).list@[i]).date@ == date@
                    ==> old(self).list@[i].count < u32::MAX,
        ensures
            days(final(self).list@) == latest(bumped(days(old(self).list@), date@)),
    {
        let ghost before = days(self.list@);
        let n: usize = self.list.len();
        let mut i: usize = 0;
        let mut found = false;
        while i < n && !found
            invariant
                i <= n,
                n == self.list@.len(),
                *self == *old(self),
                before == days(self.list@),
                forall|j: int|
                    0 <= j < i ==> (#[trigger] before[j]).date != date@ && !text_before(
                        date@,
                        before[j].date,
                    ),
                found ==> i < n && (before[i as int].date == date@ || text_before(
                    date@,
                    before[i as int].date,
                )),
            decreases
                n - i,
                if found {
                    0int
                } else {
                    1int
                },
        {
            let p = place(date, self.list[i].date.as_str());
            assert(before[i as int].date == self.list@[i as int].date@);
            if p == Place::After {
                i += 1;
            } else {
                found = true;
            }
        }
        proof {
            lemma_bumped(before, date@, i as int);
        }
        if found && place(date, self.list[i].date.as_str()) == Place::Same {
            let count: u32 = self.list[i].count + 1;
            self.list.set(i, DayCount { date: owned(date), count });
            assert(days(self.list@) =~= bumped(before, date@));
        } else {
            self.list.insert(i, DayCount { date: owned(date), count: 1 });
            assert(days(self.list@) =~= bumped(before, date@));
        }
        let ghost all = days(self.list@);
        while self.list.len() > ACTIVITY_RETENTION_DAYS
            invariant
                self.list@.len() <= all.len(),
                days(self.list@) == all.skip(all.len() - self.list@.len()),
                self.list@.len() >= ACTIVITY_RETENTION_DAYS || self.list@.len() == all.len(),
            decreases self.list@.len(),
        {
            let ghost longer = self.list@;
            self.list.remove(0);
            assert(days(self.list@) =~= days(longer).skip(1));
            assert(days(self.list@) =~= all.skip(all.len() - self.list@.len()));
        }
        assert(all.skip(0) =~= all);
    }

    /// All days, the earliest first.
    pub fn snapshot(&self) -> (r: Vec<DayCount>)
        ensures
            days(r@) == days(self.list@),
    {
        let mut r: Vec<DayCount> = Vec::new();
        let mut i: usize = 0;
        while i < self.list.len()
            invariant
                i <= self.list@.len(),
                days(r@) == days(self.list@).take(i as int),
            decreases self.list@.len() - i,
        {
            let ghost before = r@;
            r.push(
                DayCount { date: owned(self.list[i].date.as_str()), count: self.list[i].count },
            );
            assert(days(r@) =~= days(before).push(days(self.list@)[i as int]));
            assert(days(r@) =~= days(self.list@).take(i + 1));
            i += 1;
        }
        assert(days(self.list@).take(i as int) =~= days(self.list@));
        r
    }
}

proof fn lemma_text_before_is_an_order(a: Seq<char>, b: Seq<char>)
    ensures
        !text_before(a, a),
        a == b || text_before(a, b) || text_before(b, a),
        !(text_before(a, b) && text_before(b, a)),
    decreases a.len(),
{
    if a.len() > 0 && b.len() > 0 {
        lemma_text_before_is_an_order(a.skip(1), b.skip(1));
        if a[0] == b[0] && a.skip(1) == b.skip(1) {
            assert(a =~= seq![a[0]] + a.skip(1));
            assert(b =~= seq![b[0]] + b.skip(1));
        }
    } else if a.len() == 0 && b.len() == 0 {
        assert(a =~= b);
    } else if a.len() > 0 {
        lemma_text_before_is_an_order(a.skip(1), a.skip(1));
    }
}

proof fn lemma_text_before_is_transitive(a: Seq<char>, b: Seq<char>, c: Seq<char>)
    requires
        text_before(a, b),
        text_before(b, c),
    ensures
        text_before(a, c),
    decreases a.len(),
{
    if a.len() > 0 && a[0] == b[0] && b[0] == c[0] {
        lemma_text_before_is_transitive(a.skip(1), b.skip(1), c.skip(1));
    }
}

proof fn lemma_place_exists(list: Seq<DayRecord>, date: Seq<char>) -> (i: int)
    ensures
        stands(list, date, i),
    decreases list.len(),
{
    if list.len() == 0 {
        0
    } else if list[0].date == date || text_before(date, list[0].date) {
        0
    } else {
        let rest = list.skip(1);
        let k = lemma_place_exists(rest, date);
        assert forall|j: int| 0 <= j < k + 1 implies (#[trigger] list[j]).date != date
            && !text_before(date, list[j].date) by {
            if j > 0 {
                assert(list[j] == rest[j - 1]);
            }
        }
        if k < rest.len() {
            assert(list[k + 1] == rest[k]);
        }
        k + 1
    }
}

/// Days stay in order, each once, and never more of them than are kept.
pub proof fn law_days_stay_in_order(list: Seq<DayRecord>, date: Seq<char>)
    requires
        ascending(list),
    ensures
        ascending(latest(bumped(list, date))),
        latest(bumped(list, date)).len() <= ACTIVITY_RETENTION_DAYS,
{
    let i = lemma_place_exists(list, date);
    lemma_bumped(list, date, i);
    let b = bumped(list, date);
    assert forall|x: int, y: int| 0 <= x < y < b.len() implies text_before(
        (#[trigger] b[x]).date,
        (#[trigger] b[y]).date,
    ) by {
        if i < list.len() && list[i].date == date {
            assert(b[x].date == list[x].date);
            assert(b[y].date == list[y].date);
        } else {
            if y < i {
                assert(b[x] == list[x] && b[y] == list[y]);
            } else if x > i {
                assert(b[x] == list[x - 1] && b[y] == list[y - 1]);
            } else if y == i {
                assert(b[x] == list[x]);
                lemma_text_before_is_an_order(list[x].date, date);
            } else if x == i {
                assert(b[y] == list[y - 1]);
                if y - 1 > i {
                    lemma_text_before_is_transitive(date, list[i].date, list[y - 1].date);
                }
            } else {
                assert(b[x] == list[x] && b[y] == list[y - 1]);
            }
        }
    }
    let l = latest(b);
    if b.len() > ACTIVITY_RETENTION_DAYS {
        let d = b.len() - ACTIVITY_RETENTION_DAYS;
        assert forall|x: int, y: int| 0 <= x < y < l.len() implies text_before(
            (#[trigger] l[x]).date,
            (#[trigger] l[y]).date,
        ) by {
            assert(l[x] == b[x + d]);
            assert(l[y] == b[y + d]);
        }
    }
}

/// How often dictation was used on a day.
pub open spec fn uses(list: Seq<DayRecord>, date: Seq<char>) -> int {
    if exists|i: int| 0 <= i < list.len() && (#[trigger] list[i]).date == date {
        list[choose|i: int| 0 <= i < list.len() && (#[trigger] list[i]).date == date].count
    } else {
        0
    }
}

/// One more use counts on its own day only: the day has one use more, and each other day has as
/// many as before.
pub proof fn law_use_counts_on_its_day(list: Seq<DayRecord>, date: Seq<char>, other: DayRecord)
    requires
        ascending(list),
        other.date != date,
    ensures
        bumped(list, date).contains(other) <==> list.contains(other),
        bumped(list, date).contains(DayRecord { date, count: uses(list, date) + 1 }),
{
    let i = lemma_place_exists(list, date);
    lemma_bumped(list, date, i);
    let b = bumped(list, date);
    let same = i < list.len() && list[i].date == date;
    if exists|k: int| 0 <= k < list.len() && (#[trigger] list[k]).date == date {
        let k = choose|k: int| 0 <= k < list.len() && (#[trigger] list[k]).date == date;
        lemma_text_before_is_an_order(date, date);
        if i < list.len() && i != k {
            if i < k {
                assert(text_before(list[i].date, list[k].date));
                lemma_text_before_is_an_order(list[i].date, date);
            }
        }
        assert(same && k == i);
    }
    assert(b[i] == DayRecord { date, count: uses(list, date) + 1 });
    if list.contains(other) {
        let k = choose|k: int| 0 <= k < list.len() && list[k] == other;
        if same || k < i {
            assert(b[k] == other);
        } else {
            assert(b[k + 1] == other);
        }
    }
    if b.contains(other) {
        let k = choose|k: int| 0 <= k < b.len() && b[k] == other;
        assert(k != i);
        if same || k < i {
            assert(list[k] == other);
        } else {
            assert(list[k - 1] == other);
        }
    }
}

/// Days are ordered as a dictionary orders words: by the first character in which they differ, and
/// a shorter one before one that goes on.
pub proof fn law_dates_are_ordered_as_words(
    common: Seq<char>,
    a: char,
    b: char,
    x: Seq<char>,
    y: Seq<char>,
)
    ensures
        a < b ==> text_before(common + seq![a] + x, common + seq![b] + y),
        a > b ==> !text_before(common + seq![a] + x, common + seq![b] + y),
        text_before(common, common + seq![a] + x),
        !text_before(common + seq![a] + x, common),
        !text_before(common, common),
{
    let k = common.len() as int;
    let s = common + seq![a] + x;
    let t = common + seq![b] + y;
    lemma_text_order(s, t, k);
    assert(s.skip(k) =~= seq![a] + x);
    assert(t.skip(k) =~= seq![b] + y);
    lemma_text_order(common, s, k);
    lemma_text_order(s, common, k);
    lemma_text_order(common, common, k);
    assert(common.skip(k) =~= seq![]);
}

/// Only the earliest days go, and only where there are more than 731: the others stay in their
/// order.
pub proof fn law_latest_days_are_kept(list: Seq<DayRecord>)
    ensures
        latest(list).is_suffix_of(list),
        list.len() <= 731 ==> latest(list) == list,
        list.len() > 731 ==> latest(list).len() == 731,
{
    if list.len() > 731 {
        assert(list.subrange(list.len() - 731, list.len() as int) =~= latest(list));
    } else {
        assert(list.subrange(0, list.len() as int) =~= list);
    }
}

} // verus!
