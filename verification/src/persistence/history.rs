//! The history of dictations, newest first, with limits on age and number.
use chrono::DateTime;
use vstd::prelude::*;

use crate::persistence::HISTORY_CAP;
use crate::text::same;
use crate::types::{DictationSession, SessionRecord};

verus! {

/// The contents of a history.
pub open spec fn entries(v: Seq<DictationSession>) -> Seq<SessionRecord> {
    v.map_values(|s: DictationSession| s@)
}

/// A point in time: seconds since 1970 and the nanoseconds on top of them.
#[derive(Clone, Copy, PartialEq, Eq, Structural, Debug)]
pub struct Instant {
    pub secs: i64,
    pub nanos: u32,
}

/// The time that a text in the form of RFC 3339 gives, as seconds since 1970 and nanoseconds; none
/// where the text has another form.
pub uninterp spec fn rfc3339_time(text: Seq<char>) -> Option<(i64, u32)>;

/// `chrono::DateTime::parse_from_rfc3339` reads a text, and `timestamp` and `timestamp_subsec_nanos`
/// give the time as integers. All depends on the text alone.
#[verifier::external_body]
fn time_from_text(text: &str) -> (r: Option<(i64, u32)>)
    ensures
        r == rfc3339_time(text@),
{
    match DateTime::parse_from_rfc3339(text) {
        Ok(t) => Some((t.timestamp(), t.timestamp_subsec_nanos())),
        Err(_) => None,
    }
}

/// One time is before another.
pub open spec fn before(t: (i64, u32), cutoff: Instant) -> bool {
    t.0 < cutoff.secs || (t.0 == cutoff.secs && t.1 < cutoff.nanos)
}

/// A time is not too old. One that is not known never is.
pub open spec fn recent(time: Option<(i64, u32)>, cutoff: Instant) -> bool {
    time matches Some(t) ==> !before(t, cutoff)
}

/// Whether a time is not too old. One that is not known never is.
pub fn recent_enough(time: Option<(i64, u32)>, cutoff: Instant) -> (r: bool)
    ensures
        r == recent(time, cutoff),
{
    match time {
        Some((secs, nanos)) => !(secs < cutoff.secs || (secs == cutoff.secs && nanos < cutoff.nanos)),
        None => true,
    }
}

/// The entries that are not too old.
pub open spec fn recent_entries(list: Seq<SessionRecord>, cutoff: Instant) -> Seq<SessionRecord>
    decreases list.len(),
{
    if list.len() == 0 {
        seq![]
    } else {
        let rest = recent_entries(list.drop_last(), cutoff);
        if recent(rfc3339_time(list.last().created_at), cutoff) {
            rest.push(list.last())
        } else {
            rest
        }
    }
}

/// Times from which so many days can be counted back.
pub open spec fn reaches_back(now: Instant) -> bool {
    now.secs >= i64::MIN + 86_400 * u32::MAX
}

/// The time so many days before.
pub open spec fn days_before(now: Instant, days: u32) -> Instant {
    Instant { secs: (now.secs - 86_400 * days) as i64, nanos: now.nanos }
}

/// How many entries are kept: the limit where none is set, else at least five and not more than
/// the limit.
pub open spec fn entry_cap(max_entries: Option<u32>) -> int {
    match max_entries {
        None => HISTORY_CAP as int,
        Some(n) => if n < 5 {
            5
        } else if n > HISTORY_CAP {
            HISTORY_CAP as int
        } else {
            n as int
        },
    }
}

/// How many entries are kept.
pub fn history_cap(max_entries: Option<u32>) -> (r: usize)
    ensures
        r == entry_cap(max_entries),
{
    match max_entries {
        None => HISTORY_CAP,
        Some(n) => {
            let n: usize = n as usize;
            if n < 5 {
                5
            } else if n > HISTORY_CAP {
                HISTORY_CAP
            } else {
                n
            }
        },
    }
}

/// The entries that stay: not too old, where a number of days is set, and not too many.
pub open spec fn retained(
    list: Seq<SessionRecord>,
    retention_days: u32,
    max_entries: Option<u32>,
    now: Instant,
) -> Seq<SessionRecord> {
    let young = if retention_days > 0 {
        recent_entries(list, days_before(now, retention_days))
    } else {
        list
    };
    if young.len() > entry_cap(max_entries) {
        young.take(entry_cap(max_entries))
    } else {
        young
    }
}

/// Drops the entries that are too old or too many.
pub fn apply_retention(
    sessions: &mut Vec<DictationSession>,
    retention_days: u32,
    max_entries: Option<u32>,
    now: Instant,
)
    requires
        reaches_back(now),
    ensures
        entries(final(sessions)@) == retained(
            entries(old(sessions)@),
            retention_days,
            max_entries,
            now,
        ),
{
    if retention_days > 0 {
        let cutoff = Instant { secs: now.secs - 86_400 * retention_days as i64, nanos: now.nanos };
        drop_older(sessions, cutoff);
    }
    let cap: usize = history_cap(max_entries);
    if sessions.len() > cap {
        let ghost young = sessions@;
        sessions.truncate(cap);
        assert(entries(sessions@) =~= entries(young).take(cap as int));
    }
}

fn drop_older(sessions: &mut Vec<DictationSession>, cutoff: Instant)
    ensures
        entries(final(sessions)@) == recent_entries(entries(old(sessions)@), cutoff),
{
    let ghost all = sessions@;
    let mut kept: Vec<DictationSession> = Vec::new();
    let ghost mut seen: int = 0;
    assert(entries(all).take(0) =~= seq![]);
    assert(entries(kept@) =~= seq![]);
    while sessions.len() > 0
        invariant
            0 <= seen <= all.len(),
            sessions@ == all.skip(seen),
            entries(kept@) == recent_entries(entries(all).take(seen), cutoff),
        decreases sessions@.len(),
    {
        let s = sessions.remove(0);
        proof {
            assert(s == all[seen]);
            assert(entries(all).take(seen + 1).drop_last() =~= entries(all).take(seen));
            assert(entries(all).take(seen + 1).last() == s@);
            seen = seen + 1;
            assert(sessions@ =~= all.skip(seen));
        }
        let ghost before_push = kept@;
        if recent_enough(time_from_text(s.created_at.as_str()), cutoff) {
            kept.push(s);
            assert(entries(kept@) =~= entries(before_push).push(s@));
        }
    }
    assert(entries(all).take(seen) =~= entries(all));
    *sessions = kept;
}

/// The entries once one more was put in front.
pub open spec fn added(
    list: Seq<SessionRecord>,
    entry: SessionRecord,
    retention_days: u32,
    max_entries: Option<u32>,
    now: Instant,
) -> Seq<SessionRecord> {
    retained(seq![entry] + list, retention_days, max_entries, now)
}

/// Puts an entry in front and drops those that are too old or too many.
pub fn append_with_retention(
    sessions: &mut Vec<DictationSession>,
    session: DictationSession,
    retention_days: u32,
    max_entries: Option<u32>,
    now: Instant,
)
    requires
        reaches_back(now),
    ensures
        entries(final(sessions)@) == added(
            entries(old(sessions)@),
            session@,
            retention_days,
            max_entries,
            now,
        ),
{
    sessions.insert(0, session);
    assert(entries(sessions@) =~= seq![session@] + entries(old(sessions)@));
    apply_retention(sessions, retention_days, max_entries, now);
}

/// The entries without those of that id.
pub open spec fn without(list: Seq<SessionRecord>, id: Seq<char>) -> Seq<SessionRecord>
    decreases list.len(),
{
    if list.len() == 0 {
        seq![]
    } else {
        let rest = without(list.drop_last(), id);
        if list.last().id == id {
            rest
        } else {
            rest.push(list.last())
        }
    }
}

/// An entry of that id is in the history.
pub open spec fn in_history(list: Seq<SessionRecord>, id: Seq<char>) -> bool {
    exists|i: int| 0 <= i < list.len() && (#[trigger] list[i]).id == id
}

proof fn lemma_without(list: Seq<SessionRecord>, id: Seq<char>)
    ensures
        !in_history(without(list, id), id),
        without(list, id).len() <= list.len(),
        in_history(list, id) <==> without(list, id).len() < list.len(),
        !in_history(list, id) ==> without(list, id) == list,
    decreases list.len(),
{
    if list.len() > 0 {
        let rest = list.drop_last();
        lemma_without(rest, id);
        if in_history(list, id) && list.last().id != id {
            let i = choose|i: int| 0 <= i < list.len() && (#[trigger] list[i]).id == id;
            assert(rest[i].id == id);
        }
        if in_history(rest, id) {
            let i = choose|i: int| 0 <= i < rest.len() && (#[trigger] rest[i]).id == id;
            assert(list[i].id == id);
        }
        if list.last().id == id {
            assert(list[list.len() - 1].id == id);
        } else {
            let kept = without(rest, id);
            if in_history(kept.push(list.last()), id) {
                let all = kept.push(list.last());
                let i = choose|i: int| 0 <= i < all.len() && (#[trigger] all[i]).id == id;
                assert(i < kept.len());
                assert(kept[i].id == id);
            }
            if !in_history(list, id) {
                assert(kept.push(list.last()) =~= list);
            }
        }
    } else {
        assert(without(list, id) =~= list);
    }
}

/// Deletes the entries of that id. The result tells whether there were any; their recording goes
/// too.
pub fn delete(sessions: &mut Vec<DictationSession>, id: &str) -> (r: bool)
    ensures
        r == in_history(entries(old(sessions)@), id@),
        entries(final(sessions)@) == without(entries(old(sessions)@), id@),
{
    let ghost all = sessions@;
    let n: usize = sessions.len();
    let mut kept: Vec<DictationSession> = Vec::new();
    let ghost mut seen: int = 0;
    assert(entries(all).take(0) =~= seq![]);
    assert(entries(kept@) =~= seq![]);
    while sessions.len() > 0
        invariant
            0 <= seen <= all.len(),
            sessions@ == all.skip(seen),
            entries(kept@) == without(entries(all).take(seen), id@),
        decreases sessions@.len(),
    {
        let s = sessions.remove(0);
        proof {
            assert(s == all[seen]);
            assert(entries(all).take(seen + 1).drop_last() =~= entries(all).take(seen));
            assert(entries(all).take(seen + 1).last() == s@);
            seen = seen + 1;
            assert(sessions@ =~= all.skip(seen));
        }
        let ghost before_push = kept@;
        if !same(s.id.as_str(), id) {
            kept.push(s);
            assert(entries(kept@) =~= entries(before_push).push(s@));
        }
    }
    assert(entries(all).take(seen) =~= entries(all));
    proof {
        lemma_without(entries(all), id@);
        assert(entries(all).len() == n);
        assert(entries(kept@).len() == kept@.len());
    }
    let gone = kept.len() < n;
    *sessions = kept;
    gone
}

/// The first entry of that id stands at `i`.
pub open spec fn first_entry(list: Seq<SessionRecord>, id: Seq<char>, i: int) -> bool {
    &&& 0 <= i < list.len()
    &&& list[i].id == id
    &&& forall|j: int| 0 <= j < i ==> (#[trigger] list[j]).id != id
}

/// Replaces the entry of the same id. The result tells whether there is one.
pub fn update_entry(sessions: &mut Vec<DictationSession>, updated: DictationSession) -> (r: bool)
    ensures
        r == in_history(entries(old(sessions)@), updated.id@),
        r ==> exists|i: int|
            {
                &&& #[trigger] first_entry(entries(old(sessions)@), updated.id@, i)
                &&& entries(final(sessions)@) == entries(old(sessions)@).update(i, updated@)
            },
        !r ==> final(sessions)@ == old(sessions)@,
{
    let n: usize = sessions.len();
    let ghost all = entries(sessions@);
    let mut i: usize = 0;
    while i < n
        invariant
            i <= n,
            n == sessions@.len(),
            sessions@ == old(sessions)@,
            all == entries(sessions@),
            forall|j: int| 0 <= j < i ==> (#[trigger] all[j]).id != updated.id@,
        decreases n - i,
    {
        if same(sessions[i].id.as_str(), updated.id.as_str()) {
            assert(all[i as int].id == updated.id@);
            assert(first_entry(all, updated.id@, i as int));
            let ghost record = updated@;
            sessions.set(i, updated);
            assert(entries(sessions@) =~= all.update(i as int, record));
            return true;
        }
        i += 1;
    }
    false
}

/// Drops all entries.
pub fn clear(sessions: &mut Vec<DictationSession>)
    ensures
        final(sessions)@ == Seq::<DictationSession>::empty(),
{
    sessions.clear();
}

proof fn lemma_recent_entries(list: Seq<SessionRecord>, cutoff: Instant)
    ensures
        recent_entries(list, cutoff).len() <= list.len(),
        forall|i: int|
            0 <= i < recent_entries(list, cutoff).len() ==> recent(
                rfc3339_time((#[trigger] recent_entries(list, cutoff)[i]).created_at),
                cutoff,
            ),
    decreases list.len(),
{
    if list.len() > 0 {
        lemma_recent_entries(list.drop_last(), cutoff);
    }
}

proof fn lemma_all_recent(list: Seq<SessionRecord>, cutoff: Instant)
    requires
        forall|i: int|
            0 <= i < list.len() ==> recent(rfc3339_time((#[trigger] list[i]).created_at), cutoff),
    ensures
        recent_entries(list, cutoff) == list,
    decreases list.len(),
{
    if list.len() > 0 {
        let rest = list.drop_last();
        assert forall|i: int| 0 <= i < rest.len() implies recent(
            rfc3339_time((#[trigger] rest[i]).created_at),
            cutoff,
        ) by {
            assert(rest[i] == list[i]);
        }
        lemma_all_recent(rest, cutoff);
        assert(list[list.len() - 1] == list.last());
        assert(rest.push(list.last()) =~= list);
    } else {
        assert(recent_entries(list, cutoff) =~= list);
    }
}

proof fn lemma_first_stays(list: Seq<SessionRecord>, cutoff: Instant)
    requires
        list.len() > 0,
        recent(rfc3339_time(list[0].created_at), cutoff),
    ensures
        recent_entries(list, cutoff).len() > 0,
        recent_entries(list, cutoff)[0] == list[0],
    decreases list.len(),
{
    if list.len() > 1 {
        lemma_first_stays(list.drop_last(), cutoff);
    } else {
        assert(recent_entries(list.drop_last(), cutoff) =~= seq![]);
        assert(list.last() == list[0]);
        assert(recent_entries(list, cutoff) =~= seq![list[0]]);
    }
}

/// Whatever the settings, the history never holds more entries than its limit.
pub proof fn law_history_is_bounded(
    list: Seq<SessionRecord>,
    retention_days: u32,
    max_entries: Option<u32>,
    now: Instant,
)
    ensures
        retained(list, retention_days, max_entries, now).len() <= entry_cap(max_entries),
        5 <= entry_cap(max_entries) <= HISTORY_CAP,
{
}

/// Dropping what is too old or too many a second time drops nothing more.
pub proof fn law_retention_is_settled(
    list: Seq<SessionRecord>,
    retention_days: u32,
    max_entries: Option<u32>,
    now: Instant,
)
    ensures
        ({
            let once = retained(list, retention_days, max_entries, now);
            retained(once, retention_days, max_entries, now) == once
        }),
{
    let once = retained(list, retention_days, max_entries, now);
    if retention_days > 0 {
        let cutoff = days_before(now, retention_days);
        let young = recent_entries(list, cutoff);
        lemma_recent_entries(list, cutoff);
        assert forall|i: int| 0 <= i < once.len() implies recent(
            rfc3339_time((#[trigger] once[i]).created_at),
            cutoff,
        ) by {
            assert(once[i] == young[i]);
        }
        lemma_all_recent(once, cutoff);
    }
}

/// A new entry comes first, unless it is itself too old.
pub proof fn law_newest_comes_first(
    list: Seq<SessionRecord>,
    entry: SessionRecord,
    retention_days: u32,
    max_entries: Option<u32>,
    now: Instant,
)
    requires
        retention_days > 0 ==> recent(
            rfc3339_time(entry.created_at),
            days_before(now, retention_days),
        ),
    ensures
        retained(seq![entry] + list, retention_days, max_entries, now).len() > 0,
        retained(seq![entry] + list, retention_days, max_entries, now)[0] == entry,
{
    let all = seq![entry] + list;
    if retention_days > 0 {
        lemma_first_stays(all, days_before(now, retention_days));
    }
}

/// A deleted entry is gone, and deleting it again changes nothing.
pub proof fn law_deleted_entry_is_gone(list: Seq<SessionRecord>, id: Seq<char>)
    ensures
        !in_history(without(list, id), id),
        without(without(list, id), id) == without(list, id),
{
    lemma_without(list, id);
    lemma_without(without(list, id), id);
}

/// The time of an entry is known, and lies more than so many days back.
pub open spec fn past(e: SessionRecord, days: u32, now: Instant) -> bool {
    rfc3339_time(e.created_at) matches Some(t) && {
        let limit = now.secs - 86_400 * days;
        t.0 < limit || t.0 == limit && t.1 < now.nanos
    }
}

proof fn lemma_recent_entries_are_a_filter(list: Seq<SessionRecord>, days: u32, now: Instant)
    requires
        reaches_back(now),
    ensures
        recent_entries(list, days_before(now, days)) == list.filter(
            |e: SessionRecord| !past(e, days, now),
        ),
    decreases list.len(),
{
    reveal(Seq::filter);
    if list.len() > 0 {
        lemma_recent_entries_are_a_filter(list.drop_last(), days, now);
    }
}

/// Where a number of days is set, every entry whose time is known to lie further back goes, however
/// many entries may stay; an entry whose time is not known never goes for its age.
pub proof fn law_old_entries_go(
    list: Seq<SessionRecord>,
    retention_days: u32,
    max_entries: Option<u32>,
    now: Instant,
)
    requires
        reaches_back(now),
    ensures
        ({
            let stays = retained(list, retention_days, max_entries, now);
            &&& retention_days > 0 ==> forall|i: int|
                0 <= i < stays.len() ==> !past(#[trigger] stays[i], retention_days, now)
            &&& forall|i: int| 0 <= i < stays.len() ==> list.contains(#[trigger] stays[i])
        }),
{
    law_young_entries_stay(list, retention_days, max_entries, now);
    let keeps = |e: SessionRecord| retention_days == 0 || !past(e, retention_days, now);
    let young = list.filter(keeps);
    let stays = retained(list, retention_days, max_entries, now);
    lemma_filtered(list, keeps);
    assert forall|i: int| 0 <= i < stays.len() implies list.contains(#[trigger] stays[i]) && (
    retention_days > 0 ==> !past(stays[i], retention_days, now)) by {
        assert(stays[i] == young[i]);
    }
}

/// The entries that are young enough stay in their order, up to the number that may stay: the one
/// that is set, but five at least and two hundred at most, and two hundred where none is set. With
/// no number of days, every entry is young enough.
pub proof fn law_young_entries_stay(
    list: Seq<SessionRecord>,
    retention_days: u32,
    max_entries: Option<u32>,
    now: Instant,
)
    requires
        reaches_back(now),
    ensures
        ({
            let young = list.filter(
                |e: SessionRecord| retention_days == 0 || !past(e, retention_days, now),
            );
            let stays = retained(list, retention_days, max_entries, now);
            let cap: int = match max_entries {
                None => 200,
                Some(n) if 5 <= n <= 200 => n as int,
                Some(n) if n < 5 => 5,
                Some(n) => 200,
            };
            &&& stays.is_prefix_of(young)
            &&& stays.len() == cap || (stays.len() < cap && stays == young)
        }),
{
    let keeps = |e: SessionRecord| retention_days == 0 || !past(e, retention_days, now);
    if retention_days > 0 {
        lemma_recent_entries_are_a_filter(list, retention_days, now);
        lemma_filters_agree(list, keeps, |e: SessionRecord| !past(e, retention_days, now));
    } else {
        lemma_filter_keeps_all(list, keeps);
    }
}

proof fn lemma_filtered(list: Seq<SessionRecord>, keeps: spec_fn(SessionRecord) -> bool)
    ensures
        forall|i: int|
            0 <= i < list.filter(keeps).len() ==> keeps(#[trigger] list.filter(keeps)[i])
                && list.contains(list.filter(keeps)[i]),
    decreases list.len(),
{
    reveal(Seq::filter);
    if list.len() > 0 {
        let rest = list.drop_last();
        lemma_filtered(rest, keeps);
        assert forall|i: int| 0 <= i < list.filter(keeps).len() implies keeps(
            #[trigger] list.filter(keeps)[i],
        ) && list.contains(list.filter(keeps)[i]) by {
            if i < rest.filter(keeps).len() {
                let k = choose|k: int| 0 <= k < rest.len() && rest[k] == rest.filter(keeps)[i];
                assert(list[k] == rest[k]);
            } else {
                assert(list[list.len() - 1] == list.last());
            }
        }
    }
}

proof fn lemma_filter_keeps_all(list: Seq<SessionRecord>, keeps: spec_fn(SessionRecord) -> bool)
    requires
        forall|e: SessionRecord| #[trigger] keeps(e),
    ensures
        list.filter(keeps) == list,
    decreases list.len(),
{
    reveal(Seq::filter);
    if list.len() > 0 {
        lemma_filter_keeps_all(list.drop_last(), keeps);
        assert(keeps(list.last()));
        assert(list.drop_last().push(list.last()) =~= list);
    } else {
        assert(list.filter(keeps) =~= list);
    }
}

proof fn lemma_filters_agree(
    list: Seq<SessionRecord>,
    one: spec_fn(SessionRecord) -> bool,
    other: spec_fn(SessionRecord) -> bool,
)
    requires
        forall|e: SessionRecord| #[trigger] one(e) == other(e),
    ensures
        list.filter(one) == list.filter(other),
    decreases list.len(),
{
    reveal(Seq::filter);
    if list.len() > 0 {
        lemma_filters_agree(list.drop_last(), one, other);
        assert(one(list.last()) == other(list.last()));
    }
}

/// Deleting drops the entries of that id and leaves all others as they were, in their order.
pub proof fn law_other_entries_stay(list: Seq<SessionRecord>, id: Seq<char>)
    ensures
        without(list, id) == list.filter(|e: SessionRecord| e.id != id),
        forall|e: SessionRecord| e.id != id && #[trigger] list.contains(e) ==> without(
            list,
            id,
        ).contains(e),
{
    lemma_without_is_a_filter(list, id);
    list.filter_lemma(|e: SessionRecord| e.id != id);
    assert forall|e: SessionRecord| e.id != id && #[trigger] list.contains(e) implies without(
        list,
        id,
    ).contains(e) by {
        let i = choose|i: int| 0 <= i < list.len() && list[i] == e;
        let keeps = |e: SessionRecord| e.id != id;
        assert(keeps(list[i]));
        assert(list.filter(keeps).contains(list[i]));
    }
}

proof fn lemma_without_is_a_filter(list: Seq<SessionRecord>, id: Seq<char>)
    ensures
        without(list, id) == list.filter(|e: SessionRecord| e.id != id),
    decreases list.len(),
{
    reveal(Seq::filter);
    if list.len() > 0 {
        lemma_without_is_a_filter(list.drop_last(), id);
    }
}

/// A new entry stands first, and those before it follow in their order, as far as they are neither
/// too old nor too many.
pub proof fn law_entries_follow_the_new_one(
    list: Seq<SessionRecord>,
    entry: SessionRecord,
    retention_days: u32,
    max_entries: Option<u32>,
    now: Instant,
)
    requires
        reaches_back(now),
        retention_days > 0 ==> !past(entry, retention_days, now),
    ensures
        ({
            let after = added(list, entry, retention_days, max_entries, now);
            &&& after.len() > 0
            &&& after[0] == entry
            &&& retention_days == 0 && list.len() < 5 ==> after == seq![entry] + list
        }),
{
    law_newest_comes_first(list, entry, retention_days, max_entries, now);
}

/// The first entry of an id is the one that counts: wherever it stands, no other one stands before
/// it.
pub proof fn law_first_entry_counts(list: Seq<SessionRecord>, id: Seq<char>, i: int, j: int)
    requires
        first_entry(list, id, i),
        0 <= j < list.len(),
        list[j].id == id,
    ensures
        0 <= i <= j,
        list[i].id == id,
        in_history(list, id),
{
}

} // verus!
