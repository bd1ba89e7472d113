//! The input method on Windows: what is kept to restore it, and inserting through it.
use vstd::prelude::*;

use crate::coordinator_state::SessionId;
use crate::types::InsertStatus;

verus! {

/// What is kept for a session, to restore the input method after it.
pub struct PreparedWindowsImeSessionSlot<T> {
    pub session_id: SessionId,
    pub prepared: T,
}

/// The first slot of a session stands at `i`.
pub open spec fn slot_at<T>(
    slots: Seq<PreparedWindowsImeSessionSlot<T>>,
    id: SessionId,
    i: int,
) -> bool {
    &&& 0 <= i < slots.len()
    &&& slots[i].session_id == id
    &&& forall|j: int| 0 <= j < i ==> (#[trigger] slots[j]).session_id != id
}

/// The slots of other sessions.
pub open spec fn others<T>(
    slots: Seq<PreparedWindowsImeSessionSlot<T>>,
    id: SessionId,
) -> Seq<PreparedWindowsImeSessionSlot<T>>
    decreases slots.len(),
{
    if slots.len() == 0 {
        seq![]
    } else {
        let rest = others(slots.drop_last(), id);
        if slots.last().session_id == id {
            rest
        } else {
            rest.push(slots.last())
        }
    }
}

/// A session has a slot.
pub open spec fn has_slot<T>(slots: Seq<PreparedWindowsImeSessionSlot<T>>, id: SessionId) -> bool {
    exists|i: int| 0 <= i < slots.len() && (#[trigger] slots[i]).session_id == id
}

/// Keeps something for a session, in place of what was kept for it before.
pub fn store_prepared_windows_ime_session<T>(
    slots: &mut Vec<PreparedWindowsImeSessionSlot<T>>,
    session_id: SessionId,
    prepared: T,
)
    ensures
        final(slots)@ == others(old(slots)@, session_id).push(
            PreparedWindowsImeSessionSlot { session_id, prepared },
        ),
{
    let ghost all = slots@;
    let mut kept: Vec<PreparedWindowsImeSessionSlot<T>> = Vec::new();
    let ghost mut seen: int = 0;
    assert(others(all.take(0), session_id) =~= seq![]);
    while slots.len() > 0
        invariant
            0 <= seen <= all.len(),
            slots@ == all.skip(seen),
            kept@ == others(all.take(seen), session_id),
        decreases slots@.len(),
    {
        let slot = slots.remove(0);
        proof {
            assert(all.take(seen + 1).drop_last() =~= all.take(seen));
            assert(slot == all[seen]);
            seen = seen + 1;
            assert(slots@ =~= all.skip(seen));
        }
        if slot.session_id != session_id {
            kept.push(slot);
        }
    }
    assert(all.take(seen) =~= all);
    kept.push(PreparedWindowsImeSessionSlot { session_id, prepared });
    *slots = kept;
}

/// The first slot of a session was taken, and held that.
pub open spec fn taken_slot<T>(
    slots: Seq<PreparedWindowsImeSessionSlot<T>>,
    id: SessionId,
    prepared: T,
    after: Seq<PreparedWindowsImeSessionSlot<T>>,
) -> bool {
    exists|i: int|
        {
            &&& #[trigger] slot_at(slots, id, i)
            &&& prepared == slots[i].prepared
            &&& after == slots.remove(i)
        }
}

/// Takes what is kept for a session.
pub fn take_matching_prepared_windows_ime_session<T>(
    slots: &mut Vec<PreparedWindowsImeSessionSlot<T>>,
    session_id: SessionId,
) -> (r: Option<T>)
    ensures
        match r {
            Some(prepared) => taken_slot(old(slots)@, session_id, prepared, final(slots)@),
            None => !has_slot(old(slots)@, session_id) && final(slots)@ == old(slots)@,
        },
{
    let ghost all = slots@;
    let n: usize = slots.len();
    let mut i: usize = 0;
    while i < n
        invariant
            i <= n,
            n == slots@.len(),
            slots@ == all,
            all == old(slots)@,
            forall|j: int| 0 <= j < i ==> (#[trigger] all[j]).session_id != session_id,
        decreases n - i,
    {
        if slots[i].session_id == session_id {
            assert(slot_at(all, session_id, i as int));
            let slot = slots.remove(i);
            return Some(slot.prepared);
        }
        i += 1;
    }
    None
}

/// Takes what is kept for a session. It is to be restored only where that session is the current
/// one; else it is dropped.
pub fn take_current_prepared_windows_ime_session_for_restore<T>(
    slots: &mut Vec<PreparedWindowsImeSessionSlot<T>>,
    session_id: SessionId,
    current_session_id: SessionId,
) -> (r: Option<T>)
    ensures
        !has_slot(old(slots)@, session_id) ==> r is None && final(slots)@ == old(slots)@,
        has_slot(old(slots)@, session_id) ==> exists|i: int| #[trigger]
            slot_at(old(slots)@, session_id, i) && final(slots)@ == old(slots)@.remove(i) && r
                == if current_session_id == session_id {
                Some(old(slots)@[i].prepared)
            } else {
                None
            },
{
    match take_matching_prepared_windows_ime_session(slots, session_id) {
        Some(prepared) => {
            if current_session_id == session_id {
                Some(prepared)
            } else {
                None
            }
        },
        None => None,
    }
}

/// After something is kept for a session, it is the only thing kept for it, and what is kept for
/// other sessions stays.
pub proof fn law_one_slot_for_each_session<T>(
    slots: Seq<PreparedWindowsImeSessionSlot<T>>,
    id: SessionId,
    other: SessionId,
)
    requires
        other != id,
    ensures
        !has_slot(others(slots, id), id),
        has_slot(others(slots, id), other) <==> has_slot(slots, other),
    decreases slots.len(),
{
    if slots.len() > 0 {
        let rest = slots.drop_last();
        law_one_slot_for_each_session(rest, id, other);
        let kept = others(rest, id);
        if slots.last().session_id != id {
            let all = kept.push(slots.last());
            assert forall|i: int| 0 <= i < all.len() implies (#[trigger] all[i]).session_id != id by {
                if i < kept.len() {
                    assert(all[i] == kept[i]);
                }
            }
            if has_slot(kept, other) {
                let i = choose|i: int|
                    0 <= i < kept.len() && (#[trigger] kept[i]).session_id == other;
                assert(all[i].session_id == other);
            }
            if slots.last().session_id == other {
                assert(all[kept.len() as int].session_id == other);
                assert(slots[slots.len() - 1].session_id == other);
            }
        }
        if has_slot(rest, other) {
            let i = choose|i: int| 0 <= i < rest.len() && (#[trigger] rest[i]).session_id == other;
            assert(slots[i].session_id == other);
        }
        if has_slot(slots, other) && !has_slot(rest, other) {
            let i = choose|i: int| 0 <= i < slots.len() && (#[trigger] slots[i]).session_id == other;
            if i < rest.len() {
                assert(rest[i].session_id == other);
            }
        }
        if has_slot(others(slots, id), other) && slots.last().session_id != id {
            let all = kept.push(slots.last());
            let i = choose|i: int| 0 <= i < all.len() && (#[trigger] all[i]).session_id == other;
            if i < kept.len() {
                assert(kept[i].session_id == other);
            } else {
                assert(slots[slots.len() - 1].session_id == other);
            }
        }
    }
}

/// Whether text that the input method did not insert is inserted in another way.
pub fn should_try_non_tsf_insertion_fallback(allow: bool, ime_status: InsertStatus) -> (r: bool)
    ensures
        r == (allow && ime_status != InsertStatus::Inserted),
{
    allow && ime_status != InsertStatus::Inserted
}

/// What is done about an insertion through the input method.
#[derive(Clone, Copy, PartialEq, Eq, Structural, Debug)]
pub enum ImeStep {
    /// Hand the text to the input method.
    Submit,
    /// Insert it in another way.
    Fallback,
    Done(InsertStatus),
}

/// How an insertion through the input method begins.
pub open spec fn ime_first_step(prepared: bool, allow_fallback: bool) -> ImeStep {
    if prepared {
        ImeStep::Submit
    } else if allow_fallback {
        ImeStep::Fallback
    } else {
        ImeStep::Done(InsertStatus::Failed)
    }
}

/// How an insertion through the input method begins: `prepared` tells whether the session has kept
/// what it takes.
pub fn ime_begin(prepared: bool, allow_fallback: bool) -> (r: ImeStep)
    ensures
        r == ime_first_step(prepared, allow_fallback),
{
    if prepared {
        return ImeStep::Submit;
    }
    if should_try_non_tsf_insertion_fallback(allow_fallback, InsertStatus::Failed) {
        ImeStep::Fallback
    } else {
        ImeStep::Done(InsertStatus::Failed)
    }
}

/// How an insertion goes on after the input method has answered.
pub open spec fn ime_next_step(answer: Option<InsertStatus>, allow_fallback: bool) -> ImeStep {
    if answer == Some(InsertStatus::Inserted) {
        ImeStep::Done(InsertStatus::Inserted)
    } else if allow_fallback {
        ImeStep::Fallback
    } else {
        ImeStep::Done(InsertStatus::Failed)
    }
}

/// How an insertion goes on after the input method has answered, or has failed to.
pub fn ime_submitted(answer: Option<InsertStatus>, allow_fallback: bool) -> (r: ImeStep)
    ensures
        r == ime_next_step(answer, allow_fallback),
{
    let status = match answer {
        Some(status) => status,
        None => InsertStatus::Failed,
    };
    if status == InsertStatus::Inserted {
        ImeStep::Done(status)
    } else if should_try_non_tsf_insertion_fallback(allow_fallback, status) {
        ImeStep::Fallback
    } else {
        ImeStep::Done(InsertStatus::Failed)
    }
}

/// Inserts by keystrokes, and onto the clipboard only where that fails. Nothing but a copy that
/// worked counts as copied.
pub fn finish_non_tsf_insertion_fallback<U, C>(unicode_fallback: U, copy_only_fallback: C) -> (r:
    InsertStatus) where U: FnOnce() -> InsertStatus, C: FnOnce() -> InsertStatus
    requires
        call_requires(unicode_fallback, ()),
        forall|typed: InsertStatus| #[trigger]
            call_ensures(unicode_fallback, (), typed) && typed != InsertStatus::Inserted
                ==> call_requires(copy_only_fallback, ()),
    ensures
        exists|typed: InsertStatus| #[trigger]
            call_ensures(unicode_fallback, (), typed) && if typed == InsertStatus::Inserted {
                r == InsertStatus::Inserted
            } else {
                exists|copied: InsertStatus| #[trigger]
                    call_ensures(copy_only_fallback, (), copied) && r == if copied
                        == InsertStatus::CopiedFallback {
                        InsertStatus::CopiedFallback
                    } else {
                        InsertStatus::Failed
                    }
            },
{
    let typed = unicode_fallback();
    if typed == InsertStatus::Inserted {
        return InsertStatus::Inserted;
    }
    let copied = copy_only_fallback();
    if copied == InsertStatus::CopiedFallback {
        InsertStatus::CopiedFallback
    } else {
        InsertStatus::Failed
    }
}

/// What is kept for other sessions is just what was kept for them, in its order.
pub proof fn law_other_slots_stay<T>(slots: Seq<PreparedWindowsImeSessionSlot<T>>, id: SessionId)
    ensures
        others(slots, id) == slots.filter(
            |s: PreparedWindowsImeSessionSlot<T>| s.session_id != id,
        ),
    decreases slots.len(),
{
    reveal(Seq::filter);
    if slots.len() > 0 {
        law_other_slots_stay(slots.drop_last(), id);
    }
}

/// Text goes to the input method where that was made ready, and counts as inserted only where the
/// input method says so. What it did not insert is inserted in another way where that is allowed,
/// and has failed else; it never counts as inserted by itself.
pub proof fn law_input_method_or_another_way(
    answer: Option<InsertStatus>,
    prepared: bool,
    allow_fallback: bool,
)
    ensures
        ime_first_step(prepared, allow_fallback) == ImeStep::Submit <==> prepared,
        ime_first_step(false, true) == ImeStep::Fallback,
        ime_first_step(false, false) == ImeStep::Done(InsertStatus::Failed),
        ime_next_step(Some(InsertStatus::Inserted), allow_fallback) == ImeStep::Done(
            InsertStatus::Inserted,
        ),
        answer != Some(InsertStatus::Inserted) ==> ime_next_step(answer, true) == ImeStep::Fallback,
        answer != Some(InsertStatus::Inserted) ==> ime_next_step(answer, false) == ImeStep::Done(
            InsertStatus::Failed,
        ),
{
}

/// What is kept for a session is taken from its first slot, which is gone then; all other slots stay
/// in their order.
pub proof fn law_first_slot_is_taken<T>(
    slots: Seq<PreparedWindowsImeSessionSlot<T>>,
    id: SessionId,
    prepared: T,
    after: Seq<PreparedWindowsImeSessionSlot<T>>,
    i: int,
)
    requires
        0 <= i < slots.len(),
        slots[i].session_id == id,
        forall|j: int| 0 <= j < i ==> (#[trigger] slots[j]).session_id != id,
    ensures
        taken_slot(slots, id, prepared, after) <==> prepared == slots[i].prepared && after
            == slots.take(i) + slots.skip(i + 1),
{
    assert(slots.remove(i) =~= slots.take(i) + slots.skip(i + 1));
    assert(slot_at(slots, id, i));
    if taken_slot(slots, id, prepared, after) {
        let k = choose|k: int|
            {
                &&& #[trigger] slot_at(slots, id, k)
                &&& prepared == slots[k].prepared
                &&& after == slots.remove(k)
            };
        assert(k == i);
    }
}

} // verus!
