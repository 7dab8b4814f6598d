//! Status conditions and the ordered, duplicate-free list a combatant keeps
//! of them.

use vstd::prelude::*;

verus! {

/// Identifies one combatant. The model only stores and compares it.
#[derive(Debug, Clone, Copy, PartialEq, Eq, Structural)]
pub struct CreatureId(pub u128);

/// A condition afflicting a combatant. Two conditions are equal when they
/// have the same name and the same payload.
#[derive(Debug, Clone, Copy, PartialEq, Eq, Structural)]
pub enum Status {
    Blinded,
    Charmed,
    Deafened,
    /// Exhaustion of the given level.
    Exhaustion(u8),
    Frightened,
    /// Grappled by the combatant with the given identifier.
    Grappled(CreatureId),
    Incapacitated,
    Invisible,
    Paralyzed,
    Petrified,
    Poisoned,
    Prone,
    Restrained,
    Stunned,
    Unconscious,
}

/// Whether `index` is the place of the first entry of `statuses` that equals
/// `status`.
pub open spec fn is_first_occurrence(statuses: Seq<Status>, status: Status, index: int) -> bool {
    &&& 0 <= index < statuses.len()
    &&& statuses[index] == status
    &&& forall|j: int| 0 <= j < index ==> statuses[j] != status
}

/// The place of the first entry of `statuses` that equals `status`, where
/// there is one.
pub open spec fn first_occurrence(statuses: Seq<Status>, status: Status) -> int {
    choose|index: int| is_first_occurrence(statuses, status, index)
}

/// How often `status` occurs in `statuses`.
pub open spec fn occurrences(statuses: Seq<Status>, status: Status) -> nat
    decreases statuses.len(),
{
    if statuses.len() == 0 {
        0
    } else {
        let rest = occurrences(statuses.drop_last(), status);
        if statuses.last() == status {
            rest + 1
        } else {
            rest
        }
    }
}

/// `statuses` with `status` added at the end, unless an equal entry is
/// already there.
pub open spec fn with_status(statuses: Seq<Status>, status: Status) -> Seq<Status> {
    if statuses.contains(status) {
        statuses
    } else {
        statuses.push(status)
    }
}

/// `statuses` without its first entry that equals `status`. The order of the
/// other entries stays.
pub open spec fn without_status(statuses: Seq<Status>, status: Status) -> Seq<Status> {
    if statuses.contains(status) {
        statuses.remove(first_occurrence(statuses, status))
    } else {
        statuses
    }
}

/// Looks for the first entry of `statuses` that equals `status`.
pub fn position(statuses: &Vec<Status>, status: &Status) -> (found: Option<usize>)
    ensures
        match found {
            Some(index) => is_first_occurrence(statuses@, *status, index as int),
            None => !statuses@.contains(*status),
        },
        found is Some <==> statuses@.contains(*status),
        found matches Some(index) ==> index as int == first_occurrence(statuses@, *status),
{
    let mut i: usize = 0;
    while i < statuses.len()
        invariant
            i <= statuses.len(),
            forall|j: int| 0 <= j < i ==> statuses@[j] != *status,
        decreases statuses.len() - i,
    {
        if statuses[i] == *status {
            proof {
                lemma_first_occurrence_unique(statuses@, *status, i as int);
            }
            return Some(i);
        }
        i += 1;
    }
    None
}

/// An entry that occurs at all has exactly one first occurrence, and
/// [`first_occurrence`] names it.
pub proof fn lemma_first_occurrence_unique(statuses: Seq<Status>, status: Status, index: int)
    requires
        is_first_occurrence(statuses, status, index),
    ensures
        first_occurrence(statuses, status) == index,
        statuses.contains(status),
{
    let chosen = first_occurrence(statuses, status);
    assert(is_first_occurrence(statuses, status, chosen));
    if chosen < index {
        assert(statuses[chosen] != status);
    } else if index < chosen {
        assert(statuses[index] != status);
    }
}

/// Every entry that occurs has a first occurrence.
pub proof fn lemma_first_occurrence_exists(statuses: Seq<Status>, status: Status)
    requires
        statuses.contains(status),
    ensures
        is_first_occurrence(statuses, status, first_occurrence(statuses, status)),
{
    let at = choose|i: int| 0 <= i < statuses.len() && statuses[i] == status;
    lemma_first_at_or_before(statuses, status, at);
}

proof fn lemma_first_at_or_before(statuses: Seq<Status>, status: Status, index: int)
    requires
        0 <= index < statuses.len(),
        statuses[index] == status,
    ensures
        exists|first: int| first <= index && is_first_occurrence(statuses, status, first),
    decreases index,
{
    if exists|j: int| 0 <= j < index && statuses[j] == status {
        let j = choose|j: int| 0 <= j < index && statuses[j] == status;
        lemma_first_at_or_before(statuses, status, j);
    } else {
        assert(is_first_occurrence(statuses, status, index));
    }
}

/// An entry that does not occur is counted zero times.
pub proof fn lemma_occurrences_of_absent(statuses: Seq<Status>, status: Status)
    requires
        !statuses.contains(status),
    ensures
        occurrences(statuses, status) == 0,
    decreases statuses.len(),
{
    if statuses.len() > 0 {
        let front = statuses.drop_last();
        assert(statuses.last() == statuses[statuses.len() - 1]);
        assert forall|i: int| 0 <= i < front.len() implies front[i] != status by {
            assert(front[i] == statuses[i]);
        }
        lemma_occurrences_of_absent(front, status);
    }
}

/// In a list without duplicates an entry that occurs is counted once.
pub proof fn lemma_occurrences_without_duplicates(statuses: Seq<Status>, status: Status)
    requires
        statuses.no_duplicates(),
        statuses.contains(status),
    ensures
        occurrences(statuses, status) == 1,
    decreases statuses.len(),
{
    let front = statuses.drop_last();
    let last = statuses.len() - 1;
    assert(front.no_duplicates());
    if statuses.last() == status {
        assert forall|i: int| 0 <= i < front.len() implies front[i] != status by {
            assert(front[i] == statuses[i]);
            assert(statuses[i] != statuses[last]);
        }
        lemma_occurrences_of_absent(front, status);
    } else {
        let at = choose|i: int| 0 <= i < statuses.len() && statuses[i] == status;
        assert(front[at] == status);
        lemma_occurrences_without_duplicates(front, status);
    }
}

/// Adding a condition a second time changes nothing.
pub proof fn lemma_with_status_idempotent(statuses: Seq<Status>, status: Status)
    ensures
        with_status(with_status(statuses, status), status) == with_status(statuses, status),
        with_status(statuses, status).contains(status),
{
    let once = with_status(statuses, status);
    if !statuses.contains(status) {
        assert(once[statuses.len() as int] == status);
    }
}

/// Adding a condition to a list without duplicates gives a list without
/// duplicates that holds the condition exactly once, and every entry that was
/// there before stays at its place.
pub proof fn lemma_with_status_keeps_distinct(statuses: Seq<Status>, status: Status)
    requires
        statuses.no_duplicates(),
    ensures
        with_status(statuses, status).no_duplicates(),
        occurrences(with_status(statuses, status), status) == 1,
        statuses.is_prefix_of(with_status(statuses, status)),
{
    let once = with_status(statuses, status);
    lemma_with_status_idempotent(statuses, status);
    if !statuses.contains(status) {
        assert forall|i: int, j: int|
            0 <= i < once.len() && 0 <= j < once.len() && i != j implies once[i] != once[j] by {
            if i < statuses.len() {
                assert(once[i] == statuses[i]);
            }
            if j < statuses.len() {
                assert(once[j] == statuses[j]);
            }
        }
    }
    lemma_occurrences_without_duplicates(once, status);
}

/// Removing a condition takes out one entry equal to it, if there is one,
/// and no other entry.
pub proof fn lemma_without_status_others_stay(
    statuses: Seq<Status>,
    status: Status,
    other: Status,
)
    requires
        other != status,
    ensures
        without_status(statuses, status).contains(other) <==> statuses.contains(other),
        statuses.contains(status) ==> without_status(statuses, status).len() == statuses.len() - 1,
        !statuses.contains(status) ==> without_status(statuses, status) == statuses,
{
    if statuses.contains(status) {
        lemma_first_occurrence_exists(statuses, status);
        let at = first_occurrence(statuses, status);
        let rest = statuses.remove(at);
        if statuses.contains(other) {
            let i = choose|i: int| 0 <= i < statuses.len() && statuses[i] == other;
            if i < at {
                assert(rest[i] == other);
            } else {
                assert(rest[i - 1] == other);
            }
        }
        if rest.contains(other) {
            let i = choose|i: int| 0 <= i < rest.len() && rest[i] == other;
            if i < at {
                assert(statuses[i] == other);
            } else {
                assert(statuses[i + 1] == other);
            }
        }
    }
}

/// After a condition is removed from a list without duplicates, the list
/// holds it no longer and still has no duplicates.
pub proof fn lemma_without_status_absent(statuses: Seq<Status>, status: Status)
    requires
        statuses.no_duplicates(),
    ensures
        !without_status(statuses, status).contains(status),
        without_status(statuses, status).no_duplicates(),
{
    if statuses.contains(status) {
        lemma_first_occurrence_exists(statuses, status);
        let at = first_occurrence(statuses, status);
        let rest = statuses.remove(at);
        assert forall|i: int| 0 <= i < rest.len() implies rest[i] != status by {
            if i < at {
                assert(rest[i] == statuses[i]);
            } else {
                assert(rest[i] == statuses[i + 1]);
            }
        }
        assert forall|i: int, j: int|
            0 <= i < rest.len() && 0 <= j < rest.len() && i != j implies rest[i] != rest[j] by {
            let from_i = if i < at { i } else { i + 1 };
            let from_j = if j < at { j } else { j + 1 };
            assert(rest[i] == statuses[from_i]);
            assert(rest[j] == statuses[from_j]);
        }
    }
}

} // verus!
