use vstd::prelude::*;

verus! {

/// Which of two raced operations finished first, with its output.
pub enum FirstOrSecond<A, B> {
    First(A),
    Second(B),
}

/// The outcome of one poll of a race: the first operand that is ready wins,
/// the first operand being looked at before the second; `None` while both
/// are still pending.
pub open spec fn race_outcome<A, B>(first: Option<A>, second: Option<B>) -> Option<FirstOrSecond<A, B>> {
    match first {
        Some(a) => Some(FirstOrSecond::First(a)),
        None => match second {
            Some(b) => Some(FirstOrSecond::Second(b)),
            None => None,
        },
    }
}

/// Decides one poll of a race between two operations, given what each one
/// produced on this poll (`None`: still pending). The loser is dropped.
pub fn resolve_race<A, B>(first: Option<A>, second: Option<B>) -> (r: Option<FirstOrSecond<A, B>>)
    ensures
        r == race_outcome(first, second),
{
    match first {
        Some(a) => Some(FirstOrSecond::First(a)),
        None => match second {
            Some(b) => Some(FirstOrSecond::Second(b)),
            None => None,
        },
    }
}

/// Racing an operation that is ready at once against one that never finishes
/// gives the ready one's output at the first poll, on whichever side it
/// stands; when both are ready, the first operand wins.
pub proof fn lemma_ready_operand_wins<A, B>(a: A, b: B)
    ensures
        race_outcome::<A, B>(Some(a), None) == Some(FirstOrSecond::<A, B>::First(a)),
        race_outcome::<B, A>(None, Some(a)) == Some(FirstOrSecond::<B, A>::Second(a)),
        race_outcome::<A, B>(Some(a), Some(b)) == Some(FirstOrSecond::<A, B>::First(a)),
        race_outcome::<A, B>(None, None) is None,
{
}

} // verus!
