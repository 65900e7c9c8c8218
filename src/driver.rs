use vstd::prelude::*;

use crate::future_helper::{resolve_race, FirstOrSecond};
use crate::radio::{step, Mode, Radio, Standby, Transition, Uninitialized};

verus! {

/// What the retry loop does after one attempt to enter standby.
pub enum RetryStep {
    /// The attempt succeeded: the loop is over.
    Ready(Radio<Standby>),
    /// The attempt failed: yield to the scheduler, then try again with this
    /// radio.
    Retry(Radio<Uninitialized>),
}

/// One attempt of the loop that retries standby until it succeeds.
pub fn retry_step(radio: Radio<Uninitialized>) -> (r: RetryStep)
    ensures
        radio.data_spec().init_count == 0 ==> (r matches RetryStep::Ready(s) && step(
            Mode::Uninitialized,
            Transition::Standby,
            radio.data_spec(),
        ) == Some((true, Mode::Standby, s.data_spec()))),
        radio.data_spec().init_count > 0 ==> (r matches RetryStep::Retry(u) && step(
            Mode::Uninitialized,
            Transition::Standby,
            radio.data_spec(),
        ) == Some((false, Mode::Uninitialized, u.data_spec()))),
{
    match radio.standby() {
        Ok(s) => RetryStep::Ready(s),
        Err(e) => RetryStep::Retry(e.other),
    }
}

/// The result of racing the retry loop (first operand) against a
/// cancellation (second operand): the radio in standby, or the
/// cancellation's output as the error.
pub fn standby_race_result<E>(outcome: FirstOrSecond<Radio<Standby>, E>) -> (r: Result<
    Radio<Standby>,
    E,
>)
    ensures
        match outcome {
            FirstOrSecond::First(s) => r == Ok::<Radio<Standby>, E>(s),
            FirstOrSecond::Second(c) => r == Err::<Radio<Standby>, E>(c),
        },
{
    match outcome {
        FirstOrSecond::First(s) => Ok(s),
        FirstOrSecond::Second(c) => Err(c),
    }
}

/// What one poll of the race between the retry loop and a cancellation came
/// to.
pub enum RacePoll<E> {
    /// The race is over: the radio in standby, or what the cancellation gave.
    Done(Result<Radio<Standby>, E>),
    /// Neither side is done: the retry loop yields, and the next poll goes on
    /// with this radio.
    Pending(Radio<Uninitialized>),
}

/// One poll of the race between the retry loop and a cancellation, in the
/// order in which the race polls them: the retry side first makes one
/// attempt; only if it fails does the cancellation side count, `cancel`
/// being what it gave on this poll (`None`: it has not fired). When the
/// cancellation wins, the radio of the attempt in flight is dropped.
pub fn poll_retry_race<E>(radio: Radio<Uninitialized>, cancel: Option<E>) -> (r: RacePoll<E>)
    ensures
        radio.data_spec().init_count == 0 ==> (r matches RacePoll::Done(Ok(s))
            && s.data_spec() == radio.data_spec()),
        radio.data_spec().init_count > 0 ==> match cancel {
            Some(c) => r == RacePoll::<E>::Done(Err(c)),
            None => (r matches RacePoll::Pending(u) && step(
                Mode::Uninitialized,
                Transition::Standby,
                radio.data_spec(),
            ) == Some((false, Mode::Uninitialized, u.data_spec()))),
        },
{
    let (ready, back) = match retry_step(radio) {
        RetryStep::Ready(s) => (Some(s), None),
        RetryStep::Retry(u) => (None, Some(u)),
    };
    match resolve_race(ready, cancel) {
        Some(outcome) => RacePoll::Done(standby_race_result(outcome)),
        None => RacePoll::Pending(back.unwrap()),
    }
}

} // verus!
