use vstd::prelude::*;

pub mod future_helper;
pub mod driver;
pub mod radio;
pub mod radio2;

verus! {

/// A failed operation's error together with the owned value it consumed, so
/// the caller gets the value back and can try again.
pub struct ErrorPlus<T, E> {
    pub error: E,
    pub other: T,
}

} // verus!
