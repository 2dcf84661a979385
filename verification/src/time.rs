use vstd::prelude::*;

verus! {

/// An instant: whole seconds since the Unix epoch, and the nanoseconds that
/// have passed within that second.
#[derive(Clone, Copy, Debug, PartialEq, Eq, Structural)]
pub struct Timestamp {
    pub seconds: i64,
    pub nanos: u32,
}

impl Timestamp {
    pub fn new(seconds: i64, nanos: u32) -> (instant: Self)
        ensures
            instant == (Timestamp { seconds, nanos }),
    {
        Timestamp { seconds, nanos }
    }
}

} // verus!
