use vstd::prelude::*;

verus! {

/// Fixed-point timestamp: whole seconds and a binary fraction of a second.
#[derive(Clone, Copy, Debug, PartialEq, Eq, Structural)]
pub struct Time_t {
    pub seconds: i32,
    pub fraction: u32,
}

/// The sentinel value meaning "no timestamp".
pub open spec fn time_invalid_value() -> Time_t {
    Time_t { seconds: -1i32, fraction: 0xffffffffu32 }
}

/// The "no timestamp" sentinel.
pub fn time_invalid() -> (r: Time_t)
    ensures
        r == time_invalid_value(),
{
    Time_t { seconds: -1i32, fraction: 0xffffffffu32 }
}

} // verus!
