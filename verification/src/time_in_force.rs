//! How long an order remains active if it is not immediately filled.

use vstd::prelude::*;
use crate::text::str_eq;

verus! {

/// Time-in-force policy of an order.
#[derive(Clone, Copy, Debug)]
pub enum TimeInForce {
    GoodTillCancelled,
    ImmediateOrCancel,
    FillOrKill,
    Day,
    GoodTillDate,
}

/// The wire string of a time-in-force policy.
pub open spec fn time_in_force_wire(t: TimeInForce) -> Seq<char> {
    match t {
        TimeInForce::GoodTillCancelled => "FTC"@,
        TimeInForce::ImmediateOrCancel => "IOC"@,
        TimeInForce::FillOrKill => "FOK"@,
        TimeInForce::Day => "Day"@,
        TimeInForce::GoodTillDate => "GTD"@,
    }
}

impl TimeInForce {
    /// The fixed wire string of this policy.
    pub fn to_string(self) -> (r: &'static str)
        ensures
            r@ == time_in_force_wire(self),
    {
        match self {
            TimeInForce::GoodTillCancelled => "FTC",
            TimeInForce::ImmediateOrCancel => "IOC",
            TimeInForce::FillOrKill => "FOK",
            TimeInForce::Day => "Day",
            TimeInForce::GoodTillDate => "GTD",
        }
    }

    /// The policy written by a wire string, if any.
    pub fn from_wire(s: &str) -> (r: Option<TimeInForce>)
        ensures
            r matches Some(t) ==> time_in_force_wire(t) == s@,
            r is None ==> (forall|t: TimeInForce| time_in_force_wire(t) != s@),
    {
        if str_eq(s, "FTC") {
            Some(TimeInForce::GoodTillCancelled)
        } else if str_eq(s, "IOC") {
            Some(TimeInForce::ImmediateOrCancel)
        } else if str_eq(s, "FOK") {
            Some(TimeInForce::FillOrKill)
        } else if str_eq(s, "Day") {
            Some(TimeInForce::Day)
        } else if str_eq(s, "GTD") {
            Some(TimeInForce::GoodTillDate)
        } else {
            proof {
                assert forall|t: TimeInForce| time_in_force_wire(t) != s@ by {
                    match t {
                        TimeInForce::GoodTillCancelled => assert(time_in_force_wire(t) == "FTC"@),
                        TimeInForce::ImmediateOrCancel => assert(time_in_force_wire(t) == "IOC"@),
                        TimeInForce::FillOrKill => assert(time_in_force_wire(t) == "FOK"@),
                        TimeInForce::Day => assert(time_in_force_wire(t) == "Day"@),
                        TimeInForce::GoodTillDate => assert(time_in_force_wire(t) == "GTD"@),
                    }
                }
            }
            None
        }
    }
}

/// Two distinct time-in-force policies never share a wire string, so a
/// policy survives the round trip through its wire form.
pub proof fn lemma_time_in_force_wire_injective(a: TimeInForce, b: TimeInForce)
    requires
        time_in_force_wire(a) == time_in_force_wire(b),
    ensures
        a == b,
{
    reveal_strlit("FTC");
    reveal_strlit("IOC");
    reveal_strlit("FOK");
    reveal_strlit("Day");
    reveal_strlit("GTD");
    assert("FTC"@[0] == 'F' && "FTC"@[1] == 'T');
    assert("IOC"@[0] == 'I' && "IOC"@[1] == 'O');
    assert("FOK"@[0] == 'F' && "FOK"@[1] == 'O');
    assert("Day"@[0] == 'D' && "Day"@[1] == 'a');
    assert("GTD"@[0] == 'G' && "GTD"@[1] == 'T');
    match (a, b) {
        (TimeInForce::GoodTillCancelled, TimeInForce::GoodTillCancelled) => {},
        (TimeInForce::ImmediateOrCancel, TimeInForce::ImmediateOrCancel) => {},
        (TimeInForce::FillOrKill, TimeInForce::FillOrKill) => {},
        (TimeInForce::Day, TimeInForce::Day) => {},
        (TimeInForce::GoodTillDate, TimeInForce::GoodTillDate) => {},
        (TimeInForce::GoodTillCancelled, TimeInForce::FillOrKill) => {
            assert(time_in_force_wire(a)[1] != time_in_force_wire(b)[1]);
        },
        (TimeInForce::FillOrKill, TimeInForce::GoodTillCancelled) => {
            assert(time_in_force_wire(a)[1] != time_in_force_wire(b)[1]);
        },
        _ => {
            assert(time_in_force_wire(a)[0] != time_in_force_wire(b)[0]);
        },
    }
}

} // verus!
