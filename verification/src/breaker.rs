//! The circuit breaker: one switch that blocks new obligations while it is
//! active, and that only the admin may turn.

use vstd::prelude::*;

use crate::address::Address;
use crate::error::Error;

verus! {

/// The state of the circuit breaker after `caller` asks to switch it, or the
/// reason for which the switch is refused. Where no admin is known, nobody may
/// switch it.
pub open spec fn switched(admin: Option<&Address>, caller: Seq<char>, active: bool) -> Result<
    bool,
    Error,
> {
    match admin {
        Some(admin) => if admin@ == caller {
            Ok(!active)
        } else {
            Err(Error::NotAuthorized)
        },
        None => Err(Error::NotAuthorized),
    }
}

/// Decides a request of `caller` to switch the circuit breaker, which is
/// `active` or not: the admin gets the opposite state, everyone else is
/// refused.
pub fn switch(admin: Option<&Address>, caller: &Address, active: bool) -> (outcome: Result<
    bool,
    Error,
>)
    ensures
        outcome == switched(admin, caller@, active),
{
    match admin {
        Some(admin) => {
            if admin.same(caller) {
                Ok(!active)
            } else {
                Err(Error::NotAuthorized)
            }
        },
        None => Err(Error::NotAuthorized),
    }
}

} // verus!
