pub mod intent;
pub mod owner_override;
pub mod settlement;

use vstd::prelude::*;

use crate::errors::ErrorCode;

verus! {

/// Whether a call did what `expected` says of it: where `expected` is a
/// refusal, the call returned that error and left the accounts as they
/// were; where it is a success, the call returned its outcome and left the
/// accounts as it says.
pub open spec fn carried_out<C, O>(
    expected: Result<(C, O), ErrorCode>,
    before: C,
    after: C,
    returned: Result<O, ErrorCode>,
) -> bool {
    match expected {
        Ok((accounts, outcome)) => returned == Ok::<O, ErrorCode>(outcome) && after == accounts,
        Err(e) => returned == Err::<O, ErrorCode>(e) && after == before,
    }
}

} // verus!
