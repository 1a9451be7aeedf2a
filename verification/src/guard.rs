use vstd::prelude::*;
use crate::address::{Address, address_eq};
use crate::errors::CancelError;
use crate::state::DealState;

verus! {

/// The callers permitted to initiate cancellation: the two principal parties,
/// the arbiter, and the globally-known service identity.
pub open spec fn authorized(caller: Seq<u8>, d: DealState, service: Seq<u8>) -> bool {
    ||| caller == d.client_key@
    ||| caller == d.executor_key@
    ||| caller == d.checker_key@
    ||| caller == service
}

/// Restricts who may invoke cancellation. Evaluated before any balance is
/// touched; an unauthorized caller stops the whole operation.
pub fn authorize_caller(caller: &Address, deal: &DealState, service: &Address) -> (r: Result<
    (),
    CancelError,
>)
    ensures
        r is Ok <==> authorized(caller@, *deal, service@),
        r is Err ==> r == Result::<(), CancelError>::Err(CancelError::Unauthorized),
{
    if address_eq(caller, &deal.client_key) || address_eq(caller, &deal.executor_key) || address_eq(
        caller,
        &deal.checker_key,
    ) || address_eq(caller, service) {
        Ok(())
    } else {
        Err(CancelError::Unauthorized)
    }
}

} // verus!
