use vstd::prelude::*;

use crate::error::HueError;
use crate::outcome::{
    all_success, extract, extracted, lemma_all_success_keeps_order, outcome_result, payloads,
    seq_result, RpcOutcome,
};

verus! {

/// What a response body means, given the two attempts to decode it: first
/// as the requested value itself, then as a list of outcomes. When both
/// attempts fail, the first attempt's error is kept; an empty list of
/// outcomes is `Empty`; otherwise the first outcome decides.
pub open spec fn reconciled<T>(
    direct: Result<T, HueError>,
    envelope: Result<Seq<RpcOutcome<T>>, HueError>,
) -> Result<T, HueError> {
    match direct {
        Ok(t) => Ok(t),
        Err(e1) => match envelope {
            Err(_) => Err(e1),
            Ok(s) => if s.len() == 0 {
                Err(HueError::Empty)
            } else {
                outcome_result(s[0])
            },
        },
    }
}

/// A reconciled list of outcomes, reduced fail-fast.
pub open spec fn reconciled_extracted<T>(
    direct: Result<Vec<RpcOutcome<T>>, HueError>,
    envelope: Result<Seq<RpcOutcome<Vec<RpcOutcome<T>>>>, HueError>,
) -> Result<Seq<T>, HueError> {
    match reconciled(direct, envelope) {
        Ok(v) => extracted(v@),
        Err(e) => Err(e),
    }
}

/// Turns the two decode attempts of one response body into the call's result.
///
/// `direct` is the body decoded as the requested value; `envelope` is the
/// same body decoded as a list of per-item outcomes, which is looked at only
/// when `direct` failed.
pub fn reconcile<T>(
    direct: Result<T, HueError>,
    envelope: Result<Vec<RpcOutcome<T>>, HueError>,
) -> (r: Result<T, HueError>)
    ensures
        r == reconciled(direct, seq_result(envelope)),
{
    match direct {
        Ok(t) => Ok(t),
        Err(e1) => match envelope {
            Err(_) => Err(e1),
            Ok(mut v) => {
                if v.len() == 0 {
                    Err(HueError::Empty)
                } else {
                    let first = v.swap_remove(0);
                    first.into_result()
                }
            },
        },
    }
}

/// Reconciles a response that should be a list of outcomes, then reduces
/// that list fail-fast to its payloads.
pub fn reconcile_and_extract<T>(
    direct: Result<Vec<RpcOutcome<T>>, HueError>,
    envelope: Result<Vec<RpcOutcome<Vec<RpcOutcome<T>>>>, HueError>,
) -> (r: Result<Vec<T>, HueError>)
    ensures
        seq_result(r) == reconciled_extracted(direct, seq_result(envelope)),
{
    match reconcile(direct, envelope) {
        Ok(v) => extract(v),
        Err(e) => Err(e),
    }
}

/// A body that decodes directly as the requested value yields that value,
/// whatever the second attempt gave.
pub proof fn lemma_direct_shape_first<T>(t: T, envelope: Result<Seq<RpcOutcome<T>>, HueError>)
    ensures
        reconciled(Ok::<T, HueError>(t), envelope) == Ok::<T, HueError>(t),
{
}

/// A non-empty list of successes only, read through the reconciler and then
/// reduced, yields its payloads in their order.
pub proof fn lemma_successes_pass_through<T>(
    v: Vec<RpcOutcome<T>>,
    envelope: Result<Seq<RpcOutcome<Vec<RpcOutcome<T>>>>, HueError>,
)
    requires
        v@.len() > 0,
        all_success(v@),
    ensures
        reconciled_extracted(Ok::<Vec<RpcOutcome<T>>, HueError>(v), envelope) == Ok::<
            Seq<T>,
            HueError,
        >(payloads(v@)),
        payloads(v@).len() == v@.len(),
        forall|i: int|
            0 <= i < v@.len() ==> v@[i] == RpcOutcome::Success(#[trigger] payloads(v@)[i]),
{
    lemma_all_success_keeps_order(v@);
}

/// When a body is no direct value but an empty list of outcomes, the result
/// is `Empty`.
pub proof fn lemma_empty_envelope<T>(e1: HueError)
    ensures
        reconciled(Err::<T, HueError>(e1), Ok(Seq::<RpcOutcome<T>>::empty())) == Err::<
            T,
            HueError,
        >(HueError::Empty),
{
}

/// When a body decodes in neither shape, the first attempt's error is kept.
pub proof fn lemma_first_error_kept<T>(e1: HueError, e2: HueError)
    ensures
        reconciled(Err::<T, HueError>(e1), Err::<Seq<RpcOutcome<T>>, HueError>(e2)) == Err::<
            T,
            HueError,
        >(e1),
{
}

} // verus!
