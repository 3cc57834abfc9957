use vstd::prelude::*;

use crate::error::{ErrorDetail, HueError};

verus! {

/// One per-item result the bridge reports for a write: it either succeeded
/// with a payload or failed with the bridge's diagnostic.
#[derive(Debug, Clone, PartialEq, Eq)]
pub enum RpcOutcome<T> {
    Success(T),
    Failure(ErrorDetail),
}

/// The result an outcome stands for.
pub open spec fn outcome_result<T>(o: RpcOutcome<T>) -> Result<T, HueError> {
    match o {
        RpcOutcome::Success(t) => Ok(t),
        RpcOutcome::Failure(d) => Err(HueError::Bridge(d)),
    }
}

impl<T> RpcOutcome<T> {
    /// Converts the outcome into a result: a failure becomes a bridge error
    /// carrying the bridge's diagnostic unchanged.
    pub fn into_result(self) -> (r: Result<T, HueError>)
        ensures
            r == outcome_result(self),
    {
        match self {
            RpcOutcome::Success(t) => Ok(t),
            RpcOutcome::Failure(d) => Err(HueError::Bridge(d)),
        }
    }
}


/// Every outcome of the sequence is a success.
pub open spec fn all_success<T>(s: Seq<RpcOutcome<T>>) -> bool {
    forall|i: int| 0 <= i < s.len() ==> (#[trigger] s[i]) is Success
}

/// Index `i` holds the first failure of the sequence.
pub open spec fn is_first_failure<T>(s: Seq<RpcOutcome<T>>, i: int) -> bool {
    &&& 0 <= i < s.len()
    &&& s[i] is Failure
    &&& forall|j: int| 0 <= j < i ==> (#[trigger] s[j]) is Success
}

/// The payloads of a sequence of successes, in order.
pub open spec fn payloads<T>(s: Seq<RpcOutcome<T>>) -> Seq<T> {
    s.map_values(|o: RpcOutcome<T>| o->Success_0)
}

/// Fail-fast extraction: all payloads when every outcome succeeded, else the
/// bridge error of the first failure.
pub open spec fn extracted<T>(s: Seq<RpcOutcome<T>>) -> Result<Seq<T>, HueError> {
    if all_success(s) {
        Ok(payloads(s))
    } else {
        let i = choose|i: int| is_first_failure(s, i);
        Err(HueError::Bridge(s[i]->Failure_0))
    }
}

/// A vector result seen as a sequence result.
pub open spec fn seq_result<T>(r: Result<Vec<T>, HueError>) -> Result<Seq<T>, HueError> {
    match r {
        Ok(v) => Ok(v@),
        Err(e) => Err(e),
    }
}

/// A sequence with a failure in it has exactly one first failure.
pub proof fn lemma_first_failure_exists<T>(s: Seq<RpcOutcome<T>>)
    requires
        !all_success(s),
    ensures
        exists|i: int| is_first_failure(s, i),
    decreases s.len(),
{
    if s.len() > 0 && s[s.len() - 1] is Failure && all_success(s.drop_last()) {
        assert forall|j: int| 0 <= j < s.len() - 1 implies (#[trigger] s[j]) is Success by {
            assert(s.drop_last()[j] == s[j]);
        }
        assert(is_first_failure(s, s.len() - 1));
    } else {
        let t = s.drop_last();
        if all_success(t) {
            assert forall|i: int| 0 <= i < s.len() implies (#[trigger] s[i]) is Success by {
                if i < s.len() - 1 {
                    assert(t[i] == s[i]);
                }
            }
        } else {
            lemma_first_failure_exists(t);
            let i = choose|i: int| is_first_failure(t, i);
            assert forall|j: int| 0 <= j < i implies (#[trigger] s[j]) is Success by {
                assert(t[j] == s[j]);
            }
            assert(t[i] == s[i]);
            assert(is_first_failure(s, i));
        }
    }
}

/// Where the first failure of a sequence stands, extraction yields exactly
/// its bridge error, whatever follows it.
pub proof fn lemma_first_failure_wins<T>(s: Seq<RpcOutcome<T>>, i: int)
    requires
        is_first_failure(s, i),
    ensures
        extracted(s) == Err::<Seq<T>, HueError>(HueError::Bridge(s[i]->Failure_0)),
{
    assert(!all_success(s));
    let k = choose|k: int| is_first_failure(s, k);
    if k < i {
        assert(s[k] is Success);
    } else if i < k {
        assert(s[i] is Success);
    }
}

/// A sequence of successes only extracts to its payloads in their order,
/// one for each outcome.
pub proof fn lemma_all_success_keeps_order<T>(s: Seq<RpcOutcome<T>>)
    requires
        all_success(s),
    ensures
        extracted(s) == Ok::<Seq<T>, HueError>(payloads(s)),
        payloads(s).len() == s.len(),
        forall|i: int| 0 <= i < s.len() ==> s[i] == RpcOutcome::Success(#[trigger] payloads(s)[i]),
{
}

/// Extracting from no outcomes at all succeeds with no payloads.
pub proof fn lemma_extract_empty<T>()
    ensures
        extracted(Seq::<RpcOutcome<T>>::empty()) == Ok::<Seq<T>, HueError>(Seq::<T>::empty()),
{
    assert(payloads(Seq::<RpcOutcome<T>>::empty()) =~= Seq::<T>::empty());
}

/// Reduces per-item outcomes, in order, to all their payloads, or to the
/// bridge error of the first failure; nothing after that failure is looked at.
pub fn extract<T>(responses: Vec<RpcOutcome<T>>) -> (r: Result<Vec<T>, HueError>)
    ensures
        seq_result(r) == extracted(responses@),
{
    let ghost s = responses@;
    let ghost n = s.len();
    let mut rest = responses;
    let mut reversed: Vec<RpcOutcome<T>> = Vec::new();
    while rest.len() > 0
        invariant
            n == s.len(),
            s == responses@,
            rest@ == s.subrange(0, rest@.len() as int),
            reversed@.len() + rest@.len() == n,
            forall|j: int| 0 <= j < reversed@.len() ==> #[trigger] reversed@[j] == s[n - 1 - j],
        decreases rest@.len(),
    {
        let o = rest.pop().unwrap();
        reversed.push(o);
    }
    let mut res_v: Vec<T> = Vec::new();
    while reversed.len() > 0
        invariant
            n == s.len(),
            s == responses@,
            reversed@.len() <= n,
            forall|j: int| 0 <= j < reversed@.len() ==> #[trigger] reversed@[j] == s[n - 1 - j],
            res_v@.len() == n - reversed@.len(),
            forall|j: int| 0 <= j < res_v@.len() ==> s[j] == RpcOutcome::Success(#[trigger] res_v@[j]),
        decreases reversed@.len(),
    {
        let ghost k = res_v@.len() as int;
        assert(reversed@[reversed@.len() - 1] == s[k]);
        let o = reversed.pop().unwrap();
        assert(o == s[k]);
        match o {
            RpcOutcome::Success(t) => {
                res_v.push(t);
            },
            RpcOutcome::Failure(d) => {
                proof {
                    assert forall|j: int| 0 <= j < k implies (#[trigger] s[j]) is Success by {
                        assert(s[j] == RpcOutcome::Success(res_v@[j]));
                    }
                    lemma_first_failure_wins(s, k);
                }
                return Err(HueError::Bridge(d));
            },
        }
    }
    proof {
        assert forall|j: int| 0 <= j < n implies (#[trigger] s[j]) is Success by {
            assert(s[j] == RpcOutcome::Success(res_v@[j]));
        }
        assert(res_v@ =~= payloads(s));
    }
    Ok(res_v)
}

} // verus!
