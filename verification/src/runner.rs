//! Scanning a campaign's observations with a single-state oracle.
use vstd::prelude::*;
use crate::driver::Observation;

verus! {

/// The first step whose post-state an oracle rejected.
#[derive(Clone, Debug)]
pub struct StepViolation {
    pub step: usize,
    pub detail: String,
}

/// The oracle returned `Ok` on `o` in some run of it.
pub open spec fn oracle_cleared<F: Fn(&Observation) -> Result<(), String>>(oracle: F, o: Observation) -> bool {
    exists|res: Result<(), String>| call_ensures(oracle, (&o,), res) && res is Ok
}

/// Return the first observation (in trace order) whose post-state the oracle
/// rejects, with the oracle's detail.
pub fn first_violation<F: Fn(&Observation) -> Result<(), String>>(
    observations: &[Observation],
    oracle: F,
) -> (r: Option<StepViolation>)
    requires
        forall|i: int| 0 <= i < observations@.len() ==> call_requires(oracle, (&observations@[i],)),
    ensures
        r is None ==> forall|i: int|
            0 <= i < observations@.len() ==> #[trigger] oracle_cleared(oracle, observations@[i]),
        r matches Some(v) ==> exists|i: int|
            0 <= i < observations@.len() && v.step == observations@[i].step && call_ensures(
                oracle,
                (&observations@[i],),
                Err::<(), String>(v.detail),
            ) && forall|j: int| 0 <= j < i ==> #[trigger] oracle_cleared(oracle, observations@[j]),
{
    let mut i: usize = 0;
    while i < observations.len()
        invariant
            i <= observations@.len(),
            forall|k: int| 0 <= k < observations@.len() ==> call_requires(oracle, (&observations@[k],)),
            forall|j: int| 0 <= j < i ==> #[trigger] oracle_cleared(oracle, observations@[j]),
        decreases observations@.len() - i,
    {
        let obs = &observations[i];
        let res = oracle(obs);
        match res {
            Ok(()) => {
                assert(oracle_cleared(oracle, observations@[i as int]));
            },
            Err(detail) => {
                return Some(StepViolation { step: obs.step, detail });
            },
        }
        i = i + 1;
    }
    None
}

} // verus!
