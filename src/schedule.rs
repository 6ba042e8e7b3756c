//! The stage plan of a tick: stages run in their declared order, and inside
//! a stage its systems run in registration order.
use vstd::prelude::*;

verus! {

/// A system names a stage that was not declared.
#[derive(Clone, Copy, Debug, PartialEq, Eq, Structural)]
pub enum StageError {
    /// The index of the first such system.
    UnknownStage(usize),
}

/// `name` is one of the declared stages.
pub open spec fn declared(stages: Seq<String>, name: Seq<char>) -> bool {
    exists|k: int| 0 <= k < stages.len() && stages[k]@ == name
}

/// The systems among the first `n` whose stage is `stage`, in ascending order.
pub open spec fn assigned(system_stages: Seq<String>, stage: Seq<char>, n: int) -> Seq<usize>
    decreases n,
{
    if n <= 0 {
        Seq::empty()
    } else if system_stages[n - 1]@ == stage {
        assigned(system_stages, stage, n - 1).push((n - 1) as usize)
    } else {
        assigned(system_stages, stage, n - 1)
    }
}

/// Whether `name` is one of `stages`.
fn is_declared(stages: &Vec<String>, name: &String) -> (r: bool)
    ensures
        r == declared(stages@, name@),
{
    let mut k: usize = 0;
    while k < stages.len()
        invariant
            k <= stages@.len(),
            forall|j: int| 0 <= j < k ==> stages@[j]@ != name@,
        decreases stages@.len() - k,
    {
        if stages[k] == *name {
            return true;
        }
        k = k + 1;
    }
    false
}

/// The systems of `stage`, in registration order.
fn systems_of(system_stages: &Vec<String>, stage: &String) -> (r: Vec<usize>)
    ensures
        r@ == assigned(system_stages@, stage@, system_stages@.len() as int),
{
    let mut r: Vec<usize> = Vec::new();
    let mut i: usize = 0;
    while i < system_stages.len()
        invariant
            i <= system_stages@.len(),
            r@ == assigned(system_stages@, stage@, i as int),
        decreases system_stages@.len() - i,
    {
        if system_stages[i] == *stage {
            r.push(i);
        }
        i = i + 1;
    }
    r
}

/// Plans a tick: `system_stages[i]` is the stage of system `i`. The plan
/// holds, for each declared stage in order, its systems in registration
/// order; the command buffer is flushed after each stage. A system whose
/// stage is not declared is a configuration error.
pub fn plan_stages(stages: &Vec<String>, system_stages: &Vec<String>) -> (r: Result<
    Vec<Vec<usize>>,
    StageError,
>)
    ensures
        r is Ok <==> forall|i: int|
            0 <= i < system_stages@.len() ==> declared(stages@, #[trigger] system_stages@[i]@),
        r matches Err(StageError::UnknownStage(i)) ==> i < system_stages@.len() && !declared(
            stages@,
            system_stages@[i as int]@,
        ) && forall|j: int| 0 <= j < i ==> declared(stages@, #[trigger] system_stages@[j]@),
        r matches Ok(plan) ==> plan@.len() == stages@.len() && forall|k: int|
            0 <= k < stages@.len() ==> #[trigger] plan@[k]@ == assigned(
                system_stages@,
                stages@[k]@,
                system_stages@.len() as int,
            ),
{
    let mut i: usize = 0;
    while i < system_stages.len()
        invariant
            i <= system_stages@.len(),
            forall|j: int| 0 <= j < i ==> declared(stages@, #[trigger] system_stages@[j]@),
        decreases system_stages@.len() - i,
    {
        if !is_declared(stages, &system_stages[i]) {
            return Err(StageError::UnknownStage(i));
        }
        i = i + 1;
    }
    let mut plan: Vec<Vec<usize>> = Vec::new();
    let mut k: usize = 0;
    while k < stages.len()
        invariant
            k <= stages@.len(),
            plan@.len() == k,
            forall|j: int|
                0 <= j < k ==> #[trigger] plan@[j]@ == assigned(
                    system_stages@,
                    stages@[j]@,
                    system_stages@.len() as int,
                ),
        decreases stages@.len() - k,
    {
        plan.push(systems_of(system_stages, &stages[k]));
        k = k + 1;
    }
    Ok(plan)
}

} // verus!
