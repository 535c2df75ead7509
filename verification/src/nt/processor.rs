//! Running a function on each processor of the system in turn.
use vstd::prelude::*;

verus! {

/// Runs the function on processor `i` of `processor_count` through
/// `run_on`, which switches to the processor, calls the function and
/// switches back; none for an index above the count.
pub fn execute_on_processor<E: Fn(u32) -> Option<()>>(i: u32, processor_count: u32, run_on: E) -> (r: Option<()>)
    requires
        call_requires(run_on, (i,)),
    ensures
        i > processor_count ==> r is None,
        i <= processor_count ==> call_ensures(run_on, (i,), r),
{
    if i > processor_count {
        return None;
    }
    run_on(i)
}

/// Runs the function on the processors `0..processor_count` in order
/// through `execute_on_processor`, and stops at the first that fails.
pub fn execute_on_each_processor<E: Fn(u32) -> Option<()>>(processor_count: u32, execute_on_processor: E) -> (r: Option<()>)
    requires
        forall|i: u32| call_requires(execute_on_processor, (i,)),
    ensures
        r is Some ==> forall|i: u32| i < processor_count ==> #[trigger] call_ensures(execute_on_processor, (i,), Some(())),
        r is None ==> exists|i: u32| i < processor_count && #[trigger] call_ensures(execute_on_processor, (i,), None::<()>)
            && forall|j: u32| j < i ==> #[trigger] call_ensures(execute_on_processor, (j,), Some(())),
{
    let mut i: u32 = 0;
    while i < processor_count
        invariant
            i <= processor_count,
            forall|i: u32| call_requires(execute_on_processor, (i,)),
            forall|j: u32| j < i ==> #[trigger] call_ensures(execute_on_processor, (j,), Some(())),
        decreases processor_count - i,
    {
        let status = execute_on_processor(i);
        if status.is_none() {
            return None;
        }
        assert(status == Some(()));
        i = i + 1;
    }
    Some(())
}

} // verus!
