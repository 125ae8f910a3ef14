//! One call from end to end, but for the native work itself.
//!
//! [`begin`] checks the input, lets the call into the lifecycle and hands
//! out what the native engine needs. The caller carries out the action it
//! is told, runs the native computation, and comes back with its report.
//! [`finish`] lets the call out of the lifecycle again and decides what it
//! returns. A call that `begin` has let in is let out by `finish` whatever
//! the native engine reported, so a failed call leaves the lifecycle as
//! it found it; and `finish` uses the call up, so it is let out once.

use vstd::prelude::*;
use crate::call::{
    admission, conclude, concludes, contents, prepare, repeated, result_view, uniform, CallPlan,
    Computed, NativeReport,
};
use crate::error::{CallError, Condition};
use crate::lifecycle::{
    action_on_acquire, action_on_release, count_after_release, Lifecycle, NativeAction, Permit,
};
use crate::operation::{Indicator, Operation};

verus! {

/// A call that has been let in: what to do to the native engine first,
/// what to hand it, the buffers it is to write to, and the call's permit.
/// It is made by [`begin`] alone and used up by [`finish`], so a call that
/// was let in is let out once and no more.
#[derive(Debug)]
pub struct Started<T> {
    action: NativeAction,
    plan: CallPlan,
    permit: Permit,
    buffers: Vec<Vec<T>>,
}

/// A [`Started`] as plain values: the action, the plan and what the
/// buffers hold.
pub struct StartedView<T> {
    pub action: NativeAction,
    pub plan: CallPlan,
    pub buffers: Seq<Seq<T>>,
}

impl<T> View for Started<T> {
    type V = StartedView<T>;

    closed spec fn view(&self) -> StartedView<T> {
        StartedView { action: self.action, plan: self.plan, buffers: contents(self.buffers@) }
    }
}

impl<T> Started<T> {
    /// Returns what is to be done to the native engine before it computes.
    pub fn action(&self) -> (action: NativeAction)
        ensures
            action == self@.action,
    {
        self.action
    }

    /// Returns the plan of the call.
    pub fn plan(&self) -> (plan: CallPlan)
        ensures
            plan == self@.plan,
            plan.well_formed(),
    {
        proof {
            use_type_invariant(&self.plan);
        }
        self.plan
    }

    /// Returns the buffers of the call, for the native engine to write to.
    /// Nothing else of the call can be changed through them.
    pub fn buffers_mut(&mut self) -> (buffers: &mut Vec<Vec<T>>)
        ensures
            contents(buffers@) == old(self)@.buffers,
            final(self)@.action == old(self)@.action,
            final(self)@.plan == old(self)@.plan,
            final(self)@.buffers == contents(final(buffers)@),
    {
        &mut self.buffers
    }
}

/// Whether a call is let in while `in_flight` calls are in flight, and
/// with what action and input length. Input that [`admission`] refuses is
/// refused with the same condition; any other call is let in, and told
/// what the lifecycle tells a call that enters.
pub open spec fn entry(in_flight: nat, indicator: Indicator, lengths: Seq<usize>) -> Result<
    (NativeAction, nat),
    Condition,
> {
    match admission(indicator, lengths) {
        Err(condition) => Err(condition),
        Ok(length) => Ok((action_on_acquire(in_flight), length)),
    }
}

/// Checks the input of a call and lets the call into the lifecycle. A
/// call that is refused leaves the lifecycle as it was; one that is let
/// in is counted, and is handed the lifecycle's action, its plan and
/// the buffers of the plan. The lifecycle's counter must have room for
/// one more call.
pub fn begin<T: Copy>(
    lifecycle: &mut Lifecycle,
    operation: Operation,
    lengths: &[usize],
    fill: T,
) -> (result: Result<Started<T>, CallError>)
    requires
        old(lifecycle).in_flight() < usize::MAX,
    ensures
        match result {
            Ok(started) => {
                &&& final(lifecycle).in_flight() == old(lifecycle).in_flight() + 1
                &&& started@.plan.well_formed()
                &&& started@.plan.operation() == operation
                &&& entry(old(lifecycle).in_flight(), operation.indicator, lengths@) == Ok::<
                    (NativeAction, nat),
                    Condition,
                >((started@.action, started@.plan.input_length()))
                &&& started@.buffers == repeated(
                    repeated(fill, started@.plan.input_length()),
                    operation.indicator.output_count(),
                )
            },
            Err(error) => {
                &&& final(lifecycle).in_flight() == old(lifecycle).in_flight()
                &&& error.operation == operation
                &&& entry(old(lifecycle).in_flight(), operation.indicator, lengths@) == Err::<
                    (NativeAction, nat),
                    Condition,
                >(error.condition)
            },
        },
{
    match prepare(operation, lengths) {
        Err(error) => Err(error),
        Ok(plan) => {
            let (action, permit) = lifecycle.acquire();
            let buffers = plan.allocate(fill);
            Ok(Started { action, plan, permit, buffers })
        },
    }
}

/// Lets a call out of the lifecycle and decides what it returns: the
/// lifecycle's action, to be carried out before the lifecycle is let go
/// of, and what [`conclude`] makes of the report, for the call's plan and
/// its buffers as the native engine left them. The call is used up.
pub fn finish<T>(lifecycle: &mut Lifecycle, started: Started<T>, report: NativeReport) -> (outcome: (
    NativeAction,
    Result<Computed<T>, CallError>,
))
    ensures
        final(lifecycle).in_flight() == count_after_release(old(lifecycle).in_flight()),
        outcome.0 == action_on_release(old(lifecycle).in_flight()),
        concludes(
            started@.plan.operation(),
            started@.plan.input_length(),
            report,
            started@.buffers,
            result_view(outcome.1),
        ),
{
    let Started { action: _, plan, permit, buffers } = started;
    let action = lifecycle.release(permit);
    (action, conclude(&plan, report, buffers))
}

/// Series that differ in length keep a call out, however many calls are
/// in flight: the call is refused as a shape mismatch before it is
/// counted and before any action on the native engine is handed out.
pub proof fn differing_lengths_keep_out(in_flight: nat, indicator: Indicator, lengths: Seq<usize>)
    requires
        !uniform(lengths),
    ensures
        entry(in_flight, indicator, lengths) == Err::<(NativeAction, nat), Condition>(
            Condition::ShapeMismatch,
        ),
{
}

/// Whether a call is let in, and with what input length, does not depend
/// on the calls that are in flight beside it: they decide only whether it
/// is the one to have the engine initialized.
pub proof fn entry_is_independent_of_other_calls(
    alone: nat,
    among: nat,
    indicator: Indicator,
    lengths: Seq<usize>,
)
    ensures
        entry(alone, indicator, lengths) is Ok <==> entry(among, indicator, lengths) is Ok,
        entry(alone, indicator, lengths) is Ok ==> entry(alone, indicator, lengths)->Ok_0.1
            == entry(among, indicator, lengths)->Ok_0.1,
        entry(alone, indicator, lengths) is Err ==> entry(alone, indicator, lengths) == entry(
            among,
            indicator,
            lengths,
        ),
{
}

} // verus!
