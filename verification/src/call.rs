//! The two decisions around one native computation: what to hand to the
//! native engine, and what to make of the report it hands back.
//!
//! [`prepare`] looks at the lengths of the input series and either refuses
//! the call or plans it: the native engine is to read every sample, from
//! index 0 to the last, and to write into buffers as long as the input.
//! [`conclude`] looks at the native engine's report and either fails the
//! call or cuts the buffers to the results that were written.

use vstd::prelude::*;
use crate::error::{CallError, Condition};
use crate::operation::{Indicator, Operation};
use crate::status::{is_success, succeeded};

verus! {

/// The longest input the native engine can index: its indices are `i32`.
pub const MAX_LENGTH: usize = 0x7fff_ffff;

/// Whether all the series have one and the same length.
pub open spec fn uniform(lengths: Seq<usize>) -> bool {
    forall|i: int, j: int|
        0 <= i < lengths.len() && 0 <= j < lengths.len() ==> lengths[i] == lengths[j]
}

/// The length that the series share: that of the first one, and 0 where
/// there is no series at all.
pub open spec fn common_length(lengths: Seq<usize>) -> nat {
    if lengths.len() == 0 {
        0
    } else {
        lengths[0] as nat
    }
}

/// Returns the length that all the series share, or `None` where two of
/// them differ.
pub fn shared_length(lengths: &[usize]) -> (shared: Option<usize>)
    ensures
        shared is Some <==> uniform(lengths@),
        shared is Some ==> shared->0 == common_length(lengths@),
{
    if lengths.len() == 0 {
        return Some(0);
    }
    let first: usize = lengths[0];
    let mut k: usize = 1;
    while k < lengths.len()
        invariant
            1 <= k <= lengths.len(),
            first == lengths[0],
            forall|i: int| 0 <= i < k ==> lengths[i] == first,
        decreases lengths.len() - k,
    {
        if lengths[k] != first {
            return None;
        }
        k += 1;
    }
    Some(first)
}

/// `count` samples, each of them `fill`.
pub open spec fn repeated<T>(fill: T, count: nat) -> Seq<T> {
    Seq::new(count, |i: int| fill)
}

/// Returns a buffer of `count` samples, each of them `fill`.
pub fn filled<T: Copy>(fill: T, count: usize) -> (buffer: Vec<T>)
    ensures
        buffer@ == repeated(fill, count as nat),
{
    let mut buffer: Vec<T> = Vec::with_capacity(count);
    while buffer.len() < count
        invariant
            buffer@.len() <= count,
            forall|i: int| 0 <= i < buffer@.len() ==> buffer@[i] == fill,
        decreases count - buffer@.len(),
    {
        buffer.push(fill);
    }
    buffer
}

/// An unsigned scalar parameter, such as a period, as it is handed to the
/// native engine, which takes it signed: the value itself where it fits,
/// and `i32::MAX` where it does not. No value comes out negative, and
/// none comes out as another value that the native engine might accept:
/// the periods it accepts end far below `i32::MAX`.
pub open spec fn as_native(value: u32) -> int {
    if value <= i32::MAX {
        value as int
    } else {
        i32::MAX as int
    }
}

/// Returns an unsigned scalar parameter in the signed form in which the
/// native engine takes it. Whether the value lies in the range that the
/// native engine declares for it is not decided here: it is handed on,
/// and a value out of range is for the native engine to refuse with its
/// own status.
pub fn native_integer(value: u32) -> (native: i32)
    ensures
        native == as_native(value),
        0 <= native,
        native == value || (value > i32::MAX && native == i32::MAX),
{
    if value <= 0x7fff_ffff {
        value as i32
    } else {
        i32::MAX
    }
}

/// Whether a call of `indicator` on series of these lengths is let
/// through, and with what input length. In this order: series that are
/// not as many as the indicator reads, or that differ in length, are
/// refused as a shape mismatch; series longer than [`MAX_LENGTH`] are
/// refused as too long; the rest are let through with the length they
/// share.
pub open spec fn admission(indicator: Indicator, lengths: Seq<usize>) -> Result<nat, Condition> {
    if lengths.len() != indicator.input_count() || !uniform(lengths) {
        Err(Condition::ShapeMismatch)
    } else if common_length(lengths) > MAX_LENGTH {
        Err(Condition::InputTooLong)
    } else {
        Ok(common_length(lengths))
    }
}

/// What the native engine is to be handed for one call. A plan is made by
/// [`prepare`] alone, so its input length is one the native engine can
/// index.
#[derive(Clone, Copy, Debug, PartialEq, Eq)]
pub struct CallPlan {
    operation: Operation,
    length: usize,
}

impl CallPlan {
    /// A plan's input length is at most [`MAX_LENGTH`].
    #[verifier::type_invariant]
    pub closed spec fn well_formed(&self) -> bool {
        self.length <= MAX_LENGTH
    }

    /// The operation that the plan is for.
    pub closed spec fn operation(&self) -> Operation {
        self.operation
    }

    /// The number of samples in each input series.
    pub closed spec fn input_length(&self) -> nat {
        self.length as nat
    }

    /// Returns the operation that the plan is for.
    pub fn target(&self) -> (operation: Operation)
        ensures
            operation == self.operation(),
    {
        self.operation
    }

    /// Returns the index of the first input sample the native engine is
    /// to read: always the first one.
    pub fn start_index(&self) -> (index: i32)
        ensures
            index == 0,
    {
        0
    }

    /// Returns the index of the last input sample the native engine is
    /// to read: the last one there is, and -1 for an empty input.
    pub fn end_index(&self) -> (index: i32)
        ensures
            index == self.input_length() - 1,
    {
        proof {
            use_type_invariant(self);
        }
        (self.length as i32) - 1
    }

    /// Returns the number of samples each output buffer must hold: as many
    /// as an input series, since no indicator writes more.
    pub fn capacity(&self) -> (samples: usize)
        ensures
            samples == self.input_length(),
    {
        self.length
    }

    /// Returns the output buffers for the call: one for each output series
    /// of the indicator, each of [`capacity`](Self::capacity) samples, all
    /// of them `fill`.
    pub fn allocate<T: Copy>(&self, fill: T) -> (buffers: Vec<Vec<T>>)
        ensures
            contents(buffers@) == repeated(
                repeated(fill, self.input_length()),
                self.operation().indicator.output_count(),
            ),
    {
        let wanted: usize = self.operation.indicator.outputs();
        let mut buffers: Vec<Vec<T>> = Vec::with_capacity(wanted);
        while buffers.len() < wanted
            invariant
                buffers@.len() <= wanted,
                forall|k: int|
                    0 <= k < buffers@.len() ==> (#[trigger] buffers@[k])@ == repeated(
                        fill,
                        self.input_length(),
                    ),
            decreases wanted - buffers@.len(),
        {
            buffers.push(filled(fill, self.length));
        }
        buffers
    }
}

/// Whether `result` is what [`admission`] says of a call of `operation`:
/// a plan for the operation and the length that was let through, or the
/// condition that refused the call under the operation's name.
pub open spec fn prepares(
    operation: Operation,
    lengths: Seq<usize>,
    result: Result<CallPlan, CallError>,
) -> bool {
    match result {
        Ok(plan) => {
            &&& plan.well_formed()
            &&& plan.operation() == operation
            &&& admission(operation.indicator, lengths) == Ok::<nat, Condition>(
                plan.input_length(),
            )
        },
        Err(error) => {
            &&& error.operation == operation
            &&& admission(operation.indicator, lengths) == Err::<nat, Condition>(error.condition)
        },
    }
}

/// Decides, before anything native runs, whether the call can be made,
/// and with what: the call is planned exactly where [`admission`] lets it
/// through, and is refused with the condition that `admission` names
/// everywhere else.
pub fn prepare(operation: Operation, lengths: &[usize]) -> (result: Result<CallPlan, CallError>)
    ensures
        prepares(operation, lengths@, result),
{
    if lengths.len() != operation.indicator.inputs() {
        return Err(CallError { operation, condition: Condition::ShapeMismatch });
    }
    match shared_length(lengths) {
        None => Err(CallError { operation, condition: Condition::ShapeMismatch }),
        Some(length) => {
            if length > MAX_LENGTH {
                Err(CallError { operation, condition: Condition::InputTooLong })
            } else {
                Ok(CallPlan { operation, length })
            }
        },
    }
}

/// What the native engine hands back from one computation: its status,
/// the index of the first input sample that has a result, and the number
/// of results it wrote to the front of each output buffer.
#[derive(Clone, Copy, Debug, PartialEq, Eq, Structural)]
pub struct NativeReport {
    pub status: u32,
    pub begin: i32,
    pub count: i32,
}

/// The outcome of a successful call: the output series, each cut to the
/// number of results, and the alignment offset: result `i` of a series
/// belongs to input sample `offset + i`.
#[derive(Debug, PartialEq, Eq)]
pub struct Computed<T> {
    pub outputs: Vec<Vec<T>>,
    pub offset: i32,
}

/// A [`Computed`] as plain sequences.
pub struct ComputedView<T> {
    pub outputs: Seq<Seq<T>>,
    pub offset: int,
}

impl<T> View for Computed<T> {
    type V = ComputedView<T>;

    open spec fn view(&self) -> ComputedView<T> {
        ComputedView { outputs: contents(self.outputs@), offset: self.offset as int }
    }
}

/// Buffers as plain sequences.
pub open spec fn contents<T>(buffers: Seq<Vec<T>>) -> Seq<Seq<T>> {
    Seq::new(buffers.len(), |k: int| buffers[k]@)
}

/// Whether the span of results that `report` names lies inside an input
/// of `length` samples and inside every one of the output buffers.
pub open spec fn span_fits<T>(report: NativeReport, length: nat, buffers: Seq<Seq<T>>) -> bool {
    &&& 0 <= report.begin
    &&& 0 <= report.count
    &&& report.begin + report.count <= length
    &&& forall|k: int| 0 <= k < buffers.len() ==> report.count <= (#[trigger] buffers[k]).len()
}

/// What a call on an input of `length` samples comes to once the native
/// engine has reported. In this order: a status other than success fails
/// the call with that status; a success whose span does not fit is
/// refused as an invalid report; otherwise every buffer is cut to the
/// reported count, and the reported begin is the alignment offset.
pub open spec fn conclusion<T>(length: nat, report: NativeReport, buffers: Seq<Seq<T>>) -> Result<
    ComputedView<T>,
    Condition,
> {
    if !succeeded(report.status) {
        Err(Condition::ComputationFailed { status: report.status })
    } else if !span_fits(report, length, buffers) {
        Err(Condition::InvalidReport)
    } else {
        Ok(
            ComputedView {
                outputs: Seq::new(buffers.len(), |k: int| buffers[k].take(report.count as int)),
                offset: report.begin as int,
            },
        )
    }
}

/// Whether `result` is what [`conclusion`] says of a call of `operation`:
/// the same outcome, or the same condition under the operation's name.
pub open spec fn concludes<T>(
    operation: Operation,
    length: nat,
    report: NativeReport,
    buffers: Seq<Seq<T>>,
    result: Result<ComputedView<T>, CallError>,
) -> bool {
    match result {
        Ok(computed) => conclusion(length, report, buffers) == Ok::<ComputedView<T>, Condition>(
            computed,
        ),
        Err(error) => {
            &&& error.operation == operation
            &&& conclusion(length, report, buffers) == Err::<ComputedView<T>, Condition>(
                error.condition,
            )
        },
    }
}

/// A result of [`conclude`] as plain sequences.
pub open spec fn result_view<T>(result: Result<Computed<T>, CallError>) -> Result<
    ComputedView<T>,
    CallError,
> {
    match result {
        Ok(computed) => Ok(computed@),
        Err(error) => Err(error),
    }
}

/// Decides, once the native engine has reported, what the call returns:
/// what [`conclusion`] says, for the plan's input length and the buffers
/// as they were handed back. Where it returns output series, they lie
/// inside the input: the offset is at most the input length, and each
/// series holds the reported number of results, which counted from the
/// offset end no later than the input.
pub fn conclude<T>(plan: &CallPlan, report: NativeReport, buffers: Vec<Vec<T>>) -> (result: Result<
    Computed<T>,
    CallError,
>)
    ensures
        concludes(
            plan.operation(),
            plan.input_length(),
            report,
            contents(buffers@),
            result_view(result),
        ),
        result matches Ok(computed) ==> {
            &&& 0 <= computed.offset <= plan.input_length()
            &&& computed.outputs@.len() == buffers@.len()
            &&& forall|k: int|
                0 <= k < computed.outputs@.len() ==> {
                    &&& (#[trigger] computed.outputs@[k])@.len() == report.count
                    &&& computed.offset + computed.outputs@[k]@.len() <= plan.input_length()
                }
        },
{
    let operation = plan.operation;
    if !is_success(report.status) {
        return Err(
            CallError { operation, condition: Condition::ComputationFailed { status: report.status } },
        );
    }
    if report.begin < 0 || report.count < 0 {
        return Err(CallError { operation, condition: Condition::InvalidReport });
    }
    let begin: usize = report.begin as usize;
    let count: usize = report.count as usize;
    if count > plan.length || begin > plan.length - count {
        return Err(CallError { operation, condition: Condition::InvalidReport });
    }
    let mut k: usize = 0;
    while k < buffers.len()
        invariant
            k <= buffers.len(),
            succeeded(report.status),
            count == report.count,
            operation == plan.operation(),
            forall|i: int| 0 <= i < k ==> count <= (#[trigger] buffers@[i]).len(),
        decreases buffers.len() - k,
    {
        if buffers[k].len() < count {
            assert(contents(buffers@)[k as int].len() < report.count);
            return Err(CallError { operation, condition: Condition::InvalidReport });
        }
        k += 1;
    }
    assert(span_fits(report, plan.input_length(), contents(buffers@)));
    let ghost before = buffers@;
    let mut outputs = buffers;
    let mut k: usize = 0;
    while k < outputs.len()
        invariant
            k <= outputs.len(),
            outputs@.len() == before.len(),
            forall|i: int| 0 <= i < before.len() ==> count <= (#[trigger] before[i]).len(),
            forall|i: int| 0 <= i < k ==> (#[trigger] outputs@[i])@ == before[i]@.take(count as int),
            forall|i: int| k <= i < before.len() ==> #[trigger] outputs@[i] == before[i],
        decreases outputs.len() - k,
    {
        outputs[k].truncate(count);
        k += 1;
    }
    let computed = Computed { outputs, offset: report.begin };
    assert(computed@.outputs =~= Seq::new(
        before.len(),
        |k: int| contents(before)[k].take(report.count as int),
    ));
    Ok(computed)
}

/// Series that differ in length are refused as a shape mismatch, whatever
/// the indicator and however many they are: no plan is made for them, so
/// nothing is handed to the native engine.
pub proof fn differing_lengths_are_refused(indicator: Indicator, lengths: Seq<usize>)
    requires
        !uniform(lengths),
    ensures
        admission(indicator, lengths) == Err::<nat, Condition>(Condition::ShapeMismatch),
{
}

/// The results of a call lie inside its input: the alignment offset is
/// an index into the input or its length, every output series holds as
/// many results as the native engine reported, and counted from the
/// offset they end no later than the input.
pub proof fn results_lie_within_input<T>(length: nat, report: NativeReport, buffers: Seq<Seq<T>>)
    requires
        conclusion(length, report, buffers) is Ok,
    ensures
        ({
            let computed = conclusion(length, report, buffers)->Ok_0;
            &&& 0 <= computed.offset <= length
            &&& computed.outputs.len() == buffers.len()
            &&& forall|k: int|
                0 <= k < computed.outputs.len() ==> {
                    &&& (#[trigger] computed.outputs[k]).len() == report.count
                    &&& computed.offset + computed.outputs[k].len() <= length
                    &&& computed.outputs[k] == buffers[k].take(report.count as int)
                }
        }),
{
}

/// Where the native engine's results run up to the last input sample,
/// every output series is as long as the input less the alignment offset.
pub proof fn output_length_is_input_less_offset<T>(
    length: nat,
    report: NativeReport,
    buffers: Seq<Seq<T>>,
)
    requires
        conclusion(length, report, buffers) is Ok,
        report.begin + report.count == length,
    ensures
        ({
            let computed = conclusion(length, report, buffers)->Ok_0;
            &&& 0 <= computed.offset <= length
            &&& forall|k: int|
                0 <= k < computed.outputs.len() ==> (#[trigger] computed.outputs[k]).len() == length
                    - computed.offset
        }),
{
}

/// An unsigned parameter is handed to the native engine as what it is or
/// as a value that no range admits: for every range that ends below
/// `i32::MAX`, what is handed on lies in the range exactly if the
/// parameter does, and is then the parameter itself. In particular
/// nothing that is handed on is negative, so no parameter turns into a
/// mark that the native engine reads as a request of its own, such as
/// `i32::MIN`.
pub proof fn parameter_is_not_reinterpreted(value: u32, low: int, high: int)
    requires
        high < i32::MAX,
    ensures
        low <= as_native(value) <= high <==> low <= value <= high,
        low <= as_native(value) <= high ==> as_native(value) == value,
        0 <= as_native(value) <= i32::MAX,
        as_native(value) != i32::MIN,
{
}

/// Buffers as long as the input hold every span that lies inside the
/// input: with them a report of success is refused only for a negative
/// begin or count, or for results that end after the input does.
pub proof fn full_buffers_hold_every_span<T>(
    length: nat,
    report: NativeReport,
    buffers: Seq<Seq<T>>,
)
    requires
        forall|k: int| 0 <= k < buffers.len() ==> (#[trigger] buffers[k]).len() == length,
    ensures
        span_fits(report, length, buffers) <==> 0 <= report.begin && 0 <= report.count
            && report.begin + report.count <= length,
{
}

/// The same call made twice, with the native engine answering alike both
/// times, comes out alike both times: the same plan or the same refusal,
/// and then the same output series, sample for sample, with the same
/// offset, or the same failure.
pub proof fn same_call_same_result<T>(
    operation: Operation,
    lengths: Seq<usize>,
    report: NativeReport,
    buffers: Seq<Seq<T>>,
    plans: (Result<CallPlan, CallError>, Result<CallPlan, CallError>),
    results: (Result<ComputedView<T>, CallError>, Result<ComputedView<T>, CallError>),
)
    requires
        prepares(operation, lengths, plans.0),
        prepares(operation, lengths, plans.1),
        plans.0 matches Ok(plan) ==> concludes(
            plan.operation(),
            plan.input_length(),
            report,
            buffers,
            results.0,
        ),
        plans.1 matches Ok(plan) ==> concludes(
            plan.operation(),
            plan.input_length(),
            report,
            buffers,
            results.1,
        ),
    ensures
        plans.0 == plans.1,
        plans.0 is Ok ==> results.0 == results.1,
{
}

} // verus!
