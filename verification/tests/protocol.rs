//! One call at a time, with a stand-in for the native engine that computes
//! a simple moving average the way the native engine reports it.

use rust_ta_lib::call::{
    conclude, filled, native_integer, prepare, shared_length, CallPlan, Computed, NativeReport,
    MAX_LENGTH,
};
use rust_ta_lib::error::{CallError, Condition};
use rust_ta_lib::operation::{Indicator, Operation, Precision};
use rust_ta_lib::status::{is_success, BAD_PARAM, SUCCESS};

const OUT_OF_RANGE_END_INDEX: u32 = 13;
const DEFAULT_PERIOD: i32 = 30;

fn double(indicator: Indicator) -> Operation {
    Operation { indicator, precision: Precision::Double }
}

fn single(indicator: Indicator) -> Operation {
    Operation { indicator, precision: Precision::Single }
}

fn refused(operation: Operation, condition: Condition) -> CallError {
    CallError { operation, condition }
}

/// A moving average over `input[start..=end]`, written to the front of
/// `output` and reported as the native engine reports: a period of
/// `i32::MIN` asks for the default period, and any other period outside
/// 1 to 100000 is refused.
fn average_engine(start: i32, end: i32, input: &[f64], period: i32, output: &mut [f64]) -> NativeReport {
    if end < 0 || end < start {
        return NativeReport { status: OUT_OF_RANGE_END_INDEX, begin: 0, count: 0 };
    }
    let period = if period == i32::MIN { DEFAULT_PERIOD } else { period };
    if period < 1 || period > 100000 {
        return NativeReport { status: BAD_PARAM, begin: 0, count: 0 };
    }
    let lookback = period - 1;
    let first = if start < lookback { lookback } else { start };
    if first > end {
        return NativeReport { status: SUCCESS, begin: 0, count: 0 };
    }
    let mut count = 0usize;
    for at in first..=end {
        let window = &input[(at - lookback) as usize..=at as usize];
        output[count] = window.iter().sum::<f64>() / period as f64;
        count += 1;
    }
    NativeReport { status: SUCCESS, begin: first, count: count as i32 }
}

fn moving_average(period: u32, input: &Vec<f64>) -> Result<Computed<f64>, CallError> {
    let plan = prepare(double(Indicator::Sma), &vec![input.len()])?;
    let mut buffers = plan.allocate(0.0f64);
    let report = average_engine(
        plan.start_index(),
        plan.end_index(),
        input,
        native_integer(period),
        &mut buffers[0],
    );
    conclude(&plan, report, buffers)
}

fn plan_for(indicator: Indicator, length: usize) -> CallPlan {
    let lengths = vec![length; indicator.inputs()];
    prepare(double(indicator), &lengths).unwrap()
}

#[test]
fn moving_average_of_three_samples() {
    let computed = moving_average(2, &vec![1.0, 2.0, 3.0]).unwrap();
    assert_eq!(computed.offset, 1);
    assert_eq!(computed.outputs, vec![vec![1.5, 2.5]]);
}

#[test]
fn one_series_of_four_is_short() {
    let high = vec![1.0f64; 20];
    let low = vec![1.0f64; 20];
    let close = vec![1.0f64; 20];
    let volume = vec![1.0f64; 19];
    let lengths = vec![high.len(), low.len(), close.len(), volume.len()];
    let operation = double(Indicator::Ad);
    assert_eq!(prepare(operation, &lengths), Err(refused(operation, Condition::ShapeMismatch)));
    let operation = double(Indicator::Mfi);
    assert_eq!(prepare(operation, &lengths), Err(refused(operation, Condition::ShapeMismatch)));
}

#[test]
fn period_of_zero_fails_with_the_native_status() {
    let result = moving_average(0, &vec![1.0, 2.0, 3.0]);
    assert_eq!(
        result,
        Err(refused(double(Indicator::Sma), Condition::ComputationFailed { status: 2 }))
    );
}

#[test]
fn single_sample_with_lookback_gives_no_results() {
    let computed = moving_average(2, &vec![4.0]).unwrap();
    assert_eq!(computed.outputs, vec![Vec::<f64>::new()]);
    assert_eq!(computed.offset, 0);
}

#[test]
fn period_of_one_copies_the_input() {
    let input = vec![3.0, 1.0, 4.0, 1.0, 5.0];
    let computed = moving_average(1, &input).unwrap();
    assert_eq!(computed.offset, 0);
    assert_eq!(computed.outputs, vec![input]);
}

#[test]
fn empty_input_is_handed_on_and_fails_natively() {
    let plan = prepare(double(Indicator::Sma), &vec![0]).unwrap();
    assert_eq!(plan.start_index(), 0);
    assert_eq!(plan.end_index(), -1);
    assert_eq!(plan.capacity(), 0);
    assert_eq!(
        moving_average(2, &Vec::new()),
        Err(refused(double(Indicator::Sma), Condition::ComputationFailed { status: 13 }))
    );
}

#[test]
fn output_is_input_length_less_offset() {
    let input: Vec<f64> = (0..20).map(|i| i as f64).collect();
    for period in 1..=20u32 {
        let computed = moving_average(period, &input).unwrap();
        assert_eq!(computed.offset, period as i32 - 1);
        assert!(0 <= computed.offset && computed.offset as usize <= input.len());
        assert_eq!(computed.outputs.len(), 1);
        assert_eq!(computed.outputs[0].len(), input.len() - computed.offset as usize);
    }
    let computed = moving_average(21, &input).unwrap();
    assert_eq!(computed.offset, 0);
    assert_eq!(computed.outputs[0].len(), 0);
}

#[test]
fn same_call_twice_gives_identical_bits() {
    let input = vec![1.087010, 1.087120, 1.087080, 1.087170, 1.087110, 1.087010, 1.087100];
    let first = moving_average(3, &input).unwrap();
    let second = moving_average(3, &input).unwrap();
    assert_eq!(first.offset, second.offset);
    let first_bits: Vec<u64> = first.outputs[0].iter().map(|x| x.to_bits()).collect();
    let second_bits: Vec<u64> = second.outputs[0].iter().map(|x| x.to_bits()).collect();
    assert_eq!(first_bits, second_bits);
    assert_eq!(first_bits.len(), 5);
}

#[test]
fn plan_spans_the_whole_input() {
    let plan = plan_for(Indicator::Stoch, 20);
    assert_eq!(plan.target(), double(Indicator::Stoch));
    assert_eq!(plan.start_index(), 0);
    assert_eq!(plan.end_index(), 19);
    assert_eq!(plan.capacity(), 20);
}

#[test]
fn buffers_are_one_for_each_output_and_as_long_as_the_input() {
    let plan = plan_for(Indicator::Macd, 4);
    assert_eq!(plan.allocate(7u8), vec![vec![7u8; 4], vec![7u8; 4], vec![7u8; 4]]);
    let plan = plan_for(Indicator::Stoch, 2);
    assert_eq!(plan.allocate(-1i64), vec![vec![-1i64, -1], vec![-1i64, -1]]);
    let plan = plan_for(Indicator::Rsi, 0);
    assert_eq!(plan.allocate(0.0f64), vec![Vec::<f64>::new()]);
}

#[test]
fn filled_repeats_the_sample() {
    assert_eq!(filled(2.5f64, 3), vec![2.5, 2.5, 2.5]);
    assert_eq!(filled('x', 0), Vec::<char>::new());
}

#[test]
fn shared_length_of_series() {
    assert_eq!(shared_length(&vec![]), Some(0));
    assert_eq!(shared_length(&vec![5]), Some(5));
    assert_eq!(shared_length(&vec![5, 5, 5, 5]), Some(5));
    assert_eq!(shared_length(&vec![5, 5, 6]), None);
    assert_eq!(shared_length(&vec![4, 5, 5]), None);
    assert_eq!(shared_length(&vec![0, 0]), Some(0));
}

#[test]
fn wrong_number_of_series_is_a_shape_mismatch() {
    let operation = double(Indicator::Stoch);
    let mismatch = Err(refused(operation, Condition::ShapeMismatch));
    assert_eq!(prepare(operation, &vec![]), mismatch);
    assert_eq!(prepare(operation, &vec![20, 20]), mismatch);
    assert_eq!(prepare(operation, &vec![20, 20, 20, 20]), mismatch);
    assert!(prepare(operation, &vec![20, 20, 20]).is_ok());
}

#[test]
fn differing_lengths_come_before_length_limit() {
    let operation = single(Indicator::Obv);
    assert_eq!(
        prepare(operation, &vec![MAX_LENGTH + 1, MAX_LENGTH]),
        Err(refused(operation, Condition::ShapeMismatch))
    );
}

#[test]
fn input_beyond_native_index_is_too_long() {
    let operation = single(Indicator::Obv);
    assert_eq!(
        prepare(operation, &vec![MAX_LENGTH + 1, MAX_LENGTH + 1]),
        Err(refused(operation, Condition::InputTooLong))
    );
    let plan = prepare(operation, &vec![MAX_LENGTH, MAX_LENGTH]).unwrap();
    assert_eq!(plan.end_index(), i32::MAX - 1);
    assert_eq!(plan.capacity(), MAX_LENGTH);
}

#[test]
fn every_output_is_cut_to_the_reported_count() {
    let plan = plan_for(Indicator::Bbands, 5);
    let buffers = vec![vec![1, 2, 3, 4, 5], vec![6, 7, 8, 9, 10], vec![11, 12, 13, 14, 15]];
    let report = NativeReport { status: SUCCESS, begin: 2, count: 3 };
    assert_eq!(
        conclude(&plan, report, buffers),
        Ok(Computed { outputs: vec![vec![1, 2, 3], vec![6, 7, 8], vec![11, 12, 13]], offset: 2 })
    );
}

#[test]
fn failure_status_is_carried_in_the_error() {
    let plan = plan_for(Indicator::Rsi, 5);
    for status in [1u32, 2, 3, 13, 5000, 0xffff, u32::MAX] {
        let report = NativeReport { status, begin: 0, count: 5 };
        assert_eq!(
            conclude(&plan, report, plan.allocate(0.0f64)),
            Err(refused(double(Indicator::Rsi), Condition::ComputationFailed { status }))
        );
    }
}

#[test]
fn failure_status_comes_before_span_check() {
    let plan = plan_for(Indicator::Rsi, 5);
    let report = NativeReport { status: BAD_PARAM, begin: -1, count: 99 };
    assert_eq!(
        conclude(&plan, report, plan.allocate(0.0f64)),
        Err(refused(double(Indicator::Rsi), Condition::ComputationFailed { status: BAD_PARAM }))
    );
}

#[test]
fn span_outside_the_input_is_an_invalid_report() {
    let plan = plan_for(Indicator::Rsi, 5);
    let invalid = Err(refused(double(Indicator::Rsi), Condition::InvalidReport));
    let spans = [(0, 6), (1, 5), (5, 1), (6, 0), (-1, 2), (0, -1), (i32::MAX, i32::MAX), (i32::MIN, 0)];
    for (begin, count) in spans {
        let report = NativeReport { status: SUCCESS, begin, count };
        assert_eq!(conclude(&plan, report, plan.allocate(0.0f64)), invalid);
    }
    for (begin, count) in [(0, 5), (1, 4), (5, 0), (0, 0), (2, 1)] {
        let report = NativeReport { status: SUCCESS, begin, count };
        let computed = conclude(&plan, report, plan.allocate(0.0f64)).unwrap();
        assert_eq!(computed.offset, begin);
        assert_eq!(computed.outputs, vec![vec![0.0; count as usize]]);
    }
}

#[test]
fn count_beyond_a_buffer_is_an_invalid_report() {
    let plan = plan_for(Indicator::Mama, 5);
    let report = NativeReport { status: SUCCESS, begin: 1, count: 4 };
    let short = vec![vec![0.0f64; 5], vec![0.0f64; 3]];
    assert_eq!(
        conclude(&plan, report, short),
        Err(refused(double(Indicator::Mama), Condition::InvalidReport))
    );
    let exact = vec![vec![0.5f64; 4], vec![0.25f64; 9]];
    assert_eq!(
        conclude(&plan, report, exact),
        Ok(Computed { outputs: vec![vec![0.5; 4], vec![0.25; 4]], offset: 1 })
    );
}

#[test]
fn no_buffers_give_no_outputs() {
    let plan = plan_for(Indicator::Sma, 3);
    let report = NativeReport { status: SUCCESS, begin: 1, count: 2 };
    assert_eq!(
        conclude(&plan, report, Vec::<Vec<f64>>::new()),
        Ok(Computed { outputs: vec![], offset: 1 })
    );
}

#[test]
fn unsigned_parameter_is_handed_on_or_held_at_the_largest_signed_value() {
    assert_eq!(native_integer(0), 0);
    assert_eq!(native_integer(1), 1);
    assert_eq!(native_integer(10), 10);
    assert_eq!(native_integer(100000), 100000);
    assert_eq!(native_integer(100001), 100001);
    assert_eq!(native_integer(0x7fff_fffe), i32::MAX - 1);
    assert_eq!(native_integer(0x7fff_ffff), i32::MAX);
    assert_eq!(native_integer(0x8000_0000), i32::MAX);
    assert_eq!(native_integer(0x8000_0001), i32::MAX);
    assert_eq!(native_integer(u32::MAX - 1), i32::MAX);
    assert_eq!(native_integer(u32::MAX), i32::MAX);
}

#[test]
fn period_beyond_the_signed_range_fails_with_the_native_status() {
    let failed = Err(refused(double(Indicator::Sma), Condition::ComputationFailed { status: BAD_PARAM }));
    let input = vec![1.0, 2.0, 3.0];
    assert_eq!(moving_average(2147483648, &input), failed);
    assert_eq!(moving_average(2147483649, &input), failed);
    assert_eq!(moving_average(u32::MAX, &input), failed);
    assert_eq!(moving_average(2147483647, &input), failed);
    assert_eq!(moving_average(100001, &input), failed);
    let long: Vec<f64> = (0..40).map(|i| i as f64).collect();
    assert_eq!(moving_average(2147483648, &long), failed);
}

#[test]
fn default_period_is_only_what_the_caller_of_the_engine_asks_for() {
    // The engine's own mark for the default period still works when it is handed
    // over as such; no unsigned period turns into it.
    let long: Vec<f64> = (0..40).map(|i| i as f64).collect();
    let mut output = vec![0.0; 40];
    let report = average_engine(0, 39, &long, i32::MIN, &mut output);
    assert_eq!(report, NativeReport { status: SUCCESS, begin: 29, count: 11 });
    for period in [0x8000_0000u32, 0x8000_0001, u32::MAX] {
        assert!(native_integer(period) != i32::MIN);
        assert!(native_integer(period) > 100000);
    }
}

#[test]
fn success_is_status_zero() {
    assert_eq!(SUCCESS, 0);
    assert_eq!(BAD_PARAM, 2);
    assert!(is_success(0));
    assert!(!is_success(1));
    assert!(!is_success(2));
    assert!(!is_success(u32::MAX));
}
