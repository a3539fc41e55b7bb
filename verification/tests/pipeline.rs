use std::cell::Cell;
use std::marker::PhantomData;

use error_combinator::check::{Check, CheckOutcome, CheckState, ResultCheckBuilder};
use error_combinator::cmberr::{DefaultCombine, VecCombine};

struct Checked;
struct Unchecked;
struct ErrState<StartsWithHello, Min6, EndsWithWorld, IncludesAbc> {
    _starts_with_hello: PhantomData<StartsWithHello>,
    _min6: PhantomData<Min6>,
    _ends_with_world: PhantomData<EndsWithWorld>,
    _includes_abc: PhantomData<IncludesAbc>,
}

type S0 = ErrState<Unchecked, Unchecked, Unchecked, Unchecked>;
type S1 = ErrState<Checked, Unchecked, Unchecked, Unchecked>;
type S2 = ErrState<Checked, Checked, Unchecked, Unchecked>;
type S3 = ErrState<Checked, Checked, Checked, Unchecked>;
type S4 = ErrState<Checked, Checked, Checked, Checked>;

#[derive(Debug, PartialEq, Clone, Copy)]
enum ValidateErr {
    StartsWithHelloErr,
    Min6Err,
    EndsWithWorldErr,
    IncludesAbcErr,
}

fn decide<'a, Pre, Post>(
    ok: bool,
    data: CheckState<&'a str, Pre>,
    err: ValidateErr,
) -> CheckOutcome<&'a str, Post, ValidateErr> {
    if ok {
        CheckOutcome::Passed(CheckState::new(data.value))
    } else {
        CheckOutcome::Failed { state: CheckState::new(data.value), err }
    }
}

fn starts_with_hello(data: CheckState<&str, S0>) -> CheckOutcome<&str, S1, ValidateErr> {
    decide(data.value.starts_with("hello"), data, ValidateErr::StartsWithHelloErr)
}

fn min6(data: CheckState<&str, S1>) -> CheckOutcome<&str, S2, ValidateErr> {
    decide(6 < data.value.len(), data, ValidateErr::Min6Err)
}

fn ends_with_world(data: CheckState<&str, S2>) -> CheckOutcome<&str, S3, ValidateErr> {
    decide(data.value.ends_with("world"), data, ValidateErr::EndsWithWorldErr)
}

fn includes_abc(data: CheckState<&str, S3>) -> CheckOutcome<&str, S4, ValidateErr> {
    decide(data.value.contains("abc"), data, ValidateErr::IncludesAbcErr)
}

fn run_and_chain(s: &str) -> Result<&str, (&str, Vec<ValidateErr>)> {
    let checker = starts_with_hello
        .and::<_, VecCombine<ValidateErr>>(min6)
        .and::<_, VecCombine<ValidateErr>>(ends_with_world)
        .and::<_, VecCombine<ValidateErr>>(includes_abc);
    checker.check(CheckState::new(s)).to_result_with_value()
}

fn run_or_chain(s: &str) -> Result<&str, (&str, Vec<ValidateErr>)> {
    let checker = starts_with_hello
        .or::<_, VecCombine<ValidateErr>>(min6)
        .or::<_, VecCombine<ValidateErr>>(ends_with_world)
        .or::<_, VecCombine<ValidateErr>>(includes_abc);
    match checker.check(CheckState::new(s)) {
        CheckOutcome::Passed(state) => Ok(state.value),
        CheckOutcome::Failed { state, err } => Err((state.value, err)),
    }
}

#[test]
fn new_wraps_the_value() {
    let state: CheckState<Vec<u8>, Unchecked> = CheckState::new(vec![1, 2, 3]);
    assert_eq!(state.value, vec![1, 2, 3]);
}

#[test]
fn a_function_is_a_check() {
    match starts_with_hello.check(CheckState::new("hello abc world")) {
        CheckOutcome::Passed(state) => assert_eq!(state.value, "hello abc world"),
        CheckOutcome::Failed { .. } => panic!("starts with hello"),
    }
    match starts_with_hello.check(CheckState::new("abc world")) {
        CheckOutcome::Passed(_) => panic!("does not start with hello"),
        CheckOutcome::Failed { state, err } => {
            assert_eq!(state.value, "abc world");
            assert_eq!(err, ValidateErr::StartsWithHelloErr);
        }
    }
}

#[test]
fn and_chain_passes_hello_abc_world() {
    assert_eq!(run_and_chain("hello abc world"), Ok("hello abc world"));
}

#[test]
fn and_chain_fails_hello_dashes_at_ends_with() {
    assert_eq!(run_and_chain("hello--"), Err(("hello--", vec![ValidateErr::EndsWithWorldErr])));
}

#[test]
fn and_chain_reports_the_first_failing_step_only() {
    assert_eq!(
        run_and_chain("abc world"),
        Err(("abc world", vec![ValidateErr::StartsWithHelloErr]))
    );
    assert_eq!(run_and_chain("hello"), Err(("hello", vec![ValidateErr::Min6Err])));
    assert_eq!(
        run_and_chain("hello abc"),
        Err(("hello abc", vec![ValidateErr::EndsWithWorldErr]))
    );
    assert_eq!(
        run_and_chain("hello world"),
        Err(("hello world", vec![ValidateErr::IncludesAbcErr]))
    );
}

#[test]
fn or_chain_passes_only_when_every_step_passes() {
    assert_eq!(run_or_chain("hello abc world"), Ok("hello abc world"));
}

#[test]
fn or_chain_collects_every_failure_in_order() {
    assert_eq!(
        run_or_chain("abc world"),
        Err(("abc world", vec![ValidateErr::StartsWithHelloErr]))
    );
    assert_eq!(
        run_or_chain("hello world"),
        Err(("hello world", vec![ValidateErr::IncludesAbcErr]))
    );
    assert_eq!(
        run_or_chain("hello abc"),
        Err(("hello abc", vec![ValidateErr::EndsWithWorldErr]))
    );
    assert_eq!(
        run_or_chain("hello--"),
        Err(("hello--", vec![ValidateErr::EndsWithWorldErr, ValidateErr::IncludesAbcErr]))
    );
    assert_eq!(
        run_or_chain("abc----"),
        Err(("abc----", vec![ValidateErr::StartsWithHelloErr, ValidateErr::EndsWithWorldErr]))
    );
    assert_eq!(
        run_or_chain("world--"),
        Err((
            "world--",
            vec![
                ValidateErr::StartsWithHelloErr,
                ValidateErr::EndsWithWorldErr,
                ValidateErr::IncludesAbcErr
            ]
        ))
    );
    assert_eq!(
        run_or_chain("x"),
        Err((
            "x",
            vec![
                ValidateErr::StartsWithHelloErr,
                ValidateErr::Min6Err,
                ValidateErr::EndsWithWorldErr,
                ValidateErr::IncludesAbcErr
            ]
        ))
    );
}

fn or_pair(s: &str) -> Result<&str, (&str, Vec<ValidateErr>)> {
    match starts_with_hello.or::<_, VecCombine<ValidateErr>>(min6).check(CheckState::new(s)) {
        CheckOutcome::Passed(state) => Ok(state.value),
        CheckOutcome::Failed { state, err } => Err((state.value, err)),
    }
}

#[test]
fn or_passes_when_both_pass() {
    assert_eq!(or_pair("hello world"), Ok("hello world"));
}

#[test]
fn or_fails_with_the_right_error_when_only_the_left_passes() {
    assert_eq!(or_pair("hello"), Err(("hello", vec![ValidateErr::Min6Err])));
}

#[test]
fn or_surfaces_the_left_failure_when_the_right_passes() {
    assert_eq!(
        or_pair("good morning"),
        Err(("good morning", vec![ValidateErr::StartsWithHelloErr]))
    );
}

#[test]
fn or_merges_left_then_right_when_both_fail() {
    assert_eq!(
        or_pair("abc"),
        Err(("abc", vec![ValidateErr::StartsWithHelloErr, ValidateErr::Min6Err]))
    );
}

#[test]
fn single_slot_keeps_the_last_error() {
    let outcome = starts_with_hello
        .or::<_, DefaultCombine<ValidateErr>>(min6)
        .check(CheckState::new("abc"));
    match outcome {
        CheckOutcome::Passed(_) => panic!("both checks fail"),
        CheckOutcome::Failed { state, err } => {
            assert_eq!(state.value, "abc");
            assert_eq!(err, ValidateErr::Min6Err);
        }
    }
    let outcome = starts_with_hello
        .and::<_, DefaultCombine<ValidateErr>>(min6)
        .check(CheckState::new("abc"));
    match outcome {
        CheckOutcome::Passed(_) => panic!("the left check fails"),
        CheckOutcome::Failed { err, .. } => assert_eq!(err, ValidateErr::StartsWithHelloErr),
    }
    let outcome = starts_with_hello
        .or::<_, DefaultCombine<ValidateErr>>(min6)
        .check(CheckState::new("good morning"));
    match outcome {
        CheckOutcome::Passed(_) => panic!("the left failure is surfaced"),
        CheckOutcome::Failed { err, .. } => assert_eq!(err, ValidateErr::StartsWithHelloErr),
    }
}

#[test]
fn and_does_not_run_the_right_check_after_a_left_failure() {
    let left_runs = Cell::new(0);
    let right_runs = Cell::new(0);
    let left = |data: CheckState<u32, Unchecked>| -> CheckOutcome<u32, Checked, ValidateErr> {
        left_runs.set(left_runs.get() + 1);
        CheckOutcome::Failed { state: CheckState::new(data.value), err: ValidateErr::Min6Err }
    };
    let right = |data: CheckState<u32, Checked>| -> CheckOutcome<u32, Checked, ValidateErr> {
        right_runs.set(right_runs.get() + 1);
        CheckOutcome::Passed(data)
    };
    match left.and::<_, VecCombine<ValidateErr>>(right).check(CheckState::new(5)) {
        CheckOutcome::Passed(_) => panic!("the left check fails"),
        CheckOutcome::Failed { state, err } => {
            assert_eq!(state.value, 5);
            assert_eq!(err, vec![ValidateErr::Min6Err]);
        }
    }
    assert_eq!(left_runs.get(), 1);
    assert_eq!(right_runs.get(), 0);
}

#[test]
fn and_runs_each_check_once_on_the_pass_path() {
    let left_runs = Cell::new(0);
    let right_runs = Cell::new(0);
    let left = |data: CheckState<u32, Unchecked>| -> CheckOutcome<u32, Checked, ValidateErr> {
        left_runs.set(left_runs.get() + 1);
        CheckOutcome::Passed(CheckState::new(data.value))
    };
    let right = |data: CheckState<u32, Checked>| -> CheckOutcome<u32, Checked, ValidateErr> {
        right_runs.set(right_runs.get() + 1);
        CheckOutcome::Passed(data)
    };
    match left.and::<_, VecCombine<ValidateErr>>(right).check(CheckState::new(5)) {
        CheckOutcome::Passed(state) => assert_eq!(state.value, 5),
        CheckOutcome::Failed { .. } => panic!("both checks pass"),
    }
    assert_eq!(left_runs.get(), 1);
    assert_eq!(right_runs.get(), 1);
}

#[test]
fn or_runs_the_right_check_after_either_outcome_of_the_left() {
    let right_runs = Cell::new(0);
    let pass = |data: CheckState<u32, Unchecked>| -> CheckOutcome<u32, Checked, ValidateErr> {
        CheckOutcome::Passed(CheckState::new(data.value))
    };
    let fail = |data: CheckState<u32, Unchecked>| -> CheckOutcome<u32, Checked, ValidateErr> {
        CheckOutcome::Failed { state: CheckState::new(data.value), err: ValidateErr::Min6Err }
    };
    let right = |data: CheckState<u32, Checked>| -> CheckOutcome<u32, Checked, ValidateErr> {
        right_runs.set(right_runs.get() + 1);
        CheckOutcome::Passed(data)
    };
    match pass.or::<_, VecCombine<ValidateErr>>(&right).check(CheckState::new(1)) {
        CheckOutcome::Passed(state) => assert_eq!(state.value, 1),
        CheckOutcome::Failed { .. } => panic!("both checks pass"),
    }
    assert_eq!(right_runs.get(), 1);
    match fail.or::<_, VecCombine<ValidateErr>>(&right).check(CheckState::new(2)) {
        CheckOutcome::Passed(_) => panic!("the left failure is surfaced"),
        CheckOutcome::Failed { state, err } => {
            assert_eq!(state.value, 2);
            assert_eq!(err, vec![ValidateErr::Min6Err]);
        }
    }
    assert_eq!(right_runs.get(), 2);
}

#[test]
fn running_a_pipeline_twice_gives_the_same_outcome() {
    for s in ["hello abc world", "abc world", "hello world", "hello abc", "hello--", "abc----", "world--"] {
        assert_eq!(run_and_chain(s), run_and_chain(s));
        assert_eq!(run_or_chain(s), run_or_chain(s));
    }
}

#[derive(Debug, PartialEq)]
enum ListErr {
    LengthNot10,
    FirstNot0,
}

struct Raw;
struct Sized10;
struct Starts0;

fn length_10(data: CheckState<Vec<usize>, Raw>) -> CheckOutcome<Vec<usize>, Sized10, ListErr> {
    if data.value.len() == 10 {
        CheckOutcome::Passed(CheckState::new(data.value))
    } else {
        CheckOutcome::Failed { state: CheckState::new(data.value), err: ListErr::LengthNot10 }
    }
}

fn first_is_0(data: CheckState<Vec<usize>, Sized10>) -> CheckOutcome<Vec<usize>, Starts0, ListErr> {
    if data.value.first() == Some(&0) {
        CheckOutcome::Passed(CheckState::new(data.value))
    } else {
        CheckOutcome::Failed { state: CheckState::new(data.value), err: ListErr::FirstNot0 }
    }
}

#[test]
fn list_of_ten_starting_at_zero_passes() {
    let input: Vec<usize> = (0..10).collect();
    match length_10.and::<_, VecCombine<ListErr>>(first_is_0).check(CheckState::new(input)) {
        CheckOutcome::Passed(state) => assert_eq!(state.value, vec![0, 1, 2, 3, 4, 5, 6, 7, 8, 9]),
        CheckOutcome::Failed { .. } => panic!("ten items, the first is 0"),
    }
}

#[test]
fn list_of_three_fails_with_the_length_error_alone() {
    match length_10.and::<_, VecCombine<ListErr>>(first_is_0).check(CheckState::new(vec![1, 2, 3]))
    {
        CheckOutcome::Passed(_) => panic!("three items are not ten"),
        CheckOutcome::Failed { state, err } => {
            assert_eq!(state.value, vec![1, 2, 3]);
            assert_eq!(err, vec![ListErr::LengthNot10]);
        }
    }
    match length_10
        .and::<_, DefaultCombine<ListErr>>(first_is_0)
        .check(CheckState::new(vec![1, 2, 3]))
    {
        CheckOutcome::Passed(_) => panic!("three items are not ten"),
        CheckOutcome::Failed { err, .. } => assert_eq!(err, ListErr::LengthNot10),
    }
}

#[test]
fn list_of_ten_not_starting_at_zero_fails_at_the_second_step() {
    let input: Vec<usize> = (1..11).collect();
    match length_10.and::<_, VecCombine<ListErr>>(first_is_0).check(CheckState::new(input)) {
        CheckOutcome::Passed(_) => panic!("the first item is 1"),
        CheckOutcome::Failed { state, err } => {
            assert_eq!(state.value.len(), 10);
            assert_eq!(err, vec![ListErr::FirstNot0]);
        }
    }
}

fn is_even(n: &u64) -> Result<(), String> {
    if n % 2 == 0 {
        Ok(())
    } else {
        Err(format!("{} is odd", n))
    }
}

fn is_small(n: &u64) -> Result<(), String> {
    if *n < 100 {
        Ok(())
    } else {
        Err(format!("{} is large", n))
    }
}

fn always_ok(_n: &u64) -> Result<(), String> {
    Ok(())
}

#[test]
fn a_predicate_that_passes_hands_the_value_on_unchanged() {
    for n in [0u64, 1, 77, u64::MAX] {
        match ResultCheckBuilder::<Unchecked, Checked>::build(always_ok).check(CheckState::new(n)) {
            CheckOutcome::Passed(state) => assert_eq!(state.value, n),
            CheckOutcome::Failed { .. } => panic!("the predicate accepts every value"),
        }
    }
}

#[test]
fn a_predicate_makes_a_check() {
    match ResultCheckBuilder::<Unchecked, Checked>::build(is_even).check(CheckState::new(4)) {
        CheckOutcome::Passed(state) => assert_eq!(state.value, 4),
        CheckOutcome::Failed { .. } => panic!("4 is even"),
    }
    match ResultCheckBuilder::<Unchecked, Checked>::build(is_even).check(CheckState::new(5)) {
        CheckOutcome::Passed(_) => panic!("5 is odd"),
        CheckOutcome::Failed { state, err } => {
            assert_eq!(state.value, 5);
            assert_eq!(err, "5 is odd");
        }
    }
}

#[test]
fn predicates_compose_like_other_checks() {
    let run = |n: u64| {
        let checker = ResultCheckBuilder::<Unchecked, Checked>::build(is_even)
            .or::<_, VecCombine<String>>(ResultCheckBuilder::<Checked, Checked>::build(is_small));
        match checker.check(CheckState::new(n)) {
            CheckOutcome::Passed(state) => Ok(state.value),
            CheckOutcome::Failed { state, err } => Err((state.value, err)),
        }
    };
    assert_eq!(run(4), Ok(4));
    assert_eq!(run(5), Err((5, vec!["5 is odd".to_string()])));
    assert_eq!(run(200), Err((200, vec!["200 is large".to_string()])));
    assert_eq!(run(201), Err((201, vec!["201 is odd".to_string(), "201 is large".to_string()])));
}

#[test]
fn to_result_gives_the_value_or_the_error() {
    assert_eq!(starts_with_hello.check(CheckState::new("hello")).to_result(), Ok("hello"));
    assert_eq!(
        starts_with_hello.check(CheckState::new("bye")).to_result(),
        Err(ValidateErr::StartsWithHelloErr)
    );
    let passed: CheckOutcome<u8, Checked, ValidateErr> = CheckOutcome::Passed(CheckState::new(3));
    assert_eq!(passed.to_result(), Ok(3));
    let failed: CheckOutcome<u8, Checked, ValidateErr> =
        CheckOutcome::Failed { state: CheckState::new(3), err: ValidateErr::Min6Err };
    assert_eq!(failed.to_result(), Err(ValidateErr::Min6Err));
}

#[test]
fn to_result_with_value_keeps_the_value_that_failed() {
    assert_eq!(
        starts_with_hello.check(CheckState::new("hello")).to_result_with_value(),
        Ok("hello")
    );
    assert_eq!(
        starts_with_hello.check(CheckState::new("bye")).to_result_with_value(),
        Err(("bye", ValidateErr::StartsWithHelloErr))
    );
    let failed: CheckOutcome<u8, Checked, ValidateErr> =
        CheckOutcome::Failed { state: CheckState::new(3), err: ValidateErr::Min6Err };
    assert_eq!(failed.to_result_with_value(), Err((3, ValidateErr::Min6Err)));
}
