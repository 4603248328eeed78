//! The runner: one benchmark run, from the joined trials to the line that
//! is to be printed, if any.

use crate::duration::Duration;
use crate::report::{describe_result, result_line};
use crate::sampler::{mean_nanos, time_many};
use vstd::prelude::*;

verus! {

/// What one run of the benchmark comes to, given its `count` concurrent
/// trials as they were joined.
///
/// A failed join fails the run. A run without a name is a warm-up: its mean
/// is dropped and it reports nothing. A run with a name reports one result
/// line, the mean of its trials under that name.
pub fn run_benchmark<E>(trials: Result<Vec<Duration>, E>, name: Option<&str>, count: u32) -> (report:
    Result<Option<String>, E>)
    requires
        count > 0,
        trials matches Ok(samples) ==> samples.len() == count,
    ensures
        match trials {
            Ok(samples) => report matches Ok(line) && match name {
                Some(runtime) => line matches Some(text) && text@ == result_line(
                    runtime@,
                    mean_nanos(samples@, count as nat),
                ),
                None => line is None,
            },
            Err(error) => report == Err::<Option<String>, E>(error),
        },
{
    match time_many(trials, count) {
        Ok(time) => match name {
            Some(runtime) => Ok(Some(describe_result(runtime, time))),
            None => Ok(None),
        },
        Err(error) => Err(error),
    }
}

} // verus!
