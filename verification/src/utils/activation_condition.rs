//! Activation criteria: whether a release of the periodic producer forwards
//! work downstream, as a function of a count of requests.

use vstd::prelude::*;

verus! {

pub const ON_CALL_PROD_MOD: i32 = 5;

pub const LOG_READER_MOD: i32 = 1000;

pub const LOG_READER_ACTV_RATIO: i32 = 3;

/// The count after one more request; it wraps from the largest value to the
/// smallest.
pub open spec fn next_request(count: i32) -> i32 {
    if count == i32::MAX {
        i32::MIN
    } else {
        (count + 1) as i32
    }
}

/// The remainder of `a` by `b` that has the sign of `a`.
pub open spec fn rem(a: int, b: int) -> int
    recommends
        b > 0,
{
    if a >= 0 {
        a % b
    } else {
        -((-a) % b)
    }
}

/// Whether the request numbered `count` activates the on-call producer: one
/// request in five, the second of each five.
pub open spec fn on_call_prod_fires(count: i32) -> bool {
    rem(count as int, 5) == 2
}

/// Whether the request numbered `count` activates the activation log reader:
/// within each thousand requests, those whose number is a multiple of three.
pub open spec fn log_reader_fires(count: i32) -> bool {
    rem(rem(count as int, 1000), 3) == 0
}

fn count_up(requests: &mut i32)
    ensures
        *final(requests) == next_request(*old(requests)),
{
    *requests = requests.wrapping_add(1);
}

/// Counts one more request of the periodic producer and says whether it
/// activates the on-call producer.
pub fn on_call_prod_activation_criterion(requests: &mut i32) -> (fires: bool)
    ensures
        *final(requests) == next_request(*old(requests)),
        fires == on_call_prod_fires(*final(requests)),
{
    count_up(requests);
    *requests % ON_CALL_PROD_MOD == 2
}

/// Counts one more request of the periodic producer and says whether it
/// activates the activation log reader.
pub fn activation_log_reader_criterion(requests: &mut i32) -> (fires: bool)
    ensures
        *final(requests) == next_request(*old(requests)),
        fires == log_reader_fires(*final(requests)),
{
    count_up(requests);
    *requests % LOG_READER_MOD % LOG_READER_ACTV_RATIO == 0
}

/// While the count has not wrapped, the on-call producer is activated by
/// the requests numbered 2, 7, 12, ..., and the activation log reader by
/// those whose last three digits make a multiple of three.
pub proof fn lemma_criteria_on_counts(count: i32)
    requires
        count >= 0,
    ensures
        on_call_prod_fires(count) <==> count % 5 == 2,
        log_reader_fires(count) <==> (count % 1000) % 3 == 0,
        count + 5 <= i32::MAX ==> (on_call_prod_fires(count) <==> on_call_prod_fires(
            (count + 5) as i32,
        )),
        count + 1000 <= i32::MAX ==> (log_reader_fires(count) <==> log_reader_fires(
            (count + 1000) as i32,
        )),
{
}

} // verus!
