use vstd::prelude::*;

verus! {

/// The number of job slots of a pool configured for `max_workers`: at
/// least one.
pub fn pool_capacity(max_workers: usize) -> (r: usize)
    ensures
        r == (if max_workers >= 1 { max_workers } else { 1 }),
{
    if max_workers >= 1 {
        max_workers
    } else {
        1
    }
}

/// The in-flight count after trying to start a job: no job starts while
/// the pool refuses work or every slot is taken.
pub open spec fn started_count(accepting: bool, in_flight: int, capacity: int) -> Option<int> {
    if !accepting || in_flight >= capacity {
        None
    } else {
        Some(in_flight + 1)
    }
}

/// The in-flight count after a job finished (none when nothing was in
/// flight), and whether the waiters for an idle pool are woken: they are
/// when the pool is idle afterwards.
pub open spec fn finished_count(in_flight: int) -> (Option<int>, bool) {
    if in_flight <= 0 {
        (None, true)
    } else {
        (Some(in_flight - 1), in_flight <= 1)
    }
}

pub fn start_job_count(accepting: bool, in_flight: usize, capacity: usize) -> (r: Option<usize>)
    ensures
        match r {
            Some(n) => started_count(accepting, in_flight as int, capacity as int) == Some(n as int),
            None => started_count(accepting, in_flight as int, capacity as int) is None,
        },
{
    if !accepting || in_flight >= capacity {
        None
    } else {
        Some(in_flight + 1)
    }
}

pub fn finish_job_count(in_flight: usize) -> (r: (Option<usize>, bool))
    ensures
        r.1 == finished_count(in_flight as int).1,
        match r.0 {
            Some(n) => finished_count(in_flight as int).0 == Some(n as int),
            None => finished_count(in_flight as int).0 is None,
        },
{
    if in_flight == 0 {
        (None, true)
    } else {
        (Some(in_flight - 1), in_flight <= 1)
    }
}

/// Starting jobs never takes the pool past its capacity, and a started job
/// that finishes returns the pool to the count it had.
pub proof fn law_pool_stays_within_capacity(accepting: bool, in_flight: int, capacity: int)
    requires
        0 <= in_flight <= capacity,
    ensures
        started_count(accepting, in_flight, capacity) matches Some(n) ==> n <= capacity
            && finished_count(n).0 == Some(in_flight),
{
}

} // verus!
