use vstd::prelude::*;

use crate::error::AppError;

verus! {

/// The lowest port in `[start, start + count)` that is not in `occupied`,
/// if any. The scan order is increasing, so the lowest free port wins.
pub open spec fn lowest_free_port(start: int, count: int, occupied: Seq<u16>) -> Option<u16>
    decreases count,
{
    if count <= 0 || start < 0 || start > u16::MAX {
        None
    } else if !occupied.contains(start as u16) {
        Some(start as u16)
    } else {
        lowest_free_port(start + 1, count - 1, occupied)
    }
}

/// What `lowest_free_port` promises: its result is free, lies in the range,
/// and every lower port of the range is occupied; `None` means the whole
/// range is occupied.
pub proof fn lemma_lowest_free_port_correct(start: int, count: int, occupied: Seq<u16>)
    requires
        0 <= start,
        0 <= count,
        start + count <= u16::MAX + 1,
    ensures
        match lowest_free_port(start, count, occupied) {
            Some(p) => {
                &&& start <= p < start + count
                &&& !occupied.contains(p)
                &&& forall|q: u16| start <= q < p ==> occupied.contains(q)
            },
            None => forall|q: u16| start <= q < start + count ==> occupied.contains(q),
        },
    decreases count,
{
    if count > 0 && occupied.contains(start as u16) {
        lemma_lowest_free_port_correct(start + 1, count - 1, occupied);
    }
}

fn vec_contains_port(v: &Vec<u16>, p: u16) -> (b: bool)
    ensures
        b == v@.contains(p),
{
    let mut i: usize = 0;
    while i < v.len()
        invariant
            i <= v.len(),
            forall|k: int| 0 <= k < i ==> v@[k] != p,
        decreases v.len() - i,
    {
        if v[i] == p {
            return true;
        }
        i = i + 1;
    }
    false
}

/// Scans `[start, start + range)` in increasing order and returns the first
/// port not listed in `occupied`; fails with `NoAvailablePorts` when the
/// whole range is taken. `occupied` stands for the set of candidate ports
/// whose loopback bind failed, gathered by the caller.
pub fn find_available_port(start: u16, range: u16, occupied: &Vec<u16>) -> (r: Result<u16, AppError>)
    requires
        start + range <= u16::MAX + 1,
    ensures
        r == match lowest_free_port(start as int, range as int, occupied@) {
            Some(p) => Ok::<u16, AppError>(p),
            None => Err::<u16, AppError>(AppError::NoAvailablePorts),
        },
{
    let mut i: u16 = 0;
    while i < range
        invariant
            i <= range,
            start + range <= u16::MAX + 1,
            lowest_free_port(start as int, range as int, occupied@) == lowest_free_port(
                start + i as int,
                range - i as int,
                occupied@,
            ),
            forall|q: u16| start <= q < start + i ==> occupied@.contains(q),
        decreases range - i,
    {
        let candidate = start + i;
        if !vec_contains_port(occupied, candidate) {
            return Ok(candidate);
        }
        i = i + 1;
    }
    Err(AppError::NoAvailablePorts)
}

} // verus!
