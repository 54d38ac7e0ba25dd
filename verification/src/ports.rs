use vstd::prelude::*;
use crate::error::ProvisionError;

verus! {

/// The ports of `used`, as a set.
pub open spec fn used_set(used: Seq<i64>) -> Set<int> {
    Set::new(|p: int| exists|i: int| 0 <= i < used.len() && used[i] as int == p)
}

/// `p` lies in `[lo, hi)` and no server holds it.
pub open spec fn is_free(used: Set<int>, lo: int, hi: int, p: int) -> bool {
    lo <= p < hi && !used.contains(p)
}

/// The lowest free port in `[lo, hi)`, if the range has one.
pub open spec fn lowest_free(used: Set<int>, lo: int, hi: int) -> Option<int>
    decreases hi - lo,
{
    if lo >= hi {
        None
    } else if !used.contains(lo) {
        Some(lo)
    } else {
        lowest_free(used, lo + 1, hi)
    }
}

/// `lowest_free` answers with the minimum of the free ports, and with
/// `None` exactly when the used set covers the whole range.
pub proof fn lemma_lowest_free_is_minimum(used: Set<int>, lo: int, hi: int)
    ensures
        match lowest_free(used, lo, hi) {
            Some(p) => is_free(used, lo, hi, p)
                && forall|q: int| is_free(used, lo, hi, q) ==> p <= q,
            None => forall|q: int| lo <= q < hi ==> used.contains(q),
        },
    decreases hi - lo,
{
    if lo < hi && used.contains(lo) {
        lemma_lowest_free_is_minimum(used, lo + 1, hi);
        match lowest_free(used, lo + 1, hi) {
            Some(p) => {
                assert forall|q: int| is_free(used, lo, hi, q) implies p <= q by {
                    assert(is_free(used, lo + 1, hi, q));
                }
            },
            None => {},
        }
    }
}

/// The allocation depends on the used ports only as a set: order and
/// repetitions in the list of used ports do not matter, and the same set
/// and range always give the same port.
pub proof fn lemma_allocation_depends_on_set(a: Seq<i64>, b: Seq<i64>, lo: int, hi: int)
    requires
        used_set(a) =~= used_set(b),
    ensures
        lowest_free(used_set(a), lo, hi) == lowest_free(used_set(b), lo, hi),
{
}

/// Whether `port` occurs in `used`.
pub fn port_in_use(used: &Vec<i64>, port: i64) -> (r: bool)
    ensures
        r == used_set(used@).contains(port as int),
{
    let mut i: usize = 0;
    while i < used.len()
        invariant
            i <= used.len(),
            forall|j: int| 0 <= j < i ==> used@[j] != port,
        decreases used.len() - i,
    {
        if used[i] == port {
            return true;
        }
        i += 1;
    }
    false
}

/// Picks the lowest port in `[min_port, max_port)` that is not in `used`.
/// Fails with `NoPortAvailable` when the range is empty or fully taken.
pub fn allocate_port(used: &Vec<i64>, min_port: i64, max_port: i64) -> (r: Result<
    i64,
    ProvisionError,
>)
    ensures
        match r {
            Ok(p) => is_free(used_set(used@), min_port as int, max_port as int, p as int)
                && forall|q: int|
                    is_free(used_set(used@), min_port as int, max_port as int, q) ==> p <= q,
            Err(e) => e == ProvisionError::NoPortAvailable
                && forall|q: int| min_port <= q < max_port ==> used_set(used@).contains(q),
        },
        r is Ok ==> lowest_free(used_set(used@), min_port as int, max_port as int) == Some(
            r->Ok_0 as int,
        ),
        r is Err ==> lowest_free(used_set(used@), min_port as int, max_port as int) is None,
{
    let mut candidate: i64 = min_port;
    while candidate < max_port
        invariant
            min_port <= candidate || min_port >= max_port,
            candidate <= max_port || min_port >= max_port,
            forall|q: int| min_port <= q < candidate ==> used_set(used@).contains(q),
            lowest_free(used_set(used@), min_port as int, max_port as int) == lowest_free(
                used_set(used@),
                candidate as int,
                max_port as int,
            ),
        decreases max_port - candidate,
    {
        if !port_in_use(used, candidate) {
            return Ok(candidate);
        }
        candidate += 1;
    }
    Err(ProvisionError::NoPortAvailable)
}

} // verus!
