//! Completion percentage reported after each transfer of a batch.

use vstd::prelude::*;

verus! {

/// The percentage of a batch of `total` recipients that is done once
/// `done` transfers are confirmed, rounded down.
pub open spec fn percent_of(done: nat, total: nat) -> nat
    recommends
        total > 0,
{
    (done * 100) / total
}

/// Percentage complete after the transfer at position `index` (from zero) of
/// a batch of `total` recipients: `(index + 1) * 100 / total`, rounded down.
/// `None` for an empty batch or a position outside it.
pub fn progress_percent(index: usize, total: usize) -> (r: Option<u8>)
    ensures
        r.is_some() <==> index < total,
        r matches Some(p) ==> p == percent_of((index + 1) as nat, total as nat) && p <= 100,
{
    if index >= total {
        return None;
    }
    let done: u128 = index as u128 + 1;
    let all: u128 = total as u128;
    let scaled: u128 = done * 100;
    let p: u128 = scaled / all;
    assert(p <= 100) by (nonlinear_arith)
        requires
            p == (done * 100) / (all as int),
            1 <= done <= all,
    ;
    Some(p as u8)
}

/// The last transfer of a batch brings the percentage to 100.
pub proof fn law_last_transfer_completes(total: nat)
    requires
        total > 0,
    ensures
        percent_of(total, total) == 100,
{
    assert((total * 100) / total == 100) by (nonlinear_arith)
        requires
            total > 0,
    ;
}

/// The percentage never falls from one transfer to the next.
pub proof fn law_percent_never_falls(done: nat, later: nat, total: nat)
    requires
        total > 0,
        done <= later,
    ensures
        percent_of(done, total) <= percent_of(later, total),
{
    assert((done * 100) / total <= (later * 100) / total) by (nonlinear_arith)
        requires
            total > 0,
            done <= later,
    ;
}

} // verus!
