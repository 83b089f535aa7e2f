//! Character stats gain entries when new stat types are added.
use vstd::prelude::*;
use crate::defaults::{completed_with, extend_with_defaults};
use crate::text::{err_view, message};

verus! {

/// Gives every character the stats it lacks (admins only): a character
/// with fewer stats than there are stat types gets each missing stat's
/// default (`defaults[t]` is the default of stat type `t`). The result is
/// the number of characters visited.
pub fn migrate_character_stats<T: Copy>(is_admin: bool, stats: &mut Vec<Vec<T>>, defaults: &Vec<T>) -> (r: Result<
    usize,
    String,
>)
    ensures
        !is_admin ==> err_view(r) == Err::<usize, Seq<char>>("Unauthorized"@) && final(stats)@ == old(stats)@,
        is_admin ==> r == Ok::<usize, String>(old(stats)@.len() as usize) && final(stats)@.len() == old(
            stats,
        )@.len() && forall|i: int|
            #![trigger final(stats)@[i]]
            0 <= i < old(stats)@.len() ==> final(stats)@[i]@ == completed_with(
                old(stats)@[i]@,
                defaults@,
                defaults@.len(),
            ),
{
    if !is_admin {
        return Err(message("Unauthorized"));
    }
    let num_types = defaults.len();
    let n = stats.len();
    let mut i: usize = 0;
    while i < n
        invariant
            n == stats@.len(),
            n == old(stats)@.len(),
            num_types == defaults@.len(),
            i <= n,
            forall|j: int|
                #![trigger stats@[j]]
                0 <= j < i ==> stats@[j]@ == completed_with(old(stats)@[j]@, defaults@, defaults@.len()),
            forall|j: int| #![trigger stats@[j]] i <= j < n ==> stats@[j] == old(stats)@[j],
        decreases n - i,
    {
        let ghost prev = stats@;
        extend_with_defaults(&mut stats[i], defaults, num_types);
        assert(forall|j: int| 0 <= j < n && j != i ==> stats@[j] == prev[j]);
        i = i + 1;
    }
    Ok(n)
}

} // verus!
