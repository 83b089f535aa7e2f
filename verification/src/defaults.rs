//! Lists brought up to length with default entries.
use vstd::prelude::*;

verus! {

/// `values` brought up to `target_len` entries, the missing ones taken
/// from `defaults` at the same positions.
pub open spec fn completed_with<T>(values: Seq<T>, defaults: Seq<T>, target_len: nat) -> Seq<T> {
    if values.len() < target_len {
        values + defaults.skip(values.len() as int)
    } else {
        values
    }
}

/// Appends `defaults[values.len()..]` when `values` is shorter than
/// `target_len`; the result says whether anything was appended.
pub fn extend_with_defaults<T: Copy>(values: &mut Vec<T>, defaults: &Vec<T>, target_len: usize) -> (changed: bool)
    requires
        old(values)@.len() < target_len ==> old(values)@.len() <= defaults@.len(),
    ensures
        final(values)@ == completed_with(old(values)@, defaults@, target_len as nat),
        changed == (old(values)@.len() < target_len),
{
    let len = values.len();
    if len >= target_len {
        return false;
    }
    let n = defaults.len();
    let mut i: usize = len;
    while i < n
        invariant
            len == old(values)@.len(),
            len <= i <= n,
            n == defaults@.len(),
            values@ == old(values)@ + defaults@.subrange(len as int, i as int),
        decreases n - i,
    {
        values.push(defaults[i]);
        assert(defaults@.subrange(len as int, i + 1) =~= defaults@.subrange(len as int, i as int).push(
            defaults@[i as int],
        ));
        i = i + 1;
    }
    assert(defaults@.subrange(len as int, n as int) =~= defaults@.skip(len as int));
    true
}

} // verus!
