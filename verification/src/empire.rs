//! Empires (global module): bringing rank permissions up to date, and the
//! index of lower-case empire names.
use vstd::prelude::*;
use crate::defaults::{completed_with, extend_with_defaults};
use crate::text::{err_view, lowercase, message, to_lowercase};

verus! {

/// A rank's permissions brought up to the current number of permissions:
/// the missing ones taken from the rank's defaults.
pub open spec fn completed_permissions(perms: Seq<bool>, defaults: Seq<bool>, num_values: nat) -> Seq<bool> {
    completed_with(perms, defaults, num_values)
}

pub fn complete_rank_permissions(perms: &mut Vec<bool>, defaults: &Vec<bool>, num_values: usize) -> (changed: bool)
    requires
        old(perms)@.len() < num_values ==> old(perms)@.len() <= defaults@.len(),
    ensures
        final(perms)@ == completed_permissions(old(perms)@, defaults@, num_values as nat),
        changed == (old(perms)@.len() < num_values),
{
    extend_with_defaults(perms, defaults, num_values)
}

/// An empire rank's permissions.
#[derive(Clone, Debug)]
pub struct EmpireRank {
    pub rank: u8,
    pub permissions: Vec<bool>,
}

/// The positions of the ranks with fewer than `num_values` permissions, in
/// order: the ranks an update changes and shares again.
pub open spec fn ranks_needing_update(ranks: Seq<EmpireRank>, num_values: nat) -> Seq<usize>
    decreases ranks.len(),
{
    if ranks.len() == 0 {
        Seq::empty()
    } else {
        let rest = ranks_needing_update(ranks.drop_last(), num_values);
        if ranks.last().permissions@.len() < num_values {
            rest.push((ranks.len() - 1) as usize)
        } else {
            rest
        }
    }
}

/// Brings every rank's permissions up to `num_values` permissions (game
/// masters only). `defaults[i]` are the default permissions of rank `i`'s
/// kind. The result is the positions of the ranks changed, in order, which
/// are to be shared again with all other regions; the others are left
/// alone.
pub fn admin_update_empire_ranks(
    is_gm: bool,
    ranks: &mut Vec<EmpireRank>,
    defaults: &Vec<Vec<bool>>,
    num_values: usize,
) -> (r: Result<Vec<usize>, String>)
    requires
        is_gm ==> defaults@.len() == old(ranks)@.len(),
        is_gm ==> forall|i: int|
            0 <= i < old(ranks)@.len() && #[trigger] old(ranks)@[i].permissions@.len() < num_values
                ==> old(ranks)@[i].permissions@.len() <= defaults@[i]@.len(),
    ensures
        !is_gm ==> err_view(r) == Err::<Vec<usize>, Seq<char>>("Unauthorized"@) && final(ranks)@ == old(ranks)@,
        is_gm ==> (r matches Ok(changed) && changed@ == ranks_needing_update(old(ranks)@, num_values as nat))
            && final(ranks)@.len() == old(ranks)@.len() && forall|i: int|
            #![trigger final(ranks)@[i]]
            0 <= i < old(ranks)@.len() ==> final(ranks)@[i].rank == old(ranks)@[i].rank
                && final(ranks)@[i].permissions@ == completed_permissions(
                old(ranks)@[i].permissions@,
                defaults@[i]@,
                num_values as nat,
            ),
{
    if !is_gm {
        return Err(message("Unauthorized"));
    }
    let n = ranks.len();
    let mut changed_ranks: Vec<usize> = Vec::new();
    let mut i: usize = 0;
    while i < n
        invariant
            n == ranks@.len(),
            n == old(ranks)@.len(),
            n == defaults@.len(),
            i <= n,
            changed_ranks@ == ranks_needing_update(old(ranks)@.take(i as int), num_values as nat),
            forall|j: int|
                0 <= j < n && #[trigger] old(ranks)@[j].permissions@.len() < num_values
                    ==> old(ranks)@[j].permissions@.len() <= defaults@[j]@.len(),
            forall|j: int|
                #![trigger ranks@[j]]
                0 <= j < i ==> ranks@[j].rank == old(ranks)@[j].rank && ranks@[j].permissions@
                    == completed_permissions(old(ranks)@[j].permissions@, defaults@[j]@, num_values as nat),
            forall|j: int| i <= j < n ==> #[trigger] ranks@[j] == old(ranks)@[j],
        decreases n - i,
    {
        assert(ranks@[i as int] == old(ranks)@[i as int]);
        let ghost prev = ranks@;
        let changed = complete_rank_permissions(&mut ranks[i].permissions, &defaults[i], num_values);
        assert(ranks@[i as int].rank == old(ranks)@[i as int].rank);
        assert(ranks@[i as int].permissions@ == completed_permissions(old(ranks)@[i as int].permissions@, defaults@[i as int]@, num_values as nat));
        assert(forall|j: int| 0 <= j < n && j != i ==> ranks@[j] == prev[j]);
        assert forall|j: int| #![trigger ranks@[j]] 0 <= j < i + 1 implies ranks@[j].rank == old(ranks)@[j].rank
            && ranks@[j].permissions@ == completed_permissions(
            old(ranks)@[j].permissions@,
            defaults@[j]@,
            num_values as nat,
        ) by {
            if j < i {
                assert(prev[j].rank == old(ranks)@[j].rank);
            }
        }
        proof {
            let t = old(ranks)@.take(i + 1);
            assert(t.drop_last() =~= old(ranks)@.take(i as int));
            assert(t.last() == old(ranks)@[i as int]);
        }
        if changed {
            changed_ranks.push(i);
        }
        i = i + 1;
    }
    assert(old(ranks)@.take(n as int) =~= old(ranks)@);
    Ok(changed_ranks)
}

/// Shares every rank with all other regions again (game masters only); the
/// result is the number of ranks shared.
pub fn admin_push_empire_ranks_to_regions(is_gm: bool, ranks: &Vec<EmpireRank>) -> (r: Result<usize, String>)
    ensures
        !is_gm ==> err_view(r) == Err::<usize, Seq<char>>("Unauthorized"@),
        is_gm ==> r == Ok::<usize, String>(ranks@.len() as usize),
{
    if !is_gm {
        return Err(message("Unauthorized"));
    }
    Ok(ranks.len())
}

/// An entry of the index of empire names in lower case.
#[derive(Clone, Debug)]
pub struct EmpireLowercaseName {
    pub entity_id: u64,
    pub name_lowercase: String,
}

/// An empire's id and name.
#[derive(Clone, Debug)]
pub struct EmpireName {
    pub entity_id: u64,
    pub name: String,
}

/// No two empires share a name in lower case.
pub open spec fn lowercase_names_distinct(empires: Seq<EmpireName>) -> bool {
    forall|i: int, j: int|
        0 <= i < empires.len() && 0 <= j < empires.len() && i != j ==> lowercase(#[trigger] empires[i].name@)
            != lowercase(#[trigger] empires[j].name@)
}

/// The index rebuilt from the empires, in their order.
pub open spec fn is_lowercase_index(empires: Seq<EmpireName>, index: Seq<EmpireLowercaseName>) -> bool {
    &&& index.len() == empires.len()
    &&& forall|i: int|
        0 <= i < empires.len() ==> #[trigger] index[i].entity_id == empires[i].entity_id
            && index[i].name_lowercase@ == lowercase(empires[i].name@)
}

/// Rebuilds the index of lower-case empire names (game masters only). Two
/// empires whose names agree in lower case cannot both be indexed.
pub fn migrate_fix_empire_lowercase_names(is_gm: bool, empires: &Vec<EmpireName>) -> (r: Result<
    Vec<EmpireLowercaseName>,
    String,
>)
    requires
        is_gm ==> lowercase_names_distinct(empires@),
    ensures
        !is_gm ==> (r matches Err(e) && e@ == "Unauthorized"@),
        is_gm ==> (r matches Ok(index) && is_lowercase_index(empires@, index@)),
{
    if !is_gm {
        return Err(message("Unauthorized"));
    }
    Ok(lowercase_index(empires))
}

fn lowercase_index(empires: &Vec<EmpireName>) -> (r: Vec<EmpireLowercaseName>)
    ensures
        is_lowercase_index(empires@, r@),
{
    let n = empires.len();
    let mut out: Vec<EmpireLowercaseName> = Vec::new();
    let mut i: usize = 0;
    while i < n
        invariant
            n == empires@.len(),
            i <= n,
            out@.len() == i,
            forall|j: int|
                0 <= j < i ==> #[trigger] out@[j].entity_id == empires@[j].entity_id && out@[j].name_lowercase@
                    == lowercase(empires@[j].name@),
        decreases n - i,
    {
        out.push(
            EmpireLowercaseName {
                entity_id: empires[i].entity_id,
                name_lowercase: to_lowercase(empires[i].name.as_str()),
            },
        );
        i = i + 1;
    }
    out
}

/// Rebuilds the index of lower-case empire names, or says why it cannot:
/// two empires whose names agree in lower case.
pub fn try_fix_empire_lowercase_names(is_gm: bool, empires: &Vec<EmpireName>) -> (r: Result<
    Vec<EmpireLowercaseName>,
    String,
>)
    ensures
        !is_gm ==> (r matches Err(e) && e@ == "Unauthorized"@),
        is_gm && lowercase_names_distinct(empires@) ==> (r matches Ok(index) && is_lowercase_index(
            empires@,
            index@,
        )),
        is_gm && !lowercase_names_distinct(empires@) ==> (r matches Err(e) && e@
            == "An empire has a name that conflicts with another empire"@),
{
    if !is_gm {
        return Err(message("Unauthorized"));
    }
    let index = lowercase_index(empires);
    let n = index.len();
    let mut i: usize = 0;
    while i < n
        invariant
            is_gm,
            n == index@.len(),
            is_lowercase_index(empires@, index@),
            i <= n,
            forall|a: int, b: int|
                0 <= a < i && 0 <= b < n && a != b ==> lowercase(#[trigger] empires@[a].name@) != lowercase(
                    #[trigger] empires@[b].name@,
                ),
        decreases n - i,
    {
        let mut j: usize = 0;
        while j < n
            invariant
                is_gm,
                n == index@.len(),
                is_lowercase_index(empires@, index@),
                i < n,
                j <= n,
                forall|b: int| 0 <= b < j && b != i ==> lowercase(empires@[i as int].name@) != lowercase(#[trigger] empires@[b].name@),
            decreases n - j,
        {
            assert(index@[i as int].entity_id == empires@[i as int].entity_id);
            assert(index@[j as int].entity_id == empires@[j as int].entity_id);
            let same = index[i].name_lowercase.eq(&index[j].name_lowercase);
            if j != i && same {
                assert(lowercase(empires@[i as int].name@) == lowercase(empires@[j as int].name@));
                assert(!lowercase_names_distinct(empires@));
                return Err(message("An empire has a name that conflicts with another empire"));
            }
            j = j + 1;
        }
        i = i + 1;
    }
    Ok(index)
}

} // verus!
