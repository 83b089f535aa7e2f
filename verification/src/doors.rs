//! Turning the exit doors of an interior instance around.
use vstd::prelude::*;
use crate::text::{err_view, message};

verus! {

/// The building description of interior exits.
pub const BUILDING_EXIT_DESCRIPTION_ID: i32 = 1593993049;

/// A building found in one of the interior's dimensions.
#[derive(Clone, Copy, Debug, PartialEq, Eq, Structural)]
pub struct BuildingFacing {
    pub entity_id: u64,
    pub building_description_id: i32,
    pub direction_index: i32,
}

/// The direction a door faces once turned around: six steps along the
/// twelve directions.
pub open spec fn flipped_direction(d: i32) -> i32 {
    if d >= 6 { (d - 6) as i32 } else { (d + 6) as i32 }
}

pub fn flip_direction(d: i32) -> (r: i32)
    ensures
        r == flipped_direction(d),
{
    if d >= 6 { d - 6 } else { d + 6 }
}

/// Turning a door around twice brings it back, for each of the twelve
/// directions.
pub proof fn lemma_flip_involution(d: i32)
    requires
        0 <= d < 12,
    ensures
        flipped_direction(flipped_direction(d)) == d,
{
}

/// The building after the flip: exits turned, others unchanged.
pub open spec fn flipped_building(b: BuildingFacing) -> BuildingFacing {
    if b.building_description_id == BUILDING_EXIT_DESCRIPTION_ID {
        BuildingFacing { direction_index: flipped_direction(b.direction_index), ..b }
    } else {
        b
    }
}

/// Number of exits among the buildings.
pub open spec fn exits_among(b: Seq<BuildingFacing>) -> nat
    decreases b.len(),
{
    if b.len() == 0 {
        0
    } else {
        exits_among(b.drop_last()) + if b.last().building_description_id == BUILDING_EXIT_DESCRIPTION_ID {
            1nat
        } else {
            0nat
        }
    }
}

/// Turns every exit door of an interior instance around (admins only); the
/// result is the number of doors turned.
pub fn admin_flip_interior_instance_doors(is_admin: bool, buildings: &mut Vec<BuildingFacing>) -> (r: Result<
    usize,
    String,
>)
    ensures
        !is_admin ==> err_view(r) == Err::<usize, Seq<char>>("Unauthorized"@) && final(buildings)@ == old(
            buildings,
        )@,
        is_admin ==> (r matches Ok(count) && count == exits_among(old(buildings)@)) && final(buildings)@
            == old(buildings)@.map_values(|b: BuildingFacing| flipped_building(b)),
{
    if !is_admin {
        return Err(message("Unauthorized"));
    }
    let n = buildings.len();
    let mut count: usize = 0;
    let mut i: usize = 0;
    while i < n
        invariant
            n == buildings@.len(),
            n == old(buildings)@.len(),
            i <= n,
            count == exits_among(old(buildings)@.take(i as int)),
            count <= i,
            forall|j: int| 0 <= j < i ==> #[trigger] buildings@[j] == flipped_building(old(buildings)@[j]),
            forall|j: int| i <= j < n ==> #[trigger] buildings@[j] == old(buildings)@[j],
        decreases n - i,
    {
        assert(old(buildings)@.take(i + 1).drop_last() =~= old(buildings)@.take(i as int));
        if buildings[i].building_description_id == BUILDING_EXIT_DESCRIPTION_ID {
            let d = flip_direction(buildings[i].direction_index);
            buildings[i].direction_index = d;
            count = count + 1;
        }
        i = i + 1;
    }
    assert(old(buildings)@.take(n as int) =~= old(buildings)@);
    assert(buildings@ =~= old(buildings)@.map_values(|b: BuildingFacing| flipped_building(b)));
    Ok(count)
}

} // verus!
