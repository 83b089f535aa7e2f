//! Where buildings may be placed: biome of the terrain cell, water under the
//! footprint, and the dimension (overworld or interior tier).
use vstd::prelude::*;
use crate::text::{decimal, err_view, message, with_decimal};

verus! {

/// The biome data of a terrain cell: four slots, one byte each, of biome
/// index and biome density.
#[derive(Clone, Copy, Debug)]
pub struct TerrainBiomes {
    pub biomes: u32,
    pub biome_density: u32,
}

/// Byte `j` (0 to 3) of a packed word.
pub open spec fn byte_of(word: u32, j: u32) -> u32 {
    (word >> (8 * j) as u32) & 0xffu32
}

/// Slot `j` of the cell holds the biome `biome`.
pub open spec fn slot_holds(t: TerrainBiomes, biome: i32, j: u32) -> bool {
    biome as u64 == byte_of(t.biomes, j) as u64
}

/// Some slot of the cell holds the biome with a positive density.
pub open spec fn cell_has_dense_biome(t: TerrainBiomes, biome: i32) -> bool {
    exists|j: u32| j < 4 && #[trigger] slot_holds(t, biome, j) && byte_of(t.biome_density, j) > 0
}

/// The cell admits a building that lists `valid_biomes`: one of the valid
/// biomes sits in one of the cell's slots with a positive density.
pub open spec fn biome_allows(t: TerrainBiomes, valid_biomes: Seq<i32>) -> bool {
    exists|i: int| 0 <= i < valid_biomes.len() && cell_has_dense_biome(t, #[trigger] valid_biomes[i])
}

/// Whether some slot of the cell holds the biome with a positive density.
fn dense_slot(t: TerrainBiomes, biome: i32) -> (r: bool)
    ensures
        r == cell_has_dense_biome(t, biome),
{
    let mut j: u32 = 0;
    while j < 4
        invariant
            j <= 4,
            forall|k: u32| k < j && #[trigger] slot_holds(t, biome, k) ==> byte_of(t.biome_density, k) == 0,
        decreases 4 - j,
    {
        let b = (t.biomes >> (8 * j)) & 0xff;
        if biome as u64 == b as u64 {
            assert(slot_holds(t, biome, j));
            let d = (t.biome_density >> (8 * j)) & 0xff;
            if d > 0 {
                assert(byte_of(t.biome_density, j) > 0);
                return true;
            }
        }
        j = j + 1;
    }
    false
}

/// Whether the cell's biome admits a building that lists `valid_biomes`.
pub fn biome_is_valid(t: TerrainBiomes, valid_biomes: &Vec<i32>) -> (r: bool)
    ensures
        r == biome_allows(t, valid_biomes@),
{
    let n = valid_biomes.len();
    let mut i: usize = 0;
    while i < n
        invariant
            n == valid_biomes@.len(),
            i <= n,
            forall|a: int| 0 <= a < i ==> !cell_has_dense_biome(t, #[trigger] valid_biomes@[a]),
        decreases n - i,
    {
        if dense_slot(t, valid_biomes[i]) {
            assert(cell_has_dense_biome(t, valid_biomes@[i as int]));
            return true;
        }
        i = i + 1;
    }
    false
}

/// One tile of a building's footprint, with whether water covers it.
#[derive(Clone, Copy, Debug)]
pub struct FootprintTile {
    pub is_perimeter: bool,
    pub submerged: bool,
}

/// What is left to do once a footprint passed the terrain checks.
#[derive(Clone, Copy, Debug, PartialEq, Eq, Structural)]
pub enum FootprintPlan {
    /// Clear and level the ground; `flatten` is false on a dry run.
    ClearAndLevel { flatten: bool },
    /// Validate the placement rules (paving, overlaps) with this required paving tier.
    ValidatePlacement { required_paving: i32 },
}

/// Some tile that is not perimeter is under water.
pub open spec fn footprint_submerged(footprint: Seq<FootprintTile>) -> bool {
    exists|i: int| 0 <= i < footprint.len() && !footprint[i].is_perimeter && #[trigger] footprint[i].submerged
}

/// What the footprint check answers.
pub open spec fn footprint_result(
    terrain: Option<TerrainBiomes>,
    valid_biomes: Seq<i32>,
    footprint: Seq<FootprintTile>,
    recipe_paving: Option<i32>,
    clear_and_level_ground: bool,
    dry_run: bool,
    ignore_biome: bool,
) -> Result<FootprintPlan, Seq<char>> {
    match terrain {
        None => Err("Terrain cell not found"@),
        Some(t) => if !ignore_biome && !biome_allows(t, valid_biomes) {
            Err("Biome not valid for building"@)
        } else if footprint_submerged(footprint) {
            Err("Can't build over water."@)
        } else if clear_and_level_ground {
            Ok(FootprintPlan::ClearAndLevel { flatten: !dry_run })
        } else {
            Ok(
                FootprintPlan::ValidatePlacement {
                    required_paving: match recipe_paving {
                        Some(p) => p,
                        None => -1i32,
                    },
                },
            )
        },
    }
}

/// Checks the terrain under a building's footprint and says what to do next.
/// `recipe_paving` is the paving tier that the building's construction recipe
/// requires, if it has one.
pub fn verify_or_prepare_footprint(
    terrain: Option<TerrainBiomes>,
    valid_biomes: &Vec<i32>,
    footprint: &Vec<FootprintTile>,
    recipe_paving: Option<i32>,
    clear_and_level_ground: bool,
    dry_run: bool,
    ignore_biome: bool,
) -> (r: Result<FootprintPlan, String>)
    ensures
        err_view(r) == footprint_result(
            terrain,
            valid_biomes@,
            footprint@,
            recipe_paving,
            clear_and_level_ground,
            dry_run,
            ignore_biome,
        ),
        terrain is Some && (ignore_biome || biome_allows(terrain->0, valid_biomes@)) && (exists|i: int|
            0 <= i < footprint@.len() && !footprint@[i].is_perimeter && #[trigger] footprint@[i].submerged)
            ==> (r matches Err(e) && e@ == "Can't build over water."@),
{
    let t = match terrain {
        Some(t) => t,
        None => return Err(message("Terrain cell not found")),
    };
    if !ignore_biome && !biome_is_valid(t, valid_biomes) {
        return Err(message("Biome not valid for building"));
    }
    let n = footprint.len();
    let mut i: usize = 0;
    while i < n
        invariant
            terrain == Some(t),
            ignore_biome || biome_allows(t, valid_biomes@),
            n == footprint@.len(),
            i <= n,
            forall|k: int| 0 <= k < i ==> !(!footprint@[k].is_perimeter && #[trigger] footprint@[k].submerged),
        decreases n - i,
    {
        if !footprint[i].is_perimeter && footprint[i].submerged {
            assert(footprint_submerged(footprint@));
            return Err(message("Can't build over water."));
        }
        i = i + 1;
    }
    if clear_and_level_ground {
        return Ok(FootprintPlan::ClearAndLevel { flatten: !dry_run });
    }
    let required_paving = match recipe_paving {
        Some(p) => p,
        None => -1,
    };
    Ok(FootprintPlan::ValidatePlacement { required_paving })
}

/// No building goes over water: once the terrain exists and its biome is
/// admitted (or ignored), a footprint with a submerged tile that is not on
/// the perimeter is refused, on a dry run or not, levelling or not.
pub proof fn lemma_never_over_water(
    t: TerrainBiomes,
    valid_biomes: Seq<i32>,
    footprint: Seq<FootprintTile>,
    recipe_paving: Option<i32>,
    clear_and_level_ground: bool,
    dry_run: bool,
    ignore_biome: bool,
    i: int,
)
    requires
        ignore_biome || biome_allows(t, valid_biomes),
        0 <= i < footprint.len(),
        !footprint[i].is_perimeter,
        footprint[i].submerged,
    ensures
        footprint_result(
            Some(t),
            valid_biomes,
            footprint,
            recipe_paving,
            clear_and_level_ground,
            dry_run,
            ignore_biome,
        ) == Err::<FootprintPlan, Seq<char>>("Can't build over water."@),
{
    assert(footprint_submerged(footprint));
}

/// The message for a building that needs an interior of the given tier.
pub open spec fn requires_tier_message(tier: i32) -> Seq<char> {
    "Requires Tier {0} interior|~"@ + decimal(tier as int)
}

/// What the dimension check answers. `interior_instance_id` is that of the
/// dimension, if it exists; `interior_tier` that of its interior instance, if
/// that exists.
pub open spec fn dimension_rules_result(
    interior_instance_id: Option<i32>,
    interior_tier: Option<i32>,
    required_interior_tier: i32,
    ignore_dimension_rules: bool,
) -> Result<(), Seq<char>> {
    if ignore_dimension_rules {
        Ok(())
    } else {
        match interior_instance_id {
            None => Err("Invalid dimension"@),
            Some(iid) => if required_interior_tier == -1 && iid != 0 {
                Err("Can only be built in Overworld"@)
            } else if required_interior_tier > 0 {
                if iid == 0 {
                    Err(requires_tier_message(required_interior_tier))
                } else {
                    match interior_tier {
                        None => Err("Missing interior instance"@),
                        Some(tier) => if tier < required_interior_tier {
                            Err(requires_tier_message(required_interior_tier))
                        } else {
                            Ok(())
                        },
                    }
                }
            } else {
                Ok(())
            },
        }
    }
}

/// Checks that a building goes into a dimension it may stand in: overworld
/// only (tier -1), or an interior of at least the required tier.
pub fn validate_dimension_rules(
    interior_instance_id: Option<i32>,
    interior_tier: Option<i32>,
    required_interior_tier: i32,
    ignore_dimension_rules: bool,
) -> (r: Result<(), String>)
    ensures
        err_view(r) == dimension_rules_result(
            interior_instance_id,
            interior_tier,
            required_interior_tier,
            ignore_dimension_rules,
        ),
{
    if ignore_dimension_rules {
        return Ok(());
    }
    let iid = match interior_instance_id {
        Some(i) => i,
        None => return Err(message("Invalid dimension")),
    };
    if required_interior_tier == -1 && iid != 0 {
        return Err(message("Can only be built in Overworld"));
    }
    if required_interior_tier > 0 {
        if iid == 0 {
            return Err(with_decimal("Requires Tier {0} interior|~", required_interior_tier as i64));
        }
        let tier = match interior_tier {
            Some(t) => t,
            None => return Err(message("Missing interior instance")),
        };
        if tier < required_interior_tier {
            return Err(with_decimal("Requires Tier {0} interior|~", required_interior_tier as i64));
        }
    }
    Ok(())
}

} // verus!
