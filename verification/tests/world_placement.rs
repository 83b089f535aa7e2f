use bitcraft::world_placement::{
    biome_is_valid, validate_dimension_rules, verify_or_prepare_footprint, FootprintPlan, FootprintTile,
    TerrainBiomes,
};

fn pack(b: [u32; 4]) -> u32 {
    b[0] | (b[1] << 8) | (b[2] << 16) | (b[3] << 24)
}

#[test]
fn biome_with_density_is_valid() {
    let t = TerrainBiomes { biomes: pack([3, 5, 0, 0]), biome_density: pack([0, 128, 0, 0]) };
    assert!(biome_is_valid(t, &vec![5]));
    assert!(!biome_is_valid(t, &vec![3]));
    assert!(!biome_is_valid(t, &vec![7]));
    assert!(!biome_is_valid(t, &vec![]));
}

#[test]
fn any_dense_valid_biome_admits() {
    let t = TerrainBiomes { biomes: pack([3, 5, 0, 0]), biome_density: pack([0, 128, 0, 0]) };
    // 5 is dense; 3, later in the list and without density, does not undo it.
    assert!(biome_is_valid(t, &vec![5, 3]));
    assert!(biome_is_valid(t, &vec![3, 5]));
    // A biome the cell does not hold does not change the verdict.
    assert!(biome_is_valid(t, &vec![5, 9]));
    // Negative ids never match.
    assert!(!biome_is_valid(t, &vec![-1]));
    // Biome 1 is dense in slot 0; biome 2 in slot 1 has none.
    let u = TerrainBiomes { biomes: 0x0201, biome_density: 0x0005 };
    assert!(biome_is_valid(u, &vec![1, 2]));
    assert!(!biome_is_valid(u, &vec![2]));
}

#[test]
fn footprint_checks() {
    let t = Some(TerrainBiomes { biomes: pack([1, 0, 0, 0]), biome_density: pack([10, 0, 0, 0]) });
    let dry = vec![FootprintTile { is_perimeter: false, submerged: false }, FootprintTile { is_perimeter: true, submerged: true }];
    assert_eq!(verify_or_prepare_footprint(t, &vec![1], &dry, Some(2), false, false, false), Ok(FootprintPlan::ValidatePlacement { required_paving: 2 }));
    assert_eq!(verify_or_prepare_footprint(t, &vec![1], &dry, None, false, false, false), Ok(FootprintPlan::ValidatePlacement { required_paving: -1 }));
    assert_eq!(verify_or_prepare_footprint(t, &vec![1], &dry, None, true, true, false), Ok(FootprintPlan::ClearAndLevel { flatten: false }));
    assert_eq!(verify_or_prepare_footprint(t, &vec![1], &dry, None, true, false, false), Ok(FootprintPlan::ClearAndLevel { flatten: true }));
    let wet = vec![FootprintTile { is_perimeter: false, submerged: true }];
    assert_eq!(verify_or_prepare_footprint(t, &vec![1], &wet, None, true, false, false), Err("Can't build over water.".to_string()));
    assert_eq!(verify_or_prepare_footprint(t, &vec![2], &dry, None, true, false, false), Err("Biome not valid for building".to_string()));
    assert_eq!(verify_or_prepare_footprint(t, &vec![2], &dry, None, true, false, true), Ok(FootprintPlan::ClearAndLevel { flatten: true }));
    assert_eq!(verify_or_prepare_footprint(None, &vec![1], &dry, None, true, false, true), Err("Terrain cell not found".to_string()));
}

#[test]
fn dimension_rules() {
    assert_eq!(validate_dimension_rules(None, None, 3, true), Ok(()));
    assert_eq!(validate_dimension_rules(None, None, 3, false), Err("Invalid dimension".to_string()));
    assert_eq!(validate_dimension_rules(Some(4), None, -1, false), Err("Can only be built in Overworld".to_string()));
    assert_eq!(validate_dimension_rules(Some(0), None, -1, false), Ok(()));
    assert_eq!(validate_dimension_rules(Some(0), None, 2, false), Err("Requires Tier {0} interior|~2".to_string()));
    assert_eq!(validate_dimension_rules(Some(4), None, 2, false), Err("Missing interior instance".to_string()));
    assert_eq!(validate_dimension_rules(Some(4), Some(1), 12, false), Err("Requires Tier {0} interior|~12".to_string()));
    assert_eq!(validate_dimension_rules(Some(4), Some(3), 2, false), Ok(()));
    assert_eq!(validate_dimension_rules(Some(4), None, 0, false), Ok(()));
}
