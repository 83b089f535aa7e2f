use bitcraft::building_buff::{activate_building_buff, BuffActivation, BuffEffect, BuffPayment, BuildingBuff, PlayerPosition};
use bitcraft::character_stats::migrate_character_stats;
use bitcraft::discovery::{
    discover, discover_achievement, discover_building, discover_cargo, discover_claim, discover_collectible,
    discover_construction_recipe, discover_crafting_recipe, discover_deployable, discover_enemy,
    discover_extraction_recipe, discover_item, discover_npc, discover_pavement, discover_pillar_shaping,
    discover_resource, discover_resource_placement, discover_ruins, discover_scroll, discover_secondary_knowledge,
    DiscoveryKind,
};
use bitcraft::doors::{admin_flip_interior_instance_doors, flip_direction, BuildingFacing};
use bitcraft::empire::{
    admin_push_empire_ranks_to_regions, admin_update_empire_ranks, migrate_fix_empire_lowercase_names,
    try_fix_empire_lowercase_names, EmpireName, EmpireRank,
};
use bitcraft::empire_create::{
    process_message_on_destination as create_empire, starting_treasuries, EmpireCreateFacts, EmpireCreateRequest,
    EmpireEmblem, EmpireLog, EmpireMember, EmpireOwnerType, EmpireParameters, EmpirePlayerLog, EmpireRankDesc,
    SettlementLocation,
};
use bitcraft::empire_withdraw_item::process_message_on_destination as withdraw_item;
use bitcraft::equipment::{equipment_preset_activate, EquipmentPresetState, EquipmentSlotType};
use bitcraft::knowledge::{KnowledgeEntry, KnowledgeSecondaryState, KnowledgeState};
use bitcraft::player_settings::player_settings_state_update;
use bitcraft::text::{trim_string, with_decimal};
use bitcraft::views::{exposed_breadcrumbs, prospecting_participants, ProspectingRow};

#[test]
fn secondary_knowledge_first_entry_decides() {
    let k = KnowledgeSecondaryState {
        entity_id: 1,
        entries: vec![
            KnowledgeEntry { id: 5, state: KnowledgeState::Discovered },
            KnowledgeEntry { id: 6, state: KnowledgeState::Acquired },
            KnowledgeEntry { id: 5, state: KnowledgeState::Acquired },
        ],
    };
    assert!(!k.is_acquired(5));
    assert!(k.is_acquired(6));
    assert!(!k.is_acquired(7));
}

#[test]
fn door_flip_twice_restores() {
    for d in 0..12 {
        assert_eq!(flip_direction(flip_direction(d)), d);
    }
    assert_eq!(flip_direction(2), 8);
    assert_eq!(flip_direction(9), 3);
    assert_eq!(flip_direction(12), 6);
}

#[test]
fn only_exits_are_flipped() {
    let mut b = vec![
        BuildingFacing { entity_id: 1, building_description_id: 1593993049, direction_index: 2 },
        BuildingFacing { entity_id: 2, building_description_id: 77, direction_index: 2 },
        BuildingFacing { entity_id: 3, building_description_id: 1593993049, direction_index: 10 },
    ];
    assert_eq!(admin_flip_interior_instance_doors(true, &mut b), Ok(2));
    let dirs: Vec<i32> = b.iter().map(|x| x.direction_index).collect();
    assert_eq!(dirs, vec![8, 2, 4]);
    assert_eq!(admin_flip_interior_instance_doors(false, &mut b), Err("Unauthorized".to_string()));
}

fn preset(index: i32, active: bool) -> EquipmentPresetState {
    EquipmentPresetState { entity_id: index as u64, player_entity_id: 1, index, active, equipment_slots: vec![] }
}

#[test]
fn preset_activation() {
    let mut p = vec![preset(1, true), preset(2, false), preset(3, false)];
    assert!(equipment_preset_activate(&mut p, 2));
    let act: Vec<bool> = p.iter().map(|x| x.active).collect();
    assert_eq!(act, vec![false, true, false]);
    assert!(!equipment_preset_activate(&mut p, 2));
    assert!(equipment_preset_activate(&mut p, 9));
    assert!(p.iter().all(|x| !x.active));
}

#[test]
fn knowledge_grants_empty_preset() {
    assert!(EquipmentPresetState::on_knowledge_acquired(false, 10, 1, 0).is_none());
    let p = EquipmentPresetState::on_knowledge_acquired(true, 10, 1, 2).unwrap();
    assert_eq!((p.entity_id, p.player_entity_id, p.index, p.active), (10, 1, 3, false));
    assert_eq!(p.equipment_slots.len(), 12);
    assert!(p.equipment_slots.iter().all(|s| s.item.is_none()));
    assert_eq!(p.equipment_slots[0].primary, EquipmentSlotType::MainHand);
    assert_eq!(p.equipment_slots[11].primary, EquipmentSlotType::FeetClothing);
}

#[test]
fn building_buff() {
    let near = Some(PlayerPosition::Outside { distance: 2 });
    let buff = |cost: i32| Some(BuildingBuff { empire_currency_cost: cost, buffs: vec![BuffEffect { buff_id: 4, duration: 60 }] });
    let payment = |r: Result<BuffActivation, String>| r.map(|a| a.payment);
    assert_eq!(payment(activate_building_buff(5, Some(9), buff(3), true, near)), Ok(Some(BuffPayment { empire_entity_id: 9, amount: 3 })));
    assert_eq!(payment(activate_building_buff(5, Some(9), buff(0), true, near)), Ok(None));
    assert_eq!(activate_building_buff(5, Some(9), buff(0), true, near).unwrap().buffs, vec![BuffEffect { buff_id: 4, duration: 60 }]);
    assert_eq!(payment(activate_building_buff(5, Some(9), buff(0), true, Some(PlayerPosition::Outside { distance: 3 }))), Err("Too far".to_string()));
    assert_eq!(payment(activate_building_buff(5, None, buff(0), true, near)), Err("Only empire aligned buildings can provide buffs".to_string()));
    assert_eq!(payment(activate_building_buff(5, Some(9), None, true, near)), Err("This building can't provide buffs".to_string()));
    assert_eq!(payment(activate_building_buff(5, Some(9), buff(0), false, near)), Err("You don't have the permission to use this building".to_string()));
    assert_eq!(payment(activate_building_buff(5, Some(9), buff(0), true, None)), Err("Unknown building type".to_string()));
    assert_eq!(payment(activate_building_buff(5, Some(9), buff(1), true, Some(PlayerPosition::Inside { building_entity_id: Some(5) }))), Ok(Some(BuffPayment { empire_entity_id: 9, amount: 1 })));
    assert_eq!(payment(activate_building_buff(5, Some(9), buff(1), true, Some(PlayerPosition::Inside { building_entity_id: Some(6) }))), Err("Player is inside another building".to_string()));
    assert_eq!(payment(activate_building_buff(5, Some(9), buff(1), true, Some(PlayerPosition::Inside { building_entity_id: None }))), Err("Player isn't inside a building".to_string()));
}

#[test]
fn settings_belong_to_their_player() {
    assert_eq!(player_settings_state_update(4, 4), Ok(()));
    assert_eq!(player_settings_state_update(4, 5), Err("Invalid player".to_string()));
}

#[test]
fn discovery_of_unknown_things() {
    assert_eq!(discover(DiscoveryKind::Item, true), Ok(()));
    assert_eq!(discover(DiscoveryKind::Item, false), Err("Unknown item".to_string()));
    assert_eq!(discover(DiscoveryKind::Npc, false), Err("Unknown traveler".to_string()));
    assert_eq!(discover(DiscoveryKind::ResourcePlacement, false), Err("Unknown resource placement recipe".to_string()));
    assert_eq!(discover(DiscoveryKind::Ruins, false), Ok(()));
}

#[test]
fn each_discovery_names_what_is_unknown() {
    let cases: Vec<(fn(bool) -> Result<(), String>, &str)> = vec![
        (discover_achievement, "Unknown achievement"),
        (discover_building, "Unknown building"),
        (discover_cargo, "Unknown cargo"),
        (discover_claim, "Unknown claim"),
        (discover_construction_recipe, "Unknown construction recipe"),
        (discover_crafting_recipe, "Unknown crafting recipe"),
        (discover_deployable, "Unknown deployable"),
        (discover_enemy, "Unknown enemy"),
        (discover_extraction_recipe, "Unknown extraction recipe"),
        (discover_item, "Unknown item"),
        (discover_scroll, "Unknown scroll"),
        (discover_npc, "Unknown traveler"),
        (discover_pavement, "Unknown pavement"),
        (discover_pillar_shaping, "Unknown pillar shaping"),
        (discover_resource, "Unknown resource"),
        (discover_resource_placement, "Unknown resource placement recipe"),
        (discover_secondary_knowledge, "Unknown secondary knowledge"),
        (discover_collectible, "Unknown collectible"),
    ];
    for (f, msg) in cases {
        assert_eq!(f(true), Ok(()));
        assert_eq!(f(false), Err(msg.to_string()));
    }
    assert_eq!(discover_ruins(), Ok(()));
}

#[test]
fn stats_get_missing_defaults() {
    let mut stats = vec![vec![1.5f32], vec![1.0, 2.0, 3.0], vec![]];
    let defaults = vec![10.0f32, 20.0, 30.0];
    assert_eq!(migrate_character_stats(true, &mut stats, &defaults), Ok(3));
    assert_eq!(stats, vec![vec![1.5, 20.0, 30.0], vec![1.0, 2.0, 3.0], vec![10.0, 20.0, 30.0]]);
    assert_eq!(migrate_character_stats(false, &mut stats, &defaults), Err("Unauthorized".to_string()));
}

#[test]
fn empire_withdraw() {
    assert_eq!(withdraw_item(true, Some(100), false, Some("Empire Currency"), 30), Ok(70));
    assert_eq!(withdraw_item(true, Some(100), false, Some("Empire Currency"), 100), Ok(0));
    assert_eq!(withdraw_item(true, Some(100), false, Some("Empire Currency"), 101), Err("Not enough in the empire treasury".to_string()));
    assert_eq!(withdraw_item(false, Some(100), false, None, 1), Err("Player must be part of an empire to withdraw".to_string()));
    assert_eq!(withdraw_item(true, None, false, None, 1), Err("This empire does not exist".to_string()));
    assert_eq!(withdraw_item(true, Some(100), true, None, 1), Err("This cargo can't be withdrawn".to_string()));
    assert_eq!(withdraw_item(true, Some(100), false, None, 1), Err("Unknown withdrawn item".to_string()));
    assert_eq!(withdraw_item(true, Some(100), false, Some("Hexite"), 1), Err("This item can't be withdrawn".to_string()));
}

fn founding_request(name: &str) -> EmpireCreateRequest {
    EmpireCreateRequest {
        player_entity_id: 7,
        building_entity_id: 70,
        empire_name: name.to_string(),
        icon_id: 1,
        shape_id: 2,
        color1_id: 3,
        color2_id: 4,
    }
}

const HERE: SettlementLocation = SettlementLocation { x: 10, z: -4, dimension: 1 };
const PARAMS: EmpireParameters = EmpireParameters { starting_shards: 10, starting_currency: 250, default_nobility_threshold: 500 };

#[test]
fn empire_founding_checks() {
    let descs: Vec<EmpireRankDesc> = Vec::new();
    let ids: Vec<u64> = Vec::new();
    let req = founding_request("Name");
    let create = |owner: Option<u64>, taken: bool, tech: bool, colors: bool, reserved: bool| {
        let facts = EmpireCreateFacts {
            claim_owner: owner,
            name_taken: taken,
            settlement_location: if tech { Some(HERE) } else { None },
            colors_valid: colors,
            name_reserved_by_other: reserved,
        };
        create_empire(&req, facts, PARAMS, 50, &descs, &ids).map(|_| ())
    };
    assert_eq!(create(Some(7), false, true, true, false), Ok(()));
    assert_eq!(create(None, false, true, true, false), Err("This is not a claim".to_string()));
    assert_eq!(create(Some(2), false, true, true, false), Err("Not the owner of this claim".to_string()));
    assert_eq!(create(Some(7), true, true, true, false), Err("An empire with this name already exists".to_string()));
    assert_eq!(create(Some(7), false, false, true, false), Err("This claim does not have the tech to form an empire".to_string()));
    assert_eq!(create(Some(7), false, true, false, false), Err("Invalid empire colors".to_string()));
    assert_eq!(create(Some(7), false, true, true, true), Err("This name is unavailable".to_string()));
    assert_eq!(starting_treasuries(5, -1), (5, u32::MAX));
}

#[test]
fn empire_founding_records() {
    let descs = vec![
        EmpireRankDesc { rank: 0, title: "Emperor".to_string(), permissions: vec![true, true] },
        EmpireRankDesc { rank: 1, title: "Noble".to_string(), permissions: vec![true, false] },
    ];
    let facts = EmpireCreateFacts {
        claim_owner: Some(7),
        name_taken: false,
        settlement_location: Some(HERE),
        colors_valid: true,
        name_reserved_by_other: false,
    };
    let f = create_empire(&founding_request("The Great EMPIRE"), facts, PARAMS, 900, &descs, &vec![901, 902]).unwrap();
    let e = &f.empire;
    assert_eq!((e.entity_id, e.capital_building_entity_id, e.name.as_str()), (900, 70, "The Great EMPIRE"));
    assert_eq!((e.shard_treasury, e.empire_currency_treasury, e.nobility_threshold, e.num_claims), (10, 250, 500, 1));
    assert_eq!((e.location, e.owner_type), (HERE, EmpireOwnerType::Player));
    assert_eq!(f.name_lowercase, "the great empire");
    assert_eq!(f.log, EmpireLog { entity_id: 900, last_posted: 0 });
    assert_eq!(f.emblem, EmpireEmblem { entity_id: 900, icon_id: 1, shape_id: 2, color1_id: 3, color2_id: 4 });
    assert_eq!((f.directive.entity_id, f.directive.directive_message.as_str(), f.directive.directive_message_timestamp), (900, "", None));
    assert_eq!(f.emperor, EmpireMember { player_entity_id: 7, empire_entity_id: 900, rank: 0 });
    assert_eq!(f.player_log, EmpirePlayerLog { player_entity_id: 7, empire_entity_id: 900, last_viewed: 0 });
    assert_eq!(f.settlement_empire_entity_id, 900);
    assert_eq!(f.ranks.len(), 2);
    assert_eq!((f.ranks[0].entity_id, f.ranks[0].empire_entity_id, f.ranks[0].rank), (901, 900, 0));
    assert_eq!(f.ranks[0].title, "Emperor");
    assert_eq!(f.ranks[1].permissions, vec![true, false]);
    assert_eq!((f.ranks[1].entity_id, f.ranks[1].rank), (902, 1));
}

#[test]
fn ranks_get_missing_permissions() {
    let mut ranks = vec![
        EmpireRank { rank: 0, permissions: vec![true] },
        EmpireRank { rank: 1, permissions: vec![false, false, false] },
    ];
    let defaults = vec![vec![false, true, true], vec![true, true, true]];
    assert_eq!(admin_update_empire_ranks(true, &mut ranks, &defaults, 3), Ok(vec![0]));
    assert_eq!(ranks[0].permissions, vec![true, true, true]);
    assert_eq!(ranks[1].permissions, vec![false, false, false]);
    assert_eq!(admin_update_empire_ranks(true, &mut ranks, &defaults, 3), Ok(vec![]));
    let mut more = vec![
        EmpireRank { rank: 2, permissions: vec![true] },
        EmpireRank { rank: 3, permissions: vec![] },
        EmpireRank { rank: 4, permissions: vec![true, true] },
    ];
    let all = vec![vec![false, false]; 3];
    assert_eq!(admin_update_empire_ranks(true, &mut more, &all, 2), Ok(vec![0, 1]));
    assert_eq!(admin_update_empire_ranks(false, &mut ranks, &defaults, 3), Err("Unauthorized".to_string()));
    assert_eq!(admin_push_empire_ranks_to_regions(true, &ranks), Ok(2));
    assert_eq!(admin_push_empire_ranks_to_regions(false, &ranks), Err("Unauthorized".to_string()));
}

#[test]
fn empire_name_index() {
    let empires = vec![
        EmpireName { entity_id: 1, name: "North WIND".to_string() },
        EmpireName { entity_id: 2, name: "Ember".to_string() },
    ];
    let index = migrate_fix_empire_lowercase_names(true, &empires).unwrap();
    assert_eq!(index.len(), 2);
    assert_eq!((index[0].entity_id, index[0].name_lowercase.as_str()), (1, "north wind"));
    assert_eq!((index[1].entity_id, index[1].name_lowercase.as_str()), (2, "ember"));
    let clash = vec![
        EmpireName { entity_id: 1, name: "Ember".to_string() },
        EmpireName { entity_id: 2, name: "EMBER".to_string() },
    ];
    assert_eq!(
        try_fix_empire_lowercase_names(true, &clash).unwrap_err(),
        "An empire has a name that conflicts with another empire"
    );
    assert!(try_fix_empire_lowercase_names(true, &empires).is_ok());
    assert_eq!(try_fix_empire_lowercase_names(false, &empires).unwrap_err(), "Unauthorized");
}

#[test]
fn prospecting_party() {
    let row = |e: u64, t: u64, s: i32, n: &str| ProspectingRow {
        entity_id: e,
        crumb_trail_entity_id: t,
        ongoing_step: s,
        username: Some(n.to_string()),
    };
    let rows = vec![row(1, 100, 0, "a"), row(2, 200, 1, "b"), row(3, 100, 2, "c")];
    let p = prospecting_participants(Some(3), &rows);
    let names: Vec<(String, i32)> = p.into_iter().map(|x| (x.player_name, x.node)).collect();
    assert_eq!(names, vec![("a".to_string(), 0), ("c".to_string(), 2)]);
    assert!(prospecting_participants(Some(9), &rows).is_empty());
    assert!(prospecting_participants(None, &rows).is_empty());
    assert_eq!(exposed_breadcrumbs(true, Some(5u8)), vec![5]);
    assert!(exposed_breadcrumbs(false, None::<u8>).is_empty());
}

#[test]
fn text_helpers() {
    assert_eq!(trim_string(" \u{2003}a b\u{85}"), "a b");
    assert_eq!(with_decimal("n=", -120), "n=-120");
    assert_eq!(with_decimal("", i64::MIN), "-9223372036854775808");
    assert_eq!(with_decimal("", 0), "0");
}
