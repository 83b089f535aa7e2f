use bitcraft::items::{ItemStack, ItemType};
use bitcraft::quest_drops::{roll_enemy, roll_extraction, roll_item_list, QuestDropDesc};
use bitcraft::quest_stage::{check_condition, CompletionCondition, ConditionFacts, ItemStackCondition, QuestStageDesc};
use bitcraft::quests::{QuestChainState, QuestLog};

fn stack(id: i32) -> ItemStack {
    ItemStack { item_id: id, quantity: 1, item_type: ItemType::Item, durability: None }
}

fn log_with(desc_id: i32, stage_id: i32, completed: bool) -> QuestLog {
    QuestLog {
        chains: vec![QuestChainState {
            entity_id: 1,
            player_entity_id: 1,
            quest_chain_desc_id: desc_id,
            stage_id,
            completed,
            stage_rewards_awarded: vec![],
            is_tracked: true,
        }],
    }
}

#[test]
fn drop_needs_active_quest_on_stage() {
    let d = QuestDropDesc { required_quest_id: 4, required_stage_id: 41 };
    assert_eq!(d.roll(&log_with(4, 41, false), Some(stack(9))), Some(stack(9)));
    assert_eq!(d.roll(&log_with(4, 42, false), Some(stack(9))), None);
    assert_eq!(d.roll(&log_with(4, 41, true), Some(stack(9))), None);
    assert_eq!(d.roll(&log_with(5, 41, false), Some(stack(9))), None);
    let any = QuestDropDesc { required_quest_id: 4, required_stage_id: 0 };
    assert!(any.is_eligible(&log_with(4, 42, false)));
}

#[test]
fn rolled_drops_are_gathered() {
    assert_eq!(roll_extraction(0, &vec![Some(stack(1))]), None);
    assert_eq!(roll_enemy(3, &vec![None, None]), None);
    assert_eq!(roll_item_list(3, &vec![None, Some(stack(1)), Some(stack(2))]), Some(vec![stack(1), stack(2)]));
}

fn facts(items: Result<bool, String>, vault: Option<bool>, knowledge: bool) -> ConditionFacts {
    ConditionFacts { items_present: items, vault_has_collectible: vault, knowledge_acquired: knowledge }
}

#[test]
fn stage_conditions() {
    let consumed = CompletionCondition::ItemStack(ItemStackCondition { item_stack: stack(5), is_consumed: true });
    let kept = CompletionCondition::ItemStack(ItemStackCondition { item_stack: stack(6), is_consumed: false });
    let stage = QuestStageDesc {
        id: 1,
        completion_conditions: vec![consumed, CompletionCondition::Achievement(3), kept, CompletionCondition::Collectible(8), CompletionCondition::SecondaryKnowledge(2)],
    };
    let all_met = vec![facts(Ok(true), None, false), facts(Ok(false), None, false), facts(Ok(true), None, false), facts(Ok(false), Some(true), false), facts(Ok(false), None, true)];
    assert_eq!(stage.fulfil_completion_conditions(&all_met), Ok(vec![stack(5)]));
    let missing = vec![facts(Ok(true), None, false), facts(Ok(false), None, false), facts(Ok(false), None, false), facts(Ok(false), None, false), facts(Ok(false), None, false)];
    assert_eq!(stage.fulfil_completion_conditions(&missing), Err("Missing required items.".to_string()));
    assert_eq!(check_condition(&CompletionCondition::Collectible(8), &facts(Ok(true), None, true)), Err("No vault state for this player.".to_string()));
    assert_eq!(check_condition(&CompletionCondition::Collectible(8), &facts(Ok(true), Some(false), true)), Err("Missing required collectible.".to_string()));
    assert_eq!(check_condition(&CompletionCondition::SecondaryKnowledge(2), &facts(Ok(true), None, false)), Err("Missing required knowledge".to_string()));
    assert_eq!(check_condition(&consumed, &facts(Err("Invalid inventory".to_string()), None, false)), Err("Invalid inventory".to_string()));
}

#[test]
fn stage_conditions_step_by_step() {
    let stage = QuestStageDesc {
        id: 3,
        completion_conditions: vec![
            CompletionCondition::ItemStack(ItemStackCondition { item_stack: stack(5), is_consumed: true }),
            CompletionCondition::Collectible(8),
        ],
    };
    let first = stage.fulfil_step(0, &facts(Ok(true), None, false)).unwrap();
    assert_eq!((first.withdraw, first.next, first.finished), (Some(stack(5)), 1, false));
    let second = stage.fulfil_step(1, &facts(Ok(false), Some(true), false)).unwrap();
    assert_eq!((second.withdraw, second.next, second.finished), (None, 2, true));
    assert_eq!(
        stage.fulfil_step(1, &facts(Ok(true), Some(false), true)).unwrap_err(),
        "Missing required collectible."
    );
}
