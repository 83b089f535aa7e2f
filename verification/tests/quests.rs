use bitcraft::items::{ItemStack, ItemType};
use bitcraft::quests::{
    advance_quest_stage, complete_quest_chain, next_stage_id, onboarding_items, request_stage_reward,
    resolve_current_stage, set_quest_tracked, skip_onboarding, start_quest_chain, QuestChainDesc,
    QuestChainState, QuestLog,
};

fn chain(entity_id: u64, desc_id: i32, stage_id: i32, completed: bool, is_tracked: bool) -> QuestChainState {
    QuestChainState {
        entity_id,
        player_entity_id: 7,
        quest_chain_desc_id: desc_id,
        stage_id,
        completed,
        stage_rewards_awarded: Vec::new(),
        is_tracked,
    }
}

fn desc(id: i32, is_hint: bool, stages: Vec<i32>) -> QuestChainDesc {
    QuestChainDesc { id, is_hint, unstartable: false, stages }
}

#[test]
fn start_creates_tracked_chain_on_first_stage_and_untracks_others() {
    let mut log = QuestLog { chains: vec![chain(1, 5, 50, false, true)] };
    let d = desc(9, false, vec![91, 92]);
    assert_eq!(start_quest_chain(&mut log, 7, Some(&d), Ok(()), 100), Ok(()));
    assert_eq!(log.chains.len(), 2);
    assert!(!log.chains[0].is_tracked);
    let c = &log.chains[1];
    assert_eq!((c.entity_id, c.quest_chain_desc_id, c.stage_id, c.completed, c.is_tracked), (100, 9, 91, false, true));
}

#[test]
fn start_errors() {
    let mut log = QuestLog { chains: vec![chain(1, 5, 50, false, true)] };
    assert_eq!(
        start_quest_chain(&mut log, 7, None, Ok(()), 100),
        Err("Failed to find quest chain description.".to_string())
    );
    let mut d = desc(9, false, vec![]);
    assert_eq!(start_quest_chain(&mut log, 7, Some(&d), Err("Missing skill".to_string()), 100), Err("Missing skill".to_string()));
    d.unstartable = true;
    assert_eq!(start_quest_chain(&mut log, 7, Some(&d), Ok(()), 100), Err("Cannot start this quest.".to_string()));
    assert!(log.chains[0].is_tracked);
    assert_eq!(log.chains.len(), 1);
}

#[test]
fn start_of_started_chain_only_untracks() {
    let mut log = QuestLog { chains: vec![chain(1, 9, 91, false, true)] };
    let d = desc(9, false, vec![91]);
    assert_eq!(start_quest_chain(&mut log, 7, Some(&d), Ok(()), 100), Ok(()));
    assert_eq!(log.chains.len(), 1);
    assert!(!log.chains[0].is_tracked);
}

#[test]
fn hint_completes_at_once_without_rewards() {
    let mut log = QuestLog { chains: vec![] };
    let d = desc(3, true, vec![]);
    assert_eq!(complete_quest_chain(&mut log, 7, 3, Some(&d), 55), Ok(false));
    assert_eq!(log.chains.len(), 1);
    assert!(log.chains[0].completed);
    assert_eq!(log.chains[0].stage_id, 0);
    assert_eq!(complete_quest_chain(&mut log, 7, 3, Some(&d), 56), Err("This quest is already completed".to_string()));
}

#[test]
fn complete_requires_hand_in_stage() {
    let mut log = QuestLog { chains: vec![chain(1, 4, 41, false, true)] };
    let d = desc(4, false, vec![41]);
    assert_eq!(
        complete_quest_chain(&mut log, 7, 4, Some(&d), 0),
        Err("Cannot complete quest. Not on hand-in stage.".to_string())
    );
    log.chains[0].stage_id = -1;
    assert_eq!(complete_quest_chain(&mut log, 7, 4, Some(&d), 0), Ok(true));
    assert!(log.chains[0].completed && !log.chains[0].is_tracked);
    assert_eq!(
        complete_quest_chain(&mut log, 7, 8, Some(&desc(8, false, vec![])), 0),
        Err("Cannot complete quest. Quest not started.".to_string())
    );
}

#[test]
fn onboarding_completes_from_any_stage() {
    let mut log = QuestLog { chains: vec![chain(1, 1, 12, false, true)] };
    let d = desc(1, false, vec![11, 12]);
    assert_eq!(complete_quest_chain(&mut log, 7, 1, Some(&d), 0), Ok(true));
}

#[test]
fn next_stage_follows_the_list() {
    let stages = vec![10, 20, 30];
    assert_eq!(next_stage_id(&stages, 10), Some(20));
    assert_eq!(next_stage_id(&stages, 30), Some(-1));
    assert_eq!(next_stage_id(&stages, 99), None);
}

#[test]
fn advance_moves_to_next_then_hand_in() {
    let d = desc(4, false, vec![41, 42]);
    let mut log = QuestLog { chains: vec![chain(1, 4, 41, false, true)] };
    assert_eq!(advance_quest_stage(&mut log, 4, Some(&d), true, true, Ok(())), Ok(()));
    assert_eq!(log.chains[0].stage_id, 42);
    assert_eq!(advance_quest_stage(&mut log, 4, Some(&d), true, true, Ok(())), Ok(()));
    assert_eq!(log.chains[0].stage_id, -1);
    assert_eq!(advance_quest_stage(&mut log, 4, Some(&d), false, false, Err("x".to_string())), Ok(()));
    assert_eq!(log.chains[0].stage_id, -1);
}

#[test]
fn advance_from_a_deleted_stage_starts_at_the_first() {
    let d = desc(4, false, vec![10, 20]);
    let mut log = QuestLog { chains: vec![chain(1, 4, 5, false, true)] };
    assert_eq!(advance_quest_stage(&mut log, 4, Some(&d), false, true, Ok(())), Ok(()));
    assert_eq!(log.chains[0].stage_id, 20);
    let single = desc(4, false, vec![10]);
    let mut log = QuestLog { chains: vec![chain(1, 4, 5, false, true)] };
    assert_eq!(advance_quest_stage(&mut log, 4, Some(&single), false, true, Ok(())), Ok(()));
    assert_eq!(log.chains[0].stage_id, -1);
}

#[test]
fn advance_errors() {
    let d = desc(4, false, vec![41, 42]);
    let mut log = QuestLog { chains: vec![chain(1, 4, 77, false, true)] };
    assert_eq!(
        advance_quest_stage(&mut log, 5, Some(&d), true, true, Ok(())),
        Err("Cannot advance quest. Quest not started.".to_string())
    );
    assert_eq!(
        advance_quest_stage(&mut log, 4, None, true, true, Ok(())),
        Err("Cannot advance quest. Cannot find quest chain.".to_string())
    );
    assert_eq!(
        advance_quest_stage(&mut log, 4, Some(&d), true, true, Err("Missing required items.".to_string())),
        Err("Missing required items.".to_string())
    );
    assert_eq!(
        advance_quest_stage(&mut log, 4, Some(&d), true, true, Ok(())),
        Err("Cannot advance quest. Chain {0} doesn't have stage {1}.|~4|~77".to_string())
    );
    assert_eq!(
        advance_quest_stage(&mut log, 4, Some(&d), false, false, Ok(())),
        Err("Cannot advance quest. Current stage {0} in chain {1} invalid.|~41|~4".to_string())
    );
    let empty = desc(4, false, vec![]);
    assert_eq!(
        advance_quest_stage(&mut log, 4, Some(&empty), false, true, Ok(())),
        Err("Cannot advance quest. Quest chain does not have a first stage.".to_string())
    );
    assert_eq!(log.chains[0].stage_id, 77);
}

#[test]
fn resolve_falls_back_to_first_stage() {
    assert_eq!(resolve_current_stage(5, true, Some(1), false, 2), Ok(5));
    assert_eq!(resolve_current_stage(5, false, Some(1), true, 2), Ok(1));
    assert_eq!(
        resolve_current_stage(5, false, Some(-3), false, -2),
        Err("Cannot advance quest. Current stage {0} in chain {1} invalid.|~-3|~-2".to_string())
    );
}

#[test]
fn only_one_chain_is_tracked() {
    let mut log = QuestLog {
        chains: vec![chain(1, 4, 41, false, true), chain(2, 5, 51, false, false), chain(3, 6, -1, true, true)],
    };
    assert_eq!(set_quest_tracked(&mut log, 5, true), Ok(()));
    let flags: Vec<bool> = log.chains.iter().map(|c| c.is_tracked).collect();
    assert_eq!(flags, vec![false, true, false]);
    assert_eq!(set_quest_tracked(&mut log, 9, true), Err("Cannot track quest. Quest not started.".to_string()));
}

#[test]
fn completed_chain_tracking_is_left_alone() {
    let mut log = QuestLog { chains: vec![chain(1, 4, 41, false, true), chain(3, 6, -1, true, false)] };
    assert_eq!(set_quest_tracked(&mut log, 6, true), Ok(()));
    assert!(log.chains[0].is_tracked);
    assert!(!log.chains[1].is_tracked);
}

#[test]
fn stage_reward_is_granted_once() {
    let mut log = QuestLog { chains: vec![chain(1, 4, 41, false, true)] };
    assert_eq!(request_stage_reward(&mut log, 700, Some(4)), Ok(()));
    assert_eq!(log.chains[0].stage_rewards_awarded, vec![700]);
    assert_eq!(request_stage_reward(&mut log, 700, Some(4)), Err("Already received reward.".to_string()));
    assert_eq!(log.chains[0].stage_rewards_awarded, vec![700]);
    assert_eq!(request_stage_reward(&mut log, 701, None), Err("Cannot find correct reward.".to_string()));
    assert_eq!(
        request_stage_reward(&mut log, 701, Some(9)),
        Err("Cannot get reward for a quest not started.".to_string())
    );
}

#[test]
fn skip_onboarding_completes_once() {
    let mut log = QuestLog { chains: vec![] };
    assert_eq!(skip_onboarding(&mut log), Err("Cannot complete quest. Onboarding not started.".to_string()));
    log.chains.push(chain(1, 1, 11, false, true));
    assert_eq!(skip_onboarding(&mut log), Ok(onboarding_items()));
    assert_eq!(onboarding_items().iter().map(|s| (s.item_id, s.quantity)).collect::<Vec<_>>(), vec![(12000, 1), (134258632, 1), (1170001, 10)]);
    assert!(log.chains[0].completed && !log.chains[0].is_tracked);
    assert_eq!(skip_onboarding(&mut log), Err("Cannot complete quest. Onboarding already complete".to_string()));
}

#[test]
fn onboarding_kit() {
    let items = onboarding_items();
    let expected = vec![
        ItemStack { item_id: 12000, quantity: 1, item_type: ItemType::Item, durability: None },
        ItemStack { item_id: 134258632, quantity: 1, item_type: ItemType::Item, durability: None },
        ItemStack { item_id: 1170001, quantity: 10, item_type: ItemType::Item, durability: None },
    ];
    assert_eq!(items, expected);
}
