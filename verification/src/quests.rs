//! Quest chains of one player: starting, advancing, tracking, completing, and
//! the rewards of their stages.
use vstd::prelude::*;
use crate::items::{ItemStack, ItemType};
use crate::text::{decimal, err_view, message, push_decimal};

verus! {

/// The id of the onboarding quest chain.
pub const ONBOARDING_CHAIN_ID: i32 = 1;

/// The stage id that marks a chain waiting to be handed in.
pub const HAND_IN_STAGE: i32 = -1;

/// A player's progress in one quest chain.
#[derive(Clone, Debug)]
pub struct QuestChainState {
    pub entity_id: u64,
    pub player_entity_id: u64,
    pub quest_chain_desc_id: i32,
    pub stage_id: i32,
    pub completed: bool,
    pub stage_rewards_awarded: Vec<i32>,
    pub is_tracked: bool,
}

/// The description of a quest chain, as far as the rules read it.
#[derive(Clone, Debug)]
pub struct QuestChainDesc {
    pub id: i32,
    pub is_hint: bool,
    pub unstartable: bool,
    pub stages: Vec<i32>,
}

/// The quest chains of one player, in the order the player's index returns them.
pub struct QuestLog {
    pub chains: Vec<QuestChainState>,
}

/// `i` is the first chain of `chains` for the description `id`.
pub open spec fn is_chain_at(chains: Seq<QuestChainState>, id: i32, i: int) -> bool {
    &&& 0 <= i < chains.len()
    &&& chains[i].quest_chain_desc_id == id
    &&& forall|j: int| 0 <= j < i ==> #[trigger] chains[j].quest_chain_desc_id != id
}

/// Some chain of `chains` is for the description `id`.
pub open spec fn has_chain(chains: Seq<QuestChainState>, id: i32) -> bool {
    exists|i: int| 0 <= i < chains.len() && #[trigger] chains[i].quest_chain_desc_id == id
}

/// The first chain for the description `id`.
pub open spec fn chain_index(chains: Seq<QuestChainState>, id: i32) -> int {
    choose|i: int| is_chain_at(chains, id, i)
}

pub proof fn lemma_chain_index(chains: Seq<QuestChainState>, id: i32, i: int)
    requires
        is_chain_at(chains, id, i),
    ensures
        chain_index(chains, id) == i,
{
    let k = chain_index(chains, id);
    assert(is_chain_at(chains, id, k));
    if k < i {
        assert(chains[k].quest_chain_desc_id != id);
    }
    if i < k {
        assert(chains[i].quest_chain_desc_id != id);
    }
}

/// The state of a chain, untracked and completed.
pub open spec fn completed_chain(c: QuestChainState) -> QuestChainState {
    QuestChainState { is_tracked: false, completed: true, ..c }
}

/// The state of a chain with its tracking flag set.
pub open spec fn with_tracked(c: QuestChainState, is_tracked: bool) -> QuestChainState {
    QuestChainState { is_tracked, ..c }
}

/// Every chain untracked, nothing else changed.
pub open spec fn untracked_all(chains: Seq<QuestChainState>) -> Seq<QuestChainState> {
    chains.map_values(|c: QuestChainState| with_tracked(c, false))
}

/// The first stage of a chain, or 0 for a chain without stages.
pub open spec fn first_stage_or_zero(stages: Seq<i32>) -> i32 {
    if stages.len() > 0 { stages[0] } else { 0 }
}

/// `c` is the state a chain starts in.
pub open spec fn is_started_chain(
    c: QuestChainState,
    desc_id: i32,
    is_hint: bool,
    stages: Seq<i32>,
    player_entity_id: u64,
    entity_id: u64,
) -> bool {
    &&& c.entity_id == entity_id
    &&& c.player_entity_id == player_entity_id
    &&& c.quest_chain_desc_id == desc_id
    &&& c.stage_id == first_stage_or_zero(stages)
    &&& !c.completed
    &&& c.stage_rewards_awarded@ == Seq::<i32>::empty()
    &&& c.is_tracked == !is_hint
}

/// `after` is `before` with one started chain appended.
pub open spec fn appends_started_chain(
    before: Seq<QuestChainState>,
    after: Seq<QuestChainState>,
    desc_id: i32,
    is_hint: bool,
    stages: Seq<i32>,
    player_entity_id: u64,
    entity_id: u64,
) -> bool {
    &&& after.len() == before.len() + 1
    &&& after.take(before.len() as int) == before
    &&& is_started_chain(after.last(), desc_id, is_hint, stages, player_entity_id, entity_id)
}

impl QuestLog {
    /// The first chain for the description `id`.
    pub fn find_chain(&self, id: i32) -> (r: Option<usize>)
        ensures
            match r {
                Some(i) => is_chain_at(self.chains@, id, i as int),
                None => !has_chain(self.chains@, id),
            },
    {
        let n = self.chains.len();
        let mut i: usize = 0;
        while i < n
            invariant
                n == self.chains@.len(),
                i <= n,
                forall|j: int| 0 <= j < i ==> #[trigger] self.chains@[j].quest_chain_desc_id != id,
            decreases n - i,
        {
            if self.chains[i].quest_chain_desc_id == id {
                return Some(i);
            }
            i = i + 1;
        }
        None
    }

    /// Untracks every chain of the player.
    pub fn untrack_all_quests(&mut self)
        ensures
            final(self).chains@ == untracked_all(old(self).chains@),
    {
        let n = self.chains.len();
        let mut i: usize = 0;
        while i < n
            invariant
                n == self.chains@.len(),
                n == old(self).chains@.len(),
                i <= n,
                forall|j: int| 0 <= j < i ==> self.chains@[j] == with_tracked(old(self).chains@[j], false),
                forall|j: int| i <= j < n ==> self.chains@[j] == old(self).chains@[j],
            decreases n - i,
        {
            if self.chains[i].is_tracked {
                self.chains[i].is_tracked = false;
            }
            assert(self.chains@[i as int] == with_tracked(old(self).chains@[i as int], false));
            i = i + 1;
        }
        assert(self.chains@ =~= untracked_all(old(self).chains@));
    }
}

/// Starts a chain for the player unless it was started already. A chain
/// that is not a hint must meet its requirements (`requirements`, as checked
/// elsewhere) and be startable. `new_entity_id` is the entity id of a new
/// chain state.
pub fn start_quest_chain_internal(
    log: &mut QuestLog,
    actor_id: u64,
    desc: &QuestChainDesc,
    requirements: Result<(), String>,
    new_entity_id: u64,
) -> (r: Result<(), String>)
    ensures
        !desc.is_hint && requirements is Err ==> r == requirements && final(log).chains@ == old(log).chains@,
        !desc.is_hint && requirements is Ok && desc.unstartable ==> err_view(r) == Err::<(), Seq<char>>(
            "Cannot start this quest."@,
        ) && final(log).chains@ == old(log).chains@,
        desc.is_hint || (requirements is Ok && !desc.unstartable) ==> {
            &&& r is Ok
            &&& has_chain(old(log).chains@, desc.id) ==> final(log).chains@ == old(log).chains@
            &&& !has_chain(old(log).chains@, desc.id) ==> appends_started_chain(
                old(log).chains@,
                final(log).chains@,
                desc.id,
                desc.is_hint,
                desc.stages@,
                actor_id,
                new_entity_id,
            )
        },
{
    if !desc.is_hint {
        if requirements.is_err() {
            return requirements;
        }
        if desc.unstartable {
            return Err(message("Cannot start this quest."));
        }
    }
    if log.find_chain(desc.id).is_none() {
        let stage_id = if desc.stages.len() > 0 { desc.stages[0] } else { 0 };
        let awarded: Vec<i32> = Vec::new();
        let started = QuestChainState {
            entity_id: new_entity_id,
            player_entity_id: actor_id,
            quest_chain_desc_id: desc.id,
            stage_id,
            completed: false,
            stage_rewards_awarded: awarded,
            is_tracked: !desc.is_hint,
        };
        log.chains.push(started);
        assert(log.chains@.take(old(log).chains@.len() as int) =~= old(log).chains@);
    }
    Ok(())
}

/// Starts a chain from the quest log: every other chain stops being tracked.
pub fn start_quest_chain(
    log: &mut QuestLog,
    actor_id: u64,
    desc: Option<&QuestChainDesc>,
    requirements: Result<(), String>,
    new_entity_id: u64,
) -> (r: Result<(), String>)
    ensures
        desc is None ==> err_view(r) == Err::<(), Seq<char>>("Failed to find quest chain description."@),
        r is Err ==> final(log).chains@ == old(log).chains@,
        desc matches Some(d) ==> {
            &&& r is Ok <==> (d.is_hint || (requirements is Ok && !d.unstartable))
            &&& !d.is_hint && requirements is Err ==> r == requirements
            &&& !d.is_hint && requirements is Ok && d.unstartable ==> err_view(r) == Err::<
                (),
                Seq<char>,
            >("Cannot start this quest."@)
            &&& r is Ok && has_chain(old(log).chains@, d.id) ==> final(log).chains@ == untracked_all(
                old(log).chains@,
            )
            &&& r is Ok && !has_chain(old(log).chains@, d.id) ==> appends_started_chain(
                untracked_all(old(log).chains@),
                final(log).chains@,
                d.id,
                d.is_hint,
                d.stages@,
                actor_id,
                new_entity_id,
            )
        },
{
    let desc = match desc {
        Some(d) => d,
        None => return Err(message("Failed to find quest chain description.")),
    };
    if !desc.is_hint {
        if requirements.is_err() {
            return requirements;
        }
        if desc.unstartable {
            return Err(message("Cannot start this quest."));
        }
    }
    log.untrack_all_quests();
    proof {
        assert forall|i: int| 0 <= i < log.chains@.len() implies (#[trigger] log.chains@[i].quest_chain_desc_id
            == desc.id) == (old(log).chains@[i].quest_chain_desc_id == desc.id) by {
            assert(log.chains@[i] == with_tracked(old(log).chains@[i], false));
        }
        if has_chain(old(log).chains@, desc.id) {
            let i = choose|i: int| 0 <= i < old(log).chains@.len() && #[trigger] old(log).chains@[i].quest_chain_desc_id == desc.id;
            assert(log.chains@[i].quest_chain_desc_id == desc.id);
        }
    }
    start_quest_chain_internal(log, actor_id, desc, requirements, new_entity_id)
}

/// What completing a chain answers, and (on success) whether the chain's
/// rewards are due.
pub open spec fn complete_outcome(chains: Seq<QuestChainState>, desc: Option<&QuestChainDesc>, id: i32) -> Result<
    bool,
    Seq<char>,
> {
    match desc {
        None => Err("Failed to find quest chain description."@),
        Some(d) => if !has_chain(chains, id) {
            if d.is_hint {
                Ok(false)
            } else {
                Err("Cannot complete quest. Quest not started."@)
            }
        } else {
            let c = chains[chain_index(chains, id)];
            if !d.is_hint && c.stage_id != HAND_IN_STAGE && d.id != ONBOARDING_CHAIN_ID {
                Err("Cannot complete quest. Not on hand-in stage."@)
            } else if c.completed {
                Err("This quest is already completed"@)
            } else {
                Ok(!d.is_hint)
            }
        },
    }
}

/// Hands in a chain. A hint chain that was never started is started and
/// completed at once. On success the result says whether the chain's
/// rewards are due (they are for every chain but hints).
pub fn complete_quest_chain(
    log: &mut QuestLog,
    actor_id: u64,
    id: i32,
    desc: Option<&QuestChainDesc>,
    new_entity_id: u64,
) -> (r: Result<bool, String>)
    requires
        desc matches Some(d) ==> d.id == id,
    ensures
        err_view(r) == complete_outcome(old(log).chains@, desc, id),
        r is Err ==> final(log).chains@ == old(log).chains@,
        r is Ok && has_chain(old(log).chains@, id) ==> final(log).chains@ == old(log).chains@.update(
            chain_index(old(log).chains@, id),
            completed_chain(old(log).chains@[chain_index(old(log).chains@, id)]),
        ),
        r is Ok && !has_chain(old(log).chains@, id) ==> {
            &&& final(log).chains@.len() == old(log).chains@.len() + 1
            &&& final(log).chains@.take(old(log).chains@.len() as int) == old(log).chains@
            &&& final(log).chains@.last().completed
            &&& !final(log).chains@.last().is_tracked
            &&& final(log).chains@.last().entity_id == new_entity_id
            &&& final(log).chains@.last().player_entity_id == actor_id
            &&& final(log).chains@.last().quest_chain_desc_id == id
            &&& final(log).chains@.last().stage_id == first_stage_or_zero(desc->0.stages@)
            &&& final(log).chains@.last().stage_rewards_awarded@ == Seq::<i32>::empty()
        },
{
    let d = match desc {
        Some(d) => d,
        None => return Err(message("Failed to find quest chain description.")),
    };
    match log.find_chain(id) {
        None => {
            if !d.is_hint {
                return Err(message("Cannot complete quest. Quest not started."));
            }
            let stage_id = if d.stages.len() > 0 { d.stages[0] } else { 0 };
            let awarded: Vec<i32> = Vec::new();
            let done = QuestChainState {
                entity_id: new_entity_id,
                player_entity_id: actor_id,
                quest_chain_desc_id: d.id,
                stage_id,
                completed: true,
                stage_rewards_awarded: awarded,
                is_tracked: false,
            };
            log.chains.push(done);
            assert(log.chains@.take(old(log).chains@.len() as int) =~= old(log).chains@);
            Ok(false)
        },
        Some(i) => {
            proof {
                lemma_chain_index(log.chains@, id, i as int);
            }
            let is_onboarding = d.id == ONBOARDING_CHAIN_ID;
            if !d.is_hint && log.chains[i].stage_id != HAND_IN_STAGE && !is_onboarding {
                return Err(message("Cannot complete quest. Not on hand-in stage."));
            }
            if log.chains[i].completed {
                return Err(message("This quest is already completed"));
            }
            log.chains[i].is_tracked = false;
            log.chains[i].completed = true;
            assert(log.chains@ =~= old(log).chains@.update(i as int, completed_chain(old(log).chains@[i as int])));
            Ok(!d.is_hint)
        },
    }
}

/// The stage whose conditions an advance checks: the chain's current stage
/// when its description exists (`stage_known`), else the chain's first
/// stage, whose description must exist (`first_known`).
pub open spec fn resolved_stage(
    stage_id: i32,
    stage_known: bool,
    first_stage: Option<i32>,
    first_known: bool,
    chain_id: i32,
) -> Result<i32, Seq<char>> {
    if stage_known {
        Ok(stage_id)
    } else {
        match first_stage {
            None => Err("Cannot advance quest. Quest chain does not have a first stage."@),
            Some(f) => if first_known {
                Ok(f)
            } else {
                Err(
                    "Cannot advance quest. Current stage {0} in chain {1} invalid.|~"@ + decimal(f as int)
                        + "|~"@ + decimal(chain_id as int),
                )
            },
        }
    }
}

pub fn resolve_current_stage(
    stage_id: i32,
    stage_known: bool,
    first_stage: Option<i32>,
    first_known: bool,
    chain_id: i32,
) -> (r: Result<i32, String>)
    ensures
        err_view(r) == resolved_stage(stage_id, stage_known, first_stage, first_known, chain_id),
{
    if stage_known {
        return Ok(stage_id);
    }
    match first_stage {
        None => Err(message("Cannot advance quest. Quest chain does not have a first stage.")),
        Some(f) => {
            if first_known {
                Ok(f)
            } else {
                let mut m = message("Cannot advance quest. Current stage {0} in chain {1} invalid.|~");
                push_decimal(&mut m, f as i64);
                m.append("|~");
                push_decimal(&mut m, chain_id as i64);
                Err(m)
            }
        },
    }
}

/// `p` is the first position of `stage` among `stages`.
pub open spec fn is_stage_position(stages: Seq<i32>, stage: i32, p: int) -> bool {
    &&& 0 <= p < stages.len()
    &&& stages[p] == stage
    &&& forall|j: int| 0 <= j < p ==> #[trigger] stages[j] != stage
}

/// The stage after `stage` in a chain: the next one in the list, or the
/// hand-in stage after the last; none when `stage` is not in the chain.
pub open spec fn stage_after(stages: Seq<i32>, stage: i32) -> Option<i32> {
    if exists|p: int| is_stage_position(stages, stage, p) {
        let p = choose|p: int| is_stage_position(stages, stage, p);
        if p + 1 < stages.len() {
            Some(stages[p + 1])
        } else {
            Some(HAND_IN_STAGE)
        }
    } else {
        None
    }
}

pub fn next_stage_id(stages: &Vec<i32>, stage: i32) -> (r: Option<i32>)
    ensures
        r == stage_after(stages@, stage),
{
    let n = stages.len();
    let mut p: usize = 0;
    while p < n
        invariant
            n == stages@.len(),
            p <= n,
            forall|j: int| 0 <= j < p ==> #[trigger] stages@[j] != stage,
        decreases n - p,
    {
        if stages[p] == stage {
            proof {
                assert(is_stage_position(stages@, stage, p as int));
                let q = choose|q: int| is_stage_position(stages@, stage, q);
                if q < p {
                    assert(stages@[q] != stage);
                }
                if p < q {
                    assert(stages@[p as int] != stage);
                }
            }
            if p + 1 < n {
                return Some(stages[p + 1]);
            } else {
                return Some(HAND_IN_STAGE);
            }
        }
        p = p + 1;
    }
    None
}

/// What advancing a chain answers. `stage_known`, `first_known` and
/// `conditions` are the facts read for the stage being checked.
pub open spec fn advance_outcome(
    chains: Seq<QuestChainState>,
    chain_id: i32,
    desc: Option<&QuestChainDesc>,
    stage_known: bool,
    first_known: bool,
    conditions: Result<(), Seq<char>>,
) -> Result<(), Seq<char>> {
    if !has_chain(chains, chain_id) {
        Err("Cannot advance quest. Quest not started."@)
    } else {
        let c = chains[chain_index(chains, chain_id)];
        if c.stage_id == HAND_IN_STAGE {
            Ok(())
        } else {
            match desc {
                None => Err("Cannot advance quest. Cannot find quest chain."@),
                Some(d) => {
                    let first = if d.stages@.len() > 0 { Some(d.stages@[0]) } else { None };
                    match resolved_stage(c.stage_id, stage_known, first, first_known, chain_id) {
                        Err(e) => Err(e),
                        Ok(stage) => match conditions {
                            Err(e) => Err(e),
                            Ok(_) => match stage_after(d.stages@, stage) {
                                None => Err(
                                    "Cannot advance quest. Chain {0} doesn't have stage {1}.|~"@
                                        + decimal(chain_id as int) + "|~"@ + decimal(stage as int),
                                ),
                                Some(_) => Ok(()),
                            },
                        },
                    }
                },
            }
        }
    }
}

/// Moves a chain on to its next stage (or to hand-in after the last), once
/// the conditions of its current stage are met (`conditions`). A chain on a
/// stage that no longer exists (`stage_known` false) is treated as on its
/// first stage. A chain already waiting to be handed in stays as it is.
pub fn advance_quest_stage(
    log: &mut QuestLog,
    chain_id: i32,
    desc: Option<&QuestChainDesc>,
    stage_known: bool,
    first_known: bool,
    conditions: Result<(), String>,
) -> (r: Result<(), String>)
    ensures
        err_view(r) == advance_outcome(
            old(log).chains@,
            chain_id,
            desc,
            stage_known,
            first_known,
            err_view(conditions),
        ),
        r is Err ==> final(log).chains@ == old(log).chains@,
        r is Ok && has_chain(old(log).chains@, chain_id) ==> {
            let i = chain_index(old(log).chains@, chain_id);
            let c = old(log).chains@[i];
            if c.stage_id == HAND_IN_STAGE {
                final(log).chains@ == old(log).chains@
            } else {
                final(log).chains@ == old(log).chains@.update(
                    i,
                    QuestChainState {
                        stage_id: stage_after(
                            desc->0.stages@,
                            resolved_stage(
                                c.stage_id,
                                stage_known,
                                if desc->0.stages@.len() > 0 { Some(desc->0.stages@[0]) } else { None },
                                first_known,
                                chain_id,
                            )->Ok_0,
                        )->0,
                        ..c
                    },
                )
            }
        },
{
    let i = match log.find_chain(chain_id) {
        Some(i) => i,
        None => return Err(message("Cannot advance quest. Quest not started.")),
    };
    proof {
        lemma_chain_index(log.chains@, chain_id, i as int);
    }
    let stage_id = log.chains[i].stage_id;
    if stage_id == HAND_IN_STAGE {
        return Ok(());
    }
    let d = match desc {
        Some(d) => d,
        None => return Err(message("Cannot advance quest. Cannot find quest chain.")),
    };
    let first = if d.stages.len() > 0 { Some(d.stages[0]) } else { None };
    let stage = resolve_current_stage(stage_id, stage_known, first, first_known, chain_id)?;
    conditions?;
    match next_stage_id(&d.stages, stage) {
        None => {
            let mut m = message("Cannot advance quest. Chain {0} doesn't have stage {1}.|~");
            push_decimal(&mut m, chain_id as i64);
            m.append("|~");
            push_decimal(&mut m, stage as i64);
            Err(m)
        },
        Some(next) => {
            log.chains[i].stage_id = next;
            assert(log.chains@ =~= old(log).chains@.update(
                i as int,
                QuestChainState { stage_id: next, ..old(log).chains@[i as int] },
            ));
            Ok(())
        },
    }
}

/// Sets whether a chain is tracked. Only one chain is tracked at a time: every
/// other chain stops being tracked. A completed chain is left as it is.
pub fn set_quest_tracked(log: &mut QuestLog, id: i32, track: bool) -> (r: Result<(), String>)
    ensures
        !has_chain(old(log).chains@, id) ==> err_view(r) == Err::<(), Seq<char>>(
            "Cannot track quest. Quest not started."@,
        ) && final(log).chains@ == old(log).chains@,
        has_chain(old(log).chains@, id) ==> r is Ok && {
            let i = chain_index(old(log).chains@, id);
            if old(log).chains@[i].completed {
                final(log).chains@ == old(log).chains@
            } else {
                final(log).chains@ == untracked_all(old(log).chains@).update(
                    i,
                    with_tracked(old(log).chains@[i], track),
                )
            }
        },
{
    let i = match log.find_chain(id) {
        Some(i) => i,
        None => return Err(message("Cannot track quest. Quest not started.")),
    };
    proof {
        lemma_chain_index(log.chains@, id, i as int);
    }
    if !log.chains[i].completed {
        log.untrack_all_quests();
        log.chains[i].is_tracked = track;
        assert(log.chains@ =~= untracked_all(old(log).chains@).update(
            i as int,
            with_tracked(old(log).chains@[i as int], track),
        ));
    }
    Ok(())
}

/// After tracking a chain, it is the only chain tracked.
pub proof fn lemma_one_chain_tracked(chains: Seq<QuestChainState>, i: int)
    requires
        0 <= i < chains.len(),
    ensures
        forall|j: int|
            0 <= j < chains.len() ==> (#[trigger] untracked_all(chains).update(
                i,
                with_tracked(chains[i], true),
            )[j].is_tracked <==> j == i),
{
}

/// The reward was already granted for the chain it belongs to.
pub open spec fn reward_granted(chains: Seq<QuestChainState>, reward_id: i32, chain_id: i32) -> bool {
    has_chain(chains, chain_id) && chains[chain_index(chains, chain_id)].stage_rewards_awarded@.contains(
        reward_id,
    )
}

/// Records a stage reward as granted. `reward_chain` is the chain the reward
/// belongs to, when the reward exists. A reward is granted at most once: once
/// granted, asking again is refused.
pub fn request_stage_reward(log: &mut QuestLog, reward_id: i32, reward_chain: Option<i32>) -> (r: Result<
    (),
    String,
>)
    ensures
        reward_chain is None ==> err_view(r) == Err::<(), Seq<char>>("Cannot find correct reward."@),
        reward_chain matches Some(c) ==> {
            &&& !has_chain(old(log).chains@, c) ==> err_view(r) == Err::<(), Seq<char>>(
                "Cannot get reward for a quest not started."@,
            )
            &&& reward_granted(old(log).chains@, reward_id, c) ==> err_view(r) == Err::<(), Seq<char>>(
                "Already received reward."@,
            )
            &&& has_chain(old(log).chains@, c) && !reward_granted(old(log).chains@, reward_id, c) ==> {
                let i = chain_index(old(log).chains@, c);
                &&& r is Ok
                &&& final(log).chains@.len() == old(log).chains@.len()
                &&& forall|j: int| 0 <= j < old(log).chains@.len() && j != i ==> final(log).chains@[j] == old(log).chains@[j]
                &&& final(log).chains@[i].stage_rewards_awarded@ == old(log).chains@[i].stage_rewards_awarded@.push(reward_id)
                &&& final(log).chains@[i] == QuestChainState {
                    stage_rewards_awarded: final(log).chains@[i].stage_rewards_awarded,
                    ..old(log).chains@[i]
                }
                &&& reward_granted(final(log).chains@, reward_id, c)
            }
        },
        r is Err ==> final(log).chains@ == old(log).chains@,
{
    let c = match reward_chain {
        Some(c) => c,
        None => return Err(message("Cannot find correct reward.")),
    };
    let i = match log.find_chain(c) {
        Some(i) => i,
        None => return Err(message("Cannot get reward for a quest not started.")),
    };
    proof {
        lemma_chain_index(log.chains@, c, i as int);
    }
    if vec_contains(&log.chains[i].stage_rewards_awarded, reward_id) {
        return Err(message("Already received reward."));
    }
    log.chains[i].stage_rewards_awarded.push(reward_id);
    proof {
        assert(log.chains@[i as int].stage_rewards_awarded@[old(log).chains@[i as int].stage_rewards_awarded@.len() as int] == reward_id);
        assert(is_chain_at(log.chains@, c, i as int));
        lemma_chain_index(log.chains@, c, i as int);
    }
    Ok(())
}

fn vec_contains(v: &Vec<i32>, x: i32) -> (r: bool)
    ensures
        r == v@.contains(x),
{
    let n = v.len();
    let mut i: usize = 0;
    while i < n
        invariant
            n == v@.len(),
            i <= n,
            forall|j: int| 0 <= j < i ==> v@[j] != x,
        decreases n - i,
    {
        if v[i] == x {
            assert(v@[i as int] == x);
            return true;
        }
        i = i + 1;
    }
    false
}

/// Completes the onboarding chain on the player's request. On success, the
/// starter kit to grant the player, in order: each stack is discovered and
/// collected or put in the player's inventory.
pub fn skip_onboarding(log: &mut QuestLog) -> (r: Result<Vec<ItemStack>, String>)
    ensures
        !has_chain(old(log).chains@, ONBOARDING_CHAIN_ID) ==> err_view(r) == Err::<Vec<ItemStack>, Seq<char>>(
            "Cannot complete quest. Onboarding not started."@,
        ),
        has_chain(old(log).chains@, ONBOARDING_CHAIN_ID) && old(log).chains@[chain_index(
            old(log).chains@,
            ONBOARDING_CHAIN_ID,
        )].completed ==> err_view(r) == Err::<Vec<ItemStack>, Seq<char>>(
            "Cannot complete quest. Onboarding already complete"@,
        ),
        r is Err ==> final(log).chains@ == old(log).chains@,
        has_chain(old(log).chains@, ONBOARDING_CHAIN_ID) && !old(log).chains@[chain_index(
            old(log).chains@,
            ONBOARDING_CHAIN_ID,
        )].completed ==> (r matches Ok(items) && items@ == spec_onboarding_items()) && final(log).chains@ == old(log).chains@.update(
            chain_index(old(log).chains@, ONBOARDING_CHAIN_ID),
            completed_chain(old(log).chains@[chain_index(old(log).chains@, ONBOARDING_CHAIN_ID)]),
        ),
{
    let i = match log.find_chain(ONBOARDING_CHAIN_ID) {
        Some(i) => i,
        None => return Err(message("Cannot complete quest. Onboarding not started.")),
    };
    proof {
        lemma_chain_index(log.chains@, ONBOARDING_CHAIN_ID, i as int);
    }
    if log.chains[i].completed {
        return Err(message("Cannot complete quest. Onboarding already complete"));
    }
    log.chains[i].is_tracked = false;
    log.chains[i].completed = true;
    assert(log.chains@ =~= old(log).chains@.update(i as int, completed_chain(old(log).chains@[i as int])));
    Ok(onboarding_items())
}

/// The starter kit granted to a player who skips onboarding, in the order it
/// is granted: two flint tool bundles and ten mushroom skewers.
pub open spec fn spec_onboarding_items() -> Seq<ItemStack> {
    seq![
        ItemStack { item_id: 12000, quantity: 1, item_type: ItemType::Item, durability: None },
        ItemStack { item_id: 134258632, quantity: 1, item_type: ItemType::Item, durability: None },
        ItemStack { item_id: 1170001, quantity: 10, item_type: ItemType::Item, durability: None },
    ]
}

pub fn onboarding_items() -> (r: Vec<ItemStack>)
    ensures
        r@ == spec_onboarding_items(),
{
    let mut v: Vec<ItemStack> = Vec::new();
    v.push(ItemStack { item_id: 12000, quantity: 1, item_type: ItemType::Item, durability: None });
    v.push(ItemStack { item_id: 134258632, quantity: 1, item_type: ItemType::Item, durability: None });
    v.push(ItemStack { item_id: 1170001, quantity: 10, item_type: ItemType::Item, durability: None });
    assert(v@ =~= spec_onboarding_items());
    v
}

} // verus!
