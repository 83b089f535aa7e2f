//! The completion conditions of a quest stage.
use vstd::prelude::*;
use crate::items::ItemStack;
use crate::text::{err_view, message};

verus! {

/// A stack the player must hold, and whether handing the stage in uses it up.
#[derive(Clone, Copy, Debug)]
pub struct ItemStackCondition {
    pub item_stack: ItemStack,
    pub is_consumed: bool,
}

/// One condition of a quest stage. Conditions that the server does not
/// check itself carry their id only.
#[derive(Clone, Copy, Debug)]
pub enum CompletionCondition {
    PaddingNone(i32),
    ItemStack(ItemStackCondition),
    Achievement(i32),
    Collectible(i32),
    Level(i32),
    SecondaryKnowledge(i32),
    EquippedItem(i32),
}

/// What was read about the player for one condition.
#[derive(Debug)]
pub struct ConditionFacts {
    /// Whether the player's inventory and nearby deployables hold the
    /// condition's stack; the lookup itself may fail.
    pub items_present: Result<bool, String>,
    /// Whether the player's vault holds the condition's collectible; none
    /// when the player has no vault.
    pub vault_has_collectible: Option<bool>,
    /// Whether the player acquired the condition's secondary knowledge.
    pub knowledge_acquired: bool,
}

/// The verdict on one condition: refused, or met, with the stack to take
/// from the player when the condition uses it up.
pub open spec fn condition_verdict(c: CompletionCondition, f: ConditionFacts) -> Result<
    Option<ItemStack>,
    Seq<char>,
> {
    match c {
        CompletionCondition::ItemStack(ic) => match f.items_present {
            Err(e) => Err(e@),
            Ok(false) => Err("Missing required items."@),
            Ok(true) => Ok(if ic.is_consumed { Some(ic.item_stack) } else { None }),
        },
        CompletionCondition::Collectible(_) => match f.vault_has_collectible {
            None => Err("No vault state for this player."@),
            Some(false) => Err("Missing required collectible."@),
            Some(true) => Ok(None),
        },
        CompletionCondition::SecondaryKnowledge(_) => if f.knowledge_acquired {
            Ok(None)
        } else {
            Err("Missing required knowledge"@)
        },
        _ => Ok(None),
    }
}

/// The verdict on all conditions, in order: the first refusal, or the
/// stacks to take from the player.
pub open spec fn conditions_outcome(conds: Seq<CompletionCondition>, facts: Seq<ConditionFacts>) -> Result<
    Seq<ItemStack>,
    Seq<char>,
>
    decreases conds.len(),
{
    if conds.len() == 0 {
        Ok(Seq::empty())
    } else {
        match conditions_outcome(conds.drop_last(), facts.take(conds.len() - 1)) {
            Err(e) => Err(e),
            Ok(taken) => match condition_verdict(conds.last(), facts[conds.len() - 1]) {
                Err(e) => Err(e),
                Ok(Some(s)) => Ok(taken.push(s)),
                Ok(None) => Ok(taken),
            },
        }
    }
}

pub fn check_condition(c: &CompletionCondition, f: &ConditionFacts) -> (r: Result<Option<ItemStack>, String>)
    ensures
        err_view(r) == condition_verdict(*c, *f),
{
    match c {
        CompletionCondition::ItemStack(ic) => match &f.items_present {
            Err(e) => Err(e.clone()),
            Ok(present) => {
                if !*present {
                    Err(message("Missing required items."))
                } else if ic.is_consumed {
                    Ok(Some(ic.item_stack))
                } else {
                    Ok(None)
                }
            },
        },
        CompletionCondition::Collectible(_) => match f.vault_has_collectible {
            None => Err(message("No vault state for this player.")),
            Some(false) => Err(message("Missing required collectible.")),
            Some(true) => Ok(None),
        },
        CompletionCondition::SecondaryKnowledge(_) => {
            if f.knowledge_acquired {
                Ok(None)
            } else {
                Err(message("Missing required knowledge"))
            }
        },
        _ => Ok(None),
    }
}

/// One step of checking a stage's conditions: the stack to withdraw from
/// the player before the next step (when the condition uses it up), the
/// condition to check next, and whether none is left.
#[derive(Debug)]
pub struct ConditionStep {
    pub withdraw: Option<ItemStack>,
    pub next: usize,
    pub finished: bool,
}

/// The conditions of a quest stage.
#[derive(Clone, Debug)]
pub struct QuestStageDesc {
    pub id: i32,
    pub completion_conditions: Vec<CompletionCondition>,
}

impl QuestStageDesc {
    /// Checks condition `i` against the facts read for it, once the stacks of
    /// the earlier conditions were withdrawn. A refusal ends the check; a
    /// withdrawal that fails ends it with the withdrawal's error.
    pub fn fulfil_step(&self, i: usize, facts: &ConditionFacts) -> (r: Result<ConditionStep, String>)
        requires
            i < self.completion_conditions@.len(),
        ensures
            match r {
                Ok(step) => condition_verdict(self.completion_conditions@[i as int], *facts) == Ok::<
                    Option<ItemStack>,
                    Seq<char>,
                >(step.withdraw) && step.next == i + 1 && step.finished == (i + 1
                    == self.completion_conditions@.len()),
                Err(e) => condition_verdict(self.completion_conditions@[i as int], *facts) == Err::<
                    Option<ItemStack>,
                    Seq<char>,
                >(e@),
            },
    {
        let n = self.completion_conditions.len();
        let withdraw = check_condition(&self.completion_conditions[i], facts)?;
        Ok(ConditionStep { withdraw, next: i + 1, finished: i + 1 == n })
    }

    /// Checks the stage's conditions in order against `facts` (one entry per
    /// condition, read once the stacks of the earlier conditions that are
    /// used up have been taken). On success, the stacks to take from the
    /// player, in the order of their conditions.
    pub fn fulfil_completion_conditions(&self, facts: &Vec<ConditionFacts>) -> (r: Result<
        Vec<ItemStack>,
        String,
    >)
        requires
            facts@.len() == self.completion_conditions@.len(),
        ensures
            match r {
                Ok(v) => conditions_outcome(self.completion_conditions@, facts@) == Ok::<
                    Seq<ItemStack>,
                    Seq<char>,
                >(v@),
                Err(e) => conditions_outcome(self.completion_conditions@, facts@) == Err::<
                    Seq<ItemStack>,
                    Seq<char>,
                >(e@),
            },
    {
        let conds = &self.completion_conditions;
        let n = conds.len();
        let mut taken: Vec<ItemStack> = Vec::new();
        let mut i: usize = 0;
        while i < n
            invariant
                conds@ == self.completion_conditions@,
                n == conds@.len(),
                n == facts@.len(),
                i <= n,
                conditions_outcome(conds@.take(i as int), facts@.take(i as int)) == Ok::<
                    Seq<ItemStack>,
                    Seq<char>,
                >(taken@),
            decreases n - i,
        {
            let v = check_condition(&conds[i], &facts[i]);
            proof {
                let c1 = conds@.take(i + 1);
                let f1 = facts@.take(i + 1);
                assert(c1.drop_last() =~= conds@.take(i as int));
                assert(f1.take(i as int) =~= facts@.take(i as int));
                assert(c1.last() == conds@[i as int]);
                assert(f1[i as int] == facts@[i as int]);
            }
            match v {
                Err(e) => {
                    proof {
                        assert(conditions_outcome(conds@.take(i + 1), facts@.take(i + 1)) == Err::<
                            Seq<ItemStack>,
                            Seq<char>,
                        >(e@));
                        lemma_error_persists(conds@, facts@, i as int + 1);
                    }
                    return Err(e);
                },
                Ok(Some(s)) => {
                    taken.push(s);
                },
                Ok(None) => {},
            }
            i = i + 1;
        }
        assert(conds@.take(n as int) =~= conds@);
        assert(facts@.take(n as int) =~= facts@);
        Ok(taken)
    }
}

/// Checking the conditions step by step gives the verdict of one pass over
/// the facts read at each step: the verdict on the first `i + 1` conditions
/// is the verdict on the first `i`, then that of condition `i`.
pub proof fn lemma_steps_compose(conds: Seq<CompletionCondition>, facts: Seq<ConditionFacts>, i: int)
    requires
        0 <= i < conds.len(),
        conds.len() == facts.len(),
    ensures
        conditions_outcome(conds.take(i + 1), facts.take(i + 1)) == (match conditions_outcome(
            conds.take(i),
            facts.take(i),
        ) {
            Err(e) => Err(e),
            Ok(taken) => match condition_verdict(conds[i], facts[i]) {
                Err(e) => Err(e),
                Ok(Some(s)) => Ok(taken.push(s)),
                Ok(None) => Ok(taken),
            },
        }),
{
    let c1 = conds.take(i + 1);
    let f1 = facts.take(i + 1);
    assert(c1.drop_last() =~= conds.take(i));
    assert(f1.take(i) =~= facts.take(i));
    assert(c1.last() == conds[i]);
    assert(f1[i] == facts[i]);
}

/// A refusal among the first `k` conditions is the verdict on all of them.
pub proof fn lemma_error_persists(conds: Seq<CompletionCondition>, facts: Seq<ConditionFacts>, k: int)
    requires
        0 <= k <= conds.len(),
        conds.len() == facts.len(),
        conditions_outcome(conds.take(k), facts.take(k)) is Err,
    ensures
        conditions_outcome(conds, facts) == conditions_outcome(conds.take(k), facts.take(k)),
    decreases conds.len() - k,
{
    if k == conds.len() {
        assert(conds.take(k) =~= conds);
        assert(facts.take(k) =~= facts);
    } else {
        let c1 = conds.take(k + 1);
        let f1 = facts.take(k + 1);
        assert(c1.drop_last() =~= conds.take(k));
        assert(f1.take(k) =~= facts.take(k));
        lemma_error_persists(conds, facts, k + 1);
    }
}

} // verus!
