//! Quest item drops: which drops a player may receive, and how the rolled
//! drops of a source are gathered.
use vstd::prelude::*;
use crate::items::ItemStack;
use crate::quests::{chain_index, has_chain, lemma_chain_index, QuestChainState, QuestLog};

verus! {

/// A drop that a quest adds to an extraction, an enemy or an item list.
#[derive(Clone, Copy, Debug)]
pub struct QuestDropDesc {
    pub required_quest_id: i32,
    /// The stage the player must be on; 0 for any stage.
    pub required_stage_id: i32,
}

/// The player may receive the drop: the first chain of the required quest
/// is not completed and is on the required stage (any stage when that is 0).
pub open spec fn drop_eligible(d: QuestDropDesc, chains: Seq<QuestChainState>) -> bool {
    has_chain(chains, d.required_quest_id) && {
        let c = chains[chain_index(chains, d.required_quest_id)];
        (d.required_stage_id == 0 || d.required_stage_id == c.stage_id) && !c.completed
    }
}

impl QuestDropDesc {
    pub fn is_eligible(&self, log: &QuestLog) -> (r: bool)
        ensures
            r == drop_eligible(*self, log.chains@),
    {
        match log.find_chain(self.required_quest_id) {
            None => false,
            Some(i) => {
                proof {
                    lemma_chain_index(log.chains@, self.required_quest_id, i as int);
                }
                let c = &log.chains[i];
                let correct_stage = self.required_stage_id == 0 || self.required_stage_id == c.stage_id;
                correct_stage && !c.completed
            },
        }
    }

    /// The drop the player receives: `rolled`, the outcome of the drop's own
    /// roll, when the player may receive it; nothing otherwise.
    pub fn roll(&self, log: &QuestLog, rolled: Option<ItemStack>) -> (r: Option<ItemStack>)
        ensures
            r == (if drop_eligible(*self, log.chains@) { rolled } else { None }),
    {
        if self.is_eligible(log) {
            rolled
        } else {
            None
        }
    }
}

/// The stacks among `rolls`, in order.
pub open spec fn received(rolls: Seq<Option<ItemStack>>) -> Seq<ItemStack>
    decreases rolls.len(),
{
    if rolls.len() == 0 {
        Seq::empty()
    } else {
        let rest = received(rolls.drop_last());
        match rolls.last() {
            Some(s) => rest.push(s),
            None => rest,
        }
    }
}

/// The drops of one source (id 0 is no source): the stacks received, or
/// nothing when none was.
pub open spec fn gathered_drops(source_id: i32, rolls: Seq<Option<ItemStack>>) -> Option<Seq<ItemStack>> {
    if source_id == 0 || received(rolls).len() == 0 {
        None
    } else {
        Some(received(rolls))
    }
}

fn gather(rolls: &Vec<Option<ItemStack>>) -> (r: Vec<ItemStack>)
    ensures
        r@ == received(rolls@),
{
    let mut out: Vec<ItemStack> = Vec::new();
    let n = rolls.len();
    let mut i: usize = 0;
    while i < n
        invariant
            n == rolls@.len(),
            i <= n,
            out@ == received(rolls@.take(i as int)),
        decreases n - i,
    {
        assert(rolls@.take(i + 1).drop_last() =~= rolls@.take(i as int));
        if let Some(s) = rolls[i] {
            out.push(s);
        }
        i = i + 1;
    }
    assert(rolls@.take(n as int) =~= rolls@);
    out
}

fn gathered(source_id: i32, rolls: &Vec<Option<ItemStack>>) -> (r: Option<Vec<ItemStack>>)
    ensures
        match r {
            Some(v) => gathered_drops(source_id, rolls@) == Some(v@),
            None => gathered_drops(source_id, rolls@) is None,
        },
{
    if source_id == 0 {
        return None;
    }
    let out = gather(rolls);
    if out.len() == 0 {
        None
    } else {
        Some(out)
    }
}

/// The quest drops of an extraction; `rolls` are the outcomes of the
/// extraction's drops, each rolled with the damage dealt.
pub fn roll_extraction(extraction_recipe_id: i32, rolls: &Vec<Option<ItemStack>>) -> (r: Option<Vec<ItemStack>>)
    ensures
        match r {
            Some(v) => gathered_drops(extraction_recipe_id, rolls@) == Some(v@),
            None => gathered_drops(extraction_recipe_id, rolls@) is None,
        },
{
    gathered(extraction_recipe_id, rolls)
}

/// The quest drops of a defeated enemy; `rolls` are the outcomes of the
/// enemy's drops, each rolled once.
pub fn roll_enemy(enemy_type_id: i32, rolls: &Vec<Option<ItemStack>>) -> (r: Option<Vec<ItemStack>>)
    ensures
        match r {
            Some(v) => gathered_drops(enemy_type_id, rolls@) == Some(v@),
            None => gathered_drops(enemy_type_id, rolls@) is None,
        },
{
    gathered(enemy_type_id, rolls)
}

/// The quest drops of an item list; `rolls` are the outcomes of the list's
/// drops, each rolled the given number of times.
pub fn roll_item_list(item_list_id: i32, rolls: &Vec<Option<ItemStack>>) -> (r: Option<Vec<ItemStack>>)
    ensures
        match r {
            Some(v) => gathered_drops(item_list_id, rolls@) == Some(v@),
            None => gathered_drops(item_list_id, rolls@) is None,
        },
{
    gathered(item_list_id, rolls)
}

} // verus!
