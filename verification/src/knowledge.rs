use vstd::prelude::*;

verus! {

/// How far a player has progressed with one piece of knowledge.
#[derive(Clone, Copy, Debug, PartialEq, Eq, Structural)]
pub enum KnowledgeState {
    Unknown,
    Discovered,
    Acquired,
}

/// One entry of a player's knowledge list.
#[derive(Clone, Copy, Debug, PartialEq, Eq, Structural)]
pub struct KnowledgeEntry {
    pub id: i32,
    pub state: KnowledgeState,
}

/// The secondary knowledge a player holds, in the order it was recorded.
#[derive(Clone, Debug)]
pub struct KnowledgeSecondaryState {
    pub entity_id: u64,
    pub entries: Vec<KnowledgeEntry>,
}

/// A secondary knowledge counts as acquired when the first entry recorded for it
/// is in the `Acquired` state.
pub open spec fn spec_is_acquired(entries: Seq<KnowledgeEntry>, id: i32) -> bool {
    exists|i: int|
        0 <= i < entries.len() && entries[i].id == id && entries[i].state == KnowledgeState::Acquired
            && forall|j: int| 0 <= j < i ==> entries[j].id != id
}

impl KnowledgeSecondaryState {
    pub fn is_acquired(&self, secondary_id: i32) -> (r: bool)
        ensures
            r == spec_is_acquired(self.entries@, secondary_id),
    {
        let n = self.entries.len();
        let mut i: usize = 0;
        while i < n
            invariant
                n == self.entries@.len(),
                i <= n,
                forall|j: int| 0 <= j < i ==> self.entries@[j].id != secondary_id,
            decreases n - i,
        {
            let entry = &self.entries[i];
            if entry.id == secondary_id {
                return match entry.state {
                    KnowledgeState::Acquired => true,
                    _ => false,
                };
            }
            i = i + 1;
        }
        false
    }
}

} // verus!
