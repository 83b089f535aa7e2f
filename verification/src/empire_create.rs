//! Founding an empire (global module): the checks a founding request must
//! pass, and the records a new empire starts with.
use vstd::prelude::*;
use crate::text::{err_view, lowercase, message, to_lowercase};

verus! {

/// What founding an empire answers. `claim_owner` is the owner of the claim
/// the building belongs to (none when it is no claim); the lower-case name
/// must be free (`name_taken`), the claim must have the settlement tech
/// (`has_settlement`), both colours must exist, and the name must not be
/// reserved for another player.
pub open spec fn empire_create_result(
    player_entity_id: u64,
    claim_owner: Option<u64>,
    name_taken: bool,
    has_settlement: bool,
    colors_valid: bool,
    name_reserved_by_other: bool,
) -> Result<(), Seq<char>> {
    if claim_owner is None {
        Err("This is not a claim"@)
    } else if claim_owner->0 != player_entity_id {
        Err("Not the owner of this claim"@)
    } else if name_taken {
        Err("An empire with this name already exists"@)
    } else if !has_settlement {
        Err("This claim does not have the tech to form an empire"@)
    } else if !colors_valid {
        Err("Invalid empire colors"@)
    } else if name_reserved_by_other {
        Err("This name is unavailable"@)
    } else {
        Ok(())
    }
}

/// The description of a rank that every new empire has.
#[derive(Clone, Debug)]
pub struct EmpireRankDesc {
    pub rank: i32,
    pub title: String,
    pub permissions: Vec<bool>,
}

/// A rank of one empire.
#[derive(Clone, Debug)]
pub struct EmpireRankState {
    pub entity_id: u64,
    pub empire_entity_id: u64,
    pub rank: u8,
    pub title: String,
    pub permissions: Vec<bool>,
}

/// A request to found an empire, as the region sends it.
#[derive(Clone, Debug)]
pub struct EmpireCreateRequest {
    pub player_entity_id: u64,
    pub building_entity_id: u64,
    pub empire_name: String,
    pub icon_id: i32,
    pub shape_id: i32,
    pub color1_id: i32,
    pub color2_id: i32,
}

/// Where a settlement stands.
#[derive(Clone, Copy, Debug, PartialEq, Eq, Structural)]
pub struct SettlementLocation {
    pub x: i32,
    pub z: i32,
    pub dimension: u32,
}

/// What the founding reads about the world. `claim_owner` is the owner of
/// the claim whose building the request names (none when it is no claim);
/// `name_taken` whether an empire holds the name in lower case;
/// `settlement_location` where the claim's empire settlement stands (none
/// without the settlement tech); `colors_valid` whether both colours exist;
/// `name_reserved_by_other` whether the lower-case name is reserved for
/// another player.
#[derive(Clone, Copy, Debug)]
pub struct EmpireCreateFacts {
    pub claim_owner: Option<u64>,
    pub name_taken: bool,
    pub settlement_location: Option<SettlementLocation>,
    pub colors_valid: bool,
    pub name_reserved_by_other: bool,
}

/// The game parameters a new empire starts from.
#[derive(Clone, Copy, Debug)]
pub struct EmpireParameters {
    pub starting_shards: i32,
    pub starting_currency: i32,
    pub default_nobility_threshold: i32,
}

/// Who owns an empire.
#[derive(Clone, Copy, Debug, PartialEq, Eq, Structural)]
pub enum EmpireOwnerType {
    Player,
    Npc,
}

/// An empire's main row.
#[derive(Clone, Debug)]
pub struct EmpireState {
    pub entity_id: u64,
    pub capital_building_entity_id: u64,
    pub name: String,
    pub shard_treasury: u32,
    pub empire_currency_treasury: u32,
    pub nobility_threshold: i32,
    pub num_claims: i32,
    pub location: SettlementLocation,
    pub owner_type: EmpireOwnerType,
}

/// An empire's emblem.
#[derive(Clone, Copy, Debug, PartialEq, Eq, Structural)]
pub struct EmpireEmblem {
    pub entity_id: u64,
    pub icon_id: i32,
    pub shape_id: i32,
    pub color1_id: i32,
    pub color2_id: i32,
}

/// An empire's directive to its members.
#[derive(Clone, Debug)]
pub struct EmpireDirective {
    pub entity_id: u64,
    pub directive_message: String,
    pub directive_message_timestamp: Option<i64>,
}

/// A player's membership of an empire, with their rank (0 is the emperor).
#[derive(Clone, Copy, Debug, PartialEq, Eq, Structural)]
pub struct EmpireMember {
    pub player_entity_id: u64,
    pub empire_entity_id: u64,
    pub rank: u8,
}

/// When an empire's log was last posted to.
#[derive(Clone, Copy, Debug, PartialEq, Eq, Structural)]
pub struct EmpireLog {
    pub entity_id: u64,
    pub last_posted: i32,
}

/// When a member last viewed their empire's log.
#[derive(Clone, Copy, Debug, PartialEq, Eq, Structural)]
pub struct EmpirePlayerLog {
    pub player_entity_id: u64,
    pub empire_entity_id: u64,
    pub last_viewed: i32,
}

/// The records a new empire starts with.
#[derive(Clone, Debug)]
pub struct EmpireFounding {
    pub empire: EmpireState,
    /// The empire's name in lower case, under which it is indexed.
    pub name_lowercase: String,
    pub log: EmpireLog,
    pub emblem: EmpireEmblem,
    pub directive: EmpireDirective,
    /// The founder, as the empire's emperor.
    pub emperor: EmpireMember,
    pub player_log: EmpirePlayerLog,
    /// One rank per rank description, in their order.
    pub ranks: Vec<EmpireRankState>,
    /// The empire the founding settlement now belongs to.
    pub settlement_empire_entity_id: u64,
}

/// `rank` is the rank of a new empire made from its description.
pub open spec fn rank_from_desc(rank: EmpireRankState, desc: EmpireRankDesc, entity_id: u64, empire_entity_id: u64) -> bool {
    &&& rank.entity_id == entity_id
    &&& rank.empire_entity_id == empire_entity_id
    &&& rank.rank == desc.rank as u8
    &&& rank.title@ == desc.title@
    &&& rank.permissions@ == desc.permissions@
}

/// The ranks of a new empire: rank `i` is made from description `i` and
/// gets entity `i`.
pub open spec fn founding_ranks(
    descs: Seq<EmpireRankDesc>,
    entity_ids: Seq<u64>,
    empire_entity_id: u64,
    ranks: Seq<EmpireRankState>,
) -> bool {
    &&& ranks.len() == descs.len()
    &&& forall|i: int|
        0 <= i < descs.len() ==> rank_from_desc(#[trigger] ranks[i], descs[i], entity_ids[i], empire_entity_id)
}

fn default_ranks(descs: &Vec<EmpireRankDesc>, entity_ids: &Vec<u64>, empire_entity_id: u64) -> (r: Vec<
    EmpireRankState,
>)
    requires
        entity_ids@.len() == descs@.len(),
    ensures
        founding_ranks(descs@, entity_ids@, empire_entity_id, r@),
{
    let n = descs.len();
    let mut ranks: Vec<EmpireRankState> = Vec::new();
    let mut i: usize = 0;
    while i < n
        invariant
            n == descs@.len(),
            n == entity_ids@.len(),
            i <= n,
            ranks@.len() == i,
            forall|j: int|
                0 <= j < i ==> rank_from_desc(#[trigger] ranks@[j], descs@[j], entity_ids@[j], empire_entity_id),
        decreases n - i,
    {
        let desc = &descs[i];
        let title = desc.title.clone();
        let permissions = desc.permissions.clone();
        ranks.push(
            EmpireRankState {
                entity_id: entity_ids[i],
                empire_entity_id,
                rank: desc.rank as u8,
                title,
                permissions,
            },
        );
        i = i + 1;
    }
    ranks
}

/// `f` holds the records of the empire `empire_entity_id` founded on
/// `req` at `location`.
pub open spec fn founded(
    f: EmpireFounding,
    req: EmpireCreateRequest,
    location: SettlementLocation,
    params: EmpireParameters,
    empire_entity_id: u64,
    rank_descs: Seq<EmpireRankDesc>,
    rank_entity_ids: Seq<u64>,
) -> bool {
    &&& f.empire.entity_id == empire_entity_id
    &&& f.empire.capital_building_entity_id == req.building_entity_id
    &&& f.empire.name@ == req.empire_name@
    &&& f.empire.shard_treasury == params.starting_shards as u32
    &&& f.empire.empire_currency_treasury == params.starting_currency as u32
    &&& f.empire.nobility_threshold == params.default_nobility_threshold
    &&& f.empire.num_claims == 1
    &&& f.empire.location == location
    &&& f.empire.owner_type == EmpireOwnerType::Player
    &&& f.name_lowercase@ == lowercase(req.empire_name@)
    &&& f.log == EmpireLog { entity_id: empire_entity_id, last_posted: 0 }
    &&& f.emblem == EmpireEmblem {
        entity_id: empire_entity_id,
        icon_id: req.icon_id,
        shape_id: req.shape_id,
        color1_id: req.color1_id,
        color2_id: req.color2_id,
    }
    &&& f.directive.entity_id == empire_entity_id
    &&& f.directive.directive_message@ == Seq::<char>::empty()
    &&& f.directive.directive_message_timestamp is None
    &&& f.emperor == EmpireMember { player_entity_id: req.player_entity_id, empire_entity_id, rank: 0 }
    &&& f.player_log == EmpirePlayerLog {
        player_entity_id: req.player_entity_id,
        empire_entity_id,
        last_viewed: 0,
    }
    &&& founding_ranks(rank_descs, rank_entity_ids, empire_entity_id, f.ranks@)
    &&& f.settlement_empire_entity_id == empire_entity_id
}

/// Founds an empire for the request's player on the claim of the request's
/// building, from the facts the caller read. On success, the new empire's
/// records: entity `empire_entity_id`, the request's name and its lower
/// case, the starting treasuries and nobility threshold of the game
/// parameters, one claim, the settlement's location, the request's emblem,
/// an empty directive, the founder as emperor (rank 0), fresh logs, its ranks
/// (`rank_entity_ids[i]` for `rank_descs[i]`), and the settlement moved into
/// the empire.
pub fn process_message_on_destination(
    req: &EmpireCreateRequest,
    facts: EmpireCreateFacts,
    params: EmpireParameters,
    empire_entity_id: u64,
    rank_descs: &Vec<EmpireRankDesc>,
    rank_entity_ids: &Vec<u64>,
) -> (r: Result<EmpireFounding, String>)
    requires
        rank_entity_ids@.len() == rank_descs@.len(),
    ensures
        ({
            let outcome = empire_create_result(
                req.player_entity_id,
                facts.claim_owner,
                facts.name_taken,
                facts.settlement_location is Some,
                facts.colors_valid,
                facts.name_reserved_by_other,
            );
            match r {
                Ok(f) => outcome is Ok && founded(
                    f,
                    *req,
                    facts.settlement_location->0,
                    params,
                    empire_entity_id,
                    rank_descs@,
                    rank_entity_ids@,
                ),
                Err(e) => outcome == Err::<(), Seq<char>>(e@),
            }
        }),
{
    let owner = match facts.claim_owner {
        Some(o) => o,
        None => return Err(message("This is not a claim")),
    };
    if owner != req.player_entity_id {
        return Err(message("Not the owner of this claim"));
    }
    if facts.name_taken {
        return Err(message("An empire with this name already exists"));
    }
    let location = match facts.settlement_location {
        Some(l) => l,
        None => return Err(message("This claim does not have the tech to form an empire")),
    };
    if !facts.colors_valid {
        return Err(message("Invalid empire colors"));
    }
    if facts.name_reserved_by_other {
        return Err(message("This name is unavailable"));
    }
    let (shard_treasury, empire_currency_treasury) = starting_treasuries(
        params.starting_shards,
        params.starting_currency,
    );
    let name = req.empire_name.clone();
    Ok(
        EmpireFounding {
            empire: EmpireState {
                entity_id: empire_entity_id,
                capital_building_entity_id: req.building_entity_id,
                name,
                shard_treasury,
                empire_currency_treasury,
                nobility_threshold: params.default_nobility_threshold,
                num_claims: 1,
                location,
                owner_type: EmpireOwnerType::Player,
            },
            name_lowercase: to_lowercase(req.empire_name.as_str()),
            log: EmpireLog { entity_id: empire_entity_id, last_posted: 0 },
            emblem: EmpireEmblem {
                entity_id: empire_entity_id,
                icon_id: req.icon_id,
                shape_id: req.shape_id,
                color1_id: req.color1_id,
                color2_id: req.color2_id,
            },
            directive: EmpireDirective {
                entity_id: empire_entity_id,
                directive_message: String::new(),
                directive_message_timestamp: None,
            },
            emperor: EmpireMember { player_entity_id: req.player_entity_id, empire_entity_id, rank: 0 },
            player_log: EmpirePlayerLog { player_entity_id: req.player_entity_id, empire_entity_id, last_viewed: 0 },
            ranks: default_ranks(rank_descs, rank_entity_ids, empire_entity_id),
            settlement_empire_entity_id: empire_entity_id,
        },
    )
}

/// The treasuries a new empire starts with, from the game parameters.
pub fn starting_treasuries(starting_shards: i32, starting_currency: i32) -> (r: (u32, u32))
    ensures
        r.0 == starting_shards as u32,
        r.1 == starting_currency as u32,
{
    (starting_shards as u32, starting_currency as u32)
}

} // verus!
