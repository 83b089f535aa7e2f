//! Buffs that empire-aligned buildings grant to the players who use them.
use vstd::prelude::*;
use crate::text::message;

verus! {

/// Where the player stands relative to the building.
#[derive(Clone, Copy, Debug)]
pub enum PlayerPosition {
    /// The building cannot be entered; the player is this far from it.
    Outside { distance: i32 },
    /// The building can be entered; the building the player is inside, if any.
    Inside { building_entity_id: Option<u64> },
}

/// The empire currency a buff costs, and the empire that receives it.
#[derive(Clone, Copy, Debug, PartialEq, Eq, Structural)]
pub struct BuffPayment {
    pub empire_entity_id: u64,
    pub amount: u32,
}

/// A buff a building grants, for a duration.
#[derive(Clone, Copy, Debug, PartialEq, Eq, Structural)]
pub struct BuffEffect {
    pub buff_id: i32,
    pub duration: i32,
}

/// The buff description of a building type.
#[derive(Clone, Debug)]
pub struct BuildingBuff {
    /// The empire currency one activation costs.
    pub empire_currency_cost: i32,
    pub buffs: Vec<BuffEffect>,
}

/// An accepted activation: the payment due (none for a free buff) and the
/// buffs the player gains.
#[derive(Clone, Debug)]
pub struct BuffActivation {
    pub payment: Option<BuffPayment>,
    pub buffs: Vec<BuffEffect>,
}

/// The farthest a player may stand from an unenterable building.
pub const MAX_BUFF_DISTANCE: i32 = 2;

/// What activating a building's buff answers. `empire_entity_id` is the
/// empire owning the building's chunk (none outside empires), `buff_cost`
/// the currency cost of the building's buff (none when it has no buff
/// description),
/// `may_use` the player's permission, `position` where the player stands
/// (none when the building's type is unknown). On success, the payment due
/// (none for a free buff).
pub open spec fn buff_result(
    building_entity_id: u64,
    empire_entity_id: Option<u64>,
    buff_cost: Option<i32>,
    may_use: bool,
    position: Option<PlayerPosition>,
) -> Result<Option<BuffPayment>, Seq<char>> {
    if empire_entity_id is None {
        Err("Only empire aligned buildings can provide buffs"@)
    } else if buff_cost is None {
        Err("This building can't provide buffs"@)
    } else if !may_use {
        Err("You don't have the permission to use this building"@)
    } else {
        match position {
            None => Err("Unknown building type"@),
            Some(PlayerPosition::Outside { distance }) => if distance > MAX_BUFF_DISTANCE {
                Err("Too far"@)
            } else {
                Ok(payment(empire_entity_id->0, buff_cost->0))
            },
            Some(PlayerPosition::Inside { building_entity_id: inside }) => match inside {
                None => Err("Player isn't inside a building"@),
                Some(b) => if b != building_entity_id {
                    Err("Player is inside another building"@)
                } else {
                    Ok(payment(empire_entity_id->0, buff_cost->0))
                },
            },
        }
    }
}

/// The payment of a buff that costs `cost`.
pub open spec fn payment(empire_entity_id: u64, cost: i32) -> Option<BuffPayment> {
    if cost > 0 {
        Some(BuffPayment { empire_entity_id, amount: cost as u32 })
    } else {
        None
    }
}

/// Decides whether a player may activate a building's buff (`buff`, none
/// when the building type grants none), what it costs, and which buffs the
/// player gains.
pub fn activate_building_buff(
    building_entity_id: u64,
    empire_entity_id: Option<u64>,
    buff: Option<BuildingBuff>,
    may_use: bool,
    position: Option<PlayerPosition>,
) -> (r: Result<BuffActivation, String>)
    ensures
        ({
            let cost = match buff { Some(b) => Some(b.empire_currency_cost), None => None };
            match r {
                Ok(a) => buff_result(building_entity_id, empire_entity_id, cost, may_use, position) == Ok::<
                    Option<BuffPayment>,
                    Seq<char>,
                >(a.payment) && a.buffs@ == buff->0.buffs@,
                Err(e) => buff_result(building_entity_id, empire_entity_id, cost, may_use, position) == Err::<
                    Option<BuffPayment>,
                    Seq<char>,
                >(e@),
            }
        }),
{
    let empire = match empire_entity_id {
        Some(e) => e,
        None => return Err(message("Only empire aligned buildings can provide buffs")),
    };
    let b = match buff {
        Some(b) => b,
        None => return Err(message("This building can't provide buffs")),
    };
    let cost = b.empire_currency_cost;
    if !may_use {
        return Err(message("You don't have the permission to use this building"));
    }
    match position {
        None => return Err(message("Unknown building type")),
        Some(PlayerPosition::Outside { distance }) => {
            if distance > MAX_BUFF_DISTANCE {
                return Err(message("Too far"));
            }
        },
        Some(PlayerPosition::Inside { building_entity_id: inside }) => match inside {
            None => return Err(message("Player isn't inside a building")),
            Some(b) => {
                if b != building_entity_id {
                    return Err(message("Player is inside another building"));
                }
            },
        },
    }
    let payment = if cost > 0 {
        Some(BuffPayment { empire_entity_id: empire, amount: cost as u32 })
    } else {
        None
    };
    Ok(BuffActivation { payment, buffs: b.buffs })
}

} // verus!
