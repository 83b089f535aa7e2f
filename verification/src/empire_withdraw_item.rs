//! Withdrawing from an empire's treasury (global module).
use vstd::prelude::*;
use crate::text::{err_view, message, same_text};

verus! {

/// The item tag of the empire currency.
pub open spec fn empire_currency_tag() -> Seq<char> {
    "Empire Currency"@
}

/// What withdrawing from an empire's treasury answers: the treasury left.
pub open spec fn withdraw_result(
    in_empire: bool,
    treasury: Option<u32>,
    is_cargo: bool,
    item_tag: Option<Seq<char>>,
    count: u32,
) -> Result<u32, Seq<char>> {
    if !in_empire {
        Err("Player must be part of an empire to withdraw"@)
    } else if treasury is None {
        Err("This empire does not exist"@)
    } else if is_cargo {
        Err("This cargo can't be withdrawn"@)
    } else if item_tag is None {
        Err("Unknown withdrawn item"@)
    } else if item_tag->0 != empire_currency_tag() {
        Err("This item can't be withdrawn"@)
    } else if treasury->0 < count {
        Err("Not enough in the empire treasury"@)
    } else {
        Ok((treasury->0 - count) as u32)
    }
}

/// A member withdraws `count` of an item from their empire's treasury: only
/// the empire currency can be withdrawn, and never more than the treasury
/// holds. `treasury` is the empire's currency treasury (none when the empire
/// does not exist), `item_tag` the item's tag (none for an unknown item).
pub fn process_message_on_destination(
    in_empire: bool,
    treasury: Option<u32>,
    is_cargo: bool,
    item_tag: Option<&str>,
    count: u32,
) -> (r: Result<u32, String>)
    ensures
        err_view(r) == withdraw_result(
            in_empire,
            treasury,
            is_cargo,
            match item_tag { Some(t) => Some(t@), None => None },
            count,
        ),
        r matches Ok(left) ==> left + count == treasury->0,
{
    if !in_empire {
        return Err(message("Player must be part of an empire to withdraw"));
    }
    let t = match treasury {
        Some(t) => t,
        None => return Err(message("This empire does not exist")),
    };
    if is_cargo {
        return Err(message("This cargo can't be withdrawn"));
    }
    let tag = match item_tag {
        Some(tag) => tag,
        None => return Err(message("Unknown withdrawn item")),
    };
    if !same_text(tag, "Empire Currency") {
        return Err(message("This item can't be withdrawn"));
    }
    if t < count {
        return Err(message("Not enough in the empire treasury"));
    }
    Ok(t - count)
}

} // verus!
