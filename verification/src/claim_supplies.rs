//! A claim buying supplies from a player: how much cargo it takes, how many
//! supplies that adds, and how many of them it pays for.
use vstd::prelude::*;
use crate::items::{ItemStack, ItemType};
use crate::numbers::{div_toward_zero, in_i32};
use crate::text::{err_view, message};

verus! {

/// What a purchase does once accepted.
#[derive(Clone, Copy, Debug, PartialEq, Eq, Structural)]
pub struct SuppliesPurchase {
    /// Cargo taken from the player's pocket.
    pub quantity: i32,
    /// Supplies added to the claim.
    pub supplies_added: i32,
    /// Supplies the claim pays the player for.
    pub paid_supplies: i32,
}

/// The most cargo worth taking: enough to fill the claim, rounded up.
pub open spec fn max_quantity(supplies: int, max_supplies: int, repair_value: int) -> int {
    div_toward_zero(max_supplies - supplies + repair_value - 1, repair_value)
}

/// `x` clamped into `[lo, hi]`.
pub open spec fn clamp(x: int, lo: int, hi: int) -> int {
    if x < lo { lo } else if x > hi { hi } else { x }
}

/// The arithmetic of a purchase fails: an `i32` step overflows, the repair
/// value is zero, or there is no room for even one piece of cargo.
pub open spec fn purchase_faults(
    supplies: i32,
    threshold: i32,
    max_supplies: i32,
    stack_quantity: i32,
    repair_value: i32,
) -> bool {
    let room = max_supplies - supplies;
    let num = room + repair_value - 1;
    ||| !in_i32(room)
    ||| !in_i32(room + repair_value)
    ||| !in_i32(num)
    ||| repair_value == 0
    ||| (num == i32::MIN && repair_value == -1)
    ||| max_quantity(supplies as int, max_supplies as int, repair_value as int) < 1
    ||| !in_i32(repair_value * clamp(
        stack_quantity as int,
        1,
        max_quantity(supplies as int, max_supplies as int, repair_value as int),
    ))
    ||| !in_i32(threshold - supplies)
}

/// The amounts of an accepted purchase.
pub open spec fn purchase_amounts(
    supplies: i32,
    threshold: i32,
    max_supplies: i32,
    stack_quantity: i32,
    repair_value: i32,
) -> SuppliesPurchase {
    let quantity = clamp(
        stack_quantity as int,
        1,
        max_quantity(supplies as int, max_supplies as int, repair_value as int),
    );
    let added = vstd::math::min(repair_value * quantity, max_supplies - supplies);
    let paid = vstd::math::min(added, threshold - supplies);
    SuppliesPurchase { quantity: quantity as i32, supplies_added: added as i32, paid_supplies: paid as i32 }
}

/// The checks of a purchase pass up to its arithmetic.
pub open spec fn reaches_arithmetic(
    supplies: i32,
    threshold: i32,
    pocket_count: Option<usize>,
    pocket_index: i32,
    interact: Result<(), Seq<char>>,
    stack: Option<ItemStack>,
    repair_value: Option<i32>,
) -> bool {
    &&& supplies < threshold
    &&& pocket_count matches Some(n) && 0 <= pocket_index < n
    &&& interact is Ok
    &&& stack matches Some(s) && s.item_type == ItemType::Cargo
    &&& repair_value is Some
}

/// What a player's offer of supplies is answered.
pub open spec fn purchase_outcome(
    supplies: i32,
    threshold: i32,
    max_supplies: i32,
    pocket_count: Option<usize>,
    pocket_index: i32,
    interact: Result<(), Seq<char>>,
    stack: Option<ItemStack>,
    repair_value: Option<i32>,
    paid_supplies: i32,
    price_matches: bool,
) -> Result<SuppliesPurchase, Seq<char>> {
    if supplies >= threshold {
        Err("Claim is not purchasing supplies at this point"@)
    } else if pocket_count is None {
        Err("Invalid inventory"@)
    } else if pocket_index < 0 || pocket_index >= pocket_count->0 {
        Err("Invalid pocket"@)
    } else if interact is Err {
        Err(interact->Err_0)
    } else if stack is None {
        Err("Inventory pocket is empty"@)
    } else if stack->0.item_type != ItemType::Cargo || repair_value is None {
        Err("Claims can only be charged with supplies."@)
    } else {
        let p = purchase_amounts(supplies, threshold, max_supplies, stack->0.quantity, repair_value->0);
        if p.paid_supplies < paid_supplies {
            Err("The claim is no longer purchasing that many supplies."@)
        } else if !price_matches {
            Err("The claim updated its claim purchase policies, please try again."@)
        } else {
            Ok(p)
        }
    }
}

/// A purchase takes at least one piece of cargo, never fills the claim
/// beyond its maximum, and never pays for more supplies than the claim
/// still buys below its purchase threshold, nor for more than it adds.
pub proof fn lemma_purchase_bounds(
    supplies: i32,
    threshold: i32,
    max_supplies: i32,
    stack_quantity: i32,
    repair_value: i32,
)
    requires
        !purchase_faults(supplies, threshold, max_supplies, stack_quantity, repair_value),
    ensures
        ({
            let p = purchase_amounts(supplies, threshold, max_supplies, stack_quantity, repair_value);
            &&& p.quantity >= 1
            &&& supplies + p.supplies_added <= max_supplies
            &&& p.paid_supplies <= p.supplies_added
            &&& supplies + p.paid_supplies <= threshold
        }),
{
}

/// An accepted purchase pays for at least the supplies the player was
/// offered payment for, and for what the claim still buys: the supplies it
/// adds, up to its purchase threshold. A purchase that would pay for fewer
/// than offered is refused.
pub proof fn lemma_accepted_purchase_pays_the_offer(
    supplies: i32,
    threshold: i32,
    max_supplies: i32,
    pocket_count: Option<usize>,
    pocket_index: i32,
    interact: Result<(), Seq<char>>,
    stack: Option<ItemStack>,
    repair_value: Option<i32>,
    paid_supplies: i32,
    price_matches: bool,
)
    requires
        reaches_arithmetic(supplies, threshold, pocket_count, pocket_index, interact, stack, repair_value)
            ==> !purchase_faults(supplies, threshold, max_supplies, stack->0.quantity, repair_value->0),
    ensures
        purchase_outcome(
            supplies,
            threshold,
            max_supplies,
            pocket_count,
            pocket_index,
            interact,
            stack,
            repair_value,
            paid_supplies,
            price_matches,
        ) matches Ok(p) ==> {
            &&& p.paid_supplies >= paid_supplies
            &&& p.paid_supplies == vstd::math::min(p.supplies_added as int, threshold - supplies)
            &&& supplies + p.supplies_added <= max_supplies
            &&& price_matches
        },
        reaches_arithmetic(supplies, threshold, pocket_count, pocket_index, interact, stack, repair_value) && ({
            let p = purchase_amounts(supplies, threshold, max_supplies, stack->0.quantity, repair_value->0);
            vstd::math::min(p.supplies_added as int, threshold - supplies) < paid_supplies
        }) ==> purchase_outcome(
            supplies,
            threshold,
            max_supplies,
            pocket_count,
            pocket_index,
            interact,
            stack,
            repair_value,
            paid_supplies,
            price_matches,
        ) == Err::<SuppliesPurchase, Seq<char>>("The claim is no longer purchasing that many supplies."@),
{
    if reaches_arithmetic(supplies, threshold, pocket_count, pocket_index, interact, stack, repair_value) {
        lemma_purchase_bounds(supplies, threshold, max_supplies, stack->0.quantity, repair_value->0);
    }
}

fn compute_amounts(
    supplies: i32,
    threshold: i32,
    max_supplies: i32,
    stack_quantity: i32,
    repair_value: i32,
) -> (r: SuppliesPurchase)
    requires
        !purchase_faults(supplies, threshold, max_supplies, stack_quantity, repair_value),
    ensures
        r == purchase_amounts(supplies, threshold, max_supplies, stack_quantity, repair_value),
{
    let room = max_supplies - supplies;
    let num = room + repair_value - 1;
    let ghost m = max_quantity(supplies as int, max_supplies as int, repair_value as int);
    proof {
        if repair_value > 0 && num < 0 {
            assert((-(num as int)) / (repair_value as int) >= 0) by (nonlinear_arith)
                requires -(num as int) > 0, repair_value > 0;
        }
        if repair_value < 0 && num > 0 {
            assert((num as int) / (-(repair_value as int)) >= 0) by (nonlinear_arith)
                requires num > 0, -(repair_value as int) > 0;
        }
        assert(m >= 1);
    }
    let mq: i32 = if repair_value > 0 {
        assert(num >= 0);
        num / repair_value
    } else {
        assert(num <= 0);
        let a: i64 = -(num as i64);
        let b: i64 = -(repair_value as i64);
        proof {
            assert(a / b <= a) by (nonlinear_arith)
                requires a >= 0, b >= 1;
            if a == 2147483648 {
                assert(b >= 2);
                assert(a / b <= a / 2) by (nonlinear_arith)
                    requires a >= 0, b >= 2;
            }
        }
        (a / b) as i32
    };
    assert(mq == m);
    let quantity = if stack_quantity < 1 {
        1
    } else if stack_quantity > mq {
        mq
    } else {
        stack_quantity
    };
    let total = repair_value * quantity;
    let added = if total < room { total } else { room };
    let cap = threshold - supplies;
    let paid = if added < cap { added } else { cap };
    SuppliesPurchase { quantity, supplies_added: added, paid_supplies: paid }
}

/// Decides a player's offer of supplies to a claim. `pocket_count` is the
/// size of the offering inventory (none when it does not exist),
/// `interact` whether the player may use it, `stack` what the pocket holds,
/// `repair_value` the supplies one piece of that cargo is worth (none when
/// it is not a supply), `price_matches` whether the player saw the claim's
/// current price.
pub fn claim_purchase_supplies_from_player(
    supplies: i32,
    threshold: i32,
    max_supplies: i32,
    pocket_count: Option<usize>,
    pocket_index: i32,
    interact: Result<(), String>,
    stack: Option<ItemStack>,
    repair_value: Option<i32>,
    paid_supplies: i32,
    price_matches: bool,
) -> (r: Result<SuppliesPurchase, String>)
    requires
        reaches_arithmetic(supplies, threshold, pocket_count, pocket_index, err_view(interact), stack, repair_value)
            ==> !purchase_faults(supplies, threshold, max_supplies, stack->0.quantity, repair_value->0),
    ensures
        err_view(r) == purchase_outcome(
            supplies,
            threshold,
            max_supplies,
            pocket_count,
            pocket_index,
            err_view(interact),
            stack,
            repair_value,
            paid_supplies,
            price_matches,
        ),
        r matches Ok(p) ==> {
            &&& p.paid_supplies >= paid_supplies
            &&& p.paid_supplies <= p.supplies_added
            &&& supplies + p.paid_supplies <= threshold
            &&& p.paid_supplies == p.supplies_added || supplies + p.paid_supplies == threshold
            &&& supplies + p.supplies_added <= max_supplies
            &&& p.quantity >= 1
            &&& price_matches
        },
{
    if supplies >= threshold {
        return Err(message("Claim is not purchasing supplies at this point"));
    }
    let n = match pocket_count {
        Some(n) => n,
        None => return Err(message("Invalid inventory")),
    };
    if pocket_index < 0 || pocket_index as usize >= n {
        return Err(message("Invalid pocket"));
    }
    if let Err(e) = interact {
        return Err(e);
    }
    let s = match stack {
        Some(s) => s,
        None => return Err(message("Inventory pocket is empty")),
    };
    if s.item_type != ItemType::Cargo {
        return Err(message("Claims can only be charged with supplies."));
    }
    let rv = match repair_value {
        Some(v) => v,
        None => return Err(message("Claims can only be charged with supplies.")),
    };
    let p = compute_amounts(supplies, threshold, max_supplies, s.quantity, rv);
    if p.paid_supplies < paid_supplies {
        return Err(message("The claim is no longer purchasing that many supplies."));
    }
    if !price_matches {
        return Err(message("The claim updated its claim purchase policies, please try again."));
    }
    Ok(p)
}

} // verus!
