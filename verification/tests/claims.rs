use bitcraft::claim_rename::{claim_name_key, claim_rename, reduce};
use bitcraft::claim_supplies::{claim_purchase_supplies_from_player, SuppliesPurchase};
use bitcraft::items::{ItemStack, ItemType};

fn cargo(quantity: i32) -> Option<ItemStack> {
    Some(ItemStack { item_id: 42, quantity, item_type: ItemType::Cargo, durability: None })
}

fn buy(supplies: i32, threshold: i32, max: i32, stack: Option<ItemStack>, repair: Option<i32>, paid: i32) -> Result<SuppliesPurchase, String> {
    claim_purchase_supplies_from_player(supplies, threshold, max, Some(4), 1, Ok(()), stack, repair, paid, true)
}

#[test]
fn purchase_takes_what_fills_the_claim() {
    // Room for 100 supplies at 30 each: 4 pieces are worth taking, 120 capped to 100.
    let p = buy(0, 50, 100, cargo(10), Some(30), 0).unwrap();
    assert_eq!(p, SuppliesPurchase { quantity: 4, supplies_added: 100, paid_supplies: 50 });
    // A small stack is taken whole.
    let p = buy(0, 50, 100, cargo(1), Some(30), 30).unwrap();
    assert_eq!(p, SuppliesPurchase { quantity: 1, supplies_added: 30, paid_supplies: 30 });
    // An empty stack still counts as one piece.
    let p = buy(90, 95, 100, cargo(0), Some(30), 0).unwrap();
    assert_eq!(p, SuppliesPurchase { quantity: 1, supplies_added: 10, paid_supplies: 5 });
}

#[test]
fn purchase_errors() {
    assert_eq!(buy(50, 50, 100, cargo(1), Some(1), 0), Err("Claim is not purchasing supplies at this point".to_string()));
    assert_eq!(
        claim_purchase_supplies_from_player(0, 50, 100, None, 1, Ok(()), cargo(1), Some(1), 0, true),
        Err("Invalid inventory".to_string())
    );
    assert_eq!(
        claim_purchase_supplies_from_player(0, 50, 100, Some(1), 1, Ok(()), cargo(1), Some(1), 0, true),
        Err("Invalid pocket".to_string())
    );
    assert_eq!(
        claim_purchase_supplies_from_player(0, 50, 100, Some(1), -1, Ok(()), cargo(1), Some(1), 0, true),
        Err("Invalid pocket".to_string())
    );
    assert_eq!(
        claim_purchase_supplies_from_player(0, 50, 100, Some(4), 1, Err("Too far".to_string()), cargo(1), Some(1), 0, true),
        Err("Too far".to_string())
    );
    assert_eq!(buy(0, 50, 100, None, Some(1), 0), Err("Inventory pocket is empty".to_string()));
    let item = Some(ItemStack { item_id: 42, quantity: 1, item_type: ItemType::Item, durability: None });
    assert_eq!(buy(0, 50, 100, item, Some(1), 0), Err("Claims can only be charged with supplies.".to_string()));
    assert_eq!(buy(0, 50, 100, cargo(1), None, 0), Err("Claims can only be charged with supplies.".to_string()));
    assert_eq!(buy(0, 50, 100, cargo(1), Some(10), 11), Err("The claim is no longer purchasing that many supplies.".to_string()));
    assert_eq!(
        claim_purchase_supplies_from_player(0, 50, 100, Some(4), 1, Ok(()), cargo(1), Some(10), 10, false),
        Err("The claim updated its claim purchase policies, please try again.".to_string())
    );
}

#[test]
fn claim_name_key_is_lower_case() {
    assert_eq!(claim_name_key("My ÉCLAIR Hall"), "my éclair hall".to_string());
}

#[test]
fn rename_checks() {
    assert_eq!(claim_rename(Err("Your naming privileges have been suspended".to_string()), true, true, "x", true, false), Err("Your naming privileges have been suspended".to_string()));
    assert_eq!(claim_rename(Ok(()), false, true, "x", true, false), Err("No such claim.".to_string()));
    assert_eq!(claim_rename(Ok(()), true, false, "x", true, false), Err("Only the owner can rename the claim.".to_string()));
    assert_eq!(claim_rename(Ok(()), true, true, "Claimed Area (12)", true, false), Err("This name cannot be used".to_string()));
    assert_eq!(claim_rename(Ok(()), true, true, "Claimed Area", true, false), Ok(()));
    assert_eq!(claim_rename(Ok(()), true, true, "Home", false, false), Err("This name cannot be used".to_string()));
    assert_eq!(claim_rename(Ok(()), true, true, "Home", true, true), Err("This name is already taken".to_string()));
    assert_eq!(reduce(true, true, false), Ok(()));
    assert_eq!(reduce(false, true, false), Err("No such claim.".to_string()));
}
