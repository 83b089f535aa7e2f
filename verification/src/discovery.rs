//! What a player may report discovering.
use vstd::prelude::*;
use crate::text::{err_view, message};

verus! {

/// The kinds of things a player discovers.
#[derive(Clone, Copy, Debug, PartialEq, Eq, Structural)]
pub enum DiscoveryKind {
    Achievement,
    Building,
    Cargo,
    Claim,
    ConstructionRecipe,
    CraftingRecipe,
    Deployable,
    Enemy,
    ExtractionRecipe,
    Item,
    Scroll,
    Npc,
    Pavement,
    PillarShaping,
    Resource,
    ResourcePlacement,
    Ruins,
    SecondaryKnowledge,
    Collectible,
}

/// What a discovery of an unknown thing is answered; ruins are never looked up.
pub open spec fn unknown_message(kind: DiscoveryKind) -> Option<Seq<char>> {
    match kind {
        DiscoveryKind::Achievement => Some("Unknown achievement"@),
        DiscoveryKind::Building => Some("Unknown building"@),
        DiscoveryKind::Cargo => Some("Unknown cargo"@),
        DiscoveryKind::Claim => Some("Unknown claim"@),
        DiscoveryKind::ConstructionRecipe => Some("Unknown construction recipe"@),
        DiscoveryKind::CraftingRecipe => Some("Unknown crafting recipe"@),
        DiscoveryKind::Deployable => Some("Unknown deployable"@),
        DiscoveryKind::Enemy => Some("Unknown enemy"@),
        DiscoveryKind::ExtractionRecipe => Some("Unknown extraction recipe"@),
        DiscoveryKind::Item => Some("Unknown item"@),
        DiscoveryKind::Scroll => Some("Unknown scroll"@),
        DiscoveryKind::Npc => Some("Unknown traveler"@),
        DiscoveryKind::Pavement => Some("Unknown pavement"@),
        DiscoveryKind::PillarShaping => Some("Unknown pillar shaping"@),
        DiscoveryKind::Resource => Some("Unknown resource"@),
        DiscoveryKind::ResourcePlacement => Some("Unknown resource placement recipe"@),
        DiscoveryKind::Ruins => None,
        DiscoveryKind::SecondaryKnowledge => Some("Unknown secondary knowledge"@),
        DiscoveryKind::Collectible => Some("Unknown collectible"@),
    }
}

/// What reporting a discovery answers: success when the thing is known
/// (its description exists) or is never looked up.
pub open spec fn discovery_result(kind: DiscoveryKind, known: bool) -> Result<(), Seq<char>> {
    if known || unknown_message(kind) is None {
        Ok(())
    } else {
        Err(unknown_message(kind)->0)
    }
}

/// A player reports discovering something (`known`: its description exists).
/// The discovery is recorded when the thing is known; ruins always are.
pub fn discover(kind: DiscoveryKind, known: bool) -> (r: Result<(), String>)
    ensures
        err_view(r) == discovery_result(kind, known),
{
    if known {
        return Ok(());
    }
    match kind {
        DiscoveryKind::Achievement => Err(message("Unknown achievement")),
        DiscoveryKind::Building => Err(message("Unknown building")),
        DiscoveryKind::Cargo => Err(message("Unknown cargo")),
        DiscoveryKind::Claim => Err(message("Unknown claim")),
        DiscoveryKind::ConstructionRecipe => Err(message("Unknown construction recipe")),
        DiscoveryKind::CraftingRecipe => Err(message("Unknown crafting recipe")),
        DiscoveryKind::Deployable => Err(message("Unknown deployable")),
        DiscoveryKind::Enemy => Err(message("Unknown enemy")),
        DiscoveryKind::ExtractionRecipe => Err(message("Unknown extraction recipe")),
        DiscoveryKind::Item => Err(message("Unknown item")),
        DiscoveryKind::Scroll => Err(message("Unknown scroll")),
        DiscoveryKind::Npc => Err(message("Unknown traveler")),
        DiscoveryKind::Pavement => Err(message("Unknown pavement")),
        DiscoveryKind::PillarShaping => Err(message("Unknown pillar shaping")),
        DiscoveryKind::Resource => Err(message("Unknown resource")),
        DiscoveryKind::ResourcePlacement => Err(message("Unknown resource placement recipe")),
        DiscoveryKind::Ruins => Ok(()),
        DiscoveryKind::SecondaryKnowledge => Err(message("Unknown secondary knowledge")),
        DiscoveryKind::Collectible => Err(message("Unknown collectible")),
    }
}

/// A player reports discovering a achievement; `known` says whether it exists.
pub fn discover_achievement(known: bool) -> (r: Result<(), String>)
    ensures
        err_view(r) == discovery_result(DiscoveryKind::Achievement, known),
{
    discover(DiscoveryKind::Achievement, known)
}

/// A player reports discovering a building; `known` says whether it exists.
pub fn discover_building(known: bool) -> (r: Result<(), String>)
    ensures
        err_view(r) == discovery_result(DiscoveryKind::Building, known),
{
    discover(DiscoveryKind::Building, known)
}

/// A player reports discovering a cargo; `known` says whether it exists.
pub fn discover_cargo(known: bool) -> (r: Result<(), String>)
    ensures
        err_view(r) == discovery_result(DiscoveryKind::Cargo, known),
{
    discover(DiscoveryKind::Cargo, known)
}

/// A player reports discovering a claim; `known` says whether it exists.
pub fn discover_claim(known: bool) -> (r: Result<(), String>)
    ensures
        err_view(r) == discovery_result(DiscoveryKind::Claim, known),
{
    discover(DiscoveryKind::Claim, known)
}

/// A player reports discovering a construction recipe; `known` says whether it exists.
pub fn discover_construction_recipe(known: bool) -> (r: Result<(), String>)
    ensures
        err_view(r) == discovery_result(DiscoveryKind::ConstructionRecipe, known),
{
    discover(DiscoveryKind::ConstructionRecipe, known)
}

/// A player reports discovering a crafting recipe; `known` says whether it exists.
pub fn discover_crafting_recipe(known: bool) -> (r: Result<(), String>)
    ensures
        err_view(r) == discovery_result(DiscoveryKind::CraftingRecipe, known),
{
    discover(DiscoveryKind::CraftingRecipe, known)
}

/// A player reports discovering a deployable; `known` says whether it exists.
pub fn discover_deployable(known: bool) -> (r: Result<(), String>)
    ensures
        err_view(r) == discovery_result(DiscoveryKind::Deployable, known),
{
    discover(DiscoveryKind::Deployable, known)
}

/// A player reports discovering a enemy; `known` says whether it exists.
pub fn discover_enemy(known: bool) -> (r: Result<(), String>)
    ensures
        err_view(r) == discovery_result(DiscoveryKind::Enemy, known),
{
    discover(DiscoveryKind::Enemy, known)
}

/// A player reports discovering a extraction recipe; `known` says whether it exists.
pub fn discover_extraction_recipe(known: bool) -> (r: Result<(), String>)
    ensures
        err_view(r) == discovery_result(DiscoveryKind::ExtractionRecipe, known),
{
    discover(DiscoveryKind::ExtractionRecipe, known)
}

/// A player reports discovering a item; `known` says whether it exists.
pub fn discover_item(known: bool) -> (r: Result<(), String>)
    ensures
        err_view(r) == discovery_result(DiscoveryKind::Item, known),
{
    discover(DiscoveryKind::Item, known)
}

/// A player reports discovering a scroll; `known` says whether it exists.
pub fn discover_scroll(known: bool) -> (r: Result<(), String>)
    ensures
        err_view(r) == discovery_result(DiscoveryKind::Scroll, known),
{
    discover(DiscoveryKind::Scroll, known)
}

/// A player reports discovering a traveler (NPC); `known` says whether it exists.
pub fn discover_npc(known: bool) -> (r: Result<(), String>)
    ensures
        err_view(r) == discovery_result(DiscoveryKind::Npc, known),
{
    discover(DiscoveryKind::Npc, known)
}

/// A player reports discovering a pavement; `known` says whether it exists.
pub fn discover_pavement(known: bool) -> (r: Result<(), String>)
    ensures
        err_view(r) == discovery_result(DiscoveryKind::Pavement, known),
{
    discover(DiscoveryKind::Pavement, known)
}

/// A player reports discovering a pillar shaping; `known` says whether it exists.
pub fn discover_pillar_shaping(known: bool) -> (r: Result<(), String>)
    ensures
        err_view(r) == discovery_result(DiscoveryKind::PillarShaping, known),
{
    discover(DiscoveryKind::PillarShaping, known)
}

/// A player reports discovering a resource; `known` says whether it exists.
pub fn discover_resource(known: bool) -> (r: Result<(), String>)
    ensures
        err_view(r) == discovery_result(DiscoveryKind::Resource, known),
{
    discover(DiscoveryKind::Resource, known)
}

/// A player reports discovering a resource placement; `known` says whether it exists.
pub fn discover_resource_placement(known: bool) -> (r: Result<(), String>)
    ensures
        err_view(r) == discovery_result(DiscoveryKind::ResourcePlacement, known),
{
    discover(DiscoveryKind::ResourcePlacement, known)
}

/// A player discovers ruins; ruins are not looked up, so this always succeeds.
pub fn discover_ruins() -> (r: Result<(), String>)
    ensures
        err_view(r) == discovery_result(DiscoveryKind::Ruins, true),
        r is Ok,
{
    discover(DiscoveryKind::Ruins, true)
}

/// A player reports discovering a secondary knowledge; `known` says whether it exists.
pub fn discover_secondary_knowledge(known: bool) -> (r: Result<(), String>)
    ensures
        err_view(r) == discovery_result(DiscoveryKind::SecondaryKnowledge, known),
{
    discover(DiscoveryKind::SecondaryKnowledge, known)
}

/// A player reports discovering a collectible; `known` says whether it exists.
pub fn discover_collectible(known: bool) -> (r: Result<(), String>)
    ensures
        err_view(r) == discovery_result(DiscoveryKind::Collectible, known),
{
    discover(DiscoveryKind::Collectible, known)
}

} // verus!
