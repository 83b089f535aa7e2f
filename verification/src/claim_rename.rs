//! Renaming a claim.
use vstd::prelude::*;
use crate::text::{err_view, has_prefix, lowercase, message, starts_with, to_lowercase};

verus! {

/// The key under which a claim name is reserved: its lower case.
pub fn claim_name_key(name: &str) -> (r: String)
    ensures
        r@ == lowercase(name@),
{
    to_lowercase(name)
}

/// What a rename answers once the claim's owner asked for it: the claim
/// must still exist, the name must pass the text rules (`name_valid`), and
/// no claim may hold the same name in lower case (`name_taken`).
pub open spec fn rename_result(claim_exists: bool, name_valid: bool, name_taken: bool) -> Result<(), Seq<char>> {
    if !claim_exists {
        Err("No such claim."@)
    } else if !name_valid {
        Err("This name cannot be used"@)
    } else if name_taken {
        Err("This name is already taken"@)
    } else {
        Ok(())
    }
}

/// The checks of a rename after the owner's: on success the new name is sent
/// on to be set.
pub fn reduce(claim_exists: bool, name_valid: bool, name_taken: bool) -> (r: Result<(), String>)
    ensures
        err_view(r) == rename_result(claim_exists, name_valid, name_taken),
{
    if !claim_exists {
        return Err(message("No such claim."));
    }
    if !name_valid {
        return Err(message("This name cannot be used"));
    }
    if name_taken {
        return Err(message("This name is already taken"));
    }
    Ok(())
}

/// What a player's request to rename a claim answers. `privileges` says
/// whether the player may name things, `is_owner` whether they own the
/// claim; names that look like the default name of a claim are refused.
pub open spec fn claim_rename_result(
    privileges: Result<(), Seq<char>>,
    claim_exists: bool,
    is_owner: bool,
    name: Seq<char>,
    name_valid: bool,
    name_taken: bool,
) -> Result<(), Seq<char>> {
    if privileges is Err {
        privileges
    } else if !claim_exists {
        Err("No such claim."@)
    } else if !is_owner {
        Err("Only the owner can rename the claim."@)
    } else if has_prefix(lowercase(name), "claimed area ("@) {
        Err("This name cannot be used"@)
    } else {
        rename_result(claim_exists, name_valid, name_taken)
    }
}

pub fn claim_rename(
    privileges: Result<(), String>,
    claim_exists: bool,
    is_owner: bool,
    name: &str,
    name_valid: bool,
    name_taken: bool,
) -> (r: Result<(), String>)
    ensures
        err_view(r) == claim_rename_result(err_view(privileges), claim_exists, is_owner, name@, name_valid, name_taken),
{
    if let Err(e) = privileges {
        return Err(e);
    }
    if !claim_exists {
        return Err(message("No such claim."));
    }
    if !is_owner {
        return Err(message("Only the owner can rename the claim."));
    }
    let lower = to_lowercase(name);
    if starts_with(lower.as_str(), "claimed area (") {
        return Err(message("This name cannot be used"));
    }
    reduce(claim_exists, name_valid, name_taken)
}

} // verus!
