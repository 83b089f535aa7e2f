//! A player's own settings.
use vstd::prelude::*;
use crate::text::{err_view, message};

verus! {

/// A player may only write their own settings.
pub fn player_settings_state_update(actor_id: u64, settings_entity_id: u64) -> (r: Result<(), String>)
    ensures
        settings_entity_id == actor_id ==> r is Ok,
        settings_entity_id != actor_id ==> err_view(r) == Err::<(), Seq<char>>("Invalid player"@),
{
    if settings_entity_id != actor_id {
        return Err(message("Invalid player"));
    }
    Ok(())
}

} // verus!
