//! The moderation settings of a region, row by row.
use vstd::prelude::*;

verus! {

/// Which moderation features are active. A single row (`id` 0).
#[derive(Clone, Debug)]
pub struct ModEnforcementConfigState {
    pub id: u8,
    pub moderation_enforcement_active: bool,
    pub chat_moderation_enforcement_active: bool,
    pub username_moderation_enforcement_active: bool,
    pub entity_moderation_enforcement_active: bool,
    /// Entity name kinds under moderation, as flags.
    pub moderated_entity_name_types: u8,
    pub check_for_links: bool,
    pub check_for_flagged_words: bool,
    pub check_for_context_flagged_words: bool,
    pub delete_flagged_messages: bool,
    pub allow_links_cwl: bool,
    pub title_id_cwl: i32,
    pub http_request_max_retries: i32,
}

/// A flagged word. `word_type`: 0 flagged, 1 flagged in context, 2 entity
/// name, 3 known top-level domain, 4 whitelisted URL, 5 to 10 whitelists of
/// usernames, building, claim, empire and empire rank names, and sign posts.
#[derive(Clone, Debug)]
pub struct ModFlaggedWordState {
    pub id: u64,
    pub word_type: u8,
    pub word: String,
}

/// Words replaced when a text is prepared; the row marked
/// `is_developer_url_replacement` replaces developer URLs.
#[derive(Clone, Debug)]
pub struct ModWordReplacementState {
    pub id: u64,
    pub words_to_replace: Vec<String>,
    pub text_replacement: String,
    pub is_developer_url_replacement: bool,
}

/// A replacement text by kind: 0 flagged message, 1 flagged message with links.
#[derive(Clone, Debug)]
pub struct ModReplacementTextState {
    pub text_type: u8,
    pub text: String,
}

/// A consequence of reports, from a point threshold on.
#[derive(Clone, Copy, Debug)]
pub struct ModConsequenceState {
    pub id: u64,
    pub point_threshold: i32,
    pub consequence_type: u8,
    pub duration: i32,
    pub flag_level_code: u8,
}

/// The points a kind of violation is worth.
#[derive(Clone, Copy, Debug)]
pub struct ModViolationState {
    pub violation_type: u8,
    pub point_value_min: i32,
    pub point_value_max: i32,
}

/// The points from which a flag level applies.
#[derive(Clone, Copy, Debug)]
pub struct ModFlagLevelThresholdState {
    pub flag_level: u8,
    pub point_threshold: i32,
}

} // verus!
