//! Verified game rules of the BitCraft server: the decisions that the
//! server's reducers take, stated over plain values.
pub mod knowledge;
pub mod text;
pub mod gated_features;
pub mod region_assignment;
pub mod world_placement;
pub mod items;
pub mod quests;
pub mod quest_drops;
pub mod quest_stage;
pub mod inter_module;
pub mod claim_supplies;
pub mod equipment;
pub mod doors;
pub mod numbers;
pub mod chat;
pub mod claim_rename;
pub mod empire;
pub mod building_buff;
pub mod player_settings;
pub mod discovery;
pub mod defaults;
pub mod character_stats;
pub mod views;
pub mod moderation_config;
pub mod macro_support;
pub mod empire_create;
pub mod empire_withdraw_item;
