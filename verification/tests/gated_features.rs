use bitcraft::gated_features::{
    admin_gated_feature_add, admin_gated_feature_remove, feature_gate, gate_verdict, normalize_feature_key, GatedFeatures,
};

#[test]
fn normalize_trims_white_space() {
    assert_eq!(normalize_feature_key("  reducer:chat \t\n".to_string()), Ok("reducer:chat".to_string()));
    assert_eq!(normalize_feature_key("\u{3000}x\u{a0}".to_string()), Ok("x".to_string()));
}

#[test]
fn normalize_refuses_empty_key() {
    assert_eq!(normalize_feature_key("   ".to_string()), Err("Feature key cannot be empty".to_string()));
    assert_eq!(normalize_feature_key(String::new()), Err("Feature key cannot be empty".to_string()));
}

#[test]
fn add_requires_admin() {
    let mut g = GatedFeatures::new();
    assert_eq!(admin_gated_feature_add(false, &mut g, "reducer:x".to_string()), Err("Unauthorized".to_string()));
    assert!(!g.contains("reducer:x"));
    assert_eq!(admin_gated_feature_remove(false, &mut g, "reducer:x".to_string()), Err("Unauthorized".to_string()));
}

#[test]
fn add_is_idempotent_and_remove_undoes_it() {
    let mut g = GatedFeatures::new();
    assert_eq!(admin_gated_feature_add(true, &mut g, " reducer:x ".to_string()), Ok(()));
    assert_eq!(admin_gated_feature_add(true, &mut g, "reducer:x".to_string()), Ok(()));
    assert_eq!(g.features.len(), 1);
    assert!(g.contains("reducer:x"));
    assert_eq!(admin_gated_feature_remove(true, &mut g, "reducer:x\n".to_string()), Ok(()));
    assert!(!g.contains("reducer:x"));
    assert_eq!(admin_gated_feature_remove(true, &mut g, "reducer:x".to_string()), Ok(()));
    assert_eq!(admin_gated_feature_add(true, &mut g, " ".to_string()), Err("Feature key cannot be empty".to_string()));
}

#[test]
fn gated_reducer_is_refused_except_for_game_masters() {
    let mut g = GatedFeatures::new();
    assert_eq!(feature_gate(false, &g, "chat_post_message", None), Ok(()));
    admin_gated_feature_add(true, &mut g, "reducer:chat_post_message".to_string()).unwrap();
    assert_eq!(
        feature_gate(false, &g, "chat_post_message", None),
        Err("This functionality is currently disabled".to_string())
    );
    assert_eq!(feature_gate(true, &g, "chat_post_message", None), Ok(()));
    assert_eq!(feature_gate(false, &g, "claim_rename", None), Ok(()));
}

#[test]
fn gated_category_is_refused() {
    let mut g = GatedFeatures::new();
    admin_gated_feature_add(true, &mut g, "category:claims".to_string()).unwrap();
    assert_eq!(
        feature_gate(false, &g, "claim_rename", Some("claims")),
        Err("This functionality is currently disabled".to_string())
    );
    assert_eq!(feature_gate(false, &g, "claim_rename", Some("chat")), Ok(()));
    assert_eq!(feature_gate(false, &g, "claim_rename", None), Ok(()));
}

#[test]
fn normalized_key_normalizes_to_itself() {
    let k = normalize_feature_key("  reducer:player_move \t".to_string()).unwrap();
    assert_eq!(k, "reducer:player_move");
    assert_eq!(normalize_feature_key(k.clone()), Ok(k));
}

#[test]
fn gate_verdict_from_lookups() {
    assert_eq!(gate_verdict(false, false, false), Ok(()));
    assert_eq!(gate_verdict(false, true, false), Err("This functionality is currently disabled".to_string()));
    assert_eq!(gate_verdict(false, false, true), Err("This functionality is currently disabled".to_string()));
    assert_eq!(gate_verdict(true, true, true), Ok(()));
}
