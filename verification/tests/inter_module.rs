use bitcraft::inter_module::{
    apply_inter_module_table_update, conclude_inter_module_message, on_inter_module_message_processed,
    process_inter_module_message, region_accepts, region_route, save_inter_module_message_error, sender_handles,
    validate_relay_identity, InterModuleCounters, InterModuleMessageError, MessageAdmission, MessageKind,
    PendingMessage, RegionRoute,
};
use bitcraft::inter_module::{shared_update_targets, SharedDestination, SharedUpdateTargets};

const KIND: MessageKind = MessageKind::PlayerCreateRequest;

fn admitted(r: Result<MessageAdmission, String>) -> (Option<u64>, RegionRoute) {
    match r {
        Ok(MessageAdmission::Process { previous, route }) => (previous, route),
        other => panic!("expected an admission, got {:?}", other),
    }
}

#[test]
fn message_is_processed_once() {
    let mut counters = InterModuleCounters { counters: vec![] };
    let errors: Vec<InterModuleMessageError> = vec![];
    assert_eq!(admitted(process_inter_module_message(true, &mut counters, &errors, 2, 10, KIND)), (None, RegionRoute::Handler(KIND)));
    assert_eq!(counters.counters.len(), 1);
    assert_eq!(counters.counters[0].last_processed_message_id, 10);
    assert!(matches!(
        process_inter_module_message(true, &mut counters, &errors, 2, 10, KIND),
        Ok(MessageAdmission::AlreadyProcessed(Ok(())))
    ));
    assert!(matches!(
        process_inter_module_message(true, &mut counters, &errors, 2, 7, KIND),
        Ok(MessageAdmission::AlreadyProcessed(Ok(())))
    ));
    assert_eq!(admitted(process_inter_module_message(true, &mut counters, &errors, 2, 11, KIND)).0, Some(10));
    assert_eq!(counters.counters[0].last_processed_message_id, 11);
    // Another sender has its own counter.
    admitted(process_inter_module_message(true, &mut counters, &errors, 3, 1, MessageKind::TableUpdate));
    assert_eq!(counters.counters.len(), 2);
}

#[test]
fn failed_message_is_undone_and_its_error_kept() {
    let mut counters = InterModuleCounters { counters: vec![] };
    let mut errors: Vec<InterModuleMessageError> = vec![];
    // A first message from sender 2 succeeds.
    let (previous, _) = admitted(process_inter_module_message(true, &mut counters, &errors, 2, 5, KIND));
    let done = conclude_inter_module_message(&mut counters, 2, 5, previous, Ok(()));
    assert_eq!(done.answer, Ok(()));
    assert!(done.error_to_keep.is_none());
    assert_eq!(counters.counters[0].last_processed_message_id, 5);
    // Message 10 fails: its counter goes back to 5, the delivery gets the error.
    let (previous, _) = admitted(process_inter_module_message(true, &mut counters, &errors, 2, 10, KIND));
    assert_eq!(previous, Some(5));
    let failed = conclude_inter_module_message(&mut counters, 2, 10, previous, Err("No such claim.".to_string()));
    assert_eq!(failed.answer, Err("No such claim.".to_string()));
    assert_eq!(counters.counters[0].last_processed_message_id, 5);
    let kept = failed.error_to_keep.unwrap();
    assert_eq!((kept.sender_module_id, kept.message_id, kept.error.as_str()), (2, 10, "No such claim."));
    save_inter_module_message_error(true, &mut errors, 2, 10, kept.error);
    save_inter_module_message_error(false, &mut errors, 2, 10, "ignored".to_string());
    assert_eq!(errors.len(), 1);
    // Redelivered, it is handled again.
    assert!(matches!(
        process_inter_module_message(true, &mut counters, &errors, 2, 10, KIND),
        Ok(MessageAdmission::Process { previous: Some(5), .. })
    ));
}

#[test]
fn first_message_failing_forgets_the_sender() {
    let mut counters = InterModuleCounters { counters: vec![] };
    let (previous, _) = admitted(process_inter_module_message(true, &mut counters, &vec![], 4, 1, KIND));
    conclude_inter_module_message(&mut counters, 4, 1, previous, Err("boom".to_string()));
    assert!(counters.counters.is_empty());
}

#[test]
fn passed_failed_message_gets_its_error() {
    let mut counters = InterModuleCounters { counters: vec![] };
    let errors = vec![InterModuleMessageError { sender_module_id: 2, message_id: 10, error: "No such claim.".to_string() }];
    admitted(process_inter_module_message(true, &mut counters, &errors, 2, 11, KIND));
    match process_inter_module_message(true, &mut counters, &errors, 2, 10, KIND) {
        Ok(MessageAdmission::AlreadyProcessed(Err(e))) => assert_eq!(e, "No such claim."),
        _ => panic!("expected the kept error"),
    }
}

#[test]
fn region_routes_and_refusals() {
    assert!(!region_accepts(MessageKind::EmpireCreate));
    assert!(!region_accepts(MessageKind::ClaimSetName));
    assert!(region_accepts(MessageKind::TransferPlayerRequest));
    assert_eq!(region_route(MessageKind::TableUpdate), RegionRoute::ApplyTableUpdate);
    assert_eq!(region_route(MessageKind::SignPlayerOut), RegionRoute::SignPlayerOut);
    assert_eq!(region_route(MessageKind::AdminBroadcastMessage), RegionRoute::AdminBroadcast);
    assert_eq!(region_route(MessageKind::RestoreSkills), RegionRoute::Handler(MessageKind::RestoreSkills));
    assert!(sender_handles(MessageKind::EmpireWithdrawItem));
    assert!(!sender_handles(MessageKind::SignPlayerOut));
}

#[test]
fn relay_must_be_admin() {
    let mut counters = InterModuleCounters { counters: vec![] };
    assert!(matches!(process_inter_module_message(false, &mut counters, &vec![], 2, 10, KIND), Err(e) if e == "Unauthorized"));
    assert!(counters.counters.is_empty());
    assert_eq!(validate_relay_identity(false), Err("Unauthorized".to_string()));
    assert_eq!(validate_relay_identity(true), Ok(()));
}

#[test]
fn processed_message_is_forgotten_by_sender() {
    let m = |id: u64, kind: MessageKind| PendingMessage { id, kind };
    let mut outbox = vec![m(4, MessageKind::EmpireCreate), m(9, MessageKind::ClaimSetName), m(12, MessageKind::SignPlayerOut)];
    assert_eq!(on_inter_module_message_processed(true, &mut outbox, 9), Ok(Some(MessageKind::ClaimSetName)));
    assert_eq!(outbox, vec![m(4, MessageKind::EmpireCreate), m(12, MessageKind::SignPlayerOut)]);
    assert_eq!(on_inter_module_message_processed(true, &mut outbox, 12), Ok(None));
    assert_eq!(
        on_inter_module_message_processed(true, &mut outbox, 9),
        Err("No inter_module_message for id {0}|~9".to_string())
    );
    assert_eq!(on_inter_module_message_processed(false, &mut outbox, 4), Err("Unauthorized".to_string()));
    assert_eq!(outbox, vec![m(4, MessageKind::EmpireCreate)]);
    assert_eq!(
        on_inter_module_message_processed(true, &mut outbox, u64::MAX),
        Err("No inter_module_message for id {0}|~18446744073709551615".to_string())
    );
}

#[test]
fn sign_in_parameters_trigger_queue_processing() {
    assert!(apply_inter_module_table_update(&Some(vec![3u8])));
    assert!(!apply_inter_module_table_update::<Vec<u8>>(&None));
}

#[test]
fn shared_changes_reach_their_accumulators() {
    assert_eq!(shared_update_targets(SharedDestination::Global), Some(SharedUpdateTargets { global: true, other_regions: false }));
    assert_eq!(shared_update_targets(SharedDestination::AllOtherRegions), Some(SharedUpdateTargets { global: false, other_regions: true }));
    assert_eq!(
        shared_update_targets(SharedDestination::GlobalAndAllOtherRegions),
        Some(SharedUpdateTargets { global: true, other_regions: true })
    );
    assert_eq!(shared_update_targets(SharedDestination::Region(3)), None);
}
