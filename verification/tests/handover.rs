use persona_spirit::handover::{
    spirit_contract_version, ComponentName, ContractVersion, HandoverCompletion,
    HandoverReadiness, HandoverRejectionReason, MirrorPayload, UpgradeController,
    UpgradeOperation, UpgradeReply,
};
use persona_spirit::record::{Date, Description, Entry, Kind, Magnitude, Time, Topic, Topics};
use persona_spirit::store::{SpiritStore, StampedEntry, StoreLocation};

const NOW: u64 = 1_779_364_800;

fn store() -> SpiritStore {
    SpiritStore::open(&StoreLocation::new("/tmp/persona-spirit-handover.redb".to_string()))
}

fn component() -> ComponentName {
    ComponentName::new("persona-spirit".to_string())
}

fn stamped(description: &str) -> StampedEntry {
    StampedEntry::new(
        Entry {
            topics: Topics::single(Topic::new("handover".to_string())),
            kind: Kind::Decision,
            description: Description::new(description.to_string()),
            certainty: Magnitude::High,
            privacy: Magnitude::Zero,
        },
        Date::new(2026, 6, 4),
        Time::new(12, 0, 0),
    )
}

fn accept_readiness(controller: &mut UpgradeController, store: &mut SpiritStore) -> UpgradeReply {
    let UpgradeReply::HandoverMarker(marker) = controller
        .submit_upgrade_request(store, UpgradeOperation::AskHandoverMarker(component()), NOW)
        .expect("marker read")
    else {
        panic!("expected a marker");
    };
    controller
        .submit_upgrade_request(
            store,
            UpgradeOperation::ReadyToHandover(HandoverReadiness {
                component: component(),
                source_marker: marker,
            }),
            NOW,
        )
        .expect("readiness answered")
}

fn finalize(controller: &mut UpgradeController, store: &mut SpiritStore) {
    let UpgradeReply::HandoverAccepted { accepted_marker } = accept_readiness(controller, store)
    else {
        panic!("expected acceptance");
    };
    let reply = controller
        .submit_upgrade_request(
            store,
            UpgradeOperation::HandoverCompleted(HandoverCompletion {
                component: component(),
                accepted_marker,
            }),
            NOW,
        )
        .expect("completion answered");
    assert!(matches!(reply, UpgradeReply::HandoverFinalized { .. }));
}

#[test]
fn recovery_without_handover_recovers_nothing() {
    let mut store = store();
    let mut controller = UpgradeController::new();
    let reply = controller
        .submit_upgrade_request(&mut store, UpgradeOperation::RecoverFromFailure(component()), NOW)
        .expect("recovery answered");
    assert_eq!(
        reply,
        UpgradeReply::RecoveryCompleted { component: component(), recovered: false }
    );
    assert!(controller.is_active());
}

#[test]
fn persona_spirit_upgrade_mirror_rejects_wrong_target_version() {
    let mut store = store();
    let mut controller = UpgradeController::new();
    finalize(&mut controller, &mut store);

    let rejected = controller
        .submit_upgrade_request(
            &mut store,
            UpgradeOperation::Mirror(MirrorPayload {
                component: component(),
                kind: "StampedEntry".to_string(),
                target_version: ContractVersion::new([9; 32]),
                entry: Some(stamped("wrong version")),
            }),
            NOW,
        )
        .expect("mirror answered");
    assert_eq!(
        rejected,
        UpgradeReply::HandoverRejected {
            component: component(),
            reason: HandoverRejectionReason::SchemaMismatch,
        }
    );
    assert_eq!(store.commit_sequence(), 0);
    assert_eq!(store.last_record_identifier(), None);

    let acknowledged = controller
        .submit_upgrade_request(
            &mut store,
            UpgradeOperation::Mirror(MirrorPayload {
                component: component(),
                kind: "StampedEntry".to_string(),
                target_version: spirit_contract_version(),
                entry: Some(stamped("mirrored")),
            }),
            NOW,
        )
        .expect("mirror answered");
    assert_eq!(
        acknowledged,
        UpgradeReply::MirrorAcknowledged { component: component(), write_counter: 1 }
    );
    assert_eq!(store.commit_sequence(), 1);
    assert_eq!(store.last_record_identifier(), Some(1));
}

#[test]
fn mirror_before_finalization_is_not_ready() {
    let mut store = store();
    let mut controller = UpgradeController::new();
    let reply = controller
        .submit_upgrade_request(
            &mut store,
            UpgradeOperation::Mirror(MirrorPayload {
                component: component(),
                kind: "StampedEntry".to_string(),
                target_version: spirit_contract_version(),
                entry: Some(stamped("too early")),
            }),
            NOW,
        )
        .expect("mirror answered");
    assert_eq!(
        reply,
        UpgradeReply::HandoverRejected { component: component(), reason: HandoverRejectionReason::NotReady }
    );
}
