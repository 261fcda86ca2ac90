use spatialos_sdk::ptr::MutPtr;
use spatialos_sdk::worker::commands::{
    CommandParameters, CreateEntityRequest, DeleteEntityRequest, ReserveEntityIdsRequest,
};
use spatialos_sdk::worker::entity::Entity;
use spatialos_sdk::worker::component::UpdateParameters;
use spatialos_sdk::worker::connection::{connection_status_from_code, ConnectionStatusError};
use spatialos_sdk::worker::constants::{LOCATOR_HOSTNAME, LOCATOR_PORT, RECEPTIONIST_PORT};
use spatialos_sdk::worker::logging::{
    LogCategory, LogFilterParameters, LogLevel, LogsinkType, RotatingLogFileParameters,
};
use spatialos_sdk::worker::metrics::MetricsError;
use spatialos_sdk::worker::snapshot::SnapshotError;
use spatialos_sdk::worker::utils::decimal_string;
use spatialos_sdk::worker::worker_future::{poll_step, FuturePhase, PollAction};
use spatialos_sdk::worker::{Authority, ConnectionStatusCode, EntityId, InterestOverride, RequestId};

#[test]
fn entity_id_validity() {
    assert!(EntityId::new(1).is_valid());
    assert!(EntityId::new(i64::MAX).is_valid());
    assert!(!EntityId::new(0).is_valid());
    assert!(!EntityId::new(-5).is_valid());
    assert_eq!(EntityId::new(42).id, 42);
}

#[test]
fn entity_and_request_id_text() {
    assert_eq!(EntityId::new(42).to_string(), "Entity ID 42");
    assert_eq!(EntityId::new(-7).to_string(), "Entity ID -7");
    assert_eq!(EntityId::new(i64::MIN).to_string(), "Entity ID -9223372036854775808");
    assert_eq!(RequestId::new(0).to_string(), "Request ID 0");
    assert_eq!(RequestId::new(1234567890123).to_string(), "Request ID 1234567890123");
}

#[test]
fn decimal_rendering() {
    assert_eq!(decimal_string(0), "0");
    assert_eq!(decimal_string(9), "9");
    assert_eq!(decimal_string(10), "10");
    assert_eq!(decimal_string(1205), "1205");
    assert_eq!(decimal_string(u64::MAX), "18446744073709551615");
}

#[test]
fn authority_decoding_and_has_authority() {
    assert_eq!(Authority::from(0), Authority::NotAuthoritative);
    assert_eq!(Authority::from(1), Authority::Authoritative);
    assert_eq!(Authority::from(2), Authority::AuthorityLossImminent);
    assert!(Authority::Authoritative.has_authority());
    assert!(Authority::AuthorityLossImminent.has_authority());
    assert!(!Authority::NotAuthoritative.has_authority());
}

#[test]
fn interest_override_fields() {
    let o = InterestOverride::new(54, true);
    assert_eq!(o.component_id, 54);
    assert!(o.is_interested);
}

#[test]
fn connection_status_decoding() {
    assert!(connection_status_from_code(1, String::from("fine")).is_ok());
    let expected = [
        (2, "Internal error: d"),
        (3, "Invalid argument: d"),
        (4, "Network error: d"),
        (5, "Timeout: d"),
        (6, "Cancelled: d"),
        (7, "Rejected: d"),
        (8, "Player identity token expired: d"),
        (9, "Login token expired: d"),
        (10, "Capacity exceeded: d"),
        (11, "Rate exceeded: d"),
        (12, "Server shutdown: d"),
    ];
    for (code, text) in expected.iter() {
        match connection_status_from_code(*code, String::from("d")) {
            Ok(()) => panic!("code {} is no success", code),
            Err(e) => assert_eq!(e.to_string(), *text),
        }
    }
    match connection_status_from_code(5, String::from("slow")) {
        Err(ConnectionStatusError::Timeout(d)) => assert_eq!(d, "slow"),
        _ => panic!("expected a timeout"),
    }
    assert_ne!(ConnectionStatusCode::Success, ConnectionStatusCode::Timeout);
}

#[test]
fn constants_values() {
    assert_eq!(LOCATOR_HOSTNAME, "locator.improbable.io");
    assert_eq!(LOCATOR_PORT, 444);
    assert_eq!(RECEPTIONIST_PORT, 7777);
}

#[test]
fn log_level_decoding() {
    assert_eq!(LogLevel::from(1), LogLevel::Debug);
    assert_eq!(LogLevel::from(2), LogLevel::Info);
    assert_eq!(LogLevel::from(3), LogLevel::Warn);
    assert_eq!(LogLevel::from(4), LogLevel::Error);
    assert_eq!(LogLevel::from(5), LogLevel::Fatal);
    assert_eq!(LogLevel::from(0), LogLevel::Error);
    assert_eq!(LogLevel::from(200), LogLevel::Error);
    for code in 1..=5u8 {
        assert_eq!(LogLevel::from(code).code(), code);
    }
}

#[test]
fn log_categories() {
    assert_eq!(LogCategory::all().bits(), 0x7f);
    assert_eq!(LogCategory::receive().bits(), 0x01);
    assert_eq!(LogCategory::parameters().bits(), 0x40);
    let both = LogCategory::send().union(LogCategory::login());
    assert_eq!(both.bits(), 0x12);
    assert!(both.contains(LogCategory::send()));
    assert!(!both.contains(LogCategory::api()));
    assert!(LogCategory::all().contains(both));
    assert_eq!(LogCategory::from_bits_unchecked(0x100).bits(), 0x100);
    assert!(LogCategory::network_status().union(LogCategory::network_traffic()).contains(
        LogCategory::from_bits_unchecked(0x0c)
    ));
}

#[test]
fn logsink_parameters() {
    assert_eq!(LogsinkType::RotatingFile.worker_sdk_type(), 1);
    assert_eq!(LogsinkType::StderrAnsi.worker_sdk_type(), 6);
    let filter = LogFilterParameters::default();
    assert_eq!(filter.level, LogLevel::Error);
    assert_eq!(filter.categories.bits(), 0x7f);
    let mut file = RotatingLogFileParameters::default();
    assert_eq!(file.log_prefix, "");
    file.set_prefix(String::from("worker-"));
    file.set_max_log_files(10);
    file.set_max_log_file_size(4096);
    assert_eq!(file.log_prefix, "worker-");
    assert_eq!(file.max_log_files, 10);
    assert_eq!(file.max_log_file_size_bytes, 4096);
}

#[test]
fn command_and_update_parameters() {
    let mut params = CommandParameters::new();
    assert!(!params.short_circuit_allowed());
    params.allow_short_circuit();
    assert!(params.short_circuit_allowed());
    assert_ne!(params, CommandParameters::new());

    let mut update = UpdateParameters::new();
    assert!(!update.loopback());
    update.allow_loopback();
    assert!(update.loopback());
}

#[test]
fn mut_ptr_address() {
    let mut p: MutPtr<u8> = MutPtr::new(0x1000);
    assert!(!p.is_null());
    assert_eq!(p.get(), 0x1000);
    let null: MutPtr<u8> = MutPtr::new(0);
    assert!(null.is_null());
    assert!(null < p);
    assert!(p == MutPtr::new(0x1000));
    assert!(p != null);
}

#[test]
fn metrics_error_kind() {
    assert_eq!(MetricsError::KeyAlreadyExists, MetricsError::KeyAlreadyExists);
}

#[test]
fn snapshot_error_from_state() {
    match SnapshotError::from_state(1, String::from("bad")) {
        SnapshotError::BadState(m) => assert_eq!(m, "bad"),
        _ => panic!("expected a bad state"),
    }
    match SnapshotError::from_state(2, String::from("garbled")) {
        SnapshotError::InvalidData(m) => assert_eq!(m, "garbled"),
        _ => panic!("expected invalid data"),
    }
    assert!(matches!(SnapshotError::from_state(3, String::new()), SnapshotError::EOF));
    assert!(matches!(SnapshotError::from_state(0, String::from("x")), SnapshotError::BadState(_)));
}

#[test]
fn worker_future_polls() {
    let (phase, action) = poll_step::<u32>(FuturePhase::NotStarted, None);
    assert_eq!(phase, FuturePhase::InProgress);
    assert!(matches!(action, PollAction::Start));
    let (phase, action) = poll_step::<u32>(FuturePhase::InProgress, None);
    assert_eq!(phase, FuturePhase::InProgress);
    assert!(matches!(action, PollAction::Pending));
    let (phase, action) = poll_step(FuturePhase::InProgress, Some(9u32));
    assert_eq!(phase, FuturePhase::Completed);
    assert!(matches!(action, PollAction::Ready(9)));
}

#[test]
fn world_command_requests_carry_their_arguments() {
    let reserve = ReserveEntityIdsRequest(5);
    assert_eq!(reserve.0, 5);
    let delete = DeleteEntityRequest(EntityId::new(9));
    assert_eq!(delete.0, EntityId::new(9));
    let create: CreateEntityRequest<u8> = CreateEntityRequest(Entity::new(), Some(EntityId::new(3)));
    assert_eq!(create.0.len(), 0);
    assert_eq!(create.1, Some(EntityId::new(3)));
}

#[test]
fn parameter_defaults_match_new() {
    assert_eq!(CommandParameters::default(), CommandParameters::new());
    assert!(!CommandParameters::default().short_circuit_allowed());
    assert!(!UpdateParameters::default().loopback());
    let entity: Entity<u8> = Entity::default();
    assert_eq!(entity.len(), 0);
}

#[test]
fn ids_are_ordered_by_number() {
    assert!(EntityId::new(-3) < EntityId::new(2));
    assert!(EntityId::new(7) > EntityId::new(2));
    assert_eq!(EntityId::new(4).cmp(&EntityId::new(4)), std::cmp::Ordering::Equal);
    assert_eq!(
        EntityId::new(1).partial_cmp(&EntityId::new(9)),
        Some(std::cmp::Ordering::Less)
    );
    assert!(RequestId::new(10) > RequestId::new(-10));
    assert_eq!(RequestId::new(5).cmp(&RequestId::new(6)), std::cmp::Ordering::Less);
}
