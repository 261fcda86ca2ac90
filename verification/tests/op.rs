use spatialos_sdk::worker::EntityId;
use spatialos_sdk::worker::op::{
    QueryResponse, ReservedEntityIdRange, StatusCode, WorkerOpType, WORKER_STATUS_CODE_SUCCESS,
};

#[test]
fn reserved_entity_id_range_iterator_contains_correct_count() {
    let range = ReservedEntityIdRange::new(10, 54);
    assert_eq!(54, range.count());
}

#[test]
fn reserved_entity_id_range_iterator_returns_sequential_ids() {
    let mut current_id: i64 = 1;
    let range = ReservedEntityIdRange::new(current_id, 10);

    for entity_id in range.collect_ids() {
        assert_eq!(current_id, entity_id.id);
        current_id += 1;
    }
}

#[test]
fn reserved_entity_id_range_next_until_exhausted() {
    let mut range = ReservedEntityIdRange::new(-2, 3);
    assert_eq!(range.next().map(|e| e.id), Some(-2));
    assert_eq!(range.next().map(|e| e.id), Some(-1));
    assert_eq!(range.next().map(|e| e.id), Some(0));
    assert!(range.next().is_none());
    assert!(range.next().is_none());
    assert_eq!(range.count(), 0);
}

#[test]
fn reserved_entity_id_range_empty() {
    let range = ReservedEntityIdRange::new(100, 0);
    assert!(range.collect_ids().is_empty());
}

#[test]
fn status_code_decoding() {
    match StatusCode::from_code(WORKER_STATUS_CODE_SUCCESS, 5u32, String::from("ignored")) {
        StatusCode::Success(v) => assert_eq!(v, 5),
        _ => panic!("expected success"),
    }
    let cases: [(u8, &str); 6] = [
        (2, "Timeout"),
        (3, "NotFound"),
        (4, "AuthorityLost"),
        (5, "PermissionDenied"),
        (6, "ApplicationError"),
        (7, "InternalError"),
    ];
    for (code, name) in cases.iter() {
        let status = StatusCode::from_code(*code, 0u32, String::from("msg"));
        let (got, msg) = match status {
            StatusCode::Success(_) => ("Success", String::new()),
            StatusCode::Timeout(m) => ("Timeout", m),
            StatusCode::NotFound(m) => ("NotFound", m),
            StatusCode::AuthorityLost(m) => ("AuthorityLost", m),
            StatusCode::PermissionDenied(m) => ("PermissionDenied", m),
            StatusCode::ApplicationError(m) => ("ApplicationError", m),
            StatusCode::InternalError(m) => ("InternalError", m),
        };
        assert_eq!(got, *name);
        assert_eq!(msg, "msg");
        assert!(!StatusCode::from_code(*code, 0u32, String::new()).is_success());
    }
}

#[test]
fn op_type_decoding() {
    assert_eq!(WorkerOpType::from_code(1), WorkerOpType::Disconnect);
    assert_eq!(WorkerOpType::from_code(6), WorkerOpType::AddEntity);
    assert_eq!(WorkerOpType::from_code(11), WorkerOpType::EntityQueryResponse);
    assert_eq!(WorkerOpType::from_code(14), WorkerOpType::AuthorityChange);
    assert_eq!(WorkerOpType::from_code(17), WorkerOpType::CommandResponse);
}

#[test]
fn query_response_count() {
    let r: QueryResponse<u8> = QueryResponse::Result(3);
    match r {
        QueryResponse::Result(n) => assert_eq!(n, 3),
        QueryResponse::Snapshot(_) => panic!("expected a count"),
    }
}

#[test]
fn query_response_from_results() {
    let counted: QueryResponse<u8> = QueryResponse::from_results(7, None);
    match counted {
        QueryResponse::Result(n) => assert_eq!(n, 7),
        QueryResponse::Snapshot(_) => panic!("expected a count"),
    }

    let results = vec![
        (EntityId::new(1), vec![(10u32, 5u8)]),
        (EntityId::new(2), vec![(10u32, 6u8), (11u32, 7u8)]),
        (EntityId::new(1), vec![(12u32, 8u8)]),
    ];
    match QueryResponse::from_results(3, Some(results)) {
        QueryResponse::Snapshot(map) => {
            assert_eq!(map.len(), 2);
            let first = map.get(&1).unwrap();
            assert_eq!(first.len(), 1);
            assert!(!first.has(10));
            assert_eq!(first.get(12), Some(&8u8));
            let second = map.get(&2).unwrap();
            assert_eq!(second.len(), 2);
            assert_eq!(second.get(10), Some(&6u8));
            assert_eq!(second.get(11), Some(&7u8));
        }
        QueryResponse::Result(_) => panic!("expected a snapshot"),
    }
}

#[test]
fn reserved_entity_id_range_hands_out_in_order_then_none() {
    let mut range = ReservedEntityIdRange::new(100, 4);
    for k in 0..10i64 {
        let expected = if k < 4 { Some(100 + k) } else { None };
        assert_eq!(range.next().map(|e| e.id), expected);
    }
}
