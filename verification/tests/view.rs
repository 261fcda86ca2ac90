use spatialos_sdk::worker::component::Component;
use spatialos_sdk::worker::op::{
    AddComponentOp, AddEntityOp, AuthorityChangeOp, CommandRequestOp, CommandResponseOp,
    ComponentUpdateOp, CriticalSectionOp, RemoveComponentOp, RemoveEntityOp, StatusCode, WorkerOp,
};
use spatialos_sdk::worker::view::{View, ViewModel, ViewQuery};
use spatialos_sdk::worker::{Authority, EntityId, RequestId};

#[derive(Debug, Clone, PartialEq)]
struct Health {
    value: i32,
}

impl Component for Health {
    type Update = i32;
    type CommandRequest = String;
    type CommandResponse = u32;

    fn merged(self, update: i32) -> Self {
        Health { value: self.value + update }
    }

    fn merge_update(&mut self, update: i32) {
        self.value += update;
    }
}

const HEALTH: u32 = 1000;
const MANA: u32 = 1001;

fn e(id: i64) -> EntityId {
    EntityId::new(id)
}

fn new_view() -> View<Health> {
    View::new(&vec![HEALTH, MANA])
}

#[test]
fn view_tracks_entities() {
    let mut view = new_view();
    assert!(!view.has_entity(e(1)));
    view.process_ops(vec![
        WorkerOp::AddEntity(AddEntityOp { entity_id: e(1) }),
        WorkerOp::AddEntity(AddEntityOp { entity_id: e(2) }),
        WorkerOp::CriticalSection(CriticalSectionOp { in_critical_section: true }),
        WorkerOp::RemoveEntity(RemoveEntityOp { entity_id: e(2) }),
    ]);
    assert!(view.has_entity(e(1)));
    assert!(!view.has_entity(e(2)));
    assert!(view.was_entity_added(e(1)));
    assert!(view.was_entity_added(e(2)));
    assert!(view.was_entity_removed(e(2)));
    let ids: Vec<i64> = view.iter_entities().iter().map(|x| x.id).collect();
    assert_eq!(ids, vec![1]);
    let removed: Vec<i64> = view.iter_entities_removed().iter().map(|x| x.id).collect();
    assert_eq!(removed, vec![2]);

    view.clear_transient_data();
    assert!(view.has_entity(e(1)));
    assert!(!view.was_entity_added(e(1)));
    assert!(!view.was_entity_removed(e(2)));
    assert!(view.iter_entities_removed().is_empty());
}

#[test]
fn view_component_data_and_updates() {
    let mut view = new_view();
    view.process_op(WorkerOp::AddEntity(AddEntityOp { entity_id: e(5) }));
    view.process_op(WorkerOp::AddComponent(AddComponentOp {
        entity_id: e(5),
        component_id: HEALTH,
        data: Health { value: 10 },
    }));
    assert_eq!(view.get_component(HEALTH, e(5)), Some(&Health { value: 10 }));
    assert_eq!(view.get_component(MANA, e(5)), None);
    assert!(!view.was_component_updated(HEALTH, e(5)));

    view.process_op(WorkerOp::ComponentUpdate(ComponentUpdateOp {
        entity_id: e(5),
        component_id: HEALTH,
        update: -3,
    }));
    assert_eq!(view.get_component(HEALTH, e(5)), Some(&Health { value: 7 }));
    assert!(view.was_component_updated(HEALTH, e(5)));
    assert!(!view.was_component_updated(MANA, e(5)));

    view.clear_transient_data();
    assert!(!view.was_component_updated(HEALTH, e(5)));
    assert_eq!(view.get_component(HEALTH, e(5)), Some(&Health { value: 7 }));

    view.process_op(WorkerOp::RemoveComponent(RemoveComponentOp {
        entity_id: e(5),
        component_id: HEALTH,
    }));
    assert_eq!(view.get_component(HEALTH, e(5)), None);
}

#[test]
fn view_authority() {
    let mut view = new_view();
    assert_eq!(view.get_authority(HEALTH, e(3)), None);
    assert!(!view.is_authoritative(HEALTH, e(3)));
    view.process_ops(vec![
        WorkerOp::AddComponent(AddComponentOp {
            entity_id: e(3),
            component_id: HEALTH,
            data: Health { value: 1 },
        }),
        WorkerOp::AuthorityChange(AuthorityChangeOp {
            entity_id: e(3),
            component_id: HEALTH,
            authority: Authority::Authoritative,
        }),
    ]);
    assert_eq!(view.get_authority(HEALTH, e(3)), Some(Authority::Authoritative));
    assert!(view.is_authoritative(HEALTH, e(3)));

    view.process_op(WorkerOp::AuthorityChange(AuthorityChangeOp {
        entity_id: e(3),
        component_id: HEALTH,
        authority: Authority::AuthorityLossImminent,
    }));
    assert!(!view.is_authoritative(HEALTH, e(3)));
    assert_eq!(view.get_authority(HEALTH, e(3)), Some(Authority::AuthorityLossImminent));

    // Removing the component forgets the authority too.
    view.process_op(WorkerOp::RemoveComponent(RemoveComponentOp {
        entity_id: e(3),
        component_id: HEALTH,
    }));
    assert_eq!(view.get_authority(HEALTH, e(3)), None);
}

#[test]
fn view_command_requests_and_responses() {
    let mut view = new_view();
    assert!(!view.has_command_requests(HEALTH, e(9)));
    view.process_ops(vec![
        WorkerOp::CommandRequest(CommandRequestOp {
            request_id: RequestId::new(1),
            entity_id: e(9),
            timeout_millis: 100,
            caller_worker_id: String::from("w"),
            caller_attribute_set: vec![],
            component_id: HEALTH,
            request: String::from("heal"),
        }),
        WorkerOp::CommandRequest(CommandRequestOp {
            request_id: RequestId::new(2),
            entity_id: e(9),
            timeout_millis: 100,
            caller_worker_id: String::from("w"),
            caller_attribute_set: vec![],
            component_id: HEALTH,
            request: String::from("hurt"),
        }),
        WorkerOp::CommandResponse(CommandResponseOp {
            request_id: RequestId::new(7),
            entity_id: e(9),
            component_id: MANA,
            response: StatusCode::Success(40),
        }),
        WorkerOp::CommandResponse(CommandResponseOp {
            request_id: RequestId::new(8),
            entity_id: e(9),
            component_id: MANA,
            response: StatusCode::Timeout(String::from("late")),
        }),
    ]);
    assert!(view.has_command_requests(HEALTH, e(9)));
    let requests = view.get_command_requests(HEALTH, e(9)).unwrap();
    assert_eq!(requests.len(), 2);
    assert_eq!(requests[0].0, RequestId::new(1));
    assert_eq!(requests[0].1, "heal");
    assert_eq!(requests[1].1, "hurt");
    assert!(view.get_command_requests(MANA, e(9)).is_none());

    assert!(view.has_command_responses(MANA, e(9)));
    assert_eq!(view.get_command_responses(MANA, e(9)).unwrap().len(), 2);
    assert!(matches!(
        view.get_command_response(MANA, e(9), RequestId::new(7)),
        Some(StatusCode::Success(40))
    ));
    assert!(matches!(
        view.get_command_response(MANA, e(9), RequestId::new(8)),
        Some(StatusCode::Timeout(_))
    ));
    assert!(view.get_command_response(MANA, e(9), RequestId::new(9)).is_none());

    view.clear_transient_data();
    assert!(!view.has_command_requests(HEALTH, e(9)));
    assert!(!view.has_command_responses(MANA, e(9)));
}

#[test]
fn view_ops_are_local_and_clearing_twice_is_clearing_once() {
    let mut view = new_view();
    view.process_ops(vec![
        WorkerOp::AddComponent(AddComponentOp {
            entity_id: e(5),
            component_id: HEALTH,
            data: Health { value: 1 },
        }),
        WorkerOp::AddComponent(AddComponentOp {
            entity_id: e(6),
            component_id: HEALTH,
            data: Health { value: 2 },
        }),
        WorkerOp::AuthorityChange(AuthorityChangeOp {
            entity_id: e(6),
            component_id: MANA,
            authority: Authority::NotAuthoritative,
        }),
        WorkerOp::ComponentUpdate(ComponentUpdateOp {
            entity_id: e(5),
            component_id: HEALTH,
            update: 10,
        }),
        WorkerOp::RemoveComponent(RemoveComponentOp { entity_id: e(5), component_id: HEALTH }),
    ]);
    assert_eq!(view.get_component(HEALTH, e(6)), Some(&Health { value: 2 }));
    assert_eq!(view.get_authority(MANA, e(6)), Some(Authority::NotAuthoritative));
    assert_eq!(view.get_component(HEALTH, e(5)), None);
    assert!(view.was_component_updated(HEALTH, e(5)));
    assert!(!view.was_component_updated(HEALTH, e(6)));
    view.clear_transient_data();
    view.clear_transient_data();
    assert_eq!(view.get_component(HEALTH, e(6)), Some(&Health { value: 2 }));
    assert!(!view.was_component_updated(HEALTH, e(5)));
}

struct Healthy<'a> {
    id: i64,
    health: &'a Health,
}

impl<'a> ViewQuery<'a, Health> for Healthy<'a> {
    fn takes(_model: ViewModel<Health>, _entity_id: EntityId) -> bool {
        // Stands only in the verifier's reasoning; running code calls `filter`.
        unreachable!()
    }

    fn made(view: &'a View<Health>, entity_id: EntityId) -> Self {
        Self::select(view, entity_id)
    }

    fn filter(view: &View<Health>, entity_id: EntityId) -> bool {
        view.get_component(HEALTH, entity_id).map_or(false, |h| h.value > 0)
    }

    fn select(view: &'a View<Health>, entity_id: EntityId) -> Self {
        Healthy { id: entity_id.id, health: view.get_component(HEALTH, entity_id).unwrap() }
    }
}

#[test]
fn query_selects_matching_entities() {
    let mut view = new_view();
    let mut ops = Vec::new();
    for (id, value) in [(1i64, 5i32), (2, 0), (3, 7)].iter() {
        ops.push(WorkerOp::AddEntity(AddEntityOp { entity_id: e(*id) }));
        ops.push(WorkerOp::AddComponent(AddComponentOp {
            entity_id: e(*id),
            component_id: HEALTH,
            data: Health { value: *value },
        }));
    }
    ops.push(WorkerOp::AddEntity(AddEntityOp { entity_id: e(4) }));
    view.process_ops(ops);

    let mut found: Vec<(i64, i32)> =
        view.query::<Healthy>().iter().map(|h| (h.id, h.health.value)).collect();
    found.sort();
    assert_eq!(found, vec![(1, 5), (3, 7)]);
}
