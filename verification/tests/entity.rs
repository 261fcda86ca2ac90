use spatialos_sdk::worker::entity::Entity;
use spatialos_sdk::worker::entity_builder::{
    EntityBuilder, EntityComponent, ENTITY_ACL_COMPONENT_ID, METADATA_COMPONENT_ID,
    PERSISTENCE_COMPONENT_ID, POSITION_COMPONENT_ID,
};

#[test]
fn entity_add_and_get() {
    let mut entity: Entity<&str> = Entity::new();
    assert_eq!(entity.len(), 0);
    assert!(entity.add(1000, "health").is_ok());
    assert!(entity.add(1001, "mana").is_ok());
    assert_eq!(entity.get(1000), Some(&"health"));
    assert_eq!(entity.get(1002), None);
    assert!(entity.has(1001));
    assert_eq!(entity.len(), 2);
}

#[test]
fn entity_rejects_duplicate_component() {
    let mut entity: Entity<u32> = Entity::new();
    entity.add(7, 1).unwrap();
    let err = entity.add(7, 2).unwrap_err();
    assert_eq!(err, "Duplicate component with ID 7 added to `Entity`.");
    assert_eq!(entity.get(7), Some(&1));
    assert_eq!(entity.len(), 1);
}

#[test]
fn entity_from_components() {
    let entity = Entity::from_components(vec![(1, 'a'), (2, 'b'), (3, 'c')]).unwrap();
    assert_eq!(entity.len(), 3);
    assert_eq!(entity.get(2), Some(&'b'));
    let err = Entity::from_components(vec![(1, 'a'), (2, 'b'), (1, 'c'), (2, 'd')]).unwrap_err();
    assert_eq!(err, "Duplicate component with ID 1 added to `Entity`.");
    assert_eq!(Entity::<u8>::from_components(Vec::new()).unwrap().len(), 0);
}

#[test]
fn entity_builder_builds_well_known_components() {
    let mut builder: EntityBuilder<&str> =
        EntityBuilder::new(1.5f64.to_bits(), 0.0f64.to_bits(), (-2.0f64).to_bits(), String::from("server"));
    builder.add_component(1000, "health", String::from("server"));
    builder.set_metadata(String::from("Player"), String::from("server"));
    builder.set_persistent(String::from("server"));
    builder.add_read_access(String::from("client"));
    builder.set_entity_acl_write_access(String::from("admin"));
    let entity = builder.build().unwrap();
    assert_eq!(entity.len(), 5);
    assert!(matches!(entity.get(1000), Some(EntityComponent::Data("health"))));
    match entity.get(POSITION_COMPONENT_ID) {
        Some(EntityComponent::Position { x, y, z }) => {
            assert_eq!(f64::from_bits(*x), 1.5);
            assert_eq!(f64::from_bits(*y), 0.0);
            assert_eq!(f64::from_bits(*z), -2.0);
        }
        _ => panic!("expected a position"),
    }
    match entity.get(ENTITY_ACL_COMPONENT_ID) {
        Some(EntityComponent::EntityAcl { read, write }) => {
            let mut read = read.clone();
            read.sort();
            assert_eq!(read, vec!["admin", "client", "server"]);
            assert_eq!(write.len(), 5);
            assert_eq!(write[&POSITION_COMPONENT_ID], "server");
            assert_eq!(write[&ENTITY_ACL_COMPONENT_ID], "admin");
            assert_eq!(write[&1000], "server");
            assert_eq!(write[&METADATA_COMPONENT_ID], "server");
            assert_eq!(write[&PERSISTENCE_COMPONENT_ID], "server");
        }
        _ => panic!("expected an access control list"),
    }
    match entity.get(METADATA_COMPONENT_ID) {
        Some(EntityComponent::Metadata { entity_type }) => assert_eq!(entity_type, "Player"),
        _ => panic!("expected metadata"),
    }
    assert!(matches!(entity.get(PERSISTENCE_COMPONENT_ID), Some(EntityComponent::Persistence)));
}

#[test]
fn entity_builder_minimal_entity() {
    let builder: EntityBuilder<u8> = EntityBuilder::new(0, 0, 0, String::from("layer"));
    let entity = builder.build().unwrap();
    assert_eq!(entity.len(), 2);
    assert!(entity.has(POSITION_COMPONENT_ID));
    assert!(entity.has(ENTITY_ACL_COMPONENT_ID));
    assert!(!entity.has(METADATA_COMPONENT_ID));
    assert!(!entity.has(PERSISTENCE_COMPONENT_ID));
}

#[test]
fn entity_builder_reports_duplicate_user_component() {
    let mut builder: EntityBuilder<u8> = EntityBuilder::new(0, 0, 0, String::from("layer"));
    builder.add_component(1000, 1, String::from("layer"));
    builder.add_component(1000, 2, String::from("layer"));
    let err = builder.build().unwrap_err();
    assert_eq!(err, "Duplicate component with ID 1000 added to `Entity`.");
}

#[test]
fn entity_builder_reports_taken_well_known_id() {
    let mut builder: EntityBuilder<u8> = EntityBuilder::new(0, 0, 0, String::from("layer"));
    builder.add_component(POSITION_COMPONENT_ID, 1, String::from("layer"));
    assert_eq!(builder.build().unwrap_err(), "Duplicate component with ID 54 added to `Entity`.");

    let mut builder: EntityBuilder<u8> = EntityBuilder::new(0, 0, 0, String::from("layer"));
    builder.add_component(PERSISTENCE_COMPONENT_ID, 1, String::from("layer"));
    // Persistence is only added when the entity is persistent.
    assert!(builder.build().is_ok());

    let mut builder: EntityBuilder<u8> = EntityBuilder::new(0, 0, 0, String::from("layer"));
    builder.add_component(PERSISTENCE_COMPONENT_ID, 1, String::from("layer"));
    builder.set_persistent(String::from("layer"));
    assert_eq!(builder.build().unwrap_err(), "Duplicate component with ID 55 added to `Entity`.");
}

#[test]
fn into_components_gives_back_every_component_once() {
    let entity = Entity::from_components(vec![(3u32, 'c'), (1u32, 'a'), (2u32, 'b')]).unwrap();
    let mut parts = entity.into_components();
    parts.sort();
    assert_eq!(parts, vec![(1, 'a'), (2, 'b'), (3, 'c')]);

    let empty: Entity<char> = Entity::new();
    assert!(empty.into_components().is_empty());
}
