use bi_turbo::world::{Component, World};

#[derive(Clone, Debug, PartialEq)]
enum TestComponent {
    Position(i32, i32),
    Health(i32),
}

impl Component for TestComponent {
    fn kind(&self) -> u64 {
        match self {
            TestComponent::Position(_, _) => 1,
            TestComponent::Health(_) => 2,
        }
    }

    fn encode(&self) -> Vec<u8> {
        match self {
            TestComponent::Position(x, y) => {
                let mut b = vec![1u8];
                b.extend_from_slice(&x.to_le_bytes());
                b.extend_from_slice(&y.to_le_bytes());
                b
            }
            TestComponent::Health(h) => {
                let mut b = vec![2u8];
                b.extend_from_slice(&h.to_le_bytes());
                b
            }
        }
    }
}

const POSITION: u64 = 1;
const HEALTH: u64 = 2;

#[test]
fn entity_ids_count_up_from_one() {
    let mut w: World<TestComponent> = World::new();
    assert_eq!(w.add_entity(), 1);
    assert_eq!(w.add_entity(), 2);
    assert_eq!(w.add_entity(), 3);
}

#[test]
fn add_component_once_per_kind() {
    let mut w: World<TestComponent> = World::new();
    let e = w.add_entity();
    w.add_component(e, POSITION, TestComponent::Position(3, 4));
    // A second component of the same kind is not added.
    w.add_component(e, POSITION, TestComponent::Position(7, 8));
    assert_eq!(
        w.get_component(e, POSITION),
        Some(&TestComponent::Position(3, 4))
    );
    // A different kind coexists on the same entity.
    w.add_component(e, HEALTH, TestComponent::Health(10));
    assert!(w.has_component(e, POSITION));
    assert!(w.has_component(e, HEALTH));
    // An unknown entity is left alone.
    w.add_component(99, HEALTH, TestComponent::Health(1));
    assert!(!w.has_component(99, HEALTH));
}

#[test]
fn remove_component_detaches_one_kind() {
    let mut w: World<TestComponent> = World::new();
    let e = w.add_entity();
    w.add_component(e, POSITION, TestComponent::Position(1, 2));
    w.add_component(e, HEALTH, TestComponent::Health(5));
    w.remove_component(e, POSITION);
    assert!(!w.has_component(e, POSITION));
    assert!(w.has_component(e, HEALTH));
    // Removing an absent kind changes nothing.
    w.remove_component(e, POSITION);
    assert!(w.has_component(e, HEALTH));
}

#[test]
fn remove_entity_drops_its_components() {
    let mut w: World<TestComponent> = World::new();
    let a = w.add_entity();
    let b = w.add_entity();
    w.add_component(a, HEALTH, TestComponent::Health(1));
    w.add_component(b, HEALTH, TestComponent::Health(2));
    w.remove_entity(a);
    assert!(!w.has_component(a, HEALTH));
    assert_eq!(w.get_component(b, HEALTH), Some(&TestComponent::Health(2)));
}

#[test]
fn get_mut_component_replaces_in_place() {
    let mut w: World<TestComponent> = World::new();
    let e = w.add_entity();
    w.add_component(e, HEALTH, TestComponent::Health(5));
    let previous = w.get_mut_component(e, HEALTH, TestComponent::Health(9));
    assert_eq!(previous, Some(TestComponent::Health(5)));
    assert_eq!(w.get_component(e, HEALTH), Some(&TestComponent::Health(9)));
    // Without a component of the kind, nothing is stored.
    let previous = w.get_mut_component(e, POSITION, TestComponent::Position(0, 0));
    assert_eq!(previous, None);
    assert!(!w.has_component(e, POSITION));
}

#[test]
fn queries_follow_registry_order() {
    let mut w: World<TestComponent> = World::new();
    let a = w.add_entity();
    let b = w.add_entity();
    let c = w.add_entity();
    w.add_component(a, HEALTH, TestComponent::Health(1));
    w.add_component(c, HEALTH, TestComponent::Health(3));
    w.add_component(b, POSITION, TestComponent::Position(0, 0));
    let all = w.get_all_components_of_type(HEALTH).unwrap();
    assert_eq!(
        all,
        vec![&TestComponent::Health(1), &TestComponent::Health(3)]
    );
    let entities = w.get_all_entities_with_component(HEALTH).unwrap();
    assert_eq!(entities, vec![a, c]);
    assert_eq!(
        w.get_all_entities_with_component(POSITION).unwrap(),
        vec![b]
    );
    assert_eq!(w.get_all_entities_with_component(99).unwrap(), Vec::<u32>::new());
}

#[test]
fn serialize_component_encodes_the_stored_value() {
    let mut w: World<TestComponent> = World::new();
    let e = w.add_entity();
    w.add_component(e, HEALTH, TestComponent::Health(258));
    let bytes = w.serialize_component(e, HEALTH).unwrap();
    assert_eq!(bytes, TestComponent::Health(258).encode());
    assert_eq!(bytes, vec![2u8, 2, 1, 0, 0]);
    assert_eq!(w.serialize_component(e, POSITION), None);
    assert_eq!(w.serialize_component(42, HEALTH), None);
}
