use net_sync::synchronisation::{ComponentData, WorldState};

fn fake_component() -> (u32, Vec<ComponentData>) {
    (1, vec![ComponentData::new(0, vec![0, 1, 2, 3])])
}

#[test]
fn state_insert_remove_while_inserted_should_clear_insert() {
    let mut state = WorldState::new(0);
    let comp = fake_component();

    state.insert_entity(comp.0, comp.1);
    state.remove_entity(comp.0);

    assert!(!state.is_inserted(comp.0));
    assert!(state.is_removed(comp.0));
}

#[test]
fn synchronisation_insert_remove_while_inserted_should_clear_insert() {
    let mut state = WorldState::new(0);
    let comp = fake_component();

    state.insert_entity(comp.0, comp.1);
    state.remove_entity(comp.0);

    assert!(!state.is_inserted(comp.0));
    assert!(state.is_removed(comp.0));
}

#[test]
fn insert_then_remove_leaves_entity_only_in_removed() {
    let mut state = WorldState::new(3);
    state.insert_entity(7, vec![ComponentData::new(1, vec![9])]);
    state.insert_entity(8, vec![]);
    state.remove_entity(7);

    assert_eq!(state.inserted.len(), 1);
    assert_eq!(state.inserted[0].entity_id(), 8);
    assert_eq!(state.removed, vec![7]);
}

#[test]
fn removing_twice_records_the_entity_once() {
    let mut state = WorldState::new(0);
    state.remove_entity(4);
    state.remove_entity(4);
    assert_eq!(state.removed, vec![4]);
}

#[test]
fn change_keeps_only_the_newest_change_of_an_entity() {
    let mut state = WorldState::new(0);
    state.change(1, ComponentData::new(10, vec![1]));
    state.change(2, ComponentData::new(10, vec![2]));
    state.change(1, ComponentData::new(11, vec![3]));

    assert_eq!(state.changed.len(), 2);
    assert_eq!(state.changed[0].entity_id(), 2);
    assert_eq!(state.changed[1].entity_id(), 1);
    assert_eq!(state.changed[1].component_data().component_id(), 11);
    assert_eq!(state.changed[1].component_data().data(), &vec![3]);
}

#[test]
fn remove_component_evicts_added_components_of_the_entity() {
    let mut state = WorldState::new(0);
    state.add_component(1, ComponentData::new(5, vec![]));
    state.add_component(2, ComponentData::new(5, vec![]));
    state.remove_component(1, 5);
    state.remove_component(1, 5);

    assert_eq!(state.component_added.len(), 1);
    assert_eq!(state.component_added[0].entity_id(), 2);
    assert_eq!(state.component_removed.len(), 1);
    assert_eq!(state.component_removed[0].entity_id(), 1);
    assert_eq!(*state.component_removed[0].component_id(), 5);
}

#[test]
fn reset_keeps_the_live_changes() {
    let mut state = WorldState::new(0);
    assert!(state.is_empty());
    state.insert_entity(1, vec![]);
    state.remove_entity(2);
    state.add_component(3, ComponentData::new(1, vec![]));
    state.remove_component(4, 1);
    state.change(5, ComponentData::new(1, vec![7]));
    assert!(!state.is_empty());

    state.reset();

    assert!(state.inserted.is_empty());
    assert!(state.removed.is_empty());
    assert!(state.component_added.is_empty());
    assert!(state.component_removed.is_empty());
    assert_eq!(state.changed.len(), 1);
    assert!(!state.is_empty());
}

#[test]
fn new_world_state_has_no_offset() {
    let state = WorldState::new(12);
    assert_eq!(state.command_frame, 12);
    assert_eq!(state.command_frame_offset, 0);
    assert!(state.is_empty());
}

#[test]
fn entity_insert_keeps_its_components() {
    let mut state = WorldState::new(0);
    state.insert_entity(3, vec![ComponentData::new(2, vec![1, 2])]);
    assert_eq!(state.inserted[0].entity_id(), 3);
    assert_eq!(state.inserted[0].components().len(), 1);
    assert_eq!(state.inserted[0].components()[0].component_id(), 2);
}

#[test]
fn inserted_and_added_entries_are_sets() {
    let mut state = WorldState::new(0);
    state.insert_entity(1, vec![ComponentData::new(2, vec![5])]);
    state.insert_entity(1, vec![ComponentData::new(2, vec![5])]);
    assert_eq!(state.inserted.len(), 1);
    state.insert_entity(1, vec![ComponentData::new(2, vec![6])]);
    assert_eq!(state.inserted.len(), 2);

    state.add_component(3, ComponentData::new(4, vec![1, 2]));
    state.add_component(3, ComponentData::new(4, vec![1, 2]));
    assert_eq!(state.component_added.len(), 1);
    state.add_component(3, ComponentData::new(5, vec![1, 2]));
    assert_eq!(state.component_added.len(), 2);
}
