use copper::schema_index::{assign_leaf_ids, find_component, first_selected, hovered_component};

#[test]
fn leaf_ids_follow_load_order() {
    let (components, wires) = assign_leaf_ids(3, 2);
    assert_eq!(components, vec![0, 1, 2]);
    assert_eq!(wires, vec![3, 4]);
}

#[test]
fn leaf_ids_of_empty_schema() {
    let (components, wires) = assign_leaf_ids(0, 0);
    assert!(components.is_empty());
    assert!(wires.is_empty());
    let (components, wires) = assign_leaf_ids(0, 2);
    assert!(components.is_empty());
    assert_eq!(wires, vec![0, 1]);
}

#[test]
fn hovered_is_first_hit() {
    assert_eq!(hovered_component(&vec![2, 0, 1], 3), Some(2));
    assert_eq!(hovered_component(&vec![], 3), None);
}

#[test]
fn hovered_component_leaf_maps_to_its_drawable() {
    let (components, _wires) = assign_leaf_ids(4, 3);
    assert_eq!(hovered_component(&vec![components[3]], 4), Some(3));
}

#[test]
fn find_component_by_reference() {
    let refs = vec!["R1".to_string(), "C2".to_string(), "R1".to_string()];
    assert_eq!(find_component(&refs, &"R1".to_string()), Some(0));
    assert_eq!(find_component(&refs, &"C2".to_string()), Some(1));
    assert_eq!(find_component(&refs, &"U3".to_string()), None);
    assert_eq!(find_component(&vec![], &"R1".to_string()), None);
}

#[test]
fn first_selected_component() {
    assert_eq!(first_selected(&vec![false, true, true]), Some(1));
    assert_eq!(first_selected(&vec![false, false]), None);
    assert_eq!(first_selected(&vec![]), None);
}
