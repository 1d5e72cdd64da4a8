use corange_rs::error::Error;
use corange_rs::registry::{TypeId, TypeRegistry};

#[test]
fn first_registration_gets_rank_zero() {
    let mut registry = TypeRegistry::new();
    assert_eq!(registry.len(), 0);
    let camera = registry.register_or_get("camera", 36);
    assert_eq!(camera, Ok(TypeId { index: 0, payload_size: 36 }));
    assert_eq!(registry.len(), 1);
}

#[test]
fn ranks_follow_the_order_of_registration() {
    let mut registry = TypeRegistry::new();
    let camera = registry.register_or_get("camera", 36).unwrap();
    let light = registry.register_or_get("light", 120).unwrap();
    let particles = registry.register_or_get("particles", 96).unwrap();
    assert_eq!(camera.index, 0);
    assert_eq!(light.index, 1);
    assert_eq!(particles.index, 2);
    assert_eq!(light.payload_size, 120);
    assert_eq!(registry.len(), 3);
}

#[test]
fn distinct_names_get_distinct_ids() {
    let mut registry = TypeRegistry::new();
    let a = registry.register_or_get("static_object", 8264).unwrap();
    let b = registry.register_or_get("animated_object", 12400).unwrap();
    assert_ne!(a, b);
    assert_ne!(a.index, b.index);
}

#[test]
fn distinct_names_of_equal_size_get_distinct_ids() {
    let mut registry = TypeRegistry::new();
    let a = registry.register_or_get("ui_button", 64).unwrap();
    let b = registry.register_or_get("ui_text", 64).unwrap();
    assert_ne!(a, b);
}

#[test]
fn same_name_and_size_is_idempotent() {
    let mut registry = TypeRegistry::new();
    let first = registry.register_or_get("camera", 36).unwrap();
    registry.register_or_get("light", 120).unwrap();
    let second = registry.register_or_get("camera", 36).unwrap();
    assert_eq!(first, second);
    assert_eq!(registry.len(), 2);
}

#[test]
fn same_name_with_other_size_is_a_type_mismatch() {
    let mut registry = TypeRegistry::new();
    registry.register_or_get("camera", 36).unwrap();
    assert_eq!(registry.register_or_get("camera", 40), Err(Error::TypeMismatch));
    assert_eq!(registry.len(), 1);
    assert_eq!(registry.register_or_get("camera", 36), Ok(TypeId { index: 0, payload_size: 36 }));
}

#[test]
fn find_does_not_register() {
    let mut registry = TypeRegistry::new();
    assert_eq!(registry.find("camera"), None);
    assert_eq!(registry.len(), 0);
    let camera = registry.register_or_get("camera", 36).unwrap();
    assert_eq!(registry.find("camera"), Some(camera));
    assert_eq!(registry.find("Camera"), None);
    assert_eq!(registry.find(""), None);
}

#[test]
fn the_empty_name_is_a_name() {
    let mut registry = TypeRegistry::new();
    let anonymous = registry.register_or_get("", 0).unwrap();
    assert_eq!(anonymous, TypeId { index: 0, payload_size: 0 });
    assert_eq!(registry.find(""), Some(anonymous));
}

#[test]
fn contains_knows_its_own_ids_only() {
    let mut registry = TypeRegistry::new();
    let camera = registry.register_or_get("camera", 36).unwrap();
    assert!(registry.contains(camera));
    assert!(!registry.contains(TypeId { index: 0, payload_size: 37 }));
    assert!(!registry.contains(TypeId { index: 1, payload_size: 36 }));
}

#[test]
fn an_id_tells_the_name_of_its_kind() {
    let mut registry = TypeRegistry::new();
    let camera = registry.register_or_get("camera", 36).unwrap();
    let light = registry.register_or_get("light", 120).unwrap();
    assert_eq!(registry.name_of(camera), Some(&String::from("camera")));
    assert_eq!(registry.name_of(light), Some(&String::from("light")));
    assert_eq!(registry.name_of(TypeId { index: 2, payload_size: 36 }), None);
    assert_eq!(registry.name_of(TypeId { index: 0, payload_size: 120 }), None);
}
