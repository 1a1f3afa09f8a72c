use camera_capture::id_manager::{IdManager, LookupError};

#[test]
fn new_manager_has_no_names() {
    let manager = IdManager::new();
    assert_eq!(manager.len(), 0);
    assert_eq!(manager.get(0), Err(LookupError::UnknownId));
    assert_eq!(manager.get(1), Err(LookupError::UnknownId));
}

#[test]
fn first_id_is_one() {
    let mut manager = IdManager::new();
    assert_eq!(manager.add(String::from("Integrated Camera")), 1);
    assert_eq!(manager.len(), 1);
}

#[test]
fn ids_grow_by_one_and_are_never_zero() {
    let mut manager = IdManager::new();
    let mut last = 0;
    for n in 0..100 {
        let id = manager.add(format!("entry {}", n));
        assert_ne!(id, 0);
        assert!(id > last);
        assert_eq!(id, last + 1);
        last = id;
    }
    assert_eq!(manager.len(), 100);
}

#[test]
fn get_returns_the_name_that_was_added() {
    let mut manager = IdManager::new();
    let id = manager.add(String::from("USB Camera"));
    assert_eq!(manager.get(id), Ok("USB Camera"));
}

#[test]
fn names_come_back_byte_for_byte() {
    let name = "Cam\u{e9}ra \u{1F4F7}\t 1280x720@30fps ";
    let mut manager = IdManager::new();
    let id = manager.add(String::from(name));
    let found = manager.get(id).unwrap();
    assert_eq!(found.as_bytes(), name.as_bytes());
}

#[test]
fn empty_name_is_a_name() {
    let mut manager = IdManager::new();
    let id = manager.add(String::new());
    assert_eq!(manager.get(id), Ok(""));
}

#[test]
fn earlier_names_stay_after_later_adds() {
    let mut manager = IdManager::new();
    let front = manager.add(String::from("Front"));
    let back = manager.add(String::from("Back"));
    let side = manager.add(String::from("Side"));
    assert_eq!((front, back, side), (1, 2, 3));
    assert_eq!(manager.get(front), Ok("Front"));
    assert_eq!(manager.get(back), Ok("Back"));
    assert_eq!(manager.get(side), Ok("Side"));
}

#[test]
fn equal_names_get_different_ids() {
    let mut manager = IdManager::new();
    let first = manager.add(String::from("Camera"));
    let second = manager.add(String::from("Camera"));
    assert_ne!(first, second);
    assert_eq!(manager.get(first), Ok("Camera"));
    assert_eq!(manager.get(second), Ok("Camera"));
}

#[test]
fn zero_is_unknown() {
    let mut manager = IdManager::new();
    manager.add(String::from("Camera"));
    assert_eq!(manager.get(0), Err(LookupError::UnknownId));
}

#[test]
fn id_above_the_last_is_unknown() {
    let mut manager = IdManager::new();
    manager.add(String::from("one"));
    manager.add(String::from("two"));
    assert_eq!(manager.get(3), Err(LookupError::UnknownId));
    assert_eq!(manager.get(usize::MAX), Err(LookupError::UnknownId));
}

#[test]
fn managers_do_not_share_ids() {
    let mut cameras = IdManager::new();
    let formats = IdManager::new();
    let id = cameras.add(String::from("Camera"));
    assert_eq!(cameras.get(id), Ok("Camera"));
    assert_eq!(formats.get(id), Err(LookupError::UnknownId));
}
