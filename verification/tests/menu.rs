use camera_capture::id_manager::IdManager;
use camera_capture::menu::{create_menu, menu_items, Choice, MenuItem, Menus};

fn names(list: &[&str]) -> Vec<String> {
    list.iter().map(|name| name.to_string()).collect()
}

fn item(name: &str, id: usize) -> MenuItem {
    MenuItem { name: name.to_string(), id }
}

#[test]
fn menu_items_number_the_names_in_order() {
    let mut ids = IdManager::new();
    let items = menu_items(&mut ids, &names(&["Rear", "Front", "Dock"]));
    assert_eq!(items, vec![item("Rear", 1), item("Front", 2), item("Dock", 3)]);
    assert_eq!(ids.len(), 3);
}

#[test]
fn menu_items_go_on_after_the_last_id() {
    let mut ids = IdManager::new();
    ids.add(String::from("earlier"));
    ids.add(String::from("entries"));
    let items = menu_items(&mut ids, &names(&["a", "b"]));
    assert_eq!(items, vec![item("a", 3), item("b", 4)]);
    assert_eq!(ids.get(1), Ok("earlier"));
    assert_eq!(ids.get(2), Ok("entries"));
    assert_eq!(ids.get(3), Ok("a"));
    assert_eq!(ids.get(4), Ok("b"));
}

#[test]
fn menu_items_of_no_names_register_nothing() {
    let mut ids = IdManager::new();
    let items = menu_items(&mut ids, &Vec::new());
    assert!(items.is_empty());
    assert_eq!(ids.len(), 0);
}

#[test]
fn ids_of_menu_items_strictly_increase() {
    let mut ids = IdManager::new();
    let list: Vec<String> = (0..50).map(|n| format!("camera {}", 50 - n)).collect();
    let items = menu_items(&mut ids, &list);
    assert_eq!(items.len(), 50);
    for pair in items.windows(2) {
        assert!(pair[0].id < pair[1].id);
    }
    assert!(items.iter().all(|item| item.id != 0));
}

#[test]
fn every_menu_item_is_found_again_by_its_id() {
    let mut ids = IdManager::new();
    let menus = create_menu(
        &mut ids,
        &names(&["Webcam", "Capture Card"]),
        names(&["Video-NV12: 640x480@30fps", "Video-MJPG: 1280x720@30fps"]),
    );
    for entry in menus.cameras.iter().chain(menus.formats.iter()) {
        assert_eq!(ids.get(entry.id), Ok(entry.name.as_str()));
    }
    assert_eq!(ids.len(), 4);
}

#[test]
fn cameras_keep_their_order_and_formats_are_sorted() {
    let mut ids = IdManager::new();
    let menus = create_menu(
        &mut ids,
        &names(&["Webcam", "Capture Card"]),
        names(&[
            "Video-YUY2: 640x480@30fps",
            "Video-MJPG: 1280x720@30fps",
            "Video-NV12: 640x480@15fps",
        ]),
    );
    assert_eq!(menus.cameras, vec![item("Webcam", 1), item("Capture Card", 2)]);
    assert_eq!(
        menus.formats,
        vec![
            item("Video-MJPG: 1280x720@30fps", 3),
            item("Video-NV12: 640x480@15fps", 4),
            item("Video-YUY2: 640x480@30fps", 5),
        ]
    );
}

#[test]
fn formats_sort_by_code_point_and_a_prefix_comes_first() {
    let mut ids = IdManager::new();
    let menus = create_menu(
        &mut ids,
        &Vec::new(),
        names(&["b", "abc", "B", "\u{e9}", "ab", "z", "", "a"]),
    );
    let shown: Vec<&str> = menus.formats.iter().map(|entry| entry.name.as_str()).collect();
    assert_eq!(shown, vec!["", "B", "a", "ab", "abc", "b", "z", "\u{e9}"]);
    let numbers: Vec<usize> = menus.formats.iter().map(|entry| entry.id).collect();
    assert_eq!(numbers, vec![1, 2, 3, 4, 5, 6, 7, 8]);
}

#[test]
fn sorting_keeps_equal_formats() {
    let mut ids = IdManager::new();
    let menus = create_menu(&mut ids, &names(&["cam"]), names(&["x", "a", "x"]));
    assert_eq!(menus.formats, vec![item("a", 2), item("x", 3), item("x", 4)]);
    assert_eq!(ids.len(), 4);
}

#[test]
fn menus_without_entries_are_empty() {
    let mut ids = IdManager::new();
    let menus = create_menu(&mut ids, &Vec::new(), Vec::new());
    assert!(menus.cameras.is_empty());
    assert!(menus.formats.is_empty());
    assert_eq!(ids.len(), 0);
}

#[test]
fn a_camera_and_a_format_of_one_name_get_two_ids() {
    let mut ids = IdManager::new();
    let menus = create_menu(&mut ids, &names(&["Same"]), names(&["Same"]));
    assert_eq!(menus.cameras, vec![item("Same", 1)]);
    assert_eq!(menus.formats, vec![item("Same", 2)]);
}

#[test]
fn choosing_a_camera_entry_asks_for_the_camera() {
    let mut ids = IdManager::new();
    let menus = create_menu(&mut ids, &names(&["Webcam", "Dock"]), names(&["MJPG", "NV12"]));
    assert_eq!(menus.chosen(&ids, 1), Choice::Camera(String::from("Webcam")));
    assert_eq!(menus.chosen(&ids, 2), Choice::Camera(String::from("Dock")));
}

#[test]
fn choosing_a_format_entry_asks_for_the_format() {
    let mut ids = IdManager::new();
    let menus = create_menu(&mut ids, &names(&["Webcam", "Dock"]), names(&["NV12", "MJPG"]));
    assert_eq!(menus.chosen(&ids, 3), Choice::Format(String::from("MJPG")));
    assert_eq!(menus.chosen(&ids, 4), Choice::Format(String::from("NV12")));
}

#[test]
fn choosing_an_unknown_id_asks_for_nothing() {
    let mut ids = IdManager::new();
    let menus = create_menu(&mut ids, &names(&["Webcam"]), names(&["MJPG"]));
    assert_eq!(menus.chosen(&ids, 0), Choice::Nothing);
    assert_eq!(menus.chosen(&ids, 3), Choice::Nothing);
    assert_eq!(menus.chosen(&ids, usize::MAX), Choice::Nothing);
}

#[test]
fn a_name_of_both_menus_asks_for_the_camera() {
    let mut ids = IdManager::new();
    let menus = create_menu(&mut ids, &names(&["Same"]), names(&["Same", "Other"]));
    assert_eq!(menus.formats, vec![item("Other", 2), item("Same", 3)]);
    assert_eq!(menus.chosen(&ids, 1), Choice::Camera(String::from("Same")));
    assert_eq!(menus.chosen(&ids, 3), Choice::Camera(String::from("Same")));
    assert_eq!(menus.chosen(&ids, 2), Choice::Format(String::from("Other")));
}

#[test]
fn a_name_of_neither_menu_asks_for_nothing() {
    let mut ids = IdManager::new();
    let stray = ids.add(String::from("Stray"));
    let menus = create_menu(&mut ids, &names(&["Webcam"]), names(&["MJPG"]));
    assert_eq!(menus.chosen(&ids, stray), Choice::Nothing);
    assert_eq!(menus.chosen(&ids, 2), Choice::Camera(String::from("Webcam")));
    let empty = Menus { cameras: Vec::new(), formats: Vec::new() };
    assert_eq!(empty.chosen(&ids, 2), Choice::Nothing);
}
