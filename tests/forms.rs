use inventory_manager::applets::applet::{AppState, FormError, Key};
use inventory_manager::applets::create_item::{CreateItemApplet, CreateItemSelection};
use inventory_manager::applets::create_location::{CreateLocationApplet, CreateLocationSelection};
use inventory_manager::applets::edit_item::{EditItemApplet, EditItemSelection};
use inventory_manager::applets::edit_location::{EditLocationApplet, EditLocationSelection};
use inventory_manager::store::{Inventory, Item, Location};

fn fill_locations_and_items(my_inv: &mut Inventory) {
    for i in 0..5 {
        let loc = Location {
            id: i,
            name: format!("location{i}").to_string(),
            comment: Some(format!("comment{i}").to_string()),
        };
        let item = Item {
            id: i + 100,
            name: format!("item{i}").to_string(),
            comment: Some(format!("comment{i}").to_string()),
            location_id: Some(i),
        };
        assert!(my_inv.add_location(&loc).is_ok());
        assert!(my_inv.add_item(&item).is_ok());
    }
}

fn fill_locations(my_inv: &mut Inventory) {
    for i in 0..5 {
        let loc = Location {
            id: i,
            name: format!("location{i}").to_string(),
            comment: Some(format!("comment{i}").to_string()),
        };
        assert!(my_inv.add_location(&loc).is_ok());
    }
}

#[test]
fn create_item_test_new() {
    let my_applet = CreateItemApplet::new();
    assert_eq!(my_applet.next_state, AppState::NoChange);
    assert!(my_applet.id.is_empty());
    assert!(my_applet.name.is_empty());
    assert!(my_applet.comment.is_empty());
    assert!(my_applet.location_id.is_empty());
    assert_eq!(my_applet.cursor_position, 0);
    assert_eq!(my_applet.selection, CreateItemSelection::Id);
}

#[test]
fn create_item_test_save_parsing() {
    let mut my_inv = Inventory::open_in_memory().unwrap();
    fill_locations_and_items(&mut my_inv);

    let mut my_applet = CreateItemApplet::new();

    my_applet.name = "Some_name".into();
    my_applet.id = "1".into();
    assert!(my_applet.save_item(&mut my_inv).is_ok());
    my_applet.id = "nan".into();
    assert!(my_applet.save_item(&mut my_inv).is_err());
    my_applet.id = "0xff".into();
    assert!(my_applet.save_item(&mut my_inv).is_err());
    my_applet.id = "101".into();
    assert!(my_applet.save_item(&mut my_inv).is_err());
    my_applet.id = "2".into();
    assert!(my_applet.save_item(&mut my_inv).is_ok());

    my_applet.id = "3".into();
    my_applet.name = "".into();
    assert!(my_applet.save_item(&mut my_inv).is_err());
    my_applet.name = "43".into();
    assert!(my_applet.save_item(&mut my_inv).is_ok());

    my_applet.id = "4".into();
    my_applet.location_id = "nan".into();
    assert!(my_applet.save_item(&mut my_inv).is_err());
    my_applet.location_id = "0x02".into();
    assert!(my_applet.save_item(&mut my_inv).is_err());
    my_applet.location_id = "101".into();
    assert!(my_applet.save_item(&mut my_inv).is_err());
    my_applet.location_id = "2".into();
    assert!(my_applet.save_item(&mut my_inv).is_ok());
}

#[test]
fn create_item_test_save() {
    let mut my_inv = Inventory::open_in_memory().unwrap();
    fill_locations_and_items(&mut my_inv);
    let mut my_applet = CreateItemApplet::new();
    my_applet.id = "201".into();
    my_applet.name = "n".into();
    my_applet.comment = "".into();
    my_applet.location_id = "".into();

    assert!(my_applet.save_item(&mut my_inv).is_ok());
    assert_eq!(
        my_inv.search_item_id(201),
        Some(Item {
            id: 201,
            name: "n".into(),
            comment: None,
            location_id: None
        })
    );

    my_applet.id = "202".into();
    my_applet.name = "n".into();
    my_applet.comment = "some_comment".into();
    my_applet.location_id = "".into();

    assert!(my_applet.save_item(&mut my_inv).is_ok());
    assert_eq!(
        my_inv.search_item_id(202),
        Some(Item {
            id: 202,
            name: "n".into(),
            comment: Some("some_comment".into()),
            location_id: None
        })
    );

    my_applet.id = "203".into();
    my_applet.name = "n".into();
    my_applet.comment = "some_comment".into();
    my_applet.location_id = "2".into();

    assert!(my_applet.save_item(&mut my_inv).is_ok());
    assert_eq!(
        my_inv.search_item_id(203),
        Some(Item {
            id: 203,
            name: "n".into(),
            comment: Some("some_comment".into()),
            location_id: Some(2)
        })
    );
}

#[test]
fn create_location_test_new() {
    let my_applet = CreateLocationApplet::new();
    assert_eq!(my_applet.next_state, AppState::NoChange);
    assert!(my_applet.id.is_empty());
    assert!(my_applet.name.is_empty());
    assert!(my_applet.comment.is_empty());
    assert_eq!(my_applet.cursor_position, 0);
    assert_eq!(my_applet.selection, CreateLocationSelection::Id);
}

#[test]
fn create_location_test_save_parsing() {
    let mut my_inv = Inventory::open_in_memory().unwrap();

    let mut my_applet = CreateLocationApplet::new();

    my_applet.name = "Some_name".into();
    my_applet.id = "1".into();
    assert!(my_applet.save_location(&mut my_inv).is_ok());
    my_applet.id = "nan".into();
    assert!(my_applet.save_location(&mut my_inv).is_err());
    my_applet.id = "0xff".into();
    assert!(my_applet.save_location(&mut my_inv).is_err());
    my_applet.id = "1".into();
    assert!(my_applet.save_location(&mut my_inv).is_err());
    my_applet.id = "2".into();
    assert!(my_applet.save_location(&mut my_inv).is_ok());

    my_applet.id = "3".into();
    my_applet.name = "".into();
    assert!(my_applet.save_location(&mut my_inv).is_err());
    my_applet.name = "43".into();
    assert!(my_applet.save_location(&mut my_inv).is_ok());
}

#[test]
fn edit_item_test_creation() {
    let my_applet = EditItemApplet::new(1);
    assert_eq!(my_applet.next_state, AppState::NoChange);
    assert_eq!(my_applet.item.id, -1);
    assert_eq!(my_applet.item.name, "".to_string());
    assert_eq!(my_applet.item.comment, None);
    assert_eq!(my_applet.item.location_id, None);
    assert_eq!(my_applet.id, 1);
    assert_eq!(my_applet.cursor_position, 0);
    assert_eq!(my_applet.selection, EditItemSelection::Name);
    assert_eq!(my_applet.loc_id_str, "".to_string());
}

#[test]
fn edit_item_test_refresh() {
    let mut my_inv = Inventory::open_in_memory().unwrap();
    fill_locations_and_items(&mut my_inv);

    let mut my_applet = EditItemApplet::new(101);
    my_applet.refresh(&my_inv);
    assert_eq!(
        my_applet.item,
        Item {
            id: 101,
            name: "item1".to_string(),
            comment: Some("comment1".to_string()),
            location_id: Some(1)
        }
    );
    my_applet.item.location_id = None;
    assert_eq!(
        my_applet.item,
        Item {
            id: 101,
            name: "item1".to_string(),
            comment: Some("comment1".to_string()),
            location_id: None,
        }
    );
    my_applet.refresh(&my_inv);
    assert_eq!(
        my_applet.item,
        Item {
            id: 101,
            name: "item1".to_string(),
            comment: Some("comment1".to_string()),
            location_id: None,
        }
    );
}

#[test]
fn edit_item_test_save_parsing() {
    let mut my_inv = Inventory::open_in_memory().unwrap();
    fill_locations_and_items(&mut my_inv);
    let mut my_applet = EditItemApplet::new(101);
    my_applet.refresh(&my_inv);

    my_applet.loc_id_str = "nan".to_string();
    assert!(my_applet.save_item(&mut my_inv).is_err());
    my_applet.loc_id_str = "0xff".to_string();
    assert!(my_applet.save_item(&mut my_inv).is_err());
    my_applet.loc_id_str = "99".to_string();
    assert!(my_applet.save_item(&mut my_inv).is_err());
    my_applet.loc_id_str = "4".to_string();
    assert!(my_applet.save_item(&mut my_inv).is_ok());

    my_applet.item.name = "".to_string();
    assert!(my_applet.save_item(&mut my_inv).is_err());
}

#[test]
fn edit_item_test_save() {
    let mut my_inv = Inventory::open_in_memory().unwrap();
    fill_locations_and_items(&mut my_inv);
    let mut my_applet = EditItemApplet::new(101);
    my_applet.refresh(&my_inv);
    assert_eq!(
        my_inv.search_item_id(my_applet.item.id),
        Some(Item {
            id: 101,
            name: "item1".to_string(),
            comment: Some("comment1".to_string()),
            location_id: Some(1)
        })
    );

    my_applet.loc_id_str = "nan".to_string();
    let _ = my_applet.save_item(&mut my_inv);
    assert_eq!(
        my_inv.search_item_id(my_applet.item.id),
        Some(Item {
            id: 101,
            name: "item1".to_string(),
            comment: Some("comment1".to_string()),
            location_id: Some(1)
        })
    );

    my_applet.loc_id_str = "".to_string();
    let _ = my_applet.save_item(&mut my_inv);
    assert_eq!(
        my_inv.search_item_id(my_applet.item.id),
        Some(Item {
            id: 101,
            name: "item1".to_string(),
            comment: Some("comment1".to_string()),
            location_id: None
        })
    );

    my_applet.loc_id_str = "4".to_string();
    let _ = my_applet.save_item(&mut my_inv);
    assert_eq!(
        my_inv.search_item_id(my_applet.item.id),
        Some(Item {
            id: 101,
            name: "item1".to_string(),
            comment: Some("comment1".to_string()),
            location_id: Some(4)
        })
    );
    my_applet.item.name = "".to_string();
    let _ = my_applet.save_item(&mut my_inv);
    assert_eq!(
        my_inv.search_item_id(my_applet.item.id),
        Some(Item {
            id: 101,
            name: "item1".to_string(),
            comment: Some("comment1".to_string()),
            location_id: Some(4)
        })
    );

    my_applet.item.name = "newname".to_string();
    let _ = my_applet.save_item(&mut my_inv);
    assert_eq!(
        my_inv.search_item_id(my_applet.item.id),
        Some(Item {
            id: 101,
            name: "newname".to_string(),
            comment: Some("comment1".to_string()),
            location_id: Some(4)
        })
    );

    my_applet.item.comment = Some("newcomment".to_string());
    let _ = my_applet.save_item(&mut my_inv);
    assert_eq!(
        my_inv.search_item_id(my_applet.item.id),
        Some(Item {
            id: 101,
            name: "newname".to_string(),
            comment: Some("newcomment".to_string()),
            location_id: Some(4)
        })
    );
    my_applet.item.comment = Some("".to_string());
    let _ = my_applet.save_item(&mut my_inv);
    assert_eq!(
        my_inv.search_item_id(my_applet.item.id),
        Some(Item {
            id: 101,
            name: "newname".to_string(),
            comment: None,
            location_id: Some(4)
        })
    );
}

#[test]
fn edit_location_test_creation() {
    let my_applet = EditLocationApplet::new(1);
    assert_eq!(my_applet.next_state, AppState::NoChange);
    assert_eq!(my_applet.loc.id, -1);
    assert_eq!(my_applet.loc.name, "".to_string());
    assert_eq!(my_applet.loc.comment, None);
    assert_eq!(my_applet.id, 1);
    assert_eq!(my_applet.cursor_position, 0);
    assert_eq!(my_applet.selection, EditLocationSelection::Name);
}

#[test]
fn edit_location_test_refresh() {
    let mut my_inv = Inventory::open_in_memory().unwrap();
    fill_locations(&mut my_inv);

    let mut my_applet = EditLocationApplet::new(1);
    my_applet.refresh(&my_inv);

    assert_eq!(
        my_applet.loc,
        Location {
            id: 1,
            name: "location1".into(),
            comment: Some("comment1".into())
        }
    );

    my_applet.loc.comment = None;
    assert_eq!(
        my_applet.loc,
        Location {
            id: 1,
            name: "location1".into(),
            comment: None
        }
    );
    my_applet.refresh(&my_inv);
    assert_eq!(
        my_applet.loc,
        Location {
            id: 1,
            name: "location1".into(),
            comment: None
        }
    );
}

#[test]
fn edit_location_test_save_parsing() {
    let mut my_inv = Inventory::open_in_memory().unwrap();
    fill_locations(&mut my_inv);
    let mut my_applet = EditLocationApplet::new(1);
    my_applet.refresh(&my_inv);

    my_applet.loc.name = "".to_string();
    assert!(my_applet.save_location(&mut my_inv).is_err());
    my_applet.loc.name = "Something else".to_string();
    assert!(my_applet.save_location(&mut my_inv).is_ok());
    my_applet.loc.comment = None;
    assert!(my_applet.save_location(&mut my_inv).is_ok());
    my_applet.loc.comment = Some("Other Comment".into());
    assert!(my_applet.save_location(&mut my_inv).is_ok());
}

#[test]
fn edit_location_test_save() {
    let mut my_inv = Inventory::open_in_memory().unwrap();
    fill_locations(&mut my_inv);
    let mut my_applet = EditLocationApplet::new(1);
    my_applet.refresh(&my_inv);
    assert_eq!(
        my_inv.search_location_id(my_applet.loc.id),
        Some(Location {
            id: 1,
            name: "location1".to_string(),
            comment: Some("comment1".to_string()),
        })
    );

    my_applet.loc.name = "newname".into();
    assert!(my_applet.save_location(&mut my_inv).is_ok());
    assert_eq!(
        my_inv.search_location_id(my_applet.loc.id),
        Some(Location {
            id: 1,
            name: "newname".to_string(),
            comment: Some("comment1".to_string()),
        })
    );

    my_applet.loc.name = "".into();
    assert!(my_applet.save_location(&mut my_inv).is_err());
    assert_eq!(
        my_inv.search_location_id(my_applet.loc.id),
        Some(Location {
            id: 1,
            name: "newname".to_string(),
            comment: Some("comment1".to_string()),
        })
    );
    my_applet.loc.name = "newername".into();
    assert!(my_applet.save_location(&mut my_inv).is_ok());
    assert_eq!(
        my_inv.search_location_id(my_applet.loc.id),
        Some(Location {
            id: 1,
            name: "newername".to_string(),
            comment: Some("comment1".to_string()),
        })
    );

    my_applet.loc.comment = Some("".into());
    assert!(my_applet.save_location(&mut my_inv).is_ok());
    assert_eq!(
        my_inv.search_location_id(my_applet.loc.id),
        Some(Location {
            id: 1,
            name: "newername".to_string(),
            comment: None,
        })
    );

    my_applet.loc.comment = Some("Other Comment".into());
    assert!(my_applet.save_location(&mut my_inv).is_ok());
    assert_eq!(
        my_inv.search_location_id(my_applet.loc.id),
        Some(Location {
            id: 1,
            name: "newername".to_string(),
            comment: Some("Other Comment".into()),
        })
    );

    my_applet.loc.comment = None;
    assert!(my_applet.save_location(&mut my_inv).is_ok());
    assert_eq!(
        my_inv.search_location_id(my_applet.loc.id),
        Some(Location {
            id: 1,
            name: "newername".to_string(),
            comment: None,
        })
    );
}

fn type_text(key_target: &mut CreateItemApplet, inv: &mut Inventory, text: &str) {
    for c in text.chars() {
        key_target.handle_key(Key::Char(c), inv);
    }
}

#[test]
fn bin_widget_scenario() {
    let mut inv = Inventory::open_in_memory().unwrap();
    let mut loc = CreateLocationApplet::new();
    loc.id = "1".into();
    loc.name = "Bin A".into();
    assert_eq!(loc.save_location(&mut inv), Ok(()));

    let mut widget = CreateItemApplet::new();
    widget.id = "100".into();
    widget.name = "Widget".into();
    widget.location_id = "1".into();
    assert_eq!(widget.save_item(&mut inv), Ok(()));

    let mut dup = CreateItemApplet::new();
    dup.id = "100".into();
    dup.name = "Dup".into();
    assert_eq!(dup.save_item(&mut inv), Err(FormError::IdTaken));

    let mut orphan = CreateItemApplet::new();
    orphan.id = "101".into();
    orphan.name = "Orphan".into();
    orphan.location_id = "99".into();
    assert_eq!(orphan.save_item(&mut inv), Err(FormError::UnknownLocation));
    assert_eq!(inv.search_item_id(101), None);

    let mut edit = EditItemApplet::new(100);
    edit.refresh(&inv);
    assert_eq!(edit.loc_id_str, "1");
    edit.loc_id_str = "".into();
    assert_eq!(edit.save_item(&mut inv), Ok(()));
    assert_eq!(
        inv.search_item_id(100),
        Some(Item { id: 100, name: "Widget".into(), comment: None, location_id: None })
    );
}

#[test]
fn each_form_error_has_an_input() {
    let mut inv = Inventory::open_in_memory().unwrap();
    fill_locations_and_items(&mut inv);
    let mut a = CreateItemApplet::new();
    a.id = "x".into();
    assert_eq!(a.save_item(&mut inv), Err(FormError::InvalidId));
    a.id = "9".into();
    assert_eq!(a.save_item(&mut inv), Err(FormError::EmptyName));
    a.name = "n".into();
    a.location_id = "1.5".into();
    assert_eq!(a.save_item(&mut inv), Err(FormError::InvalidLocationId));
    a.location_id = "77".into();
    assert_eq!(a.save_item(&mut inv), Err(FormError::UnknownLocation));
    a.id = "100".into();
    a.location_id = "".into();
    assert_eq!(a.save_item(&mut inv), Err(FormError::IdTaken));

    let mut e = EditLocationApplet::new(42);
    e.loc = Location { id: 42, name: "ghost".into(), comment: None };
    assert_eq!(e.save_location(&mut inv), Err(FormError::UnknownId));
}

#[test]
fn typed_keys_fill_the_form_and_save_closes_it() {
    let mut inv = Inventory::open_in_memory().unwrap();
    let mut a = CreateItemApplet::new();
    type_text(&mut a, &mut inv, "-12");
    assert_eq!(a.id, "-12");
    assert_eq!(a.cursor_position, 3);
    a.handle_key(Key::Left, &mut inv);
    a.handle_key(Key::Backspace, &mut inv);
    assert_eq!(a.id, "-2");
    assert_eq!(a.cursor_position, 1);
    a.handle_key(Key::Delete, &mut inv);
    assert_eq!(a.id, "-");
    a.handle_key(Key::Right, &mut inv);
    assert_eq!(a.cursor_position, 1);
    a.handle_key(Key::Char('7'), &mut inv);
    assert_eq!(a.id, "-7");
    a.handle_key(Key::Tab, &mut inv);
    assert_eq!(a.selection, CreateItemSelection::Name);
    assert_eq!(a.cursor_position, 0);
    type_text(&mut a, &mut inv, "Nut");
    a.handle_key(Key::Up, &mut inv);
    a.handle_key(Key::Up, &mut inv);
    assert_eq!(a.selection, CreateItemSelection::Save);
    a.handle_key(Key::Enter, &mut inv);
    assert_eq!(a.next_state, AppState::Exit);
    assert_eq!(a.last_error, None);
    assert_eq!(
        inv.search_item_id(-7),
        Some(Item { id: -7, name: "Nut".into(), comment: None, location_id: None })
    );
}

#[test]
fn invalid_save_stays_on_the_form_with_the_error() {
    let mut inv = Inventory::open_in_memory().unwrap();
    let mut a = CreateLocationApplet::new();
    a.selection = CreateLocationSelection::Save;
    a.handle_key(Key::Enter, &mut inv);
    assert_eq!(a.next_state, AppState::NoChange);
    assert_eq!(a.last_error, Some(FormError::InvalidId));
    a.handle_key(Key::Down, &mut inv);
    assert_eq!(a.selection, CreateLocationSelection::Id);
    a.selection = CreateLocationSelection::Cancel;
    a.handle_key(Key::Enter, &mut inv);
    assert_eq!(a.next_state, AppState::Exit);
    assert_eq!(inv.get_all_locations(), Ok(vec![]));
}

#[test]
fn present_comment_survives_an_unchanged_edit() {
    let mut inv = Inventory::open_in_memory().unwrap();
    fill_locations_and_items(&mut inv);
    let mut e = EditLocationApplet::new(3);
    e.refresh(&inv);
    assert_eq!(e.save_location(&mut inv), Ok(()));
    assert_eq!(
        inv.search_location_id(3),
        Some(Location { id: 3, name: "location3".into(), comment: Some("comment3".into()) })
    );
    let mut f = EditItemApplet::new(104);
    f.refresh(&inv);
    assert_eq!(f.loc_id_str, "4");
    assert_eq!(f.save_item(&mut inv), Ok(()));
    assert_eq!(
        inv.search_item_id(104),
        Some(Item { id: 104, name: "item4".into(), comment: Some("comment4".into()), location_id: Some(4) })
    );
}

#[test]
fn editor_comment_field_edits_in_place() {
    let mut inv = Inventory::open_in_memory().unwrap();
    fill_locations(&mut inv);
    let mut e = EditLocationApplet::new(2);
    e.refresh(&inv);
    e.handle_key(Key::Down, &mut inv);
    assert_eq!(e.selection, EditLocationSelection::Comment);
    e.handle_key(Key::Delete, &mut inv);
    assert_eq!(e.loc.comment, Some("omment2".to_string()));
    e.handle_key(Key::Esc, &mut inv);
    assert_eq!(e.next_state, AppState::Exit);
    assert_eq!(
        inv.search_location_id(2),
        Some(Location { id: 2, name: "location2".into(), comment: Some("comment2".into()) })
    );
}

#[test]
fn ids_must_fit_in_sixty_four_bits() {
    let mut inv = Inventory::open_in_memory().unwrap();
    let mut a = CreateLocationApplet::new();
    a.name = "edge".into();
    a.id = "9223372036854775808".into();
    assert_eq!(a.save_location(&mut inv), Err(FormError::InvalidId));
    a.id = "9223372036854775807".into();
    assert_eq!(a.save_location(&mut inv), Ok(()));
    a.id = "-9223372036854775808".into();
    assert_eq!(a.save_location(&mut inv), Ok(()));
    a.id = "+5".into();
    assert_eq!(a.save_location(&mut inv), Ok(()));
    a.id = " 6".into();
    assert_eq!(a.save_location(&mut inv), Err(FormError::InvalidId));
    a.id = "-".into();
    assert_eq!(a.save_location(&mut inv), Err(FormError::InvalidId));
    let ids: Vec<i64> = inv.get_all_locations().unwrap().iter().map(|l| l.id).collect();
    assert_eq!(ids, vec![i64::MIN, 5, i64::MAX]);

    let mut e = EditItemApplet::new(1);
    let item = Item { id: 1, name: "n".into(), comment: None, location_id: Some(i64::MIN) };
    assert_eq!(inv.add_item(&item), Ok(()));
    e.refresh(&inv);
    assert_eq!(e.loc_id_str, "-9223372036854775808");
    assert_eq!(e.save_item(&mut inv), Ok(()));
    assert_eq!(inv.search_item_id(1), Some(item));
}

#[test]
fn editor_for_a_negative_id_still_loads() {
    let mut inv = Inventory::open_in_memory().unwrap();
    let l = Location { id: -1, name: "minus".into(), comment: None };
    assert_eq!(inv.add_location(&l), Ok(()));
    let mut e = EditLocationApplet::new(-1);
    assert_ne!(e.loc.id, -1);
    e.refresh(&inv);
    assert_eq!(e.loc, Location { id: -1, name: "minus".into(), comment: Some("".into()) });
    assert_eq!(e.last_error, None);

    let mut missing = EditItemApplet::new(55);
    missing.refresh(&inv);
    assert_eq!(missing.item.id, -1);
    assert_eq!(missing.last_error, None);
}
