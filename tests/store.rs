use inventory_manager::store::{Inventory, Item, Location, StoreError};

#[test]
fn test_db_creation() {
    let _my_inv: Inventory = Inventory::open_in_memory().unwrap();
    assert!(true);
}

#[test]
fn test_location_insertion() {
    let mut my_inv: Inventory = Inventory::open_in_memory().unwrap();
    let l1 = Location {
        id: 101,
        name: "location1".to_string(),
        comment: None,
    };
    let l2 = Location {
        id: 102,
        name: "location2".to_string(),
        comment: Some("with comment".to_string()),
    };
    assert!(my_inv.add_location(&l1).is_ok());
    assert!(my_inv.add_location(&l2).is_ok());
    let res = my_inv.get_all_locations();
    assert!(res.is_ok());
    let locs = res.unwrap();
    assert_eq!(locs.len(), 2);

    assert_eq!(locs[0], l1);
    assert_eq!(locs[1], l2);
}

#[test]
fn test_item_insertion() {
    let mut my_inv: Inventory = Inventory::open_in_memory().unwrap();
    let l1 = Location {
        id: 101,
        name: "location1".to_string(),
        comment: Some("comment".to_string()),
    };
    let i1 = Item {
        id: 201,
        name: "item1".to_string(),
        comment: None,
        location_id: None,
    };
    let i2 = Item {
        id: 202,
        name: "item2".to_string(),
        comment: Some("with_comment".to_string()),
        location_id: Some(101),
    };
    assert!(my_inv.add_location(&l1).is_ok());
    assert!(my_inv.add_item(&i1).is_ok());
    assert!(my_inv.add_item(&i2).is_ok());

    let res = my_inv.get_all_items();
    assert!(res.is_ok());
    let itms = res.unwrap();
    assert_eq!(itms.len(), 2);
    assert_eq!(itms[0], i1);
    assert_eq!(itms[1], i2);
}

#[test]
fn test_improper_location_insertion() {
    let mut my_inv: Inventory = Inventory::open_in_memory().unwrap();
    let l1 = Location {
        id: 101,
        name: "location1".to_string(),
        comment: None,
    };
    let l2 = Location {
        id: 101,
        name: "location2".to_string(),
        comment: Some("with comment".to_string()),
    };
    assert!(my_inv.add_location(&l1).is_ok());
    assert!(my_inv.add_location(&l2).is_err())
}

#[test]
fn test_improper_item_insertion() {
    let mut my_inv: Inventory = Inventory::open_in_memory().unwrap();
    let l1 = Location {
        id: 101,
        name: "location1".to_string(),
        comment: None,
    };
    let i1 = Item {
        id: 201,
        name: "item1".to_string(),
        comment: None,
        location_id: Some(101),
    };
    let i2 = Item {
        id: 201,
        name: "item2".to_string(),
        comment: Some("with_comment".to_string()),
        location_id: None,
    };
    let i3 = Item {
        id: 203,
        name: "item3".to_string(),
        comment: None,
        location_id: Some(102),
    };
    assert!(my_inv.add_location(&l1).is_ok());
    assert!(my_inv.add_item(&i1).is_ok());
    assert!(my_inv.add_item(&i2).is_err());
    assert!(my_inv.add_item(&i3).is_err());
}

#[test]
fn test_items_by_location() {
    let mut my_inv: Inventory = Inventory::open_in_memory().unwrap();
    let l1 = Location {
        id: 101,
        name: "location1".to_string(),
        comment: None,
    };
    let i1 = Item {
        id: 201,
        name: "item1".to_string(),
        comment: None,
        location_id: Some(101),
    };
    let i2 = Item {
        id: 202,
        name: "item2".to_string(),
        comment: Some("with_comment".to_string()),
        location_id: None,
    };
    let i3 = Item {
        id: 203,
        name: "item3".to_string(),
        comment: None,
        location_id: Some(101),
    };
    assert!(my_inv.add_location(&l1).is_ok());
    assert!(my_inv.add_item(&i1).is_ok());
    assert!(my_inv.add_item(&i2).is_ok());
    assert!(my_inv.add_item(&i3).is_ok());

    let res = my_inv.items_by_location_id(101);
    assert!(res.is_ok());
    let itms = res.unwrap();
    assert_eq!(itms.len(), 2);
    assert_eq!(itms[0], i1);
    assert_eq!(itms[1], i3);
}

#[test]
fn test_search_locations() {
    let mut my_inv: Inventory = Inventory::open_in_memory().unwrap();
    let l1 = Location {
        id: 101,
        name: "location1".to_string(),
        comment: None,
    };
    let l2 = Location {
        id: 102,
        name: "Location2".to_string(),
        comment: Some("with comment".to_string()),
    };
    assert!(my_inv.add_location(&l1).is_ok());
    assert!(my_inv.add_location(&l2).is_ok());

    let res = my_inv.search_locations("LOCATION1");
    assert!(res.is_ok());
    let locs = res.unwrap();
    assert_eq!(locs.len(), 1);
    assert_eq!(locs[0], l1);

    let res = my_inv.search_locations("atio");
    assert!(res.is_ok());
    let locs = res.unwrap();
    assert_eq!(locs.len(), 2);
    assert_eq!(locs[0], l1);
    assert_eq!(locs[1], l2);

    let res = my_inv.search_locations("nonexistent");
    assert!(res.is_ok());
    let locs = res.unwrap();
    assert_eq!(locs.len(), 0);
}

#[test]
fn test_search_items() {
    let mut my_inv: Inventory = Inventory::open_in_memory().unwrap();
    let l1 = Location {
        id: 101,
        name: "location1".to_string(),
        comment: None,
    };
    let i1 = Item {
        id: 201,
        name: "item1".to_string(),
        comment: None,
        location_id: Some(101),
    };
    let i2 = Item {
        id: 202,
        name: "Item2".to_string(),
        comment: Some("with_comment".to_string()),
        location_id: None,
    };
    let i3 = Item {
        id: 203,
        name: "item3".to_string(),
        comment: None,
        location_id: Some(101),
    };
    assert!(my_inv.add_location(&l1).is_ok());
    assert!(my_inv.add_item(&i1).is_ok());
    assert!(my_inv.add_item(&i2).is_ok());
    assert!(my_inv.add_item(&i3).is_ok());

    let res = my_inv.search_items("ITEM1");
    assert!(res.is_ok());
    let itms = res.unwrap();
    assert_eq!(itms.len(), 1);
    assert_eq!(itms[0], i1);

    let res = my_inv.search_items("em");
    assert!(res.is_ok());
    let itms = res.unwrap();
    assert_eq!(itms.len(), 3);
    assert_eq!(itms[0], i1);
    assert_eq!(itms[1], i2);
    assert_eq!(itms[2], i3);

    let res = my_inv.search_items("nonexistent");
    assert!(res.is_ok());
    let itms = res.unwrap();
    assert_eq!(itms.len(), 0);
}

#[test]
fn test_item_exists() {
    let mut my_inv: Inventory = Inventory::open_in_memory().unwrap();
    let l1 = Location {
        id: 101,
        name: "location1".to_string(),
        comment: None,
    };
    let i1 = Item {
        id: 201,
        name: "item1".to_string(),
        comment: None,
        location_id: Some(101),
    };
    assert!(my_inv.add_location(&l1).is_ok());
    assert!(my_inv.add_item(&i1).is_ok());

    assert!(my_inv.item_exists(201));
    assert!(!my_inv.item_exists(202));
}

#[test]
fn test_location_exists() {
    let mut my_inv: Inventory = Inventory::open_in_memory().unwrap();
    let l1 = Location {
        id: 101,
        name: "location1".to_string(),
        comment: None,
    };
    assert!(my_inv.add_location(&l1).is_ok());

    assert!(my_inv.location_exists(101));
    assert!(!my_inv.location_exists(102));
}

#[test]
fn test_edit_item() {
    let mut my_inv: Inventory = Inventory::open_in_memory().unwrap();
    let l1 = Location {
        id: 101,
        name: "location1".to_string(),
        comment: Some("comment".to_string()),
    };
    let mut i1 = Item {
        id: 201,
        name: "item1".to_string(),
        comment: None,
        location_id: Some(101),
    };
    let i2 = Item {
        id: 202,
        name: "item2".to_string(),
        comment: None,
        location_id: Some(101),
    };

    assert!(my_inv.add_location(&l1).is_ok());
    assert!(my_inv.add_item(&i1).is_ok());

    i1.name = "newname".to_string();
    i1.comment = Some("newComment".to_string());
    i1.location_id = None;

    assert!(my_inv.edit_item(&i1).is_ok());
    let updated_item = my_inv.search_item_id(201);
    assert!(updated_item.is_some());
    assert_eq!(i1, updated_item.unwrap());

    // An unknown location id is refused and the item is left as it was.
    i1.location_id = Some(40);
    assert!(my_inv.edit_item(&i1).is_err());
    i1.location_id = None;
    let updated_item = my_inv.search_item_id(201);
    assert!(updated_item.is_some());
    assert_eq!(i1, updated_item.unwrap());

    // An item that does not exist cannot be edited.
    assert!(my_inv.edit_item(&i2).is_err())
}

#[test]
fn test_edit_location() {
    let mut my_inv: Inventory = Inventory::open_in_memory().unwrap();
    let mut l1 = Location {
        id: 101,
        name: "location1".to_string(),
        comment: Some("comment".to_string()),
    };
    let l2 = Location {
        id: 102,
        name: "Location2".to_string(),
        comment: Some("with comment".to_string()),
    };

    assert!(my_inv.add_location(&l1).is_ok());

    l1.name = "newname".to_string();
    l1.comment = Some("newComment".to_string());

    assert!(my_inv.edit_location(&l1).is_ok());
    let updated_location = my_inv.search_location_id(101);
    assert!(updated_location.is_some());
    assert_eq!(l1, updated_location.unwrap());

    assert!(my_inv.edit_location(&l2).is_err());
}

fn location(id: i64, name: &str) -> Location {
    Location { id, name: name.to_string(), comment: None }
}

fn item(id: i64, name: &str, location_id: Option<i64>) -> Item {
    Item { id, name: name.to_string(), comment: None, location_id }
}

#[test]
fn duplicate_ids_are_refused_and_fresh_ids_accepted() {
    let mut inv = Inventory::open_in_memory().unwrap();
    assert_eq!(inv.add_location(&location(1, "a")), Ok(()));
    assert_eq!(inv.add_location(&location(1, "b")), Err(StoreError::DuplicateId));
    assert_eq!(inv.add_location(&location(2, "b")), Ok(()));
    assert_eq!(inv.search_location_id(1), Some(location(1, "a")));

    assert_eq!(inv.add_item(&item(10, "x", None)), Ok(()));
    assert_eq!(inv.add_item(&item(10, "y", None)), Err(StoreError::DuplicateId));
    assert_eq!(inv.add_item(&item(11, "y", None)), Ok(()));
    assert_eq!(inv.search_item_id(10), Some(item(10, "x", None)));
}

#[test]
fn dangling_location_references_are_refused() {
    let mut inv = Inventory::open_in_memory().unwrap();
    assert_eq!(inv.add_location(&location(1, "a")), Ok(()));
    assert_eq!(inv.add_item(&item(10, "x", Some(7))), Err(StoreError::UnknownLocation));
    assert_eq!(inv.search_item_id(10), None);
    assert_eq!(inv.add_item(&item(10, "x", Some(1))), Ok(()));
    assert_eq!(inv.edit_item(&item(10, "z", Some(7))), Err(StoreError::UnknownLocation));
    assert_eq!(inv.search_item_id(10), Some(item(10, "x", Some(1))));
}

#[test]
fn editing_unknown_ids_is_refused() {
    let mut inv = Inventory::open_in_memory().unwrap();
    assert_eq!(inv.edit_location(&location(5, "a")), Err(StoreError::UnknownId));
    assert_eq!(inv.edit_item(&item(5, "a", None)), Err(StoreError::UnknownId));
    assert_eq!(inv.get_all_locations(), Ok(vec![]));
    assert_eq!(inv.get_all_items(), Ok(vec![]));
}

#[test]
fn listings_come_in_ascending_id_order() {
    let mut inv = Inventory::open_in_memory().unwrap();
    for id in [30, 10, 20] {
        assert!(inv.add_location(&location(id, "loc")).is_ok());
        assert!(inv.add_item(&item(id + 100, "it", Some(id))).is_ok());
    }
    let ids: Vec<i64> = inv.get_all_locations().unwrap().iter().map(|l| l.id).collect();
    assert_eq!(ids, vec![10, 20, 30]);
    let ids: Vec<i64> = inv.get_all_items().unwrap().iter().map(|i| i.id).collect();
    assert_eq!(ids, vec![110, 120, 130]);
    let ids: Vec<i64> = inv.items_by_location_id(20).unwrap().iter().map(|i| i.id).collect();
    assert_eq!(ids, vec![120]);
    assert_eq!(inv.items_by_location_id(99), Ok(vec![]));
}

#[test]
fn search_matches_comments_and_ignores_case() {
    let mut inv = Inventory::open_in_memory().unwrap();
    let l = Location { id: 1, name: "Shelf".to_string(), comment: Some("Top DRAWER".to_string()) };
    assert!(inv.add_location(&l).is_ok());
    assert_eq!(inv.search_locations("drawer").unwrap().len(), 1);
    assert_eq!(inv.search_locations("SHELF").unwrap().len(), 1);
    assert_eq!(inv.search_locations("").unwrap().len(), 1);
    assert_eq!(inv.search_locations("shelves").unwrap().len(), 0);
    let i = Item { id: 2, name: "Bolt".to_string(), comment: Some("M4 Steel".to_string()), location_id: None };
    assert!(inv.add_item(&i).is_ok());
    assert_eq!(inv.search_items("m4 steel").unwrap(), vec![i]);
    assert_eq!(inv.search_items("m5").unwrap(), vec![]);
}

#[test]
fn opening_an_unreachable_file_is_a_storage_fault() {
    let r = Inventory::open_in_file("/nonexistent-directory/inventory.db");
    assert!(matches!(r, Err(StoreError::Storage(_))));
}
