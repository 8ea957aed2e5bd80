pub mod applet;
pub mod create_location;
pub mod create_item;
pub mod edit_location;
pub mod edit_item;
pub mod item_lookup;
pub mod location_lookup;
pub mod error;
pub mod top_menu;
pub mod list_locations;
pub mod list_items;
