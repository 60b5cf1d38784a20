//! An inventory record service: stored items with soft deletion, the
//! statements that read and write them, and the mapping of each statement's
//! outcome to an HTTP response.

pub mod handlers;
pub mod item;
pub mod laws;
pub mod table;

pub use handlers::{create_item, delete_item, get_item, get_items, update_item, Body, Response};
pub use item::{Item, NewItem};
pub use table::{ItemTable, StoreError};
