//! Stock keeping for a small retail store: products on hand, and the sales
//! and supplier purchases that move them.
//!
//! Money is held as whole cents throughout.

pub mod inventory;
pub mod menu;
pub mod security;
pub mod text;
pub mod transactions;

pub use inventory::{report_inventory, Inventory, Product};
pub use security::{Role, User};
pub use transactions::{report_purchases, report_sales, Purchase, Sale, StoreError, Transactions};
