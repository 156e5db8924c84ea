pub mod initialize;
pub mod list;
pub mod delist;
pub mod purchase;
