pub mod catalog;
pub mod manifest;
pub mod delete;
pub mod tag;
pub mod migrate;
pub mod gc;
