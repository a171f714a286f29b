pub mod child;
pub mod commands;
pub mod data_row;
pub(crate) mod ext;
pub mod generic_tui;
pub mod pet;
pub mod render;
pub mod store;
pub mod text;
