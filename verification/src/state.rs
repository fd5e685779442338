pub mod app_state;
pub mod data_types;
