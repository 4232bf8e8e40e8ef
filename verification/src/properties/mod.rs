pub mod config_tree;
pub mod configuration_error;
pub mod configuration_loader;
pub mod path;
pub mod source;
