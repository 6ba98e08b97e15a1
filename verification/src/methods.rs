pub mod get_updates;
