pub mod download;
pub mod settings;
pub mod store;
pub mod strutil;
pub mod tray;
pub mod url_policy;
pub mod window;
