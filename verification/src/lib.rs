//! Folder navigation, natural ordering, load scheduling and decoding logic
//! of an image viewer.
pub mod paths;
pub mod natural;
pub mod navigation;
pub mod config;
pub mod controls;
pub mod pipeline;
pub mod decoder;
pub mod cache;
pub mod canvas;
pub mod filmstrip;
pub mod settings_dialog;
