//! Terminal dashboard logic: the editor buffer, the entity navigator,
//! persisted display state and panel/tab decisions.
pub mod app;
pub mod editor;
pub mod navigator;
pub mod state;
