//! Reading-progress tracker core: the configuration model, the decoding step
//! of the document loader, and the lock-guarded session state.

pub mod settings;
pub mod novel;
pub mod app_state;
pub mod commands;
pub mod tray;
