//! What the pipeline knows of the application it dictates into.

pub mod tray;
