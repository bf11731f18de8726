//! The status bar: its model, the runtime that changes it, the frontends that
//! it is delivered to and the controls that it is shown as.
pub mod controls;
pub mod frontend;
pub mod laws;
pub mod model;
pub mod presentation;
pub mod runtime;
