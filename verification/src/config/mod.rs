//! Configuration: the document, its built-in values, the key and button
//! bindings it compiles to, live overrides, and semantic diagnostics.
pub mod access;
pub mod bindings;
pub mod checks;
pub mod defaults;
pub mod diagnostics;
pub mod document;
pub mod files;
pub mod findings;
pub mod hot;
pub mod laws;
pub mod literals;
pub mod overrides;
pub mod passing;
pub mod types;
pub mod validation;

pub use types::{
    AnimationConfig, AppearanceConfig, ArgumentConfig, BackendFamily, BehaviorConfig, ButtonConfig, ChordConfig, ClientMoveResize, ColorsConfig, Config, GestureSwipeConfig, KeyBindingsConfig, KeyConfig, LayoutConfig, LayoutTagConfig, MouseBindingsConfig, NewClientPosition, RuleConfig, StatusBarConfig, TomlConfig, WallpaperMonitorConfig, WallpaperTagConfig,
};
