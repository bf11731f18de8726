//! The decision-making core of a tiling window manager: layout geometry,
//! per-tag state, configuration, the IPC protocol and the status-bar frontend,
//! each stated as a contract over plain values.
pub mod actions;
pub mod animation;
pub mod bar;
pub mod catalog;
pub mod command_line;
pub mod commands;
pub mod config;
pub mod doctor;
pub mod geometry;
pub mod ieee;
pub mod ipc;
pub mod ipc_server;
pub mod json;
pub mod layout;
pub mod maximize;
pub mod message;
pub mod models;
pub mod terminals;
pub mod text;
pub mod vocabulary;
pub mod workspace;
