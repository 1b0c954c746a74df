//! Verified core of `gmux`, a terminal Git workflow tool: configuration rules,
//! branch naming, the per-branch sync and merge procedures, the GitLab request
//! plans and the state of the interactive menus.

pub mod text;
pub mod order;
pub mod config;
pub mod git;
pub mod project;
pub mod gitlab;
pub mod tui;
pub mod workflow;
pub mod navigation;
pub mod menus;
