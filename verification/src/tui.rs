//! State of the interactive screens: what each key press does to a text
//! input, a menu, a checklist and the directory browser.

pub mod key;
pub mod input;
pub mod list;
pub mod menu;
pub mod checklist;
pub mod browser;
