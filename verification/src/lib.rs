//! Pure logic of the `ps` PowerShell utilities: path and text handling,
//! parsers for tool output, menu state machines and PowerShell script
//! generation.

pub mod text;
pub mod num;
pub mod quote;
pub mod sort;
pub mod paths;
pub mod netstat;
pub mod ports;
pub mod ports_menu;
pub mod config;
pub mod profile_text;
pub mod profile;
pub mod shortcut;
pub mod shell_module;
pub mod workspaces;
pub mod keys;
pub mod loading;
pub mod picker;
pub mod menu;
pub mod path_menu;
pub mod history;
pub mod envs;
pub mod procs;
pub mod doctor;
pub mod archive;
