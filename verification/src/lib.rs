pub mod cli;
pub mod config;
pub mod context_menu;
pub mod gamedb;
pub mod integrate;
pub mod launch;
pub mod logging;
pub mod prefix;
pub mod proton;
pub mod quick_launch_cmd;
pub mod running;
pub mod steam_shortcut;
pub mod strmap;
pub mod sunshine;
pub mod terminal;
pub mod text;
pub mod updater;
pub mod tui;
