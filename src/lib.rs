//! Desktop wallpaper control on Linux: which desktop family is running, which
//! settings command reads or writes its wallpaper, and how the values those
//! settings stores hold are quoted and unquoted.
pub mod text;
pub mod desktop;
pub mod error;
pub mod codec;
pub mod command;
pub mod plan;
pub mod xfce;
pub mod config;
