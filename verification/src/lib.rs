//! Core of a command-line tool that cuts silence out of recordings with FFmpeg
//! and, on request, turns the cleaned speech into text.

pub mod text;
pub mod paths;
pub mod format;
pub mod config;
pub mod output;
pub mod cli;
pub mod tools;
pub mod speech;
pub mod editor;
pub mod media;
pub mod setup;
pub mod usage;
pub mod dialog;
pub mod job;
