//! Core of a Discord bot that runs ink stories: the reply rule for chat
//! commands and the data model of a parsed story's knots.

pub mod commands;
pub mod story;
