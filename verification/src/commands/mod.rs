//! The slash commands: what each decides from what it has read.
pub mod components;
pub mod data;
pub mod member;
pub mod org;
pub mod season;
pub mod season_helpers;
pub mod user;
