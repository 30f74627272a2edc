pub mod carousel;
pub mod commands;
pub mod components;
pub mod date;
pub mod entity;
pub mod handler;
pub mod ids;
pub mod season_type;
pub mod service;
pub mod text;
