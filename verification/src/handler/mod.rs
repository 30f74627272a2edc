//! The interaction handlers: what each decides from the interaction and the answers
//! it has collected.
pub mod add_members;
pub mod current_season;
pub mod interaction;
pub mod register_org;
pub mod welcome;
pub mod create_season;
