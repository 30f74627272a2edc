//! The interactive pieces the bot sends (modals, text inputs, buttons, select menus):
//! the custom ids that name them and the parsers that read those ids back.
pub mod button;
pub mod input_text;
pub mod modal;
pub mod select_menu;

pub use button::{Button, ButtonStyle};
pub use input_text::InputText;
pub use modal::Modal;
pub use select_menu::{SelectMenu, SelectMenuKind, SelectOption};
