//! Command and menu-event logic for a desktop shell that hosts a web front end.
//!
//! `greeting` holds the one command the front end may invoke; `devtools` holds
//! the decision made when a menu item is activated, kept apart from the window
//! system that carries it out.

mod devtools;
mod greeting;

pub use devtools::{
    action_for, apply_action, flipped, is_toggle_devtools, lemma_missing_surface_unchanged,
    lemma_toggle_twice, lemma_unknown_id_ignored, menu_action, on_menu_event, state_after,
    toggle_devtools_id, view_menu, DevtoolsState, MenuAction, MenuEntry, Submenu,
};
pub use greeting::{greet, greeting_text, lemma_greet_deterministic, lemma_greeting_holds_name};
