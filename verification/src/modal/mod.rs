//! Modals: the container with its size and position rules, dialogs and how
//! they are drawn, and what the modal stack hands back.

pub mod container;
pub mod dialog;
pub mod dialog_view;
pub mod stack;
