pub mod action;
pub mod events;
pub mod input;
pub mod state;
pub mod update;
pub mod widgets;
