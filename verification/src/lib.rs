//! Thunderclap: the decision logic of a widget toolkit (interaction state machines,
//! text editing, event routing, layout bookkeeping and theme lookups), each function with its
//! contract proved.

pub mod base;
pub mod clip;
pub mod draw;
pub mod geom;
pub mod input;
pub mod layout;
pub mod pipe;
pub mod state;
pub mod text;
pub mod themes;
pub mod ui;
pub mod widgets;
