//! The model of a terminal client for a music player, and what changes it:
//! moving about in lists, searching them as the user types, handling the
//! messages of each screen, and dividing the frame into regions.

pub mod config;
pub mod event_handler;
pub mod model;
pub mod update;
pub mod util;
pub mod view;
