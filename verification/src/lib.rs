//! Verified core of a projectM visualizer front end: settings resolution,
//! menu-bar state, and the decisions taken by the event and render loops.

pub mod text;
pub mod settings;
pub mod menu_bar;
pub mod main_loop;
pub mod video;
pub mod playlist;
pub mod audio;
