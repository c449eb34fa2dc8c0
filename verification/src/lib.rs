//! Wi-Fi and VPN in the terminal: what NetworkManager says, put in order,
//! and what to ask of it next.

pub mod air;
pub mod better;
pub mod better_laws;
pub mod bus;
pub mod cells;
pub mod nm;
pub mod nm_laws;
pub mod order;
pub mod reading;
pub mod reading_laws;
pub mod roam;
pub mod roam_laws;
pub mod roam_steps;
pub mod screen;
pub mod screen_laws;
pub mod term;
pub mod text;
pub mod text_laws;
pub mod watch;
pub mod watch_laws;
pub mod watcher;
pub mod watcher_laws;
pub mod watcher_steps;
pub mod width;
