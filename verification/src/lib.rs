//! Backend logic of a desktop media-playback companion: locating an
//! external video player on the running system, planning its launch,
//! building the route and label for a secondary playback window, and
//! packaging playback-progress reports for broadcast.

pub mod errors;
pub mod locator;
pub mod progress;
pub mod route;
