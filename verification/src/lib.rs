//! Per-output wallpaper surface controller: tracks compositor resize/close
//! notifications, decides when a redraw is due, fixes the geometry and pool
//! size of each draw pass, performs the resize-and-fill step, and lays out
//! the protocol command sequences a driver must play.

pub mod errors;
pub mod event;
pub mod output;
pub mod protocol;
pub mod raster;
pub mod select;
pub mod surface;
pub mod timer;
