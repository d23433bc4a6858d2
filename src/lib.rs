//! Control core of a video player: picture placement, transport commands,
//! and the per-tick decisions of the render loop.
pub mod display;
pub mod session;
pub mod transport;
