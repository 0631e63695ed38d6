//! Coordination logic for a two-part machine emulator: the byte relay between
//! the processor side and the peripheral module, frame pacing, display-mode
//! tracking and host input translation.

pub mod pacing;
pub mod display;
pub mod input;
pub mod presenter;
pub mod channel;
pub mod relay;
pub mod binding;
