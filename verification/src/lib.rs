//! A walking, jumping sprite drawn as an overlay surface: the animation state
//! machine, the pool of pixel buffers shared with the compositor, and the
//! pipeline that publishes one frame per pacing tick.

pub mod animation;
pub mod argb;
pub mod fps;
pub mod frame;
pub mod jump;
pub mod pipeline;
pub mod pool;
pub mod walk;
