//! Render-to-texture task pipeline: a verified model of the lifecycle that
//! drives an off-screen capture from registration to delivered pixels.
//!
//! The crate owns the logic of the pipeline — the task state machine, the
//! single-slot cross-stage channel, and the row-depadding of mapped GPU
//! buffers — as plain data with contracts. The rendering host performs the
//! engine effects (spawning cameras and capture entities, mapping GPU
//! buffers) and hands this library plain values: byte buffers, sizes and
//! opaque entity handles.

pub mod channel;
pub mod fetch;
pub mod laws;
pub mod machine;
pub mod render;
pub mod target;
pub mod task;

pub use channel::ExtractableImages;
pub use channel::sync_images;
pub use fetch::store_in_img;
pub use machine::update_render_to_texture;
pub use render::DisplayableImage;
pub use render::RenderToTextureTasks;
pub use target::create_render_texture;
pub use task::RenderToTextureTask;
pub use task::RenderToTextureTaskStage;
