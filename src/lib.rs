//! Verified core of a small 2D sprite engine.
//!
//! The GPU work of rendering (device calls, command recording, presentation)
//! is performed by the caller; this library takes the decisions that drive
//! it and proves them:
//! - `backend`: the frame-synchronisation ring with its fences, swapchain
//!   rebuild scheduling, instance-buffer placement and texture ids;
//! - `swapchain`: device selection and swapchain parameters;
//! - `sprite`, `batch`: texture ids and per-frame batching of sprites;
//! - `scene`, `input`, `timer`: the bookkeeping the scene layer builds on.

pub mod backend;
pub mod batch;
pub mod id_map;
pub mod input;
pub mod scene;
pub mod sprite;
pub mod swapchain;
pub mod timer;

pub use backend::{
    is_rgba8_len, AcquireOutcome, BackendState, BeginPlan, DrawCall, FenceState, Phase,
    RecordPlan, SubmitPlan, INSTANCE_BUFFER_SIZE, INSTANCE_SIZE, MAX_FRAMES_IN_FLIGHT,
    MAX_SPRITES, MAX_TEXTURES, VERTEX_COUNT,
};
pub use batch::{group_by_texture, Batch};
pub use input::InputState;
pub use scene::{EntityId, SceneKey, SceneTable, NO_SCENE};
pub use sprite::{TextureId, TextureMeta, TextureRegistry};
pub use swapchain::{
    choose_swapchain, extent_for, image_count_for, present_mode_for, select_device,
    swapchain_plan, transform_for, Extent, QueueFamily, SurfaceCaps, SwapchainConfig,
    SwapchainStep, PRESENT_MODE_FIFO, PRESENT_MODE_MAILBOX, TRANSFORM_IDENTITY,
    UNDEFINED_EXTENT_WIDTH,
};
pub use timer::{Duration, Timer, TimerMode};
