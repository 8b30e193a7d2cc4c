//! Interception layer for a graphics API's command submission: tracks the
//! device and swapchain textures, and injects a marker command buffer in
//! front of every submitted command list.
//!
//! The library holds the decisions. A host shim that owns the real hooks and
//! the real graphics objects asks it what to do at each intercepted call,
//! performs that, and hands the outcome back.
mod command;
mod injector;
mod mempool;
mod resolver;
mod ring;
mod tracker;

pub use command::{
    recording_of, reset_reuses_without_initialize, run, step, BufferState, ColorMask, Command,
    CommandBuffer, CommandBufferError, CommandHandle, Op, Rect,
};
pub use mempool::{MemPool, PoolError, PoolFlags, Region, PAGE_SIZE};
pub use resolver::{
    after_resolved, bytes_equal, device_initialize_name, is_device_initialize, resolution,
    resolve_twice_hooks_once, Resolution, Resolver, DEVICE_INITIALIZE, QUEUE_SUBMIT_COMMANDS,
    WINDOW_ACQUIRE_TEXTURE, WINDOW_BUILDER_SET_TEXTURES,
};
pub use tracker::{texture_at, StateTracker};
pub use ring::{
    command_pool_flags, marker_commands, marker_mask, marker_rect, record_transient,
    slot_for, slot_region, spec_marker_mask, spec_marker_rect, spec_slot_for, CommandRing,
    COMMAND_SIZE, CONTROL_SIZE, RING_SIZE,
};
pub use injector::{
    forwarded, forwarded_handles, in_bounds_injects_one, injected_texture, ring_slots_cycle,
    stale_index_passes_through, unbound_passes_through, InitError, Interceptor, Mode, Submission,
};
