use nvn_research::{
    record_transient, BufferState, ColorMask, Command, CommandBuffer, CommandBufferError,
    CommandRing, MemPool, PoolError, PoolFlags, Rect, Region, COMMAND_SIZE, PAGE_SIZE, RING_SIZE,
};

fn flags() -> PoolFlags {
    PoolFlags { cpu_uncached: true, gpu_cached: true }
}

#[test]
fn pool_rejects_empty_and_unaligned_sizes() {
    assert_eq!(MemPool::create(0, flags()).unwrap_err(), PoolError::Empty);
    assert_eq!(MemPool::create(100, flags()).unwrap_err(), PoolError::Unaligned);
    assert_eq!(MemPool::create(PAGE_SIZE + 1, flags()).unwrap_err(), PoolError::Unaligned);
}

#[test]
fn pool_hands_out_disjoint_regions_until_full() {
    let mut pool = MemPool::create(2 * PAGE_SIZE, flags()).unwrap();
    let a = pool.reserve_region(0x1000).unwrap();
    let b = pool.reserve_region(0x800).unwrap();
    assert_eq!(a, Region { start: 0, end: 0x1000 });
    assert_eq!(b, Region { start: 0x1000, end: 0x1800 });
    assert_eq!(b.size(), 0x800);
    assert_eq!(pool.reserve_region(0x801), None);
    assert_eq!(pool.reserve_region(0x800), Some(Region { start: 0x1800, end: 0x2000 }));
    assert_eq!(pool.reserve_region(1), None);
}

fn ready_buffer() -> CommandBuffer {
    let mut buf = CommandBuffer::new();
    buf.bind_command_memory(Region { start: 0, end: 0x1000 });
    buf.bind_control_memory(0x1000);
    buf.initialize().unwrap();
    buf
}

#[test]
fn initialize_reports_missing_memory() {
    let mut buf = CommandBuffer::new();
    assert_eq!(buf.initialize(), Err(CommandBufferError::NoCommandMemory));
    buf.bind_command_memory(Region { start: 0, end: 0x1000 });
    assert_eq!(buf.initialize(), Err(CommandBufferError::NoControlMemory));
    buf.bind_control_memory(0x1000);
    assert_eq!(buf.initialize(), Ok(()));
    assert_eq!(buf.state, BufferState::Ready);
    assert_eq!(buf.initialize(), Err(CommandBufferError::AlreadyInitialized));
}

#[test]
fn reset_allows_recording_again_without_initialize() {
    let mut buf = ready_buffer();
    buf.begin_recording();
    buf.set_render_target(1);
    let first = buf.end_recording();
    assert_eq!(first.commands, vec![Command::SetRenderTarget(1)]);
    buf.reset();
    assert_eq!(buf.state, BufferState::Ready);
    assert!(buf.commands.is_empty());
    buf.begin_recording();
    let rect = Rect { x: 1, y: 2, width: 3, height: 4 };
    buf.set_scissor(rect);
    buf.set_viewport(rect);
    let mask = ColorMask { r: false, g: true, b: false, a: true };
    buf.clear_color(2, mask);
    let second = buf.end_recording();
    assert_eq!(
        second.commands,
        vec![Command::SetScissor(rect), Command::SetViewport(rect), Command::ClearColor { target: 2, mask }]
    );
    assert_eq!(buf.state, BufferState::Recorded);
}

#[test]
fn finalize_releases_memory() {
    let mut buf = ready_buffer();
    buf.finalize();
    assert_eq!(buf.state, BufferState::Uninitialized);
    assert_eq!(buf.command_memory, None);
    assert_eq!(buf.control_size, 0);
}

#[test]
fn ring_slots_own_consecutive_pages() {
    let ring = CommandRing::new();
    assert_eq!(ring.buffers.len(), RING_SIZE);
    assert_eq!(ring.pool.size, RING_SIZE * COMMAND_SIZE);
    for (i, buf) in ring.buffers.iter().enumerate() {
        assert_eq!(buf.command_memory, Some(Region { start: i * COMMAND_SIZE, end: (i + 1) * COMMAND_SIZE }));
        assert_eq!(buf.state, BufferState::Ready);
    }
}

#[test]
fn transient_marker_binds_the_texture() {
    let h = record_transient(0xBEEF);
    assert_eq!(h.commands.len(), 4);
    assert_eq!(h.commands[0], Command::SetRenderTarget(0xBEEF));
}
