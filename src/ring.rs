use vstd::prelude::*;
use crate::command::{BufferState, ColorMask, Command, CommandBuffer, CommandHandle, Rect};
use crate::mempool::{MemPool, PoolFlags, Region, PAGE_SIZE};

verus! {

/// Number of reusable command buffers, one per frame in flight.
pub const RING_SIZE: usize = 3;

/// Bytes of command storage for each buffer of the ring.
pub const COMMAND_SIZE: usize = 0x1000;

/// Bytes of control memory for each command buffer.
pub const CONTROL_SIZE: usize = 0x1000;

pub open spec fn spec_marker_rect() -> Rect {
    Rect { x: 0, y: 0, width: 420, height: 420 }
}

pub open spec fn spec_marker_mask() -> ColorMask {
    ColorMask { r: true, g: true, b: true, a: false }
}

/// The marker drawn into `texture`: bind it as the sole render target,
/// scissor and viewport to a fixed rectangle, clear target 0 on the red,
/// green and blue channels.
pub open spec fn marker_commands(texture: u64) -> Seq<Command> {
    seq![
        Command::SetRenderTarget(texture),
        Command::SetScissor(spec_marker_rect()),
        Command::SetViewport(spec_marker_rect()),
        Command::ClearColor { target: 0, mask: spec_marker_mask() },
    ]
}

/// The rectangle that the marker covers.
pub fn marker_rect() -> (r: Rect)
    ensures
        r == spec_marker_rect(),
{
    Rect { x: 0, y: 0, width: 420, height: 420 }
}

/// The channels that the marker clears.
pub fn marker_mask() -> (r: ColorMask)
    ensures
        r == spec_marker_mask(),
{
    ColorMask { r: true, g: true, b: true, a: false }
}

/// Cache behaviour of the pools that hold injected commands: uncached on
/// the CPU, cached on the GPU.
pub fn command_pool_flags() -> (r: PoolFlags)
    ensures
        r == (PoolFlags { cpu_uncached: true, gpu_cached: true }),
{
    PoolFlags { cpu_uncached: true, gpu_cached: true }
}

/// The region of the ring's pool that slot `i` records into.
pub open spec fn slot_region(i: int) -> Region {
    Region { start: (i * COMMAND_SIZE) as usize, end: ((i + 1) * COMMAND_SIZE) as usize }
}

/// The ring slot used for the frame at `index`.
pub open spec fn spec_slot_for(index: int) -> int {
    index % (RING_SIZE as int)
}

/// The ring slot used for the frame at `index`.
pub fn slot_for(index: usize) -> (r: usize)
    ensures
        r == spec_slot_for(index as int),
        r < RING_SIZE,
{
    index % RING_SIZE
}

/// Records the marker for `texture` into a ready buffer and ends it.
fn record_marker(buf: &mut CommandBuffer, texture: u64) -> (h: CommandHandle)
    requires
        old(buf).state == BufferState::Ready,
    ensures
        h.commands@ == marker_commands(texture),
        final(buf).state == BufferState::Recorded,
        final(buf).commands@ == marker_commands(texture),
        final(buf).command_memory == old(buf).command_memory,
        final(buf).control_size == old(buf).control_size,
{
    buf.begin_recording();
    buf.set_render_target(texture);
    buf.set_scissor(marker_rect());
    buf.set_viewport(marker_rect());
    buf.clear_color(0, marker_mask());
    assert(buf.commands@ =~= marker_commands(texture));
    buf.end_recording()
}

/// Builds the marker for `texture` in a buffer of its own over a fresh
/// one-page pool, then releases the buffer.
pub fn record_transient(texture: u64) -> (h: CommandHandle)
    ensures
        h.commands@ == marker_commands(texture),
{
    let mut pool = match MemPool::create(PAGE_SIZE, command_pool_flags()) {
        Ok(p) => p,
        Err(_) => {
            assert(false);
            return CommandHandle { commands: Vec::new() };
        },
    };
    let region = match pool.reserve_region(COMMAND_SIZE) {
        Some(r) => r,
        None => {
            assert(false);
            return CommandHandle { commands: Vec::new() };
        },
    };
    let mut buf = CommandBuffer::new();
    buf.bind_command_memory(region);
    buf.bind_control_memory(CONTROL_SIZE);
    let init = buf.initialize();
    if init.is_err() {
        assert(false);
        return CommandHandle { commands: Vec::new() };
    }
    let h = record_marker(&mut buf, texture);
    buf.finalize();
    h
}

/// A fixed ring of command buffers over one pool, each bound to its own
/// page of the pool, reused frame after frame.
#[derive(Debug)]
pub struct CommandRing {
    pub pool: MemPool,
    pub buffers: Vec<CommandBuffer>,
}

impl CommandRing {
    pub open spec fn wf(&self) -> bool {
        &&& self.pool.wf()
        &&& self.pool.size == RING_SIZE * COMMAND_SIZE
        &&& self.pool.reserved == self.pool.size
        &&& self.buffers@.len() == RING_SIZE
        &&& forall|i: int|
            0 <= i < RING_SIZE ==> {
                &&& (#[trigger] self.buffers@[i]).command_memory == Some(slot_region(i))
                &&& self.buffers@[i].control_size == CONTROL_SIZE
                &&& self.buffers@[i].state != BufferState::Uninitialized
                &&& self.buffers@[i].state != BufferState::Recording
            }
    }

    /// Creates the pool, reserves one page per slot, and initializes a
    /// command buffer on each. None of these steps can fail at these sizes.
    pub fn new() -> (r: CommandRing)
        ensures
            r.wf(),
            forall|i: int|
                0 <= i < RING_SIZE ==> (#[trigger] r.buffers@[i]).state == BufferState::Ready,
    {
        let mut pool = match MemPool::create(RING_SIZE * COMMAND_SIZE, command_pool_flags()) {
            Ok(p) => p,
            Err(_) => {
                assert(false);
                let pool = MemPool { size: 0, flags: command_pool_flags(), reserved: 0 };
                return CommandRing { pool, buffers: Vec::new() };
            },
        };
        let mut buffers: Vec<CommandBuffer> = Vec::new();
        let mut i: usize = 0;
        while i < RING_SIZE
            invariant
                i <= RING_SIZE,
                pool.wf(),
                pool.size == RING_SIZE * COMMAND_SIZE,
                pool.reserved == i * COMMAND_SIZE,
                buffers@.len() == i,
                forall|j: int|
                    0 <= j < i ==> {
                        &&& (#[trigger] buffers@[j]).command_memory == Some(slot_region(j))
                        &&& buffers@[j].control_size == CONTROL_SIZE
                        &&& buffers@[j].state == BufferState::Ready
                    },
            decreases RING_SIZE - i,
        {
            let region = match pool.reserve_region(COMMAND_SIZE) {
                Some(r) => r,
                None => {
                    assert(false);
                    return CommandRing { pool, buffers };
                },
            };
            let mut buf = CommandBuffer::new();
            buf.bind_command_memory(region);
            buf.bind_control_memory(CONTROL_SIZE);
            let init = buf.initialize();
            if init.is_err() {
                assert(false);
                return CommandRing { pool, buffers };
            }
            buffers.push(buf);
            i += 1;
        }
        CommandRing { pool, buffers }
    }

    /// Resets the buffer of `slot`, records the marker for `texture` into it
    /// and ends it. The other slots are left as they were.
    pub fn record_slot(&mut self, slot: usize, texture: u64) -> (h: CommandHandle)
        requires
            old(self).wf(),
            slot < RING_SIZE,
        ensures
            final(self).wf(),
            h.commands@ == marker_commands(texture),
            final(self).buffers@[slot as int].commands@ == marker_commands(texture),
            final(self).buffers@[slot as int].state == BufferState::Recorded,
            forall|j: int|
                0 <= j < RING_SIZE && j != slot ==> #[trigger] final(self).buffers@[j]
                    == old(self).buffers@[j],
            final(self).pool == old(self).pool,
    {
        self.buffers[slot].reset();
        let h = record_marker(&mut self.buffers[slot], texture);
        h
    }
}

} // verus!
