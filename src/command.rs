use vstd::prelude::*;
use crate::mempool::Region;

verus! {

/// A rectangle in pixels, used for scissor and viewport.
#[derive(Clone, Copy, Debug, PartialEq, Eq, Structural)]
pub struct Rect {
    pub x: i32,
    pub y: i32,
    pub width: i32,
    pub height: i32,
}

/// Which colour channels a clear writes.
#[derive(Clone, Copy, Debug, PartialEq, Eq, Structural)]
pub struct ColorMask {
    pub r: bool,
    pub g: bool,
    pub b: bool,
    pub a: bool,
}

/// One command recorded into a command buffer. Texture references are opaque
/// handles owned by the application.
#[derive(Clone, Copy, Debug, PartialEq, Eq, Structural)]
pub enum Command {
    /// Bind one texture as the sole colour render target.
    SetRenderTarget(u64),
    SetScissor(Rect),
    SetViewport(Rect),
    /// Clear colour target `target` on the channels of `mask`.
    ClearColor { target: u32, mask: ColorMask },
}

/// Lifecycle of a command buffer.
#[derive(Clone, Copy, Debug, PartialEq, Eq, Structural)]
pub enum BufferState {
    /// Created; memory may still be missing.
    Uninitialized,
    /// Ready to begin recording.
    Ready,
    /// Between `begin_recording` and `end_recording`.
    Recording,
    /// Recording ended; its handle has been handed out.
    Recorded,
}

/// Why a command buffer could not be initialized.
#[derive(Clone, Copy, Debug, PartialEq, Eq, Structural)]
pub enum CommandBufferError {
    /// No command memory region has been bound.
    NoCommandMemory,
    /// No control memory block has been bound.
    NoControlMemory,
    /// `initialize` was called twice.
    AlreadyInitialized,
}

/// An operation on a command buffer, for the lifecycle model.
#[derive(Clone, Copy, Debug, PartialEq, Eq, Structural)]
pub enum Op {
    Initialize,
    Begin,
    Record(Command),
    End,
    Reset,
    Finalize,
}

/// The lifecycle as a transition function on (state, commands): `None`
/// where the operation is not allowed in that state.
pub open spec fn step(state: BufferState, commands: Seq<Command>, op: Op) -> Option<
    (BufferState, Seq<Command>),
> {
    match op {
        Op::Initialize => if state == BufferState::Uninitialized {
            Some((BufferState::Ready, Seq::empty()))
        } else {
            None
        },
        Op::Begin => if state == BufferState::Ready {
            Some((BufferState::Recording, Seq::empty()))
        } else {
            None
        },
        Op::Record(c) => if state == BufferState::Recording {
            Some((BufferState::Recording, commands.push(c)))
        } else {
            None
        },
        Op::End => if state == BufferState::Recording {
            Some((BufferState::Recorded, commands))
        } else {
            None
        },
        Op::Reset => if state != BufferState::Uninitialized {
            Some((BufferState::Ready, Seq::empty()))
        } else {
            None
        },
        Op::Finalize => if state != BufferState::Recording {
            Some((BufferState::Uninitialized, Seq::empty()))
        } else {
            None
        },
    }
}

/// Runs `ops` in order from (state, commands); `None` as soon as one is not
/// allowed.
pub open spec fn run(state: BufferState, commands: Seq<Command>, ops: Seq<Op>) -> Option<
    (BufferState, Seq<Command>),
>
    decreases ops.len(),
{
    if ops.len() == 0 {
        Some((state, commands))
    } else {
        match step(state, commands, ops[0]) {
            Some((s, c)) => run(s, c, ops.drop_first()),
            None => None,
        }
    }
}

/// The operations that record `cmds` as one handle: begin, each command,
/// end.
pub open spec fn recording_of(cmds: Seq<Command>) -> Seq<Op> {
    seq![Op::Begin] + cmds.map_values(|c: Command| Op::Record(c)) + seq![Op::End]
}

proof fn run_concat(state: BufferState, commands: Seq<Command>, a: Seq<Op>, b: Seq<Op>)
    ensures
        run(state, commands, a + b) == match run(state, commands, a) {
            Some((s, c)) => run(s, c, b),
            None => None,
        },
    decreases a.len(),
{
    if a.len() > 0 {
        assert((a + b).drop_first() =~= a.drop_first() + b);
        assert((a + b)[0] == a[0]);
        match step(state, commands, a[0]) {
            Some((s, c)) => run_concat(s, c, a.drop_first(), b),
            None => {},
        }
    } else {
        assert(a + b =~= b);
    }
}

proof fn run_records(commands: Seq<Command>, cmds: Seq<Command>)
    ensures
        run(BufferState::Recording, commands, cmds.map_values(|c: Command| Op::Record(c)))
            == Some((BufferState::Recording, commands + cmds)),
    decreases cmds.len(),
{
    let ops = cmds.map_values(|c: Command| Op::Record(c));
    if cmds.len() == 0 {
        assert(commands + cmds =~= commands);
    } else {
        assert(ops[0] == Op::Record(cmds[0]));
        assert(ops.drop_first() =~= cmds.drop_first().map_values(|c: Command| Op::Record(c)));
        run_records(commands.push(cmds[0]), cmds.drop_first());
        assert(commands.push(cmds[0]) + cmds.drop_first() =~= commands + cmds);
    }
}

proof fn run_recording(state: BufferState, commands: Seq<Command>, cmds: Seq<Command>)
    requires
        state == BufferState::Ready,
    ensures
        run(state, commands, recording_of(cmds)) == Some((BufferState::Recorded, cmds)),
{
    let records = cmds.map_values(|c: Command| Op::Record(c));
    run_concat(state, commands, seq![Op::Begin] + records, seq![Op::End]);
    run_concat(state, commands, seq![Op::Begin], records);
    assert(seq![Op::Begin].drop_first() =~= Seq::<Op>::empty());
    run_records(Seq::empty(), cmds);
    assert(Seq::<Command>::empty() + cmds =~= cmds);
    assert(seq![Op::End].drop_first() =~= Seq::<Op>::empty());
    reveal_with_fuel(run, 2);
    assert(run(state, commands, seq![Op::Begin]) == Some(
        (BufferState::Recording, Seq::<Command>::empty()),
    ));
    assert(run(BufferState::Recording, cmds, seq![Op::End]) == Some((BufferState::Recorded, cmds)));
}

/// A ready buffer that records and ends one handle, is reset, and records
/// and ends another, is never asked to initialize again: every step is
/// allowed, and each handle holds exactly the commands of its own
/// recording, nothing of the one before.
pub proof fn reset_reuses_without_initialize(first: Seq<Command>, second: Seq<Command>)
    ensures
        run(BufferState::Ready, Seq::empty(), recording_of(first)) == Some(
            (BufferState::Recorded, first),
        ),
        run(
            BufferState::Ready,
            Seq::empty(),
            recording_of(first) + seq![Op::Reset] + recording_of(second),
        ) == Some((BufferState::Recorded, second)),
{
    run_recording(BufferState::Ready, Seq::empty(), first);
    run_concat(
        BufferState::Ready,
        Seq::empty(),
        recording_of(first) + seq![Op::Reset],
        recording_of(second),
    );
    run_concat(BufferState::Ready, Seq::empty(), recording_of(first), seq![Op::Reset]);
    assert(seq![Op::Reset].drop_first() =~= Seq::<Op>::empty());
    reveal_with_fuel(run, 2);
    assert(run(BufferState::Recorded, first, seq![Op::Reset]) == Some(
        (BufferState::Ready, Seq::<Command>::empty()),
    ));
    run_recording(BufferState::Ready, Seq::empty(), second);
}

/// A command buffer: command storage in a memory pool region, a separate
/// control block, and the commands of the recording in progress or last
/// ended.
#[derive(Debug)]
pub struct CommandBuffer {
    pub state: BufferState,
    pub command_memory: Option<Region>,
    pub control_size: usize,
    pub commands: Vec<Command>,
}

/// A finished recording: the handle that is submitted to the queue.
#[derive(Debug)]
pub struct CommandHandle {
    pub commands: Vec<Command>,
}

/// A copy of `v`, element by element.
fn copy_commands(v: &Vec<Command>) -> (r: Vec<Command>)
    ensures
        r@ == v@,
{
    let mut r: Vec<Command> = Vec::new();
    let mut i: usize = 0;
    while i < v.len()
        invariant
            i <= v.len(),
            r@ == v@.subrange(0, i as int),
        decreases v.len() - i,
    {
        r.push(v[i]);
        i += 1;
        assert(r@ =~= v@.subrange(0, i as int));
    }
    assert(r@ =~= v@);
    r
}

impl CommandBuffer {
    /// The buffer's place in the lifecycle model.
    pub open spec fn lifecycle(&self) -> (BufferState, Seq<Command>) {
        (self.state, self.commands@)
    }

    /// Where `op` takes the buffer in the lifecycle model.
    pub open spec fn after(&self, op: Op) -> Option<(BufferState, Seq<Command>)> {
        step(self.state, self.commands@, op)
    }

    /// A command buffer with no memory bound, not yet initialized.
    pub fn new() -> (r: CommandBuffer)
        ensures
            r.state == BufferState::Uninitialized,
            r.command_memory.is_none(),
            r.control_size == 0,
            r.commands@.len() == 0,
    {
        CommandBuffer {
            state: BufferState::Uninitialized,
            command_memory: None,
            control_size: 0,
            commands: Vec::new(),
        }
    }

    /// Binds the pool region that will hold recorded commands.
    pub fn bind_command_memory(&mut self, region: Region)
        requires
            old(self).state == BufferState::Uninitialized,
            region.start < region.end,
        ensures
            final(self).command_memory == Some(region),
            final(self).state == old(self).state,
            final(self).control_size == old(self).control_size,
            final(self).commands@ == old(self).commands@,
    {
        self.command_memory = Some(region);
    }

    /// Binds a control memory block of `size` bytes.
    pub fn bind_control_memory(&mut self, size: usize)
        requires
            old(self).state == BufferState::Uninitialized,
            size > 0,
        ensures
            final(self).control_size == size,
            final(self).state == old(self).state,
            final(self).command_memory == old(self).command_memory,
            final(self).commands@ == old(self).commands@,
    {
        self.control_size = size;
    }

    /// Makes the buffer ready to record; both memories must be bound.
    pub fn initialize(&mut self) -> (r: Result<(), CommandBufferError>)
        ensures
            r.is_ok() ==> old(self).after(Op::Initialize) == Some(final(self).lifecycle()),
            old(self).state != BufferState::Uninitialized ==> r == Err::<(), CommandBufferError>(
                CommandBufferError::AlreadyInitialized,
            ),
            old(self).state == BufferState::Uninitialized && old(self).command_memory.is_none()
                ==> r == Err::<(), CommandBufferError>(CommandBufferError::NoCommandMemory),
            old(self).state == BufferState::Uninitialized && old(self).command_memory.is_some()
                && old(self).control_size == 0 ==> r == Err::<(), CommandBufferError>(
                CommandBufferError::NoControlMemory,
            ),
            r.is_ok() <==> (old(self).state == BufferState::Uninitialized
                && old(self).command_memory.is_some() && old(self).control_size > 0),
            r.is_ok() ==> final(self).state == BufferState::Ready && final(self).commands@.len()
                == 0,
            r.is_err() ==> final(self).state == old(self).state && final(self).commands@
                == old(self).commands@,
            final(self).command_memory == old(self).command_memory,
            final(self).control_size == old(self).control_size,
    {
        if self.state != BufferState::Uninitialized {
            return Err(CommandBufferError::AlreadyInitialized);
        }
        if self.command_memory.is_none() {
            return Err(CommandBufferError::NoCommandMemory);
        }
        if self.control_size == 0 {
            return Err(CommandBufferError::NoControlMemory);
        }
        self.state = BufferState::Ready;
        self.commands = Vec::new();
        Ok(())
    }

    /// Discards whatever was recorded and makes the buffer ready to record
    /// again, without initializing it anew.
    pub fn reset(&mut self)
        requires
            old(self).state != BufferState::Uninitialized,
        ensures
            old(self).after(Op::Reset) == Some(final(self).lifecycle()),
            final(self).state == BufferState::Ready,
            final(self).commands@.len() == 0,
            final(self).command_memory == old(self).command_memory,
            final(self).control_size == old(self).control_size,
    {
        self.state = BufferState::Ready;
        self.commands = Vec::new();
    }

    pub fn begin_recording(&mut self)
        requires
            old(self).state == BufferState::Ready,
        ensures
            old(self).after(Op::Begin) == Some(final(self).lifecycle()),
            final(self).state == BufferState::Recording,
            final(self).commands@.len() == 0,
            final(self).command_memory == old(self).command_memory,
            final(self).control_size == old(self).control_size,
    {
        self.state = BufferState::Recording;
        self.commands = Vec::new();
    }

    /// Appends one command to the recording in progress.
    pub fn record(&mut self, command: Command)
        requires
            old(self).state == BufferState::Recording,
        ensures
            old(self).after(Op::Record(command)) == Some(final(self).lifecycle()),
            final(self).state == BufferState::Recording,
            final(self).commands@ == old(self).commands@.push(command),
            final(self).command_memory == old(self).command_memory,
            final(self).control_size == old(self).control_size,
    {
        self.commands.push(command);
    }

    pub fn set_render_target(&mut self, texture: u64)
        requires
            old(self).state == BufferState::Recording,
        ensures
            old(self).after(Op::Record(Command::SetRenderTarget(texture))) == Some(
                final(self).lifecycle(),
            ),
            final(self).state == BufferState::Recording,
            final(self).commands@ == old(self).commands@.push(Command::SetRenderTarget(texture)),
            final(self).command_memory == old(self).command_memory,
            final(self).control_size == old(self).control_size,
    {
        self.record(Command::SetRenderTarget(texture));
    }

    pub fn set_scissor(&mut self, rect: Rect)
        requires
            old(self).state == BufferState::Recording,
        ensures
            old(self).after(Op::Record(Command::SetScissor(rect))) == Some(final(self).lifecycle()),
            final(self).state == BufferState::Recording,
            final(self).commands@ == old(self).commands@.push(Command::SetScissor(rect)),
            final(self).command_memory == old(self).command_memory,
            final(self).control_size == old(self).control_size,
    {
        self.record(Command::SetScissor(rect));
    }

    pub fn set_viewport(&mut self, rect: Rect)
        requires
            old(self).state == BufferState::Recording,
        ensures
            old(self).after(Op::Record(Command::SetViewport(rect))) == Some(
                final(self).lifecycle(),
            ),
            final(self).state == BufferState::Recording,
            final(self).commands@ == old(self).commands@.push(Command::SetViewport(rect)),
            final(self).command_memory == old(self).command_memory,
            final(self).control_size == old(self).control_size,
    {
        self.record(Command::SetViewport(rect));
    }

    pub fn clear_color(&mut self, target: u32, mask: ColorMask)
        requires
            old(self).state == BufferState::Recording,
        ensures
            old(self).after(Op::Record(Command::ClearColor { target, mask })) == Some(
                final(self).lifecycle(),
            ),
            final(self).state == BufferState::Recording,
            final(self).commands@ == old(self).commands@.push(
                Command::ClearColor { target, mask },
            ),
            final(self).command_memory == old(self).command_memory,
            final(self).control_size == old(self).control_size,
    {
        self.record(Command::ClearColor { target, mask });
    }

    /// Ends the recording and returns its handle: exactly the commands
    /// recorded since `begin_recording`.
    pub fn end_recording(&mut self) -> (r: CommandHandle)
        requires
            old(self).state == BufferState::Recording,
        ensures
            old(self).after(Op::End) == Some(final(self).lifecycle()),
            r.commands@ == old(self).commands@,
            final(self).state == BufferState::Recorded,
            final(self).commands@ == old(self).commands@,
            final(self).command_memory == old(self).command_memory,
            final(self).control_size == old(self).control_size,
    {
        self.state = BufferState::Recorded;
        CommandHandle { commands: copy_commands(&self.commands) }
    }

    /// Releases the buffer's memory; it must be set up again before use.
    pub fn finalize(&mut self)
        requires
            old(self).state != BufferState::Recording,
        ensures
            old(self).after(Op::Finalize) == Some(final(self).lifecycle()),
            final(self).state == BufferState::Uninitialized,
            final(self).command_memory.is_none(),
            final(self).control_size == 0,
            final(self).commands@.len() == 0,
    {
        self.state = BufferState::Uninitialized;
        self.command_memory = None;
        self.control_size = 0;
        self.commands = Vec::new();
    }
}

} // verus!
