use vstd::prelude::*;
use crate::command::{Command, CommandHandle};
use crate::resolver::Resolver;
use crate::ring::{
    marker_commands, record_transient, slot_for, spec_slot_for, CommandRing, RING_SIZE,
};
use crate::tracker::{texture_at, StateTracker};

verus! {

/// How injected command buffers are kept.
#[derive(Clone, Copy, Debug, PartialEq, Eq, Structural)]
pub enum Mode {
    /// A ring of buffers over one pool, created on first use and kept; the
    /// slot is chosen by the current texture index.
    Pooled,
    /// A fresh pool and buffer for every submission, released at its end.
    Transient,
}

/// Why device initialization cannot go on.
#[derive(Clone, Copy, Debug, PartialEq, Eq, Structural)]
pub enum InitError {
    /// The real device initialization reported failure.
    DeviceInitializeFailed,
}

/// What the host must do with one intercepted submission.
#[derive(Debug)]
pub enum Submission {
    /// Not ready: forward the application's handles unchanged.
    Forward,
    /// Replay `handle` on the real command buffer (the ring's `slot`, or a
    /// transient one when `None`), then forward the application's handles
    /// with the resulting handle in front.
    Inject { slot: Option<usize>, handle: CommandHandle },
}

impl Submission {
    /// The ring slot to replay on, when injecting from the ring.
    pub open spec fn slot(&self) -> Option<usize> {
        match self {
            Submission::Inject { slot, .. } => *slot,
            Submission::Forward => None,
        }
    }

    /// The commands of the injected buffer, when injecting.
    pub open spec fn injected_commands(&self) -> Option<Seq<Command>> {
        match self {
            Submission::Inject { handle, .. } => Some(handle.commands@),
            Submission::Forward => None,
        }
    }
}

/// The list forwarded to the queue: the injected handle, if any, in front
/// of the application's handles, which keep their order.
pub open spec fn forwarded(handles: Seq<u64>, injected: Option<u64>) -> Seq<u64> {
    match injected {
        Some(h) => seq![h] + handles,
        None => handles,
    }
}

/// The handle list to forward for `handles`, given the handle of the
/// injected buffer when there is one.
pub fn forwarded_handles(handles: &[u64], injected: Option<u64>) -> (r: Vec<u64>)
    ensures
        r@ == forwarded(handles@, injected),
{
    let mut r: Vec<u64> = Vec::new();
    match injected {
        Some(h) => r.push(h),
        None => {},
    }
    let ghost start = r@;
    let mut i: usize = 0;
    while i < handles.len()
        invariant
            i <= handles@.len(),
            start == (match injected {
                Some(h) => seq![h],
                None => Seq::<u64>::empty(),
            }),
            r@ == start + handles@.subrange(0, i as int),
        decreases handles.len() - i,
    {
        r.push(handles[i]);
        i += 1;
        assert(r@ =~= start + handles@.subrange(0, i as int));
    }
    assert(handles@.subrange(0, i as int) =~= handles@);
    assert(r@ =~= forwarded(handles@, injected));
    r
}

/// Whether a submission in this state injects, and with which texture.
pub open spec fn injected_texture(tracker: &StateTracker) -> Option<u64> {
    texture_at(tracker.textures@, tracker.index as int)
}

/// Before the application binds any texture set, a submission injects
/// nothing, and the list forwarded is the application's own, unchanged.
pub proof fn unbound_passes_through(tracker: &StateTracker, handles: Seq<u64>)
    requires
        tracker.textures@.len() == 0,
    ensures
        injected_texture(tracker) is None,
        forwarded(handles, None) == handles,
{
}

/// A current index outside the texture set is a not-ready state: nothing is
/// injected and the application's list is forwarded as it is.
pub proof fn stale_index_passes_through(tracker: &StateTracker, handles: Seq<u64>)
    requires
        !(0 <= tracker.index < tracker.textures@.len()),
    ensures
        injected_texture(tracker) is None,
        forwarded(handles, None) == handles,
{
}

/// With the current index `i` inside the texture set, exactly one handle is
/// injected: the forwarded list is that handle followed by the
/// application's handles in their order, and the only render target the
/// injected commands bind is the texture at `i`.
pub proof fn in_bounds_injects_one(tracker: &StateTracker, handles: Seq<u64>, injected: u64)
    requires
        0 <= tracker.index < tracker.textures@.len(),
    ensures
        ({
            let t = tracker.textures@[tracker.index as int];
            &&& injected_texture(tracker) == Some(t)
            &&& marker_commands(t)[0] == Command::SetRenderTarget(t)
            &&& forall|k: int|
                0 <= k < marker_commands(t).len()
                    && (#[trigger] marker_commands(t)[k]) is SetRenderTarget
                    ==> marker_commands(t)[k] == Command::SetRenderTarget(t)
        }),
        forwarded(handles, Some(injected)).len() == handles.len() + 1,
        forwarded(handles, Some(injected))[0] == injected,
        forwarded(handles, Some(injected)).drop_first() == handles,
{
    assert(forwarded(handles, Some(injected)).drop_first() =~= handles);
}

/// Ring slots follow the frame index modulo the ring's size: every index
/// has a slot in the ring, and indices a ring's length apart share one.
pub proof fn ring_slots_cycle(index: int)
    requires
        index >= 0,
    ensures
        0 <= spec_slot_for(index) < RING_SIZE,
        spec_slot_for(index) == index % (RING_SIZE as int),
        spec_slot_for(index + RING_SIZE) == spec_slot_for(index),
        index < RING_SIZE ==> spec_slot_for(index) == index,
{
}

/// The whole interception state: the resolver hook, what the application
/// last bound and acquired, and the injected command buffers.
#[derive(Debug)]
pub struct Interceptor {
    pub resolver: Resolver,
    pub tracker: StateTracker,
    pub mode: Mode,
    /// Created on the first submission that injects, in pooled mode.
    pub ring: Option<CommandRing>,
}

impl Interceptor {
    pub open spec fn wf(&self) -> bool {
        match self.ring {
            Some(ring) => ring.wf(),
            None => true,
        }
    }

    /// Nothing resolved, bound or acquired yet; no ring.
    pub fn new(mode: Mode) -> (r: Interceptor)
        ensures
            r.wf(),
            r.mode == mode,
            r.ring.is_none(),
            r.resolver.device_initialize.is_none(),
            r.tracker.device.is_none(),
            r.tracker.textures@.len() == 0,
            r.tracker.index == 0,
    {
        Interceptor { resolver: Resolver::new(), tracker: StateTracker::new(), mode, ring: None }
    }

    /// The real device initialization of `device` has returned `succeeded`.
    /// On success the device is captured; failure cannot be recovered from.
    pub fn device_initialize(&mut self, device: u64, succeeded: bool) -> (r: Result<(), InitError>)
        ensures
            succeeded ==> r.is_ok() && final(self).tracker.device == Some(device),
            !succeeded ==> r == Err::<(), InitError>(InitError::DeviceInitializeFailed)
                && final(self).tracker.device == old(self).tracker.device,
            final(self).tracker.textures@ == old(self).tracker.textures@,
            final(self).tracker.index == old(self).tracker.index,
            final(self).resolver == old(self).resolver,
            final(self).mode == old(self).mode,
            final(self).ring == old(self).ring,
    {
        if succeeded {
            self.tracker.set_device(device);
            Ok(())
        } else {
            Err(InitError::DeviceInitializeFailed)
        }
    }

    /// The application bound `textures` as the swapchain's texture set: it
    /// replaces the previous set.
    pub fn set_textures(&mut self, textures: &[u64])
        ensures
            final(self).tracker.textures@ == textures@,
            final(self).tracker.device == old(self).tracker.device,
            final(self).tracker.index == old(self).tracker.index,
            final(self).resolver == old(self).resolver,
            final(self).mode == old(self).mode,
            final(self).ring == old(self).ring,
    {
        self.tracker.set_textures(textures);
    }

    /// The application acquired the texture at `index` for the next frame.
    pub fn acquire_texture(&mut self, index: i32)
        ensures
            final(self).tracker.index == index,
            final(self).tracker.device == old(self).tracker.device,
            final(self).tracker.textures@ == old(self).tracker.textures@,
            final(self).resolver == old(self).resolver,
            final(self).mode == old(self).mode,
            final(self).ring == old(self).ring,
    {
        self.tracker.set_index(index);
    }

    /// Decides what to do with a submission, and records the marker when it
    /// injects. It injects exactly when the current index lies within the
    /// texture set, and then draws into the texture there; in pooled mode it
    /// reuses the slot at the index modulo the ring's size, reset first.
    pub fn queue_submit_commands(&mut self) -> (r: Submission)
        requires
            old(self).wf(),
        ensures
            final(self).wf(),
            final(self).tracker == old(self).tracker,
            final(self).resolver == old(self).resolver,
            final(self).mode == old(self).mode,
            injected_texture(&old(self).tracker) is None <==> r is Forward,
            r is Forward ==> final(self).ring == old(self).ring,
            injected_texture(&old(self).tracker) matches Some(t) ==> r.injected_commands() == Some(
                marker_commands(t),
            ),
            old(self).mode == Mode::Transient ==> r.slot() is None && final(self).ring == old(
                self,
            ).ring,
            old(self).mode == Mode::Pooled && r is Inject ==> r.slot() == Some(
                spec_slot_for(old(self).tracker.index as int) as usize,
            ),
            old(self).mode == Mode::Pooled ==> (injected_texture(&old(self).tracker) matches Some(t)
                ==> (final(self).ring matches Some(ring) && ring.buffers@[spec_slot_for(
                old(self).tracker.index as int,
            )].commands@ == marker_commands(t))),
    {
        let texture = match self.tracker.current_texture() {
            Some(t) => t,
            None => {
                return Submission::Forward;
            },
        };
        match self.mode {
            Mode::Transient => Submission::Inject { slot: None, handle: record_transient(texture) },
            Mode::Pooled => {
                if self.ring.is_none() {
                    self.ring = Some(CommandRing::new());
                }
                let slot = slot_for(self.tracker.index as usize);
                let mut ring = self.ring.take().unwrap();
                let handle = ring.record_slot(slot, texture);
                self.ring = Some(ring);
                Submission::Inject { slot: Some(slot), handle }
            },
        }
    }
}

} // verus!
