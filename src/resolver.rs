use vstd::prelude::*;
use vstd::string::StringSliceAdditionalSpecFns;

verus! {

/// Name of the device-initialization entry point.
pub const DEVICE_INITIALIZE: &'static str = "nvnDeviceInitialize";

/// Name of the command-submission entry point.
pub const QUEUE_SUBMIT_COMMANDS: &'static str = "nvnQueueSubmitCommands";

/// Name of the texture-binding entry point.
pub const WINDOW_BUILDER_SET_TEXTURES: &'static str = "nvnWindowBuilderSetTextures";

/// Name of the texture-acquisition entry point.
pub const WINDOW_ACQUIRE_TEXTURE: &'static str = "nvnWindowAcquireTexture";

pub open spec fn device_initialize_name() -> Seq<u8> {
    DEVICE_INITIALIZE.spec_bytes()
}

/// Whether two byte strings are equal.
pub fn bytes_equal(a: &[u8], b: &[u8]) -> (r: bool)
    ensures
        r == (a@ == b@),
{
    if a.len() != b.len() {
        return false;
    }
    let mut i: usize = 0;
    while i < a.len()
        invariant
            a@.len() == b@.len(),
            i <= a@.len(),
            a@.subrange(0, i as int) == b@.subrange(0, i as int),
        decreases a.len() - i,
    {
        if a[i] != b[i] {
            assert(a@.subrange(0, i as int + 1)[i as int] != b@.subrange(0, i as int + 1)[
                i as int
            ]);
            return false;
        }
        assert(a@.subrange(0, i as int + 1) =~= a@.subrange(0, i as int).push(a[i as int]));
        assert(b@.subrange(0, i as int + 1) =~= b@.subrange(0, i as int).push(b[i as int]));
        i += 1;
    }
    assert(a@ =~= a@.subrange(0, i as int));
    assert(b@ =~= b@.subrange(0, i as int));
    true
}

/// Whether `name` (without its terminating NUL) names the
/// device-initialization entry point.
pub fn is_device_initialize(name: &[u8]) -> (r: bool)
    ensures
        r == (name@ == device_initialize_name()),
{
    bytes_equal(name, DEVICE_INITIALIZE.as_bytes())
}

/// What the host must do with one name-resolution request.
#[derive(Clone, Copy, Debug, PartialEq, Eq, Structural)]
pub enum Resolution {
    /// Not a name of interest: return what the real resolver gives.
    PassThrough,
    /// First request for device initialization: resolve it with the real
    /// resolver, report the pointer with `device_initialize_resolved`, hook it
    /// if told to, and return the pointer unchanged.
    ResolveAndHook,
    /// Device initialization was resolved and hooked before: return this
    /// pointer.
    Cached(u64),
}

/// The request decision as a function of the cached pointer and the name.
pub open spec fn resolution(cached: Option<u64>, name: Seq<u8>) -> Resolution {
    if name != device_initialize_name() {
        Resolution::PassThrough
    } else {
        match cached {
            Some(p) => Resolution::Cached(p),
            None => Resolution::ResolveAndHook,
        }
    }
}

/// Cache and hook decision after the real resolver returned `pointer`:
/// only a first non-null pointer is cached and hooked.
pub open spec fn after_resolved(cached: Option<u64>, pointer: u64) -> (Option<u64>, bool) {
    if cached.is_none() && pointer != 0 {
        (Some(pointer), true)
    } else {
        (cached, false)
    }
}

/// Intercepts the dynamic resolution of entry-point names and hooks
/// device initialization the first time it is resolved.
#[derive(Debug)]
pub struct Resolver {
    /// The real device-initialization pointer, once resolved and hooked.
    pub device_initialize: Option<u64>,
}

impl Resolver {
    pub fn new() -> (r: Resolver)
        ensures
            r.device_initialize.is_none(),
    {
        Resolver { device_initialize: None }
    }

    /// Decides how to answer a request to resolve `name`.
    pub fn bootstrap_loader(&self, name: &[u8]) -> (r: Resolution)
        ensures
            r == resolution(self.device_initialize, name@),
    {
        if !is_device_initialize(name) {
            Resolution::PassThrough
        } else {
            match self.device_initialize {
                Some(p) => Resolution::Cached(p),
                None => Resolution::ResolveAndHook,
            }
        }
    }

    /// Records what the real resolver returned for device initialization;
    /// returns whether the hook is to be installed on it now.
    pub fn device_initialize_resolved(&mut self, pointer: u64) -> (install: bool)
        ensures
            (final(self).device_initialize, install) == after_resolved(
                old(self).device_initialize,
                pointer,
            ),
    {
        if self.device_initialize.is_none() && pointer != 0 {
            self.device_initialize = Some(pointer);
            true
        } else {
            false
        }
    }
}

/// Resolving device initialization twice installs the hook once: the first
/// request resolves and hooks, the second answers with the cached pointer
/// and asks for no hook; and no later report of a pointer hooks again.
pub proof fn resolve_twice_hooks_once(pointer: u64, later: u64)
    requires
        pointer != 0,
    ensures
        resolution(None, device_initialize_name()) == Resolution::ResolveAndHook,
        after_resolved(None, pointer) == (Some(pointer), true),
        resolution(after_resolved(None, pointer).0, device_initialize_name())
            == Resolution::Cached(pointer),
        !after_resolved(Some(pointer), later).1,
        after_resolved(Some(pointer), later).0 == Some(pointer),
{
}

} // verus!
