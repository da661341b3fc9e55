use vstd::prelude::*;

verus! {

/// The handle value that stands for "no object".
pub const NULL_HANDLE: u64 = 0;

/// The kinds of native object an engine context owns.
#[derive(Clone, Copy, Debug, PartialEq, Eq, Structural)]
pub enum ResourceKind {
    Instance,
    DebugMessenger,
    Device,
    InputBuffer,
    OutputBuffer,
    InputMemory,
    OutputMemory,
    CommandPool,
}

/// One native object to be destroyed.
#[derive(Clone, Copy, Debug, PartialEq, Eq, Structural)]
pub struct Release {
    pub kind: ResourceKind,
    pub handle: u64,
}

/// The owned aggregate of a compute context: the raw value of every native
/// handle it retains, `NULL_HANDLE` where none is held. The debug messenger
/// exists only when diagnostics were enabled. The record is not copyable, so
/// each handle has exactly one owner that can release it.
#[derive(Debug, PartialEq, Eq, Structural)]
pub struct Engine {
    pub instance: u64,
    pub debug_messenger: Option<u64>,
    pub device: u64,
    pub input_buffer: u64,
    pub output_buffer: u64,
    pub input_buffer_memory: u64,
    pub output_buffer_memory: u64,
    pub command_pool: u64,
}

/// `[Release { kind, handle }]` when a handle is held, else nothing.
pub open spec fn release_if_held(kind: ResourceKind, handle: u64) -> Seq<Release> {
    if handle != NULL_HANDLE {
        seq![Release { kind, handle }]
    } else {
        Seq::empty()
    }
}

/// Everything an engine holds, in the order it must be destroyed: command
/// pool, output then input memory, output then input buffer, device, debug
/// messenger, instance.
pub open spec fn teardown_order(e: Engine) -> Seq<Release> {
    release_if_held(ResourceKind::CommandPool, e.command_pool)
        + release_if_held(ResourceKind::OutputMemory, e.output_buffer_memory)
        + release_if_held(ResourceKind::InputMemory, e.input_buffer_memory)
        + release_if_held(ResourceKind::OutputBuffer, e.output_buffer)
        + release_if_held(ResourceKind::InputBuffer, e.input_buffer)
        + release_if_held(ResourceKind::Device, e.device)
        + match e.debug_messenger {
            Some(h) => release_if_held(ResourceKind::DebugMessenger, h),
            None => Seq::empty(),
        }
        + release_if_held(ResourceKind::Instance, e.instance)
}

impl Engine {
    /// An aggregate that holds nothing yet.
    pub open spec fn empty_spec(diagnostics: bool) -> Engine {
        Engine {
            instance: NULL_HANDLE,
            debug_messenger: if diagnostics { Some(NULL_HANDLE) } else { None },
            device: NULL_HANDLE,
            input_buffer: NULL_HANDLE,
            output_buffer: NULL_HANDLE,
            input_buffer_memory: NULL_HANDLE,
            output_buffer_memory: NULL_HANDLE,
            command_pool: NULL_HANDLE,
        }
    }

    /// The aggregate retains no handle at all.
    pub open spec fn holds_nothing(&self) -> bool {
        &&& self.instance == NULL_HANDLE
        &&& (self.debug_messenger matches Some(h) ==> h == NULL_HANDLE)
        &&& self.device == NULL_HANDLE
        &&& self.input_buffer == NULL_HANDLE
        &&& self.output_buffer == NULL_HANDLE
        &&& self.input_buffer_memory == NULL_HANDLE
        &&& self.output_buffer_memory == NULL_HANDLE
        &&& self.command_pool == NULL_HANDLE
    }

    /// Every handle of a finished bootstrap is held.
    pub open spec fn holds_all(&self) -> bool {
        &&& self.instance != NULL_HANDLE
        &&& (self.debug_messenger matches Some(h) ==> h != NULL_HANDLE)
        &&& self.device != NULL_HANDLE
        &&& self.input_buffer != NULL_HANDLE
        &&& self.output_buffer != NULL_HANDLE
        &&& self.input_buffer_memory != NULL_HANDLE
        &&& self.output_buffer_memory != NULL_HANDLE
        &&& self.command_pool != NULL_HANDLE
    }

    pub fn empty(diagnostics: bool) -> (r: Engine)
        ensures
            r == Engine::empty_spec(diagnostics),
            r.holds_nothing(),
    {
        Engine {
            instance: NULL_HANDLE,
            debug_messenger: if diagnostics { Some(NULL_HANDLE) } else { None },
            device: NULL_HANDLE,
            input_buffer: NULL_HANDLE,
            output_buffer: NULL_HANDLE,
            input_buffer_memory: NULL_HANDLE,
            output_buffer_memory: NULL_HANDLE,
            command_pool: NULL_HANDLE,
        }
    }

    /// Hands out every held handle in destruction order and forgets them, so
    /// the aggregate retains nothing that refers to a destroyed object.
    pub fn teardown(&mut self) -> (r: Vec<Release>)
        ensures
            r@ == teardown_order(*old(self)),
            final(self).holds_nothing(),
            final(self).debug_messenger is Some <==> old(self).debug_messenger is Some,
    {
        let mut r: Vec<Release> = Vec::new();
        push_if_held(&mut r, ResourceKind::CommandPool, self.command_pool);
        push_if_held(&mut r, ResourceKind::OutputMemory, self.output_buffer_memory);
        push_if_held(&mut r, ResourceKind::InputMemory, self.input_buffer_memory);
        push_if_held(&mut r, ResourceKind::OutputBuffer, self.output_buffer);
        push_if_held(&mut r, ResourceKind::InputBuffer, self.input_buffer);
        push_if_held(&mut r, ResourceKind::Device, self.device);
        let ghost before_messenger = r@;
        match self.debug_messenger {
            Some(h) => {
                push_if_held(&mut r, ResourceKind::DebugMessenger, h);
                self.debug_messenger = Some(NULL_HANDLE);
            },
            None => {
                assert(r@ =~= before_messenger + Seq::<Release>::empty());
            },
        }
        push_if_held(&mut r, ResourceKind::Instance, self.instance);
        self.command_pool = NULL_HANDLE;
        self.output_buffer_memory = NULL_HANDLE;
        self.input_buffer_memory = NULL_HANDLE;
        self.output_buffer = NULL_HANDLE;
        self.input_buffer = NULL_HANDLE;
        self.device = NULL_HANDLE;
        self.instance = NULL_HANDLE;
        r
    }
}

/// The kinds named by a sequence of releases, in order.
pub open spec fn release_kinds(s: Seq<Release>) -> Seq<ResourceKind> {
    s.map_values(|r: Release| r.kind)
}

/// A fully built context is destroyed in exactly this order: command pool,
/// output memory, input memory, output buffer, input buffer, device, the debug
/// messenger where there is one, and the instance last.
pub proof fn lemma_teardown_sequence(e: Engine)
    requires
        e.holds_all(),
    ensures
        release_kinds(teardown_order(e)) == seq![
            ResourceKind::CommandPool,
            ResourceKind::OutputMemory,
            ResourceKind::InputMemory,
            ResourceKind::OutputBuffer,
            ResourceKind::InputBuffer,
            ResourceKind::Device,
        ] + (if e.debug_messenger is Some {
            seq![ResourceKind::DebugMessenger]
        } else {
            Seq::empty()
        }) + seq![ResourceKind::Instance],
{
    let t = teardown_order(e);
    let want = seq![
        ResourceKind::CommandPool,
        ResourceKind::OutputMemory,
        ResourceKind::InputMemory,
        ResourceKind::OutputBuffer,
        ResourceKind::InputBuffer,
        ResourceKind::Device,
    ] + (if e.debug_messenger is Some {
        seq![ResourceKind::DebugMessenger]
    } else {
        Seq::<ResourceKind>::empty()
    }) + seq![ResourceKind::Instance];
    assert(release_kinds(t) =~= want);
}

/// Once torn down, an aggregate retains no handle, and tearing it down again
/// releases nothing: repeated create and destroy cycles never reuse a
/// destroyed object.
pub proof fn lemma_teardown_leaves_nothing(after: Engine)
    requires
        after.holds_nothing(),
    ensures
        teardown_order(after) == Seq::<Release>::empty(),
{
    let t = teardown_order(after);
    assert(t =~= Seq::<Release>::empty());
}

fn push_if_held(r: &mut Vec<Release>, kind: ResourceKind, handle: u64)
    ensures
        final(r)@ == old(r)@ + release_if_held(kind, handle),
{
    if handle != NULL_HANDLE {
        r.push(Release { kind, handle });
    } else {
        assert(final(r)@ =~= old(r)@ + Seq::<Release>::empty());
    }
}

} // verus!
