use vstd::prelude::*;
use crate::engine::{Engine, NULL_HANDLE};
use crate::select::{
    find_compute_family, find_host_coherent_memory_type, first_best, first_compute,
    first_host_coherent, has_compute, is_host_coherent, lemma_first_compute_exists,
    lemma_first_host_coherent_exists, select_accelerator, Accelerator,
};
use crate::version::{engine_version, instance_api_version, packed_version};

verus! {

/// Bytes in each of the two exchange buffers: sixteen four-byte words.
pub const BUFFER_SIZE: u64 = 64;

/// Number of storage-buffer bindings in the descriptor-set layout (slots 0 and 1).
pub const STORAGE_BINDINGS: u32 = 2;

/// The steps of a bootstrap, in the order they run.
#[derive(Clone, Copy, Debug, PartialEq, Eq, Structural)]
pub enum Stage {
    CreateInstance,
    CreateDebugMessenger,
    ListAccelerators,
    ListQueueFamilies,
    CreateDevice,
    CreateInputBuffer,
    CreateOutputBuffer,
    QueryInputRequirement,
    QueryOutputRequirement,
    ListMemoryTypes,
    AllocateInputMemory,
    AllocateOutputMemory,
    BindInputMemory,
    BindOutputMemory,
    CreateShaderModule,
    CreateSetLayout,
    CreatePipelineLayout,
    CreatePipelineCache,
    CreatePipeline,
    CreateCommandPool,
    AllocateCommandBuffer,
    Ready,
    Failed(BootError),
}

/// Why a bootstrap stopped. Every one of them is fatal to the context.
#[derive(Clone, Copy, Debug, PartialEq, Eq, Structural)]
pub enum BootError {
    /// No accelerator is visible.
    NoAccelerator,
    /// The chosen accelerator has no compute-capable queue family.
    NoComputeQueue,
    /// No memory type is both host-visible and host-coherent.
    NoHostCoherentMemory,
    /// The native API rejected a creation, allocation or bind.
    Refused,
    /// A call reported a null handle, or one already held for the same role.
    InvalidHandle,
    /// The outcome handed back does not answer the step that was asked for.
    UnexpectedEvent,
}

/// Which of the two exchange buffers a step concerns.
#[derive(Clone, Copy, Debug, PartialEq, Eq, Structural)]
pub enum BufferRole {
    Input,
    Output,
}

/// Optional device features the logical device is created with.
#[derive(Clone, Copy, Debug, PartialEq, Eq, Structural)]
pub struct DeviceFeatures {
    pub logic_op: bool,
    pub shader_float64: bool,
    pub shader_int64: bool,
    pub shader_int16: bool,
}

/// The features a compute context requires: logic operations, 64-bit floats,
/// and 64-bit and 16-bit integers in shaders.
pub open spec fn required_features() -> DeviceFeatures {
    DeviceFeatures { logic_op: true, shader_float64: true, shader_int64: true, shader_int16: true }
}

/// What the caller must do next on the native API.
#[derive(Clone, Copy, Debug, PartialEq, Eq, Structural)]
pub enum Action {
    /// Create the instance with this API version, and this version for both
    /// the application and the engine identity; enable the validation layer
    /// and debug-messaging extension when asked.
    CreateInstance { api_version: u32, identity_version: u32, validation: bool },
    /// Install the diagnostic callback for every severity and message type.
    CreateDebugMessenger,
    /// Report each physical accelerator, in enumeration order.
    ListAccelerators,
    /// Report the capability flags of each queue family of this accelerator.
    ListQueueFamilies { accelerator: usize },
    /// Create the logical device with one queue of this family at priority
    /// one, these features and no extensions.
    CreateDevice { accelerator: usize, queue_family: u32, features: DeviceFeatures },
    /// Create a storage buffer, exclusive to this queue family.
    CreateBuffer { role: BufferRole, size: u64, queue_family: u32 },
    /// Report the memory size this buffer requires.
    QueryRequirement { role: BufferRole, buffer: u64 },
    /// Report the property flags of each memory type of this accelerator.
    ListMemoryTypes { accelerator: usize },
    /// Allocate a memory block of this size and type.
    AllocateMemory { role: BufferRole, size: u64, memory_type: u32 },
    /// Bind the buffer to the memory at this offset.
    BindMemory { role: BufferRole, buffer: u64, memory: u64, offset: u64 },
    /// Create the compute shader module.
    CreateShaderModule,
    /// Create a descriptor-set layout with this many storage-buffer bindings,
    /// numbered from zero, each visible to the compute stage only.
    CreateSetLayout { bindings: u32 },
    /// Create a pipeline layout over this descriptor-set layout.
    CreatePipelineLayout { set_layout: u64 },
    /// Create an empty pipeline cache.
    CreatePipelineCache,
    /// Create the compute pipeline whose stage runs the module's entry point.
    CreatePipeline { cache: u64, module: u64, layout: u64 },
    /// Create a command pool for this family; buffers from it can be reset one by one.
    CreateCommandPool { queue_family: u32, resettable: bool },
    /// Allocate this many primary command buffers from the pool.
    AllocateCommandBuffers { pool: u64, count: u32 },
    /// The context is complete.
    Finish,
    /// The bootstrap failed.
    Abort(BootError),
}

/// The outcome of an action, handed back by the caller.
#[derive(Clone, Debug)]
pub enum Event {
    /// The object asked for exists, with this handle.
    Created(u64),
    Accelerators(Vec<Accelerator>),
    QueueFamilies(Vec<u32>),
    /// The size in bytes the buffer's memory must have.
    Requirement(u64),
    MemoryTypes(Vec<u32>),
    /// The bind succeeded.
    Bound,
    /// The native call failed.
    Refused,
}

/// The state of a bootstrap in progress: the context built so far and what
/// the later steps need from the earlier ones.
#[derive(Debug)]
pub struct Bootstrap {
    pub stage: Stage,
    pub api_version: u32,
    pub engine: Engine,
    pub accelerator: usize,
    pub queue_family: u32,
    pub queue_family_flags: u32,
    pub input_requirement: u64,
    pub output_requirement: u64,
    pub memory_type: u32,
    pub memory_type_flags: u32,
    pub input_bound: bool,
    pub output_bound: bool,
    pub shader_module: u64,
    pub set_layout: u64,
    pub pipeline_layout: u64,
    pub pipeline_cache: u64,
    pub pipeline: u64,
    pub command_buffer: u64,
}

/// Position of a stage in the sequence.
pub open spec fn rank(s: Stage) -> int {
    match s {
        Stage::CreateInstance => 0,
        Stage::CreateDebugMessenger => 1,
        Stage::ListAccelerators => 2,
        Stage::ListQueueFamilies => 3,
        Stage::CreateDevice => 4,
        Stage::CreateInputBuffer => 5,
        Stage::CreateOutputBuffer => 6,
        Stage::QueryInputRequirement => 7,
        Stage::QueryOutputRequirement => 8,
        Stage::ListMemoryTypes => 9,
        Stage::AllocateInputMemory => 10,
        Stage::AllocateOutputMemory => 11,
        Stage::BindInputMemory => 12,
        Stage::BindOutputMemory => 13,
        Stage::CreateShaderModule => 14,
        Stage::CreateSetLayout => 15,
        Stage::CreatePipelineLayout => 16,
        Stage::CreatePipelineCache => 17,
        Stage::CreatePipeline => 18,
        Stage::CreateCommandPool => 19,
        Stage::AllocateCommandBuffer => 20,
        Stage::Ready => 21,
        Stage::Failed(_) => 22,
    }
}


/// What each stage has established once the sequence has moved past it.
pub open spec fn progress(b: Bootstrap, r: int) -> bool {
    &&& r > 0 ==> b.engine.instance != NULL_HANDLE
    &&& r > 1 ==> (b.engine.debug_messenger matches Some(h) ==> h != NULL_HANDLE)
    &&& r > 3 ==> has_compute(b.queue_family_flags)
    &&& r > 4 ==> b.engine.device != NULL_HANDLE
    &&& r > 5 ==> b.engine.input_buffer != NULL_HANDLE
    &&& r > 6 ==> b.engine.output_buffer != NULL_HANDLE && b.engine.output_buffer != b.engine.input_buffer
    &&& r > 9 ==> is_host_coherent(b.memory_type_flags)
    &&& r > 10 ==> b.engine.input_buffer_memory != NULL_HANDLE
    &&& r > 11 ==> b.engine.output_buffer_memory != NULL_HANDLE
        && b.engine.output_buffer_memory != b.engine.input_buffer_memory
    &&& r > 12 ==> b.input_bound
    &&& r > 13 ==> b.output_bound
    &&& r > 14 ==> b.shader_module != NULL_HANDLE
    &&& r > 15 ==> b.set_layout != NULL_HANDLE
    &&& r > 16 ==> b.pipeline_layout != NULL_HANDLE
    &&& r > 17 ==> b.pipeline_cache != NULL_HANDLE
    &&& r > 18 ==> b.pipeline != NULL_HANDLE
    &&& r > 19 ==> b.engine.command_pool != NULL_HANDLE
    &&& r > 20 ==> b.command_buffer != NULL_HANDLE
}

/// The action that each stage asks for.
pub open spec fn action_of(b: Bootstrap) -> Action {
    match b.stage {
        Stage::CreateInstance => Action::CreateInstance {
            api_version: b.api_version,
            identity_version: packed_version(0, 0, 1, 0) as u32,
            validation: b.engine.debug_messenger is Some,
        },
        Stage::CreateDebugMessenger => Action::CreateDebugMessenger,
        Stage::ListAccelerators => Action::ListAccelerators,
        Stage::ListQueueFamilies => Action::ListQueueFamilies { accelerator: b.accelerator },
        Stage::CreateDevice => Action::CreateDevice {
            accelerator: b.accelerator,
            queue_family: b.queue_family,
            features: required_features(),
        },
        Stage::CreateInputBuffer => Action::CreateBuffer {
            role: BufferRole::Input,
            size: BUFFER_SIZE,
            queue_family: b.queue_family,
        },
        Stage::CreateOutputBuffer => Action::CreateBuffer {
            role: BufferRole::Output,
            size: BUFFER_SIZE,
            queue_family: b.queue_family,
        },
        Stage::QueryInputRequirement => Action::QueryRequirement {
            role: BufferRole::Input,
            buffer: b.engine.input_buffer,
        },
        Stage::QueryOutputRequirement => Action::QueryRequirement {
            role: BufferRole::Output,
            buffer: b.engine.output_buffer,
        },
        Stage::ListMemoryTypes => Action::ListMemoryTypes { accelerator: b.accelerator },
        Stage::AllocateInputMemory => Action::AllocateMemory {
            role: BufferRole::Input,
            size: b.input_requirement,
            memory_type: b.memory_type,
        },
        Stage::AllocateOutputMemory => Action::AllocateMemory {
            role: BufferRole::Output,
            size: b.output_requirement,
            memory_type: b.memory_type,
        },
        Stage::BindInputMemory => Action::BindMemory {
            role: BufferRole::Input,
            buffer: b.engine.input_buffer,
            memory: b.engine.input_buffer_memory,
            offset: 0,
        },
        Stage::BindOutputMemory => Action::BindMemory {
            role: BufferRole::Output,
            buffer: b.engine.output_buffer,
            memory: b.engine.output_buffer_memory,
            offset: 0,
        },
        Stage::CreateShaderModule => Action::CreateShaderModule,
        Stage::CreateSetLayout => Action::CreateSetLayout { bindings: STORAGE_BINDINGS },
        Stage::CreatePipelineLayout => Action::CreatePipelineLayout { set_layout: b.set_layout },
        Stage::CreatePipelineCache => Action::CreatePipelineCache,
        Stage::CreatePipeline => Action::CreatePipeline {
            cache: b.pipeline_cache,
            module: b.shader_module,
            layout: b.pipeline_layout,
        },
        Stage::CreateCommandPool => Action::CreateCommandPool {
            queue_family: b.queue_family,
            resettable: true,
        },
        Stage::AllocateCommandBuffer => Action::AllocateCommandBuffers {
            pool: b.engine.command_pool,
            count: 1,
        },
        Stage::Ready => Action::Finish,
        Stage::Failed(e) => Action::Abort(e),
    }
}

/// The stages whose step creates an object and answers with its handle.
pub open spec fn awaits_handle(s: Stage) -> bool {
    match s {
        Stage::CreateInstance | Stage::CreateDebugMessenger | Stage::CreateDevice
        | Stage::CreateInputBuffer | Stage::CreateOutputBuffer | Stage::AllocateInputMemory
        | Stage::AllocateOutputMemory | Stage::CreateShaderModule | Stage::CreateSetLayout
        | Stage::CreatePipelineLayout | Stage::CreatePipelineCache | Stage::CreatePipeline
        | Stage::CreateCommandPool | Stage::AllocateCommandBuffer => true,
        _ => false,
    }
}

pub open spec fn failed(b: Bootstrap, e: BootError) -> Bootstrap {
    Bootstrap { stage: Stage::Failed(e), ..b }
}

/// A handle is refused when it is null, or when it repeats the handle held
/// for the other buffer or the other memory block.
pub open spec fn handle_clashes(b: Bootstrap, h: u64) -> bool {
    ||| h == NULL_HANDLE
    ||| (b.stage == Stage::CreateOutputBuffer && h == b.engine.input_buffer)
    ||| (b.stage == Stage::AllocateOutputMemory && h == b.engine.input_buffer_memory)
}

/// The state after a step that created an object with handle `h`.
pub open spec fn after_created(b: Bootstrap, h: u64) -> Bootstrap {
    if !awaits_handle(b.stage) {
        failed(b, BootError::UnexpectedEvent)
    } else if handle_clashes(b, h) {
        failed(b, BootError::InvalidHandle)
    } else {
        match b.stage {
            Stage::CreateInstance => Bootstrap {
                stage: if b.engine.debug_messenger is Some {
                    Stage::CreateDebugMessenger
                } else {
                    Stage::ListAccelerators
                },
                engine: Engine { instance: h, ..b.engine },
                ..b
            },
            Stage::CreateDebugMessenger => Bootstrap {
                stage: Stage::ListAccelerators,
                engine: Engine { debug_messenger: Some(h), ..b.engine },
                ..b
            },
            Stage::CreateDevice => Bootstrap {
                stage: Stage::CreateInputBuffer,
                engine: Engine { device: h, ..b.engine },
                ..b
            },
            Stage::CreateInputBuffer => Bootstrap {
                stage: Stage::CreateOutputBuffer,
                engine: Engine { input_buffer: h, ..b.engine },
                ..b
            },
            Stage::CreateOutputBuffer => Bootstrap {
                stage: Stage::QueryInputRequirement,
                engine: Engine { output_buffer: h, ..b.engine },
                ..b
            },
            Stage::AllocateInputMemory => Bootstrap {
                stage: Stage::AllocateOutputMemory,
                engine: Engine { input_buffer_memory: h, ..b.engine },
                ..b
            },
            Stage::AllocateOutputMemory => Bootstrap {
                stage: Stage::BindInputMemory,
                engine: Engine { output_buffer_memory: h, ..b.engine },
                ..b
            },
            Stage::CreateShaderModule => Bootstrap {
                stage: Stage::CreateSetLayout,
                shader_module: h,
                ..b
            },
            Stage::CreateSetLayout => Bootstrap {
                stage: Stage::CreatePipelineLayout,
                set_layout: h,
                ..b
            },
            Stage::CreatePipelineLayout => Bootstrap {
                stage: Stage::CreatePipelineCache,
                pipeline_layout: h,
                ..b
            },
            Stage::CreatePipelineCache => Bootstrap {
                stage: Stage::CreatePipeline,
                pipeline_cache: h,
                ..b
            },
            Stage::CreatePipeline => Bootstrap {
                stage: Stage::CreateCommandPool,
                pipeline: h,
                ..b
            },
            Stage::CreateCommandPool => Bootstrap {
                stage: Stage::AllocateCommandBuffer,
                engine: Engine { command_pool: h, ..b.engine },
                ..b
            },
            _ => Bootstrap {
                stage: Stage::Ready,
                command_buffer: h,
                ..b
            },
        }
    }
}

/// The state after the accelerator list `s` was reported.
pub open spec fn after_accelerators(b: Bootstrap, s: Seq<Accelerator>) -> Bootstrap {
    if b.stage != Stage::ListAccelerators {
        failed(b, BootError::UnexpectedEvent)
    } else if s.len() == 0 {
        failed(b, BootError::NoAccelerator)
    } else {
        Bootstrap { stage: Stage::ListQueueFamilies, accelerator: first_best(s) as usize, ..b }
    }
}

/// The state after the queue families' flags `s` were reported.
pub open spec fn after_queue_families(b: Bootstrap, s: Seq<u32>) -> Bootstrap {
    if b.stage != Stage::ListQueueFamilies || s.len() > u32::MAX {
        failed(b, BootError::UnexpectedEvent)
    } else if forall|j: int| 0 <= j < s.len() ==> !has_compute(#[trigger] s[j]) {
        failed(b, BootError::NoComputeQueue)
    } else {
        Bootstrap {
            stage: Stage::CreateDevice,
            queue_family: first_compute(s) as u32,
            queue_family_flags: s[first_compute(s)],
            ..b
        }
    }
}

/// The state after the memory types' flags `s` were reported.
pub open spec fn after_memory_types(b: Bootstrap, s: Seq<u32>) -> Bootstrap {
    if b.stage != Stage::ListMemoryTypes || s.len() > u32::MAX {
        failed(b, BootError::UnexpectedEvent)
    } else if forall|j: int| 0 <= j < s.len() ==> !is_host_coherent(#[trigger] s[j]) {
        failed(b, BootError::NoHostCoherentMemory)
    } else {
        Bootstrap {
            stage: Stage::AllocateInputMemory,
            memory_type: first_host_coherent(s) as u32,
            memory_type_flags: s[first_host_coherent(s)],
            ..b
        }
    }
}

/// The state after a memory requirement of `n` bytes was reported.
pub open spec fn after_requirement(b: Bootstrap, n: u64) -> Bootstrap {
    match b.stage {
        Stage::QueryInputRequirement => Bootstrap {
            stage: Stage::QueryOutputRequirement,
            input_requirement: n,
            ..b
        },
        Stage::QueryOutputRequirement => Bootstrap {
            stage: Stage::ListMemoryTypes,
            output_requirement: n,
            ..b
        },
        _ => failed(b, BootError::UnexpectedEvent),
    }
}

/// The state after a bind succeeded.
pub open spec fn after_bound(b: Bootstrap) -> Bootstrap {
    match b.stage {
        Stage::BindInputMemory => Bootstrap {
            stage: Stage::BindOutputMemory,
            input_bound: true,
            ..b
        },
        Stage::BindOutputMemory => Bootstrap {
            stage: Stage::CreateShaderModule,
            output_bound: true,
            ..b
        },
        _ => failed(b, BootError::UnexpectedEvent),
    }
}

/// One step of the sequence: a finished or failed bootstrap stays as it is;
/// a failed native call is fatal; any other outcome moves to the next stage
/// or fails with the reason the outcome gives.
pub open spec fn next_state(b: Bootstrap, e: Event) -> Bootstrap {
    match b.stage {
        Stage::Ready | Stage::Failed(_) => b,
        _ => match e {
            Event::Refused => failed(b, BootError::Refused),
            Event::Created(h) => after_created(b, h),
            Event::Accelerators(s) => after_accelerators(b, s@),
            Event::QueueFamilies(s) => after_queue_families(b, s@),
            Event::Requirement(n) => after_requirement(b, n),
            Event::MemoryTypes(s) => after_memory_types(b, s@),
            Event::Bound => after_bound(b),
        },
    }
}

impl Bootstrap {
    pub open spec fn wf(&self) -> bool {
        rank(self.stage) <= 21 ==> progress(*self, rank(self.stage))
    }

    /// A bootstrap that has done nothing yet. `reported_version` is the API
    /// version the loader reports, if it reports one; with `diagnostics` the
    /// context also gets a validation layer and a debug messenger.
    pub fn new(diagnostics: bool, reported_version: Option<u32>) -> (r: Bootstrap)
        ensures
            r == (Bootstrap {
                stage: Stage::CreateInstance,
                api_version: r.api_version,
                engine: Engine::empty_spec(diagnostics),
                accelerator: 0,
                queue_family: 0,
                queue_family_flags: 0,
                input_requirement: 0,
                output_requirement: 0,
                memory_type: 0,
                memory_type_flags: 0,
                input_bound: false,
                output_bound: false,
                shader_module: NULL_HANDLE,
                set_layout: NULL_HANDLE,
                pipeline_layout: NULL_HANDLE,
                pipeline_cache: NULL_HANDLE,
                pipeline: NULL_HANDLE,
                command_buffer: NULL_HANDLE,
            }),
            r.api_version == match reported_version {
                Some(v) => v as int,
                None => packed_version(0, 1, 0, 0),
            },
            r.wf(),
    {
        Bootstrap {
            stage: Stage::CreateInstance,
            api_version: instance_api_version(reported_version),
            engine: Engine::empty(diagnostics),
            accelerator: 0,
            queue_family: 0,
            queue_family_flags: 0,
            input_requirement: 0,
            output_requirement: 0,
            memory_type: 0,
            memory_type_flags: 0,
            input_bound: false,
            output_bound: false,
            shader_module: NULL_HANDLE,
            set_layout: NULL_HANDLE,
            pipeline_layout: NULL_HANDLE,
            pipeline_cache: NULL_HANDLE,
            pipeline: NULL_HANDLE,
            command_buffer: NULL_HANDLE,
        }
    }

    /// The finished context, once every step has succeeded. The bootstrap is
    /// consumed, so the handles are owned by the returned record alone.
    pub fn into_engine(self) -> (r: Option<Engine>)
        ensures
            r is Some <==> self.stage == Stage::Ready,
            r matches Some(e) ==> e == self.engine,
    {
        match self.stage {
            Stage::Ready => Some(self.engine),
            _ => None,
        }
    }

    /// What the caller must do next.
    pub fn next_action(&self) -> (r: Action)
        ensures
            r == action_of(*self),
    {
        match self.stage {
            Stage::CreateInstance => Action::CreateInstance {
                api_version: self.api_version,
                identity_version: engine_version(),
                validation: self.engine.debug_messenger.is_some(),
            },
            Stage::CreateDebugMessenger => Action::CreateDebugMessenger,
            Stage::ListAccelerators => Action::ListAccelerators,
            Stage::ListQueueFamilies => Action::ListQueueFamilies { accelerator: self.accelerator },
            Stage::CreateDevice => Action::CreateDevice {
                accelerator: self.accelerator,
                queue_family: self.queue_family,
                features: DeviceFeatures {
                    logic_op: true,
                    shader_float64: true,
                    shader_int64: true,
                    shader_int16: true,
                },
            },
            Stage::CreateInputBuffer => Action::CreateBuffer {
                role: BufferRole::Input,
                size: BUFFER_SIZE,
                queue_family: self.queue_family,
            },
            Stage::CreateOutputBuffer => Action::CreateBuffer {
                role: BufferRole::Output,
                size: BUFFER_SIZE,
                queue_family: self.queue_family,
            },
            Stage::QueryInputRequirement => Action::QueryRequirement {
                role: BufferRole::Input,
                buffer: self.engine.input_buffer,
            },
            Stage::QueryOutputRequirement => Action::QueryRequirement {
                role: BufferRole::Output,
                buffer: self.engine.output_buffer,
            },
            Stage::ListMemoryTypes => Action::ListMemoryTypes { accelerator: self.accelerator },
            Stage::AllocateInputMemory => Action::AllocateMemory {
                role: BufferRole::Input,
                size: self.input_requirement,
                memory_type: self.memory_type,
            },
            Stage::AllocateOutputMemory => Action::AllocateMemory {
                role: BufferRole::Output,
                size: self.output_requirement,
                memory_type: self.memory_type,
            },
            Stage::BindInputMemory => Action::BindMemory {
                role: BufferRole::Input,
                buffer: self.engine.input_buffer,
                memory: self.engine.input_buffer_memory,
                offset: 0,
            },
            Stage::BindOutputMemory => Action::BindMemory {
                role: BufferRole::Output,
                buffer: self.engine.output_buffer,
                memory: self.engine.output_buffer_memory,
                offset: 0,
            },
            Stage::CreateShaderModule => Action::CreateShaderModule,
            Stage::CreateSetLayout => Action::CreateSetLayout { bindings: STORAGE_BINDINGS },
            Stage::CreatePipelineLayout => Action::CreatePipelineLayout {
                set_layout: self.set_layout,
            },
            Stage::CreatePipelineCache => Action::CreatePipelineCache,
            Stage::CreatePipeline => Action::CreatePipeline {
                cache: self.pipeline_cache,
                module: self.shader_module,
                layout: self.pipeline_layout,
            },
            Stage::CreateCommandPool => Action::CreateCommandPool {
                queue_family: self.queue_family,
                resettable: true,
            },
            Stage::AllocateCommandBuffer => Action::AllocateCommandBuffers {
                pool: self.engine.command_pool,
                count: 1,
            },
            Stage::Ready => Action::Finish,
            Stage::Failed(e) => Action::Abort(e),
        }
    }

    fn on_created(&mut self, h: u64)
        ensures
            *final(self) == after_created(*old(self), h),
    {
        let awaits = match self.stage {
            Stage::CreateInstance | Stage::CreateDebugMessenger | Stage::CreateDevice
            | Stage::CreateInputBuffer | Stage::CreateOutputBuffer | Stage::AllocateInputMemory
            | Stage::AllocateOutputMemory | Stage::CreateShaderModule | Stage::CreateSetLayout
            | Stage::CreatePipelineLayout | Stage::CreatePipelineCache | Stage::CreatePipeline
            | Stage::CreateCommandPool | Stage::AllocateCommandBuffer => true,
            _ => false,
        };
        if !awaits {
            self.stage = Stage::Failed(BootError::UnexpectedEvent);
            return;
        }
        let clashes = h == NULL_HANDLE
            || (self.stage == Stage::CreateOutputBuffer && h == self.engine.input_buffer)
            || (self.stage == Stage::AllocateOutputMemory && h == self.engine.input_buffer_memory);
        if clashes {
            self.stage = Stage::Failed(BootError::InvalidHandle);
            return;
        }
        match self.stage {
            Stage::CreateInstance => {
                self.engine.instance = h;
                self.stage = if self.engine.debug_messenger.is_some() {
                    Stage::CreateDebugMessenger
                } else {
                    Stage::ListAccelerators
                };
            },
            Stage::CreateDebugMessenger => {
                self.engine.debug_messenger = Some(h);
                self.stage = Stage::ListAccelerators;
            },
            Stage::CreateDevice => {
                self.engine.device = h;
                self.stage = Stage::CreateInputBuffer;
            },
            Stage::CreateInputBuffer => {
                self.engine.input_buffer = h;
                self.stage = Stage::CreateOutputBuffer;
            },
            Stage::CreateOutputBuffer => {
                self.engine.output_buffer = h;
                self.stage = Stage::QueryInputRequirement;
            },
            Stage::AllocateInputMemory => {
                self.engine.input_buffer_memory = h;
                self.stage = Stage::AllocateOutputMemory;
            },
            Stage::AllocateOutputMemory => {
                self.engine.output_buffer_memory = h;
                self.stage = Stage::BindInputMemory;
            },
            Stage::CreateShaderModule => {
                self.shader_module = h;
                self.stage = Stage::CreateSetLayout;
            },
            Stage::CreateSetLayout => {
                self.set_layout = h;
                self.stage = Stage::CreatePipelineLayout;
            },
            Stage::CreatePipelineLayout => {
                self.pipeline_layout = h;
                self.stage = Stage::CreatePipelineCache;
            },
            Stage::CreatePipelineCache => {
                self.pipeline_cache = h;
                self.stage = Stage::CreatePipeline;
            },
            Stage::CreatePipeline => {
                self.pipeline = h;
                self.stage = Stage::CreateCommandPool;
            },
            Stage::CreateCommandPool => {
                self.engine.command_pool = h;
                self.stage = Stage::AllocateCommandBuffer;
            },
            _ => {
                self.command_buffer = h;
                self.stage = Stage::Ready;
            },
        }
    }

    /// Takes the outcome of the last action and moves the sequence on.
    pub fn advance(&mut self, event: Event)
        ensures
            *final(self) == next_state(*old(self), event),
    {
        match self.stage {
            Stage::Ready | Stage::Failed(_) => {
                return;
            },
            _ => {},
        }
        match event {
            Event::Refused => {
                self.stage = Stage::Failed(BootError::Refused);
            },
            Event::Created(h) => {
                self.on_created(h);
            },
            Event::Accelerators(s) => {
                if self.stage != Stage::ListAccelerators {
                    self.stage = Stage::Failed(BootError::UnexpectedEvent);
                } else {
                    match select_accelerator(&s) {
                        None => {
                            self.stage = Stage::Failed(BootError::NoAccelerator);
                        },
                        Some(i) => {
                            self.accelerator = i;
                            self.stage = Stage::ListQueueFamilies;
                        },
                    }
                }
            },
            Event::QueueFamilies(s) => {
                if self.stage != Stage::ListQueueFamilies || s.len() > u32::MAX as usize {
                    self.stage = Stage::Failed(BootError::UnexpectedEvent);
                } else {
                    match find_compute_family(&s) {
                        None => {
                            self.stage = Stage::Failed(BootError::NoComputeQueue);
                        },
                        Some(i) => {
                            self.queue_family = i;
                            self.queue_family_flags = s[i as usize];
                            self.stage = Stage::CreateDevice;
                        },
                    }
                }
            },
            Event::Requirement(n) => {
                match self.stage {
                    Stage::QueryInputRequirement => {
                        self.input_requirement = n;
                        self.stage = Stage::QueryOutputRequirement;
                    },
                    Stage::QueryOutputRequirement => {
                        self.output_requirement = n;
                        self.stage = Stage::ListMemoryTypes;
                    },
                    _ => {
                        self.stage = Stage::Failed(BootError::UnexpectedEvent);
                    },
                }
            },
            Event::MemoryTypes(s) => {
                if self.stage != Stage::ListMemoryTypes || s.len() > u32::MAX as usize {
                    self.stage = Stage::Failed(BootError::UnexpectedEvent);
                } else {
                    match find_host_coherent_memory_type(&s) {
                        None => {
                            self.stage = Stage::Failed(BootError::NoHostCoherentMemory);
                        },
                        Some(i) => {
                            self.memory_type = i;
                            self.memory_type_flags = s[i as usize];
                            self.stage = Stage::AllocateInputMemory;
                        },
                    }
                }
            },
            Event::Bound => {
                match self.stage {
                    Stage::BindInputMemory => {
                        self.input_bound = true;
                        self.stage = Stage::BindOutputMemory;
                    },
                    Stage::BindOutputMemory => {
                        self.output_bound = true;
                        self.stage = Stage::CreateShaderModule;
                    },
                    _ => {
                        self.stage = Stage::Failed(BootError::UnexpectedEvent);
                    },
                }
            },
        }
    }
}

/// Every step keeps the bootstrap well formed: each handle recorded so far is
/// non-null, the two buffers and the two memory blocks are distinct, the
/// chosen queue family can run compute work and the chosen memory type is
/// host-visible and host-coherent.
pub proof fn lemma_step_preserves_wf(b: Bootstrap, e: Event)
    requires
        b.wf(),
    ensures
        next_state(b, e).wf(),
{
    match e {
        Event::QueueFamilies(s) => {
            if b.stage == Stage::ListQueueFamilies && s@.len() <= u32::MAX
                && !(forall|j: int| 0 <= j < s@.len() ==> !has_compute(#[trigger] s@[j])) {
                let k = choose|k: int| 0 <= k < s@.len() && has_compute(s@[k]);
                lemma_first_compute_exists(s@, k);
            }
        },
        Event::MemoryTypes(s) => {
            if b.stage == Stage::ListMemoryTypes && s@.len() <= u32::MAX
                && !(forall|j: int| 0 <= j < s@.len() ==> !is_host_coherent(#[trigger] s@[j])) {
                let k = choose|k: int| 0 <= k < s@.len() && is_host_coherent(s@[k]);
                lemma_first_host_coherent_exists(s@, k);
            }
        },
        _ => {},
    }
}

/// A finished bootstrap holds every handle of the context; its input and
/// output buffers are bound, at offset zero, to two distinct memory blocks of
/// one memory type that is both host-visible and host-coherent.
pub proof fn lemma_ready_context(b: Bootstrap)
    requires
        b.wf(),
        b.stage == Stage::Ready,
    ensures
        b.engine.holds_all(),
        b.engine.input_buffer != b.engine.output_buffer,
        b.engine.input_buffer_memory != b.engine.output_buffer_memory,
        b.input_bound,
        b.output_bound,
        is_host_coherent(b.memory_type_flags),
        has_compute(b.queue_family_flags),
{
}

/// An accelerator without a compute-capable queue family ends the bootstrap:
/// no other family is ever chosen in its place.
pub proof fn lemma_no_compute_family_is_fatal(b: Bootstrap, s: Seq<u32>)
    requires
        b.stage == Stage::ListQueueFamilies,
        forall|j: int| 0 <= j < s.len() ==> !has_compute(#[trigger] s[j]),
    ensures
        after_queue_families(b, s).stage is Failed,
        s.len() <= u32::MAX ==> after_queue_families(b, s).stage
            == Stage::Failed(BootError::NoComputeQueue),
{
}

} // verus!
