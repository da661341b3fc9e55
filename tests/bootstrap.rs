use speedo::{
    Accelerator, AcceleratorClass, Action, BootError, Bootstrap, BufferRole, DeviceFeatures, Engine,
    Event,
    Release, ResourceKind, Stage, BUFFER_SIZE, STORAGE_BINDINGS,
};

fn accelerators() -> Vec<Accelerator> {
    vec![
        Accelerator {
            class: AcceleratorClass::Integrated,
            max_memory_allocation_count: 4_096,
            max_compute_shared_memory_size: 65_536,
        },
        Accelerator {
            class: AcceleratorClass::Discrete,
            max_memory_allocation_count: 4_294_967_295,
            max_compute_shared_memory_size: 49_152,
        },
    ]
}

/// Drives a bootstrap to the end, answering each action as a healthy driver
/// would, and returns the actions it asked for.
fn run(b: &mut Bootstrap, requirement: u64) -> Vec<Action> {
    let mut actions = Vec::new();
    let mut next_handle: u64 = 100;
    loop {
        let action = b.next_action();
        actions.push(action);
        let event = match action {
            Action::Finish | Action::Abort(_) => break,
            Action::ListAccelerators => Event::Accelerators(accelerators()),
            Action::ListQueueFamilies { .. } => Event::QueueFamilies(vec![0x1, 0x6, 0x7]),
            Action::QueryRequirement { .. } => Event::Requirement(requirement),
            Action::ListMemoryTypes { .. } => Event::MemoryTypes(vec![0x1, 0x3, 0x7, 0x6]),
            Action::BindMemory { .. } => Event::Bound,
            _ => {
                next_handle += 1;
                Event::Created(next_handle)
            }
        };
        b.advance(event);
    }
    actions
}

#[test]
fn full_bootstrap_follows_the_stages() {
    let mut b = Bootstrap::new(false, Some(4_206_592));
    let actions = run(&mut b, 64);
    let expected = vec![
        Action::CreateInstance { api_version: 4_206_592, identity_version: 4_096, validation: false },
        Action::ListAccelerators,
        Action::ListQueueFamilies { accelerator: 1 },
        Action::CreateDevice {
            accelerator: 1,
            queue_family: 1,
            features: DeviceFeatures {
                logic_op: true,
                shader_float64: true,
                shader_int64: true,
                shader_int16: true,
            },
        },
        Action::CreateBuffer { role: BufferRole::Input, size: 64, queue_family: 1 },
        Action::CreateBuffer { role: BufferRole::Output, size: 64, queue_family: 1 },
        Action::QueryRequirement { role: BufferRole::Input, buffer: 103 },
        Action::QueryRequirement { role: BufferRole::Output, buffer: 104 },
        Action::ListMemoryTypes { accelerator: 1 },
        Action::AllocateMemory { role: BufferRole::Input, size: 64, memory_type: 2 },
        Action::AllocateMemory { role: BufferRole::Output, size: 64, memory_type: 2 },
        Action::BindMemory { role: BufferRole::Input, buffer: 103, memory: 105, offset: 0 },
        Action::BindMemory { role: BufferRole::Output, buffer: 104, memory: 106, offset: 0 },
        Action::CreateShaderModule,
        Action::CreateSetLayout { bindings: 2 },
        Action::CreatePipelineLayout { set_layout: 108 },
        Action::CreatePipelineCache,
        Action::CreatePipeline { cache: 110, module: 107, layout: 109 },
        Action::CreateCommandPool { queue_family: 1, resettable: true },
        Action::AllocateCommandBuffers { pool: 112, count: 1 },
        Action::Finish,
    ];
    assert_eq!(actions, expected);
    assert_eq!(b.stage, Stage::Ready);
    assert_eq!(
        b.into_engine(),
        Some(Engine {
            instance: 101,
            debug_messenger: None,
            device: 102,
            input_buffer: 103,
            output_buffer: 104,
            input_buffer_memory: 105,
            output_buffer_memory: 106,
            command_pool: 112,
        })
    );
    assert_eq!(BUFFER_SIZE, 64);
    assert_eq!(STORAGE_BINDINGS, 2);
}

#[test]
fn padded_requirement_is_allocated_whole_and_bound_at_zero() {
    let mut b = Bootstrap::new(false, None);
    let actions = run(&mut b, 256);
    assert!(actions.contains(&Action::CreateBuffer {
        role: BufferRole::Input,
        size: 64,
        queue_family: 1
    }));
    assert!(actions.contains(&Action::AllocateMemory {
        role: BufferRole::Input,
        size: 256,
        memory_type: 2
    }));
    assert!(actions.contains(&Action::AllocateMemory {
        role: BufferRole::Output,
        size: 256,
        memory_type: 2
    }));
    for a in &actions {
        if let Action::AllocateMemory { size, .. } = a {
            assert!(*size >= 64);
        }
        if let Action::BindMemory { offset, .. } = a {
            assert_eq!(*offset, 0);
        }
    }
    assert_eq!(b.stage, Stage::Ready);
    let e = b.into_engine().unwrap();
    assert_ne!(e.input_buffer_memory, e.output_buffer_memory);
}

#[test]
fn diagnostics_add_the_debug_messenger() {
    let mut b = Bootstrap::new(true, None);
    let actions = run(&mut b, 64);
    assert_eq!(
        actions[0],
        Action::CreateInstance { api_version: 4_194_304, identity_version: 4_096, validation: true }
    );
    assert_eq!(actions[1], Action::CreateDebugMessenger);
    assert_eq!(actions[2], Action::ListAccelerators);
    let e = b.into_engine().unwrap();
    assert_eq!(e.debug_messenger, Some(102));
    assert_eq!(e.instance, 101);
}

fn at_stage(stage: Stage) -> Bootstrap {
    let mut b = Bootstrap::new(false, None);
    let mut next_handle: u64 = 500;
    while b.stage != stage {
        let event = match b.next_action() {
            Action::ListAccelerators => Event::Accelerators(accelerators()),
            Action::ListQueueFamilies { .. } => Event::QueueFamilies(vec![0x2]),
            Action::QueryRequirement { .. } => Event::Requirement(64),
            Action::ListMemoryTypes { .. } => Event::MemoryTypes(vec![0x6]),
            Action::BindMemory { .. } => Event::Bound,
            Action::Finish | Action::Abort(_) => panic!("stage not reached"),
            _ => {
                next_handle += 1;
                Event::Created(next_handle)
            }
        };
        b.advance(event);
    }
    b
}

#[test]
fn no_accelerator_is_fatal() {
    let mut b = at_stage(Stage::ListAccelerators);
    b.advance(Event::Accelerators(Vec::new()));
    assert_eq!(b.next_action(), Action::Abort(BootError::NoAccelerator));
    assert_eq!(b.into_engine(), None);
}

#[test]
fn no_compute_family_is_fatal() {
    let mut b = at_stage(Stage::ListQueueFamilies);
    b.advance(Event::QueueFamilies(vec![0x1, 0x4, 0x8]));
    assert_eq!(b.stage, Stage::Failed(BootError::NoComputeQueue));
    assert_eq!(b.next_action(), Action::Abort(BootError::NoComputeQueue));
}

#[test]
fn no_host_coherent_memory_is_fatal() {
    let mut b = at_stage(Stage::ListMemoryTypes);
    b.advance(Event::MemoryTypes(vec![0x1, 0x2, 0x4]));
    assert_eq!(b.next_action(), Action::Abort(BootError::NoHostCoherentMemory));
}

#[test]
fn refused_call_is_fatal() {
    let mut b = at_stage(Stage::CreateDevice);
    b.advance(Event::Refused);
    assert_eq!(b.next_action(), Action::Abort(BootError::Refused));
    b.advance(Event::Created(9));
    assert_eq!(b.stage, Stage::Failed(BootError::Refused));
}

#[test]
fn null_or_repeated_handle_is_refused() {
    let mut b = at_stage(Stage::CreateInstance);
    b.advance(Event::Created(0));
    assert_eq!(b.stage, Stage::Failed(BootError::InvalidHandle));

    let mut b = at_stage(Stage::AllocateOutputMemory);
    let input_memory = b.engine.input_buffer_memory;
    b.advance(Event::Created(input_memory));
    assert_eq!(b.stage, Stage::Failed(BootError::InvalidHandle));

    let mut b = at_stage(Stage::CreateOutputBuffer);
    let input_buffer = b.engine.input_buffer;
    b.advance(Event::Created(input_buffer));
    assert_eq!(b.stage, Stage::Failed(BootError::InvalidHandle));
}

#[test]
fn answer_to_another_step_is_refused() {
    let mut b = at_stage(Stage::CreateDevice);
    b.advance(Event::Bound);
    assert_eq!(b.stage, Stage::Failed(BootError::UnexpectedEvent));

    let mut b = at_stage(Stage::BindInputMemory);
    b.advance(Event::Created(77));
    assert_eq!(b.stage, Stage::Failed(BootError::UnexpectedEvent));

    let mut b = at_stage(Stage::CreateInstance);
    b.advance(Event::Requirement(64));
    assert_eq!(b.next_action(), Action::Abort(BootError::UnexpectedEvent));
}

#[test]
fn teardown_runs_in_reverse_order() {
    let mut b = Bootstrap::new(true, None);
    run(&mut b, 64);
    let mut e = b.into_engine().unwrap();
    let released = e.teardown();
    let expected = vec![
        Release { kind: ResourceKind::CommandPool, handle: 113 },
        Release { kind: ResourceKind::OutputMemory, handle: 107 },
        Release { kind: ResourceKind::InputMemory, handle: 106 },
        Release { kind: ResourceKind::OutputBuffer, handle: 105 },
        Release { kind: ResourceKind::InputBuffer, handle: 104 },
        Release { kind: ResourceKind::Device, handle: 103 },
        Release { kind: ResourceKind::DebugMessenger, handle: 102 },
        Release { kind: ResourceKind::Instance, handle: 101 },
    ];
    assert_eq!(released, expected);
}

#[test]
fn teardown_without_diagnostics_skips_messenger() {
    let mut b = Bootstrap::new(false, None);
    run(&mut b, 64);
    let mut e = b.into_engine().unwrap();
    let kinds: Vec<ResourceKind> = e.teardown().iter().map(|r| r.kind).collect();
    assert_eq!(
        kinds,
        vec![
            ResourceKind::CommandPool,
            ResourceKind::OutputMemory,
            ResourceKind::InputMemory,
            ResourceKind::OutputBuffer,
            ResourceKind::InputBuffer,
            ResourceKind::Device,
            ResourceKind::Instance,
        ]
    );
}

#[test]
fn teardown_twice_releases_nothing_more() {
    let mut b = Bootstrap::new(true, None);
    run(&mut b, 64);
    let mut e = b.into_engine().unwrap();
    assert_eq!(e.teardown().len(), 8);
    assert_eq!(e, Engine::empty(true));
    assert!(e.teardown().is_empty());
    assert!(Engine::empty(false).teardown().is_empty());
}
