use nvn_research::{
    forwarded_handles, slot_for, BufferState, ColorMask, Command, InitError, Interceptor, Mode,
    Rect, Submission, RING_SIZE,
};

fn marker(texture: u64) -> Vec<Command> {
    let rect = Rect { x: 0, y: 0, width: 420, height: 420 };
    vec![
        Command::SetRenderTarget(texture),
        Command::SetScissor(rect),
        Command::SetViewport(rect),
        Command::ClearColor { target: 0, mask: ColorMask { r: true, g: true, b: true, a: false } },
    ]
}

fn injected(s: &Submission) -> Option<(Option<usize>, Vec<Command>)> {
    match s {
        Submission::Forward => None,
        Submission::Inject { slot, handle } => Some((*slot, handle.commands.clone())),
    }
}

#[test]
fn second_texture_is_marked_and_handle_goes_first() {
    let (a, b) = (0xA000u64, 0xB000u64);
    let mut it = Interceptor::new(Mode::Pooled);
    it.set_textures(&[a, b]);
    it.acquire_texture(1);
    let s = it.queue_submit_commands();
    let (slot, commands) = injected(&s).expect("injects");
    assert_eq!(slot, Some(1));
    assert_eq!(commands, marker(b));
    let hinjected = 0x77u64;
    assert_eq!(forwarded_handles(&[0x11, 0x22], Some(hinjected)), vec![hinjected, 0x11, 0x22]);
}

#[test]
fn never_bound_forwards_exactly() {
    let mut it = Interceptor::new(Mode::Pooled);
    let s = it.queue_submit_commands();
    assert!(matches!(s, Submission::Forward));
    assert!(it.ring.is_none());
    assert_eq!(forwarded_handles(&[0x11], None), vec![0x11]);
}

#[test]
fn stale_index_is_skipped() {
    let mut it = Interceptor::new(Mode::Pooled);
    it.set_textures(&[1, 2]);
    it.acquire_texture(5);
    assert!(matches!(it.queue_submit_commands(), Submission::Forward));
    it.acquire_texture(-1);
    assert!(matches!(it.queue_submit_commands(), Submission::Forward));
}

#[test]
fn acquire_before_bind_is_not_ready() {
    let mut it = Interceptor::new(Mode::Pooled);
    it.acquire_texture(0);
    assert!(matches!(it.queue_submit_commands(), Submission::Forward));
    it.set_textures(&[9]);
    let (_, commands) = injected(&it.queue_submit_commands()).expect("injects");
    assert_eq!(commands, marker(9));
}

#[test]
fn binding_replaces_the_texture_set() {
    let mut it = Interceptor::new(Mode::Pooled);
    it.set_textures(&[1, 2, 3]);
    it.set_textures(&[4]);
    assert_eq!(it.tracker.textures(), &[4u64][..]);
    it.acquire_texture(2);
    assert!(matches!(it.queue_submit_commands(), Submission::Forward));
}

#[test]
fn pooled_slots_cycle_and_are_rerecorded() {
    let textures = [10u64, 11, 12];
    let mut it = Interceptor::new(Mode::Pooled);
    it.set_textures(&textures);
    for round in 0..2 {
        for i in 0..3usize {
            it.acquire_texture(i as i32);
            let (slot, commands) = injected(&it.queue_submit_commands()).expect("injects");
            assert_eq!(slot, Some(i % RING_SIZE), "round {}", round);
            assert_eq!(commands, marker(textures[i]));
            let ring = it.ring.as_ref().expect("ring made on first use");
            assert_eq!(ring.buffers[i].commands, marker(textures[i]));
            assert_eq!(ring.buffers[i].state, BufferState::Recorded);
        }
    }
}

#[test]
fn slot_for_wraps_modulo_ring() {
    assert_eq!(slot_for(0), 0);
    assert_eq!(slot_for(2), 2);
    assert_eq!(slot_for(3), 0);
    assert_eq!(slot_for(7), 1);
}

#[test]
fn pooled_reuse_discards_previous_frame() {
    let mut it = Interceptor::new(Mode::Pooled);
    it.set_textures(&[1, 2, 3, 4]);
    it.acquire_texture(0);
    it.queue_submit_commands();
    it.set_textures(&[5, 6, 7, 8]);
    it.acquire_texture(3);
    let (slot, commands) = injected(&it.queue_submit_commands()).expect("injects");
    assert_eq!(slot, Some(0));
    assert_eq!(commands, marker(8));
    assert_eq!(it.ring.as_ref().unwrap().buffers[0].commands, marker(8));
}

#[test]
fn transient_mode_uses_no_ring() {
    let mut it = Interceptor::new(Mode::Transient);
    it.set_textures(&[3, 4]);
    it.acquire_texture(0);
    let (slot, commands) = injected(&it.queue_submit_commands()).expect("injects");
    assert_eq!(slot, None);
    assert_eq!(commands, marker(3));
    assert!(it.ring.is_none());
}

#[test]
fn forwarded_keeps_order_and_handles_empty_list() {
    assert_eq!(forwarded_handles(&[], Some(5)), vec![5]);
    assert_eq!(forwarded_handles(&[], None), Vec::<u64>::new());
    assert_eq!(forwarded_handles(&[3, 1, 2], Some(9)), vec![9, 3, 1, 2]);
}

#[test]
fn device_initialize_captures_device_or_fails() {
    let mut it = Interceptor::new(Mode::Pooled);
    assert_eq!(it.device_initialize(0x42, false), Err(InitError::DeviceInitializeFailed));
    assert_eq!(it.tracker.device(), None);
    assert_eq!(it.device_initialize(0x42, true), Ok(()));
    assert_eq!(it.tracker.device(), Some(0x42));
}
