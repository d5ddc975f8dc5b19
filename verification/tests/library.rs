use pathtrace::device::{select_device, first_eligible_family, DeviceCandidate, DeviceKind, QueueFamily};
use pathtrace::event_loop::{AcquireOutcome, Command, FrameStep, Key, LoopState, Point, PresentOutcome, WindowInput};
use pathtrace::swapchain::swapchain_image_count;

fn family(graphics: bool, presents_to_surface: bool) -> QueueFamily {
    QueueFamily { graphics, presents_to_surface }
}

fn device(kind: DeviceKind, supports_required_extensions: bool, queue_families: Vec<QueueFamily>) -> DeviceCandidate {
    DeviceCandidate { kind, supports_required_extensions, queue_families }
}

#[test]
fn default_gives_each_type_its_default() {
    let n: u32 = pathtrace::default();
    assert_eq!(n, 0);
    let b: bool = pathtrace::default();
    assert!(!b);
    let s: String = pathtrace::default();
    assert_eq!(s, "");
    let v: Vec<u8> = pathtrace::default();
    assert!(v.is_empty());
    let o: Option<i64> = pathtrace::default();
    assert_eq!(o, None);
}

#[test]
fn no_device_no_selection() {
    assert_eq!(select_device(&vec![]), None);
}

#[test]
fn first_usable_device_and_family_are_chosen() {
    let devices = vec![
        device(DeviceKind::Cpu, true, vec![family(true, true)]),
        device(DeviceKind::DiscreteGpu, false, vec![family(true, true)]),
        device(DeviceKind::IntegratedGpu, true, vec![family(true, false), family(false, true)]),
        device(DeviceKind::IntegratedGpu, true, vec![family(false, true), family(true, true), family(true, true)]),
        device(DeviceKind::DiscreteGpu, true, vec![family(true, true)]),
    ];
    assert_eq!(select_device(&devices), Some((3, 1)));
}

#[test]
fn discrete_and_integrated_gpus_only() {
    for kind in [DeviceKind::Other, DeviceKind::VirtualGpu, DeviceKind::Cpu] {
        assert_eq!(select_device(&vec![device(kind, true, vec![family(true, true)])]), None);
    }
    for kind in [DeviceKind::DiscreteGpu, DeviceKind::IntegratedGpu] {
        assert_eq!(select_device(&vec![device(kind, true, vec![family(true, true)])]), Some((0, 0)));
    }
}

#[test]
fn device_without_a_presenting_graphics_family_is_skipped() {
    let devices = vec![
        device(DeviceKind::DiscreteGpu, true, vec![family(true, false), family(false, true)]),
        device(DeviceKind::IntegratedGpu, true, vec![family(false, false), family(true, true)]),
    ];
    assert_eq!(select_device(&devices), Some((1, 1)));
    assert_eq!(first_eligible_family(&devices[0].queue_families), None);
    assert_eq!(first_eligible_family(&devices[1].queue_families), Some(1));
}

#[test]
fn later_devices_do_not_change_the_choice() {
    let mut devices = vec![device(DeviceKind::DiscreteGpu, true, vec![family(true, true)])];
    let before = select_device(&devices);
    devices.push(device(DeviceKind::IntegratedGpu, true, vec![family(true, true)]));
    assert_eq!(select_device(&devices), before);
}

#[test]
fn image_count_is_at_least_two() {
    assert_eq!(swapchain_image_count(0), 2);
    assert_eq!(swapchain_image_count(1), 2);
    assert_eq!(swapchain_image_count(2), 2);
    assert_eq!(swapchain_image_count(3), 3);
    assert_eq!(swapchain_image_count(u32::MAX), u32::MAX);
}

#[test]
fn initial_state() {
    let s = LoopState::new();
    assert!(!s.recreate_swapchain);
    assert_eq!(s.pointer_position, Point { x: 0, y: 0 });
}

#[test]
fn window_inputs_give_their_commands() {
    let mut s = LoopState::new();
    assert_eq!(s.handle_input(WindowInput::RedrawRequested), Command::DrawFrame);
    assert_eq!(s.handle_input(WindowInput::CloseRequested), Command::Exit);
    assert_eq!(s.handle_input(WindowInput::CursorEntered), Command::FocusWindow);
    assert_eq!(s.handle_input(WindowInput::Other), Command::Nothing);
    assert_eq!(s.handle_input(WindowInput::Keyboard { key: Key::Escape, pressed: true }), Command::Exit);
    assert_eq!(s.handle_input(WindowInput::Keyboard { key: Key::Escape, pressed: false }), Command::Nothing);
    assert_eq!(s.handle_input(WindowInput::Keyboard { key: Key::Character(Some('q')), pressed: true }), Command::Exit);
    assert_eq!(s.handle_input(WindowInput::Keyboard { key: Key::Character(Some('Q')), pressed: true }), Command::Nothing);
    assert_eq!(s.handle_input(WindowInput::Keyboard { key: Key::Character(Some('q')), pressed: false }), Command::Nothing);
    assert_eq!(s.handle_input(WindowInput::Keyboard { key: Key::Character(None), pressed: true }), Command::Fail);
    assert_eq!(s.handle_input(WindowInput::Keyboard { key: Key::Other, pressed: true }), Command::Nothing);
    assert_eq!(s, LoopState::new());
}

#[test]
fn pointer_moves_are_recorded() {
    let mut s = LoopState::new();
    assert_eq!(s.handle_input(WindowInput::CursorMoved { x: 120, y: -7 }), Command::Nothing);
    assert_eq!(s.pointer_position, Point { x: 120, y: -7 });
    s.handle_input(WindowInput::Resized);
    s.begin_frame();
    s.after_acquire(AcquireOutcome::OutOfDate);
    s.after_present(PresentOutcome::OutOfDate);
    assert_eq!(s.pointer_position, Point { x: 120, y: -7 });
}

#[test]
fn resize_rebuilds_the_next_frame_once() {
    let mut s = LoopState::new();
    assert_eq!(s.handle_input(WindowInput::Resized), Command::Nothing);
    assert!(s.recreate_swapchain);
    assert!(s.wants_redraw(false));
    assert!(s.begin_frame());
    assert!(!s.recreate_swapchain);
    assert!(!s.begin_frame());
    assert!(!s.wants_redraw(false));
    assert!(s.wants_redraw(true));
}

#[test]
fn acquire_outcomes() {
    let mut s = LoopState::new();
    assert_eq!(s.after_acquire(AcquireOutcome::Acquired { index: 2, suboptimal: false }), FrameStep::Render(2));
    assert!(!s.recreate_swapchain);
    assert_eq!(s.after_acquire(AcquireOutcome::Acquired { index: 1, suboptimal: true }), FrameStep::Render(1));
    assert!(s.recreate_swapchain);

    let mut s = LoopState::new();
    assert_eq!(s.after_acquire(AcquireOutcome::OutOfDate), FrameStep::Abandon);
    assert!(s.begin_frame());

    let mut s = LoopState::new();
    assert_eq!(s.after_acquire(AcquireOutcome::Failed), FrameStep::Fail);
    assert_eq!(s, LoopState::new());
}

#[test]
fn present_outcomes() {
    let mut s = LoopState::new();
    assert!(s.after_present(PresentOutcome::Presented));
    assert!(!s.recreate_swapchain);
    assert!(!s.after_present(PresentOutcome::Failed));
    assert!(!s.recreate_swapchain);
    assert!(!s.after_present(PresentOutcome::OutOfDate));
    assert!(s.recreate_swapchain);
    assert!(s.wants_redraw(false));
    assert!(s.begin_frame());
}
