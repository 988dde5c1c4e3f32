use wlroots::compositor::{
    socket_variable, terminate, BuildError, Compositor, CompositorBuilder, CompositorHandle,
    CompositorSlot, Delivery, Event, RunError, Setup, Startup,
};
use wlroots::events::pointer_events::{ButtonEvent, ButtonState, PointerButton};
use wlroots::extensions::server_decoration::ServerDecorationManager;
use wlroots::manager::device_manager::Device;
use wlroots::manager::input_manager::{InputAdded, InputManagerHandler};
use wlroots::manager::output_manager::{OutputAdded, OutputManagerHandler};
use wlroots::manager::pointer_handler::{PointerHandler, PointerSignals};
use wlroots::render::gles2::GLES2;
use wlroots::signal::Notify;
use wlroots::types::input_device::InputDeviceType;
use wlroots::types::pointer::PointerHandle;

struct Quiet;

impl InputManagerHandler<Vec<u32>> for Quiet {}

impl OutputManagerHandler<Vec<u32>> for Quiet {}

struct StopOnButton;

impl PointerHandler<Vec<u32>> for StopOnButton {
    fn on_button(
        &mut self,
        compositor: &mut CompositorHandle<Vec<u32>>,
        _: &mut PointerHandle,
        event: &ButtonEvent,
    ) {
        compositor.data.push(event.button());
        compositor.terminate();
    }
}

struct WithPointers;

impl InputManagerHandler<Vec<u32>> for WithPointers {
    fn pointer_added(
        &mut self,
        _: &mut CompositorHandle<Vec<u32>>,
        _: &mut PointerHandle,
    ) -> Option<Box<dyn PointerHandler<Vec<u32>>>> {
        Some(Box::new(StopOnButton))
    }
}

fn setup(backend: usize) -> Setup {
    Setup {
        display: 0xd0,
        event_loop: 0xe0,
        backend,
        input_add: 0xa0,
        input_remove: 0xa1,
        output_add: 0xa2,
        output_remove: 0xa3,
        server_decoration_manager: 0x5d,
        gles2: 0x6e,
        socket: Some("wayland-0".to_string()),
    }
}

fn build(backend: usize) -> Compositor<Vec<u32>> {
    match CompositorBuilder::new().build_auto(vec![7], setup(backend), Box::new(WithPointers), Box::new(Quiet)) {
        Ok(compositor) => compositor,
        Err(_) => panic!("the setup is complete"),
    }
}

fn mouse(device: usize) -> Event {
    Event::InputAdd(InputAdded {
        device,
        device_type: InputDeviceType::Pointer,
        pointer: PointerSignals { button: 1, motion: 2, motion_absolute: 3, axis: 4 },
        destroy: 5,
    })
}

fn screen(output: usize) -> Event {
    Event::OutputAdd(OutputAdded { output, destroy: output + 0x500 })
}

fn inputs(compositor: &Compositor<Vec<u32>>) -> Vec<usize> {
    compositor.input_manager().devices().iter().map(|device| device.id()).collect()
}

fn outputs(compositor: &Compositor<Vec<u32>>) -> Vec<usize> {
    compositor.output_manager().devices().iter().map(|device| device.id()).collect()
}

#[test]
fn builder_starts_without_modules() {
    let builder = CompositorBuilder::new();
    assert!(!builder.wants_gles2());
    assert!(!builder.wants_server_decoration_manager());
}

#[test]
fn builder_keeps_each_choice() {
    let builder = CompositorBuilder::new().gles2(true);
    assert!(builder.wants_gles2());
    assert!(!builder.wants_server_decoration_manager());
    let builder = builder.server_decoration_manager(true);
    assert!(builder.wants_gles2());
    assert!(builder.wants_server_decoration_manager());
    let builder = builder.gles2(false);
    assert!(!builder.wants_gles2());
    assert!(builder.wants_server_decoration_manager());
}

#[test]
fn build_fails_without_backend() {
    let built = CompositorBuilder::new().build_auto(vec![], setup(0), Box::new(Quiet), Box::new(Quiet));
    assert!(matches!(built, Err(BuildError::Backend)));
}

#[test]
fn build_fails_without_socket() {
    let mut incomplete = setup(0xb0);
    incomplete.socket = None;
    let built = CompositorBuilder::new().build_auto(vec![], incomplete, Box::new(Quiet), Box::new(Quiet));
    assert!(matches!(built, Err(BuildError::Socket)));
}

#[test]
fn missing_backend_is_reported_before_missing_socket() {
    let mut incomplete = setup(0);
    incomplete.socket = None;
    let built = CompositorBuilder::new().build_auto(vec![], incomplete, Box::new(Quiet), Box::new(Quiet));
    assert!(matches!(built, Err(BuildError::Backend)));
}

#[test]
fn built_compositor_holds_the_handles() {
    let compositor = build(0xb0);
    assert_eq!(compositor.backend(), 0xb0);
    assert_eq!(compositor.display(), 0xd0);
    assert_eq!(compositor.event_loop(), 0xe0);
    assert_eq!(compositor.socket_name(), "wayland-0");
    assert!(inputs(&compositor).is_empty());
    assert!(outputs(&compositor).is_empty());
    assert!(!compositor.handle().is_terminating());
}

#[test]
fn built_compositor_listens_on_the_backend() {
    let compositor = build(0xb0);
    let listener = |l: &Option<wlroots::signal::Listener>| {
        let l = l.as_ref().expect("a listener");
        (l.signal(), l.notify(), l.payload())
    };
    assert_eq!(listener(compositor.input_manager().add_listener()), (0xa0, Notify::InputAdd, 0xb0));
    assert_eq!(
        listener(compositor.input_manager().remove_listener()),
        (0xa1, Notify::InputRemove, 0xb0)
    );
    assert_eq!(listener(compositor.output_manager().add_listener()), (0xa2, Notify::OutputAdd, 0xb0));
    assert_eq!(
        listener(compositor.output_manager().remove_listener()),
        (0xa3, Notify::OutputRemove, 0xb0)
    );
}

#[test]
fn modules_are_made_only_when_asked_for() {
    let plain = build(0xb0);
    assert!(plain.handle().server_decoration_manager().is_none());
    assert!(plain.handle().gles2().is_none());

    let built = CompositorBuilder::new()
        .gles2(true)
        .server_decoration_manager(true)
        .build_auto(vec![], setup(0xb0), Box::new(Quiet), Box::new(Quiet));
    let full = match built {
        Ok(compositor) => compositor,
        Err(_) => panic!("the setup is complete"),
    };
    assert_eq!(full.handle().server_decoration_manager().as_ref().map(|m| m.to_ptr()), Some(0x5d));
    assert_eq!(full.handle().gles2().as_ref().map(|r| r.to_ptr()), Some(0x6e));
}

#[test]
fn module_that_the_backend_did_not_make_is_absent() {
    let mut partial = setup(0xb0);
    partial.gles2 = 0;
    let built = CompositorBuilder::new()
        .gles2(true)
        .server_decoration_manager(true)
        .build_auto(vec![], partial, Box::new(Quiet), Box::new(Quiet));
    let compositor = match built {
        Ok(compositor) => compositor,
        Err(_) => panic!("the setup is complete"),
    };
    assert!(compositor.handle().gles2().is_none());
    assert!(compositor.handle().server_decoration_manager().is_some());
    assert!(ServerDecorationManager::new(0).is_none());
    assert!(GLES2::new(0).is_none());
    assert_eq!(GLES2::new(5).map(|r| r.to_ptr()), Some(5));
}

#[test]
fn socket_is_published_under_its_variable() {
    assert_eq!(socket_variable(), "_WAYLAND_DISPLAY");
}

#[test]
fn event_names_its_entry_point() {
    assert_eq!(mouse(1).notify(), Notify::InputAdd);
    assert_eq!(Event::InputRemove(1).notify(), Notify::InputRemove);
    assert_eq!(screen(1).notify(), Notify::OutputAdd);
    assert_eq!(Event::OutputRemove(1).notify(), Notify::OutputRemove);
    let press = PointerButton { device: 1, button: 272, state: ButtonState::Pressed };
    assert_eq!(Event::PointerButton(press).notify(), Notify::PointerButton);
}

#[test]
fn dispatch_attaches_and_detaches() {
    let mut compositor = build(0xb0);
    assert!(matches!(compositor.dispatch(&mouse(0x100)), Delivery::Attached(true)));
    assert!(matches!(compositor.dispatch(&mouse(0x100)), Delivery::Attached(false)));
    assert!(matches!(compositor.dispatch(&screen(0x7)), Delivery::Attached(true)));
    assert!(matches!(compositor.dispatch(&screen(0x8)), Delivery::Attached(true)));
    assert_eq!(inputs(&compositor), vec![0x100]);
    assert_eq!(outputs(&compositor), vec![0x7, 0x8]);
    assert!(matches!(compositor.dispatch(&Event::OutputRemove(0x7)), Delivery::OutputDetached(Some(_))));
    assert!(matches!(compositor.dispatch(&Event::OutputRemove(0x7)), Delivery::OutputDetached(None)));
    assert!(matches!(compositor.dispatch(&Event::InputRemove(0x5)), Delivery::InputDetached(None)));
    match compositor.dispatch(&Event::InputRemove(0x100)) {
        Delivery::InputDetached(Some(left)) => {
            assert_eq!(left.device.to_ptr(), 0x100);
            assert!(left.pointer.is_some());
        }
        _ => panic!("the pointer was attached"),
    }
    assert!(inputs(&compositor).is_empty());
    assert_eq!(outputs(&compositor), vec![0x8]);
    assert_eq!(compositor.backend(), 0xb0);
    assert_eq!(compositor.display(), 0xd0);
}

#[test]
fn handler_can_ask_for_a_stop() {
    let mut compositor = build(0xb0);
    compositor.dispatch(&mouse(0x100));
    let press = PointerButton { device: 0x100, button: 272, state: ButtonState::Pressed };
    assert!(!compositor.handle().is_terminating());
    assert!(matches!(compositor.dispatch(&Event::PointerButton(press)), Delivery::Handled(true)));
    assert!(compositor.handle().is_terminating());
    let elsewhere = PointerButton { device: 0x200, button: 272, state: ButtonState::Pressed };
    assert!(matches!(compositor.dispatch(&Event::PointerButton(elsewhere)), Delivery::Handled(false)));
}

#[test]
fn terminate_marks_the_compositor() {
    let mut compositor = build(0xb0);
    compositor.terminate();
    assert!(compositor.handle().is_terminating());
    compositor.terminate();
    assert!(compositor.handle().is_terminating());
    assert_eq!(compositor.display(), 0xd0);
}

#[test]
fn handle_takes_the_request_to_stop() {
    let mut handle = CompositorHandle::new(vec![1u32], None, GLES2::new(3));
    assert!(!handle.is_terminating());
    handle.terminate();
    assert!(handle.is_terminating());
    assert_eq!(handle.gles2().as_ref().map(|r| r.to_ptr()), Some(3));
    assert!(handle.server_decoration_manager().is_none());
}

#[test]
fn new_slot_is_idle() {
    let slot: CompositorSlot<Vec<u32>> = CompositorSlot::new();
    assert!(!slot.is_running());
    assert!(!slot.is_started());
    assert!(slot.compositor().is_none());
}

#[test]
fn run_asks_for_the_backend_to_start() {
    let mut slot = CompositorSlot::new();
    assert_eq!(build(0xb0).run(&mut slot), Ok(0xb0));
    assert!(slot.is_running());
    assert!(!slot.is_started());
    assert_eq!(slot.backend_started(true), Startup::Run { display: 0xd0 });
    assert!(slot.is_running());
    assert!(slot.is_started());
    assert_eq!(slot.backend_started(true), Startup::Ignored);
    assert_eq!(slot.backend_started(false), Startup::Ignored);
    assert!(slot.is_running());
}

#[test]
fn backend_that_does_not_start_is_to_be_destroyed() {
    let mut slot = CompositorSlot::new();
    assert_eq!(build(0xb0).run(&mut slot), Ok(0xb0));
    assert_eq!(slot.backend_started(false), Startup::Abort { backend: 0xb0 });
    assert!(!slot.is_running());
    assert!(!slot.is_started());
}

#[test]
fn answer_of_a_backend_that_nobody_waits_for_is_ignored() {
    let mut slot: CompositorSlot<Vec<u32>> = CompositorSlot::new();
    assert_eq!(slot.backend_started(true), Startup::Ignored);
    assert!(!slot.is_running());
    assert!(!slot.is_started());
}

#[test]
fn second_run_is_refused_and_the_first_goes_on() {
    let mut slot = CompositorSlot::new();
    assert_eq!(build(0xb1).run(&mut slot), Ok(0xb1));
    assert_eq!(slot.backend_started(true), Startup::Run { display: 0xd0 });
    slot.dispatch(&screen(0x7));
    assert_eq!(build(0xb2).run(&mut slot), Err(RunError::AlreadyRunning));
    assert!(slot.is_running());
    assert!(slot.is_started());
    let first = slot.compositor().as_ref().expect("the first compositor runs");
    assert_eq!(first.backend(), 0xb1);
    assert_eq!(outputs(first), vec![0x7]);
    assert!(!first.handle().is_terminating());
}

#[test]
fn second_run_is_refused_while_the_first_starts() {
    let mut slot = CompositorSlot::new();
    assert_eq!(build(0xb1).run(&mut slot), Ok(0xb1));
    assert_eq!(build(0xb2).run(&mut slot), Err(RunError::AlreadyRunning));
    assert_eq!(slot.compositor().as_ref().map(|c| c.backend()), Some(0xb1));
    assert_eq!(slot.backend_started(true), Startup::Run { display: 0xd0 });
}

#[test]
fn terminate_without_compositor_does_nothing() {
    let mut slot: CompositorSlot<Vec<u32>> = CompositorSlot::new();
    assert!(terminate(&mut slot).is_none());
    assert!(!slot.is_running());
    assert!(!slot.is_started());
    assert!(terminate(&mut slot).is_none());
}

#[test]
fn terminate_takes_the_compositor_out() {
    let mut slot = CompositorSlot::new();
    build(0xb0).run(&mut slot).unwrap();
    slot.backend_started(true);
    slot.dispatch(&mouse(0x100));
    let stopped = terminate(&mut slot).expect("a compositor ran");
    assert!(stopped.handle().is_terminating());
    assert_eq!(stopped.display(), 0xd0);
    assert_eq!(inputs(&stopped), vec![0x100]);
    assert!(!slot.is_running());
    assert!(!slot.is_started());
    assert!(terminate(&mut slot).is_none());
}

#[test]
fn slot_is_free_again_after_terminate() {
    let mut slot = CompositorSlot::new();
    build(0xb1).run(&mut slot).unwrap();
    terminate(&mut slot);
    assert_eq!(build(0xb2).run(&mut slot), Ok(0xb2));
    assert_eq!(slot.compositor().as_ref().map(|c| c.backend()), Some(0xb2));
}

#[test]
fn slot_is_free_again_after_a_failed_start() {
    let mut slot = CompositorSlot::new();
    build(0xb1).run(&mut slot).unwrap();
    slot.backend_started(false);
    assert_eq!(build(0xb2).run(&mut slot), Ok(0xb2));
}

#[test]
fn events_reach_the_compositor_that_runs() {
    let mut slot = CompositorSlot::new();
    assert!(slot.dispatch(&screen(0x7)).is_none());
    build(0xb0).run(&mut slot).unwrap();
    assert!(matches!(slot.dispatch(&screen(0x7)), Some(Delivery::Attached(true))));
    slot.backend_started(true);
    assert!(matches!(slot.dispatch(&mouse(0x100)), Some(Delivery::Attached(true))));
    assert!(matches!(slot.dispatch(&screen(0x7)), Some(Delivery::Attached(false))));
    let running = slot.compositor().as_ref().unwrap();
    assert_eq!(outputs(running), vec![0x7]);
    assert_eq!(inputs(running), vec![0x100]);
    terminate(&mut slot);
    assert!(slot.dispatch(&screen(0x9)).is_none());
}

#[test]
fn closed_compositor_leaves_no_listener() {
    let mut compositor = build(0xb0);
    compositor.dispatch(&mouse(0x100));
    compositor.dispatch(&Event::InputAdd(InputAdded {
        device: 0x30,
        device_type: InputDeviceType::Keyboard,
        pointer: PointerSignals { button: 0, motion: 0, motion_absolute: 0, axis: 0 },
        destroy: 6,
    }));
    compositor.dispatch(&mouse(0x200));
    compositor.dispatch(&screen(0x7));
    let remains = compositor.close();
    assert_eq!((remains.backend, remains.display, remains.event_loop), (0xb0, 0xd0, 0xe0));
    assert_eq!(remains.input_add.handle(), 0xa0);
    assert_eq!(remains.input_remove.handle(), 0xa1);
    assert_eq!(remains.output_add.handle(), 0xa2);
    assert_eq!(remains.output_remove.handle(), 0xa3);
    assert_eq!(remains.input_add.subscriber_count(), 0);
    assert_eq!(remains.input_remove.subscriber_count(), 0);
    assert_eq!(remains.output_add.subscriber_count(), 0);
    assert_eq!(remains.output_remove.subscriber_count(), 0);
    let devices: Vec<usize> = remains.inputs.iter().map(|input| input.device.to_ptr()).collect();
    assert_eq!(devices, vec![0x100, 0x30, 0x200]);
    let wrapped: Vec<bool> = remains.inputs.iter().map(|input| input.pointer.is_some()).collect();
    assert_eq!(wrapped, vec![true, false, true]);
    for input in &remains.inputs {
        if let Some(signals) = &input.pointer {
            assert_eq!(signals.button.handle(), 1);
            assert_eq!(signals.button.subscriber_count(), 0);
            assert_eq!(signals.motion.subscriber_count(), 0);
            assert_eq!(signals.motion_absolute.subscriber_count(), 0);
            assert_eq!(signals.axis.subscriber_count(), 0);
        }
    }
    let outputs: Vec<usize> = remains.outputs.iter().map(|output| output.output.to_ptr()).collect();
    assert_eq!(outputs, vec![0x7]);
    assert_eq!(remains.outputs[0].destroy.handle(), 0x507);
    assert_eq!(remains.outputs[0].destroy.subscriber_count(), 0);
    let going: Vec<usize> = remains.inputs.iter().map(|input| input.destroy.handle()).collect();
    assert_eq!(going, vec![5, 6, 5]);
    for input in &remains.inputs {
        assert_eq!(input.destroy.subscriber_count(), 0);
    }
}

#[test]
fn built_compositor_holds_the_data() {
    let mut compositor = build(0xb0);
    assert_eq!(compositor.data(), &vec![7]);
    assert_eq!(compositor.handle().data(), &vec![7]);
    compositor.data_mut().push(8);
    assert_eq!(compositor.data(), &vec![7, 8]);
    assert_eq!(compositor.backend(), 0xb0);
    assert!(!compositor.handle().is_terminating());
}

#[test]
fn handler_reaches_the_data() {
    let mut compositor = build(0xb0);
    compositor.dispatch(&mouse(0x100));
    let press = PointerButton { device: 0x100, button: 272, state: ButtonState::Pressed };
    compositor.dispatch(&Event::PointerButton(press));
    let release = PointerButton { device: 0x100, button: 273, state: ButtonState::Released };
    compositor.dispatch(&Event::PointerButton(release));
    assert_eq!(compositor.data(), &vec![7, 272, 273]);
    compositor.terminate();
    assert_eq!(compositor.data(), &vec![7, 272, 273]);
    let remains = compositor.close();
    assert_eq!(remains.data, vec![7, 272, 273]);
}

#[test]
fn slot_is_free_again_after_the_loop_returned() {
    let mut slot = CompositorSlot::new();
    build(0xb1).run(&mut slot).unwrap();
    assert_eq!(slot.backend_started(true), Startup::Run { display: 0xd0 });
    slot.dispatch(&mouse(0x100));
    let press = PointerButton { device: 0x100, button: 272, state: ButtonState::Pressed };
    slot.dispatch(&Event::PointerButton(press));
    assert!(slot.compositor().as_ref().unwrap().handle().is_terminating());
    assert!(slot.is_running());
    let ran = slot.stopped().expect("the compositor was still in the slot");
    assert_eq!(ran.backend(), 0xb1);
    assert_eq!(ran.data(), &vec![7, 272]);
    assert!(!slot.is_running());
    assert!(!slot.is_started());
    assert_eq!(build(0xb2).run(&mut slot), Ok(0xb2));
}

#[test]
fn stopped_on_a_free_slot_gives_nothing() {
    let mut slot: CompositorSlot<Vec<u32>> = CompositorSlot::new();
    assert!(slot.stopped().is_none());
    assert!(!slot.is_running());
    build(0xb1).run(&mut slot).unwrap();
    terminate(&mut slot);
    assert!(slot.stopped().is_none());
    assert!(!slot.is_running());
}
