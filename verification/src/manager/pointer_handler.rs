//! Handler for pointers.
use vstd::prelude::*;
use crate::compositor::CompositorHandle;
use crate::events::pointer_events::{
    AbsoluteMotionEvent,
    AxisEvent,
    ButtonEvent,
    MotionEvent,
    PointerAxis,
    PointerButton,
    PointerMotion,
    PointerMotionAbsolute,
};
use crate::manager::device_manager::Device;
use crate::signal::{listener_on, shown, Listener, Notify, Registration, Signal, Subscription};
use crate::types::pointer::PointerHandle;

verus! {

/// What the application does with the events of one pointer. Each callback
/// does nothing unless the application says otherwise.
pub trait PointerHandler<T> {
    /// Callback that is triggered when the pointer moves.
    fn on_motion(
        &mut self,
        compositor: &mut CompositorHandle<T>,
        pointer: &mut PointerHandle,
        event: &MotionEvent,
    ) {
    }

    /// Callback that is triggered when the pointer moves to an absolute
    /// position.
    fn on_motion_absolute(
        &mut self,
        compositor: &mut CompositorHandle<T>,
        pointer: &mut PointerHandle,
        event: &AbsoluteMotionEvent,
    ) {
    }

    /// Callback that is triggered when the buttons on the pointer are pressed.
    fn on_button(
        &mut self,
        compositor: &mut CompositorHandle<T>,
        pointer: &mut PointerHandle,
        event: &ButtonEvent,
    ) {
    }

    /// Callback that is triggered when an axis of the pointer is scrolled.
    fn on_axis(
        &mut self,
        compositor: &mut CompositorHandle<T>,
        pointer: &mut PointerHandle,
        event: &AxisEvent,
    ) {
    }
}

/// Handles of the signals that a pointer emits.
#[derive(Clone, Copy, Debug, PartialEq, Eq, Structural)]
pub struct PointerSignals {
    pub button: usize,
    pub motion: usize,
    pub motion_absolute: usize,
    pub axis: usize,
}

/// The signals of a pointer after its wrapper was taken apart, each without a
/// listener.
pub struct DetachedPointer {
    pub button: Signal,
    pub motion: Signal,
    pub motion_absolute: Signal,
    pub axis: Signal,
}

impl DetachedPointer {
    /// True if none of the four signals has a listener.
    pub open spec fn silent(&self) -> bool {
        &&& self.button@.len() == 0
        &&& self.motion@.len() == 0
        &&& self.motion_absolute@.len() == 0
        &&& self.axis@.len() == 0
    }

    /// Handles of the four signals.
    pub open spec fn signals(&self) -> PointerSignals {
        PointerSignals {
            button: self.button.spec_handle(),
            motion: self.motion.spec_handle(),
            motion_absolute: self.motion_absolute.spec_handle(),
            axis: self.axis.spec_handle(),
        }
    }
}

/// The listeners that a wrapper keeps, one for each signal of its pointer that
/// is not null.
pub struct PointerListeners {
    pub button: Option<Registration>,
    pub motion: Option<Registration>,
    pub motion_absolute: Option<Registration>,
    pub axis: Option<Registration>,
}

/// The listeners of the wrapper of the device `device` whose signals are
/// `signals`.
pub open spec fn wired(signals: PointerSignals, device: usize) -> PointerListeners {
    PointerListeners {
        button: listener_on(signals.button, Notify::PointerButton, device),
        motion: listener_on(signals.motion, Notify::PointerMotion, device),
        motion_absolute: listener_on(
            signals.motion_absolute,
            Notify::PointerMotionAbsolute,
            device,
        ),
        axis: listener_on(signals.axis, Notify::PointerAxis, device),
    }
}

/// A pointer with the handler of its events and with one listener on each of
/// its signals. When a signal fires, the listener's entry point here builds
/// the typed view of the payload and calls the handler.
#[verifier::reject_recursive_types(T)]
pub struct PointerWrapper<T> {
    pointer: PointerHandle,
    handler: Box<dyn PointerHandler<T>>,
    button_listener: Subscription,
    motion_listener: Subscription,
    motion_absolute_listener: Subscription,
    axis_listener: Subscription,
}

impl<T> PointerWrapper<T> {
    /// Handle of the input device behind the pointer.
    pub closed spec fn spec_input_device(&self) -> usize {
        self.pointer.spec_input_device()
    }

    /// Handles of the signals that the wrapper listens on.
    pub closed spec fn signals(&self) -> PointerSignals {
        PointerSignals {
            button: self.button_listener.spec_signal(),
            motion: self.motion_listener.spec_signal(),
            motion_absolute: self.motion_absolute_listener.spec_signal(),
            axis: self.axis_listener.spec_signal(),
        }
    }

    /// The listeners that the wrapper keeps.
    pub closed spec fn listeners(&self) -> PointerListeners {
        PointerListeners {
            button: self.button_listener.spec_listener(),
            motion: self.motion_listener.spec_listener(),
            motion_absolute: self.motion_absolute_listener.spec_listener(),
            axis: self.axis_listener.spec_listener(),
        }
    }

    /// Wraps the pointer `data.0` with its handler `data.1` and registers one
    /// listener on each of the pointer's signals that is not null.
    pub fn new(data: (PointerHandle, Box<dyn PointerHandler<T>>), signals: PointerSignals) -> (wrapper:
        PointerWrapper<T>)
        ensures
            wrapper.spec_input_device() == data.0.spec_input_device(),
            wrapper.signals() == signals,
            wrapper.listeners() == wired(signals, data.0.spec_input_device()),
    {
        let device = data.0.input_device();
        PointerWrapper {
            pointer: data.0,
            handler: data.1,
            button_listener: Subscription::new(signals.button, Notify::PointerButton, device),
            motion_listener: Subscription::new(signals.motion, Notify::PointerMotion, device),
            motion_absolute_listener: Subscription::new(
                signals.motion_absolute,
                Notify::PointerMotionAbsolute,
                device,
            ),
            axis_listener: Subscription::new(signals.axis, Notify::PointerAxis, device),
        }
    }

    /// Handle of the input device behind the pointer.
    #[verifier::when_used_as_spec(spec_input_device)]
    pub fn input_device(&self) -> (device: usize)
        ensures
            device == self.spec_input_device(),
    {
        self.pointer.input_device()
    }

    /// The listener on the button signal.
    pub fn button_listener(&self) -> (listener: &Option<Listener>)
        ensures
            shown(*listener) == self.listeners().button,
    {
        self.button_listener.listener()
    }

    /// The listener on the motion signal.
    pub fn motion_listener(&self) -> (listener: &Option<Listener>)
        ensures
            shown(*listener) == self.listeners().motion,
    {
        self.motion_listener.listener()
    }

    /// The listener on the absolute motion signal.
    pub fn motion_absolute_listener(&self) -> (listener: &Option<Listener>)
        ensures
            shown(*listener) == self.listeners().motion_absolute,
    {
        self.motion_absolute_listener.listener()
    }

    /// The listener on the axis signal.
    pub fn axis_listener(&self) -> (listener: &Option<Listener>)
        ensures
            shown(*listener) == self.listeners().axis,
    {
        self.axis_listener.listener()
    }

    /// Entry point of the button listener: hands the view of `data` to the
    /// handler's `on_button`. The wrapper keeps its pointer and its
    /// listeners, whatever the handler does.
    pub fn key_notify(&mut self, compositor: &mut CompositorHandle<T>, data: &PointerButton)
        ensures
            final(self).spec_input_device() == old(self).spec_input_device(),
            final(self).signals() == old(self).signals(),
            final(self).listeners() == old(self).listeners(),
    {
        let event = ButtonEvent::from_ptr(data);
        let mut pointer = self.pointer;
        self.handler.on_button(compositor, &mut pointer, &event);
    }

    /// Entry point of the motion listener: hands the view of `data` to the
    /// handler's `on_motion`. The wrapper keeps its pointer and its
    /// listeners, whatever the handler does.
    pub fn motion_notify(&mut self, compositor: &mut CompositorHandle<T>, data: &PointerMotion)
        ensures
            final(self).spec_input_device() == old(self).spec_input_device(),
            final(self).signals() == old(self).signals(),
            final(self).listeners() == old(self).listeners(),
    {
        let event = MotionEvent::from_ptr(data);
        let mut pointer = self.pointer;
        self.handler.on_motion(compositor, &mut pointer, &event);
    }

    /// Entry point of the absolute motion listener: hands the view of `data`
    /// to the handler's `on_motion_absolute`. The wrapper keeps its pointer
    /// and its listeners, whatever the handler does.
    pub fn motion_absolute_notify(
        &mut self,
        compositor: &mut CompositorHandle<T>,
        data: &PointerMotionAbsolute,
    )
        ensures
            final(self).spec_input_device() == old(self).spec_input_device(),
            final(self).signals() == old(self).signals(),
            final(self).listeners() == old(self).listeners(),
    {
        let event = AbsoluteMotionEvent::from_ptr(data);
        let mut pointer = self.pointer;
        self.handler.on_motion_absolute(compositor, &mut pointer, &event);
    }

    /// Entry point of the axis listener: hands the view of `data` to the
    /// handler's `on_axis`. The wrapper keeps its pointer and its listeners,
    /// whatever the handler does.
    pub fn axis_notify(&mut self, compositor: &mut CompositorHandle<T>, data: &PointerAxis)
        ensures
            final(self).spec_input_device() == old(self).spec_input_device(),
            final(self).signals() == old(self).signals(),
            final(self).listeners() == old(self).listeners(),
    {
        let event = AxisEvent::from_ptr(data);
        let mut pointer = self.pointer;
        self.handler.on_axis(compositor, &mut pointer, &event);
    }

    /// Takes the wrapper apart: every listener comes off its signal. Returns
    /// the four signals, none of which has a listener left, and the handler.
    pub fn detach(self) -> (parts: (DetachedPointer, Box<dyn PointerHandler<T>>))
        ensures
            parts.0.silent(),
            parts.0.signals() == self.signals(),
    {
        let PointerWrapper {
            pointer,
            handler,
            button_listener,
            motion_listener,
            motion_absolute_listener,
            axis_listener,
        } = self;
        let detached = DetachedPointer {
            button: button_listener.cancel(),
            motion: motion_listener.cancel(),
            motion_absolute: motion_absolute_listener.cancel(),
            axis: axis_listener.cancel(),
        };
        (detached, handler)
    }
}

} // verus!
