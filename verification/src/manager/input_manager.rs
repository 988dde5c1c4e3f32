//! Manager of the input devices.
use vstd::prelude::*;
use crate::compositor::CompositorHandle;
use crate::events::pointer_events::{
    PointerAxis,
    PointerButton,
    PointerMotion,
    PointerMotionAbsolute,
};
use crate::manager::device_manager::{attached, detached, ids_of, Device, DeviceManager};
use crate::manager::pointer_handler::{
    wired,
    DetachedPointer,
    PointerHandler,
    PointerListeners,
    PointerSignals,
    PointerWrapper,
};
use crate::signal::{listener_on, shown, Listener, Notify, Registration, Signal, Subscription};
use crate::types::input_device::{InputDevice, InputDeviceType};
use crate::types::pointer::PointerHandle;

verus! {

/// What the application does when input devices come and go. Each callback
/// does nothing unless the application says otherwise.
pub trait InputManagerHandler<T> {
    /// Called when the backend has announced an input device, of any class.
    fn input_added(&mut self, compositor: &mut CompositorHandle<T>, device: &mut InputDevice) {
    }

    /// Called when the backend has withdrawn an input device, of any class.
    fn input_removed(&mut self, compositor: &mut CompositorHandle<T>, device: &mut InputDevice) {
    }

    /// Called when the backend has announced a pointer. The handler that
    /// comes back gets the events of this pointer; without one the pointer is
    /// attached and its events go nowhere.
    fn pointer_added(
        &mut self,
        compositor: &mut CompositorHandle<T>,
        pointer: &mut PointerHandle,
    ) -> Option<Box<dyn PointerHandler<T>>> {
        None
    }

    /// Called when the backend has withdrawn a pointer that had a handler.
    fn pointer_removed(&mut self, compositor: &mut CompositorHandle<T>, pointer: &mut PointerHandle) {
    }
}

/// Payload of the signal for new input devices.
#[derive(Clone, Copy, Debug, PartialEq, Eq, Structural)]
pub struct InputAdded {
    /// Handle of the device.
    pub device: usize,
    /// Class of the device.
    pub device_type: InputDeviceType,
    /// Handles of the signals of the device, where it is a pointer.
    pub pointer: PointerSignals,
    /// Handle of the signal by which the device says that it goes. It is
    /// null where the backend says so on one signal for all devices.
    pub destroy: usize,
}

/// What an entry is but for the handler of its wrapper.
pub struct InputShape {
    /// The device.
    pub device: InputDevice,
    /// Class of the device.
    pub device_type: InputDeviceType,
    /// The signals that the wrapper listens on and the listeners that it
    /// keeps there, if there is a wrapper.
    pub wiring: Option<(PointerSignals, PointerListeners)>,
    /// Handle of the signal by which the device says that it goes.
    pub destroy_signal: usize,
    /// The listener on that signal: none if the signal is null.
    pub destroy_listener: Option<Registration>,
}

/// An attached input device, with the wrapper of its pointer where the
/// device is a pointer that the application gave a handler.
#[verifier::reject_recursive_types(T)]
pub struct Input<T> {
    pub(crate) device: InputDevice,
    pub(crate) device_type: InputDeviceType,
    pub(crate) pointer: Option<PointerWrapper<T>>,
    pub(crate) destroy_listener: Subscription,
}

impl<T> Input<T> {
    /// The device.
    pub open(crate) spec fn spec_device(&self) -> InputDevice {
        self.device
    }

    /// Class of the device.
    pub open(crate) spec fn spec_device_type(&self) -> InputDeviceType {
        self.device_type
    }

    /// The wrapper of the pointer, if there is one.
    pub open(crate) spec fn spec_pointer(&self) -> Option<PointerWrapper<T>> {
        self.pointer
    }

    /// Handle of the signal by which the device says that it goes.
    pub open(crate) spec fn spec_destroy_signal(&self) -> usize {
        self.destroy_listener.spec_signal()
    }

    /// The listener on the signal by which the device says that it goes:
    /// none if that signal is null.
    pub open(crate) spec fn spec_destroy_listener(&self) -> Option<Registration> {
        self.destroy_listener.spec_listener()
    }

    /// The signals that the wrapper of the entry listens on and the listeners
    /// that it keeps there, if the entry has a wrapper.
    pub open spec fn wiring(&self) -> Option<(PointerSignals, PointerListeners)> {
        match self.spec_pointer() {
            Some(wrapper) => Some((wrapper.signals(), wrapper.listeners())),
            None => None,
        }
    }

    /// What the entry is but for the handler of its wrapper: the device, its
    /// class, the wiring and the listener for the going of the device.
    pub open spec fn shape(&self) -> InputShape {
        InputShape {
            device: self.spec_device(),
            device_type: self.spec_device_type(),
            wiring: self.wiring(),
            destroy_signal: self.spec_destroy_signal(),
            destroy_listener: self.spec_destroy_listener(),
        }
    }

    /// Makes the entry of the device that `data` describes. `handler` is what
    /// the application answered when it was asked for a handler of the
    /// events of a pointer. A pointer with a handler gets a wrapper, which
    /// listens on the signals that `data` names; any other device gets none.
    /// Every entry listens on the signal by which the device says that it
    /// goes, unless that signal is null.
    pub fn new(data: &InputAdded, handler: Option<Box<dyn PointerHandler<T>>>) -> (entry: Input<T>)
        ensures
            entry.made_from(*data),
            entry.spec_pointer() is Some <==> (handler is Some && data.device_type
                == InputDeviceType::Pointer),
    {
        let pointer = match handler {
            Some(given) => match data.device_type {
                InputDeviceType::Pointer => Some(
                    PointerWrapper::new((PointerHandle::from_ptr(data.device), given), data.pointer),
                ),
                _ => None,
            },
            None => None,
        };
        Input {
            device: InputDevice::from_ptr(data.device),
            device_type: data.device_type,
            pointer,
            destroy_listener: Subscription::new(data.destroy, Notify::InputRemove, data.device),
        }
    }

    /// What holds of every entry that a manager made for the device that
    /// `data` describes: it is that device, it listens on the signal by
    /// which the device says that it goes, and a wrapper is that of a
    /// pointer, listens on the signals that `data` names and keeps one
    /// listener on each that is not null.
    pub open spec fn made_from(&self, data: InputAdded) -> bool {
        &&& self.spec_device().spec_to_ptr() == data.device
        &&& self.spec_device_type() == data.device_type
        &&& self.spec_destroy_signal() == data.destroy
        &&& self.spec_destroy_listener() == listener_on(
            data.destroy,
            Notify::InputRemove,
            data.device,
        )
        &&& self.spec_pointer() matches Some(wrapper) ==> {
            &&& data.device_type == InputDeviceType::Pointer
            &&& wrapper.spec_input_device() == data.device
            &&& wrapper.signals() == data.pointer
            &&& wrapper.listeners() == wired(data.pointer, data.device)
        }
    }

    /// Takes the entry apart: its listener and every listener of its wrapper,
    /// if it has one, come off their signals. Returns the device and the
    /// signals, each without a listener.
    pub fn detach(self) -> (left: DetachedInput)
        ensures
            left.silent(),
            left.device == self.spec_device(),
            left.destroy.spec_handle() == self.spec_destroy_signal(),
            left.pointer is Some <==> self.spec_pointer() is Some,
            left.pointer matches Some(signals) ==> signals.signals()
                == self.spec_pointer()->0.signals(),
    {
        let Input { device, device_type, pointer, destroy_listener } = self;
        let pointer = match pointer {
            Some(wrapper) => {
                let (signals, handler) = wrapper.detach();
                Some(signals)
            },
            None => None,
        };
        DetachedInput { device, pointer, destroy: destroy_listener.cancel() }
    }

    /// The listener on the signal by which the device says that it goes.
    pub fn destroy_listener(&self) -> (listener: &Option<Listener>)
        ensures
            shown(*listener) == self.spec_destroy_listener(),
    {
        self.destroy_listener.listener()
    }

    /// The device.
    pub fn device(&self) -> (device: InputDevice)
        ensures
            device == self.spec_device(),
    {
        self.device
    }

    /// Class of the device.
    pub fn device_type(&self) -> (device_type: InputDeviceType)
        ensures
            device_type == self.spec_device_type(),
    {
        self.device_type
    }

    /// The wrapper of the pointer, if there is one.
    pub fn pointer(&self) -> (pointer: &Option<PointerWrapper<T>>)
        ensures
            *pointer == self.spec_pointer(),
    {
        &self.pointer
    }
}

impl<T> Device for Input<T> {
    open(crate) spec fn spec_id(&self) -> usize {
        self.device.spec_to_ptr()
    }

    fn id(&self) -> (id: usize) {
        self.device.to_ptr()
    }
}

/// An input device that has left its manager: the device, the signal by
/// which it says that it goes, and the signals of its pointer if it had a
/// wrapper, each without a listener.
pub struct DetachedInput {
    pub device: InputDevice,
    pub pointer: Option<DetachedPointer>,
    pub destroy: Signal,
}

impl DetachedInput {
    /// True if none of the signals has a listener.
    pub open spec fn silent(&self) -> bool {
        &&& self.destroy@.len() == 0
        &&& self.pointer matches Some(signals) ==> signals.silent()
    }
}

/// The shape of each of `entries`, in the same order.
pub open spec fn shapes<T>(entries: Seq<Input<T>>) -> Seq<InputShape> {
    Seq::new(entries.len(), |i: int| entries[i].shape())
}

/// True if `entry` is there and has the wrapper of a pointer.
pub open spec fn has_wrapper<T>(entry: Option<Input<T>>) -> bool {
    entry matches Some(input) && input.spec_pointer() is Some
}

/// The manager of the input devices.
pub type InputManager<T> = DeviceManager<Input<T>, Box<dyn InputManagerHandler<T>>>;

impl<T> DeviceManager<Input<T>, Box<dyn InputManagerHandler<T>>> {
    /// Entry point of the listener for new input devices.
    ///
    /// For a device that is attached already nothing happens. Any other
    /// device gets its entry: a pointer is shown to the handler's
    /// `pointer_added`, and [`Input::new`] makes the entry of the device and
    /// of what came back. The device is then shown to the handler's
    /// `input_added` and goes behind the attached devices. Returns whether
    /// the device was attached by this call.
    pub fn add_notify(&mut self, compositor: &mut CompositorHandle<T>, data: &InputAdded) -> (added:
        bool)
        ensures
            old(self).wf() ==> final(self).wf(),
            final(self).ids() == attached(old(self).ids(), data.device),
            final(self).spec_add_listener() == old(self).spec_add_listener(),
            final(self).spec_remove_listener() == old(self).spec_remove_listener(),
            final(self).spec_add_signal() == old(self).spec_add_signal(),
            final(self).spec_remove_signal() == old(self).spec_remove_signal(),
            added == !old(self).ids().contains(data.device),
            !added ==> *final(self) == *old(self) && *final(compositor) == *old(compositor),
            added ==> final(self).entries().drop_last() == old(self).entries()
                && final(self).entries().last().made_from(*data),
            added && data.device_type != InputDeviceType::Pointer
                ==> final(self).entries().last().spec_pointer() is None,
    {
        if self.contains(data.device) {
            return false;
        }
        let answer = match data.device_type {
            InputDeviceType::Pointer => {
                let mut handle = PointerHandle::from_ptr(data.device);
                self.handler.pointer_added(compositor, &mut handle)
            },
            _ => None,
        };
        let entry = Input::new(data, answer);
        let mut device = InputDevice::from_ptr(data.device);
        self.handler.input_added(compositor, &mut device);
        let refused = self.insert(entry);
        proof {
            assert(final(self).entries().drop_last() =~= old(self).entries());
        }
        true
    }

    /// Entry point of the listener for withdrawn input devices.
    ///
    /// For a device that is not attached nothing happens. An attached device
    /// leaves the attached devices; if it has a wrapper, the pointer is shown
    /// to the handler's `pointer_removed` and every listener of the wrapper
    /// comes off its signal; the device is then shown to the handler's
    /// `input_removed`, and the listener of the entry comes off its signal.
    /// Returns what is left of the entry.
    pub fn remove_notify(&mut self, compositor: &mut CompositorHandle<T>, device: usize) -> (removed:
        Option<DetachedInput>)
        ensures
            old(self).wf() ==> final(self).wf(),
            final(self).ids() == detached(old(self).ids(), device),
            final(self).spec_add_listener() == old(self).spec_add_listener(),
            final(self).spec_remove_listener() == old(self).spec_remove_listener(),
            final(self).spec_add_signal() == old(self).spec_add_signal(),
            final(self).spec_remove_signal() == old(self).spec_remove_signal(),
            removed is Some <==> old(self).ids().contains(device),
            removed is None ==> *final(self) == *old(self) && *final(compositor) == *old(
                compositor,
            ),
            old(self).ids().index_of_first(device) matches Some(i) ==> final(self).entries()
                == old(self).entries().remove(i),
            removed matches Some(left) ==> {
                &&& left.silent()
                &&& left.device.spec_to_ptr() == device
                &&& left.destroy.spec_handle() == old(self).entry(device)->0.spec_destroy_signal()
                &&& left.pointer is Some <==> has_wrapper(old(self).entry(device))
                &&& left.pointer matches Some(signals) ==> signals.signals() == old(self).entry(
                    device,
                )->0.spec_pointer()->0.signals()
            },
    {
        match self.take(device) {
            Some(entry) => {
                let Input { device: dev, device_type, pointer, destroy_listener } = entry;
                let left = match pointer {
                    Some(wrapper) => {
                        let mut handle = PointerHandle::from_ptr(device);
                        self.handler.pointer_removed(compositor, &mut handle);
                        let (signals, handler) = wrapper.detach();
                        Some(signals)
                    },
                    None => None,
                };
                let mut shown = dev;
                self.handler.input_removed(compositor, &mut shown);
                Some(DetachedInput { device: dev, pointer: left, destroy: destroy_listener.cancel() })
            },
            None => None,
        }
    }

    /// Entry point of the button listeners: hands `data` to the wrapper of
    /// the pointer that it names. Returns whether there is such a wrapper.
    /// The attached devices stay as they are.
    pub fn button_notify(&mut self, compositor: &mut CompositorHandle<T>, data: &PointerButton) -> (delivered:
        bool)
        ensures
            old(self).wf() ==> final(self).wf(),
            final(self).ids() == old(self).ids(),
            final(self).spec_add_listener() == old(self).spec_add_listener(),
            final(self).spec_remove_listener() == old(self).spec_remove_listener(),
            final(self).spec_add_signal() == old(self).spec_add_signal(),
            final(self).spec_remove_signal() == old(self).spec_remove_signal(),
            shapes(final(self).entries()) == shapes(old(self).entries()),
            delivered == has_wrapper(old(self).entry(data.device)),
            !delivered ==> *final(self) == *old(self) && *final(compositor) == *old(compositor),
    {
        match self.position(data.device) {
            Some(i) => {
                if self.devices[i].pointer.is_none() {
                    return false;
                }
                let ghost before = self.devices@;
                let entry = &mut self.devices[i];
                match &mut entry.pointer {
                    Some(wrapper) => {
                        wrapper.key_notify(compositor, data);
                    },
                    None => {},
                }
                proof {
                    assert(ids_of(self.devices@) =~= ids_of(before));
                    assert(shapes(self.devices@) =~= shapes(before));
                }
                true
            },
            None => false,
        }
    }

    /// Entry point of the motion listeners: hands `data` to the wrapper of
    /// the pointer that it names. Returns whether there is such a wrapper.
    /// The attached devices stay as they are.
    pub fn motion_notify(&mut self, compositor: &mut CompositorHandle<T>, data: &PointerMotion) -> (delivered:
        bool)
        ensures
            old(self).wf() ==> final(self).wf(),
            final(self).ids() == old(self).ids(),
            final(self).spec_add_listener() == old(self).spec_add_listener(),
            final(self).spec_remove_listener() == old(self).spec_remove_listener(),
            final(self).spec_add_signal() == old(self).spec_add_signal(),
            final(self).spec_remove_signal() == old(self).spec_remove_signal(),
            shapes(final(self).entries()) == shapes(old(self).entries()),
            delivered == has_wrapper(old(self).entry(data.device)),
            !delivered ==> *final(self) == *old(self) && *final(compositor) == *old(compositor),
    {
        match self.position(data.device) {
            Some(i) => {
                if self.devices[i].pointer.is_none() {
                    return false;
                }
                let ghost before = self.devices@;
                let entry = &mut self.devices[i];
                match &mut entry.pointer {
                    Some(wrapper) => {
                        wrapper.motion_notify(compositor, data);
                    },
                    None => {},
                }
                proof {
                    assert(ids_of(self.devices@) =~= ids_of(before));
                    assert(shapes(self.devices@) =~= shapes(before));
                }
                true
            },
            None => false,
        }
    }

    /// Entry point of the absolute motion listeners: hands `data` to the wrapper of
    /// the pointer that it names. Returns whether there is such a wrapper.
    /// The attached devices stay as they are.
    pub fn motion_absolute_notify(&mut self, compositor: &mut CompositorHandle<T>, data: &PointerMotionAbsolute) -> (delivered:
        bool)
        ensures
            old(self).wf() ==> final(self).wf(),
            final(self).ids() == old(self).ids(),
            final(self).spec_add_listener() == old(self).spec_add_listener(),
            final(self).spec_remove_listener() == old(self).spec_remove_listener(),
            final(self).spec_add_signal() == old(self).spec_add_signal(),
            final(self).spec_remove_signal() == old(self).spec_remove_signal(),
            shapes(final(self).entries()) == shapes(old(self).entries()),
            delivered == has_wrapper(old(self).entry(data.device)),
            !delivered ==> *final(self) == *old(self) && *final(compositor) == *old(compositor),
    {
        match self.position(data.device) {
            Some(i) => {
                if self.devices[i].pointer.is_none() {
                    return false;
                }
                let ghost before = self.devices@;
                let entry = &mut self.devices[i];
                match &mut entry.pointer {
                    Some(wrapper) => {
                        wrapper.motion_absolute_notify(compositor, data);
                    },
                    None => {},
                }
                proof {
                    assert(ids_of(self.devices@) =~= ids_of(before));
                    assert(shapes(self.devices@) =~= shapes(before));
                }
                true
            },
            None => false,
        }
    }

    /// Entry point of the axis listeners: hands `data` to the wrapper of
    /// the pointer that it names. Returns whether there is such a wrapper.
    /// The attached devices stay as they are.
    pub fn axis_notify(&mut self, compositor: &mut CompositorHandle<T>, data: &PointerAxis) -> (delivered:
        bool)
        ensures
            old(self).wf() ==> final(self).wf(),
            final(self).ids() == old(self).ids(),
            final(self).spec_add_listener() == old(self).spec_add_listener(),
            final(self).spec_remove_listener() == old(self).spec_remove_listener(),
            final(self).spec_add_signal() == old(self).spec_add_signal(),
            final(self).spec_remove_signal() == old(self).spec_remove_signal(),
            shapes(final(self).entries()) == shapes(old(self).entries()),
            delivered == has_wrapper(old(self).entry(data.device)),
            !delivered ==> *final(self) == *old(self) && *final(compositor) == *old(compositor),
    {
        match self.position(data.device) {
            Some(i) => {
                if self.devices[i].pointer.is_none() {
                    return false;
                }
                let ghost before = self.devices@;
                let entry = &mut self.devices[i];
                match &mut entry.pointer {
                    Some(wrapper) => {
                        wrapper.axis_notify(compositor, data);
                    },
                    None => {},
                }
                proof {
                    assert(ids_of(self.devices@) =~= ids_of(before));
                    assert(shapes(self.devices@) =~= shapes(before));
                }
                true
            },
            None => false,
        }
    }
}

} // verus!
