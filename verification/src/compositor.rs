//! The compositor: owner of the backend, of the display and of the event
//! loop, and of the managers of the devices.
use vstd::prelude::*;
use crate::events::pointer_events::{
    PointerAxis,
    PointerButton,
    PointerMotion,
    PointerMotionAbsolute,
};
use crate::extensions::server_decoration::ServerDecorationManager;
use crate::manager::device_manager::{attached, detached, DeviceManager};
use crate::manager::input_manager::{
    has_wrapper,
    shapes,
    DetachedInput,
    InputAdded,
    InputManager,
    InputManagerHandler,
};
use crate::manager::output_manager::{
    DetachedOutput,
    OutputAdded,
    OutputManager,
    OutputManagerHandler,
};
use crate::render::gles2::GLES2;
use crate::signal::{listener_on, Notify, Signal, Subscription};
use crate::types::input_device::InputDeviceType;

verus! {

/// What a handler can reach of the compositor while an event is delivered.
///
/// Every callback of a handler gets a mutable reference to this. It holds
/// what the application keeps with the compositor, of the type `T`, and the
/// optional modules, and it takes the request to stop the event loop.
pub struct CompositorHandle<T> {
    /// What the application keeps with the compositor.
    pub data: T,
    server_decoration_manager: Option<ServerDecorationManager>,
    gles2: Option<GLES2>,
    terminating: bool,
}

impl<T> CompositorHandle<T> {
    /// What the application keeps with the compositor.
    pub closed spec fn spec_data(&self) -> T {
        self.data
    }

    /// The decoration manager, if the compositor was built with one.
    pub closed spec fn spec_server_decoration_manager(&self) -> Option<ServerDecorationManager> {
        self.server_decoration_manager
    }

    /// The renderer, if the compositor was built with one.
    pub closed spec fn spec_gles2(&self) -> Option<GLES2> {
        self.gles2
    }

    /// True once a stop of the event loop has been asked for.
    pub closed spec fn spec_is_terminating(&self) -> bool {
        self.terminating
    }

    /// A handle with the data of the application and the given modules, on
    /// which no stop has been asked for.
    pub fn new(
        data: T,
        server_decoration_manager: Option<ServerDecorationManager>,
        gles2: Option<GLES2>,
    ) -> (handle: CompositorHandle<T>)
        ensures
            handle.spec_data() == data,
            handle.spec_server_decoration_manager() == server_decoration_manager,
            handle.spec_gles2() == gles2,
            !handle.spec_is_terminating(),
    {
        CompositorHandle { data, server_decoration_manager, gles2, terminating: false }
    }

    /// What the application keeps with the compositor.
    pub fn data(&self) -> (data: &T)
        ensures
            *data == self.spec_data(),
    {
        &self.data
    }

    /// The decoration manager, if the compositor was built with one.
    pub fn server_decoration_manager(&self) -> (manager: &Option<ServerDecorationManager>)
        ensures
            *manager == self.spec_server_decoration_manager(),
    {
        &self.server_decoration_manager
    }

    /// The renderer, if the compositor was built with one.
    pub fn gles2(&self) -> (renderer: &Option<GLES2>)
        ensures
            *renderer == self.spec_gles2(),
    {
        &self.gles2
    }

    /// True once a stop of the event loop has been asked for.
    #[verifier::when_used_as_spec(spec_is_terminating)]
    pub fn is_terminating(&self) -> (terminating: bool)
        ensures
            terminating == self.spec_is_terminating(),
    {
        self.terminating
    }

    /// Asks for the event loop to stop once the event that is being
    /// delivered has been handled. Asking again changes nothing.
    pub fn terminate(&mut self)
        ensures
            final(self).spec_is_terminating(),
            final(self).spec_data() == old(self).spec_data(),
            final(self).spec_server_decoration_manager() == old(self).spec_server_decoration_manager(),
            final(self).spec_gles2() == old(self).spec_gles2(),
    {
        self.terminating = true;
    }
}

/// Why a compositor could not be built. Either failure is fatal: there is
/// nothing that a client could connect to.
#[derive(Clone, Copy, Debug, PartialEq, Eq, Structural)]
pub enum BuildError {
    /// The backend could not be created.
    Backend,
    /// The socket for the clients could not be opened.
    Socket,
}

/// What the backend made for a compositor that is being built: handles, the
/// null handle where something was not made, and the name of the socket that
/// was opened for the clients.
pub struct Setup {
    /// Handle of the display.
    pub display: usize,
    /// Handle of the event loop of the display.
    pub event_loop: usize,
    /// Handle of the backend that was selected.
    pub backend: usize,
    /// Handle of the backend's signal for new input devices.
    pub input_add: usize,
    /// Handle of the backend's signal for withdrawn input devices.
    pub input_remove: usize,
    /// Handle of the backend's signal for new outputs.
    pub output_add: usize,
    /// Handle of the backend's signal for withdrawn outputs.
    pub output_remove: usize,
    /// Handle of the decoration manager.
    pub server_decoration_manager: usize,
    /// Handle of the renderer.
    pub gles2: usize,
    /// Name of the socket, if one could be opened.
    pub socket: Option<String>,
}

/// Collects the choices for a compositor and builds it.
pub struct CompositorBuilder {
    gles2: bool,
    server_decoration_manager: bool,
}

impl CompositorBuilder {
    /// True if the compositor is to have a renderer.
    pub closed spec fn spec_wants_gles2(&self) -> bool {
        self.gles2
    }

    /// True if the compositor is to have a decoration manager.
    pub closed spec fn spec_wants_server_decoration_manager(&self) -> bool {
        self.server_decoration_manager
    }

    /// A builder that asks for neither optional module.
    pub fn new() -> (builder: Self)
        ensures
            !builder.spec_wants_gles2(),
            !builder.spec_wants_server_decoration_manager(),
    {
        CompositorBuilder { gles2: false, server_decoration_manager: false }
    }

    /// Says whether the compositor is to have a renderer.
    pub fn gles2(self, gles2_renderer: bool) -> (builder: Self)
        ensures
            builder.spec_wants_gles2() == gles2_renderer,
            builder.spec_wants_server_decoration_manager()
                == self.spec_wants_server_decoration_manager(),
    {
        let mut builder = self;
        builder.gles2 = gles2_renderer;
        builder
    }

    /// Says whether the compositor is to have a decoration manager.
    pub fn server_decoration_manager(self, server_decoration_manager: bool) -> (builder: Self)
        ensures
            builder.spec_wants_server_decoration_manager() == server_decoration_manager,
            builder.spec_wants_gles2() == self.spec_wants_gles2(),
    {
        let mut builder = self;
        builder.server_decoration_manager = server_decoration_manager;
        builder
    }

    /// True if the compositor is to have a renderer.
    #[verifier::when_used_as_spec(spec_wants_gles2)]
    pub fn wants_gles2(&self) -> (wanted: bool)
        ensures
            wanted == self.spec_wants_gles2(),
    {
        self.gles2
    }

    /// True if the compositor is to have a decoration manager.
    #[verifier::when_used_as_spec(spec_wants_server_decoration_manager)]
    pub fn wants_server_decoration_manager(&self) -> (wanted: bool)
        ensures
            wanted == self.spec_wants_server_decoration_manager(),
    {
        self.server_decoration_manager
    }

    /// Makes a new compositor on the backend that was selected for it. The
    /// compositor keeps `data` for the application, which reaches it through
    /// the compositor and, in a handler, through the handle that the handler
    /// is given.
    ///
    /// Fails if the backend is null, and else if no socket was opened; where
    /// the backend is null nothing else of `setup` is looked at. Otherwise
    /// the compositor has the two managers, each with the handler given for
    /// it, with no device, and with one listener on each of its two signals
    /// of the backend that is not null. It has the decoration manager and the
    /// renderer that were asked for, as far as the backend made them.
    pub fn build_auto<T>(
        self,
        data: T,
        setup: Setup,
        input_manager_handler: Box<dyn InputManagerHandler<T>>,
        output_manager_handler: Box<dyn OutputManagerHandler<T>>,
    ) -> (built: Result<Compositor<T>, BuildError>)
        ensures
            setup.backend == 0 ==> built == Err::<Compositor<T>, BuildError>(BuildError::Backend),
            setup.backend != 0 && setup.socket is None ==> built == Err::<Compositor<T>, BuildError>(
                BuildError::Socket,
            ),
            setup.backend != 0 && setup.socket is Some ==> built is Ok,
            built matches Ok(compositor) ==> {
                &&& compositor.built_from(self, setup)
                &&& compositor.spec_handle().spec_data() == data
                &&& compositor.spec_input_manager().spec_handler() == input_manager_handler
                &&& compositor.spec_output_manager().spec_handler() == output_manager_handler
            },
    {
        if setup.backend == 0 {
            return Err(BuildError::Backend);
        }
        let Setup {
            display,
            event_loop,
            backend,
            input_add,
            input_remove,
            output_add,
            output_remove,
            server_decoration_manager,
            gles2,
            socket,
        } = setup;
        let input_manager = DeviceManager::new(
            input_manager_handler,
            Subscription::new(input_add, Notify::InputAdd, backend),
            Subscription::new(input_remove, Notify::InputRemove, backend),
        );
        let output_manager = DeviceManager::new(
            output_manager_handler,
            Subscription::new(output_add, Notify::OutputAdd, backend),
            Subscription::new(output_remove, Notify::OutputRemove, backend),
        );
        let decoration = if self.server_decoration_manager {
            ServerDecorationManager::new(server_decoration_manager)
        } else {
            None
        };
        let renderer = if self.gles2 {
            GLES2::new(gles2)
        } else {
            None
        };
        match socket {
            None => Err(BuildError::Socket),
            Some(socket_name) => Ok(
                Compositor {
                    input_manager,
                    output_manager,
                    backend,
                    display,
                    event_loop,
                    socket_name,
                    handle: CompositorHandle::new(data, decoration, renderer),
                },
            ),
        }
    }
}

/// Name of the variable of the environment under which the name of the socket
/// is published to the clients.
pub fn socket_variable() -> (name: &'static str)
    ensures
        name@ == "_WAYLAND_DISPLAY"@,
{
    "_WAYLAND_DISPLAY"
}

/// What the backend reports while the compositor runs: the payload of a
/// signal, under the entry point that the signal's listener reaches.
pub enum Event {
    /// An input device has appeared.
    InputAdd(InputAdded),
    /// The input device with this handle has gone.
    InputRemove(usize),
    /// An output has appeared.
    OutputAdd(OutputAdded),
    /// The output with this handle has gone.
    OutputRemove(usize),
    /// A pointer button was pressed or released.
    PointerButton(PointerButton),
    /// A pointer moved by a relative amount.
    PointerMotion(PointerMotion),
    /// A pointer moved to an absolute position.
    PointerMotionAbsolute(PointerMotionAbsolute),
    /// A pointer axis was scrolled.
    PointerAxis(PointerAxis),
}

impl Event {
    /// The entry point that the event is for.
    pub open spec fn spec_notify(&self) -> Notify {
        match *self {
            Event::InputAdd(_) => Notify::InputAdd,
            Event::InputRemove(_) => Notify::InputRemove,
            Event::OutputAdd(_) => Notify::OutputAdd,
            Event::OutputRemove(_) => Notify::OutputRemove,
            Event::PointerButton(_) => Notify::PointerButton,
            Event::PointerMotion(_) => Notify::PointerMotion,
            Event::PointerMotionAbsolute(_) => Notify::PointerMotionAbsolute,
            Event::PointerAxis(_) => Notify::PointerAxis,
        }
    }

    /// The entry point that the event is for.
    #[verifier::when_used_as_spec(spec_notify)]
    pub fn notify(&self) -> (notify: Notify)
        ensures
            notify == self.spec_notify(),
    {
        match self {
            Event::InputAdd(_) => Notify::InputAdd,
            Event::InputRemove(_) => Notify::InputRemove,
            Event::OutputAdd(_) => Notify::OutputAdd,
            Event::OutputRemove(_) => Notify::OutputRemove,
            Event::PointerButton(_) => Notify::PointerButton,
            Event::PointerMotion(_) => Notify::PointerMotion,
            Event::PointerMotionAbsolute(_) => Notify::PointerMotionAbsolute,
            Event::PointerAxis(_) => Notify::PointerAxis,
        }
    }

    /// The input devices that are attached after the event, given those that
    /// were attached before it.
    pub open spec fn inputs_after(&self, inputs: Seq<usize>) -> Seq<usize> {
        match *self {
            Event::InputAdd(data) => attached(inputs, data.device),
            Event::InputRemove(device) => detached(inputs, device),
            _ => inputs,
        }
    }

    /// The outputs that are attached after the event, given those that were
    /// attached before it.
    pub open spec fn outputs_after(&self, outputs: Seq<usize>) -> Seq<usize> {
        match *self {
            Event::OutputAdd(data) => attached(outputs, data.output),
            Event::OutputRemove(output) => detached(outputs, output),
            _ => outputs,
        }
    }
}

/// What became of an event.
pub enum Delivery {
    /// The device was attached, or was attached already and nothing was done.
    Attached(bool),
    /// The input device left, with what is left of its entry, or was not
    /// attached and nothing was done.
    InputDetached(Option<DetachedInput>),
    /// The output left, with what is left of its entry, or was not attached
    /// and nothing was done.
    OutputDetached(Option<DetachedOutput>),
    /// The event of a pointer went to the pointer's handler, or there was
    /// none and nothing was done.
    Handled(bool),
}

/// What is left of a compositor that was closed.
pub struct Remains<T> {
    /// What the application kept with the compositor.
    pub data: T,
    /// Handle of the backend.
    pub backend: usize,
    /// Handle of the display.
    pub display: usize,
    /// Handle of the event loop.
    pub event_loop: usize,
    /// The input devices that were attached, each taken apart.
    pub inputs: Vec<DetachedInput>,
    /// The outputs that were attached, each taken apart.
    pub outputs: Vec<DetachedOutput>,
    /// The backend's signal for new input devices.
    pub input_add: Signal,
    /// The backend's signal for withdrawn input devices.
    pub input_remove: Signal,
    /// The backend's signal for new outputs.
    pub output_add: Signal,
    /// The backend's signal for withdrawn outputs.
    pub output_remove: Signal,
}

impl<T> Remains<T> {
    /// True if no signal of the backend and no signal of a device has a
    /// listener left.
    pub open spec fn silent(&self) -> bool {
        &&& self.input_add@.len() == 0
        &&& self.input_remove@.len() == 0
        &&& self.output_add@.len() == 0
        &&& self.output_remove@.len() == 0
        &&& forall|i: int| 0 <= i < self.inputs@.len() ==> (#[trigger] self.inputs@[i]).silent()
        &&& forall|i: int| 0 <= i < self.outputs@.len() ==> (#[trigger] self.outputs@[i]).silent()
    }
}

/// The compositor: the backend with its display and event loop, the managers
/// of the input devices and of the outputs, and the optional modules.
#[verifier::reject_recursive_types(T)]
pub struct Compositor<T> {
    input_manager: InputManager<T>,
    output_manager: OutputManager<T>,
    backend: usize,
    display: usize,
    event_loop: usize,
    socket_name: String,
    handle: CompositorHandle<T>,
}

impl<T> Compositor<T> {
    /// The manager of the input devices.
    pub closed spec fn spec_input_manager(&self) -> InputManager<T> {
        self.input_manager
    }

    /// The manager of the outputs.
    pub closed spec fn spec_output_manager(&self) -> OutputManager<T> {
        self.output_manager
    }

    /// Handle of the backend.
    pub closed spec fn spec_backend(&self) -> usize {
        self.backend
    }

    /// Handle of the display.
    pub closed spec fn spec_display(&self) -> usize {
        self.display
    }

    /// Handle of the event loop.
    pub closed spec fn spec_event_loop(&self) -> usize {
        self.event_loop
    }

    /// Name of the socket on which the clients connect.
    pub closed spec fn spec_socket_name(&self) -> Seq<char> {
        self.socket_name@
    }

    /// What the handlers can reach of the compositor.
    pub closed spec fn spec_handle(&self) -> CompositorHandle<T> {
        self.handle
    }

    /// Validity of a compositor: that of its two managers.
    pub open spec fn wf(&self) -> bool {
        self.spec_input_manager().wf() && self.spec_output_manager().wf()
    }

    /// True if the compositor is what `builder` makes of `setup`, whatever
    /// the handlers.
    pub open spec fn built_from(&self, builder: CompositorBuilder, setup: Setup) -> bool {
        &&& self.wf()
        &&& self.spec_backend() == setup.backend
        &&& self.spec_display() == setup.display
        &&& self.spec_event_loop() == setup.event_loop
        &&& setup.socket matches Some(name) && self.spec_socket_name() == name@
        &&& self.spec_input_manager().ids() == Seq::<usize>::empty()
        &&& self.spec_input_manager().spec_add_listener() == listener_on(
            setup.input_add,
            Notify::InputAdd,
            setup.backend,
        )
        &&& self.spec_input_manager().spec_remove_listener() == listener_on(
            setup.input_remove,
            Notify::InputRemove,
            setup.backend,
        )
        &&& self.spec_input_manager().spec_add_signal() == setup.input_add
        &&& self.spec_input_manager().spec_remove_signal() == setup.input_remove
        &&& self.spec_output_manager().ids() == Seq::<usize>::empty()
        &&& self.spec_output_manager().spec_add_listener() == listener_on(
            setup.output_add,
            Notify::OutputAdd,
            setup.backend,
        )
        &&& self.spec_output_manager().spec_remove_listener() == listener_on(
            setup.output_remove,
            Notify::OutputRemove,
            setup.backend,
        )
        &&& self.spec_output_manager().spec_add_signal() == setup.output_add
        &&& self.spec_output_manager().spec_remove_signal() == setup.output_remove
        &&& !self.spec_handle().spec_is_terminating()
        &&& self.spec_handle().spec_server_decoration_manager() is Some <==> (
        builder.spec_wants_server_decoration_manager() && setup.server_decoration_manager != 0)
        &&& self.spec_handle().spec_server_decoration_manager() matches Some(manager)
            ==> manager.spec_to_ptr() == setup.server_decoration_manager
        &&& self.spec_handle().spec_gles2() is Some <==> (builder.spec_wants_gles2() && setup.gles2
            != 0)
        &&& self.spec_handle().spec_gles2() matches Some(renderer) ==> renderer.spec_to_ptr()
            == setup.gles2
    }

    /// The compositor after a stop of its event loop was asked for.
    pub closed spec fn terminated(self) -> Compositor<T> {
        Compositor {
            handle: CompositorHandle { terminating: true, ..self.handle },
            ..self
        }
    }

    /// The compositor with `data` in the place of what the application kept
    /// with it.
    pub closed spec fn with_data(self, data: T) -> Compositor<T> {
        Compositor { handle: CompositorHandle { data, ..self.handle }, ..self }
    }

    /// Other data changes nothing else of the compositor.
    pub proof fn lemma_with_data(self, data: T)
        ensures
            self.with_data(data).spec_handle().spec_data() == data,
            self.with_data(data).spec_handle().spec_is_terminating()
                == self.spec_handle().spec_is_terminating(),
            self.with_data(data).spec_handle().spec_server_decoration_manager()
                == self.spec_handle().spec_server_decoration_manager(),
            self.with_data(data).spec_handle().spec_gles2() == self.spec_handle().spec_gles2(),
            self.with_data(data).spec_input_manager() == self.spec_input_manager(),
            self.with_data(data).spec_output_manager() == self.spec_output_manager(),
            self.with_data(data).spec_backend() == self.spec_backend(),
            self.with_data(data).spec_display() == self.spec_display(),
            self.with_data(data).spec_event_loop() == self.spec_event_loop(),
            self.with_data(data).spec_socket_name() == self.spec_socket_name(),
            self.with_data(self.spec_handle().spec_data()) == self,
            self.wf() ==> self.with_data(data).wf(),
    {
    }

    /// Asking for a stop marks the compositor and changes nothing else.
    pub proof fn lemma_terminated(self)
        ensures
            self.terminated().spec_handle().spec_is_terminating(),
            self.terminated().spec_handle().spec_server_decoration_manager()
                == self.spec_handle().spec_server_decoration_manager(),
            self.terminated().spec_handle().spec_gles2() == self.spec_handle().spec_gles2(),
            self.terminated().spec_handle().spec_data() == self.spec_handle().spec_data(),
            self.terminated().spec_input_manager() == self.spec_input_manager(),
            self.terminated().spec_output_manager() == self.spec_output_manager(),
            self.terminated().spec_backend() == self.spec_backend(),
            self.terminated().spec_display() == self.spec_display(),
            self.terminated().spec_event_loop() == self.spec_event_loop(),
            self.terminated().spec_socket_name() == self.spec_socket_name(),
            self.terminated().terminated() == self.terminated(),
            self.wf() ==> self.terminated().wf(),
    {
    }

    /// The manager of the input devices.
    pub fn input_manager(&self) -> (manager: &InputManager<T>)
        ensures
            *manager == self.spec_input_manager(),
    {
        &self.input_manager
    }

    /// The manager of the outputs.
    pub fn output_manager(&self) -> (manager: &OutputManager<T>)
        ensures
            *manager == self.spec_output_manager(),
    {
        &self.output_manager
    }

    /// Handle of the backend.
    #[verifier::when_used_as_spec(spec_backend)]
    pub fn backend(&self) -> (backend: usize)
        ensures
            backend == self.spec_backend(),
    {
        self.backend
    }

    /// Handle of the display.
    #[verifier::when_used_as_spec(spec_display)]
    pub fn display(&self) -> (display: usize)
        ensures
            display == self.spec_display(),
    {
        self.display
    }

    /// Handle of the event loop.
    #[verifier::when_used_as_spec(spec_event_loop)]
    pub fn event_loop(&self) -> (event_loop: usize)
        ensures
            event_loop == self.spec_event_loop(),
    {
        self.event_loop
    }

    /// Name of the socket on which the clients connect.
    pub fn socket_name(&self) -> (name: &str)
        ensures
            name@ == self.spec_socket_name(),
    {
        self.socket_name.as_str()
    }

    /// What the application keeps with the compositor.
    pub fn data(&self) -> (data: &T)
        ensures
            *data == self.spec_handle().spec_data(),
    {
        &self.handle.data
    }

    /// What the application keeps with the compositor, to change it. Nothing
    /// else of the compositor changes.
    pub fn data_mut(&mut self) -> (data: &mut T)
        ensures
            *data == old(self).spec_handle().spec_data(),
            *final(self) == old(self).with_data(*final(data)),
    {
        &mut self.handle.data
    }

    /// What the handlers can reach of the compositor.
    pub fn handle(&self) -> (handle: &CompositorHandle<T>)
        ensures
            *handle == self.spec_handle(),
    {
        &self.handle
    }

    /// Asks for the event loop to stop. Asking again changes nothing.
    pub fn terminate(&mut self)
        ensures
            *final(self) == old(self).terminated(),
    {
        self.handle.terminate();
    }

    /// Takes the compositor apart, so that nothing of it is left on a signal.
    ///
    /// The listeners of the two managers come off the signals of the
    /// backend, and the listeners of each device and of each wrapper come off
    /// the signals of the device. Returns the handles, the devices that were attached, in the
    /// order that they had, and the signals, none of which has a listener
    /// left.
    pub fn close(self) -> (remains: Remains<T>)
        ensures
            remains.silent(),
            remains.data == self.spec_handle().spec_data(),
            remains.backend == self.spec_backend(),
            remains.display == self.spec_display(),
            remains.event_loop == self.spec_event_loop(),
            remains.input_add.spec_handle() == self.spec_input_manager().spec_add_signal(),
            remains.input_remove.spec_handle() == self.spec_input_manager().spec_remove_signal(),
            remains.output_add.spec_handle() == self.spec_output_manager().spec_add_signal(),
            remains.output_remove.spec_handle() == self.spec_output_manager().spec_remove_signal(),
            remains.inputs@.len() == self.spec_input_manager().entries().len(),
            forall|i: int|
                0 <= i < remains.inputs@.len() ==> {
                    &&& (#[trigger] remains.inputs@[i]).device
                        == self.spec_input_manager().entries()[i].spec_device()
                    &&& remains.inputs@[i].destroy.spec_handle()
                        == self.spec_input_manager().entries()[i].spec_destroy_signal()
                    &&& remains.inputs@[i].pointer is Some
                        <==> self.spec_input_manager().entries()[i].spec_pointer() is Some
                },
            remains.outputs@.len() == self.spec_output_manager().entries().len(),
            forall|i: int|
                0 <= i < remains.outputs@.len() ==> {
                    &&& (#[trigger] remains.outputs@[i]).output
                        == self.spec_output_manager().entries()[i].spec_output()
                    &&& remains.outputs@[i].destroy.spec_handle()
                        == self.spec_output_manager().entries()[i].spec_destroy_signal()
                },
    {
        let Compositor {
            input_manager,
            output_manager,
            backend,
            display,
            event_loop,
            socket_name,
            handle,
        } = self;
        let inputs = input_manager.close();
        let outputs = output_manager.close();
        let ghost attached = inputs.devices@;
        let mut wired = inputs.devices;
        let mut detached: Vec<DetachedInput> = Vec::new();
        while wired.len() > 0
            invariant
                detached@.len() + wired@.len() == attached.len(),
                wired@ == attached.subrange(detached@.len() as int, attached.len() as int),
                forall|i: int|
                    0 <= i < detached@.len() ==> {
                        &&& (#[trigger] detached@[i]).silent()
                        &&& detached@[i].device == attached[i].spec_device()
                        &&& detached@[i].destroy.spec_handle() == attached[i].spec_destroy_signal()
                        &&& detached@[i].pointer is Some <==> attached[i].spec_pointer() is Some
                    },
            decreases wired.len(),
        {
            let entry = wired.remove(0);
            detached.push(entry.detach());
        }
        let ghost shown = outputs.devices@;
        let mut lit = outputs.devices;
        let mut dark: Vec<DetachedOutput> = Vec::new();
        while lit.len() > 0
            invariant
                dark@.len() + lit@.len() == shown.len(),
                lit@ == shown.subrange(dark@.len() as int, shown.len() as int),
                forall|i: int|
                    0 <= i < dark@.len() ==> {
                        &&& (#[trigger] dark@[i]).silent()
                        &&& dark@[i].output == shown[i].spec_output()
                        &&& dark@[i].destroy.spec_handle() == shown[i].spec_destroy_signal()
                    },
            decreases lit.len(),
        {
            let entry = lit.remove(0);
            dark.push(entry.detach());
        }
        let CompositorHandle { data, server_decoration_manager, gles2, terminating } = handle;
        Remains {
            data,
            backend,
            display,
            event_loop,
            inputs: detached,
            outputs: dark,
            input_add: inputs.add_signal,
            input_remove: inputs.remove_signal,
            output_add: outputs.add_signal,
            output_remove: outputs.remove_signal,
        }
    }

    /// Delivers an event of the backend to the entry point that it is for.
    ///
    /// An event about a device that comes or goes reaches the manager of its
    /// class; an event of a pointer reaches the wrapper of that pointer. The
    /// handles of the compositor stay as they are, and so do the attached
    /// devices but for the one that the event attaches or detaches. What the
    /// handlers did to the handle of the compositor is theirs to say.
    pub fn dispatch(&mut self, event: &Event) -> (delivery: Delivery)
        ensures
            old(self).wf() ==> final(self).wf(),
            dispatched(*event, *old(self), *final(self), delivery),
            delivery.nothing_done() ==> *final(self) == *old(self),
    {
        match event {
            Event::InputAdd(data) => Delivery::Attached(
                self.input_manager.add_notify(&mut self.handle, data),
            ),
            Event::InputRemove(device) => Delivery::InputDetached(
                self.input_manager.remove_notify(&mut self.handle, *device),
            ),
            Event::OutputAdd(data) => Delivery::Attached(
                self.output_manager.add_notify(&mut self.handle, data),
            ),
            Event::OutputRemove(output) => Delivery::OutputDetached(
                self.output_manager.remove_notify(&mut self.handle, *output),
            ),
            Event::PointerButton(data) => Delivery::Handled(
                self.input_manager.button_notify(&mut self.handle, data),
            ),
            Event::PointerMotion(data) => Delivery::Handled(
                self.input_manager.motion_notify(&mut self.handle, data),
            ),
            Event::PointerMotionAbsolute(data) => Delivery::Handled(
                self.input_manager.motion_absolute_notify(&mut self.handle, data),
            ),
            Event::PointerAxis(data) => Delivery::Handled(
                self.input_manager.axis_notify(&mut self.handle, data),
            ),
        }
    }
}

impl Delivery {
    /// True if the event found nothing to do.
    pub open spec fn nothing_done(&self) -> bool {
        match *self {
            Delivery::Attached(added) => !added,
            Delivery::InputDetached(left) => left is None,
            Delivery::OutputDetached(left) => left is None,
            Delivery::Handled(handled) => !handled,
        }
    }
}

/// True if `after` is what `event` makes of the compositor `before`, and
/// `delivery` what becomes of the event there.
///
/// The handles and the listeners of the managers stay. The manager that the
/// event is not for stays as it is. A new input device gets an entry behind
/// the others, made of what the event says of it; an input device that goes
/// takes its entry out from among the others; the event of a pointer leaves
/// every entry with its device, its class, its wiring and its own listener.
/// The outputs that
/// are attached follow the event in the same way.
pub open spec fn dispatched<T>(
    event: Event,
    before: Compositor<T>,
    after: Compositor<T>,
    delivery: Delivery,
) -> bool {
    let inputs = before.spec_input_manager();
    let outputs = before.spec_output_manager();
    &&& after.spec_backend() == before.spec_backend()
    &&& after.spec_display() == before.spec_display()
    &&& after.spec_event_loop() == before.spec_event_loop()
    &&& after.spec_socket_name() == before.spec_socket_name()
    &&& after.spec_input_manager().spec_add_listener() == inputs.spec_add_listener()
    &&& after.spec_input_manager().spec_remove_listener() == inputs.spec_remove_listener()
    &&& after.spec_input_manager().spec_add_signal() == inputs.spec_add_signal()
    &&& after.spec_input_manager().spec_remove_signal() == inputs.spec_remove_signal()
    &&& after.spec_output_manager().spec_add_listener() == outputs.spec_add_listener()
    &&& after.spec_output_manager().spec_remove_listener() == outputs.spec_remove_listener()
    &&& after.spec_output_manager().spec_add_signal() == outputs.spec_add_signal()
    &&& after.spec_output_manager().spec_remove_signal() == outputs.spec_remove_signal()
    &&& after.spec_input_manager().ids() == event.inputs_after(inputs.ids())
    &&& after.spec_output_manager().ids() == event.outputs_after(outputs.ids())
    &&& delivered(event, inputs, outputs, delivery)
    &&& match event {
        Event::InputAdd(data) => {
            &&& after.spec_output_manager() == outputs
            &&& !inputs.ids().contains(data.device) ==> {
                &&& after.spec_input_manager().entries().drop_last() == inputs.entries()
                &&& after.spec_input_manager().entries().last().made_from(data)
                &&& data.device_type != InputDeviceType::Pointer
                    ==> after.spec_input_manager().entries().last().spec_pointer() is None
            }
        },
        Event::InputRemove(device) => {
            &&& after.spec_output_manager() == outputs
            &&& inputs.ids().index_of_first(device) matches Some(i)
                ==> after.spec_input_manager().entries() == inputs.entries().remove(i)
        },
        Event::OutputAdd(data) => {
            &&& after.spec_input_manager() == inputs
            &&& !outputs.ids().contains(data.output) ==> {
                &&& after.spec_output_manager().entries().drop_last() == outputs.entries()
                &&& after.spec_output_manager().entries().last().made_from(data)
            }
        },
        Event::OutputRemove(output) => {
            &&& after.spec_input_manager() == inputs
            &&& outputs.ids().index_of_first(output) matches Some(i)
                ==> after.spec_output_manager().entries() == outputs.entries().remove(i)
        },
        _ => {
            &&& after.spec_output_manager() == outputs
            &&& shapes(after.spec_input_manager().entries()) == shapes(inputs.entries())
        },
    }
}

/// True if `delivery` is what becomes of `event` at a compositor with the
/// managers `inputs` and `outputs`.
pub open spec fn delivered<T>(
    event: Event,
    inputs: InputManager<T>,
    outputs: OutputManager<T>,
    delivery: Delivery,
) -> bool {
    match event {
        Event::InputAdd(data) => delivery == Delivery::Attached(!inputs.ids().contains(data.device)),
        Event::InputRemove(device) => delivery matches Delivery::InputDetached(left) && {
            &&& left is Some <==> inputs.ids().contains(device)
            &&& left matches Some(input) ==> {
                &&& input.silent()
                &&& input.device.spec_to_ptr() == device
                &&& input.destroy.spec_handle() == inputs.entry(device)->0.spec_destroy_signal()
                &&& input.pointer is Some <==> has_wrapper(inputs.entry(device))
            }
        },
        Event::OutputAdd(data) => delivery == Delivery::Attached(
            !outputs.ids().contains(data.output),
        ),
        Event::OutputRemove(output) => delivery matches Delivery::OutputDetached(left) && {
            &&& left is Some <==> outputs.ids().contains(output)
            &&& left matches Some(gone) ==> {
                &&& gone.silent()
                &&& gone.output.spec_to_ptr() == output
                &&& gone.destroy.spec_handle() == outputs.entry(output)->0.spec_destroy_signal()
            }
        },
        Event::PointerButton(data) => delivery == Delivery::Handled(
            has_wrapper(inputs.entry(data.device)),
        ),
        Event::PointerMotion(data) => delivery == Delivery::Handled(
            has_wrapper(inputs.entry(data.device)),
        ),
        Event::PointerMotionAbsolute(data) => delivery == Delivery::Handled(
            has_wrapper(inputs.entry(data.device)),
        ),
        Event::PointerAxis(data) => delivery == Delivery::Handled(
            has_wrapper(inputs.entry(data.device)),
        ),
    }
}

/// Why a compositor did not get to run.
#[derive(Clone, Copy, Debug, PartialEq, Eq, Structural)]
pub enum RunError {
    /// Another compositor is running. This is fatal for the one that was to
    /// run; the one that is running goes on.
    AlreadyRunning,
}

/// What is to be done once the backend has answered the request to start.
#[derive(Clone, Copy, Debug, PartialEq, Eq, Structural)]
pub enum Startup {
    /// The backend runs. Enter the event loop of the display with this
    /// handle; it returns when a stop has been asked for.
    Run { display: usize },
    /// The backend did not start, which is fatal. Destroy the backend with
    /// this handle and give up.
    Abort { backend: usize },
    /// No compositor was waiting for its backend. There is nothing to do.
    Ignored,
}

/// The place of the one compositor that runs.
///
/// A compositor runs from the moment that [`Compositor::run`] puts it here
/// until [`terminate`] takes it out again, or until its backend fails to
/// start. While it is here no other compositor can run, and every event of
/// the backend reaches it through [`CompositorSlot::dispatch`].
#[verifier::reject_recursive_types(T)]
pub struct CompositorSlot<T> {
    running: Option<Compositor<T>>,
    started: bool,
}

impl<T> CompositorSlot<T> {
    /// The compositor that runs, if one does.
    pub closed spec fn current(&self) -> Option<Compositor<T>> {
        self.running
    }

    /// True once the backend of the compositor that runs has started.
    pub closed spec fn spec_is_started(&self) -> bool {
        self.started
    }

    /// True if a compositor runs.
    pub open spec fn spec_is_running(&self) -> bool {
        self.current() is Some
    }

    /// Validity of the slot: that of the compositor in it, and no backend has
    /// started where no compositor runs.
    pub open spec fn wf(&self) -> bool {
        match self.current() {
            Some(compositor) => compositor.wf(),
            None => !self.spec_is_started(),
        }
    }

    /// The slot with `compositor` in it, the backend of which has started or
    /// not as `started` says.
    pub closed spec fn holding(compositor: Compositor<T>, started: bool) -> CompositorSlot<T> {
        CompositorSlot { running: Some(compositor), started }
    }

    /// The slot with no compositor in it.
    pub closed spec fn vacant() -> CompositorSlot<T> {
        CompositorSlot { running: None, started: false }
    }

    /// What is in the slots that `holding` and `vacant` name.
    pub proof fn lemma_slots(compositor: Compositor<T>, started: bool)
        ensures
            CompositorSlot::<T>::holding(compositor, started).current() == Some(compositor),
            CompositorSlot::<T>::holding(compositor, started).spec_is_started() == started,
            CompositorSlot::<T>::vacant().current() is None,
            !CompositorSlot::<T>::vacant().spec_is_started(),
            CompositorSlot::<T>::vacant().wf(),
            compositor.wf() ==> CompositorSlot::<T>::holding(compositor, started).wf(),
    {
    }

    /// A slot is one of those that `holding` and `vacant` name, if it is
    /// valid.
    pub proof fn lemma_slot_is_named(self)
        requires
            self.wf(),
        ensures
            self == match self.current() {
                Some(compositor) => CompositorSlot::<T>::holding(compositor, self.spec_is_started()),
                None => CompositorSlot::<T>::vacant(),
            },
    {
    }

    /// A slot in which no compositor runs.
    pub fn new() -> (slot: CompositorSlot<T>)
        ensures
            slot == CompositorSlot::<T>::vacant(),
    {
        CompositorSlot { running: None, started: false }
    }

    /// True if a compositor runs.
    #[verifier::when_used_as_spec(spec_is_running)]
    pub fn is_running(&self) -> (running: bool)
        ensures
            running == self.spec_is_running(),
    {
        self.running.is_some()
    }

    /// True once the backend of the compositor that runs has started.
    #[verifier::when_used_as_spec(spec_is_started)]
    pub fn is_started(&self) -> (started: bool)
        ensures
            started == self.spec_is_started(),
    {
        self.started
    }

    /// The compositor that runs, if one does.
    pub fn compositor(&self) -> (compositor: &Option<Compositor<T>>)
        ensures
            *compositor == self.current(),
    {
        &self.running
    }

    /// Takes the answer of the backend to the request to start.
    ///
    /// Where a compositor waits for its backend: if the backend started, the
    /// compositor goes on to run and the event loop of its display is to be
    /// entered; if not, the compositor leaves the slot and its backend is to
    /// be destroyed. Where no compositor waits, nothing changes.
    pub fn backend_started(&mut self, started: bool) -> (next: Startup)
        ensures
            old(self).wf() ==> final(self).wf(),
            (*final(self), next) == after_start(*old(self), started),
    {
        if self.started {
            return Startup::Ignored;
        }
        match self.running.take() {
            None => Startup::Ignored,
            Some(compositor) => {
                if started {
                    let display = compositor.display();
                    self.running = Some(compositor);
                    self.started = true;
                    Startup::Run { display }
                } else {
                    Startup::Abort { backend: compositor.backend() }
                }
            },
        }
    }

    /// Takes note that the event loop has returned, however the stop was
    /// asked for: the compositor, if one is still in the slot, leaves it and
    /// comes back to the caller, and the slot is free for the next one.
    pub fn stopped(&mut self) -> (ran: Option<Compositor<T>>)
        ensures
            *final(self) == CompositorSlot::<T>::vacant(),
            ran == old(self).current(),
    {
        self.started = false;
        self.running.take()
    }

    /// Delivers an event of the backend to the compositor that runs, as
    /// [`Compositor::dispatch`] does. Where no compositor runs the event is
    /// dropped and nothing changes.
    pub fn dispatch(&mut self, event: &Event) -> (delivery: Option<Delivery>)
        ensures
            old(self).wf() ==> final(self).wf(),
            final(self).spec_is_started() == old(self).spec_is_started(),
            delivery is Some <==> old(self).spec_is_running(),
            !old(self).spec_is_running() ==> *final(self) == *old(self),
            old(self).current() matches Some(before) ==> final(self).current() matches Some(after)
                && delivery matches Some(done) && dispatched(*event, before, after, done) && (
            done.nothing_done() ==> after == before),
    {
        match &mut self.running {
            Some(compositor) => Some(compositor.dispatch(event)),
            None => None,
        }
    }
}

/// The slot after the backend answered the request to start, and what is to
/// be done then.
pub open spec fn after_start<T>(slot: CompositorSlot<T>, started: bool) -> (CompositorSlot<T>, Startup) {
    match slot.current() {
        Some(compositor) if !slot.spec_is_started() => {
            if started {
                (
                    CompositorSlot::<T>::holding(compositor, true),
                    Startup::Run { display: compositor.spec_display() },
                )
            } else {
                (CompositorSlot::<T>::vacant(), Startup::Abort { backend: compositor.spec_backend() })
            }
        },
        _ => (slot, Startup::Ignored),
    }
}

/// The slot after `compositor` was to run, and what came of it: the handle of
/// the backend that is to be started, or the refusal.
pub open spec fn after_run<T>(slot: CompositorSlot<T>, compositor: Compositor<T>) -> (
    CompositorSlot<T>,
    Result<usize, RunError>,
) {
    if slot.spec_is_running() {
        (slot, Err(RunError::AlreadyRunning))
    } else {
        (CompositorSlot::<T>::holding(compositor, false), Ok(compositor.spec_backend()))
    }
}

/// The slot after a stop was asked for, and the compositor that ran.
pub open spec fn after_terminate<T>(slot: CompositorSlot<T>) -> (CompositorSlot<T>, Option<Compositor<T>>) {
    match slot.current() {
        Some(compositor) => (CompositorSlot::<T>::vacant(), Some(compositor.terminated())),
        None => (slot, None),
    }
}

impl<T> Compositor<T> {
    /// Puts the compositor into the slot, where it runs, and returns the
    /// handle of its backend, which is to be started next.
    ///
    /// If another compositor is in the slot, this one is refused and dropped,
    /// and the slot with the other one stays as it is.
    pub fn run(self, slot: &mut CompositorSlot<T>) -> (started: Result<usize, RunError>)
        ensures
            self.wf() && old(slot).wf() ==> final(slot).wf(),
            (*final(slot), started) == after_run(*old(slot), self),
    {
        if slot.running.is_some() {
            return Err(RunError::AlreadyRunning);
        }
        let backend = self.backend;
        slot.running = Some(self);
        slot.started = false;
        Ok(backend)
    }
}

/// Terminates the compositor: takes it out of the slot, marks it as asked to
/// stop and returns it, so that the event loop of its display can be told to
/// return. If one is not running, does nothing.
pub fn terminate<T>(slot: &mut CompositorSlot<T>) -> (stopped: Option<Compositor<T>>)
    ensures
        old(slot).wf() ==> final(slot).wf(),
        (*final(slot), stopped) == after_terminate(*old(slot)),
{
    match slot.running.take() {
        Some(compositor) => {
            let mut compositor = compositor;
            compositor.terminate();
            slot.started = false;
            Some(compositor)
        },
        None => None,
    }
}

/// At most one compositor runs. If `first` is put into a slot in which none
/// runs, it runs; if `second` is then to run, it is refused, and the slot
/// holds `first` as before.
pub proof fn lemma_second_run_is_refused<T>(
    slot: CompositorSlot<T>,
    first: Compositor<T>,
    second: Compositor<T>,
)
    requires
        !slot.spec_is_running(),
    ensures
        after_run(slot, first).1 == Ok::<usize, RunError>(first.spec_backend()),
        after_run(slot, first).0.current() == Some(first),
        after_run(after_run(slot, first).0, second).1 == Err::<usize, RunError>(
            RunError::AlreadyRunning,
        ),
        after_run(after_run(slot, first).0, second).0 == after_run(slot, first).0,
{
}

/// A compositor runs from a successful `run` until `terminate`, until its
/// event loop has returned, or until its backend fails to start: with
/// `after_run`, `after_start` and `after_terminate` for the three steps, a
/// slot in which none runs holds the compositor after the first, still holds
/// it after a backend that started, and holds none after the last or after a
/// backend that did not start. After `stopped` the slot is vacant whatever
/// went before, so that the next compositor is not refused.
pub proof fn lemma_running_span<T>(slot: CompositorSlot<T>, compositor: Compositor<T>, started: bool)
    requires
        !slot.spec_is_running(),
    ensures
        after_run(slot, compositor).0.spec_is_running(),
        after_start(after_run(slot, compositor).0, started).0.spec_is_running() == started,
        started ==> after_start(after_run(slot, compositor).0, true).1 == (Startup::Run {
            display: compositor.spec_display(),
        }),
        !started ==> after_start(after_run(slot, compositor).0, false).1 == (Startup::Abort {
            backend: compositor.spec_backend(),
        }),
        !after_terminate(after_run(slot, compositor).0).0.spec_is_running(),
        !after_terminate(after_start(after_run(slot, compositor).0, started).0).0.spec_is_running(),
        !CompositorSlot::<T>::vacant().spec_is_running(),
        after_run(CompositorSlot::<T>::vacant(), compositor).1 == Ok::<usize, RunError>(
            compositor.spec_backend(),
        ),
{
}

/// Asking for a stop where no compositor runs does nothing; so asking twice
/// is as good as asking once.
pub proof fn lemma_terminate_when_idle<T>(slot: CompositorSlot<T>)
    ensures
        !slot.spec_is_running() ==> after_terminate(slot) == (slot, None::<Compositor<T>>),
        after_terminate(after_terminate(slot).0) == (after_terminate(slot).0, None::<Compositor<T>>),
{
}

} // verus!
