//! Manager of the outputs.
use vstd::prelude::*;
use crate::compositor::CompositorHandle;
use crate::manager::device_manager::{attached, detached, Device, DeviceManager};
use crate::signal::{listener_on, shown, Listener, Notify, Registration, Signal, Subscription};
use crate::types::output::OutputHandle;

verus! {

/// What the application does when outputs come and go. Each callback does
/// nothing unless the application says otherwise.
pub trait OutputManagerHandler<T> {
    /// Called when the backend has announced an output.
    fn output_added(&mut self, compositor: &mut CompositorHandle<T>, output: &mut OutputHandle) {
    }

    /// Called when the backend has withdrawn an output.
    fn output_removed(&mut self, compositor: &mut CompositorHandle<T>, output: &mut OutputHandle) {
    }
}

/// Payload of the signal for new outputs.
#[derive(Clone, Copy, Debug, PartialEq, Eq, Structural)]
pub struct OutputAdded {
    /// Handle of the output.
    pub output: usize,
    /// Handle of the signal by which the output says that it goes. It is
    /// null where the backend says so on one signal for all outputs.
    pub destroy: usize,
}

/// An attached output, with its listener on the signal by which the output
/// says that it goes.
pub struct Output {
    pub(crate) output: OutputHandle,
    pub(crate) destroy_listener: Subscription,
}

/// An output that has left its manager: the output, and the signal by which
/// it says that it goes, without a listener.
pub struct DetachedOutput {
    pub output: OutputHandle,
    pub destroy: Signal,
}

impl DetachedOutput {
    /// True if the signal has no listener.
    pub open spec fn silent(&self) -> bool {
        self.destroy@.len() == 0
    }
}

impl Output {
    /// The output.
    pub open(crate) spec fn spec_output(&self) -> OutputHandle {
        self.output
    }

    /// Handle of the signal by which the output says that it goes.
    pub open(crate) spec fn spec_destroy_signal(&self) -> usize {
        self.destroy_listener.spec_signal()
    }

    /// The listener on the signal by which the output says that it goes:
    /// none if that signal is null.
    pub open(crate) spec fn spec_destroy_listener(&self) -> Option<Registration> {
        self.destroy_listener.spec_listener()
    }

    /// What holds of the entry that a manager made for the output that `data`
    /// describes: it is that output, and it listens on the signal by which
    /// the output says that it goes, unless that signal is null.
    pub open spec fn made_from(&self, data: OutputAdded) -> bool {
        &&& self.spec_output().spec_to_ptr() == data.output
        &&& self.spec_destroy_signal() == data.destroy
        &&& self.spec_destroy_listener() == listener_on(
            data.destroy,
            Notify::OutputRemove,
            data.output,
        )
    }

    /// Makes the entry of the output that `data` describes.
    pub fn new(data: &OutputAdded) -> (entry: Output)
        ensures
            entry.made_from(*data),
    {
        Output {
            output: OutputHandle::from_ptr(data.output),
            destroy_listener: Subscription::new(data.destroy, Notify::OutputRemove, data.output),
        }
    }

    /// Takes the entry apart: its listener comes off its signal. Returns the
    /// output and the signal, which has no listener left.
    pub fn detach(self) -> (left: DetachedOutput)
        ensures
            left.silent(),
            left.output == self.spec_output(),
            left.destroy.spec_handle() == self.spec_destroy_signal(),
    {
        let Output { output, destroy_listener } = self;
        DetachedOutput { output, destroy: destroy_listener.cancel() }
    }

    /// The listener on the signal by which the output says that it goes.
    pub fn destroy_listener(&self) -> (listener: &Option<Listener>)
        ensures
            shown(*listener) == self.spec_destroy_listener(),
    {
        self.destroy_listener.listener()
    }

    /// The output.
    pub fn output(&self) -> (output: OutputHandle)
        ensures
            output == self.spec_output(),
    {
        self.output
    }
}

impl Device for Output {
    open(crate) spec fn spec_id(&self) -> usize {
        self.output.spec_to_ptr()
    }

    fn id(&self) -> (id: usize) {
        self.output.to_ptr()
    }
}

/// The manager of the outputs.
pub type OutputManager<T> = DeviceManager<Output, Box<dyn OutputManagerHandler<T>>>;

impl<T> DeviceManager<Output, Box<dyn OutputManagerHandler<T>>> {
    /// Entry point of the listener for new outputs. An output that is not
    /// attached yet is shown to the handler's `output_added` and then goes
    /// behind the attached outputs. For one that is attached already nothing
    /// happens. Returns whether the output was attached by this call.
    pub fn add_notify(&mut self, compositor: &mut CompositorHandle<T>, data: &OutputAdded) -> (added:
        bool)
        ensures
            old(self).wf() ==> final(self).wf(),
            final(self).ids() == attached(old(self).ids(), data.output),
            final(self).spec_add_listener() == old(self).spec_add_listener(),
            final(self).spec_remove_listener() == old(self).spec_remove_listener(),
            final(self).spec_add_signal() == old(self).spec_add_signal(),
            final(self).spec_remove_signal() == old(self).spec_remove_signal(),
            added == !old(self).ids().contains(data.output),
            added ==> final(self).entries().drop_last() == old(self).entries()
                && final(self).entries().last().made_from(*data),
            !added ==> *final(self) == *old(self) && *final(compositor) == *old(compositor),
    {
        if self.contains(data.output) {
            return false;
        }
        let mut handle = OutputHandle::from_ptr(data.output);
        self.handler.output_added(compositor, &mut handle);
        let refused = self.insert(Output::new(data));
        proof {
            assert(final(self).entries().drop_last() =~= old(self).entries());
        }
        true
    }

    /// Entry point of the listener for withdrawn outputs. An output that is
    /// attached leaves the attached outputs and is then shown to the
    /// handler's `output_removed`, and its listener comes off its signal. For
    /// one that is not attached nothing happens. Returns what is left of the
    /// entry.
    pub fn remove_notify(&mut self, compositor: &mut CompositorHandle<T>, output: usize) -> (removed:
        Option<DetachedOutput>)
        ensures
            old(self).wf() ==> final(self).wf(),
            final(self).ids() == detached(old(self).ids(), output),
            final(self).spec_add_listener() == old(self).spec_add_listener(),
            final(self).spec_remove_listener() == old(self).spec_remove_listener(),
            final(self).spec_add_signal() == old(self).spec_add_signal(),
            final(self).spec_remove_signal() == old(self).spec_remove_signal(),
            removed is Some <==> old(self).ids().contains(output),
            old(self).ids().index_of_first(output) matches Some(i) ==> final(self).entries()
                == old(self).entries().remove(i),
            removed is None ==> *final(self) == *old(self) && *final(compositor) == *old(
                compositor,
            ),
            removed matches Some(left) ==> {
                &&& left.silent()
                &&& left.output.spec_to_ptr() == output
                &&& left.destroy.spec_handle() == old(self).entry(output)->0.spec_destroy_signal()
            },
    {
        match self.take(output) {
            Some(entry) => {
                let mut handle = entry.output();
                self.handler.output_removed(compositor, &mut handle);
                Some(entry.detach())
            },
            None => None,
        }
    }
}

} // verus!
