//! The collection of the devices of one class that are attached.
use vstd::prelude::*;
use crate::signal::{shown, Listener, Registration, Signal, Subscription};

verus! {

/// An entry of a device manager: one attached device.
pub trait Device {
    /// Handle of the device, by which the backend names it.
    spec fn spec_id(&self) -> usize;

    /// Handle of the device, by which the backend names it.
    fn id(&self) -> (id: usize)
        ensures
            id == self.spec_id(),
    ;
}

/// The handles of `devices`, in the same order.
pub open spec fn ids_of<D: Device>(devices: Seq<D>) -> Seq<usize> {
    Seq::new(devices.len(), |i: int| devices[i].spec_id())
}

/// The attached devices after the backend announced `id`: as before if the
/// device is attached already, else with the new device behind the others.
pub open spec fn attached(ids: Seq<usize>, id: usize) -> Seq<usize> {
    if ids.contains(id) {
        ids
    } else {
        ids.push(id)
    }
}

/// The attached devices after the backend withdrew `id`: the others, in the
/// order that they had.
pub open spec fn detached(ids: Seq<usize>, id: usize) -> Seq<usize> {
    ids.remove_value(id)
}

/// What is left of a manager that was closed: its entries, its handler and
/// its two signals of the backend, each without a listener.
pub struct ClosedManager<D, H> {
    /// The entries that the manager held, oldest first.
    pub devices: Vec<D>,
    /// The handler that the application supplied.
    pub handler: H,
    /// The backend's signal for new devices.
    pub add_signal: Signal,
    /// The backend's signal for withdrawn devices.
    pub remove_signal: Signal,
}

/// Tracks the devices of one class: those that the backend has announced and
/// not withdrawn since, in the order in which they came.
///
/// `D` is the entry kept for each device and `H` the handler that the
/// application supplied. The manager keeps one listener on the backend's
/// signal for new devices and one on its signal for withdrawn devices.
pub struct DeviceManager<D: Device, H> {
    pub(crate) devices: Vec<D>,
    pub(crate) handler: H,
    pub(crate) add_listener: Subscription,
    pub(crate) remove_listener: Subscription,
}

impl<D: Device, H> DeviceManager<D, H> {
    /// The entries, oldest first.
    pub open(crate) spec fn entries(&self) -> Seq<D> {
        self.devices@
    }

    /// The handles of the attached devices, oldest first.
    pub open spec fn ids(&self) -> Seq<usize> {
        ids_of(self.entries())
    }

    /// The listener on the backend's signal for new devices: none if that
    /// signal is null.
    pub open(crate) spec fn spec_add_listener(&self) -> Option<Registration> {
        self.add_listener.spec_listener()
    }

    /// The listener on the backend's signal for withdrawn devices: none if
    /// that signal is null.
    pub open(crate) spec fn spec_remove_listener(&self) -> Option<Registration> {
        self.remove_listener.spec_listener()
    }

    /// Handle of the backend's signal for new devices.
    pub open(crate) spec fn spec_add_signal(&self) -> usize {
        self.add_listener.spec_signal()
    }

    /// Handle of the backend's signal for withdrawn devices.
    pub open(crate) spec fn spec_remove_signal(&self) -> usize {
        self.remove_listener.spec_signal()
    }

    /// The handler that the application supplied.
    pub open(crate) spec fn spec_handler(&self) -> H {
        self.handler
    }

    /// The entry of the device with the handle `id`, if it is attached.
    pub open spec fn entry(&self, id: usize) -> Option<D> {
        match self.ids().index_of_first(id) {
            Some(i) => Some(self.entries()[i]),
            None => None,
        }
    }

    /// Validity of a manager: no device is attached twice.
    pub open spec fn wf(&self) -> bool {
        self.ids().no_duplicates()
    }

    /// A manager with the handler `handler`, with the two listeners and with
    /// no device.
    pub fn new(handler: H, add_listener: Subscription, remove_listener: Subscription) -> (manager:
        Self)
        ensures
            manager.wf(),
            manager.ids() == Seq::<usize>::empty(),
            manager.spec_handler() == handler,
            manager.spec_add_listener() == add_listener.spec_listener(),
            manager.spec_remove_listener() == remove_listener.spec_listener(),
            manager.spec_add_signal() == add_listener.spec_signal(),
            manager.spec_remove_signal() == remove_listener.spec_signal(),
    {
        let manager = DeviceManager { devices: Vec::new(), handler, add_listener, remove_listener };
        assert(manager.ids() =~= Seq::<usize>::empty());
        manager
    }

    /// The listener on the backend's signal for new devices.
    pub fn add_listener(&self) -> (listener: &Option<Listener>)
        ensures
            shown(*listener) == self.spec_add_listener(),
    {
        self.add_listener.listener()
    }

    /// The listener on the backend's signal for withdrawn devices.
    pub fn remove_listener(&self) -> (listener: &Option<Listener>)
        ensures
            shown(*listener) == self.spec_remove_listener(),
    {
        self.remove_listener.listener()
    }

    /// Number of attached devices.
    pub fn len(&self) -> (n: usize)
        ensures
            n == self.ids().len(),
    {
        self.devices.len()
    }

    /// The entries, oldest first.
    pub fn devices(&self) -> (entries: &[D])
        ensures
            entries@ == self.entries(),
    {
        self.devices.as_slice()
    }

    /// Position of the device with the handle `id`, if it is attached: the
    /// first one, should the manager not be valid.
    pub fn position(&self, id: usize) -> (found: Option<usize>)
        ensures
            found is Some <==> self.ids().contains(id),
            found matches Some(i) ==> i < self.ids().len() && self.ids()[i as int] == id,
            found matches Some(i) ==> self.ids().index_of_first(id) == Some(i as int),
            found is None ==> self.ids().index_of_first(id) is None,
    {
        let ghost ids = self.ids();
        let mut i: usize = 0;
        while i < self.devices.len()
            invariant
                i <= self.devices.len(),
                ids == self.ids(),
                ids.len() == self.devices.len(),
                forall|j: int| 0 <= j < i ==> ids[j] != id,
            decreases self.devices.len() - i,
        {
            if self.devices[i].id() == id {
                proof {
                    assert(ids[i as int] == id);
                    ids.index_of_first_ensures(id);
                }
                return Some(i);
            }
            i += 1;
        }
        proof {
            ids.index_of_first_ensures(id);
        }
        None
    }

    /// True if the device with the handle `id` is attached.
    pub fn contains(&self, id: usize) -> (attached: bool)
        ensures
            attached == self.ids().contains(id),
    {
        self.position(id).is_some()
    }

    /// Takes the manager apart: its two listeners come off the signals of
    /// the backend. Returns the entries and the handler as they were, and the
    /// two signals, neither of which has a listener left.
    pub fn close(self) -> (closed: ClosedManager<D, H>)
        ensures
            closed.devices@ == self.entries(),
            closed.handler == self.spec_handler(),
            closed.add_signal.spec_handle() == self.spec_add_signal(),
            closed.remove_signal.spec_handle() == self.spec_remove_signal(),
            closed.add_signal@.len() == 0,
            closed.remove_signal@.len() == 0,
    {
        let DeviceManager { devices, handler, add_listener, remove_listener } = self;
        ClosedManager {
            devices,
            handler,
            add_signal: add_listener.cancel(),
            remove_signal: remove_listener.cancel(),
        }
    }

    /// Puts `device` behind the attached devices, unless a device with its
    /// handle is attached already: then nothing changes and `device` comes
    /// back.
    pub(crate) fn insert(&mut self, device: D) -> (refused: Option<D>)
        ensures
            old(self).wf() ==> final(self).wf(),
            final(self).ids() == attached(old(self).ids(), device.spec_id()),
            final(self).spec_add_listener() == old(self).spec_add_listener(),
            final(self).spec_remove_listener() == old(self).spec_remove_listener(),
            final(self).spec_add_signal() == old(self).spec_add_signal(),
            final(self).spec_remove_signal() == old(self).spec_remove_signal(),
            refused is Some <==> old(self).ids().contains(device.spec_id()),
            refused matches Some(d) ==> d == device && *final(self) == *old(self),
            refused is None ==> final(self).entries() == old(self).entries().push(device),
    {
        if self.contains(device.id()) {
            return Some(device);
        }
        let ghost before = self.ids();
        self.devices.push(device);
        proof {
            assert(self.ids() =~= before.push(device.spec_id()));
            if before.no_duplicates() {
                lemma_attached_distinct(before, device.spec_id());
            }
        }
        None
    }

    /// Takes the device with the handle `id` out of the attached devices, if
    /// it is there. The others keep their order.
    pub(crate) fn take(&mut self, id: usize) -> (taken: Option<D>)
        ensures
            old(self).wf() ==> final(self).wf(),
            final(self).ids() == detached(old(self).ids(), id),
            final(self).spec_add_listener() == old(self).spec_add_listener(),
            final(self).spec_remove_listener() == old(self).spec_remove_listener(),
            final(self).spec_add_signal() == old(self).spec_add_signal(),
            final(self).spec_remove_signal() == old(self).spec_remove_signal(),
            taken is Some <==> old(self).ids().contains(id),
            taken == old(self).entry(id),
            taken matches Some(d) ==> d.spec_id() == id,
            old(self).ids().index_of_first(id) matches Some(i) ==> final(self).entries()
                == old(self).entries().remove(i),
            taken is None ==> *final(self) == *old(self),
    {
        let ghost before = self.ids();
        match self.position(id) {
            Some(i) => {
                let device = self.devices.remove(i);
                proof {
                    assert(self.ids() =~= before.remove(i as int));
                    assert(old(self).entries()[i as int] == device);
                    if before.no_duplicates() {
                        lemma_detached_distinct(before, id);
                    }
                }
                Some(device)
            },
            None => {
                proof {
                    before.index_of_first_ensures(id);
                }
                None
            },
        }
    }
}

/// Announcing a device keeps the attached devices distinct.
pub proof fn lemma_attached_distinct(ids: Seq<usize>, id: usize)
    requires
        ids.no_duplicates(),
    ensures
        attached(ids, id).no_duplicates(),
        attached(ids, id).contains(id),
        forall|other: usize| other != id ==> (attached(ids, id).contains(other) <==> ids.contains(other)),
{
    let after = attached(ids, id);
    if !ids.contains(id) {
        assert(after[ids.len() as int] == id);
        assert forall|other: usize| other != id && after.contains(other) implies ids.contains(
            other,
        ) by {
            let k = choose|k: int| 0 <= k < after.len() && after[k] == other;
            assert(k < ids.len());
            assert(ids[k] == other);
        }
        assert forall|other: usize| other != id && ids.contains(other) implies after.contains(
            other,
        ) by {
            let k = choose|k: int| 0 <= k < ids.len() && ids[k] == other;
            assert(after[k] == other);
        }
    }
}

/// Withdrawing a device keeps the attached devices distinct, takes that
/// device out and leaves every other one in.
pub proof fn lemma_detached_distinct(ids: Seq<usize>, id: usize)
    requires
        ids.no_duplicates(),
    ensures
        detached(ids, id).no_duplicates(),
        !detached(ids, id).contains(id),
        forall|other: usize| other != id ==> (detached(ids, id).contains(other) <==> ids.contains(other)),
        !ids.contains(id) ==> detached(ids, id) == ids,
{
    ids.index_of_first_ensures(id);
    let after = detached(ids, id);
    match ids.index_of_first(id) {
        Some(i) => {
            assert(after =~= ids.remove(i));
            assert forall|a: int, b: int| 0 <= a < after.len() && 0 <= b < after.len() && a != b implies after[a] != after[b] by {
                let a0 = if a < i { a } else { a + 1 };
                let b0 = if b < i { b } else { b + 1 };
                assert(after[a] == ids[a0]);
                assert(after[b] == ids[b0]);
            }
            if after.contains(id) {
                let k = choose|k: int| 0 <= k < after.len() && after[k] == id;
                let k0 = if k < i { k } else { k + 1 };
                assert(ids[k0] == id);
                assert(false);
            }
            assert forall|other: usize| other != id && after.contains(other) implies ids.contains(other) by {
                let k = choose|k: int| 0 <= k < after.len() && after[k] == other;
                let k0 = if k < i { k } else { k + 1 };
                assert(ids[k0] == other);
            }
            assert forall|other: usize| other != id && ids.contains(other) implies after.contains(other) by {
                let k = choose|k: int| 0 <= k < ids.len() && ids[k] == other;
                let k1 = if k < i { k } else { k - 1 };
                assert(after[k1] == other);
            }
        },
        None => {},
    }
}

} // verus!
