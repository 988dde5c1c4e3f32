//! Listeners on backend signals.
//!
//! A signal is an observer list that the backend owns. [`Signal`] mirrors one
//! such list as far as this toolkit has subscribed to it, and a [`Listener`]
//! is the token of one subscription. The backend calls a listener with no more
//! than the listener itself and an event payload, so each listener records
//! the entry point that the call reaches and the handle of the object that
//! the entry point works on.
use vstd::prelude::*;

verus! {

/// The entry point that a listener reaches when its signal fires.
#[derive(Clone, Copy, Debug, PartialEq, Eq, Structural)]
pub enum Notify {
    /// An input device has appeared.
    InputAdd,
    /// An input device has gone.
    InputRemove,
    /// An output has appeared.
    OutputAdd,
    /// An output has gone.
    OutputRemove,
    /// A pointer button was pressed or released.
    PointerButton,
    /// A pointer moved by a relative amount.
    PointerMotion,
    /// A pointer moved to an absolute position.
    PointerMotionAbsolute,
    /// A pointer axis was scrolled.
    PointerAxis,
}

/// What a listener stands for: the signal that it is on, the entry point
/// that it reaches and the handle of the object that the entry point works
/// on.
pub struct Registration {
    pub signal: usize,
    pub notify: Notify,
    pub payload: usize,
}

/// One subscription of a handler to a signal.
///
/// The token is not `Clone`: handing it to [`Signal::deregister`] gives it up.
#[derive(Debug, PartialEq, Eq)]
pub struct Listener {
    signal: usize,
    notify: Notify,
    payload: usize,
}

impl View for Listener {
    type V = Registration;

    closed spec fn view(&self) -> Registration {
        Registration { signal: self.signal, notify: self.notify, payload: self.payload }
    }
}

impl Listener {
    /// Handle of the signal that the listener was registered on.
    pub fn signal(&self) -> (handle: usize)
        ensures
            handle == self@.signal,
    {
        self.signal
    }

    /// The entry point that the listener reaches.
    pub fn notify(&self) -> (notify: Notify)
        ensures
            notify == self@.notify,
    {
        self.notify
    }

    /// Handle of the object that the entry point works on.
    pub fn payload(&self) -> (payload: usize)
        ensures
            payload == self@.payload,
    {
        self.payload
    }
}

/// What the token stands for, if there is a token.
pub open spec fn shown(token: Option<Listener>) -> Option<Registration> {
    match token {
        Some(listener) => Some(listener@),
        None => None,
    }
}

/// The subscriptions that this toolkit holds on one backend signal, in the
/// order in which they were made.
pub struct Signal {
    handle: usize,
    subscribers: Vec<Listener>,
}

impl View for Signal {
    type V = Seq<Registration>;

    closed spec fn view(&self) -> Seq<Registration> {
        Seq::new(self.subscribers@.len(), |i: int| self.subscribers@[i]@)
    }
}

impl Signal {
    /// Handle of the backend signal.
    pub closed spec fn spec_handle(&self) -> usize {
        self.handle
    }

    /// True for the signal with the null handle, which takes no listener.
    pub open spec fn spec_is_null(&self) -> bool {
        self.spec_handle() == 0
    }

    /// The signal with the handle `handle`, with no listener on it.
    pub fn new(handle: usize) -> (signal: Signal)
        ensures
            signal.spec_handle() == handle,
            signal@ == Seq::<Registration>::empty(),
    {
        let signal = Signal { handle, subscribers: Vec::new() };
        assert(signal@ =~= Seq::<Registration>::empty());
        signal
    }

    /// Handle of the backend signal.
    #[verifier::when_used_as_spec(spec_handle)]
    pub fn handle(&self) -> (handle: usize)
        ensures
            handle == self.spec_handle(),
    {
        self.handle
    }

    /// True for the signal with the null handle.
    #[verifier::when_used_as_spec(spec_is_null)]
    pub fn is_null(&self) -> (null: bool)
        ensures
            null == self.spec_is_null(),
    {
        self.handle == 0
    }

    /// Number of listeners on the signal.
    pub fn subscriber_count(&self) -> (count: usize)
        ensures
            count == self@.len(),
    {
        self.subscribers.len()
    }

    /// The listeners on the signal, in the order in which the signal calls
    /// them.
    pub fn subscribers(&self) -> (listeners: &[Listener])
        ensures
            listeners@.len() == self@.len(),
            forall|i: int| 0 <= i < listeners@.len() ==> (#[trigger] listeners@[i])@ == self@[i],
    {
        self.subscribers.as_slice()
    }

    /// Position of the first listener for the entry point `notify`, working
    /// on `payload`, if there is one.
    pub fn position(&self, notify: Notify, payload: usize) -> (found: Option<usize>)
        ensures
            found is Some <==> self@.contains(
                (Registration { signal: self.spec_handle(), notify, payload }),
            ),
            found matches Some(i) ==> self@.index_of_first(
                (Registration { signal: self.spec_handle(), notify, payload }),
            ) == Some(i as int),
    {
        let ghost wanted = Registration { signal: self.handle, notify, payload };
        let mut i: usize = 0;
        while i < self.subscribers.len()
            invariant
                i <= self.subscribers.len(),
                wanted == (Registration { signal: self.handle, notify, payload }),
                forall|j: int| 0 <= j < i ==> self@[j] != wanted,
            decreases self.subscribers.len() - i,
        {
            let l = &self.subscribers[i];
            if l.signal == self.handle && l.notify == notify && l.payload == payload {
                proof {
                    assert(self@[i as int] == wanted);
                    self@.index_of_first_ensures(wanted);
                }
                return Some(i);
            }
            i += 1;
        }
        None
    }

    /// True if a listener for the entry point `notify`, working on `payload`,
    /// is on the signal.
    pub fn is_registered(&self, notify: Notify, payload: usize) -> (registered: bool)
        ensures
            registered == self@.contains(
                (Registration { signal: self.spec_handle(), notify, payload }),
            ),
    {
        self.position(notify, payload).is_some()
    }

    /// Subscribes the entry point `notify`, working on `payload`, to the
    /// signal and returns the token of the subscription.
    ///
    /// The null signal takes no listener: nothing changes and there is no
    /// token. On any other signal the listener goes behind those that are
    /// already there. The same listener must not be on the signal already.
    pub fn register(&mut self, notify: Notify, payload: usize) -> (token: Option<Listener>)
        requires
            !old(self)@.contains(
                (Registration { signal: old(self).spec_handle(), notify, payload }),
            ),
        ensures
            final(self).spec_handle() == old(self).spec_handle(),
            shown(token) == listener_on(old(self).spec_handle(), notify, payload),
            final(self)@ == registered(old(self)@, old(self).spec_handle(), notify, payload),
    {
        if self.handle == 0 {
            return None;
        }
        self.subscribers.push(Listener { signal: self.handle, notify, payload });
        assert(self@ =~= old(self)@.push(
            (Registration { signal: self.handle, notify, payload }),
        ));
        Some(Listener { signal: self.handle, notify, payload })
    }

    /// Takes the listener off the signal and gives up its token.
    ///
    /// The listeners that stay keep their order. A token that is not on this
    /// signal changes nothing.
    pub fn deregister(&mut self, listener: Listener)
        ensures
            final(self).spec_handle() == old(self).spec_handle(),
            final(self)@ == deregistered(old(self)@, listener@),
    {
        let ghost before = self@;
        let mut i: usize = 0;
        while i < self.subscribers.len()
            invariant
                i <= self.subscribers.len(),
                self.handle == old(self).handle,
                self@ == before,
                before == old(self)@,
                forall|j: int| 0 <= j < i ==> before[j] != listener@,
            decreases self.subscribers.len() - i,
        {
            let l = &self.subscribers[i];
            if l.signal == listener.signal && l.notify == listener.notify && l.payload
                == listener.payload {
                proof {
                    assert(before[i as int] == listener@);
                    before.index_of_first_ensures(listener@);
                }
                self.subscribers.remove(i);
                assert(self@ =~= before.remove(i as int));
                return ;
            }
            i += 1;
        }
        proof {
            before.index_of_first_ensures(listener@);
        }
    }
}

/// What registering the entry point `notify`, working on `payload`, leaves
/// with the owner: nothing on the null signal.
pub open spec fn listener_on(signal: usize, notify: Notify, payload: usize) -> Option<
    Registration,
> {
    if signal == 0 {
        None
    } else {
        Some(Registration { signal, notify, payload })
    }
}

/// A signal together with the one listener that its owner keeps on it.
///
/// The owner of a listener has to take it off the signal before the owner
/// goes away. A subscription ties the two together: it is made by
/// registering, and it is taken apart by [`Subscription::cancel`], which
/// deregisters.
pub struct Subscription {
    signal: Signal,
    listener: Option<Listener>,
}

impl Subscription {
    #[verifier::type_invariant]
    spec fn linked(&self) -> bool {
        match self.listener {
            Some(l) => self.signal@ == seq![l@] && l@.signal == self.signal.spec_handle()
                && !self.signal.spec_is_null(),
            None => self.signal@ == Seq::<Registration>::empty() && self.signal.spec_is_null(),
        }
    }

    /// Handle of the signal.
    pub closed spec fn spec_signal(&self) -> usize {
        self.signal.spec_handle()
    }

    /// What the listener on the signal stands for, if the signal took one.
    pub closed spec fn spec_listener(&self) -> Option<Registration> {
        shown(self.listener)
    }

    /// The listeners on the signal.
    pub closed spec fn subscribers(&self) -> Seq<Registration> {
        self.signal@
    }

    /// Registers the entry point `notify`, working on `payload`, on the
    /// signal with the handle `signal`.
    ///
    /// The null signal takes no listener; any other signal now has this one.
    pub fn new(signal: usize, notify: Notify, payload: usize) -> (made: Subscription)
        ensures
            made.spec_signal() == signal,
            made.spec_listener() == listener_on(signal, notify, payload),
            made.subscribers() == registered(Seq::empty(), signal, notify, payload),
    {
        let mut mirror = Signal::new(signal);
        let listener = mirror.register(notify, payload);
        Subscription { signal: mirror, listener }
    }

    /// Handle of the signal.
    #[verifier::when_used_as_spec(spec_signal)]
    pub fn signal(&self) -> (handle: usize)
        ensures
            handle == self.spec_signal(),
    {
        self.signal.handle()
    }

    /// The listener on the signal, if the signal took one, which any but the
    /// null signal did. No other listener is on the signal.
    pub fn listener(&self) -> (listener: &Option<Listener>)
        ensures
            shown(*listener) == self.spec_listener(),
            self.spec_listener() is Some <==> self.spec_signal() != 0,
            self.subscribers() == match self.spec_listener() {
                Some(l) => seq![l],
                None => Seq::empty(),
            },
    {
        proof {
            use_type_invariant(self);
        }
        &self.listener
    }

    /// Takes the listener off the signal and returns the signal, which has no
    /// listener left.
    pub fn cancel(self) -> (signal: Signal)
        ensures
            signal.spec_handle() == self.spec_signal(),
            signal@ == Seq::<Registration>::empty(),
            self.spec_listener() matches Some(l) ==> signal@ == deregistered(self.subscribers(), l),
    {
        proof {
            use_type_invariant(&self);
        }
        let Subscription { signal, listener } = self;
        let mut signal = signal;
        match listener {
            Some(l) => {
                proof {
                    lemma_register_deregister_round_trip(
                        Seq::empty(),
                        l@.signal,
                        l@.notify,
                        l@.payload,
                    );
                    assert(seq![l@] =~= Seq::<Registration>::empty().push(l@));
                }
                signal.deregister(l);
            },
            None => {},
        }
        signal
    }
}

/// The listeners on a signal after one for the entry point `notify`, working
/// on `payload`, was registered: unchanged on the null signal, else with the
/// new listener at the end.
pub open spec fn registered(
    listeners: Seq<Registration>,
    signal: usize,
    notify: Notify,
    payload: usize,
) -> Seq<Registration> {
    if signal == 0 {
        listeners
    } else {
        listeners.push(Registration { signal, notify, payload })
    }
}

/// The listeners on a signal after `listener` was deregistered: without its
/// first occurrence, if it occurs.
pub open spec fn deregistered(listeners: Seq<Registration>, listener: Registration) -> Seq<
    Registration,
> {
    listeners.remove_value(listener)
}

/// Registering a listener and deregistering it at once leaves the signal
/// with the listeners that it had, in the same order, so with as many.
pub proof fn lemma_register_deregister_round_trip(
    listeners: Seq<Registration>,
    signal: usize,
    notify: Notify,
    payload: usize,
)
    requires
        !listeners.contains((Registration { signal, notify, payload })),
    ensures
        deregistered(
            registered(listeners, signal, notify, payload),
            (Registration { signal, notify, payload }),
        ) == listeners,
        deregistered(
            registered(listeners, signal, notify, payload),
            (Registration { signal, notify, payload }),
        ).len() == listeners.len(),
{
    let l = Registration { signal, notify, payload };
    let after = registered(listeners, signal, notify, payload);
    after.index_of_first_ensures(l);
    if signal != 0 {
        assert(after[listeners.len() as int] == l);
        assert(after.index_of_first(l) == Some(listeners.len() as int));
        assert(after.remove(listeners.len() as int) =~= listeners);
    }
}

} // verus!
