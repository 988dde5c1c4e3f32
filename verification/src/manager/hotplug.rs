//! What a manager holds after any run of signals.
//!
//! The backend announces and withdraws devices in whatever order the
//! hardware comes and goes. This module says what the attached devices are
//! after a whole run of such signals, without going through the run step by
//! step, and proves that the steps of a manager arrive there.
use vstd::prelude::*;
use crate::manager::device_manager::{
    attached,
    detached,
    lemma_attached_distinct,
    lemma_detached_distinct,
};

verus! {

/// A signal of the backend about one device.
#[derive(Clone, Copy, Debug, PartialEq, Eq, Structural)]
pub enum Hotplug {
    /// The device with this handle has appeared.
    Add(usize),
    /// The device with this handle has gone.
    Remove(usize),
}

/// The attached devices after one more signal.
pub open spec fn step(ids: Seq<usize>, signal: Hotplug) -> Seq<usize> {
    match signal {
        Hotplug::Add(id) => attached(ids, id),
        Hotplug::Remove(id) => detached(ids, id),
    }
}

/// The attached devices of a manager that started with none and took the
/// signals `signals` one after the other.
pub open spec fn replay(signals: Seq<Hotplug>) -> Seq<usize>
    decreases signals.len(),
{
    if signals.len() == 0 {
        Seq::empty()
    } else {
        step(replay(signals.drop_last()), signals.last())
    }
}

/// True if the signal at the position `at` is the one by which the device
/// `id` is attached at the end of `signals`: it announces the device, the
/// device is not withdrawn after it, and each earlier announcement of the
/// device was followed by a withdrawal before it.
pub open spec fn attaches(signals: Seq<Hotplug>, id: usize, at: int) -> bool {
    &&& 0 <= at < signals.len()
    &&& signals[at] == Hotplug::Add(id)
    &&& forall|k: int| at < k < signals.len() ==> signals[k] != Hotplug::Remove(id)
    &&& forall|j: int|
        0 <= j < at && signals[j] == Hotplug::Add(id) ==> exists|k: int|
            j < k < at && signals[k] == Hotplug::Remove(id)
}

/// Position of the signal by which the device `id` is attached at the end of
/// `signals`, if it is attached then.
spec fn since(signals: Seq<Hotplug>, id: usize) -> Option<int>
    decreases signals.len(),
{
    if signals.len() == 0 {
        None
    } else {
        let before = since(signals.drop_last(), id);
        if signals.last() == Hotplug::Add(id) {
            match before {
                Some(at) => Some(at),
                None => Some(signals.len() - 1),
            }
        } else if signals.last() == Hotplug::Remove(id) {
            None
        } else {
            before
        }
    }
}

/// True if every announcement of `id` in `signals` is followed by a
/// withdrawal.
spec fn all_withdrawn(signals: Seq<Hotplug>, id: usize) -> bool {
    forall|j: int|
        0 <= j < signals.len() && signals[j] == Hotplug::Add(id) ==> exists|k: int|
            j < k < signals.len() && signals[k] == Hotplug::Remove(id)
}

proof fn lemma_since(signals: Seq<Hotplug>, id: usize)
    ensures
        since(signals, id) matches Some(at) ==> attaches(signals, id, at),
        since(signals, id) is None ==> all_withdrawn(signals, id),
    decreases signals.len(),
{
    if signals.len() > 0 {
        let n = signals.len() as int;
        let head = signals.drop_last();
        lemma_since(head, id);
        let before = since(head, id);
        assert forall|k: int| 0 <= k < n - 1 implies head[k] == signals[k] by {}
        if signals.last() == Hotplug::Add(id) {
            match before {
                Some(at) => {
                    assert(attaches(head, id, at));
                    assert forall|k: int| at < k < n implies signals[k] != Hotplug::Remove(
                        id,
                    ) by {
                        if k < n - 1 {
                            assert(head[k] != Hotplug::Remove(id));
                        }
                    }
                    assert forall|j: int|
                        0 <= j < at && signals[j] == Hotplug::Add(id) implies exists|k: int|
                        j < k < at && signals[k] == Hotplug::Remove(id) by {
                        assert(head[j] == Hotplug::Add(id));
                        let k = choose|k: int| j < k < at && head[k] == Hotplug::Remove(id);
                        assert(signals[k] == Hotplug::Remove(id));
                    }
                    assert(attaches(signals, id, at));
                },
                None => {
                    assert(all_withdrawn(head, id));
                    assert forall|j: int|
                        0 <= j < n - 1 && signals[j] == Hotplug::Add(id) implies exists|k: int|
                        j < k < n - 1 && signals[k] == Hotplug::Remove(id) by {
                        assert(head[j] == Hotplug::Add(id));
                        let k = choose|k: int| j < k < head.len() && head[k] == Hotplug::Remove(id);
                        assert(signals[k] == Hotplug::Remove(id));
                    }
                    assert(attaches(signals, id, n - 1));
                },
            }
        } else if signals.last() == Hotplug::Remove(id) {
            assert forall|j: int|
                0 <= j < n && signals[j] == Hotplug::Add(id) implies exists|k: int|
                j < k < n && signals[k] == Hotplug::Remove(id) by {
                assert(signals[n - 1] == Hotplug::Remove(id));
            }
        } else {
            match before {
                Some(at) => {
                    assert(attaches(head, id, at));
                    assert forall|k: int| at < k < n implies signals[k] != Hotplug::Remove(
                        id,
                    ) by {
                        if k < n - 1 {
                            assert(head[k] != Hotplug::Remove(id));
                        }
                    }
                    assert forall|j: int|
                        0 <= j < at && signals[j] == Hotplug::Add(id) implies exists|k: int|
                        j < k < at && signals[k] == Hotplug::Remove(id) by {
                        assert(head[j] == Hotplug::Add(id));
                        let k = choose|k: int| j < k < at && head[k] == Hotplug::Remove(id);
                        assert(signals[k] == Hotplug::Remove(id));
                    }
                    assert(attaches(signals, id, at));
                },
                None => {
                    assert(all_withdrawn(head, id));
                    assert forall|j: int|
                        0 <= j < n && signals[j] == Hotplug::Add(id) implies exists|k: int|
                        j < k < n && signals[k] == Hotplug::Remove(id) by {
                        assert(j < n - 1);
                        assert(head[j] == Hotplug::Add(id));
                        let k = choose|k: int| j < k < head.len() && head[k] == Hotplug::Remove(id);
                        assert(signals[k] == Hotplug::Remove(id));
                    }
                },
            }
        }
    }
}

/// At most one signal attaches a device.
proof fn lemma_attaches_once(signals: Seq<Hotplug>, id: usize, a: int, b: int)
    requires
        attaches(signals, id, a),
        attaches(signals, id, b),
    ensures
        a == b,
{
    if a < b {
        let k = choose|k: int| a < k < b && signals[k] == Hotplug::Remove(id);
        assert(signals[k] != Hotplug::Remove(id));
    } else if b < a {
        let k = choose|k: int| b < k < a && signals[k] == Hotplug::Remove(id);
        assert(signals[k] != Hotplug::Remove(id));
    }
}

/// The signal that attaches a device, if any, is the one that `since` names.
proof fn lemma_attaches_is_since(signals: Seq<Hotplug>, id: usize, at: int)
    requires
        attaches(signals, id, at),
    ensures
        since(signals, id) == Some(at),
{
    lemma_since(signals, id);
    match since(signals, id) {
        Some(other) => {
            lemma_attaches_once(signals, id, at, other);
        },
        None => {
            assert(all_withdrawn(signals, id));
            let k = choose|k: int| at < k < signals.len() && signals[k] == Hotplug::Remove(id);
            assert(signals[k] != Hotplug::Remove(id));
        },
    }
}

proof fn lemma_replay_since(signals: Seq<Hotplug>)
    ensures
        replay(signals).no_duplicates(),
        forall|id: usize| replay(signals).contains(id) <==> (#[trigger] since(signals, id)) is Some,
        forall|p: int, q: int|
            0 <= p < q < replay(signals).len() ==> since(signals, #[trigger] replay(signals)[p])->0
                < since(signals, #[trigger] replay(signals)[q])->0,
    decreases signals.len(),
{
    if signals.len() > 0 {
        let n = signals.len() as int;
        let head = signals.drop_last();
        let r0 = replay(head);
        let r = replay(signals);
        lemma_replay_since(head);
        match signals.last() {
            Hotplug::Add(d) => {
                lemma_attached_distinct(r0, d);
                assert forall|id: usize| id != d implies since(signals, id) == since(head, id) by {}
                assert forall|id: usize| r.contains(id) <==> (#[trigger] since(signals, id)) is Some by {
                    if id != d {
                        assert(since(signals, id) == since(head, id));
                    }
                }
                if r0.contains(d) {
                    assert(since(head, d) is Some);
                    assert(since(signals, d) == since(head, d));
                    assert forall|p: int, q: int| 0 <= p < q < r.len() implies since(
                        signals,
                        #[trigger] r[p],
                    )->0 < since(signals, #[trigger] r[q])->0 by {
                        assert(since(signals, r[p]) == since(head, r0[p]));
                        assert(since(signals, r[q]) == since(head, r0[q]));
                    }
                } else {
                    assert(since(head, d) is None);
                    assert(since(signals, d) == Some(n - 1));
                    assert forall|p: int, q: int| 0 <= p < q < r.len() implies since(
                        signals,
                        #[trigger] r[p],
                    )->0 < since(signals, #[trigger] r[q])->0 by {
                        assert(r[p] == r0[p]);
                        assert(r0.contains(r0[p]));
                        assert(r[p] != d);
                        assert(since(signals, r[p]) == since(head, r0[p]));
                        lemma_since(head, r0[p]);
                        if q < r0.len() {
                            assert(r[q] == r0[q]);
                            assert(r0.contains(r0[q]));
                            assert(since(signals, r[q]) == since(head, r0[q]));
                        } else {
                            assert(r[q] == d);
                        }
                    }
                }
            },
            Hotplug::Remove(d) => {
                lemma_detached_distinct(r0, d);
                r0.index_of_first_ensures(d);
                assert forall|id: usize| id != d implies since(signals, id) == since(head, id) by {}
                assert(since(signals, d) is None);
                assert forall|id: usize| r.contains(id) <==> (#[trigger] since(signals, id)) is Some by {
                    if id != d {
                        assert(since(signals, id) == since(head, id));
                    }
                }
                match r0.index_of_first(d) {
                    Some(i) => {
                        assert(r =~= r0.remove(i));
                        assert forall|p: int, q: int| 0 <= p < q < r.len() implies since(
                            signals,
                            #[trigger] r[p],
                        )->0 < since(signals, #[trigger] r[q])->0 by {
                            let p0 = if p < i { p } else { p + 1 };
                            let q0 = if q < i { q } else { q + 1 };
                            assert(r[p] == r0[p0]);
                            assert(r[q] == r0[q0]);
                            assert(r.contains(r[p]));
                            assert(r.contains(r[q]));
                            assert(since(signals, r[p]) == since(head, r0[p0]));
                            assert(since(signals, r[q]) == since(head, r0[q0]));
                        }
                    },
                    None => {
                        assert(r == r0);
                        assert forall|p: int, q: int| 0 <= p < q < r.len() implies since(
                            signals,
                            #[trigger] r[p],
                        )->0 < since(signals, #[trigger] r[q])->0 by {
                            assert(r0.contains(r0[p]));
                            assert(r0.contains(r0[q]));
                            assert(since(signals, r[p]) == since(head, r0[p]));
                            assert(since(signals, r[q]) == since(head, r0[q]));
                        }
                    },
                }
            },
        }
    }
}

/// After any run of signals a manager holds the devices that were announced
/// and not withdrawn since, each once, in the order in which they were
/// attached.
///
/// A device is held at the end if and only if some signal attaches it, and of
/// two devices that are held, the one that was attached by the earlier
/// signal comes first.
pub proof fn lemma_replay(signals: Seq<Hotplug>)
    ensures
        replay(signals).no_duplicates(),
        forall|id: usize| #[trigger]
            replay(signals).contains(id) <==> exists|at: int| attaches(signals, id, at),
        forall|p: int, q: int, a: int, b: int|
            0 <= p < q < replay(signals).len() && #[trigger] attaches(signals, replay(signals)[p], a)
                && #[trigger] attaches(signals, replay(signals)[q], b) ==> a < b,
{
    lemma_replay_since(signals);
    let r = replay(signals);
    assert forall|id: usize| #[trigger] r.contains(id) <==> exists|at: int| attaches(signals, id, at) by {
        lemma_since(signals, id);
        if r.contains(id) {
            assert(since(signals, id) is Some);
            assert(attaches(signals, id, since(signals, id)->0));
        }
        if exists|at: int| attaches(signals, id, at) {
            let at = choose|at: int| attaches(signals, id, at);
            lemma_attaches_is_since(signals, id, at);
        }
    }
    assert forall|p: int, q: int, a: int, b: int|
        0 <= p < q < r.len() && #[trigger] attaches(signals, r[p], a) && #[trigger] attaches(
            signals,
            r[q],
            b,
        ) implies a < b by {
        lemma_attaches_is_since(signals, r[p], a);
        lemma_attaches_is_since(signals, r[q], b);
    }
}

/// A manager that holds what `signals` left and takes one more signal holds
/// what the longer run leaves. So the devices of a manager that started with
/// none are at any time the replay of the signals that it has taken.
pub proof fn lemma_replay_next(signals: Seq<Hotplug>, signal: Hotplug)
    ensures
        replay(signals.push(signal)) == step(replay(signals), signal),
{
    assert(signals.push(signal).drop_last() =~= signals);
}

/// Withdrawing a device that is not attached changes nothing.
pub proof fn lemma_remove_unknown(ids: Seq<usize>, id: usize)
    requires
        !ids.contains(id),
    ensures
        step(ids, Hotplug::Remove(id)) == ids,
{
    ids.index_of_first_ensures(id);
}

} // verus!
