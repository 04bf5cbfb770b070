//! What holds of a node's listeners and phase over several steps.
use crate::error::{BindError, NodeError};
use crate::node::{
    address_in_use, distinct_ids, holds_listener, listen_decision, listeners_without,
    phase_after_event, phase_after_listen, poll_gate, position_of, record_refusal, ListenerView,
    Phase,
};
use vstd::prelude::*;

verus! {

/// The listeners that are left once the listeners named in `closed` have
/// closed, one after the other.
pub open spec fn listeners_after_all(
    listeners: Seq<ListenerView>,
    closed: Seq<libp2p::core::transport::ListenerId>,
) -> Seq<ListenerView>
    decreases closed.len(),
{
    if closed.len() == 0 {
        listeners
    } else {
        listeners_without(listeners_after_all(listeners, closed.drop_last()), closed.last())
    }
}

/// The phase once the listeners named in `closed` have closed, one after the
/// other.
pub open spec fn phase_after_all(
    phase: Phase,
    listeners: Seq<ListenerView>,
    closed: Seq<libp2p::core::transport::ListenerId>,
) -> Phase
    decreases closed.len(),
{
    if closed.len() == 0 {
        phase
    } else {
        phase_after_event(
            phase_after_all(phase, listeners, closed.drop_last()),
            listeners_after_all(listeners, closed),
        )
    }
}

/// Closing one listener leaves only listeners that were there before, none of
/// them with the closed identifier, and no identifier twice.
pub proof fn lemma_without(listeners: Seq<ListenerView>, id: libp2p::core::transport::ListenerId)
    requires
        distinct_ids(listeners),
    ensures
        distinct_ids(listeners_without(listeners, id)),
        forall|j: int|
            0 <= j < listeners_without(listeners, id).len() ==> listeners.contains(
                #[trigger] listeners_without(listeners, id)[j],
            ) && listeners_without(listeners, id)[j].id != id,
{
    let rest = listeners_without(listeners, id);
    if holds_listener(listeners, id) {
        let p = position_of(listeners, id);
        assert(0 <= p < listeners.len() && listeners[p].id == id);
        assert forall|j: int| 0 <= j < rest.len() implies listeners.contains(#[trigger] rest[j])
            && rest[j].id != id by {
            let j0 = if j < p {
                j
            } else {
                j + 1
            };
            assert(rest[j] == listeners[j0]);
            if j0 < p {
                assert(listeners[j0].id != listeners[p].id);
            } else {
                assert(listeners[p].id != listeners[j0].id);
            }
        }
        assert forall|a: int, b: int| 0 <= a < b < rest.len() implies (#[trigger] rest[a]).id != (
        #[trigger] rest[b]).id by {
            let a0 = if a < p {
                a
            } else {
                a + 1
            };
            let b0 = if b < p {
                b
            } else {
                b + 1
            };
            assert(listeners[a0].id != listeners[b0].id);
        }
    } else {
        assert forall|j: int| 0 <= j < rest.len() implies listeners.contains(#[trigger] rest[j])
            && rest[j].id != id by {
            assert(listeners[j] == rest[j]);
        }
    }
}

/// After any run of closures, what is left was there at the start, holds no
/// identifier twice, and holds none of the identifiers that closed.
pub proof fn lemma_after_all(
    listeners: Seq<ListenerView>,
    closed: Seq<libp2p::core::transport::ListenerId>,
)
    requires
        distinct_ids(listeners),
    ensures
        distinct_ids(listeners_after_all(listeners, closed)),
        forall|j: int|
            0 <= j < listeners_after_all(listeners, closed).len() ==> listeners.contains(
                #[trigger] listeners_after_all(listeners, closed)[j],
            ) && !closed.contains(listeners_after_all(listeners, closed)[j].id),
    decreases closed.len(),
{
    let rest = listeners_after_all(listeners, closed);
    if closed.len() == 0 {
        assert forall|j: int| 0 <= j < rest.len() implies listeners.contains(#[trigger] rest[j])
            && !closed.contains(rest[j].id) by {
            assert(listeners[j] == rest[j]);
        }
    } else {
        let earlier = closed.drop_last();
        let middle = listeners_after_all(listeners, earlier);
        lemma_after_all(listeners, earlier);
        lemma_without(middle, closed.last());
        assert forall|j: int| 0 <= j < rest.len() implies listeners.contains(#[trigger] rest[j])
            && !closed.contains(rest[j].id) by {
            assert(middle.contains(rest[j]));
            let m = choose|m: int| 0 <= m < middle.len() && middle[m] == rest[j];
            assert(listeners.contains(middle[m]));
            assert(!earlier.contains(middle[m].id));
            if closed.contains(rest[j].id) {
                let k = choose|k: int| 0 <= k < closed.len() && closed[k] == rest[j].id;
                if k < closed.len() - 1 {
                    assert(earlier[k] == closed[k]);
                    assert(earlier.contains(rest[j].id));
                }
            }
        }
    }
}

/// A node that has listeners stays listening or polling, or closes, whatever
/// closes.
pub proof fn lemma_phase_after_all(
    phase: Phase,
    listeners: Seq<ListenerView>,
    closed: Seq<libp2p::core::transport::ListenerId>,
)
    requires
        phase == Phase::Listening || phase == Phase::Polling,
    ensures
        phase_after_all(phase, listeners, closed) != Phase::Constructed,
    decreases closed.len(),
{
    if closed.len() > 0 {
        lemma_phase_after_all(phase, listeners, closed.drop_last());
    }
}

/// Once every listener of a node has been reported closed, the node is
/// closed, and a closed node lets no poll through: the poll ends at once with
/// the word that the node has closed.
pub proof fn lemma_all_listeners_closed(
    phase: Phase,
    listeners: Seq<ListenerView>,
    closed: Seq<libp2p::core::transport::ListenerId>,
)
    requires
        phase == Phase::Listening || phase == Phase::Polling,
        listeners.len() > 0,
        distinct_ids(listeners),
        forall|i: int| 0 <= i < listeners.len() ==> closed.contains((#[trigger] listeners[i]).id),
    ensures
        listeners_after_all(listeners, closed).len() == 0,
        phase_after_all(phase, listeners, closed) == Phase::Closed,
        poll_gate(phase_after_all(phase, listeners, closed)) == Err::<(), NodeError>(
            NodeError::Closed,
        ),
{
    let rest = listeners_after_all(listeners, closed);
    lemma_after_all(listeners, closed);
    if rest.len() > 0 {
        assert(listeners.contains(rest[0]));
        let i = choose|i: int| 0 <= i < listeners.len() && listeners[i] == rest[0];
        assert(closed.contains(listeners[i].id));
        assert(false);
    }
    assert(closed.contains(listeners[0].id));
    assert(closed.len() > 0);
    lemma_phase_after_all(phase, listeners, closed.drop_last());
}

/// Once a listener stands on an address that the caller named, a second
/// request that names the same address is turned down as in use.
pub proof fn lemma_named_address_binds_once(
    phase: Phase,
    listeners: Seq<ListenerView>,
    first: ListenerView,
    fallback: Option<Seq<u8>>,
)
    requires
        first.explicit,
        record_refusal(phase, listeners, first).is_none(),
    ensures
        listen_decision(
            phase_after_listen(phase),
            listeners.push(first),
            Some(first.address),
            fallback,
        ) == Err::<(Seq<u8>, bool), NodeError>(NodeError::Bind(BindError::AddressInUse)),
{
    let held = listeners.push(first);
    assert(held[listeners.len() as int] == first);
    assert(address_in_use(held, first.address));
}

/// A request that names no address is agreed to on every open node, however
/// many listeners the node holds, and the listener bound for it is taken in
/// exactly if its identifier is new to the node: asking twice gives two
/// listeners under two identifiers.
pub proof fn lemma_unnamed_listen_repeats(
    phase: Phase,
    listeners: Seq<ListenerView>,
    fresh: ListenerView,
    fallback: Seq<u8>,
)
    requires
        phase != Phase::Closed,
        !fresh.explicit,
    ensures
        listen_decision(phase, listeners, None, Some(fallback)) == Ok::<
            (Seq<u8>, bool),
            NodeError,
        >((fallback, false)),
        record_refusal(phase, listeners, fresh).is_none() <==> !holds_listener(
            listeners,
            fresh.id,
        ),
        record_refusal(phase, listeners, fresh).is_none() ==> distinct_ids(listeners)
            ==> distinct_ids(listeners.push(fresh)),
{
    if record_refusal(phase, listeners, fresh).is_none() && distinct_ids(listeners) {
        let held = listeners.push(fresh);
        assert forall|i: int, j: int| 0 <= i < j < held.len() implies (#[trigger] held[i]).id != (
        #[trigger] held[j]).id by {
            if j == listeners.len() {
                assert(listeners[i].id != fresh.id);
            } else {
                assert(listeners[i].id != listeners[j].id);
            }
        }
    }
}

} // verus!
