//! Laws of the relay, proved over the step functions that specify its
//! operations.
use vstd::prelude::*;
use crate::relay::{
    close_model, lookup_model, notify_model, notify_verdict, receive_model, register_model,
    receive_reports, RelayModel, Verdict,
};
use crate::channel::Received;

verus! {

/// One operation on a relay, as its arguments' views.
pub enum Step {
    Register(Seq<char>, Seq<char>),
    Notify(Seq<char>, Seq<char>),
    Receive,
    Close,
}

/// The state after a run of operations, with the notifications that were
/// accepted and those that were received, each in the order they happened.
pub struct Trace {
    pub model: RelayModel,
    pub accepted: Seq<Seq<char>>,
    pub received: Seq<Seq<char>>,
}

/// Applies `steps` in order to a relay in state `m`.
pub open spec fn run(m: RelayModel, steps: Seq<Step>) -> Trace
    decreases steps.len(),
{
    if steps.len() == 0 {
        Trace { model: m, accepted: Seq::empty(), received: Seq::empty() }
    } else {
        let t = run(m, steps.drop_last());
        match steps.last() {
            Step::Register(id, name) => Trace { model: register_model(t.model, id, name), ..t },
            Step::Notify(id, msg) => Trace {
                model: notify_model(t.model, id, msg),
                accepted: if notify_verdict(t.model, id) is Delivered {
                    t.accepted.push(msg)
                } else {
                    t.accepted
                },
                received: t.received,
            },
            Step::Receive => Trace {
                model: receive_model(t.model),
                accepted: t.accepted,
                received: if t.model.queue.len() > 0 {
                    t.received.push(t.model.queue[0])
                } else {
                    t.received
                },
            },
            Step::Close => Trace { model: close_model(t.model), ..t },
        }
    }
}

/// Notifications of each of `msgs`, in order, to the device `id`.
pub open spec fn notify_each(id: Seq<char>, msgs: Seq<Seq<char>>) -> Seq<Step> {
    Seq::new(msgs.len(), |i: int| Step::Notify(id, msgs[i]))
}

/// After a device is registered, looking its identifier up finds it, whatever
/// was registered under that identifier before; registering another
/// identifier leaves the lookup as it was.
pub proof fn register_then_lookup(m: RelayModel, id: Seq<char>, name: Seq<char>, other: Seq<char>)
    ensures
        lookup_model(register_model(m, id, name), id) == Some(name),
        other != id ==> lookup_model(register_model(m, other, name), id) == lookup_model(m, id),
{
}

/// A notification for an unregistered identifier fails with `DeviceNotFound`
/// and leaves the relay, its queue included, unchanged.
pub proof fn notify_unregistered(m: RelayModel, id: Seq<char>, msg: Seq<char>)
    requires
        !m.devices.contains_key(id),
    ensures
        notify_verdict(m, id) == Verdict::DeviceNotFound,
        notify_model(m, id, msg) == m,
{
}

/// The consumer receives notifications in the order they were accepted: over
/// any run of operations, what was received followed by what still waits is
/// what waited at the start followed by what was accepted.
pub proof fn fifo_delivery(m: RelayModel, steps: Seq<Step>)
    ensures
        run(m, steps).received + run(m, steps).model.queue == m.queue + run(m, steps).accepted,
    decreases steps.len(),
{
    if steps.len() > 0 {
        fifo_delivery(m, steps.drop_last());
        let t = run(m, steps.drop_last());
        match steps.last() {
            Step::Notify(id, msg) => {
                if notify_verdict(t.model, id) is Delivered {
                    assert(t.received + t.model.queue.push(msg) =~= (t.received
                        + t.model.queue).push(msg));
                    assert(m.queue + t.accepted.push(msg) =~= (m.queue + t.accepted).push(msg));
                }
            },
            Step::Receive => {
                if t.model.queue.len() > 0 {
                    assert(t.received.push(t.model.queue[0]) + t.model.queue.drop_first()
                        =~= t.received + t.model.queue);
                }
            },
            _ => {},
        }
    }
}

/// Successive notifications to a registered device on an open channel with
/// room for all of them are all accepted, and queued in the order sent.
pub proof fn notify_in_order(m: RelayModel, id: Seq<char>, msgs: Seq<Seq<char>>)
    requires
        m.devices.contains_key(id),
        m.open,
        m.queue.len() + msgs.len() <= m.bound,
    ensures
        run(m, notify_each(id, msgs)).accepted == msgs,
        run(m, notify_each(id, msgs)).received == Seq::<Seq<char>>::empty(),
        run(m, notify_each(id, msgs)).model == (RelayModel { queue: m.queue + msgs, ..m }),
    decreases msgs.len(),
{
    let steps = notify_each(id, msgs);
    if msgs.len() == 0 {
        assert(m.queue + msgs =~= m.queue);
    } else {
        let front = msgs.drop_last();
        notify_in_order(m, id, front);
        assert(steps.drop_last() =~= notify_each(id, front));
        assert(front.push(msgs.last()) =~= msgs);
        assert((m.queue + front).push(msgs.last()) =~= m.queue + msgs);
    }
}

/// Filling an empty channel to its capacity succeeds, one more notification is
/// refused with `ChannelUnavailable`, and once the consumer has taken one
/// message a notification is accepted again.
pub proof fn capacity_boundary(
    m: RelayModel,
    id: Seq<char>,
    msgs: Seq<Seq<char>>,
    extra: Seq<char>,
)
    requires
        m.devices.contains_key(id),
        m.open,
        m.queue.len() == 0,
        msgs.len() == m.bound,
        m.bound > 0,
    ensures
        run(m, notify_each(id, msgs)).accepted == msgs,
        notify_verdict(run(m, notify_each(id, msgs)).model, id) == Verdict::ChannelUnavailable,
        notify_model(run(m, notify_each(id, msgs)).model, id, extra) == run(
            m,
            notify_each(id, msgs),
        ).model,
        notify_verdict(receive_model(run(m, notify_each(id, msgs)).model), id)
            == Verdict::Delivered,
{
    notify_in_order(m, id, msgs);
    assert(m.queue + msgs =~= msgs);
}

/// Closing the channel while nothing waits ends the consumer's sequence: a
/// receive reports the channel closed, and leaves the relay as it was, so
/// every later receive reports the same.
pub proof fn close_ends_delivery(m: RelayModel)
    requires
        m.queue.len() == 0,
    ensures
        close_model(m).queue.len() == 0,
        !close_model(m).open,
        forall|r: Received| receive_reports(close_model(m), r) ==> r is Closed,
        receive_model(close_model(m)) == close_model(m),
{
}

} // verus!
