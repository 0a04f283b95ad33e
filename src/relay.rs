//! The relay: a registry of devices in front of one bounded delivery channel.
//!
//! Its state is modelled by [`RelayModel`]; each operation is specified by a
//! step function on that model, and the laws below are proved over those steps.
use vstd::prelude::*;
use crate::channel::{accepting, bound, queued, Channel, Received, MAX_CAPACITY};
use crate::registry::{Device, Registry};

verus! {

/// The capacity of the delivery channel of [`Notifier::new`].
pub const DEFAULT_CAPACITY: usize = 10;

/// Why a notification was not delivered.
pub enum NotifyError {
    /// No device is registered under the identifier, which is carried here.
    DeviceNotFound(String),
    /// The channel could not take the message: it is full or closed.
    ChannelUnavailable,
}

/// The abstract state of a relay.
pub struct RelayModel {
    /// The display name registered under each identifier.
    pub devices: Map<Seq<char>, Seq<char>>,
    /// The notifications waiting for the consumer, oldest first.
    pub queue: Seq<Seq<char>>,
    /// The capacity of the channel.
    pub bound: nat,
    /// Whether the channel still takes notifications.
    pub open: bool,
}

/// The outcome of a notification, without the data that an error carries.
pub enum Verdict {
    Delivered,
    DeviceNotFound,
    ChannelUnavailable,
}

pub open spec fn initial_model(capacity: nat) -> RelayModel {
    RelayModel {
        devices: Map::empty(),
        queue: Seq::empty(),
        bound: capacity,
        open: true,
    }
}

pub open spec fn register_model(m: RelayModel, id: Seq<char>, name: Seq<char>) -> RelayModel {
    RelayModel { devices: m.devices.insert(id, name), ..m }
}

pub open spec fn lookup_model(m: RelayModel, id: Seq<char>) -> Option<Seq<char>> {
    if m.devices.contains_key(id) {
        Some(m.devices[id])
    } else {
        None
    }
}

/// An unknown identifier is refused first; a known one is delivered exactly
/// when the channel is open and has room.
pub open spec fn notify_verdict(m: RelayModel, id: Seq<char>) -> Verdict {
    if !m.devices.contains_key(id) {
        Verdict::DeviceNotFound
    } else if m.open && m.queue.len() < m.bound {
        Verdict::Delivered
    } else {
        Verdict::ChannelUnavailable
    }
}

pub open spec fn notify_model(m: RelayModel, id: Seq<char>, msg: Seq<char>) -> RelayModel {
    if notify_verdict(m, id) is Delivered {
        RelayModel { queue: m.queue.push(msg), ..m }
    } else {
        m
    }
}

pub open spec fn verdict_of(r: Result<(), NotifyError>) -> Verdict {
    match r {
        Ok(_) => Verdict::Delivered,
        Err(NotifyError::DeviceNotFound(_)) => Verdict::DeviceNotFound,
        Err(NotifyError::ChannelUnavailable) => Verdict::ChannelUnavailable,
    }
}

pub open spec fn receive_model(m: RelayModel) -> RelayModel {
    if m.queue.len() > 0 {
        RelayModel { queue: m.queue.drop_first(), ..m }
    } else {
        m
    }
}

/// What a receive on a relay in state `m` reports: the oldest notification,
/// or, on an empty queue, whether more may still come.
pub open spec fn receive_reports(m: RelayModel, r: Received) -> bool {
    match r {
        Received::Message(s) => m.queue.len() > 0 && s@ == m.queue[0],
        Received::Empty => m.queue.len() == 0 && m.open,
        Received::Closed => m.queue.len() == 0 && !m.open,
    }
}

pub open spec fn close_model(m: RelayModel) -> RelayModel {
    RelayModel { open: false, ..m }
}

/// Registers devices and relays notifications for them onto a bounded channel,
/// from which one consumer receives them in order.
pub struct Notifier {
    registry: Registry,
    channel: Channel,
}

impl View for Notifier {
    type V = RelayModel;

    closed spec fn view(&self) -> RelayModel {
        RelayModel {
            devices: self.registry@.map_values(|d: Device| d.name@),
            queue: queued(self.channel),
            bound: bound(self.channel),
            open: accepting(self.channel),
        }
    }
}

impl Notifier {
    pub closed spec fn wf(&self) -> bool {
        self.registry.wf()
    }

    /// A relay with no devices and a channel of [`DEFAULT_CAPACITY`].
    pub fn new() -> (r: Notifier)
        ensures
            r.wf(),
            r@ == initial_model(DEFAULT_CAPACITY as nat),
    {
        Notifier::with_capacity(DEFAULT_CAPACITY)
    }

    /// A relay with no devices and a channel that holds `capacity` notifications.
    pub fn with_capacity(capacity: usize) -> (r: Notifier)
        requires
            0 < capacity <= MAX_CAPACITY,
        ensures
            r.wf(),
            r@ == initial_model(capacity as nat),
    {
        let r = Notifier { registry: Registry::new(), channel: Channel::with_capacity(capacity) };
        assert(r@.devices =~= Map::<Seq<char>, Seq<char>>::empty());
        r
    }

    /// Registers `device`, replacing any device registered under its identifier.
    pub fn register(&mut self, device: Device)
        requires
            old(self).wf(),
        ensures
            final(self).wf(),
            final(self)@ == register_model(old(self)@, device.id@, device.name@),
    {
        let ghost id = device.id@;
        let ghost name = device.name@;
        self.registry.register(device);
        assert(self@.devices =~= old(self)@.devices.insert(id, name));
    }

    /// The device registered under `id`, if any.
    pub fn lookup(&self, id: &str) -> (r: Option<&Device>)
        requires
            self.wf(),
        ensures
            match r {
                Some(d) => d.id@ == id@ && lookup_model(self@, id@) == Some(d.name@),
                None => lookup_model(self@, id@) is None,
            },
    {
        self.registry.lookup(id)
    }

    /// Sends `message` to the device registered under `id`: it joins the back
    /// of the channel's queue, or nothing is queued and the error says why.
    /// A full channel is reported at once; the caller is never made to wait.
    pub fn notify(&mut self, id: &str, message: &str) -> (r: Result<(), NotifyError>)
        requires
            old(self).wf(),
        ensures
            final(self).wf(),
            final(self)@ == notify_model(old(self)@, id@, message@),
            verdict_of(r) == notify_verdict(old(self)@, id@),
            r matches Err(NotifyError::DeviceNotFound(s)) ==> s@ == id@,
    {
        match self.registry.lookup(id) {
            None => Err(NotifyError::DeviceNotFound(id.to_owned())),
            Some(_) => match self.channel.try_send(message.to_owned()) {
                Ok(()) => Ok(()),
                Err(_) => Err(NotifyError::ChannelUnavailable),
            },
        }
    }

    /// Takes the oldest notification off the channel, if one is waiting.
    pub fn receive(&mut self) -> (r: Received)
        requires
            old(self).wf(),
        ensures
            final(self).wf(),
            final(self)@ == receive_model(old(self)@),
            receive_reports(old(self)@, r),
    {
        self.channel.try_recv()
    }

    /// Closes the channel: no notification is accepted after this, and those
    /// already queued can still be received.
    pub fn close(&mut self)
        requires
            old(self).wf(),
        ensures
            final(self).wf(),
            final(self)@ == close_model(old(self)@),
    {
        self.channel.close()
    }
}

} // verus!
