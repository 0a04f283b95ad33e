//! The device registry: identifiers resolved to device metadata, the last
//! registration of an identifier winning.
use vstd::prelude::*;
use vstd::hash_map::StringHashMap;

verus! {

/// An addressable endpoint: a unique identifier and a display name.
pub struct Device {
    pub id: String,
    pub name: String,
}

impl Device {
    pub fn new(id: &str, name: &str) -> (r: Device)
        ensures
            r.id@ == id@,
            r.name@ == name@,
    {
        Device { id: id.to_owned(), name: name.to_owned() }
    }
}

/// Devices keyed by their identifier.
pub struct Registry {
    devices: StringHashMap<Device>,
}

impl View for Registry {
    type V = Map<Seq<char>, Device>;

    closed spec fn view(&self) -> Map<Seq<char>, Device> {
        self.devices@
    }
}

impl Registry {
    /// Every stored device sits under its own identifier.
    pub open spec fn wf(&self) -> bool {
        forall|k: Seq<char>| #[trigger] self@.contains_key(k) ==> self@[k].id@ == k
    }

    pub fn new() -> (r: Registry)
        ensures
            r@ == Map::<Seq<char>, Device>::empty(),
            r.wf(),
    {
        Registry { devices: StringHashMap::new() }
    }

    /// Inserts `device` under its identifier, replacing any device that was
    /// registered under the same identifier before.
    pub fn register(&mut self, device: Device)
        requires
            old(self).wf(),
        ensures
            final(self)@ == old(self)@.insert(device.id@, device),
            final(self).wf(),
    {
        let key = device.id.as_str().to_owned();
        self.devices.insert(key, device);
        assert forall|k: Seq<char>| #[trigger] self@.contains_key(k) implies self@[k].id@ == k by {
            if k != device.id@ {
                assert(old(self)@.contains_key(k));
            }
        }
    }

    /// The device registered under `id`, if any.
    pub fn lookup(&self, id: &str) -> (r: Option<&Device>)
        ensures
            match r {
                Some(d) => self@.contains_key(id@) && *d == self@[id@],
                None => !self@.contains_key(id@),
            },
    {
        self.devices.get(id)
    }

    pub fn len(&self) -> (r: usize)
        ensures
            r == self@.len(),
    {
        self.devices.len()
    }
}

} // verus!
