use vstd::prelude::*;
use crate::device::{DeviceView, IosDevice};
use crate::error::Error;

verus! {

/// The registry of discovered devices, in order of arrival. Entries are only
/// appended: a notification for a device already listed adds a second entry.
pub struct IosManager {
    devices: Vec<IosDevice>,
}

impl View for IosManager {
    type V = Seq<DeviceView>;

    closed spec fn view(&self) -> Seq<DeviceView> {
        self.devices@.map_values(|d: IosDevice| d@)
    }
}

impl Default for IosManager {
    /// An empty registry.
    fn default() -> (m: IosManager)
        ensures
            m@ == Seq::<DeviceView>::empty(),
    {
        IosManager { devices: Vec::new() }
    }
}

impl IosManager {
    /// An empty registry.
    pub fn new() -> (m: IosManager)
        ensures
            m@ == Seq::<DeviceView>::empty(),
    {
        let m = IosManager { devices: Vec::new() };
        assert(m@ =~= Seq::<DeviceView>::empty());
        m
    }

    /// Records a device that appeared, after every device recorded so far.
    pub fn add_device(&mut self, d: IosDevice)
        ensures
            final(self)@ == old(self)@.push(d@),
    {
        self.devices.push(d);
        assert(self@ =~= old(self)@.push(d@));
    }

    /// Handles a "device appeared" notification, given the outcome of reading
    /// the device's identity: an identified device is appended, with no
    /// deduplication; a failure leaves the registry as it was and is returned.
    pub fn on_device_appeared(&mut self, identity: Result<IosDevice, Error>) -> (r: Result<
        (),
        Error,
    >)
        ensures
            match identity {
                Ok(d) => r is Ok && final(self)@ == old(self)@.push(d@),
                Err(e) => r == Err::<(), Error>(e) && final(self)@ == old(self)@,
            },
    {
        match identity {
            Ok(d) => {
                self.add_device(d);
                Ok(())
            },
            Err(e) => Err(e),
        }
    }

    /// How many devices are recorded.
    pub fn len(&self) -> (n: usize)
        ensures
            n == self@.len(),
    {
        self.devices.len()
    }

    /// A snapshot of the registry: a copy of every recorded device, in order.
    pub fn devices(&self) -> (r: Vec<IosDevice>)
        ensures
            r@.map_values(|d: IosDevice| d@) == self@,
    {
        let mut r: Vec<IosDevice> = Vec::new();
        let mut i: usize = 0;
        while i < self.devices.len()
            invariant
                0 <= i <= self.devices@.len(),
                r@.len() == i,
                forall|j: int| 0 <= j < i ==> #[trigger] r@[j]@ == self.devices@[j]@,
            decreases self.devices@.len() - i,
        {
            r.push(self.devices[i].duplicate());
            i = i + 1;
        }
        assert(r@.map_values(|d: IosDevice| d@) =~= self@);
        r
    }
}

} // verus!
