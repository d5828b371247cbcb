//! Devices as the hypervisor sees them, and the manager that plugs them.

use vstd::prelude::*;

verus! {

/// A hardware address in binary form.
#[derive(Clone, Copy, Debug, PartialEq, Eq)]
pub struct Address(pub [u8; 6]);

impl View for Address {
    type V = Seq<u8>;

    open spec fn view(&self) -> Seq<u8> {
        self.0@
    }
}

/// Why the hypervisor did not carry out a request.
#[derive(Clone, Copy, Debug, PartialEq, Eq, Structural)]
pub enum HypervisorError {
    /// The hypervisor is not ready to plug devices.
    NotReady,
    /// The guest has no room for another device.
    ResourceExhausted,
    /// The request was turned down or failed under way.
    Rejected,
}

/// Why a device was not added or removed.
#[derive(Clone, Copy, Debug, PartialEq, Eq, Structural)]
pub enum DeviceFailure {
    /// A device of that host name is plugged already.
    DuplicateDevice,
    /// No device of that host name is plugged.
    DeviceNotFound,
    /// The hypervisor failed the request.
    Hypervisor(HypervisorError),
}

/// A network device as any hypervisor understands it: the host device
/// behind it, the address that the guest sees, and the size of its queues.
#[derive(Debug, PartialEq, Eq)]
pub struct NetworkConfig {
    /// Name of the host device that backs the guest's interface.
    pub host_dev_name: String,
    /// Hardware address of the interface inside the guest.
    pub guest_mac: Option<Address>,
    /// Number of queue pairs.
    pub queue_num: usize,
    /// Number of descriptors in each queue.
    pub queue_size: usize,
}

/// What a `NetworkConfig` holds, as plain values.
pub struct NetworkConfigView {
    pub host_dev_name: Seq<char>,
    pub guest_mac: Option<Seq<u8>>,
    pub queue_num: usize,
    pub queue_size: usize,
}

impl View for NetworkConfig {
    type V = NetworkConfigView;

    open spec fn view(&self) -> NetworkConfigView {
        NetworkConfigView {
            host_dev_name: self.host_dev_name@,
            guest_mac: match self.guest_mac {
                Some(address) => Some(address@),
                None => None,
            },
            queue_num: self.queue_num,
            queue_size: self.queue_size,
        }
    }
}

impl Clone for NetworkConfig {
    fn clone(&self) -> (r: Self)
        ensures
            r@ == self@,
    {
        NetworkConfig {
            host_dev_name: self.host_dev_name.clone(),
            guest_mac: self.guest_mac,
            queue_num: self.queue_num,
            queue_size: self.queue_size,
        }
    }
}

/// A request to add a device.
#[derive(Debug, PartialEq, Eq)]
pub enum DeviceConfig {
    /// A network device.
    NetworkCfg(NetworkConfig),
}

/// A network device of the guest.
#[derive(Debug, PartialEq, Eq)]
pub struct NetworkDevice {
    /// How the device is set up.
    pub config: NetworkConfig,
}

/// A device of the guest, by kind.
#[derive(Debug, PartialEq, Eq)]
pub enum DeviceType {
    /// A network device.
    Network(NetworkDevice),
}

impl DeviceConfig {
    /// The network configuration that the request carries.
    pub open spec fn network(&self) -> NetworkConfigView {
        match self {
            DeviceConfig::NetworkCfg(config) => config@,
        }
    }
}

impl DeviceType {
    /// The network configuration of the device.
    pub open spec fn network(&self) -> NetworkConfigView {
        match self {
            DeviceType::Network(device) => device.config@,
        }
    }
}

/// What carries out the plugging on the guest's side.
///
/// Nothing is promised of an implementation: whatever it answers, the device
/// manager accounts for.
pub trait Hypervisor {
    /// Plugs `device` into the running guest.
    fn add_device(&mut self, device: &DeviceType) -> Result<(), HypervisorError>;

    /// Unplugs `device` from the running guest.
    fn remove_device(&mut self, device: &DeviceType) -> Result<(), HypervisorError>;
}

/// The devices that a sequence of configurations amounts to: each host
/// device name with the configuration that was plugged under it.
spec fn registry_of(devices: Seq<NetworkConfig>) -> Map<Seq<char>, NetworkConfigView>
    decreases devices.len(),
{
    if devices.len() == 0 {
        Map::empty()
    } else {
        registry_of(devices.drop_last()).insert(
            devices.last().host_dev_name@,
            devices.last()@,
        )
    }
}

/// Whether no two of the configurations share a host device name.
spec fn distinct_names(devices: Seq<NetworkConfig>) -> bool {
    forall|i: int, j: int|
        0 <= i < j < devices.len() ==> devices[i].host_dev_name@ != devices[j].host_dev_name@
}

/// A name is registered exactly when one of the configurations bears it.
proof fn lemma_registry_keys(devices: Seq<NetworkConfig>, name: Seq<char>)
    ensures
        registry_of(devices).contains_key(name) <==> exists|i: int|
            0 <= i < devices.len() && #[trigger] devices[i].host_dev_name@ == name,
    decreases devices.len(),
{
    if devices.len() > 0 {
        let rest = devices.drop_last();
        lemma_registry_keys(rest, name);
        if registry_of(devices).contains_key(name) {
            if devices.last().host_dev_name@ == name {
                assert(devices[devices.len() - 1].host_dev_name@ == name);
            } else {
                let i = choose|i: int|
                    0 <= i < rest.len() && #[trigger] rest[i].host_dev_name@ == name;
                assert(devices[i].host_dev_name@ == name);
            }
        }
        if exists|i: int| 0 <= i < devices.len() && #[trigger] devices[i].host_dev_name@ == name {
            let i = choose|i: int|
                0 <= i < devices.len() && #[trigger] devices[i].host_dev_name@ == name;
            if i < rest.len() {
                assert(rest[i].host_dev_name@ == name);
            }
        }
    }
}

/// Where names are distinct, each name is registered with the configuration
/// that bears it.
proof fn lemma_registry_value(devices: Seq<NetworkConfig>, i: int)
    requires
        distinct_names(devices),
        0 <= i < devices.len(),
    ensures
        registry_of(devices).contains_key(devices[i].host_dev_name@),
        registry_of(devices)[devices[i].host_dev_name@] == devices[i]@,
    decreases devices.len(),
{
    let rest = devices.drop_last();
    if i < devices.len() - 1 {
        assert(rest[i] == devices[i]);
        lemma_registry_value(rest, i);
    }
}

/// Where names are distinct, taking a configuration out of the sequence
/// takes its name out of the registry and leaves the rest as it was.
proof fn lemma_registry_remove(devices: Seq<NetworkConfig>, i: int)
    requires
        distinct_names(devices),
        0 <= i < devices.len(),
    ensures
        distinct_names(devices.remove(i)),
        registry_of(devices.remove(i)) =~= registry_of(devices).remove(devices[i].host_dev_name@),
    decreases devices.len(),
{
    let rest = devices.drop_last();
    let name = devices[i].host_dev_name@;
    if i == devices.len() - 1 {
        assert(devices.remove(i) =~= rest);
        lemma_registry_keys(rest, name);
    } else {
        assert(rest[i] == devices[i]);
        lemma_registry_remove(rest, i);
        assert(devices.remove(i).drop_last() =~= rest.remove(i));
        assert(devices.remove(i).last() == devices.last());
    }
}

/// The devices that are plugged into one guest, by host device name.
pub struct DeviceRegistry {
    devices: Vec<NetworkConfig>,
}

/// What becomes of the devices `pre`, and what the caller is told, when the
/// device `config` was to be added and the hypervisor answered `outcome`. A
/// name that is plugged already is refused whatever the hypervisor says.
pub open spec fn added(
    pre: Map<Seq<char>, NetworkConfigView>,
    config: NetworkConfigView,
    outcome: Result<(), HypervisorError>,
) -> (Map<Seq<char>, NetworkConfigView>, Result<(), DeviceFailure>) {
    if pre.contains_key(config.host_dev_name) {
        (pre, Err(DeviceFailure::DuplicateDevice))
    } else {
        match outcome {
            Ok(()) => (pre.insert(config.host_dev_name, config), Ok(())),
            Err(e) => (pre, Err(DeviceFailure::Hypervisor(e))),
        }
    }
}

/// What becomes of the devices `pre`, and what the caller is told, when the
/// device named `name` was to be removed and the hypervisor answered
/// `outcome`. A name that is not plugged is refused whatever the hypervisor
/// says.
pub open spec fn removed(
    pre: Map<Seq<char>, NetworkConfigView>,
    name: Seq<char>,
    outcome: Result<(), HypervisorError>,
) -> (Map<Seq<char>, NetworkConfigView>, Result<(), DeviceFailure>) {
    if !pre.contains_key(name) {
        (pre, Err(DeviceFailure::DeviceNotFound))
    } else {
        match outcome {
            Ok(()) => (pre.remove(name), Ok(())),
            Err(e) => (pre, Err(DeviceFailure::Hypervisor(e))),
        }
    }
}

impl DeviceRegistry {
    #[verifier::type_invariant]
    spec fn names_are_distinct(&self) -> bool {
        distinct_names(self.devices@)
    }

    /// The devices that are plugged: each host device name with its
    /// configuration.
    pub closed spec fn view(&self) -> Map<Seq<char>, NetworkConfigView> {
        registry_of(self.devices@)
    }

    /// A registry with no device plugged.
    pub fn new() -> (r: Self)
        ensures
            r@ == Map::<Seq<char>, NetworkConfigView>::empty(),
    {
        DeviceRegistry { devices: Vec::new() }
    }

    /// Where the device of the given host name stands among those plugged.
    fn position(&self, name: &String) -> (r: Option<usize>)
        ensures
            match r {
                Some(i) => i < self.devices@.len() && self.devices@[i as int].host_dev_name@
                    == name@,
                None => forall|i: int|
                    0 <= i < self.devices@.len() ==> #[trigger] self.devices@[i].host_dev_name@
                        != name@,
            },
    {
        let mut i: usize = 0;
        while i < self.devices.len()
            invariant
                i <= self.devices@.len(),
                forall|j: int| 0 <= j < i ==> #[trigger] self.devices@[j].host_dev_name@ != name@,
            decreases self.devices@.len() - i,
        {
            if self.devices[i].host_dev_name == *name {
                return Some(i);
            }
            i += 1;
        }
        None
    }

    /// Whether a device is plugged under `host_dev_name`.
    pub fn contains(&self, host_dev_name: &str) -> (r: bool)
        ensures
            r == self@.contains_key(host_dev_name@),
    {
        let name = host_dev_name.to_owned();
        proof {
            use_type_invariant(self);
            lemma_registry_keys(self.devices@, name@);
        }
        self.position(&name).is_some()
    }

    /// The configuration of the device plugged under `host_dev_name`.
    pub fn find_device(&self, host_dev_name: &str) -> (r: Option<NetworkConfig>)
        ensures
            match r {
                Some(config) => self@.contains_key(host_dev_name@) && config@
                    == self@[host_dev_name@],
                None => !self@.contains_key(host_dev_name@),
            },
    {
        let name = host_dev_name.to_owned();
        proof {
            use_type_invariant(self);
            lemma_registry_keys(self.devices@, name@);
        }
        match self.position(&name) {
            Some(i) => {
                proof {
                    lemma_registry_value(self.devices@, i as int);
                }
                Some(self.devices[i].clone())
            },
            None => None,
        }
    }

    /// Accounts for the hypervisor's answer to a request to add `device`.
    pub fn record_added(
        &mut self,
        device: DeviceType,
        outcome: Result<(), HypervisorError>,
    ) -> (r: Result<(), DeviceFailure>)
        ensures
            (final(self)@, r) == added(old(self)@, device.network(), outcome),
    {
        let DeviceType::Network(NetworkDevice { config }) = device;
        proof {
            use_type_invariant(&*self);
            lemma_registry_keys(self.devices@, config.host_dev_name@);
        }
        if self.position(&config.host_dev_name).is_some() {
            return Err(DeviceFailure::DuplicateDevice);
        }
        match outcome {
            Ok(()) => {
                let mut devices: Vec<NetworkConfig> = Vec::new();
                core::mem::swap(&mut self.devices, &mut devices);
                proof {
                    assert(devices@.push(config).drop_last() =~= devices@);
                }
                devices.push(config);
                core::mem::swap(&mut self.devices, &mut devices);
                Ok(())
            },
            Err(e) => Err(DeviceFailure::Hypervisor(e)),
        }
    }

    /// Accounts for the hypervisor's answer to a request to remove `device`.
    pub fn record_removed(
        &mut self,
        device: &DeviceType,
        outcome: Result<(), HypervisorError>,
    ) -> (r: Result<(), DeviceFailure>)
        ensures
            (final(self)@, r) == removed(old(self)@, device.network().host_dev_name, outcome),
    {
        let DeviceType::Network(NetworkDevice { config }) = device;
        proof {
            use_type_invariant(&*self);
            lemma_registry_keys(self.devices@, config.host_dev_name@);
        }
        match self.position(&config.host_dev_name) {
            None => Err(DeviceFailure::DeviceNotFound),
            Some(i) => match outcome {
                Ok(()) => {
                    let mut devices: Vec<NetworkConfig> = Vec::new();
                    core::mem::swap(&mut self.devices, &mut devices);
                    proof {
                        lemma_registry_remove(devices@, i as int);
                    }
                    devices.remove(i);
                    core::mem::swap(&mut self.devices, &mut devices);
                    Ok(())
                },
                Err(e) => Err(DeviceFailure::Hypervisor(e)),
            },
        }
    }
}

/// The devices that are plugged into one guest, and the hypervisor that
/// plugs them. Every endpoint of a sandbox works on the same manager, one at
/// a time.
pub struct DeviceManager<H: Hypervisor> {
    hypervisor: H,
    registry: DeviceRegistry,
}

impl<H: Hypervisor> DeviceManager<H> {
    /// The devices that are plugged: each host device name with its
    /// configuration.
    pub closed spec fn view(&self) -> Map<Seq<char>, NetworkConfigView> {
        self.registry@
    }

    /// A manager with no device plugged, on the given hypervisor.
    pub fn new(hypervisor: H) -> (r: Self)
        ensures
            r@ == Map::<Seq<char>, NetworkConfigView>::empty(),
    {
        DeviceManager { hypervisor, registry: DeviceRegistry::new() }
    }

    /// The hypervisor that the manager plugs devices on.
    pub closed spec fn backend(&self) -> H {
        self.hypervisor
    }

    /// The hypervisor that the manager plugs devices on.
    pub fn hypervisor(&self) -> (r: &H)
        ensures
            *r == self.backend(),
    {
        &self.hypervisor
    }

    /// The configuration of the device plugged under `host_dev_name`.
    pub fn find_device(&self, host_dev_name: &str) -> (r: Option<NetworkConfig>)
        ensures
            match r {
                Some(config) => self@.contains_key(host_dev_name@) && config@
                    == self@[host_dev_name@],
                None => !self@.contains_key(host_dev_name@),
            },
    {
        self.registry.find_device(host_dev_name)
    }

    /// Adds a device to the guest.
    ///
    /// A host device name that is plugged already is refused as a duplicate,
    /// and the hypervisor is not asked. Otherwise the hypervisor is asked to
    /// plug the device, and the device counts as plugged exactly when it
    /// agrees.
    pub fn handle_device(&mut self, config: DeviceConfig) -> (r: Result<(), DeviceFailure>)
        ensures
            (final(self)@, r) == added(
                old(self)@,
                config.network(),
                match r {
                    Err(DeviceFailure::Hypervisor(e)) => Err(e),
                    _ => Ok(()),
                },
            ),
    {
        let DeviceConfig::NetworkCfg(network) = config;
        if self.registry.contains(network.host_dev_name.as_str()) {
            return Err(DeviceFailure::DuplicateDevice);
        }
        let device = DeviceType::Network(NetworkDevice { config: network });
        let outcome = self.hypervisor.add_device(&device);
        self.registry.record_added(device, outcome)
    }

    /// Removes a device from the guest.
    ///
    /// A host device name that is not plugged is refused as not found, and
    /// the hypervisor is not asked. Otherwise the hypervisor is asked to
    /// unplug the device, and the device counts as gone exactly when it
    /// agrees.
    pub fn remove_device(&mut self, device: DeviceType) -> (r: Result<(), DeviceFailure>)
        ensures
            (final(self)@, r) == removed(
                old(self)@,
                device.network().host_dev_name,
                match r {
                    Err(DeviceFailure::Hypervisor(e)) => Err(e),
                    _ => Ok(()),
                },
            ),
    {
        let found = match &device {
            DeviceType::Network(network) => self.registry.contains(
                network.config.host_dev_name.as_str(),
            ),
        };
        if !found {
            return Err(DeviceFailure::DeviceNotFound);
        }
        let outcome = self.hypervisor.remove_device(&device);
        self.registry.record_removed(&device, outcome)
    }
}

} // verus!
