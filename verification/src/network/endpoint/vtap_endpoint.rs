//! The endpoint that stands on a vtap interface of the host.

use crate::device::{DeviceConfig, DeviceManager, DeviceType, Hypervisor, NetworkConfig,
    NetworkConfigView, NetworkDevice};
use crate::network::endpoint::endpoint_persist::{EndpointState, EndpointStateView,
    VtapEndpointState, VtapEndpointStateView};
use crate::network::endpoint::{attached, Endpoint, NetworkInterface};
use crate::network::error::{device_outcome, EndpointError, ErrorKind, Operation};
use crate::network::utils::{format_mac, is_mac_text, lemma_parse_of_format, mac_bytes, mac_text,
    parse_mac};
use vstd::prelude::*;

verus! {

/// Number of descriptors in each queue of an endpoint's device.
pub const DEFAULT_QUEUE_SIZE: usize = 256;

/// An endpoint on a vtap interface of the host.
#[derive(Debug)]
pub struct VtapEndpoint {
    /// Name of the interface, under which its device is plugged.
    name: String,
    /// Hardware address that the guest sees, as text.
    guest_mac: String,
    /// The vtap interface on the host.
    tap_iface: NetworkInterface,
    /// Number of queue pairs of the device.
    queue_num: usize,
    /// Number of descriptors in each queue of the device.
    queue_size: usize,
}

/// What a `VtapEndpoint` holds, as plain values.
pub struct VtapEndpointView {
    pub name: Seq<char>,
    pub guest_mac: Seq<char>,
    pub tap_iface_name: Seq<char>,
    pub tap_iface_hard_addr: Seq<char>,
    pub queue_num: usize,
    pub queue_size: usize,
}

impl View for VtapEndpoint {
    type V = VtapEndpointView;

    closed spec fn view(&self) -> VtapEndpointView {
        VtapEndpointView {
            name: self.name@,
            guest_mac: self.guest_mac@,
            tap_iface_name: self.tap_iface.name@,
            tap_iface_hard_addr: self.tap_iface.hard_addr@,
            queue_num: self.queue_num,
            queue_size: self.queue_size,
        }
    }
}

/// What the endpoint built for the interface `iface_name` with the address
/// `hardware_addr` and `queues` queue pairs holds.
pub open spec fn built(iface_name: Seq<char>, hardware_addr: Seq<u8>, queues: usize)
    -> VtapEndpointView {
    VtapEndpointView {
        name: iface_name,
        guest_mac: mac_text(hardware_addr),
        tap_iface_name: iface_name,
        tap_iface_hard_addr: mac_text(hardware_addr),
        queue_num: queues,
        queue_size: DEFAULT_QUEUE_SIZE,
    }
}

impl VtapEndpoint {
    /// Builds the endpoint for the host interface `iface_name`, whose
    /// hardware address is `hardware_addr`, with `queues` queue pairs.
    ///
    /// Fails with `InvalidAddress` exactly when the address is not six
    /// octets long. Nothing on the host is touched either way.
    pub fn new(
        iface_name: &str,
        hardware_addr: &[u8],
        queues: usize,
    ) -> (r: Result<Self, EndpointError>)
        ensures
            match r {
                Ok(endpoint) => hardware_addr@.len() == 6 && endpoint@ == built(
                    iface_name@,
                    hardware_addr@,
                    queues,
                ),
                Err(e) => hardware_addr@.len() != 6 && e.kind == ErrorKind::InvalidAddress
                    && e.context@ == seq![Operation::GetMacAddr],
            },
    {
        let guest_mac = match format_mac(hardware_addr) {
            Ok(text) => text,
            Err(e) => {
                return Err(e);
            },
        };
        Ok(
            VtapEndpoint {
                name: iface_name.to_owned(),
                guest_mac: guest_mac.clone(),
                tap_iface: NetworkInterface { name: iface_name.to_owned(), hard_addr: guest_mac },
                queue_num: queues,
                queue_size: DEFAULT_QUEUE_SIZE,
            },
        )
    }

    /// The device that the endpoint is to the hypervisor: the interface as
    /// host device, the address read back from its text, and the queues.
    ///
    /// Fails with `ConfigError` exactly when the address that the endpoint
    /// holds is not the text of an address.
    pub fn get_network_config(&self) -> (r: Result<NetworkConfig, EndpointError>)
        ensures
            match r {
                Ok(config) => self.network_config() == Some(config@),
                Err(e) => self.network_config() is None && e.kind == ErrorKind::ConfigError
                    && e.context@ == seq![Operation::ParseMacAddress],
            },
    {
        match parse_mac(self.guest_mac.as_str()) {
            Ok(guest_mac) => Ok(
                NetworkConfig {
                    host_dev_name: self.name.clone(),
                    guest_mac: Some(guest_mac),
                    queue_num: self.queue_num,
                    queue_size: self.queue_size,
                },
            ),
            Err(_) => Err(EndpointError::new(ErrorKind::ConfigError, Operation::ParseMacAddress)),
        }
    }

    /// The host interface that the endpoint stands on.
    pub fn tap_iface(&self) -> (r: &NetworkInterface)
        ensures
            r.name@ == self@.tap_iface_name,
            r.hard_addr@ == self@.tap_iface_hard_addr,
    {
        &self.tap_iface
    }

    /// Number of queue pairs of the endpoint's device.
    pub fn queue_num(&self) -> (r: usize)
        ensures
            r == self@.queue_num,
    {
        self.queue_num
    }

    /// Number of descriptors in each queue of the endpoint's device.
    pub fn queue_size(&self) -> (r: usize)
        ensures
            r == self@.queue_size,
    {
        self.queue_size
    }
}

impl Endpoint for VtapEndpoint {
    open spec fn name_text(&self) -> Seq<char> {
        self@.name
    }

    open spec fn hardware_addr_text(&self) -> Seq<char> {
        self@.guest_mac
    }

    open spec fn network_config(&self) -> Option<NetworkConfigView> {
        if is_mac_text(self@.guest_mac) {
            Some(
                NetworkConfigView {
                    host_dev_name: self@.name,
                    guest_mac: Some(mac_bytes(self@.guest_mac)),
                    queue_num: self@.queue_num,
                    queue_size: self@.queue_size,
                },
            )
        } else {
            None
        }
    }

    open spec fn saved(&self) -> Option<EndpointStateView> {
        Some(
            EndpointStateView {
                vtap_endpoint: Some(VtapEndpointStateView { if_name: self@.name }),
            },
        )
    }

    fn name(&self) -> (r: String) {
        self.name.clone()
    }

    fn hardware_addr(&self) -> (r: String) {
        self.guest_mac.clone()
    }

    fn attach<H: Hypervisor>(
        &self,
        manager: &mut DeviceManager<H>,
    ) -> (r: Result<(), EndpointError>)
        ensures
            self.network_config() is None ==> r->Err_0.context@ == seq![
                Operation::ParseMacAddress,
                Operation::GetNetworkConfig,
            ],
    {
        let config = match self.get_network_config() {
            Ok(config) => config,
            Err(e) => {
                return Err(e.within(Operation::GetNetworkConfig));
            },
        };
        let outcome = manager.handle_device(DeviceConfig::NetworkCfg(config));
        device_outcome(outcome, Operation::HandleDevice)
    }

    fn detach<H: Hypervisor>(
        &self,
        manager: &mut DeviceManager<H>,
    ) -> (r: Result<(), EndpointError>)
        ensures
            self.network_config() is None ==> r->Err_0.context@ == seq![
                Operation::ParseMacAddress,
                Operation::GetNetworkConfig,
            ],
    {
        let config = match self.get_network_config() {
            Ok(config) => config,
            Err(e) => {
                return Err(e.within(Operation::GetNetworkConfig));
            },
        };
        let outcome = manager.remove_device(DeviceType::Network(NetworkDevice { config }));
        device_outcome(outcome, Operation::RemoveDevice)
    }

    fn save(&self) -> (r: Option<EndpointState>) {
        let vtap_endpoint = VtapEndpointState { if_name: self.name.clone() };
        Some(EndpointState { vtap_endpoint: Some(vtap_endpoint) })
    }
}

/// An endpoint as built holds a device configuration, and that configuration
/// carries what the endpoint was built with: the interface's name, the very
/// octets of the address, and the queues.
pub proof fn lemma_built_endpoint_config(
    endpoint: VtapEndpoint,
    iface_name: Seq<char>,
    hardware_addr: Seq<u8>,
    queues: usize,
)
    requires
        hardware_addr.len() == 6,
        endpoint@ == built(iface_name, hardware_addr, queues),
    ensures
        endpoint.name_text() == iface_name,
        endpoint.hardware_addr_text() == mac_text(hardware_addr),
        endpoint.network_config() == Some(
            NetworkConfigView {
                host_dev_name: iface_name,
                guest_mac: Some(hardware_addr),
                queue_num: queues,
                queue_size: DEFAULT_QUEUE_SIZE,
            },
        ),
{
    lemma_parse_of_format(hardware_addr);
}

/// What is saved of an endpoint after it was attached, however that ended,
/// names the interface that the endpoint was built for.
pub proof fn lemma_save_after_attach(
    endpoint: VtapEndpoint,
    iface_name: Seq<char>,
    hardware_addr: Seq<u8>,
    queues: usize,
    pre: Map<Seq<char>, NetworkConfigView>,
    post: Map<Seq<char>, NetworkConfigView>,
    r: Result<(), EndpointError>,
)
    requires
        endpoint@ == built(iface_name, hardware_addr, queues),
        attached(endpoint.network_config(), pre, post, r),
    ensures
        endpoint.saved() == Some(
            EndpointStateView {
                vtap_endpoint: Some(VtapEndpointStateView { if_name: iface_name }),
            },
        ),
{
}

} // verus!
