//! The endpoints of a sandbox: what every kind of endpoint can do, whatever
//! host interface stands behind it.

pub mod endpoint_persist;
pub mod vtap_endpoint;

use crate::device::{added, removed, DeviceFailure, DeviceManager, Hypervisor, HypervisorError,
    NetworkConfigView};
use crate::network::endpoint::endpoint_persist::{EndpointState, EndpointStateView};
use crate::network::error::{EndpointError, ErrorKind, Operation};
use vstd::prelude::*;

verus! {

/// A network interface on the host.
#[derive(Debug, PartialEq, Eq)]
pub struct NetworkInterface {
    /// Name of the interface.
    pub name: String,
    /// Hardware address of the interface, as text.
    pub hard_addr: String,
}

/// The hypervisor's answer that a refusal `failure` goes back to. A refusal
/// by the device manager itself goes back to no answer: the hypervisor was
/// not asked, and whatever it would have said changes nothing.
pub open spec fn answer_behind(failure: DeviceFailure) -> Result<(), HypervisorError> {
    match failure {
        DeviceFailure::Hypervisor(e) => Err(e),
        _ => Ok(()),
    }
}

/// What holds after an endpoint whose device configuration is `config` was
/// attached to a manager with the devices `pre`, leaving `post`.
///
/// An endpoint with no configuration fails with `ConfigError` and touches
/// nothing. Otherwise the outcome is that of adding the device: on success
/// it is plugged as configured, and on a refusal nothing has changed.
pub open spec fn attached(
    config: Option<NetworkConfigView>,
    pre: Map<Seq<char>, NetworkConfigView>,
    post: Map<Seq<char>, NetworkConfigView>,
    r: Result<(), EndpointError>,
) -> bool {
    match config {
        None => {
            &&& post == pre
            &&& r is Err
            &&& r->Err_0.kind == ErrorKind::ConfigError
            &&& r->Err_0.context@.len() > 0
            &&& r->Err_0.context@.last() == Operation::GetNetworkConfig
        },
        Some(c) => match r {
            Ok(()) => (post, Ok::<(), DeviceFailure>(())) == added(pre, c, Ok(())),
            Err(e) => {
                &&& e.context@ == seq![Operation::HandleDevice]
                &&& e.kind is DeviceOperationError
                &&& (post, Err::<(), DeviceFailure>(e.kind->DeviceOperationError_0)) == added(
                    pre,
                    c,
                    answer_behind(e.kind->DeviceOperationError_0),
                )
            },
        },
    }
}

/// What holds after an endpoint whose device configuration is `config` was
/// detached from a manager with the devices `pre`, leaving `post`.
///
/// An endpoint with no configuration fails with `ConfigError` and touches
/// nothing. Otherwise the outcome is that of removing the device: on
/// success it is gone, and on a refusal nothing has changed.
pub open spec fn detached(
    config: Option<NetworkConfigView>,
    pre: Map<Seq<char>, NetworkConfigView>,
    post: Map<Seq<char>, NetworkConfigView>,
    r: Result<(), EndpointError>,
) -> bool {
    match config {
        None => {
            &&& post == pre
            &&& r is Err
            &&& r->Err_0.kind == ErrorKind::ConfigError
            &&& r->Err_0.context@.len() > 0
            &&& r->Err_0.context@.last() == Operation::GetNetworkConfig
        },
        Some(c) => match r {
            Ok(()) => (post, Ok::<(), DeviceFailure>(())) == removed(pre, c.host_dev_name, Ok(())),
            Err(e) => {
                &&& e.context@ == seq![Operation::RemoveDevice]
                &&& e.kind is DeviceOperationError
                &&& (post, Err::<(), DeviceFailure>(e.kind->DeviceOperationError_0)) == removed(
                    pre,
                    c.host_dev_name,
                    answer_behind(e.kind->DeviceOperationError_0),
                )
            },
        },
    }
}

/// What every kind of endpoint can do.
pub trait Endpoint {
    /// The name of the endpoint.
    spec fn name_text(&self) -> Seq<char>;

    /// The hardware address of the endpoint, as text.
    spec fn hardware_addr_text(&self) -> Seq<char>;

    /// The device that the endpoint is to the hypervisor, or `None` where
    /// what the endpoint holds gives no device.
    spec fn network_config(&self) -> Option<NetworkConfigView>;

    /// What is to be saved of the endpoint, or `None` for an endpoint that
    /// needs nothing saved.
    spec fn saved(&self) -> Option<EndpointStateView>;

    /// The name of the endpoint.
    fn name(&self) -> (r: String)
        ensures
            r@ == self.name_text(),
    ;

    /// The hardware address of the endpoint, as text.
    fn hardware_addr(&self) -> (r: String)
        ensures
            r@ == self.hardware_addr_text(),
    ;

    /// Plugs the endpoint's device into the guest.
    fn attach<H: Hypervisor>(
        &self,
        manager: &mut DeviceManager<H>,
    ) -> (r: Result<(), EndpointError>)
        ensures
            attached(self.network_config(), old(manager)@, final(manager)@, r),
    ;

    /// Unplugs the endpoint's device from the guest.
    fn detach<H: Hypervisor>(
        &self,
        manager: &mut DeviceManager<H>,
    ) -> (r: Result<(), EndpointError>)
        ensures
            detached(self.network_config(), old(manager)@, final(manager)@, r),
    ;

    /// What is to be saved of the endpoint.
    fn save(&self) -> (r: Option<EndpointState>)
        ensures
            match r {
                Some(state) => self.saved() == Some(state@),
                None => self.saved() is None,
            },
    ;
}

/// An endpoint that was attached cannot be attached again: the second
/// attempt is refused as a duplicate, and changes nothing.
pub proof fn lemma_second_attach_is_refused<E: Endpoint>(
    endpoint: &E,
    before: Map<Seq<char>, NetworkConfigView>,
    between: Map<Seq<char>, NetworkConfigView>,
    after: Map<Seq<char>, NetworkConfigView>,
    first: Result<(), EndpointError>,
    second: Result<(), EndpointError>,
)
    requires
        attached(endpoint.network_config(), before, between, first),
        first is Ok,
        attached(endpoint.network_config(), between, after, second),
    ensures
        second is Err,
        second->Err_0.kind == ErrorKind::DeviceOperationError(DeviceFailure::DuplicateDevice),
        second->Err_0.context@ == seq![Operation::HandleDevice],
        after == between,
{
}

/// An endpoint whose device is not plugged cannot be detached: the attempt
/// is refused as not found, and changes nothing.
pub proof fn lemma_detach_before_attach_is_refused<E: Endpoint>(
    endpoint: &E,
    pre: Map<Seq<char>, NetworkConfigView>,
    post: Map<Seq<char>, NetworkConfigView>,
    r: Result<(), EndpointError>,
)
    requires
        endpoint.network_config() is Some,
        !pre.contains_key(endpoint.network_config()->0.host_dev_name),
        detached(endpoint.network_config(), pre, post, r),
    ensures
        r is Err,
        r->Err_0.kind == ErrorKind::DeviceOperationError(DeviceFailure::DeviceNotFound),
        r->Err_0.context@ == seq![Operation::RemoveDevice],
        post == pre,
{
}

/// Two endpoints of different names, neither plugged yet, do not stand in
/// each other's way on one manager. The one attached second is never refused
/// as a duplicate: only the hypervisor can fail it. Where both are attached,
/// each is plugged under its own name with its own configuration, and every
/// other device is as it was.
pub proof fn lemma_attach_two_endpoints<A: Endpoint, B: Endpoint>(
    one: &A,
    other: &B,
    before: Map<Seq<char>, NetworkConfigView>,
    between: Map<Seq<char>, NetworkConfigView>,
    after: Map<Seq<char>, NetworkConfigView>,
    first: Result<(), EndpointError>,
    second: Result<(), EndpointError>,
)
    requires
        one.network_config() is Some,
        other.network_config() is Some,
        one.network_config()->0.host_dev_name != other.network_config()->0.host_dev_name,
        !before.contains_key(one.network_config()->0.host_dev_name),
        !before.contains_key(other.network_config()->0.host_dev_name),
        attached(one.network_config(), before, between, first),
        attached(other.network_config(), between, after, second),
    ensures
        first is Err ==> first->Err_0.kind is DeviceOperationError
            && first->Err_0.kind->DeviceOperationError_0 is Hypervisor,
        second is Err ==> second->Err_0.kind is DeviceOperationError
            && second->Err_0.kind->DeviceOperationError_0 is Hypervisor,
        first is Ok && second is Ok ==> {
            let a = one.network_config()->0;
            let b = other.network_config()->0;
            &&& after == before.insert(a.host_dev_name, a).insert(b.host_dev_name, b)
            &&& after.contains_key(a.host_dev_name) && after[a.host_dev_name] == a
            &&& after.contains_key(b.host_dev_name) && after[b.host_dev_name] == b
        },
{
}

/// In which order two endpoints of different names are attached makes no
/// difference to the devices that are plugged in the end.
pub proof fn lemma_attach_order_is_irrelevant<A: Endpoint, B: Endpoint>(
    one: &A,
    other: &B,
    before: Map<Seq<char>, NetworkConfigView>,
)
    requires
        one.network_config() is Some,
        other.network_config() is Some,
        one.network_config()->0.host_dev_name != other.network_config()->0.host_dev_name,
        !before.contains_key(one.network_config()->0.host_dev_name),
        !before.contains_key(other.network_config()->0.host_dev_name),
    ensures
        ({
            let a = one.network_config()->0;
            let b = other.network_config()->0;
            let one_first = added(added(before, a, Ok(())).0, b, Ok(()));
            let other_first = added(added(before, b, Ok(())).0, a, Ok(()));
            &&& added(before, a, Ok(())).1 is Ok
            &&& added(before, b, Ok(())).1 is Ok
            &&& one_first.1 is Ok
            &&& other_first.1 is Ok
            &&& one_first.0 == other_first.0
        }),
{
    let a = one.network_config()->0;
    let b = other.network_config()->0;
    assert(before.insert(a.host_dev_name, a).insert(b.host_dev_name, b) =~= before.insert(
        b.host_dev_name,
        b,
    ).insert(a.host_dev_name, a));
}

} // verus!
