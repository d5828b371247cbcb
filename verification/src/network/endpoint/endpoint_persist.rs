//! What is saved of an endpoint, to rebuild it after a restart.
//!
//! Only what cannot be found again on the host is kept: queue sizes and the
//! device manager are not.

use vstd::prelude::*;

verus! {

/// What is saved of a vtap endpoint.
#[derive(Debug, PartialEq, Eq)]
pub struct VtapEndpointState {
    /// Name of the interface.
    pub if_name: String,
}

/// What is saved of an endpoint: one arm for each kind of endpoint, of which
/// the one that the endpoint is of is filled.
#[derive(Debug, PartialEq, Eq)]
pub struct EndpointState {
    /// Filled for a vtap endpoint.
    pub vtap_endpoint: Option<VtapEndpointState>,
}

/// What a `VtapEndpointState` holds, as plain values.
pub struct VtapEndpointStateView {
    pub if_name: Seq<char>,
}

/// What an `EndpointState` holds, as plain values.
pub struct EndpointStateView {
    pub vtap_endpoint: Option<VtapEndpointStateView>,
}

impl View for VtapEndpointState {
    type V = VtapEndpointStateView;

    open spec fn view(&self) -> VtapEndpointStateView {
        VtapEndpointStateView { if_name: self.if_name@ }
    }
}

impl View for EndpointState {
    type V = EndpointStateView;

    open spec fn view(&self) -> EndpointStateView {
        EndpointStateView {
            vtap_endpoint: match self.vtap_endpoint {
                Some(state) => Some(state@),
                None => None,
            },
        }
    }
}

impl Clone for VtapEndpointState {
    fn clone(&self) -> (r: Self)
        ensures
            r@ == self@,
    {
        VtapEndpointState { if_name: self.if_name.clone() }
    }
}

impl Clone for EndpointState {
    fn clone(&self) -> (r: Self)
        ensures
            r@ == self@,
    {
        EndpointState {
            vtap_endpoint: match &self.vtap_endpoint {
                Some(state) => Some(state.clone()),
                None => None,
            },
        }
    }
}

impl Default for EndpointState {
    /// The state with no arm filled: nothing to rebuild.
    fn default() -> (r: Self)
        ensures
            r@.vtap_endpoint is None,
    {
        EndpointState { vtap_endpoint: None }
    }
}

impl EndpointState {
    /// Whether an arm is filled. A state with none stands for an endpoint
    /// that needs nothing saved.
    pub fn is_populated(&self) -> (r: bool)
        ensures
            r == self@.vtap_endpoint is Some,
    {
        self.vtap_endpoint.is_some()
    }
}

} // verus!
