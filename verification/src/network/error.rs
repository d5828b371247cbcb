//! Failures of the endpoint operations, and the operations they name.

use crate::device::DeviceFailure;
use vstd::prelude::*;

verus! {

/// An operation that was being attempted when a failure came up.
#[derive(Clone, Copy, Debug, PartialEq, Eq, Structural)]
pub enum Operation {
    /// Writing a binary hardware address as text.
    GetMacAddr,
    /// Reading a hardware address from text.
    ParseMacAddress,
    /// Building the device configuration of an endpoint.
    GetNetworkConfig,
    /// Asking the device manager to add a device.
    HandleDevice,
    /// Asking for a device to be removed.
    RemoveDevice,
}

/// What went wrong.
#[derive(Clone, Copy, Debug, PartialEq, Eq, Structural)]
pub enum ErrorKind {
    /// A hardware address that is malformed as text, or of the wrong length
    /// as bytes. The input is at fault; trying again cannot help.
    InvalidAddress,
    /// A host-side resource could not be created or opened while an endpoint
    /// was built.
    ConstructionError,
    /// What an endpoint holds cannot be turned into a device configuration.
    ConfigError,
    /// The device manager or the hypervisor refused to add or remove a device.
    DeviceOperationError(DeviceFailure),
}

/// A failure, with the operations that were under way when it came up.
#[derive(Debug, PartialEq, Eq)]
pub struct EndpointError {
    /// What went wrong.
    pub kind: ErrorKind,
    /// The operations under way, the innermost first.
    pub context: Vec<Operation>,
}

impl Operation {
    /// The words that name the operation.
    pub open spec fn label_text(self) -> Seq<char> {
        match self {
            Operation::GetMacAddr => "get mac addr"@,
            Operation::ParseMacAddress => "parse mac address"@,
            Operation::GetNetworkConfig => "get network config"@,
            Operation::HandleDevice => "handle device"@,
            Operation::RemoveDevice => "remove device"@,
        }
    }

    /// The words that name the operation, for a message.
    pub fn label(&self) -> (r: &'static str)
        ensures
            r@ == self.label_text(),
    {
        match self {
            Operation::GetMacAddr => "get mac addr",
            Operation::ParseMacAddress => "parse mac address",
            Operation::GetNetworkConfig => "get network config",
            Operation::HandleDevice => "handle device",
            Operation::RemoveDevice => "remove device",
        }
    }
}

impl Clone for EndpointError {
    fn clone(&self) -> (r: Self)
        ensures
            r.kind == self.kind,
            r.context@ == self.context@,
    {
        let mut context: Vec<Operation> = Vec::new();
        let mut i: usize = 0;
        while i < self.context.len()
            invariant
                i <= self.context@.len(),
                context@ == self.context@.subrange(0, i as int),
            decreases self.context@.len() - i,
        {
            context.push(self.context[i]);
            assert(self.context@.subrange(0, i + 1) =~= self.context@.subrange(0, i as int).push(
                self.context@[i as int],
            ));
            i += 1;
        }
        assert(self.context@.subrange(0, i as int) =~= self.context@);
        EndpointError { kind: self.kind, context }
    }
}

impl EndpointError {
    /// A failure of the given kind, raised by `operation`.
    pub fn new(kind: ErrorKind, operation: Operation) -> (r: Self)
        ensures
            r.kind == kind,
            r.context@ == seq![operation],
    {
        let mut context: Vec<Operation> = Vec::new();
        context.push(operation);
        EndpointError { kind, context }
    }

    /// The same failure, seen from the enclosing `operation`.
    pub fn within(self, operation: Operation) -> (r: Self)
        ensures
            r.kind == self.kind,
            r.context@ == self.context@.push(operation),
    {
        let mut context = self.context;
        context.push(operation);
        EndpointError { kind: self.kind, context }
    }

    /// The operation that raised the failure, if any is recorded.
    pub fn origin(&self) -> (r: Option<Operation>)
        ensures
            r == if self.context@.len() == 0 {
                None
            } else {
                Some(self.context@[0])
            },
    {
        if self.context.len() == 0 {
            None
        } else {
            Some(self.context[0])
        }
    }
}

/// What the caller of `operation` is told once the device manager has
/// answered: success as it is, a refusal as a `DeviceOperationError` that
/// names the operation.
pub fn device_outcome(
    outcome: Result<(), DeviceFailure>,
    operation: Operation,
) -> (r: Result<(), EndpointError>)
    ensures
        match outcome {
            Ok(()) => r is Ok,
            Err(failure) => r is Err && r->Err_0.kind == ErrorKind::DeviceOperationError(failure)
                && r->Err_0.context@ == seq![operation],
        },
{
    match outcome {
        Ok(()) => Ok(()),
        Err(failure) => Err(
            EndpointError::new(ErrorKind::DeviceOperationError(failure), operation),
        ),
    }
}

} // verus!
