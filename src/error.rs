//! The error taxonomy of the workflows.

use vstd::prelude::*;
use vstd::string::*;
use crate::server_status::ServerManagerError;
use crate::text::join2;

verus! {

/// Why a workflow step failed.
#[derive(Debug, Clone, PartialEq, Eq)]
pub enum PSMError {
    /// The slot store refused the operation (unknown slot, wrong status,
    /// inconsistent record).
    ServerManagerError(ServerManagerError),
    /// The slot's instance class names no known class.
    InvalidInstanceType,
    /// No price query of the candidate grid succeeded.
    NoAvailableInstance,
    /// A cloud-provider call failed; the provider's message.
    CSPClientError(String),
    /// A remote script run failed (connection, authentication, command).
    RemoteExecution(String),
    /// A file transfer failed.
    Transfer(String),
    /// The instance did not report a running state with an address in time.
    Timeout,
    /// The instance reports running but has no public address.
    NoPublicAddress,
    /// The running slot has no recorded address.
    NoServerIp,
    /// The slot records a region this library does not know.
    UnknownRegion,
    /// An event arrived that does not answer the action asked for.
    UnexpectedEvent,
}

impl PSMError {
    pub open spec fn spec_message(self) -> Seq<char> {
        match self {
            PSMError::ServerManagerError(e) => "Server Manager error: "@ + e.spec_message(),
            PSMError::InvalidInstanceType => "not a valid instance type"@,
            PSMError::NoAvailableInstance => "failed to get any available instance"@,
            PSMError::CSPClientError(m) => "CSP client error: "@ + m@,
            PSMError::RemoteExecution(m) => "remote execution error: "@ + m@,
            PSMError::Transfer(m) => "transfer error: "@ + m@,
            PSMError::Timeout => "query cvm create status and ip timeout"@,
            PSMError::NoPublicAddress => "running cvm without ip"@,
            PSMError::NoServerIp => "failed to get server ip information"@,
            PSMError::UnknownRegion => "unknown region"@,
            PSMError::UnexpectedEvent => "unexpected event"@,
        }
    }

    /// A message for the operator.
    pub fn message(&self) -> (r: String)
        ensures
            r@ == self.spec_message(),
    {
        match self {
            PSMError::ServerManagerError(e) => {
                let m = e.message();
                join2("Server Manager error: ", m.as_str())
            },
            PSMError::InvalidInstanceType => String::from_str("not a valid instance type"),
            PSMError::NoAvailableInstance => String::from_str(
                "failed to get any available instance",
            ),
            PSMError::CSPClientError(m) => join2("CSP client error: ", m.as_str()),
            PSMError::RemoteExecution(m) => join2("remote execution error: ", m.as_str()),
            PSMError::Transfer(m) => join2("transfer error: ", m.as_str()),
            PSMError::Timeout => String::from_str("query cvm create status and ip timeout"),
            PSMError::NoPublicAddress => String::from_str("running cvm without ip"),
            PSMError::NoServerIp => String::from_str("failed to get server ip information"),
            PSMError::UnknownRegion => String::from_str("unknown region"),
            PSMError::UnexpectedEvent => String::from_str("unexpected event"),
        }
    }
}

} // verus!
