//! Names shared with collaborators outside the pipeline: lifecycle events
//! sent to listeners, and the FastCGI record types and roles.
use vstd::prelude::*;

verus! {

/// Lifecycle events that the server announces to its listeners.
#[derive(Debug, Clone, Copy, PartialEq, Eq, Structural)]
pub enum PluginEvent {
    ServerStarting,
    ServerReady,
    ServerStopping,
    NewConnection,
    ConnectionClosed,
    RequestReceived,
    ResponseSent,
}

/// FastCGI record types.
#[derive(Debug, Clone, Copy, PartialEq, Eq, Structural)]
pub enum RecordType {
    BeginRequest,
    AbortRequest,
    EndRequest,
    Params,
    Stdin,
    Stdout,
    Stderr,
    Data,
    GetValues,
    GetValuesResult,
    UnknownType,
}

impl RecordType {
    /// The type's number on the wire.
    pub fn code(&self) -> (r: u8)
        ensures
            1 <= r <= 11,
            *self == RecordType::BeginRequest ==> r == 1,
            *self == RecordType::AbortRequest ==> r == 2,
            *self == RecordType::EndRequest ==> r == 3,
            *self == RecordType::Params ==> r == 4,
            *self == RecordType::Stdin ==> r == 5,
            *self == RecordType::Stdout ==> r == 6,
            *self == RecordType::Stderr ==> r == 7,
            *self == RecordType::Data ==> r == 8,
            *self == RecordType::GetValues ==> r == 9,
            *self == RecordType::GetValuesResult ==> r == 10,
            *self == RecordType::UnknownType ==> r == 11,
    {
        match self {
            RecordType::BeginRequest => 1,
            RecordType::AbortRequest => 2,
            RecordType::EndRequest => 3,
            RecordType::Params => 4,
            RecordType::Stdin => 5,
            RecordType::Stdout => 6,
            RecordType::Stderr => 7,
            RecordType::Data => 8,
            RecordType::GetValues => 9,
            RecordType::GetValuesResult => 10,
            RecordType::UnknownType => 11,
        }
    }
}

/// FastCGI roles.
#[derive(Debug, Clone, Copy, PartialEq, Eq, Structural)]
pub enum Role {
    Responder,
    Authorizer,
    Filter,
}

impl Role {
    /// The role's number on the wire.
    pub fn code(&self) -> (r: u16)
        ensures
            *self == Role::Responder ==> r == 1,
            *self == Role::Authorizer ==> r == 2,
            *self == Role::Filter ==> r == 3,
    {
        match self {
            Role::Responder => 1,
            Role::Authorizer => 2,
            Role::Filter => 3,
        }
    }
}

} // verus!
