//! Addresses of service methods and the messages that carry calls to them.

use vstd::prelude::*;
use crate::crypto::PublicKey;

verus! {

/// Identifier of a running service instance.
pub type ServiceInstanceId = u32;

/// Identifier of a method within a service.
pub type MethodId = u16;

/// Addresses a callable entry point of a running service instance.
#[derive(Debug, Clone, Copy, PartialEq, Eq, Structural)]
pub struct CallInfo {
    pub instance_id: u32,
    pub method_id: u16,
}

impl CallInfo {
    /// Address of method `method_id` of instance `instance_id`.
    pub fn new(instance_id: u32, method_id: u16) -> (info: CallInfo)
        ensures
            info.instance_id == instance_id,
            info.method_id == method_id,
    {
        CallInfo { instance_id, method_id }
    }
}

/// A message whose signature was checked against its author's key.
#[derive(Debug, Clone, PartialEq, Eq)]
pub struct Message {
    pub author: PublicKey,
    pub payload: Vec<u8>,
}

} // verus!
