//! Handles to objects of the hosted runtime and the calls made through their
//! dispatch tables.

use vstd::prelude::*;
use crate::marshal::MarshaledValue;
use crate::status::{check_status, is_success, HostError, Operation};

verus! {

/// The number of entries that every dispatch table starts with: capability
/// query, retain and release.
pub const BASE_SLOTS: usize = 3;

/// The position of the capability query in every dispatch table.
pub const QUERY_SLOT: usize = 0;

/// A 128-bit value that identifies the capability contract of a foreign object.
#[derive(Clone, Copy, Debug, PartialEq, Eq, Structural)]
pub struct InterfaceIdentifier {
    pub value: u128,
}

/// A reference to an object that lives in the hosted runtime. The holder does
/// not own the object and never frees it.
#[derive(Clone, Copy, Debug, PartialEq, Eq, Structural)]
pub struct ForeignObjectHandle {
    pub address: usize,
}

impl ForeignObjectHandle {
    /// The handle that refers to no object.
    pub fn null() -> (h: Self)
        ensures
            h.address == 0,
    {
        ForeignObjectHandle { address: 0 }
    }

    /// Whether the handle refers to no object.
    pub fn is_null(&self) -> (b: bool)
        ensures
            b == (self.address == 0),
    {
        self.address == 0
    }
}

/// A call through a dispatch table: the entry at `slot` of the table of
/// `target` is invoked with `target` as its first argument, then `arguments`.
#[derive(Debug, PartialEq, Eq)]
pub struct CallRequest {
    pub target: ForeignObjectHandle,
    pub slot: usize,
    pub arguments: Vec<MarshaledValue>,
}

/// What a foreign call handed back: its status, the last error that the
/// operating system recorded, and the value written to its output.
#[derive(Debug, PartialEq, Eq)]
pub struct Reply<T> {
    pub status: i32,
    pub os_error: i32,
    pub value: T,
}

/// The failure that a reply with this status stands for.
pub open spec fn spec_failure(operation: Operation, status: i32, os_error: i32) -> HostError {
    HostError::NativeCallFailure { operation, status, os_error }
}

/// The object that a foreign call produced: the handle it wrote if its status
/// is zero, a failure with the status and the operating system's error else.
pub fn object_of_reply(operation: Operation, reply: &Reply<ForeignObjectHandle>) -> (r: Result<
    ForeignObjectHandle,
    HostError,
>)
    ensures
        is_success(reply.status) ==> r == Ok::<ForeignObjectHandle, HostError>(reply.value),
        !is_success(reply.status) ==> r == Err::<ForeignObjectHandle, HostError>(
            spec_failure(operation, reply.status, reply.os_error),
        ),
{
    match check_status(operation, reply.status, reply.os_error) {
        Ok(()) => Ok(reply.value),
        Err(e) => Err(e),
    }
}

/// The call that asks `target` for the capability that `iid` identifies. The
/// identifier travels as its address on the native side.
pub fn query_capability_call(target: ForeignObjectHandle, iid_address: usize) -> (call: CallRequest)
    ensures
        call.target == target,
        call.slot == QUERY_SLOT,
        call.arguments@ == seq![MarshaledValue::NativeHandle(iid_address)],
{
    let mut arguments: Vec<MarshaledValue> = Vec::new();
    arguments.push(MarshaledValue::NativeHandle(iid_address));
    CallRequest { target, slot: QUERY_SLOT, arguments }
}

/// The outcome of a capability query: a new handle, or a failure that says
/// that the capability is not supported.
pub fn query_capability(reply: &Reply<ForeignObjectHandle>) -> (r: Result<
    ForeignObjectHandle,
    HostError,
>)
    ensures
        is_success(reply.status) ==> r == Ok::<ForeignObjectHandle, HostError>(reply.value),
        !is_success(reply.status) ==> r == Err::<ForeignObjectHandle, HostError>(
            spec_failure(Operation::QueryCapability, reply.status, reply.os_error),
        ),
{
    object_of_reply(Operation::QueryCapability, reply)
}

} // verus!
