//! The execution domain of the hosted runtime.

use vstd::prelude::*;
use crate::assembly::Assembly;
use crate::dispatch::{
    object_of_reply, spec_failure, CallRequest, ForeignObjectHandle, InterfaceIdentifier, Reply,
    BASE_SLOTS,
};
use crate::marshal::{MarshaledArray, MarshaledValue};
use crate::status::{is_success, HostError, Operation};
use crate::utf16::{encode, encode_utf16};

verus! {

/// The positions of the entries of a domain's dispatch table that are called.
/// Every other entry of the table is reserved.
#[derive(Clone, Copy, Debug, PartialEq, Eq, Structural)]
pub struct AppDomainVtbl {
    pub to_string: usize,
    pub get_hash_code: usize,
    pub load_2: usize,
    pub load_3: usize,
    pub slots: usize,
}

impl AppDomainVtbl {
    /// The layout of the table.
    pub open spec fn spec_layout() -> Self {
        AppDomainVtbl { to_string: 7, get_hash_code: 9, load_2: 44, load_3: 45, slots: 68 }
    }

    /// The layout of the table.
    pub fn layout() -> (table: Self)
        ensures
            table == Self::spec_layout(),
            table.wf(),
    {
        AppDomainVtbl { to_string: 7, get_hash_code: 9, load_2: 44, load_3: 45, slots: 68 }
    }

    /// Every entry lies behind the base entries and inside the table, and the
    /// entries follow each other in the order of their names here.
    pub open spec fn wf(&self) -> bool {
        BASE_SLOTS <= self.to_string < self.get_hash_code < self.load_2 < self.load_3 < self.slots
    }
}

/// A handle to an execution domain.
#[derive(Clone, Copy, Debug, PartialEq, Eq, Structural)]
pub struct AppDomain {
    pub handle: ForeignObjectHandle,
}

impl AppDomain {
    /// The value of the identifier of the domain's capability contract.
    pub const IID: u128 = 0x05F696DC_2B29_3663_AD8B_C4389CF2A713;

    /// The identifier of the domain's capability contract.
    pub fn iid() -> (id: InterfaceIdentifier)
        ensures
            id.value == Self::IID,
    {
        InterfaceIdentifier { value: Self::IID }
    }

    /// The call that loads a payload from an array of bytes.
    pub fn load_assembly_call(&self, safe_array: MarshaledArray) -> (call: CallRequest)
        ensures
            call.target == self.handle,
            call.slot == AppDomainVtbl::spec_layout().load_3,
            call.arguments@ == seq![MarshaledValue::Array(safe_array)],
    {
        let mut arguments: Vec<MarshaledValue> = Vec::new();
        arguments.push(MarshaledValue::Array(safe_array));
        CallRequest { target: self.handle, slot: AppDomainVtbl::layout().load_3, arguments }
    }

    /// The module that was loaded: the handle that the call wrote if its
    /// status is zero, a failure else.
    pub fn load_assembly(&self, reply: &Reply<ForeignObjectHandle>) -> (r: Result<
        Assembly,
        HostError,
    >)
        ensures
            is_success(reply.status) ==> r == Ok::<Assembly, HostError>(
                Assembly { handle: reply.value },
            ),
            !is_success(reply.status) ==> r == Err::<Assembly, HostError>(
                spec_failure(Operation::LoadAssembly, reply.status, reply.os_error),
            ),
    {
        match object_of_reply(Operation::LoadAssembly, reply) {
            Ok(handle) => Ok(Assembly { handle }),
            Err(e) => Err(e),
        }
    }

    /// The call that loads a module by its name, which travels as a wide string.
    pub fn load_library_call(&self, library: &str) -> (call: CallRequest)
        ensures
            call.target == self.handle,
            call.slot == AppDomainVtbl::spec_layout().load_2,
            call.arguments@.len() == 1,
            call.arguments@[0] matches MarshaledValue::WideString(name) && name@ == encode(
                library@,
            ),
    {
        let mut arguments: Vec<MarshaledValue> = Vec::new();
        arguments.push(MarshaledValue::WideString(encode_utf16(library)));
        CallRequest { target: self.handle, slot: AppDomainVtbl::layout().load_2, arguments }
    }

    /// The module that was loaded by name: a failure if the status is not
    /// zero, and also if the call wrote a null handle.
    pub fn load_library(&self, reply: &Reply<ForeignObjectHandle>) -> (r: Result<
        Assembly,
        HostError,
    >)
        ensures
            !is_success(reply.status) ==> r == Err::<Assembly, HostError>(
                spec_failure(Operation::LoadLibrary, reply.status, reply.os_error),
            ),
            is_success(reply.status) && reply.value.address == 0 ==> r == Err::<
                Assembly,
                HostError,
            >(HostError::NullObject { operation: Operation::LoadLibrary }),
            is_success(reply.status) && reply.value.address != 0 ==> r == Ok::<
                Assembly,
                HostError,
            >(Assembly { handle: reply.value }),
    {
        match object_of_reply(Operation::LoadLibrary, reply) {
            Ok(handle) => {
                if handle.is_null() {
                    Err(HostError::NullObject { operation: Operation::LoadLibrary })
                } else {
                    Ok(Assembly { handle })
                }
            },
            Err(e) => Err(e),
        }
    }
}

} // verus!
