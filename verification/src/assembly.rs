//! A module that was loaded into the hosted runtime.

use vstd::prelude::*;
use crate::dispatch::{
    object_of_reply, spec_failure, CallRequest, ForeignObjectHandle, Reply, BASE_SLOTS,
};
use crate::marshal::MarshaledValue;
use crate::methodinfo::MethodInfo;
use crate::status::{check_status, is_success, HostError, Operation};
use crate::utf16::{encode, encode_utf16};

verus! {

/// The positions of the entries of a module's dispatch table that are called.
/// Every other entry of the table is reserved.
#[derive(Clone, Copy, Debug, PartialEq, Eq, Structural)]
pub struct AssemblyVtbl {
    pub to_string: usize,
    pub get_hash_code: usize,
    pub get_code_base: usize,
    pub get_escaped_code_base: usize,
    pub get_name: usize,
    pub get_full_name: usize,
    pub get_entry_point: usize,
    pub get_type_2: usize,
    pub get_types: usize,
    pub get_location: usize,
    pub create_instance: usize,
    pub slots: usize,
}

impl AssemblyVtbl {
    /// The layout of the table.
    pub open spec fn spec_layout() -> Self {
        AssemblyVtbl {
            to_string: 7,
            get_hash_code: 9,
            get_code_base: 11,
            get_escaped_code_base: 12,
            get_name: 13,
            get_full_name: 15,
            get_entry_point: 16,
            get_type_2: 17,
            get_types: 20,
            get_location: 28,
            create_instance: 41,
            slots: 51,
        }
    }

    /// The layout of the table.
    pub fn layout() -> (table: Self)
        ensures
            table == Self::spec_layout(),
            table.wf(),
    {
        AssemblyVtbl {
            to_string: 7,
            get_hash_code: 9,
            get_code_base: 11,
            get_escaped_code_base: 12,
            get_name: 13,
            get_full_name: 15,
            get_entry_point: 16,
            get_type_2: 17,
            get_types: 20,
            get_location: 28,
            create_instance: 41,
            slots: 51,
        }
    }

    /// Every entry lies behind the base entries and inside the table, and the
    /// entries follow each other in the order of their names here.
    pub open spec fn wf(&self) -> bool {
        &&& BASE_SLOTS <= self.to_string < self.get_hash_code < self.get_code_base
        &&& self.get_code_base < self.get_escaped_code_base < self.get_name < self.get_full_name
        &&& self.get_full_name < self.get_entry_point < self.get_type_2 < self.get_types
        &&& self.get_types < self.get_location < self.create_instance < self.slots
    }
}

/// A handle to a loaded module.
#[derive(Clone, Copy, Debug, PartialEq, Eq, Structural)]
pub struct Assembly {
    pub handle: ForeignObjectHandle,
}

impl Assembly {
    /// The call that asks for the module's entry point.
    pub fn get_entrypoint_call(&self) -> (call: CallRequest)
        ensures
            call.target == self.handle,
            call.slot == AssemblyVtbl::spec_layout().get_entry_point,
            call.arguments@ == Seq::<MarshaledValue>::empty(),
    {
        CallRequest {
            target: self.handle,
            slot: AssemblyVtbl::layout().get_entry_point,
            arguments: Vec::new(),
        }
    }

    /// The entry point: the handle that the call wrote if its status is zero,
    /// a failure else.
    pub fn get_entrypoint(&self, reply: &Reply<ForeignObjectHandle>) -> (r: Result<
        MethodInfo,
        HostError,
    >)
        ensures
            is_success(reply.status) ==> r == Ok::<MethodInfo, HostError>(
                MethodInfo { handle: reply.value },
            ),
            !is_success(reply.status) ==> r == Err::<MethodInfo, HostError>(
                spec_failure(Operation::GetEntryPoint, reply.status, reply.os_error),
            ),
    {
        match object_of_reply(Operation::GetEntryPoint, reply) {
            Ok(handle) => Ok(MethodInfo { handle }),
            Err(e) => Err(e),
        }
    }

    /// The call that creates an instance of the type with this name, which
    /// travels as a wide string.
    pub fn create_instance_call(&self, name: &str) -> (call: CallRequest)
        ensures
            call.target == self.handle,
            call.slot == AssemblyVtbl::spec_layout().create_instance,
            call.arguments@.len() == 1,
            call.arguments@[0] matches MarshaledValue::WideString(text) && text@ == encode(name@),
    {
        let mut arguments: Vec<MarshaledValue> = Vec::new();
        arguments.push(MarshaledValue::WideString(encode_utf16(name)));
        CallRequest { target: self.handle, slot: AssemblyVtbl::layout().create_instance, arguments }
    }

    /// The instance that was created: the value that the call wrote if its
    /// status is zero, a failure else.
    pub fn create_instance(&self, reply: Reply<MarshaledValue>) -> (r: Result<
        MarshaledValue,
        HostError,
    >)
        ensures
            is_success(reply.status) ==> r == Ok::<MarshaledValue, HostError>(reply.value),
            !is_success(reply.status) ==> r == Err::<MarshaledValue, HostError>(
                spec_failure(Operation::CreateInstance, reply.status, reply.os_error),
            ),
    {
        match check_status(Operation::CreateInstance, reply.status, reply.os_error) {
            Ok(()) => Ok(reply.value),
            Err(e) => Err(e),
        }
    }
}

} // verus!
