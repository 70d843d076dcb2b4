//! A callable member of a loaded module.

use vstd::prelude::*;
use crate::dispatch::{spec_failure, CallRequest, ForeignObjectHandle, Reply, BASE_SLOTS};
use crate::marshal::{get_array_length, ArrayData, MarshaledArray, MarshaledValue};
use crate::status::{check_status, is_success, HostError, Operation};
use crate::utf16::{decode, decode_utf16};

verus! {

/// The positions of the entries of a member's dispatch table that are called.
/// Every other entry of the table is reserved.
#[derive(Clone, Copy, Debug, PartialEq, Eq, Structural)]
pub struct MethodInfoVtbl {
    pub to_string: usize,
    pub get_hash_code: usize,
    pub get_name: usize,
    pub get_parameters: usize,
    pub invoke_3: usize,
    pub get_base_definition: usize,
    pub slots: usize,
}

impl MethodInfoVtbl {
    /// The layout of the table.
    pub open spec fn spec_layout() -> Self {
        MethodInfoVtbl {
            to_string: 7,
            get_hash_code: 9,
            get_name: 12,
            get_parameters: 18,
            invoke_3: 37,
            get_base_definition: 40,
            slots: 41,
        }
    }

    /// The layout of the table.
    pub fn layout() -> (table: Self)
        ensures
            table == Self::spec_layout(),
            table.wf(),
    {
        MethodInfoVtbl {
            to_string: 7,
            get_hash_code: 9,
            get_name: 12,
            get_parameters: 18,
            invoke_3: 37,
            get_base_definition: 40,
            slots: 41,
        }
    }

    /// Every entry lies behind the base entries and inside the table, and the
    /// entries follow each other in the order of their names here.
    pub open spec fn wf(&self) -> bool {
        &&& BASE_SLOTS <= self.to_string < self.get_hash_code < self.get_name
        &&& self.get_name < self.get_parameters < self.invoke_3 < self.get_base_definition
        &&& self.get_base_definition < self.slots
    }
}

/// A handle to a callable member.
#[derive(Clone, Copy, Debug, PartialEq, Eq, Structural)]
pub struct MethodInfo {
    pub handle: ForeignObjectHandle,
}

/// The failure that unequal counts stand for, if they are unequal.
pub open spec fn spec_arity(given: usize, expected: usize) -> Result<(), HostError> {
    if given == expected {
        Ok(())
    } else {
        Err(HostError::ArityMismatch { given, expected })
    }
}

/// Holds the number of arguments against the declared number of parameters.
/// The counts are a mismatch exactly when they differ.
pub fn check_arity(given: usize, expected: usize) -> (r: Result<(), HostError>)
    ensures
        r == spec_arity(given, expected),
        r is Err <==> given != expected,
{
    if given == expected {
        Ok(())
    } else {
        Err(HostError::ArityMismatch { given, expected })
    }
}

/// Whether `call` is the invocation of `target` on `instance` with
/// `arguments`: the instance first, then the array of the arguments.
pub open spec fn is_invocation(
    call: CallRequest,
    target: ForeignObjectHandle,
    instance: MarshaledValue,
    arguments: MarshaledArray,
) -> bool {
    &&& call.target == target
    &&& call.slot == MethodInfoVtbl::spec_layout().invoke_3
    &&& call.arguments@ =~= seq![instance, MarshaledValue::Array(arguments)]
}

/// The instance that a call is made on: none for a static member.
pub open spec fn spec_instance(instance: Option<MarshaledValue>) -> MarshaledValue {
    match instance {
        Some(value) => value,
        None => MarshaledValue::Empty,
    }
}

/// What `invoke` returns for a reply to the question for the parameters.
pub open spec fn spec_invoke(
    target: ForeignObjectHandle,
    args: MarshaledArray,
    instance: Option<MarshaledValue>,
    parameters: Reply<MarshaledArray>,
    r: Result<CallRequest, HostError>,
) -> bool {
    if !is_success(parameters.status) {
        r == Err::<CallRequest, HostError>(
            spec_failure(Operation::GetParameters, parameters.status, parameters.os_error),
        )
    } else if args.spec_len() != parameters.value.spec_len() {
        r matches Err(HostError::ArityMismatch { given, expected }) && given == args.spec_len()
            && expected == parameters.value.spec_len()
    } else {
        r matches Ok(call) && is_invocation(call, target, spec_instance(instance), args)
    }
}

impl MethodInfo {
    /// The call that invokes the member with `instance` and `arguments`.
    fn invocation(&self, instance: MarshaledValue, arguments: MarshaledArray) -> (call: CallRequest)
        ensures
            is_invocation(call, self.handle, instance, arguments),
    {
        let mut list: Vec<MarshaledValue> = Vec::new();
        list.push(instance);
        list.push(MarshaledValue::Array(arguments));
        CallRequest { target: self.handle, slot: MethodInfoVtbl::layout().invoke_3, arguments: list }
    }

    /// Prepares the invocation of an entry point with its argument array.
    /// There is no instance, since entry points are static. As for any
    /// member, the number of arguments is held against the declared
    /// parameters before anything is invoked: a failed question for the
    /// parameters comes first, then a mismatch of the counts, and only equal
    /// counts give the call.
    pub fn invoke_assembly_call(
        &self,
        safe_array_final: MarshaledArray,
        parameters: &Reply<MarshaledArray>,
    ) -> (r: Result<CallRequest, HostError>)
        ensures
            spec_invoke(self.handle, safe_array_final, None, *parameters, r),
    {
        self.invoke(safe_array_final, None, parameters)
    }

    /// The outcome of invoking an entry point: success if the status is zero,
    /// a failure else. What the entry point returned is discarded.
    pub fn invoke_assembly(&self, reply: Reply<MarshaledValue>) -> (r: Result<(), HostError>)
        ensures
            is_success(reply.status) ==> r == Ok::<(), HostError>(()),
            !is_success(reply.status) ==> r == Err::<(), HostError>(
                spec_failure(Operation::Invoke, reply.status, reply.os_error),
            ),
    {
        check_status(Operation::Invoke, reply.status, reply.os_error)
    }

    /// The call that asks for the member's declared parameters.
    pub fn get_parameter_count_call(&self) -> (call: CallRequest)
        ensures
            call.target == self.handle,
            call.slot == MethodInfoVtbl::spec_layout().get_parameters,
            call.arguments@ == Seq::<MarshaledValue>::empty(),
    {
        CallRequest {
            target: self.handle,
            slot: MethodInfoVtbl::layout().get_parameters,
            arguments: Vec::new(),
        }
    }

    /// The number of parameters that the member declares: the length of the
    /// array that the call wrote if its status is zero, a failure else.
    pub fn get_parameter_count(&self, reply: &Reply<MarshaledArray>) -> (r: Result<
        usize,
        HostError,
    >)
        ensures
            is_success(reply.status) ==> (r matches Ok(count) && count == reply.value.spec_len()),
            !is_success(reply.status) ==> r == Err::<usize, HostError>(
                spec_failure(Operation::GetParameters, reply.status, reply.os_error),
            ),
    {
        match check_status(Operation::GetParameters, reply.status, reply.os_error) {
            Ok(()) => Ok(get_array_length(&reply.value)),
            Err(e) => Err(e),
        }
    }

    /// Prepares the invocation of the member with `args` on `instance`. The
    /// number of arguments is held against the declared parameters before
    /// anything is invoked: a failed question for the parameters comes first,
    /// then a mismatch of the counts, and only equal counts give the call.
    pub fn invoke(
        &self,
        args: MarshaledArray,
        instance: Option<MarshaledValue>,
        parameters: &Reply<MarshaledArray>,
    ) -> (r: Result<CallRequest, HostError>)
        ensures
            spec_invoke(self.handle, args, instance, *parameters, r),
    {
        let args_len = get_array_length(&args);
        let parameter_count = match self.get_parameter_count(parameters) {
            Ok(count) => count,
            Err(e) => {
                return Err(e);
            },
        };
        match check_arity(args_len, parameter_count) {
            Ok(()) => {},
            Err(e) => {
                return Err(e);
            },
        }
        let object = match instance {
            Some(value) => value,
            None => MarshaledValue::Empty,
        };
        Ok(self.invocation(object, args))
    }

    /// Prepares the invocation of the member with no arguments: as `invoke`
    /// with an empty array of variants.
    pub fn invoke_without_args(
        &self,
        instance: Option<MarshaledValue>,
        parameters: &Reply<MarshaledArray>,
    ) -> (r: Result<CallRequest, HostError>)
        ensures
            !is_success(parameters.status) ==> r == Err::<CallRequest, HostError>(
                spec_failure(Operation::GetParameters, parameters.status, parameters.os_error),
            ),
            is_success(parameters.status) && parameters.value.spec_len() != 0 ==> (r matches Err(
                HostError::ArityMismatch { given, expected },
            ) && given == 0 && expected == parameters.value.spec_len()),
            is_success(parameters.status) && parameters.value.spec_len() == 0 ==> {
                &&& r matches Ok(call)
                &&& call.target == self.handle
                &&& call.slot == MethodInfoVtbl::spec_layout().invoke_3
                &&& call.arguments@.len() == 2
                &&& call.arguments@[0] == spec_instance(instance)
                &&& call.arguments@[1] matches MarshaledValue::Array(array)
                &&& array.lower == 0
                &&& array.data matches ArrayData::Variants(items)
                &&& items@.len() == 0
            },
    {
        let method_args = MarshaledArray { lower: 0, data: ArrayData::Variants(Vec::new()) };
        self.invoke(method_args, instance, parameters)
    }

    /// The value that an invocation returned: the value that the call wrote if
    /// its status is zero, a failure else.
    pub fn invoke_result(&self, reply: Reply<MarshaledValue>) -> (r: Result<
        MarshaledValue,
        HostError,
    >)
        ensures
            is_success(reply.status) ==> r == Ok::<MarshaledValue, HostError>(reply.value),
            !is_success(reply.status) ==> r == Err::<MarshaledValue, HostError>(
                spec_failure(Operation::Invoke, reply.status, reply.os_error),
            ),
    {
        match check_status(Operation::Invoke, reply.status, reply.os_error) {
            Ok(()) => Ok(reply.value),
            Err(e) => Err(e),
        }
    }

    /// The call that asks for the member's description.
    pub fn to_string_call(&self) -> (call: CallRequest)
        ensures
            call.target == self.handle,
            call.slot == MethodInfoVtbl::spec_layout().to_string,
            call.arguments@ == Seq::<MarshaledValue>::empty(),
    {
        CallRequest {
            target: self.handle,
            slot: MethodInfoVtbl::layout().to_string,
            arguments: Vec::new(),
        }
    }

    /// The member's description as a native string: the wide string that the
    /// call wrote, decoded, if its status is zero, a failure else.
    pub fn to_string(&self, reply: &Reply<Vec<u16>>) -> (r: Result<String, HostError>)
        ensures
            is_success(reply.status) ==> (r matches Ok(text) && text@ == decode(reply.value@)),
            !is_success(reply.status) ==> r == Err::<String, HostError>(
                spec_failure(Operation::ToString, reply.status, reply.os_error),
            ),
    {
        match check_status(Operation::ToString, reply.status, reply.os_error) {
            Ok(()) => Ok(decode_utf16(&reply.value)),
            Err(e) => Err(e),
        }
    }
}

} // verus!
