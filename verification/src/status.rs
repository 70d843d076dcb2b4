//! Status codes returned by foreign calls and the failures they turn into.

use vstd::prelude::*;

verus! {

/// Status of a foreign call that succeeded. It is the only success value.
pub const STATUS_OK: i32 = 0;

/// Status handed back for a capability that the provider does not offer.
pub const STATUS_NO_INTERFACE: i32 = -2147467262;

/// Status handed back when a native allocation could not be satisfied.
pub const STATUS_OUT_OF_MEMORY: i32 = -2147024882;

/// The foreign operation during which a failure was observed.
#[derive(Clone, Copy, Debug, PartialEq, Eq, Structural)]
pub enum Operation {
    LoadAssembly,
    LoadLibrary,
    GetEntryPoint,
    CreateInstance,
    Invoke,
    GetParameters,
    ToString,
    QueryCapability,
}

/// What went wrong while a value was brought into its marshaled form.
#[derive(Clone, Copy, Debug, PartialEq, Eq, Structural)]
pub enum MarshalFault {
    /// The array could not be created: its handle is null.
    NullHandle,
    /// The element at `index` could not be stored.
    ElementStore { index: usize },
}

/// Every way in which the interop layer can fail.
#[derive(Clone, Copy, Debug, PartialEq, Eq, Structural)]
pub enum HostError {
    /// A foreign dispatch call returned a nonzero status. `os_error` is the
    /// last error recorded by the operating system, kept as auxiliary context.
    NativeCallFailure { operation: Operation, status: i32, os_error: i32 },
    /// A foreign call reported success but handed back a null object.
    NullObject { operation: Operation },
    /// An array or string representation could not be constructed.
    MarshalFailure(MarshalFault),
    /// A native allocation request could not be satisfied.
    AllocationError,
    /// The argument count differs from the callable's declared parameter count.
    ArityMismatch { given: usize, expected: usize },
    /// The transform used for scrubbing could not be located.
    SymbolResolutionFailure,
    /// The region at `base` is larger than one counted buffer can describe.
    OversizedRegion { base: u64 },
}

/// Whether `status` denotes success: zero does, nothing else.
pub open spec fn is_success(status: i32) -> bool {
    status == 0
}

/// Maps the status of a foreign call to a typed result.
pub fn check_status(operation: Operation, status: i32, os_error: i32) -> (r: Result<(), HostError>)
    ensures
        is_success(status) ==> r == Ok::<(), HostError>(()),
        !is_success(status) ==> r == Err::<(), HostError>(
            HostError::NativeCallFailure { operation, status, os_error },
        ),
{
    if status == STATUS_OK {
        Ok(())
    } else {
        Err(HostError::NativeCallFailure { operation, status, os_error })
    }
}

} // verus!
