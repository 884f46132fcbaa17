//! Typed failures of the provider and their translation into one message.
use vstd::prelude::*;

verus! {

/// What can go wrong in a provider operation.
#[derive(Clone, Debug, PartialEq, Eq)]
pub enum SecurityModuleError {
    /// The module or the runtime is not ready.
    InitializationError(String),
    /// The platform rejected a call, or the configuration cannot produce a key.
    InternalError(String),
    /// An algorithm and a digest that do not go together.
    InvalidConfiguration(String),
    /// The configured algorithm or the granted usages forbid the operation.
    UnsupportedOperation(String),
    /// A byte array could not be moved across the boundary.
    MarshalError(String),
    /// No managed runtime could be found or attached to.
    RuntimeUnavailable(String),
}

/// The label that opens the message of each kind of error.
pub open spec fn kind_label(e: SecurityModuleError) -> Seq<char> {
    match e {
        SecurityModuleError::InitializationError(_) => "Initialization error: "@,
        SecurityModuleError::InternalError(_) => "Internal error: "@,
        SecurityModuleError::InvalidConfiguration(_) => "Invalid configuration: "@,
        SecurityModuleError::UnsupportedOperation(_) => "Unsupported operation: "@,
        SecurityModuleError::MarshalError(_) => "Marshal error: "@,
        SecurityModuleError::RuntimeUnavailable(_) => "Runtime unavailable: "@,
    }
}

/// The detail text that an error carries.
pub open spec fn detail(e: SecurityModuleError) -> Seq<char> {
    match e {
        SecurityModuleError::InitializationError(m) => m@,
        SecurityModuleError::InternalError(m) => m@,
        SecurityModuleError::InvalidConfiguration(m) => m@,
        SecurityModuleError::UnsupportedOperation(m) => m@,
        SecurityModuleError::MarshalError(m) => m@,
        SecurityModuleError::RuntimeUnavailable(m) => m@,
    }
}

impl SecurityModuleError {
    /// The human-readable text of the single exception that reports this error
    /// to the managed caller: the kind's label followed by the detail.
    pub fn exception_message(&self) -> (r: String)
        ensures
            r@ == kind_label(*self) + detail(*self),
    {
        let (label, text) = match self {
            SecurityModuleError::InitializationError(m) => ("Initialization error: ", m),
            SecurityModuleError::InternalError(m) => ("Internal error: ", m),
            SecurityModuleError::InvalidConfiguration(m) => ("Invalid configuration: ", m),
            SecurityModuleError::UnsupportedOperation(m) => ("Unsupported operation: ", m),
            SecurityModuleError::MarshalError(m) => ("Marshal error: ", m),
            SecurityModuleError::RuntimeUnavailable(m) => ("Runtime unavailable: ", m),
        };
        let mut out = label.to_owned();
        out.append(text.as_str());
        out
    }
}

/// Translates what a platform call returned: its value passes through, and the
/// text of the exception it threw becomes an internal error.
pub fn translate_platform_result<T>(outcome: Result<T, String>) -> (r: Result<T, SecurityModuleError>)
    ensures
        outcome is Ok ==> r == Ok::<T, SecurityModuleError>(outcome->Ok_0),
        outcome is Err ==> r == Err::<T, SecurityModuleError>(
            SecurityModuleError::InternalError(outcome->Err_0),
        ),
{
    match outcome {
        Ok(v) => Ok(v),
        Err(m) => Err(SecurityModuleError::InternalError(m)),
    }
}

} // verus!
