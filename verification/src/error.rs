//! The typed error enumerations, one per native subsystem. Every native
//! integer status is mapped once, at the boundary, into a closed variant;
//! no status code leaks past it. Each enumeration keeps a distinguished
//! `Success` variant (the zero status) and a `MissingObjectDependency`
//! variant that only local validity-check failures produce — the native
//! layer never returns it.

use vstd::prelude::*;

verus! {

/// Errors of the lockdownd subsystem.
#[derive(Clone, Copy, PartialEq, Eq, Structural, Debug)]
pub enum LockdowndError {
    Success,
    InvalidArg,
    InvalidConf,
    PlistError,
    PairingFailed,
    SslError,
    DictError,
    ReceiveTimeout,
    MuxError,
    NoRunningSession,
    InvalidResponse,
    /// A validity check failed: this wrapper's handle, or an ancestor of it,
    /// was already released. Never produced by the native layer.
    MissingObjectDependency,
    Unknown,
}

impl LockdowndError {
    /// The fixed translation of a native lockdownd status code.
    pub open spec fn spec_from_code(code: i32) -> LockdowndError {
        if code == 0 {
            LockdowndError::Success
        } else if code == -1 {
            LockdowndError::InvalidArg
        } else if code == -2 {
            LockdowndError::InvalidConf
        } else if code == -3 {
            LockdowndError::PlistError
        } else if code == -4 {
            LockdowndError::PairingFailed
        } else if code == -5 {
            LockdowndError::SslError
        } else if code == -6 {
            LockdowndError::DictError
        } else if code == -7 {
            LockdowndError::ReceiveTimeout
        } else if code == -8 {
            LockdowndError::MuxError
        } else if code == -9 {
            LockdowndError::NoRunningSession
        } else if code == -10 {
            LockdowndError::InvalidResponse
        } else {
            LockdowndError::Unknown
        }
    }

    /// Maps a native lockdownd status code to its typed error. The native
    /// layer cannot report a dependency failure: that variant is reserved
    /// for local validity checks.
    pub fn from_code(code: i32) -> (r: LockdowndError)
        ensures
            r == LockdowndError::spec_from_code(code),
            r != LockdowndError::MissingObjectDependency,
    {
        match code {
            0 => LockdowndError::Success,
            -1 => LockdowndError::InvalidArg,
            -2 => LockdowndError::InvalidConf,
            -3 => LockdowndError::PlistError,
            -4 => LockdowndError::PairingFailed,
            -5 => LockdowndError::SslError,
            -6 => LockdowndError::DictError,
            -7 => LockdowndError::ReceiveTimeout,
            -8 => LockdowndError::MuxError,
            -9 => LockdowndError::NoRunningSession,
            -10 => LockdowndError::InvalidResponse,
            _ => LockdowndError::Unknown,
        }
    }
}

/// Errors of the image-mounter subsystem. `DmgNotFound` and
/// `SignatureNotFound` are resource-acquisition errors raised before any
/// native call; the native layer never returns them.
#[derive(Clone, Copy, PartialEq, Eq, Structural, Debug)]
pub enum MobileImageMounterError {
    Success,
    InvalidArg,
    PlistError,
    ConnFailed,
    CommandFailed,
    DeviceLocked,
    /// The disk-image payload could not be read. Raised locally, before any
    /// native call.
    DmgNotFound,
    /// The image signature could not be read. Raised locally, before any
    /// native call.
    SignatureNotFound,
    /// A validity check failed: this wrapper's handle, or an ancestor of it,
    /// was already released. Never produced by the native layer.
    MissingObjectDependency,
    Unknown,
}

impl MobileImageMounterError {
    /// The fixed translation of a native image-mounter status code.
    pub open spec fn spec_from_code(code: i32) -> MobileImageMounterError {
        if code == 0 {
            MobileImageMounterError::Success
        } else if code == -1 {
            MobileImageMounterError::InvalidArg
        } else if code == -2 {
            MobileImageMounterError::PlistError
        } else if code == -3 {
            MobileImageMounterError::ConnFailed
        } else if code == -4 {
            MobileImageMounterError::CommandFailed
        } else if code == -5 {
            MobileImageMounterError::DeviceLocked
        } else {
            MobileImageMounterError::Unknown
        }
    }

    /// Maps a native image-mounter status code to its typed error. The
    /// locally raised variants — the two missing-payload errors and the
    /// dependency error — are never the image of a native code.
    pub fn from_code(code: i32) -> (r: MobileImageMounterError)
        ensures
            r == MobileImageMounterError::spec_from_code(code),
            r != MobileImageMounterError::MissingObjectDependency,
            r != MobileImageMounterError::DmgNotFound,
            r != MobileImageMounterError::SignatureNotFound,
    {
        match code {
            0 => MobileImageMounterError::Success,
            -1 => MobileImageMounterError::InvalidArg,
            -2 => MobileImageMounterError::PlistError,
            -3 => MobileImageMounterError::ConnFailed,
            -4 => MobileImageMounterError::CommandFailed,
            -5 => MobileImageMounterError::DeviceLocked,
            _ => MobileImageMounterError::Unknown,
        }
    }
}

} // verus!
