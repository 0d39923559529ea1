//! Why a device could not be attached.

use vstd::prelude::*;
use crate::device::VmmState;

verus! {

/// A call to something outside this crate.
#[derive(Clone, Copy, Debug, PartialEq, Eq, Structural)]
pub enum ExternalCall {
    /// Resolving a socket path inside the machine's directory.
    ResolveSocketPath,
    /// Cloning the handle of the control socket.
    CloneSocket,
    /// Asking the machine monitor to add a file system.
    AddFilesystem,
}

#[derive(Clone, Debug, PartialEq, Eq)]
pub enum DeviceError {
    /// The kind of device, or of shared file system, is not handled.
    UnsupportedDeviceKind { kind: String },
    /// No control socket to the machine monitor has been set up.
    MissingControlSocket,
    /// The queue size does not fit in 16 bits.
    NumericConversionOverflow,
    /// The configuration names neither an initrd nor an image.
    MissingBootFile,
    /// No hypervisor configuration was supplied.
    MissingHypervisorConfig,
    /// Pending devices can only be handled while the machine is running.
    InvalidPreconditionState { state: VmmState },
    /// A call outside this crate failed; `cause` is what it reported.
    ExternalApiFailure { call: ExternalCall, cause: String },
}

/// What a [`DeviceError`] holds, as mathematical values.
pub enum DeviceErrorView {
    UnsupportedDeviceKind { kind: Seq<char> },
    MissingControlSocket,
    NumericConversionOverflow,
    MissingBootFile,
    MissingHypervisorConfig,
    InvalidPreconditionState { state: VmmState },
    ExternalApiFailure { call: ExternalCall, cause: Seq<char> },
}

impl View for DeviceError {
    type V = DeviceErrorView;

    open spec fn view(&self) -> DeviceErrorView {
        match self {
            DeviceError::UnsupportedDeviceKind { kind } => DeviceErrorView::UnsupportedDeviceKind {
                kind: kind@,
            },
            DeviceError::MissingControlSocket => DeviceErrorView::MissingControlSocket,
            DeviceError::NumericConversionOverflow => DeviceErrorView::NumericConversionOverflow,
            DeviceError::MissingBootFile => DeviceErrorView::MissingBootFile,
            DeviceError::MissingHypervisorConfig => DeviceErrorView::MissingHypervisorConfig,
            DeviceError::InvalidPreconditionState { state } => {
                DeviceErrorView::InvalidPreconditionState { state: *state }
            },
            DeviceError::ExternalApiFailure { call, cause } => DeviceErrorView::ExternalApiFailure {
                call: *call,
                cause: cause@,
            },
        }
    }
}

} // verus!
