//! A cross-platform abstraction over native GPU rendering-context APIs.
//!
//! The crate lets a client obtain an off-screen rendering context without
//! hand-coding per-platform context-creation sequences, and lets the same
//! client fall back from hardware-accelerated rendering to a software
//! rasterizer when no GPU is available.
//!
//! The native graphics interface (the per-thread current-context slot and
//! the registries of live contexts, surfaces and displays) is represented
//! by an explicit state value, [`egl::Egl`], so that every lifecycle rule —
//! ownership and destruction ordering, weak (non-owning) contexts, the
//! version-negotiation retry — is stated in contracts and machine-checked.

use vstd::prelude::*;

pub mod angle;
pub mod backend;
pub mod context;
pub mod egl;
pub mod resolver;
pub mod universal;

verus! {

/// The errors this crate reports.
///
/// Resource-acquisition failures and tag mismatches are always surfaced to
/// the caller as values of this type; they are never silently swallowed.
#[derive(Clone, Copy, Debug, PartialEq, Eq, Structural)]
pub enum Error {
    /// Native device or display creation failed, or the minimum feature
    /// level was not met.
    DeviceOpenFailed,
    /// Native context creation failed even after the documented
    /// version-downgrade retry.
    ContextCreationFailed,
    /// A make-current or unbind transition was rejected by the native API.
    BindFailed,
    /// A hardware/software tag mismatch between a device and a context.
    IncompatibleContext,
    /// A hardware/software tag mismatch between a device and a context
    /// descriptor.
    IncompatibleContextDescriptor,
    /// A hardware/software tag mismatch between a context and a surface.
    IncompatibleSurface,
    /// The operation has no meaning for the active backend.
    UnsupportedOnThisPlatform,
}

/// The OpenGL API variant a device exposes.
#[derive(Clone, Copy, Debug, PartialEq, Eq, Structural)]
pub enum GLApi {
    /// Desktop OpenGL.
    GL,
    /// OpenGL for embedded systems.
    GLES,
}

/// The kind of OpenGL API a context is requested for.
#[derive(Clone, Copy, Debug, PartialEq, Eq, Structural)]
pub enum GlType {
    /// Desktop OpenGL.
    Gl,
    /// OpenGL for embedded systems.
    Gles,
}

/// An OpenGL API version, by major and minor number.
#[derive(Clone, Copy, Debug, PartialEq, Eq, Structural)]
pub struct GLVersion {
    /// The major version number.
    pub major: u8,
    /// The minor version number.
    pub minor: u8,
}

/// A portable description of the pixel format and API version a context
/// is requested with.
#[derive(Clone, Copy, Debug, PartialEq, Eq, Structural)]
pub struct ContextAttributes {
    /// The requested API version.
    pub version: GLVersion,
}

/// A stable identifier distinguishing contexts within a device, used by
/// clients to correlate contexts without holding a reference.
#[derive(Clone, Copy, Debug, PartialEq, Eq, Structural)]
pub struct ContextID(pub u64);

} // verus!
