//! A hardware device built on top of a foreign 3D-API device handle.
//!
//! This bridge decouples "who created the 3D device" from "who renders
//! with it": a caller that already manages a 3D-API device — say for
//! video decoding — hands it in, and obtains a platform-API display that
//! shares the same underlying GPU, rather than two independent,
//! non-interoperable devices.
//!
//! The foreign device itself lives outside this crate; what the logic
//! reads of it travels as plain values: the handle, the adapter it
//! originated from, its driver-type classification, and — for a freshly
//! created device — whether creation succeeded and at which feature
//! level.

use vstd::prelude::*;
use crate::egl::Egl;
use crate::{Error, GLApi};

verus! {

/// The minimum feature level a freshly created 3D device must report.
pub const MIN_FEATURE_LEVEL: u32 = 0x9300;

/// The driver-type classification of a 3D-API device.
#[derive(Clone, Copy, Debug, PartialEq, Eq, Structural)]
pub enum D3dDriverType {
    /// A hardware driver.
    Hardware,
    /// The reference (conformance) software driver.
    Reference,
    /// A software rasterizer driver.
    Software,
}

/// Identifies a selectable rendering backend: a specific adapter and its
/// driver-type classification.  Immutable once obtained.
#[derive(Clone, Copy, Debug, PartialEq, Eq, Structural)]
pub struct Adapter {
    /// The adapter object, as a plain handle value.
    pub dxgi_adapter: u64,
    /// The driver type the adapter is opened with.
    pub d3d_driver_type: D3dDriverType,
}

/// The connection to a display server.  This backend needs none.
#[derive(Clone, Copy, Debug, PartialEq, Eq, Structural)]
pub struct Connection;

/// What creating a 3D-API device for an adapter reported: failure, or a
/// device handle with the feature level the driver granted.
#[derive(Clone, Copy, Debug, PartialEq, Eq, Structural)]
pub enum D3d11CreateResult {
    /// The native API returned a failure code.
    Failed,
    /// A device was created at the given feature level.
    Created {
        /// The created device, as a plain nonzero handle value.
        device: u64,
        /// The feature level the driver granted.
        feature_level: u32,
    },
}

/// A device of the hardware backend, backed by a foreign 3D-API device
/// adopted through the platform API's device-creation extension.
pub struct Device {
    native_display: u64,
    d3d11_device: u64,
    d3d_driver_type: D3dDriverType,
    dxgi_adapter: u64,
}

/// What adopting a foreign device establishes: a fresh live display
/// bound to a freshly registered device-extension handle, with contexts,
/// surfaces and the thread's slot untouched.
pub open spec fn adoption_post(pre: Egl, post: Egl, d: Device) -> bool {
    &&& post.wf()
    &&& d.display_id() != 0
    &&& !pre.live_displays().contains(d.display_id())
    &&& post.live_displays() == pre.live_displays().insert(d.display_id())
    &&& (exists|handle: u64|
        !pre.live_devices().contains(handle) && post.live_devices() == pre.live_devices().insert(
            handle,
        ))
    &&& post.live_contexts() == pre.live_contexts()
    &&& post.live_surfaces() == pre.live_surfaces()
    &&& post.current_slot() == pre.current_slot()
    &&& post.same_config(pre)
}

impl Device {
    /// The display opened for the adopted device.
    pub closed spec fn display_id(self) -> u64 {
        self.native_display
    }

    /// The adopted foreign 3D-API device handle.
    pub closed spec fn spec_d3d11_device(self) -> u64 {
        self.d3d11_device
    }

    /// The driver type of the adopted device.
    pub closed spec fn driver_type(self) -> D3dDriverType {
        self.d3d_driver_type
    }

    /// The adapter the adopted device originated from.
    pub closed spec fn spec_adapter(self) -> Adapter {
        Adapter { dxgi_adapter: self.dxgi_adapter, d3d_driver_type: self.d3d_driver_type }
    }

    /// Opens a device for the requested adapter, from the reported
    /// outcome of creating a fresh 3D-API device for it.  Fails with
    /// `DeviceOpenFailed` when creation failed or the granted feature
    /// level does not meet the minimum; otherwise the device is adopted
    /// as [`Device::from_d3d11_device`] does.
    pub fn new(
        egl: &mut Egl,
        _connection: &Connection,
        adapter: &Adapter,
        create_result: D3d11CreateResult,
    ) -> (r: Result<Device, Error>)
        requires
            old(egl).wf(),
            old(egl).can_alloc(2),
            match create_result {
                D3d11CreateResult::Created { device, .. } => device != 0,
                D3d11CreateResult::Failed => true,
            },
        ensures
            r.is_ok() <==> match create_result {
                D3d11CreateResult::Created { feature_level, .. } => feature_level
                    >= MIN_FEATURE_LEVEL,
                D3d11CreateResult::Failed => false,
            },
            r.is_err() ==> r == Err::<Device, Error>(Error::DeviceOpenFailed) && *final(egl)
                == *old(egl),
            r.is_ok() ==> ({
                let d = r.unwrap();
                &&& adoption_post(*old(egl), *final(egl), d)
                &&& d.spec_d3d11_device() == create_result->Created_device
                &&& d.driver_type() == adapter.d3d_driver_type
                &&& d.spec_adapter() == *adapter
            }),
    {
        match create_result {
            D3d11CreateResult::Failed => Err(Error::DeviceOpenFailed),
            D3d11CreateResult::Created { device, feature_level } => {
                if feature_level < MIN_FEATURE_LEVEL {
                    return Err(Error::DeviceOpenFailed);
                }
                Ok(
                    Device::from_d3d11_device(
                        egl,
                        device,
                        adapter.dxgi_adapter,
                        adapter.d3d_driver_type,
                    ),
                )
            },
        }
    }

    /// Adopts an externally created 3D-API device: registers it with the
    /// platform API's device-creation extension, opens a display bound
    /// to the resulting device handle, and initializes that display.
    /// Each step succeeds given a well-formed input — an inability to
    /// succeed here would indicate a missing extension or a severe
    /// driver defect, a precondition failure rather than a recoverable
    /// error — so the input is constrained instead of a failure being
    /// reported.
    pub fn from_d3d11_device(
        egl: &mut Egl,
        d3d11_device: u64,
        dxgi_adapter: u64,
        d3d_driver_type: D3dDriverType,
    ) -> (d: Device)
        requires
            old(egl).wf(),
            old(egl).can_alloc(2),
            d3d11_device != 0,
        ensures
            adoption_post(*old(egl), *final(egl), d),
            d.spec_d3d11_device() == d3d11_device,
            d.driver_type() == d3d_driver_type,
            d.spec_adapter() == (Adapter { dxgi_adapter, d3d_driver_type }),
    {
        let egl_device = egl.create_device_from_d3d11(d3d11_device);
        let native_display = egl.get_platform_display(egl_device);
        let version = egl.initialize(native_display);
        let _ = version;
        Device { native_display, d3d11_device, d3d_driver_type, dxgi_adapter }
    }

    /// The connection this device was opened from.
    pub fn connection(&self) -> (r: Connection)
        ensures
            r == Connection,
    {
        Connection
    }

    /// Another handle to the adopted 3D-API device.
    pub fn d3d11_device(&self) -> (r: u64)
        ensures
            r == self.spec_d3d11_device(),
    {
        self.d3d11_device
    }

    /// Re-derives the adapter classification of the adopted device,
    /// preserving the ability to reconstruct an equivalent device
    /// elsewhere — for instance a second, shared device.
    pub fn adapter(&self) -> (r: Adapter)
        ensures
            r == self.spec_adapter(),
    {
        Adapter { dxgi_adapter: self.dxgi_adapter, d3d_driver_type: self.d3d_driver_type }
    }

    /// The OpenGL API variant this backend exposes.
    pub fn gl_api() -> (r: GLApi)
        ensures
            r == GLApi::GLES,
    {
        GLApi::GLES
    }
}

} // verus!
