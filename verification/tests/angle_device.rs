use surfman::angle::{
    Adapter, Connection, D3d11CreateResult, D3dDriverType, Device, MIN_FEATURE_LEVEL,
};
use surfman::egl::Egl;
use surfman::{Error, GLApi};

fn adapter() -> Adapter {
    Adapter { dxgi_adapter: 77, d3d_driver_type: D3dDriverType::Hardware }
}

#[test]
fn failed_device_creation_reports_device_open_failed() {
    let mut egl = Egl::new();
    let r = Device::new(&mut egl, &Connection, &adapter(), D3d11CreateResult::Failed);
    assert_eq!(r.err(), Some(Error::DeviceOpenFailed));
}

#[test]
fn feature_level_below_the_minimum_reports_device_open_failed() {
    let mut egl = Egl::new();
    let r = Device::new(
        &mut egl,
        &Connection,
        &adapter(),
        D3d11CreateResult::Created { device: 5, feature_level: 0x9100 },
    );
    assert_eq!(r.err(), Some(Error::DeviceOpenFailed));
}

#[test]
fn a_healthy_device_is_adopted() {
    let mut egl = Egl::new();
    let device = Device::new(
        &mut egl,
        &Connection,
        &adapter(),
        D3d11CreateResult::Created { device: 5, feature_level: MIN_FEATURE_LEVEL },
    )
    .unwrap();
    assert_eq!(device.d3d11_device(), 5);
    assert_eq!(device.adapter(), adapter());
    assert_eq!(device.connection(), Connection);
}

#[test]
fn adoption_rederives_the_adapter() {
    let mut egl = Egl::new();
    let device = Device::from_d3d11_device(&mut egl, 41, 88, D3dDriverType::Reference);
    let a = device.adapter();
    assert_eq!(a.dxgi_adapter, 88);
    assert_eq!(a.d3d_driver_type, D3dDriverType::Reference);
    assert_eq!(device.d3d11_device(), 41);
}

#[test]
fn the_backend_speaks_gles() {
    assert_eq!(Device::gl_api(), GLApi::GLES);
}
