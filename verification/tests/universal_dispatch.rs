use surfman::backend;
use surfman::context::NativeGLContext;
use surfman::egl::Egl;
use surfman::resolver::GlLibrary;
use surfman::universal::{Context, ContextDescriptor, Device, Surface, SurfaceRef};
use surfman::{ContextAttributes, Error, GLVersion, GlType};

fn attrs() -> ContextAttributes {
    ContextAttributes { version: GLVersion { major: 2, minor: 0 } }
}

fn hardware_device() -> Device {
    Device::Hardware(backend::Device::new(Egl::new(), GlLibrary::load_failed()))
}

fn software_device() -> Device {
    Device::Software(backend::Device::new(Egl::new(), GlLibrary::load_failed()))
}

#[test]
fn created_context_carries_the_device_and_descriptor_tag() {
    let mut device = hardware_device();
    let descriptor = device.create_context_descriptor(&attrs()).unwrap();
    assert!(matches!(descriptor, ContextDescriptor::Hardware(_)));
    let context = device.create_context(&descriptor).unwrap();
    assert!(matches!(context, Context::Hardware(_)));

    let mut device = software_device();
    let descriptor = device.create_context_descriptor(&attrs()).unwrap();
    assert!(matches!(descriptor, ContextDescriptor::Software(_)));
    let context = device.create_context(&descriptor).unwrap();
    assert!(matches!(context, Context::Software(_)));
}

#[test]
fn mismatched_descriptor_is_incompatible() {
    let mut hardware = hardware_device();
    let software = software_device();
    let software_descriptor = software.create_context_descriptor(&attrs()).unwrap();
    let r = hardware.create_context(&software_descriptor);
    assert_eq!(r.err(), Some(Error::IncompatibleContextDescriptor));
}

#[test]
fn mismatched_context_is_incompatible() {
    let mut hardware = hardware_device();
    let mut software = software_device();
    let software_descriptor = software.create_context_descriptor(&attrs()).unwrap();
    let mut software_context = software.create_context(&software_descriptor).unwrap();

    assert_eq!(
        hardware.make_context_current(&software_context).err(),
        Some(Error::IncompatibleContext)
    );
    assert_eq!(
        hardware.unbind_surface_from_context(&mut software_context).err(),
        Some(Error::IncompatibleContext)
    );
    assert_eq!(
        hardware.destroy_context(&mut software_context).err(),
        Some(Error::IncompatibleContext)
    );
    assert_eq!(
        hardware.context_surface(&software_context).err(),
        Some(Error::UnsupportedOnThisPlatform)
    );
}

#[test]
fn mismatched_surface_is_incompatible_surface_not_incompatible_context() {
    // Binding a software surface to a hardware context fails with
    // IncompatibleSurface specifically: not success, and not
    // IncompatibleContext.
    let mut software_backend = backend::Device::new(Egl::new(), GlLibrary::load_failed());
    let software_surface = software_backend.create_surface(8, 8);

    let mut hardware = hardware_device();
    let descriptor = hardware.create_context_descriptor(&attrs()).unwrap();
    let mut context = hardware.create_context(&descriptor).unwrap();

    let r = hardware.bind_surface_to_context(&mut context, Surface::Software(software_surface));
    assert_eq!(r.err(), Some(Error::IncompatibleSurface));
}

#[test]
fn bind_then_unbind_returns_the_same_surface() {
    let mut backend_device = backend::Device::new(Egl::new(), GlLibrary::load_failed());
    let surface = backend_device.create_surface(32, 32);
    let surface_id = surface.surface_id();

    let mut device = Device::Hardware(backend_device);
    let descriptor = device.create_context_descriptor(&attrs()).unwrap();
    let mut context = device.create_context(&descriptor).unwrap();

    device
        .bind_surface_to_context(&mut context, Surface::Hardware(surface))
        .unwrap();
    match device.context_surface(&context).unwrap() {
        Some(SurfaceRef::Hardware(s)) => assert_eq!(s.surface_id(), surface_id),
        _ => panic!("expected a hardware surface to be bound"),
    }

    let unbound = device.unbind_surface_from_context(&mut context).unwrap();
    match unbound {
        Some(Surface::Hardware(s)) => {
            assert_eq!(s.surface_id(), surface_id);
            assert_eq!(s.size(), (32, 32));
        },
        _ => panic!("expected the bound hardware surface back"),
    }
    assert!(device.context_surface(&context).unwrap().is_none());
}

#[test]
fn the_largest_surface_size_is_accepted() {
    let mut backend_device = backend::Device::new(Egl::new(), GlLibrary::load_failed());
    let surface = backend_device.create_surface(i32::MAX, i32::MAX);
    assert_eq!(surface.size(), (i32::MAX, i32::MAX));
}

#[test]
fn unbind_with_nothing_bound_returns_none() {
    let mut device = hardware_device();
    let descriptor = device.create_context_descriptor(&attrs()).unwrap();
    let mut context = device.create_context(&descriptor).unwrap();
    assert!(device.unbind_surface_from_context(&mut context).unwrap().is_none());
}

#[test]
fn make_context_current_and_make_no_context_current() {
    let mut device = hardware_device();
    let descriptor = device.create_context_descriptor(&attrs()).unwrap();
    let context = device.create_context(&descriptor).unwrap();

    match &device {
        Device::Hardware(b) => assert_eq!(b.driver().get_current_context(), 0),
        _ => unreachable!(),
    }
    device.make_context_current(&context).unwrap();
    match &device {
        Device::Hardware(b) => assert_ne!(b.driver().get_current_context(), 0),
        _ => unreachable!(),
    }
    device.make_no_context_current().unwrap();
    match &device {
        Device::Hardware(b) => assert_eq!(b.driver().get_current_context(), 0),
        _ => unreachable!(),
    }
}

#[test]
fn destroying_a_context_releases_it() {
    let mut device = hardware_device();
    let descriptor = device.create_context_descriptor(&attrs()).unwrap();
    let mut context = device.create_context(&descriptor).unwrap();
    device.make_context_current(&context).unwrap();
    device.destroy_context(&mut context).unwrap();
    match &device {
        Device::Hardware(b) => assert_eq!(b.driver().get_current_context(), 0),
        _ => unreachable!(),
    }
}

#[test]
fn context_ids_are_stable_and_distinct() {
    let mut device = hardware_device();
    let descriptor = device.create_context_descriptor(&attrs()).unwrap();
    let a = device.create_context(&descriptor).unwrap();
    let b = device.create_context(&descriptor).unwrap();
    assert_eq!(device.context_id(&a), device.context_id(&a));
    assert_ne!(device.context_id(&a), device.context_id(&b));
}

#[test]
fn descriptor_attributes_survive_the_round_trip() {
    let wanted = ContextAttributes { version: GLVersion { major: 3, minor: 1 } };
    let mut device = hardware_device();
    let descriptor = device.create_context_descriptor(&wanted).unwrap();
    assert_eq!(device.context_descriptor_attributes(&descriptor), wanted);

    let context = device.create_context(&descriptor).unwrap();
    let reported = device.context_descriptor(&context);
    assert_eq!(device.context_descriptor_attributes(&reported), wanted);
}

#[test]
fn unsupported_version_reports_context_creation_failed() {
    let mut device = hardware_device();
    let descriptor = device
        .create_context_descriptor(&ContextAttributes {
            version: GLVersion { major: 9, minor: 0 },
        })
        .unwrap();
    assert_eq!(device.create_context(&descriptor).err(), Some(Error::ContextCreationFailed));
}

#[test]
fn proc_addresses_resolve_through_the_device() {
    let lib = GlLibrary::load(vec![
        ("glViewport".to_string(), 7),
        ("glFlush".to_string(), 9),
    ]);
    let mut device = Device::Hardware(backend::Device::new(Egl::new(), lib));
    let descriptor = device.create_context_descriptor(&attrs()).unwrap();
    let context = device.create_context(&descriptor).unwrap();
    assert_eq!(device.get_proc_address(&context, "glViewport"), 7);
    assert_eq!(device.get_proc_address(&context, "glFlush"), 9);
    assert_eq!(device.get_proc_address(&context, "glBogus"), 0);
}

#[test]
fn adopting_the_current_hardware_context_yields_a_weak_pair() {
    let mut egl = Egl::new();
    let owner = NativeGLContext::create_headless(
        &mut egl,
        &GlType::Gles,
        GLVersion { major: 2, minor: 0 },
    )
    .unwrap();
    owner.make_current(&mut egl).unwrap();

    let r = Device::from_current_hardware_context(egl, GlLibrary::load_failed());
    let (device, context) = r.unwrap();
    assert!(matches!(device, Device::Hardware(_)));
    assert!(matches!(context, Context::Hardware(_)));
}

#[test]
fn adopting_with_nothing_current_fails() {
    let egl = Egl::new();
    let r = Device::from_current_software_context(egl, GlLibrary::load_failed());
    assert_eq!(r.err(), Some(Error::DeviceOpenFailed));
}
