use surfman::context::{NativeGLContext, NativeGLContextHandle, GLES_CONFIG};
use surfman::egl::Egl;
use surfman::{GLVersion, GlType};

fn baseline() -> GLVersion {
    GLVersion { major: 2, minor: 0 }
}

#[test]
fn headless_creation_and_current_flow() {
    // A 16x16 off-screen context, no sharing, baseline client version:
    // creation succeeds, the context is not current until made current,
    // and unbinding makes it non-current again.
    let mut egl = Egl::new();
    let ctx = NativeGLContext::create_headless(&mut egl, &GlType::Gles, baseline()).unwrap();
    assert!(!ctx.is_current(&egl));
    ctx.make_current(&mut egl).unwrap();
    assert!(ctx.is_current(&egl));
    ctx.unbind(&mut egl).unwrap();
    assert!(!ctx.is_current(&egl));
}

#[test]
fn make_current_then_is_current() {
    let mut egl = Egl::new();
    let a = NativeGLContext::create_headless(&mut egl, &GlType::Gles, baseline()).unwrap();
    let b = NativeGLContext::create_headless(&mut egl, &GlType::Gles, baseline()).unwrap();
    a.make_current(&mut egl).unwrap();
    assert!(a.is_current(&egl));
    b.make_current(&mut egl).unwrap();
    assert!(b.is_current(&egl));
    assert!(!a.is_current(&egl));
}

#[test]
fn unbind_of_non_current_context_is_noop() {
    let mut egl = Egl::new();
    let a = NativeGLContext::create_headless(&mut egl, &GlType::Gles, baseline()).unwrap();
    let b = NativeGLContext::create_headless(&mut egl, &GlType::Gles, baseline()).unwrap();
    a.make_current(&mut egl).unwrap();
    // b is not current: unbinding it succeeds and leaves the thread's
    // current-context slot untouched.
    assert!(b.unbind(&mut egl).is_ok());
    assert!(a.is_current(&egl));
    assert_eq!(
        NativeGLContext::current_handle(&egl),
        Some(a.handle())
    );
}

#[test]
fn weak_context_destruction_preserves_the_observed_context() {
    let mut egl = Egl::new();
    let a = NativeGLContext::create_headless(&mut egl, &GlType::Gles, baseline()).unwrap();
    a.make_current(&mut egl).unwrap();

    let weak = NativeGLContext::current(&egl).unwrap();
    assert_eq!(weak.handle(), a.handle());

    // Destroying the weak observer releases nothing: the context is
    // still live, still current, and a subsequent query still yields an
    // equivalent handle.
    weak.destroy(&mut egl);
    assert!(a.is_current(&egl));
    assert!(egl.is_live_context(a.handle().0));
    assert_eq!(NativeGLContext::current_handle(&egl), Some(a.handle()));
}

#[test]
fn owning_context_destruction_releases_resources() {
    let mut egl = Egl::new();
    let a = NativeGLContext::create_headless(&mut egl, &GlType::Gles, baseline()).unwrap();
    a.make_current(&mut egl).unwrap();
    let id = a.handle().0;
    a.destroy(&mut egl);
    assert!(!egl.is_live_context(id));
    assert_eq!(NativeGLContext::current_handle(&egl), None);
}

#[test]
fn current_handle_is_none_when_nothing_is_current() {
    let egl = Egl::new();
    assert_eq!(NativeGLContext::current_handle(&egl), None);
    assert!(NativeGLContext::current(&egl).is_none());
}

#[test]
fn handle_carries_context_then_display() {
    let mut egl = Egl::new();
    let a = NativeGLContext::create_headless(&mut egl, &GlType::Gles, baseline()).unwrap();
    a.make_current(&mut egl).unwrap();
    let NativeGLContextHandle(context, display) = a.handle();
    assert_eq!(egl.get_current_context(), context);
    assert_eq!(egl.get_current_display(), display);
}

#[test]
fn strict_driver_refuses_direct_shared_request() {
    // A driver that is strict about the client version of shared
    // contexts refuses the raw request at version 2...
    let mut egl = Egl::with_quirks(true, false);
    let base = NativeGLContext::create_headless(&mut egl, &GlType::Gles, baseline()).unwrap();
    let share = base.handle().0;
    let display = egl.get_default_display();
    let direct = egl.create_context(display, GLES_CONFIG, share, 2);
    assert_eq!(direct, 0);
}

#[test]
fn shared_creation_retries_with_version_3() {
    // ...yet creation through the context layer still succeeds, because
    // it retries once with client version 3.
    let mut egl = Egl::with_quirks(true, false);
    let base = NativeGLContext::create_headless(&mut egl, &GlType::Gles, baseline()).unwrap();
    let handle = base.handle();
    let shared =
        NativeGLContext::create_shared(&mut egl, Some(&handle), &GlType::Gles, baseline());
    assert!(shared.is_ok());
}

#[test]
fn failed_creation_destroys_the_given_surface() {
    // Sharing with a context that does not exist fails even after the
    // retry, and the surface handed in is destroyed: no leak on failure.
    let mut egl = Egl::new();
    let display = egl.get_default_display();
    let surface = egl.create_pbuffer_surface(display, 16, 16);
    assert!(egl.is_live_surface(surface));
    let r = NativeGLContext::new(&mut egl, Some(999), display, surface, GLES_CONFIG, 2);
    assert!(r.is_err());
    assert!(!egl.is_live_surface(surface));
}

#[test]
fn sharing_with_a_dead_context_fails() {
    let mut egl = Egl::new();
    let handle = NativeGLContextHandle(12345, 1);
    let r = NativeGLContext::create_shared(&mut egl, Some(&handle), &GlType::Gles, baseline());
    assert!(r.is_err());
}

#[test]
fn unsupported_client_version_is_refused() {
    let mut egl = Egl::new();
    let r = NativeGLContext::create_headless(
        &mut egl,
        &GlType::Gles,
        GLVersion { major: 9, minor: 0 },
    );
    assert!(r.is_err());
}

#[test]
fn rejected_bind_reports_failure_and_leaves_the_slot() {
    let mut egl = Egl::with_quirks(false, true);
    let a = NativeGLContext::create_headless(&mut egl, &GlType::Gles, baseline()).unwrap();
    assert!(a.make_current(&mut egl).is_err());
    assert!(!a.is_current(&egl));
    assert_eq!(NativeGLContext::current_handle(&egl), None);
}
