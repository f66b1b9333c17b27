use surfman::context::NativeGLContext;
use surfman::resolver::{get_proc_address, GlLibrary};

#[test]
fn failed_load_keeps_returning_null() {
    let lib = GlLibrary::load_failed();
    assert_eq!(lib.resolve("glViewport"), 0);
    assert_eq!(lib.resolve("glViewport"), 0);
    assert_eq!(lib.resolve(""), 0);
}

#[test]
fn loaded_symbols_resolve_to_their_addresses() {
    let lib = GlLibrary::load(vec![
        ("glViewport".to_string(), 11),
        ("glFlush".to_string(), 22),
    ]);
    assert_eq!(lib.resolve("glViewport"), 11);
    assert_eq!(lib.resolve("glFlush"), 22);
}

#[test]
fn unknown_symbols_resolve_to_null() {
    let lib = GlLibrary::load(vec![("glViewport".to_string(), 11)]);
    assert_eq!(lib.resolve("glVievvport"), 0);
    assert_eq!(lib.resolve(""), 0);
}

#[test]
fn empty_table_resolves_everything_to_null() {
    let lib = GlLibrary::load(Vec::new());
    assert_eq!(lib.resolve("glViewport"), 0);
}

#[test]
fn first_entry_of_a_name_wins() {
    let lib = GlLibrary::load(vec![
        ("glViewport".to_string(), 11),
        ("glViewport".to_string(), 99),
    ]);
    assert_eq!(lib.resolve("glViewport"), 11);
}

#[test]
fn the_free_function_and_the_context_method_agree() {
    let lib = GlLibrary::load(vec![("eglCreateImageKHR".to_string(), 33)]);
    assert_eq!(get_proc_address(&lib, "eglCreateImageKHR"), 33);
    assert_eq!(NativeGLContext::get_proc_address(&lib, "eglCreateImageKHR"), 33);
    assert_eq!(get_proc_address(&lib, "eglDestroyImageKHR"), 0);
}
