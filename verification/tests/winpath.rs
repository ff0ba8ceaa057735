use plz::winpath::{needs_translation, to_native, CygpathReply};

#[test]
fn native_and_relative_paths_are_left_alone() {
    // No `cygpath` is asked about these, so the answer is the same on every
    // platform.
    assert_eq!(to_native(r"C:\Users\name\.bashrc", None), None);
    assert_eq!(to_native("plz.abc123", None), None);
    assert_eq!(to_native("", None), None);
}

#[test]
fn a_posix_path_takes_the_native_form_cygpath_gives() {
    assert!(needs_translation("/home/name"));
    let reply = CygpathReply { success: true, stdout: "C:\\cygwin64\\home\\name\r\n".into() };
    assert_eq!(to_native("/home/name", Some(reply)).as_deref(), Some("C:\\cygwin64\\home\\name"));
    let failed = CygpathReply { success: false, stdout: "C:\\x".into() };
    assert_eq!(to_native("/home/name", Some(failed)), None);
    let silent = CygpathReply { success: true, stdout: "  \n".into() };
    assert_eq!(to_native("/home/name", Some(silent)), None);
    assert_eq!(to_native("/home/name", None), None);
}
