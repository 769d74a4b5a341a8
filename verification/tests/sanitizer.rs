use script_bridge::sandbox::SandboxRoot;
use script_bridge::sanitize::{
    accept, locate, locate_decoded, may_execute, FileProbe, SanitizeError,
};

fn root() -> SandboxRoot {
    SandboxRoot::new("/srv/scripts".to_string()).expect("a root with a name")
}

fn probe(resolved: Option<&str>, is_file: bool, executable: bool) -> FileProbe {
    FileProbe { resolved: resolved.map(|p| p.to_string()), is_file, executable }
}

#[test]
fn plain_request_path_is_put_below_the_root() {
    assert_eq!(locate(&root(), "/hello.sh"), Ok("/srv/scripts/hello.sh".to_string()));
    assert_eq!(locate(&root(), "/a/b/c"), Ok("/srv/scripts/a/b/c".to_string()));
}

#[test]
fn request_path_is_decoded() {
    assert_eq!(locate(&root(), "/my%20script.sh"), Ok("/srv/scripts/my script.sh".to_string()));
    assert_eq!(locate(&root(), "/%C3%A9.sh"), Ok("/srv/scripts/é.sh".to_string()));
    assert_eq!(locate(&root(), "/a+b"), Ok("/srv/scripts/a+b".to_string()));
}

#[test]
fn request_path_is_decoded_before_it_is_cleaned() {
    assert_eq!(locate(&root(), "/%2e%2e/%2e%2e/etc/passwd"), Ok("/srv/scripts/etc/passwd".to_string()));
    assert_eq!(locate(&root(), "/a%2F..%2Fb"), Ok("/srv/scripts/b".to_string()));
    assert_eq!(locate(&root(), "/a/%2E/b"), Ok("/srv/scripts/a/b".to_string()));
}

#[test]
fn traversal_never_leaves_the_root() {
    let scripts = root();
    for path in ["/../../etc/passwd", "/..", "/a/../../..", "/%2e%2e/%2e%2e", "/..%2f..%2fetc"] {
        let found = locate(&scripts, path).expect("decodable");
        assert!(scripts.contains(&found), "{} gave {}", path, found);
        assert!(found.starts_with("/srv/scripts/"));
        assert!(!found.split('/').any(|segment| segment == ".."));
    }
}

fn said_of(bytes: &[u8]) -> String {
    String::from_utf8(bytes.to_vec()).unwrap_err().to_string()
}

#[test]
fn path_that_decodes_to_no_text_is_a_decode_error() {
    assert_eq!(
        locate(&root(), "/%ff"),
        Err(SanitizeError::DecodeError(said_of(&[b'/', 0xff])))
    );
    assert_eq!(
        locate(&root(), "/a/%C3"),
        Err(SanitizeError::DecodeError(said_of(&[b'/', b'a', b'/', 0xc3])))
    );
}

#[test]
fn decode_error_holds_what_the_decoder_said() {
    match locate(&root(), "/%ff") {
        Err(SanitizeError::DecodeError(said)) => {
            assert_eq!(said, "invalid utf-8 sequence of 1 bytes from index 1");
        }
        other => panic!("unexpected {:?}", other),
    }
}

#[test]
fn backslashes_in_a_request_path_separate() {
    assert_eq!(locate(&root(), "/a\\..\\..\\b"), Ok("/srv/scripts/b".to_string()));
    assert_eq!(locate(&root(), "/..%5C..%5Cetc"), Ok("/srv/scripts/etc".to_string()));
}

#[test]
fn stray_percent_signs_are_kept() {
    assert_eq!(locate(&root(), "/100%"), Ok("/srv/scripts/100%".to_string()));
    assert_eq!(locate(&root(), "/%zz"), Ok("/srv/scripts/%zz".to_string()));
}

#[test]
fn locate_decoded_takes_the_decoders_outcome() {
    assert_eq!(
        locate_decoded(&root(), Ok("/a/../b c".to_string())),
        Ok("/srv/scripts/b c".to_string())
    );
    assert_eq!(
        locate_decoded(&root(), Err("no text".to_string())),
        Err(SanitizeError::DecodeError("no text".to_string()))
    );
}

#[test]
fn any_execute_bit_makes_a_file_executable() {
    assert!(may_execute(0o755));
    assert!(may_execute(0o100));
    assert!(may_execute(0o010));
    assert!(may_execute(0o001));
    assert!(may_execute(0o100644 | 0o001));
    assert!(!may_execute(0o644));
    assert!(!may_execute(0o666));
    assert!(!may_execute(0));
    assert!(!may_execute(0o100644));
}

#[test]
fn executable_file_in_the_root_is_accepted() {
    let script = accept(&root(), probe(Some("/srv/scripts/hello.sh"), true, true));
    match script {
        Ok(path) => assert_eq!(path.as_str(), "/srv/scripts/hello.sh"),
        Err(error) => panic!("refused: {:?}", error),
    }
}

#[test]
fn missing_file_is_not_found() {
    assert!(matches!(accept(&root(), probe(None, false, false)), Err(SanitizeError::NotFound)));
    assert!(matches!(accept(&root(), probe(None, true, true)), Err(SanitizeError::NotFound)));
}

#[test]
fn file_outside_the_root_is_an_escape() {
    for outside in ["/etc/passwd", "/srv/scripts-old/x.sh", "/srv", "C:/Windows/cmd.exe", "x.sh"] {
        let script = accept(&root(), probe(Some(outside), true, true));
        assert!(matches!(script, Err(SanitizeError::PathEscape)), "{}", outside);
    }
}

#[test]
fn escape_is_found_before_anything_else() {
    let script = accept(&root(), probe(Some("/etc"), false, false));
    assert!(matches!(script, Err(SanitizeError::PathEscape)));
}

#[test]
fn directory_is_not_found() {
    let script = accept(&root(), probe(Some("/srv/scripts/dir"), false, true));
    assert!(matches!(script, Err(SanitizeError::NotFound)));
    let script = accept(&root(), probe(Some("/srv/scripts"), false, false));
    assert!(matches!(script, Err(SanitizeError::NotFound)));
}

#[test]
fn file_without_execute_permission_is_not_executable() {
    let script = accept(&root(), probe(Some("/srv/scripts/data.txt"), true, false));
    assert!(matches!(script, Err(SanitizeError::NotExecutable)));
}
