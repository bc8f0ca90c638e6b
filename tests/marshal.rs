use vlc::{from_cstr, from_cstr_ref, show_result, to_cstr, InternalError};

#[test]
fn to_cstr_appends_one_terminator() {
    let c = to_cstr("abc").unwrap();
    assert_eq!(c.as_bytes_with_nul(), b"abc\0");
    assert_eq!(c.len(), 3);
}

#[test]
fn to_cstr_of_empty_string() {
    let c = to_cstr("").unwrap();
    assert_eq!(c.as_bytes_with_nul(), b"\0");
    assert_eq!(c.len(), 0);
}

#[test]
fn to_cstr_rejects_embedded_nul() {
    let e = to_cstr("ab\0cd").err().unwrap();
    assert_eq!(e.position, 2);
    let e = to_cstr("\0").err().unwrap();
    assert_eq!(e.position, 0);
    let e = to_cstr("end\0").err().unwrap();
    assert_eq!(e.position, 3);
}

#[test]
fn to_cstr_keeps_multibyte_text() {
    let c = to_cstr("héllo ✓").unwrap();
    let mut expected = "héllo ✓".as_bytes().to_vec();
    expected.push(0);
    assert_eq!(c.as_bytes_with_nul(), &expected[..]);
}

#[test]
fn round_trip_through_native_form() {
    for s in ["", "name", "héllo ✓", "path/to/file.mkv", "日本語"] {
        let c = to_cstr(s).unwrap();
        assert_eq!(from_cstr(Some(c.as_bytes_with_nul())), Some(s.to_string()));
    }
}

#[test]
fn from_cstr_of_null_is_none() {
    assert_eq!(from_cstr(None), None);
    assert!(from_cstr_ref(None).is_none());
}

#[test]
fn from_cstr_stops_at_first_nul() {
    assert_eq!(from_cstr(Some(b"abc\0def\0")), Some("abc".to_string()));
    assert_eq!(from_cstr(Some(b"\0abc")), Some(String::new()));
}

#[test]
fn from_cstr_without_terminator_reads_whole_buffer() {
    assert_eq!(from_cstr(Some(b"xyz")), Some("xyz".to_string()));
}

#[test]
fn from_cstr_replaces_invalid_utf8() {
    let r = from_cstr(Some(b"a\xffb\0")).unwrap();
    assert_eq!(r, "a\u{FFFD}b");
}

#[test]
fn from_cstr_ref_borrows_the_text() {
    let r = from_cstr_ref(Some(b"hello\0world")).unwrap();
    assert_eq!(&*r, "hello");
    let r = from_cstr_ref(Some(b"\xc3\0")).unwrap();
    assert_eq!(&*r, "\u{FFFD}");
}

#[test]
fn show_result_of_null_is_failure() {
    assert_eq!(show_result(None), Err(InternalError));
    assert_eq!(show_result(Some(b"{ \"media\": 1 }\0")), Ok("{ \"media\": 1 }".to_string()));
}

#[test]
fn instance_args_are_marshaled_in_order() {
    let args = vec!["--no-video".to_string(), "--quiet".to_string()];
    let m = vlc::Instance::marshal_args(&args).ok().unwrap();
    assert_eq!(m.len(), 2);
    assert_eq!(m[0].as_bytes_with_nul(), b"--no-video\0");
    assert_eq!(m[1].as_bytes_with_nul(), b"--quiet\0");
    assert!(vlc::Instance::marshal_args(&Vec::new()).ok().unwrap().is_empty());
    let bad = vec!["--ok".to_string(), "--b\0ad".to_string()];
    assert_eq!(vlc::marshal_strings(&bad).err().unwrap().position, 3);
}
