use cstr::{CStr, CString, FromBytesWithNulError};

#[test]
fn cstr_from_terminated_bytes() {
    let bytes: [u8; 3] = [104, 105, 0];
    let c = match CStr::from_bytes_with_nul(&bytes) {
        Ok(c) => c,
        Err(_) => panic!("construction over \"hi\\0\" must succeed"),
    };
    assert_eq!(c.len(), 2);
    assert_eq!(c.to_bytes(), &[104, 105]);
    assert_eq!(c.to_bytes_with_nul(), &[104, 105, 0]);
}

#[test]
fn cstr_interior_nul_rejected() {
    let r = CStr::from_bytes_with_nul(&[104, 0, 105]);
    assert!(matches!(r, Err(FromBytesWithNulError::InteriorNul)));
}

#[test]
fn cstr_interior_nul_with_trailing_nul_rejected() {
    let r = CStr::from_bytes_with_nul(&[104, 0, 0]);
    assert!(matches!(r, Err(FromBytesWithNulError::InteriorNul)));
}

#[test]
fn cstr_missing_nul_rejected() {
    let r = CStr::from_bytes_with_nul(&[104, 105]);
    assert!(matches!(r, Err(FromBytesWithNulError::NotNulTerminated)));
}

#[test]
fn cstr_empty_input_rejected() {
    let r = CStr::from_bytes_with_nul(&[]);
    assert!(matches!(r, Err(FromBytesWithNulError::NotNulTerminated)));
}

#[test]
fn cstr_lone_terminator_is_empty_string() {
    let c = match CStr::from_bytes_with_nul(&[0]) {
        Ok(c) => c,
        Err(_) => panic!("a lone terminator is a valid empty C string"),
    };
    assert_eq!(c.len(), 0);
    assert_eq!(c.to_bytes(), &[] as &[u8]);
    assert_eq!(c.to_bytes_with_nul(), &[0]);
}

#[test]
fn cstr_trusted_path() {
    let bytes: [u8; 2] = [97, 0];
    let c = CStr::from_bytes_with_nul_unchecked(&bytes);
    assert_eq!(c.len(), 1);
    assert_eq!(c.to_bytes(), &[97]);
}

#[test]
fn cstring_roundtrip_preserves_content() {
    let s = match CString::new(vec![1, 2, 3]) {
        Ok(s) => s,
        Err(_) => panic!("content without a zero byte must be accepted"),
    };
    assert_eq!(s.as_bytes_with_nul(), &[1, 2, 3, 0]);
    let view = s.as_c_str();
    assert_eq!(view.len(), 3);
    assert_eq!(view.to_bytes(), &[1, 2, 3]);
    assert_eq!(view.to_bytes_with_nul(), &[1, 2, 3, 0]);
    assert_eq!(s.as_bytes(), &[1, 2, 3]);
}

#[test]
fn cstring_from_empty_content() {
    let s = match CString::new(vec![]) {
        Ok(s) => s,
        Err(_) => panic!("empty content must be accepted"),
    };
    assert_eq!(s.as_bytes_with_nul(), &[0]);
    assert_eq!(s.as_bytes(), &[] as &[u8]);
    assert_eq!(s.as_c_str().len(), 0);
}

#[test]
fn cstring_embedded_nul_rejected() {
    let e = match CString::new(vec![97, 0, 98]) {
        Ok(_) => panic!("content with an embedded zero byte must be rejected"),
        Err(e) => e,
    };
    assert_eq!(e.nul_position(), 1);
    assert_eq!(e.into_vec(), vec![97, 0, 98]);
}

#[test]
fn cstring_leading_nul_rejected() {
    let e = match CString::new(vec![0, 7]) {
        Ok(_) => panic!("content with a leading zero byte must be rejected"),
        Err(e) => e,
    };
    assert_eq!(e.nul_position(), 0);
    assert_eq!(e.into_vec(), vec![0, 7]);
}
