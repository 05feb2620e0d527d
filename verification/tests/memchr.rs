use cstr::memchr::memchr;

#[test]
fn memchr_returns_first_occurrence() {
    assert_eq!(memchr(5, &[1, 5, 2, 5]), Some(1));
    assert_eq!(memchr(1, &[1]), Some(0));
    assert_eq!(memchr(0, &[104, 105, 0]), Some(2));
    assert_eq!(memchr(9, &[9, 9, 9]), Some(0));
}

#[test]
fn memchr_not_found() {
    assert_eq!(memchr(7, &[1, 2, 3]), None);
    assert_eq!(memchr(0, &[255, 1]), None);
}

#[test]
fn memchr_empty_haystack_every_target() {
    for b in 0..=255u8 {
        assert_eq!(memchr(b, &[]), None);
    }
}
