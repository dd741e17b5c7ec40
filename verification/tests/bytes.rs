use non_empty_slice::{NonEmptyBytes, NonEmptySlice};

fn bytes(slice: &[u8]) -> NonEmptyBytes<'_> {
    NonEmptyBytes::from_slice(slice).unwrap()
}

#[test]
fn is_ascii_checks_every_byte() {
    assert!(bytes(b"nekit").is_ascii());
    assert!(bytes(&[0x7f]).is_ascii());
    assert!(!bytes(&[0x80]).is_ascii());
    assert!(!bytes(&[b'a', 0xff, b'b']).is_ascii());
}

#[test]
fn eq_ignore_ascii_case_compares_letters_only() {
    assert!(bytes(b"NeKiT").eq_ignore_ascii_case(&bytes(b"nEkIt")));
    assert!(!bytes(b"nekit").eq_ignore_ascii_case(&bytes(b"nekit!")));
    assert!(!bytes(b"[").eq_ignore_ascii_case(&bytes(b"{")));
    assert!(!bytes(b"@").eq_ignore_ascii_case(&bytes(b"`")));
    assert!(!bytes(&[0xc0]).eq_ignore_ascii_case(&bytes(&[0xe0])));
}

#[test]
fn eq_ignore_ascii_case_agrees_with_plain_bytes() {
    for first in 0..=u8::MAX {
        for second in 0..=u8::MAX {
            let left = [first];
            let right = [second];
            assert_eq!(
                bytes(&left).eq_ignore_ascii_case(&bytes(&right)),
                left.eq_ignore_ascii_case(&right)
            );
        }
    }
}

#[test]
fn case_conversion_agrees_with_plain_bytes() {
    let all: Vec<u8> = (0..=u8::MAX).collect();

    let mut expected = all.clone();
    expected.make_ascii_uppercase();
    let mut upper = all.clone();
    NonEmptySlice::from_mut_slice(&mut upper).unwrap().make_ascii_uppercase();
    assert_eq!(upper, expected);

    let mut expected = all.clone();
    expected.make_ascii_lowercase();
    let mut lower = all.clone();
    NonEmptySlice::from_mut_slice(&mut lower).unwrap().make_ascii_lowercase();
    assert_eq!(lower, expected);
}

#[test]
fn case_conversion_of_text() {
    let mut text = *b"Hello, World! 123";
    let mut view = NonEmptySlice::from_mut_slice(&mut text).unwrap();
    view.make_ascii_uppercase();
    assert_eq!(view.as_slice(), b"HELLO, WORLD! 123");
    view.make_ascii_lowercase();
    assert_eq!(&text, b"hello, world! 123");
}

#[test]
fn trim_removes_ascii_whitespace() {
    let text = bytes(b" \t\r\n\x0cnekit dev \n");
    assert_eq!(text.trim_ascii_start(), b"nekit dev \n");
    assert_eq!(text.trim_ascii_end(), b" \t\r\n\x0cnekit dev");
    assert_eq!(text.trim_ascii(), b"nekit dev");
}

#[test]
fn trim_of_whitespace_only_is_empty() {
    let blank = bytes(b" \t \n");
    assert_eq!(blank.trim_ascii_start(), b"");
    assert_eq!(blank.trim_ascii_end(), b"");
    assert_eq!(blank.trim_ascii(), b"");
}

#[test]
fn trim_keeps_vertical_tab() {
    let text = bytes(b"\x0bnekit\x0b");
    assert_eq!(text.trim_ascii(), b"\x0bnekit\x0b");
}

#[test]
fn trim_agrees_with_plain_bytes() {
    for first in 0..=u8::MAX {
        for last in [b' ', b'\n', b'x', 0x0b, 0x0c, 0xa0] {
            let array = [first, b' ', b'a', b' ', last];
            let text = bytes(&array);
            assert_eq!(text.trim_ascii_start(), array.trim_ascii_start());
            assert_eq!(text.trim_ascii_end(), array.trim_ascii_end());
            assert_eq!(text.trim_ascii(), array.trim_ascii());
        }
    }
}
