use curl::easy::Easy;
use transfer_bridge::{curl_escape, plus_for_spaces};

#[test]
fn escaped_space_becomes_plus() {
    assert_eq!(plus_for_spaces(b"a%20b"), b"a+b".to_vec());
}

#[test]
fn every_escaped_space_is_replaced() {
    assert_eq!(plus_for_spaces(b"%20a%20%20b%20"), b"+a++b+".to_vec());
}

#[test]
fn text_without_escaped_spaces_is_unchanged() {
    assert_eq!(plus_for_spaces(b"name=%2Fvalue%2"), b"name=%2Fvalue%2".to_vec());
    assert_eq!(plus_for_spaces(b"%2"), b"%2".to_vec());
    assert_eq!(plus_for_spaces(b""), Vec::<u8>::new());
}

#[test]
fn replacement_does_not_create_new_matches() {
    assert_eq!(plus_for_spaces(b"%2%200"), b"%2+0".to_vec());
    assert_eq!(plus_for_spaces(b"%%2020"), b"%+20".to_vec());
}

#[test]
fn only_the_three_bytes_match() {
    assert_eq!(plus_for_spaces(b"%21%2020%30"), b"%21+20%30".to_vec());
}

#[test]
fn curl_escape_of_nothing_is_nothing() {
    let mut easy = Easy::new();
    assert_eq!(curl_escape(&mut easy, b""), Vec::<u8>::new());
}

#[test]
fn curl_escape_writes_spaces_as_plus() {
    let mut easy = Easy::new();
    assert_eq!(curl_escape(&mut easy, b"a b"), b"a+b".to_vec());
    assert_eq!(curl_escape(&mut easy, b"two  spaces"), b"two++spaces".to_vec());
}

#[test]
fn curl_escape_keeps_other_escapes() {
    let mut easy = Easy::new();
    assert_eq!(curl_escape(&mut easy, b"k=v&x y"), b"k%3Dv%26x+y".to_vec());
    assert_eq!(curl_escape(&mut easy, b"plain-text_1.~"), b"plain-text_1.~".to_vec());
}

#[test]
fn no_escaped_space_is_left_and_nothing_grows() {
    let inputs: [&[u8]; 6] = [b"%20", b"%%2020%20", b"%2%2%200", b"%20%2%20", b"%25%32%30", b"%2020%20%"];
    for input in inputs {
        let out = plus_for_spaces(input);
        assert!(out.len() <= input.len());
        assert!(!out.windows(3).any(|w| w == b"%20"));
    }
}

#[test]
fn a_lone_escaped_space_is_one_plus() {
    assert_eq!(plus_for_spaces(b"%20"), vec![0x2b]);
    assert_eq!(plus_for_spaces(b"%2020"), b"+20".to_vec());
}

#[test]
fn curl_escape_writes_upper_case_hexadecimal() {
    let mut easy = Easy::new();
    assert_eq!(curl_escape(&mut easy, &[0x00, 0xff, 0x7f, 0x2f]), b"%00%FF%7F%2F".to_vec());
    assert_eq!(curl_escape(&mut easy, b"+"), b"%2B".to_vec());
}

#[test]
fn curl_escape_of_a_literal_escaped_space_is_not_a_plus() {
    let mut easy = Easy::new();
    assert_eq!(curl_escape(&mut easy, b"%20"), b"%2520".to_vec());
    assert_eq!(curl_escape(&mut easy, b" %20 "), b"+%2520+".to_vec());
}

#[test]
fn curl_escape_keeps_every_unreserved_byte() {
    let mut easy = Easy::new();
    let unreserved = b"ABCDEFGHIJKLMNOPQRSTUVWXYZabcdefghijklmnopqrstuvwxyz0123456789-._~";
    assert_eq!(curl_escape(&mut easy, unreserved), unreserved.to_vec());
    for byte in 0..=255u8 {
        let out = curl_escape(&mut easy, &[byte]);
        if unreserved.contains(&byte) {
            assert_eq!(out, vec![byte]);
        } else if byte == b' ' {
            assert_eq!(out, b"+".to_vec());
        } else {
            assert_eq!(out, format!("%{:02X}", byte).into_bytes());
        }
    }
}
