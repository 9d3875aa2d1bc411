use steam_dilemma::decimal::{parse_u64, u64_to_string};
use steam_dilemma::urls::{parse_room_id_from_url, proxy_image_url, room_id_from_pairs};

fn pairs(v: &[(&str, &str)]) -> Vec<(String, String)> {
    v.iter().map(|(a, b)| (a.to_string(), b.to_string())).collect()
}

#[test]
fn parse_u64_reads_plain_numbers() {
    assert_eq!(parse_u64("0"), Some(0));
    assert_eq!(parse_u64("42"), Some(42));
    assert_eq!(parse_u64("0042"), Some(42));
    assert_eq!(parse_u64("18446744073709551615"), Some(u64::MAX));
}

#[test]
fn parse_u64_accepts_one_leading_plus() {
    assert_eq!(parse_u64("+7"), Some(7));
    assert_eq!(parse_u64("++7"), None);
    assert_eq!(parse_u64("+"), None);
}

#[test]
fn parse_u64_rejects_other_texts() {
    assert_eq!(parse_u64(""), None);
    assert_eq!(parse_u64("abc"), None);
    assert_eq!(parse_u64("12a"), None);
    assert_eq!(parse_u64("-1"), None);
    assert_eq!(parse_u64(" 3"), None);
    assert_eq!(parse_u64("3 "), None);
    assert_eq!(parse_u64("1.0"), None);
}

#[test]
fn parse_u64_rejects_overflow() {
    assert_eq!(parse_u64("18446744073709551616"), None);
    assert_eq!(parse_u64("99999999999999999999999"), None);
}

#[test]
fn room_id_comes_from_the_first_matching_pair() {
    assert_eq!(room_id_from_pairs(&pairs(&[("room_id", "5")])), Some(5));
    assert_eq!(
        room_id_from_pairs(&pairs(&[("x", "1"), ("room_id", "9"), ("room_id", "10")])),
        Some(9)
    );
    assert_eq!(room_id_from_pairs(&pairs(&[("x", "1")])), None);
    assert_eq!(room_id_from_pairs(&Vec::new()), None);
    // the first match decides, even when its value does not parse
    assert_eq!(
        room_id_from_pairs(&pairs(&[("room_id", "abc"), ("room_id", "5")])),
        None
    );
}

#[test]
fn room_id_is_read_from_a_page_address() {
    assert_eq!(
        parse_room_id_from_url("http://127.0.0.1:3000/?room_id=5"),
        Some(5)
    );
    assert_eq!(
        parse_room_id_from_url("http://127.0.0.1:3000/lobby?x=1&room_id=77&room_id=9"),
        Some(77)
    );
    assert_eq!(parse_room_id_from_url("http://127.0.0.1:3000/"), None);
    assert_eq!(
        parse_room_id_from_url("http://127.0.0.1:3000/?room_id=nope"),
        None
    );
    assert_eq!(parse_room_id_from_url("not a url"), None);
}

#[test]
fn proxy_image_url_percent_encodes_the_target() {
    assert_eq!(
        proxy_image_url("https://media.example/a b.jpg"),
        "https://corsproxy.io/?https%3A%2F%2Fmedia.example%2Fa%20b.jpg"
    );
    assert_eq!(proxy_image_url(""), "https://corsproxy.io/?");
    assert_eq!(proxy_image_url("abc-_.~"), "https://corsproxy.io/?abc-_.~");
}

#[test]
fn numbers_are_written_in_plain_decimal() {
    assert_eq!(u64_to_string(0), "0");
    assert_eq!(u64_to_string(9), "9");
    assert_eq!(u64_to_string(10), "10");
    assert_eq!(u64_to_string(570), "570");
    assert_eq!(u64_to_string(1200), "1200");
    assert_eq!(u64_to_string(u64::MAX), "18446744073709551615");
}

#[test]
fn writing_then_reading_a_number_gives_it_back() {
    for n in [0u64, 1, 7, 42, 100, 99999, u64::MAX] {
        assert_eq!(parse_u64(&u64_to_string(n)), Some(n));
    }
}
