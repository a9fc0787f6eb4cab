use base64::Engine;
use rcli::{
    expiry_from, pair_record, parse_duration, parse_exp, process_decode, process_encode,
    Base64Format, TextError,
};

#[test]
fn durations_in_each_unit() {
    assert_eq!(parse_duration("30s"), Ok(30));
    assert_eq!(parse_duration("15m"), Ok(900));
    assert_eq!(parse_duration("2h"), Ok(7200));
    assert_eq!(parse_duration("1d"), Ok(86400));
    assert_eq!(parse_duration("007s"), Ok(7));
}

#[test]
fn malformed_durations() {
    assert!(parse_duration("").is_err());
    assert!(parse_duration("d").is_err());
    assert!(parse_duration("10").is_err());
    assert!(parse_duration("10w").is_err());
    assert!(parse_duration("1.5h").is_err());
    assert!(parse_duration("-1d").is_err());
    assert!(parse_duration("99999999999999999999999s").is_err());
    assert!(parse_duration(&format!("{}d", usize::MAX / 86400 + 1)).is_err());
}

#[test]
fn expiry_adds_the_duration() {
    assert_eq!(expiry_from("1m", 1000), Ok(1060));
    assert!(expiry_from("1s", usize::MAX).is_err());
    assert!(expiry_from("x", 0).is_err());
    let e = parse_exp("1d").unwrap();
    assert!(e > 86400);
    assert!(parse_exp("soon").is_err());
}

#[test]
fn base64_commands_use_the_chosen_alphabet() {
    let data = [0xfbu8, 0xff, 0x01];
    assert_eq!(process_encode(&data, Base64Format::Standard), "+/8B");
    assert_eq!(process_encode(&data, Base64Format::UrlSafe), "-_8B");
    assert_eq!(process_encode(b"hi", Base64Format::Standard), "aGk=");
    assert_eq!(process_encode(b"hi", Base64Format::UrlSafe), "aGk");
    assert_eq!(process_decode(b"aGk=", Base64Format::Standard), Ok(b"hi".to_vec()));
    assert_eq!(process_decode(b"aGk", Base64Format::UrlSafe), Ok(b"hi".to_vec()));
    assert_eq!(process_decode(b"aGk", Base64Format::Standard), Err(TextError::EncodingError));
    assert_eq!(process_decode(b"+/8B", Base64Format::UrlSafe), Err(TextError::EncodingError));
    let long: Vec<u8> = (0..=255).collect();
    let text = process_encode(&long, Base64Format::Standard);
    assert_eq!(text, base64::engine::general_purpose::STANDARD.encode(&long));
    assert_eq!(process_decode(text.as_bytes(), Base64Format::Standard), Ok(long));
}

#[test]
fn csv_records_pair_with_headers() {
    let headers = vec!["name".to_string(), "age".to_string(), "city".to_string()];
    let record = vec!["ann".to_string(), "30".to_string()];
    assert_eq!(
        pair_record(&headers, &record),
        vec![("name".to_string(), "ann".to_string()), ("age".to_string(), "30".to_string())]
    );
    assert!(pair_record(&vec![], &record).is_empty());
}

#[test]
fn server_reply_decisions() {
    assert_eq!(rcli::reply_for(false, false), rcli::Reply::NotFound);
    assert_eq!(rcli::reply_for(false, true), rcli::Reply::NotFound);
    assert_eq!(rcli::reply_for(true, true), rcli::Reply::Listing);
    assert_eq!(rcli::reply_for(true, false), rcli::Reply::Contents);
}

#[test]
fn directory_listing_html() {
    assert_eq!(
        rcli::dir_listing(&vec![]),
        "<html><head><title>Directory listing</title></head><body><ul></ul></body></html>"
    );
    let entries = vec![
        ("./a.txt".to_string(), "a.txt".to_string()),
        ("./src".to_string(), "src".to_string()),
    ];
    assert_eq!(
        rcli::dir_listing(&entries),
        "<html><head><title>Directory listing</title></head><body><ul>\
<li><a href=\"./a.txt\">a.txt</a></li><li><a href=\"./src\">src</a></li>\
</ul></body></html>"
    );
}
