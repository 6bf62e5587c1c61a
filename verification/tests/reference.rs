use liboci::{Base64, ImageRef, Timestamp};

#[test]
fn v2_url_over_tls() {
    let image = ImageRef::new("registry.example.com".to_string(), "library/ubuntu".to_string(), true);
    let url = image.get_v2_url().unwrap();
    assert_eq!(url.as_str(), "https://registry.example.com/v2/library/ubuntu");
    assert_eq!(image.v2_string(), "https://registry.example.com/v2/library/ubuntu");
}

#[test]
fn v2_url_without_tls() {
    let image = ImageRef::new(String::from("localhost:5000"), String::from("app"), false);
    let url = image.get_v2_url().unwrap();
    assert_eq!(url.as_str(), "http://localhost:5000/v2/app");
    assert_eq!(url.port(), Some(5000));
}

#[test]
fn v2_url_of_a_bad_host_fails() {
    let image = ImageRef::new("example.com:notaport".to_string(), "app".to_string(), true);
    assert!(image.get_v2_url().is_err());
    let image = ImageRef::new("[::1".to_string(), "app".to_string(), false);
    assert!(image.get_v2_url().is_err());
}

#[test]
fn image_ref_text() {
    let image = ImageRef::new("docker.io".to_string(), "library/ubuntu".to_string(), true);
    assert_eq!(image.to_string(), "docker.io/library/ubuntu");
}

#[test]
fn base64_encodes_and_decodes() {
    let data = Base64::new(vec![104, 101, 108, 108, 111]);
    assert_eq!(data.encode(), "aGVsbG8=");
    let back = Base64::decode("aGVsbG8=").unwrap();
    assert_eq!(back.as_bytes(), &vec![104u8, 101, 108, 108, 111]);
    assert_eq!(Base64::decode("").unwrap().into_bytes(), Vec::<u8>::new());
}

#[test]
fn base64_rejects_other_text() {
    assert!(Base64::decode("not base64!").is_err());
    assert!(Base64::decode("aGVsbG8").is_err());
    assert!(Base64::decode("aGVsbG9=").is_err());
}

#[test]
fn timestamp_reads_and_writes_rfc3339() {
    let t = Timestamp::parse("2023-07-06T13:22:24.821560577Z").unwrap();
    assert_eq!(t.seconds(), 1688649744);
    assert_eq!(t.nanos(), 821560577);
    assert_eq!(t.to_rfc3339(), "2023-07-06T13:22:24.821560577Z");
    let t = Timestamp::parse("1970-01-01T00:00:00Z").unwrap();
    assert_eq!((t.seconds(), t.nanos()), (0, 0));
    assert_eq!(t.to_rfc3339(), "1970-01-01T00:00:00Z");
}

#[test]
fn timestamp_is_converted_to_utc() {
    let t = Timestamp::parse("2023-07-06T15:22:24+02:00").unwrap();
    assert_eq!(t.to_rfc3339(), "2023-07-06T13:22:24Z");
}

#[test]
fn timestamp_rejects_other_text() {
    assert!(Timestamp::parse("yesterday").is_none());
    assert!(Timestamp::parse("2023-07-06").is_none());
    assert!(Timestamp::parse("").is_none());
}
