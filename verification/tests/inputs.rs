use filepreview_rust::error::PreviewError;
use filepreview_rust::input::{
    classify_input, decode_base64_input, encode_preview, extract_base64_payload,
    guess_extension_from_base64, input_file_name, is_base64, preview_data_url, InputSource,
};
use filepreview_rust::types::OutputFormat;

#[test]
fn is_base64_accepts_padded_text() {
    assert!(is_base64("SGVsbG8="));
    assert!(is_base64("QUJD"));
    assert!(is_base64("a+b/"));
}

#[test]
fn is_base64_accepts_empty_text() {
    assert!(is_base64(""));
}

#[test]
fn is_base64_refuses_lengths_not_multiple_of_four() {
    assert!(!is_base64("abc"));
    assert!(!is_base64("abcde"));
}

#[test]
fn is_base64_refuses_other_characters() {
    assert!(!is_base64("ab!="));
    assert!(!is_base64("ab c"));
    assert!(!is_base64("a,bc"));
}

#[test]
fn is_base64_counts_bytes_and_unicode_letters() {
    // two letters of two bytes each: four bytes, all alphanumeric
    assert!(is_base64("éé"));
    // one two-byte letter and two ASCII letters: four bytes
    assert!(is_base64("éab"));
    // three two-byte letters: six bytes
    assert!(!is_base64("ééé"));
}

#[test]
fn guess_extension_recognises_data_url_types() {
    assert_eq!(guess_extension_from_base64("data:image/png;base64,AAAA"), "png");
    assert_eq!(guess_extension_from_base64("data:image/jpeg;base64,AAAA"), "jpg");
    assert_eq!(guess_extension_from_base64("data:image/jpg;base64,AAAA"), "jpg");
    assert_eq!(guess_extension_from_base64("data:image/gif;base64,AAAA"), "gif");
    assert_eq!(guess_extension_from_base64("data:application/pdf;base64,AAAA"), "pdf");
    assert_eq!(guess_extension_from_base64("data:video/mp4;base64,AAAA"), "mp4");
    assert_eq!(guess_extension_from_base64("data:text/plain;base64,AAAA"), "bin");
}

#[test]
fn guess_extension_needs_a_data_url() {
    assert_eq!(guess_extension_from_base64("image/png"), "bin");
    assert_eq!(guess_extension_from_base64("SGVsbG8="), "bin");
}

#[test]
fn guess_extension_prefers_png_wherever_it_occurs() {
    assert_eq!(guess_extension_from_base64("data:image/gif;base64,image/png"), "png");
}

#[test]
fn classify_input_orders_the_cases() {
    assert_eq!(classify_input("http://example.com/a.pdf"), InputSource::RemoteUrl);
    assert_eq!(classify_input("https://example.com/a.pdf"), InputSource::RemoteUrl);
    assert_eq!(classify_input("data:image/png;base64,AAAA"), InputSource::EncodedData);
    assert_eq!(classify_input("SGVsbG8="), InputSource::EncodedData);
    assert_eq!(classify_input("/tmp/file.pdf"), InputSource::LocalPath);
    assert_eq!(classify_input("abcd"), InputSource::EncodedData);
    assert_eq!(classify_input("ftp://host/x"), InputSource::LocalPath);
}

#[test]
fn input_file_name_uses_guessed_extension() {
    assert_eq!(input_file_name("data:image/png;base64,AAAA"), "input.png");
    assert_eq!(input_file_name("SGVsbG8="), "input.bin");
}

#[test]
fn payload_of_data_url_is_after_first_comma() {
    let p = extract_base64_payload("data:image/png;base64,AAAA").unwrap();
    assert_eq!(p, "AAAA");
}

#[test]
fn payload_stops_at_second_comma() {
    let p = extract_base64_payload("data:x,AA,BB").unwrap();
    assert_eq!(p, "AA");
    let q = extract_base64_payload("data:x,").unwrap();
    assert_eq!(q, "");
}

#[test]
fn payload_of_bare_text_is_whole() {
    let p = extract_base64_payload("SGVs,bG8=").unwrap();
    assert_eq!(p, "SGVs,bG8=");
}

#[test]
fn data_url_without_comma_is_invalid_input() {
    match extract_base64_payload("data:image/png") {
        Err(PreviewError::InvalidInput(m)) => assert_eq!(m, "Invalid base64 data format"),
        other => panic!("unexpected {:?}", other),
    }
    match decode_base64_input("data:image/png") {
        Err(PreviewError::InvalidInput(m)) => assert_eq!(m, "Invalid base64 data format"),
        other => panic!("unexpected {:?}", other),
    }
}

#[test]
fn decode_bare_base64() {
    assert_eq!(decode_base64_input("SGVsbG8=").unwrap(), b"Hello".to_vec());
}

#[test]
fn decode_data_url() {
    let v = decode_base64_input("data:text/plain;base64,SGVsbG8gd29ybGQ=").unwrap();
    assert_eq!(v, b"Hello world".to_vec());
}

#[test]
fn decode_refuses_invalid_base64() {
    match decode_base64_input("!!!!") {
        Err(PreviewError::InvalidInput(m)) => {
            assert!(m.starts_with("Invalid base64: "));
            assert!(m.len() > "Invalid base64: ".len());
        }
        other => panic!("unexpected {:?}", other),
    }
}

#[test]
fn preview_data_url_format() {
    assert_eq!(preview_data_url(OutputFormat::Jpg, "QUJD"), "data:image/jpg;base64,QUJD");
}

#[test]
fn encode_preview_builds_data_url() {
    assert_eq!(encode_preview(OutputFormat::Png, b"Hello"), "data:image/png;base64,SGVsbG8=");
    assert_eq!(encode_preview(OutputFormat::Gif, b""), "data:image/gif;base64,");
}

#[test]
fn preview_round_trip() {
    let bytes: Vec<u8> = (0u8..=255).collect();
    for format in [OutputFormat::Gif, OutputFormat::Jpg, OutputFormat::Png] {
        let url = encode_preview(format, &bytes);
        assert_eq!(decode_base64_input(&url).unwrap(), bytes);
    }
}

#[test]
fn preview_url_extension_is_guessed_back() {
    assert_eq!(guess_extension_from_base64(&encode_preview(OutputFormat::Png, b"xyz")), "png");
    assert_eq!(guess_extension_from_base64(&encode_preview(OutputFormat::Gif, b"xyz")), "gif");
}

#[test]
fn file_urls_and_paths_are_not_base64() {
    assert!(!is_base64("file:///data/a.pdf"));
    assert!(!is_base64("/data/a.pdf"));
    assert_eq!(classify_input("file:///data/a.pdf"), InputSource::LocalPath);
    assert_eq!(classify_input("/data/abc.pdf"), InputSource::LocalPath);
}
