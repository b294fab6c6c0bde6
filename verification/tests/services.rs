use rustshot::chat::chat_error_message;
use rustshot::chat::classify_status;
use rustshot::chat::combine_query;
use rustshot::chat::ChatError;
use rustshot::ocr::content_type_for_path;
use rustshot::ocr::extract_parsed_text;
use rustshot::ocr::image_payload;
use rustshot::ocr::str_ends_with;
use rustshot::ocr::OcrError;
use rustshot::ocr::OCRProcessor;
use rustshot::text::u32_decimal;
use rustshot::screenshot::Screenshot;

#[test]
fn suffix_test_matches_string_ends() {
    assert!(str_ends_with("shot.png", ".png"));
    assert!(str_ends_with(".png", ".png"));
    assert!(!str_ends_with("png", ".png"));
    assert!(!str_ends_with("shot.png.bak", ".png"));
    assert!(!str_ends_with("", ".png"));
}

#[test]
fn content_type_follows_the_file_suffix() {
    assert_eq!(content_type_for_path("target/shot.png"), Some("image/png"));
    assert_eq!(content_type_for_path("a.jpg"), Some("image/jpeg"));
    assert_eq!(content_type_for_path("a.jpeg"), Some("image/jpeg"));
    assert_eq!(content_type_for_path("a.gif"), None);
    assert_eq!(content_type_for_path("apng"), None);
}

#[test]
fn image_payload_is_the_data_uri_of_the_bytes() {
    let bytes: Vec<u8> = b"hello world".to_vec();
    let payload = image_payload("shot.png", &bytes).unwrap();
    // the same bytes encoded with the base64 crate directly
    let expected = format!("data:image/png;base64,{}", base64::encode(b"hello world"));
    assert_eq!(payload, expected);
    assert_eq!(payload, "data:image/png;base64,aGVsbG8gd29ybGQ=");
}

#[test]
fn image_payload_rejects_unknown_formats() {
    let bytes: Vec<u8> = vec![1, 2, 3];
    assert_eq!(image_payload("shot.bmp", &bytes), Err(OcrError::Unsupported));
}

#[test]
fn parsed_text_is_the_first_result() {
    let results = vec!["first".to_string(), "second".to_string()];
    assert_eq!(extract_parsed_text(&results), Ok("first".to_string()));
}

#[test]
fn missing_parsed_text_is_a_service_error() {
    let results: Vec<String> = Vec::new();
    assert_eq!(extract_parsed_text(&results), Err(OcrError::ServiceError));
}

#[test]
fn default_processor_rotates_seven_keys() {
    let processor = OCRProcessor::new();
    assert_eq!(processor.api_keys.len(), 7);
    assert_eq!(processor.api_keys[0], "fca5393dd988957");
    assert_eq!(processor.api_url, "https://api.ocr.space/parse/image");
}

#[test]
fn with_keys_keeps_the_callers_configuration() {
    let keys = vec!["k1".to_string(), "k2".to_string()];
    let processor = OCRProcessor::with_keys(keys.clone(), "https://example.test/parse");
    assert_eq!(processor.api_keys, keys);
    assert_eq!(processor.api_url, "https://example.test/parse");
}

#[test]
fn picked_key_is_always_one_of_the_configured_ones() {
    let keys = vec!["k1".to_string(), "k2".to_string(), "k3".to_string()];
    let processor = OCRProcessor::with_keys(keys.clone(), "https://example.test/parse");
    for _ in 0..50 {
        let key = processor.pick_api_key();
        assert!(keys.contains(&key));
    }
}

#[test]
fn chat_errors_have_exact_logged_messages() {
    assert_eq!(chat_error_message(&ChatError::Http(404)), "Error: 404");
    assert_eq!(chat_error_message(&ChatError::Http(500)), "Error: 500");
    assert_eq!(chat_error_message(&ChatError::Transport), "Failed to send request");
}

#[test]
fn status_classes_map_to_chat_outcomes() {
    assert_eq!(classify_status(200), Ok(()));
    assert_eq!(classify_status(299), Ok(()));
    assert_eq!(classify_status(199), Err(ChatError::Http(199)));
    assert_eq!(classify_status(300), Err(ChatError::Http(300)));
    assert_eq!(classify_status(404), Err(ChatError::Http(404)));
    assert_eq!(classify_status(500), Err(ChatError::Http(500)));
}

#[test]
fn follow_up_query_joins_text_and_input() {
    assert_eq!(combine_query("extracted text", "what is this"), "extracted text what is this");
    assert_eq!(combine_query("", ""), " ");
}

#[test]
fn decimal_formatting_is_exact() {
    assert_eq!(u32_decimal(0), "0");
    assert_eq!(u32_decimal(7), "7");
    assert_eq!(u32_decimal(42), "42");
    assert_eq!(u32_decimal(1234567890), "1234567890");
    assert_eq!(u32_decimal(u32::MAX), "4294967295");
}

#[test]
fn capture_artifact_is_a_png_named_by_display() {
    assert_eq!(Screenshot::capture_file_path(42), "target/rectangle_42.png");
    assert_eq!(content_type_for_path(&Screenshot::capture_file_path(7)), Some("image/png"));
}
