use macopy::clipboard::clipboard_candidate;
use macopy::codec::{
    can_encode, data_uri_payload, decode_data_uri, encode_data_uri, frame_data_uri,
    PNG_DATA_URI_PREFIX,
};
use macopy::{
    get_clipboard_change_count, read_image_from_clipboard, update_clipboard,
    write_image_to_clipboard, History, HistoryItem,
};

fn text(content: &str) -> HistoryItem {
    HistoryItem::Text(content.to_string())
}

fn image(payload: &str) -> HistoryItem {
    HistoryItem::Image(payload.to_string())
}

#[test]
fn change_count_is_what_the_pasteboard_reports() {
    assert_eq!(get_clipboard_change_count(Some(42)), 42);
    assert_eq!(get_clipboard_change_count(Some(-7)), -7);
    assert_eq!(get_clipboard_change_count(Some(i64::MAX)), i64::MAX);
}

#[test]
fn change_count_is_zero_without_a_pasteboard() {
    assert_eq!(get_clipboard_change_count(None), 0);
}

#[test]
fn png_data_becomes_a_data_uri() {
    assert_eq!(
        read_image_from_clipboard(Some(b"img1"), None),
        Some("data:image/png;base64,aW1nMQ==".to_string())
    );
    assert_eq!(
        read_image_from_clipboard(Some(&[0x89, 0x50, 0x4e, 0x47]), None),
        Some("data:image/png;base64,iVBORw==".to_string())
    );
}

#[test]
fn png_data_comes_before_converted_tiff() {
    assert_eq!(
        read_image_from_clipboard(Some(b"png"), Some(b"tiff")),
        Some("data:image/png;base64,cG5n".to_string())
    );
}

#[test]
fn converted_tiff_is_taken_without_png() {
    assert_eq!(
        read_image_from_clipboard(None, Some(b"tiff")),
        Some("data:image/png;base64,dGlmZg==".to_string())
    );
}

#[test]
fn no_image_data_is_no_image() {
    assert_eq!(read_image_from_clipboard(None, None), None);
}

#[test]
fn empty_png_data_is_an_empty_payload() {
    assert_eq!(
        read_image_from_clipboard(Some(b""), None),
        Some("data:image/png;base64,".to_string())
    );
}

#[test]
fn base64_padding_by_length() {
    assert_eq!(encode_data_uri(b"a"), Some("data:image/png;base64,YQ==".to_string()));
    assert_eq!(encode_data_uri(b"ab"), Some("data:image/png;base64,YWI=".to_string()));
    assert_eq!(encode_data_uri(b"abc"), Some("data:image/png;base64,YWJj".to_string()));
    assert_eq!(encode_data_uri(&[0xfb, 0xff]), Some("data:image/png;base64,+/8=".to_string()));
}

#[test]
fn encodable_lengths() {
    assert!(can_encode(0));
    assert!(can_encode(1 << 20));
    assert!(!can_encode(usize::MAX));
    assert!(!can_encode(isize::MAX as usize));
}

#[test]
fn data_uri_framing() {
    assert_eq!(PNG_DATA_URI_PREFIX, "data:image/png;base64,");
    assert_eq!(frame_data_uri("QUJD"), "data:image/png;base64,QUJD");
    assert_eq!(data_uri_payload("data:image/png;base64,QUJD"), Some("QUJD"));
    assert_eq!(data_uri_payload("data:image/png;base64,"), Some(""));
    assert_eq!(data_uri_payload("data:image/jpeg;base64,QUJD"), None);
    assert_eq!(data_uri_payload("data:image/png;base64"), None);
    assert_eq!(data_uri_payload(""), None);
}

#[test]
fn image_payload_decodes_to_its_bytes() {
    assert_eq!(
        write_image_to_clipboard("data:image/png;base64,aW1nMQ=="),
        Some(b"img1".to_vec())
    );
    assert_eq!(write_image_to_clipboard("data:image/png;base64,"), Some(Vec::new()));
    assert_eq!(
        decode_data_uri("data:image/png;base64,+/8="),
        Some(vec![0xfb, 0xff])
    );
}

#[test]
fn payload_without_png_prefix_writes_nothing() {
    assert_eq!(write_image_to_clipboard("aW1nMQ=="), None);
    assert_eq!(write_image_to_clipboard("data:image/jpeg;base64,aW1nMQ=="), None);
    assert_eq!(write_image_to_clipboard(" data:image/png;base64,aW1nMQ=="), None);
    assert_eq!(write_image_to_clipboard(""), None);
}

#[test]
fn payload_that_does_not_decode_writes_nothing() {
    assert_eq!(write_image_to_clipboard("data:image/png;base64,xx"), None);
    assert_eq!(write_image_to_clipboard("data:image/png;base64,aW1nMQ"), None);
    assert_eq!(write_image_to_clipboard("data:image/png;base64,aW1n MQ=="), None);
    assert_eq!(write_image_to_clipboard("data:image/png;base64,****"), None);
}

#[test]
fn image_read_is_written_back_as_it_was() {
    let bytes: Vec<u8> = (0..=255).collect();
    let payload = read_image_from_clipboard(Some(&bytes), None).unwrap();
    assert_eq!(write_image_to_clipboard(&payload), Some(bytes));
}

#[test]
fn image_comes_before_text() {
    assert_eq!(
        clipboard_candidate(Some("data:image/png;base64,xx".to_string()), Some("t".to_string())),
        Some(image("data:image/png;base64,xx"))
    );
}

#[test]
fn text_is_taken_without_image() {
    assert_eq!(clipboard_candidate(None, Some("t".to_string())), Some(text("t")));
    assert_eq!(clipboard_candidate(None, Some(" ".to_string())), Some(text(" ")));
}

#[test]
fn empty_text_and_no_reading_offer_nothing() {
    assert_eq!(clipboard_candidate(None, Some(String::new())), None);
    assert_eq!(clipboard_candidate(None, None), None);
}

#[test]
fn update_clipboard_captures_the_reading() {
    let mut history = History::new();
    assert!(update_clipboard(&mut history, None, Some("one".to_string())));
    assert!(!update_clipboard(&mut history, None, Some("one".to_string())));
    assert!(update_clipboard(
        &mut history,
        Some("data:image/png;base64,xx".to_string()),
        Some("one".to_string())
    ));
    assert_eq!(history.snapshot(), vec![image("data:image/png;base64,xx"), text("one")]);
}

#[test]
fn update_clipboard_with_a_known_image_does_not_fall_back_to_text() {
    let mut history = History::new();
    update_clipboard(&mut history, Some("img".to_string()), None);
    assert!(!update_clipboard(&mut history, Some("img".to_string()), Some("text".to_string())));
    assert_eq!(history.snapshot(), vec![image("img")]);
}

#[test]
fn unreadable_clipboard_changes_nothing() {
    let mut history = History::new();
    update_clipboard(&mut history, None, Some("kept".to_string()));
    assert!(!update_clipboard(&mut history, None, None));
    assert!(!update_clipboard(&mut history, None, Some(String::new())));
    assert_eq!(history.snapshot(), vec![text("kept")]);
}
