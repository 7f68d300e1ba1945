use clipboard::pasteboard::{text_from_read_strings, PasteboardItem};
use clipboard::{
    ClipboardError, ClipboardProvider, ContentType, NopClipboardContext, Pasteboard,
    SharedClipboard,
};

fn same_set(a: &[ContentType], b: &[ContentType]) -> bool {
    a.len() == b.len() && a.iter().all(|x| b.contains(x))
}

#[test]
fn set_two_types_then_list_and_read() {
    let mut pb = Pasteboard::new();
    let entries = vec![(ContentType::Html, b"<b>x</b>".to_vec()), (ContentType::Png, vec![137, 80])];
    assert_eq!(pb.set_content_types(entries), Ok(()));
    let types = pb.get_content_types().unwrap();
    assert!(same_set(&types, &[ContentType::Png, ContentType::Html]));
    assert_eq!(pb.get_content_for_type(&ContentType::Html), Ok(b"<b>x</b>".to_vec()));
    assert_eq!(pb.get_content_for_type(&ContentType::Png), Ok(vec![137, 80]));
}

#[test]
fn second_set_replaces_all_types() {
    let mut pb = Pasteboard::new();
    pb.set_content_types(vec![(ContentType::Html, vec![1]), (ContentType::Png, vec![2])]).unwrap();
    pb.set_content_types(vec![(ContentType::Rtf, vec![3])]).unwrap();
    assert_eq!(pb.get_content_types(), Ok(vec![ContentType::Rtf]));
    assert_eq!(pb.get_content_for_type(&ContentType::Html), Err(ClipboardError::Empty));
    assert_eq!(pb.get_content_for_type(&ContentType::Png), Err(ClipboardError::Empty));
    assert_eq!(pb.get_content_for_type(&ContentType::Rtf), Ok(vec![3]));
}

#[test]
fn empty_pasteboard_has_no_text() {
    let pb = Pasteboard::new();
    assert_eq!(pb.get_contents(), Err(ClipboardError::Empty));
    assert_eq!(pb.get_content_types(), Ok(vec![]));
    assert_eq!(pb.get_content_for_type(&ContentType::Text), Err(ClipboardError::Empty));
}

#[test]
fn text_round_trips_byte_for_byte() {
    let mut pb = Pasteboard::new();
    pb.set_contents("hello".to_string()).unwrap();
    assert_eq!(pb.get_contents(), Ok("hello".to_string()));
    pb.set_contents("h\u{e9}llo".to_string()).unwrap();
    let got = pb.get_contents().unwrap();
    assert_eq!(got, "h\u{e9}llo");
    assert_eq!(got.as_bytes(), &[104, 0xc3, 0xa9, 108, 108, 111]);
    assert_eq!(pb.get_content_types(), Ok(vec![ContentType::Text]));
    assert_eq!(pb.get_content_for_type(&ContentType::Text), Ok("h\u{e9}llo".as_bytes().to_vec()));
}

#[test]
fn empty_text_is_not_an_empty_clipboard() {
    let mut pb = Pasteboard::new();
    pb.set_contents(String::new()).unwrap();
    assert_eq!(pb.get_contents(), Ok(String::new()));
}

#[test]
fn clipboard_without_text_reports_empty() {
    let mut pb = Pasteboard::new();
    pb.set_content_types(vec![(ContentType::Png, vec![1, 2])]).unwrap();
    assert_eq!(pb.get_contents(), Err(ClipboardError::Empty));
}

#[test]
fn text_that_is_not_utf8_is_a_protocol_violation() {
    let mut pb = Pasteboard::new();
    pb.set_content_types(vec![(ContentType::Text, vec![0xff])]).unwrap();
    assert_eq!(pb.get_contents(), Err(ClipboardError::ProtocolViolation));
}

#[test]
fn custom_names_of_well_known_types_are_listed_normalized() {
    let mut pb = Pasteboard::new();
    let entries = vec![
        (ContentType::Custom("public.html".to_string()), vec![1]),
        (ContentType::Custom("com.example.x".to_string()), vec![2]),
    ];
    pb.set_content_types(entries).unwrap();
    assert_eq!(
        pb.get_content_types(),
        Ok(vec![ContentType::Html, ContentType::Custom("com.example.x".to_string())])
    );
    assert_eq!(pb.get_content_for_type(&ContentType::Html), Ok(vec![1]));
}

#[test]
fn later_pair_for_a_type_wins() {
    let mut pb = Pasteboard::new();
    let entries = vec![
        (ContentType::Html, vec![1]),
        (ContentType::Custom("public.html".to_string()), vec![2]),
    ];
    pb.set_content_types(entries).unwrap();
    assert_eq!(pb.get_content_types(), Ok(vec![ContentType::Html]));
    assert_eq!(pb.get_content_for_type(&ContentType::Html), Ok(vec![2]));
}

#[test]
fn write_needs_a_cleared_pasteboard() {
    let mut pb = Pasteboard::new();
    pb.set_contents("a".to_string()).unwrap();
    let mut item = PasteboardItem::new();
    item.set_data_for_type("public.png".to_string(), vec![9]);
    assert!(!pb.write_item(item));
    assert_eq!(pb.get_contents(), Ok("a".to_string()));
    pb.clear_contents();
    let mut item = PasteboardItem::new();
    item.set_data_for_type("public.png".to_string(), vec![9]);
    assert!(pb.write_item(item));
    assert_eq!(pb.get_content_types(), Ok(vec![ContentType::Png]));
}

#[test]
fn item_types_keep_order_and_replace_data() {
    let mut item = PasteboardItem::new();
    item.set_data_for_type("b".to_string(), vec![1]);
    item.set_data_for_type("a".to_string(), vec![2]);
    item.set_data_for_type("b".to_string(), vec![3]);
    assert_eq!(item.types(), vec!["b".to_string(), "a".to_string()]);
    assert_eq!(item.data_for_type("b"), Some(vec![3]));
    assert_eq!(item.data_for_type("c"), None);
}

#[test]
fn shared_clipboard_serves_the_provider_capabilities() {
    let cb = SharedClipboard::new();
    assert_eq!(cb.get_contents(), Err(ClipboardError::Empty));
    cb.set_contents("hello".to_string()).unwrap();
    assert_eq!(cb.get_contents(), Ok("hello".to_string()));
    cb.set_content_types(vec![(ContentType::Pdf, vec![7])]).unwrap();
    assert_eq!(cb.get_content_types(), Ok(vec![ContentType::Pdf]));
    assert_eq!(cb.get_content_for_type(&ContentType::Pdf), Ok(vec![7]));
    assert_eq!(
        SharedClipboard::normalize_content_type(ContentType::Custom("public.png".to_string())),
        ContentType::Png
    );
    assert_eq!(SharedClipboard::denormalize_content_type(ContentType::Url), "public.file-url");
}

#[test]
fn nop_clipboard_supports_nothing() {
    let cb = NopClipboardContext::new().unwrap();
    assert_eq!(cb.get_contents(), Err(ClipboardError::Unsupported));
    assert_eq!(cb.set_contents("x".to_string()), Err(ClipboardError::Unsupported));
    assert_eq!(cb.get_content_types(), Err(ClipboardError::Unsupported));
    assert_eq!(cb.get_content_for_type(&ContentType::Text), Err(ClipboardError::Unsupported));
    assert_eq!(cb.set_content_types(vec![]), Err(ClipboardError::Unsupported));
    assert_eq!(NopClipboardContext::denormalize_content_type(ContentType::Html), "text/html");
    assert_eq!(
        NopClipboardContext::normalize_content_type(ContentType::Custom("UTF8_STRING".to_string())),
        ContentType::Text
    );
}

#[test]
fn error_kinds_have_descriptions() {
    assert_eq!(ClipboardError::Empty.description(), "clipboard is empty");
    assert_eq!(ClipboardError::Unsupported.description(), "unsupported for this platform");
    assert_ne!(ClipboardError::LockFailure.description(), ClipboardError::Transport.description());
}

#[test]
fn read_strings_give_the_first_string() {
    assert_eq!(text_from_read_strings(None), Err(ClipboardError::Transport));
    assert_eq!(text_from_read_strings(Some(vec![])), Err(ClipboardError::Empty));
    assert_eq!(
        text_from_read_strings(Some(vec!["h\u{e9}llo".to_string(), "x".to_string()])),
        Ok("h\u{e9}llo".to_string())
    );
}

#[test]
fn every_error_kind_has_its_description() {
    assert_eq!(ClipboardError::Transport.description(), "clipboard transport failed");
    assert_eq!(
        ClipboardError::ProtocolViolation.description(),
        "clipboard peer violated the protocol"
    );
    assert_eq!(ClipboardError::LockFailure.description(), "could not acquire the clipboard guard");
}
