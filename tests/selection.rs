use clipboard::x11::{
    content_types_from_atom_names, timestamp_from_secs, words_from_bytes, ConvertSelection,
    NotifyOutcome, PropertyReply, PropertyRequest, SelectionAtoms, SelectionEvent,
    SelectionSession, Transfer, FULL_LENGTH, NONE,
};
use clipboard::{ClipboardError, ContentType};

fn session() -> SelectionSession {
    let atoms = SelectionAtoms { clipboard: 10, utf8_string: 11, targets: 12, property: 13, atom: 4 };
    SelectionSession::new(77, atoms, true)
}

fn reply(type_: u32, format: u8, bytes_after: u32, value: &[u8]) -> PropertyReply {
    PropertyReply { type_, format, bytes_after, value: value.to_vec() }
}

#[test]
fn convert_request_names_selection_target_and_property() {
    let s = session();
    assert_eq!(
        s.convert_request(Transfer::Text, 1234),
        ConvertSelection { requestor: 77, selection: 10, target: 11, property: 13, time: 1234 }
    );
    assert_eq!(s.convert_request(Transfer::Targets, 5).target, 12);
}

#[test]
fn unrelated_events_keep_the_wait_going() {
    let s = session();
    assert_eq!(s.on_event(Transfer::Text, &SelectionEvent::Other), NotifyOutcome::KeepWaiting);
    let other_window =
        SelectionEvent::SelectionNotify { requestor: 78, selection: 10, target: 11, property: 13 };
    assert_eq!(s.on_event(Transfer::Text, &other_window), NotifyOutcome::KeepWaiting);
    let other_target =
        SelectionEvent::SelectionNotify { requestor: 77, selection: 10, target: 12, property: 13 };
    assert_eq!(s.on_event(Transfer::Text, &other_target), NotifyOutcome::KeepWaiting);
    let other_selection =
        SelectionEvent::SelectionNotify { requestor: 77, selection: 1, target: 11, property: 13 };
    assert_eq!(s.on_event(Transfer::Text, &other_selection), NotifyOutcome::KeepWaiting);
}

#[test]
fn matching_notify_reads_the_whole_property() {
    let s = session();
    let ev = SelectionEvent::SelectionNotify { requestor: 77, selection: 10, target: 12, property: 13 };
    let expected = PropertyRequest {
        delete: false,
        window: 77,
        property: 13,
        type_: 4,
        long_offset: 0,
        long_length: FULL_LENGTH,
    };
    assert_eq!(s.on_event(Transfer::Targets, &ev), NotifyOutcome::ReadProperty(expected));
    assert_eq!(FULL_LENGTH, u32::MAX);
}

#[test]
fn refused_conversion_means_no_data() {
    let s = session();
    let ev = SelectionEvent::SelectionNotify { requestor: 77, selection: 10, target: 11, property: NONE };
    assert_eq!(s.on_event(Transfer::Text, &ev), NotifyOutcome::NoData);
}

#[test]
fn text_reply_decodes_utf8() {
    let s = session();
    assert_eq!(s.text_from_reply(reply(11, 8, 0, b"hello")), Ok("hello".to_string()));
    let multi = "h\u{e9}llo";
    assert_eq!(s.text_from_reply(reply(11, 8, 0, multi.as_bytes())), Ok(multi.to_string()));
    assert_eq!(s.text_from_reply(reply(11, 8, 0, b"")), Ok(String::new()));
}

#[test]
fn text_reply_without_property_is_empty() {
    let s = session();
    assert_eq!(s.text_from_reply(reply(NONE, 0, 0, b"")), Err(ClipboardError::Empty));
}

#[test]
fn text_reply_protocol_violations() {
    let s = session();
    assert_eq!(s.text_from_reply(reply(11, 8, 0, &[0xff, 0xfe])), Err(ClipboardError::ProtocolViolation));
    assert_eq!(s.text_from_reply(reply(11, 8, 4, b"abc")), Err(ClipboardError::ProtocolViolation));
    assert_eq!(s.text_from_reply(reply(31, 8, 0, b"abc")), Err(ClipboardError::ProtocolViolation));
}

#[test]
fn targets_reply_reads_atoms_in_connection_byte_order() {
    let s = session();
    let r = s.targets_from_reply(&reply(4, 32, 0, &[1, 0, 0, 0, 0x78, 0x56, 0x34, 0x12]));
    assert_eq!(r, Ok(vec![1, 0x1234_5678]));
    let big = SelectionSession::new(77, s.atoms, false);
    let r = big.targets_from_reply(&reply(4, 32, 0, &[0, 0, 0, 1, 0x12, 0x34, 0x56, 0x78]));
    assert_eq!(r, Ok(vec![1, 0x1234_5678]));
}

#[test]
fn targets_reply_errors_and_empty() {
    let s = session();
    assert_eq!(s.targets_from_reply(&reply(NONE, 0, 0, b"")), Ok(vec![]));
    assert_eq!(s.targets_from_reply(&reply(4, 8, 0, &[1, 0, 0, 0])), Err(ClipboardError::ProtocolViolation));
    assert_eq!(s.targets_from_reply(&reply(4, 32, 8, &[1, 0, 0, 0])), Err(ClipboardError::ProtocolViolation));
    assert_eq!(s.targets_from_reply(&reply(5, 32, 0, &[1, 0, 0, 0])), Err(ClipboardError::ProtocolViolation));
}

#[test]
fn words_ignore_a_trailing_partial_unit() {
    assert_eq!(words_from_bytes(&vec![2, 0, 0, 0, 9, 9], true), vec![2]);
    assert_eq!(words_from_bytes(&vec![0xff, 0xff, 0xff, 0xff], false), vec![u32::MAX]);
    assert!(words_from_bytes(&vec![1, 2, 3], true).is_empty());
}

#[test]
fn atom_names_become_normalized_distinct_types() {
    let names: Vec<Vec<u8>> = ["UTF8_STRING", "TARGETS", "text/html", "UTF8_STRING", "STRING"]
        .iter()
        .map(|s| s.as_bytes().to_vec())
        .collect();
    assert_eq!(
        content_types_from_atom_names(&names),
        Ok(vec![
            ContentType::Text,
            ContentType::Custom("TARGETS".to_string()),
            ContentType::Html,
            ContentType::Custom("STRING".to_string()),
        ])
    );
}

#[test]
fn atom_name_that_is_not_utf8_is_a_protocol_violation() {
    let names = vec![b"text/html".to_vec(), vec![0xc3]];
    assert_eq!(content_types_from_atom_names(&names), Err(ClipboardError::ProtocolViolation));
}

#[test]
fn timestamps_fit_in_32_bits() {
    assert_eq!(timestamp_from_secs(1_700_000_000), Some(1_700_000_000));
    assert_eq!(timestamp_from_secs(u32::MAX as u64), Some(u32::MAX));
    assert_eq!(timestamp_from_secs(u32::MAX as u64 + 1), None);
}

#[test]
fn text_transfer_without_owner_is_empty_not_an_empty_string() {
    let s = session();
    assert_eq!(s.text_from_answer(None), Err(ClipboardError::Empty));
    assert_eq!(s.text_from_answer(Some(reply(NONE, 0, 0, b""))), Err(ClipboardError::Empty));
    assert_eq!(s.text_from_answer(Some(reply(11, 8, 0, b""))), Ok(String::new()));
    assert_eq!(s.text_from_answer(Some(reply(11, 8, 0, b"hi"))), Ok("hi".to_string()));
}

#[test]
fn targets_transfer_without_owner_lists_nothing() {
    let s = session();
    assert_eq!(s.targets_from_answer(&None), Ok(vec![]));
    assert_eq!(s.targets_from_answer(&Some(reply(NONE, 0, 0, b""))), Ok(vec![]));
    assert_eq!(s.targets_from_answer(&Some(reply(4, 32, 0, &[7, 0, 0, 0]))), Ok(vec![7]));
    assert_eq!(
        s.targets_from_answer(&Some(reply(4, 16, 0, &[7, 0, 0, 0]))),
        Err(ClipboardError::ProtocolViolation)
    );
}
