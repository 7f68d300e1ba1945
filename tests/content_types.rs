use clipboard::{ContentType, NativeFormats};

fn custom(s: &str) -> ContentType {
    ContentType::Custom(s.to_string())
}

#[test]
fn pasteboard_names_normalize_to_well_known_types() {
    let table = NativeFormats::Pasteboard;
    let cases = [
        ("public.utf8-plain-text", ContentType::Text),
        ("public.html", ContentType::Html),
        ("com.adobe.pdf", ContentType::Pdf),
        ("public.png", ContentType::Png),
        ("public.rtf", ContentType::Rtf),
        ("public.file-url", ContentType::Url),
    ];
    for (name, ct) in cases {
        assert_eq!(table.normalize(custom(name)), ct);
        assert_eq!(table.denormalize(ct), name);
    }
}

#[test]
fn x11_names_normalize_to_well_known_types() {
    let table = NativeFormats::X11;
    let cases = [
        ("UTF8_STRING", ContentType::Text),
        ("text/html", ContentType::Html),
        ("application/pdf", ContentType::Pdf),
        ("image/png", ContentType::Png),
        ("text/rtf", ContentType::Rtf),
        ("text/uri-list", ContentType::Url),
    ];
    for (name, ct) in cases {
        assert_eq!(table.normalize(custom(name)), ct);
        assert_eq!(table.denormalize(ct), name);
    }
}

#[test]
fn unrecognized_names_stay_custom() {
    for table in [NativeFormats::Pasteboard, NativeFormats::X11] {
        for name in ["com.example.private", "", "TARGETS", "public.HTML"] {
            assert_eq!(table.normalize(custom(name)), custom(name));
            assert_eq!(table.denormalize(custom(name)), name);
        }
    }
}

#[test]
fn names_of_one_backend_are_custom_on_the_other() {
    assert_eq!(NativeFormats::X11.normalize(custom("public.html")), custom("public.html"));
    assert_eq!(NativeFormats::Pasteboard.normalize(custom("text/html")), custom("text/html"));
}

#[test]
fn well_known_types_are_their_own_normal_form() {
    assert_eq!(NativeFormats::Pasteboard.normalize(ContentType::Png), ContentType::Png);
    assert_eq!(NativeFormats::X11.normalize(ContentType::Url), ContentType::Url);
}

#[test]
fn from_pasteboard_name_recognizes_names() {
    assert_eq!(ContentType::from_pasteboard_name("public.rtf"), ContentType::Rtf);
    assert_eq!(ContentType::from_pasteboard_name("dyn.abc"), custom("dyn.abc"));
}

#[test]
fn content_types_from_names_normalizes_and_drops_repeats() {
    let names = vec![
        "public.html".to_string(),
        "com.example.x".to_string(),
        "public.html".to_string(),
        "public.utf8-plain-text".to_string(),
        "com.example.x".to_string(),
    ];
    let types = NativeFormats::Pasteboard.content_types_from_names(&names);
    assert_eq!(types, vec![ContentType::Html, custom("com.example.x"), ContentType::Text]);
    assert!(NativeFormats::Pasteboard.content_types_from_names(&Vec::new()).is_empty());
}

#[test]
fn content_type_equality_compares_custom_names() {
    assert_eq!(custom("a"), custom("a"));
    assert_ne!(custom("a"), custom("b"));
    assert_ne!(custom("public.html"), ContentType::Html);
    assert_eq!(custom("x").duplicate(), custom("x"));
}
