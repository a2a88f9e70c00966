use ticket_title::TicketNewError;
use ticket_title::TicketTitle;

#[test]
fn test_try_from_string() {
    let title = TicketTitle::try_from_string("A title".to_string()).unwrap();
    assert_eq!(title.text(), "A title");
}

#[test]
fn test_try_from_empty_string() {
    let err = TicketTitle::try_from_string("".to_string()).unwrap_err();
    assert_eq!(err.message(), "The title cannot be empty");
}

#[test]
fn test_try_from_long_string() {
    let title =
        "A title that's definitely longer than what should be allowed in a development ticket"
            .to_string();
    let err = TicketTitle::try_from_string(title).unwrap_err();
    assert_eq!(err.message(), "The title cannot be longer than 50 bytes");
}

#[test]
fn test_try_from_str() {
    let title = TicketTitle::try_from_str("A title").unwrap();
    assert_eq!(title.text(), "A title");
}

#[test]
fn fifty_byte_title_is_accepted() {
    let text = "x".repeat(50);
    assert_eq!(text.len(), 50);
    let title = TicketTitle::try_from_str(&text).unwrap();
    assert_eq!(title.text(), text);
}

#[test]
fn fifty_one_byte_title_is_rejected() {
    let text = "x".repeat(51);
    assert_eq!(text.len(), 51);
    let err = TicketTitle::try_from_string(text).unwrap_err();
    assert!(matches!(err, TicketNewError::TitleTooLong));
    assert_eq!(err.message(), "The title cannot be longer than 50 bytes");
}

#[test]
fn empty_title_gives_the_empty_error_variant() {
    let err = TicketTitle::try_from_str("").unwrap_err();
    assert!(matches!(err, TicketNewError::TitleCannotBeEmpty));
}

#[test]
fn length_is_measured_in_bytes_not_characters() {
    // Fifty visible characters, but each takes two bytes in UTF-8.
    let text = "\u{e9}".repeat(50);
    assert_eq!(text.chars().count(), 50);
    assert_eq!(text.len(), 100);
    let err = TicketTitle::try_from_string(text).unwrap_err();
    assert!(matches!(err, TicketNewError::TitleTooLong));
    assert_eq!(err.message(), "The title cannot be longer than 50 bytes");
}

#[test]
fn whitespace_only_title_is_accepted() {
    let title = TicketTitle::try_from_str("   ").unwrap();
    assert_eq!(title.text(), "   ");
}

#[test]
fn revalidating_extracted_text_reproduces_an_equal_title() {
    let first = TicketTitle::try_from_str("A title").unwrap();
    let second = TicketTitle::try_from_str(first.text()).unwrap();
    assert!(second == first);
    assert_eq!(second.text(), first.text());
}

#[test]
fn stored_text_is_kept_exactly() {
    let raw = "  MiXeD Case, spaces kept  ";
    let title = TicketTitle::try_from_string(raw.to_string()).unwrap();
    assert_eq!(title.text(), raw);
}

#[test]
fn clone_keeps_the_text() {
    let title = TicketTitle::try_from_str("A title").unwrap();
    let copy = title.clone();
    assert!(copy == title);
    assert_eq!(copy.text(), "A title");
}

#[test]
fn titles_with_different_texts_are_not_equal() {
    let a = TicketTitle::try_from_str("A title").unwrap();
    let b = TicketTitle::try_from_str("Another title").unwrap();
    assert!(a != b);
}
