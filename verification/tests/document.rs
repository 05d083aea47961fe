use laurel_lsp::document::{ByteRange, Document};
use laurel_lsp::text::Position;

fn document(text: &str) -> Document {
    Document::new("a.rs".to_string(), "file:///work/a.rs".to_string(), text)
}

#[test]
fn a_new_document_is_saved_and_keeps_its_file() {
    let document = document("hello\nworld\n");
    assert!(document.is_saved());
    assert_eq!(document.filename(), "a.rs");
    assert_eq!(document.uri(), "file:///work/a.rs");
    assert_eq!(document.to_string(), "hello\nworld\n");
}

#[test]
fn lines_are_counted_with_the_one_after_the_last_break() {
    assert_eq!(document("hello\nworld\n").len(), 3);
    assert_eq!(document("hello\nworld").len(), 2);
    assert_eq!(document("").len(), 1);
    assert!(!document("").is_empty());
    assert!(!document("x").is_empty());
    assert_eq!(document("héllo").len_chars(), 5);
}

#[test]
fn character_positions_count_from_the_line_start() {
    let document = document("hello\nworld\n");
    assert_eq!(document.get_character_pos(&Position::new(0, 0)), 0);
    assert_eq!(document.get_character_pos(&Position::new(0, 4)), 4);
    assert_eq!(document.get_character_pos(&Position::new(1, 0)), 6);
    assert_eq!(document.get_character_pos(&Position::new(1, 3)), 9);
    assert_eq!(document.get_character_pos(&Position::new(2, 0)), 12);
    assert_eq!(document.get_character_pos(&Position::new(3, 0)), 12);
    assert_eq!(document.try_character_pos(&Position::new(1, 3)), Some(9));
    assert_eq!(document.try_character_pos(&Position::new(3, 1)), Some(13));
    assert_eq!(document.try_character_pos(&Position::new(4, 0)), None);
    assert_eq!(document.try_character_pos(&Position::new(1, usize::MAX)), None);
}

#[test]
fn line_bytes_count_bytes() {
    let document = document("héllo\nwörld\n");
    assert_eq!(document.get_line_bytes(0), 0);
    assert_eq!(document.get_line_bytes(1), 7);
    assert_eq!(document.get_line_bytes(2), 14);
    assert_eq!(document.get_line_bytes(3), 14);
    assert_eq!(document.get_line_bytes(4), 14);
    assert_eq!(document.get_line_bytes(400), 14);
    assert_eq!(document.get_character_pos(&Position::new(1, 0)), 6);
}

#[test]
fn line_length_counts_graphemes() {
    let document = document("hello\ne\u{301}a\nxyz");
    assert_eq!(document.line_len(0), 6);
    assert_eq!(document.line_len(1), 3);
    assert_eq!(document.line_len(2), 3);
    assert_eq!(document.try_line_len(2), Some(3));
    assert_eq!(document.try_line_len(3), None);
}

#[test]
fn lines_come_with_their_break() {
    let document = document("hello\nworld\n");
    assert_eq!(document.get_line(0), Some("hello\n".to_string()));
    assert_eq!(document.get_line(1), Some("world\n".to_string()));
    assert_eq!(document.get_line(2), Some(String::new()));
    assert_eq!(document.get_line(3), None);
    assert_eq!(document.last_line(), Some(String::new()));
    assert_eq!(self::document("a\nb").last_line(), Some("b".to_string()));
}

#[test]
fn a_stretch_of_the_text() {
    let document = document("hello\nworld\n");
    assert_eq!(document.str_from_range(0, 5), "hello");
    assert_eq!(document.str_from_range(6, 11), "world");
    assert_eq!(document.str_from_range(3, 3), "");
    assert_eq!(document.str_from_range(0, 12), "hello\nworld\n");
}

#[test]
fn insert_puts_text_at_the_position() {
    let mut document = document("hello\nworld\n");
    assert!(document.accepts_insert(&Position::new(1, 0)));
    assert_eq!(document.insert(&Position::new(1, 0), "abc".to_string()), 6);
    assert_eq!(document.to_string(), "hello\nabcworld\n");
    assert!(!document.is_saved());
    assert_eq!(document.insert(&Position::new(0, 5), "!".to_string()), 5);
    assert_eq!(document.to_string(), "hello!\nabcworld\n");
    document.mark_saved();
    assert!(document.is_saved());
    assert_eq!(document.to_string(), "hello!\nabcworld\n");
}

#[test]
fn insert_past_the_end_is_not_done() {
    let mut document = document("hello");
    assert!(!document.accepts_insert(&Position::new(0, 6)));
    assert!(!document.accepts_insert(&Position::new(2, 0)));
    assert!(document.accepts_insert(&Position::new(0, 5)));
    assert!(document.accepts_insert(&Position::new(1, 0)));
    assert_eq!(document.try_insert(&Position::new(0, 6), "x".to_string()), None);
    assert_eq!(document.try_insert(&Position::new(7, 0), "x".to_string()), None);
    assert_eq!(document.to_string(), "hello");
    assert!(document.is_saved());
    assert_eq!(document.try_insert(&Position::new(0, 5), " world".to_string()), Some(5));
    assert_eq!(document.to_string(), "hello world");
    assert!(!document.is_saved());
}

#[test]
fn delete_takes_the_stretch_out() {
    let mut document = document("hello\nworld\n");
    assert!(document.accepts_delete(&Position::new(0, 1), &Position::new(0, 3)));
    assert_eq!(
        document.delete(&Position::new(0, 1), &Position::new(0, 3)),
        Some(ByteRange { start: 1, end: 3 })
    );
    assert_eq!(document.to_string(), "hlo\nworld\n");
    assert!(!document.is_saved());
    assert_eq!(
        document.delete(&Position::new(0, 3), &Position::new(1, 0)),
        Some(ByteRange { start: 3, end: 4 })
    );
    assert_eq!(document.to_string(), "hloworld\n");
}

#[test]
fn delete_on_an_empty_line_does_nothing() {
    let mut document = document("abc\n");
    assert!(document.accepts_delete(&Position::new(1, 0), &Position::new(1, 0)));
    assert_eq!(document.delete(&Position::new(1, 0), &Position::new(1, 0)), None);
    assert_eq!(document.to_string(), "abc\n");
    assert!(document.is_saved());
}

#[test]
fn delete_past_the_bytes_does_nothing() {
    let mut document = document("ab");
    assert!(document.accepts_delete(&Position::new(0, 0), &Position::new(0, 5)));
    assert_eq!(document.delete(&Position::new(0, 0), &Position::new(0, 5)), None);
    assert_eq!(document.to_string(), "ab");
    assert!(document.is_saved());
}

#[test]
fn try_delete_refuses_what_the_rope_would_not_take() {
    let mut document = document("éé");
    assert!(!document.accepts_delete(&Position::new(0, 0), &Position::new(0, 3)));
    assert_eq!(document.try_delete(&Position::new(0, 0), &Position::new(0, 3)), None);
    assert!(!document.accepts_delete(&Position::new(0, 2), &Position::new(0, 1)));
    assert_eq!(document.try_delete(&Position::new(0, 2), &Position::new(0, 1)), None);
    assert!(!document.accepts_delete(&Position::new(1, 0), &Position::new(1, 0)));
    assert_eq!(document.try_delete(&Position::new(1, 0), &Position::new(1, 0)), None);
    assert_eq!(document.to_string(), "éé");
    assert!(document.is_saved());
    assert_eq!(
        document.try_delete(&Position::new(0, 0), &Position::new(0, 1)),
        Some(ByteRange { start: 0, end: 1 })
    );
    assert_eq!(document.to_string(), "é");
    assert!(!document.is_saved());
}

#[test]
fn replace_deletes_then_inserts() {
    let mut document = document("hello\nworld\n");
    assert!(document.accepts_replace(&Position::new(1, 0), &Position::new(1, 5)));
    assert_eq!(
        document.replace(&Position::new(1, 0), &Position::new(1, 5), "there".to_string()),
        Some(ByteRange { start: 6, end: 11 })
    );
    assert_eq!(document.to_string(), "hello\nthere\n");
    assert!(!document.is_saved());
}

#[test]
fn try_replace_is_all_or_nothing() {
    let mut document = document("hello\nworld");
    assert!(!document.accepts_replace(&Position::new(1, 1), &Position::new(0, 0)));
    assert_eq!(
        document.try_replace(&Position::new(1, 1), &Position::new(0, 0), "x".to_string()),
        None
    );
    assert_eq!(document.to_string(), "hello\nworld");
    assert!(document.is_saved());
    assert_eq!(
        document.try_replace(&Position::new(0, 0), &Position::new(0, 5), "HELLO".to_string()),
        Some(Some(ByteRange { start: 0, end: 5 }))
    );
    assert_eq!(document.to_string(), "HELLO\nworld");
}

#[test]
fn try_replace_gives_up_where_the_line_is_gone() {
    let mut document = document("ab\ncd");
    assert!(document.accepts_delete(&Position::new(1, 2), &Position::new(1, 2)));
    assert_eq!(
        document.try_replace(&Position::new(0, 0), &Position::new(1, 2), "x".to_string()),
        Some(Some(ByteRange { start: 0, end: 5 }))
    );
    assert_eq!(document.to_string(), "x");
    let mut other = self::document("ab\ncd");
    assert_eq!(
        other.try_replace(&Position::new(1, 2), &Position::new(1, 2), "!".to_string()),
        Some(Some(ByteRange { start: 5, end: 5 }))
    );
    assert_eq!(other.to_string(), "ab\ncd!");
}

#[test]
fn all_lines_in_order() {
    let document = document("hello\nwörld\n");
    assert_eq!(
        document.lines(),
        vec!["hello\n".to_string(), "wörld\n".to_string(), String::new()]
    );
    assert_eq!(self::document("").lines(), vec![String::new()]);
    assert_eq!(document.slice_all(), "hello\nwörld\n");
}
