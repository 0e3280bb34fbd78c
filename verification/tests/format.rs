use note_relay::event::{Attachment, CandidatePost};
use note_relay::format::{attachment_line, generate_note_info, permalink};
use note_relay::text::{decimal_string, join_texts, same_text};

fn post_with(id: &str, urls: &[String]) -> CandidatePost {
    CandidatePost {
        kind: String::from("note"),
        author: String::from("U1"),
        id: String::from(id),
        files: urls.iter().map(|u| Attachment { url: u.clone() }).collect(),
    }
}

#[test]
fn permalink_embeds_the_identifier() {
    assert_eq!(permalink("abc123"), "[note](https://misskey.io/notes/abc123)");
    assert_eq!(permalink(""), "[note](https://misskey.io/notes/)");
}

#[test]
fn attachment_line_is_labelled_with_its_number() {
    assert_eq!(attachment_line(1, "http://a/1.png"), "[1枚目](http://a/1.png)");
    assert_eq!(attachment_line(10, "u"), "[10枚目](u)");
    assert_eq!(attachment_line(0, ""), "[0枚目]()");
}

#[test]
fn payload_has_one_permalink_line_and_one_line_per_attachment() {
    for n in 1..=25usize {
        let urls: Vec<String> = (0..n).map(|i| format!("https://files.example/{}.png", i * 7)).collect();
        let payload = generate_note_info(&post_with("9xyz", &urls));
        let lines: Vec<&str> = payload.split('\n').collect();
        assert_eq!(lines.len(), n + 1);
        assert_eq!(lines[0], "[note](https://misskey.io/notes/9xyz)");
        for i in 0..n {
            assert_eq!(lines[i + 1], format!("[{}枚目]({})", i + 1, urls[i]));
        }
    }
}

#[test]
fn payload_keeps_the_order_of_the_attachments() {
    let urls = vec![String::from("c"), String::from("a"), String::from("b"), String::from("a")];
    assert_eq!(
        generate_note_info(&post_with("n", &urls)),
        "[note](https://misskey.io/notes/n)\n[1枚目](c)\n[2枚目](a)\n[3枚目](b)\n[4枚目](a)"
    );
}

#[test]
fn payload_of_a_post_without_attachments_ends_after_the_newline() {
    assert_eq!(generate_note_info(&post_with("n", &[])), "[note](https://misskey.io/notes/n)\n");
}

#[test]
fn payload_of_a_single_attachment_has_no_trailing_newline() {
    let urls = vec![String::from("http://a/1.png")];
    assert_eq!(
        generate_note_info(&post_with("abc123", &urls)),
        "[note](https://misskey.io/notes/abc123)\n[1枚目](http://a/1.png)"
    );
}

#[test]
fn formatting_twice_gives_the_same_bytes() {
    let urls = vec![String::from("http://a/1.png"), String::from("http://a/画像.png")];
    let post = post_with("abc123", &urls);
    let first = generate_note_info(&post);
    let second = generate_note_info(&post);
    assert_eq!(first.as_bytes(), second.as_bytes());
    let third = generate_note_info(&post.clone());
    assert_eq!(first.as_bytes(), third.as_bytes());
}

#[test]
fn payload_does_not_read_kind_or_author() {
    let urls = vec![String::from("u")];
    let mut other = post_with("n", &urls);
    other.kind = String::from("mention");
    other.author = String::from("someone");
    assert_eq!(generate_note_info(&other), generate_note_info(&post_with("n", &urls)));
}

#[test]
fn decimal_string_writes_numerals() {
    assert_eq!(decimal_string(0), "0");
    assert_eq!(decimal_string(7), "7");
    assert_eq!(decimal_string(9), "9");
    assert_eq!(decimal_string(10), "10");
    assert_eq!(decimal_string(99), "99");
    assert_eq!(decimal_string(100), "100");
    assert_eq!(decimal_string(1234567890), "1234567890");
    assert_eq!(decimal_string(usize::MAX), usize::MAX.to_string());
    for n in 0..2000usize {
        assert_eq!(decimal_string(n), n.to_string());
    }
}

#[test]
fn join_texts_puts_newlines_between_lines_only() {
    assert_eq!(join_texts(&vec![]), "");
    assert_eq!(join_texts(&vec![String::from("a")]), "a");
    assert_eq!(join_texts(&vec![String::from("a"), String::from("b")]), "a\nb");
    assert_eq!(join_texts(&vec![String::new(), String::new(), String::new()]), "\n\n");
    assert_eq!(join_texts(&vec![String::from("a"), String::new()]), "a\n");
}

#[test]
fn same_text_is_equality_of_texts() {
    assert!(same_text("", ""));
    assert!(same_text("note", "note"));
    assert!(!same_text("note", "notes"));
    assert!(!same_text("notes", "note"));
    assert!(!same_text("note", "nOte"));
    assert!(!same_text("", "a"));
    assert!(same_text("枚目", "枚目"));
    assert!(!same_text("枚目", "枚日"));
}
