use sharad_ratatui::chunks::{chunk_page, chunk_pdf, split_words};

#[test]
fn words_are_split_on_unicode_white_space() {
    assert_eq!(split_words("  a b\t\tc\n"), vec!["a", "b", "c"]);
    assert_eq!(split_words("x\u{00A0}y\u{3000}z"), vec!["x", "y", "z"]);
    assert!(split_words(" \n\t ").is_empty());
    assert_eq!(split_words("élan vital"), vec!["élan", "vital"]);
}

#[test]
fn pages_are_packed_into_chunks_of_two_thousand_bytes() {
    let page = vec!["abcd"; 1000].join(" ");
    let chunks = chunk_page(&page);
    assert_eq!(chunks.len(), 3);
    assert_eq!(chunks[0], vec!["abcd"; 400].join(" "));
    assert_eq!(chunks[1], vec!["abcd"; 400].join(" "));
    assert_eq!(chunks[2], vec!["abcd"; 200].join(" "));
    // A word longer than a chunk stands alone.
    let long = "x".repeat(2500);
    let page = format!("a {long} b");
    assert_eq!(chunk_page(&page), vec!["a".to_string(), long.clone(), "b".to_string()]);
}

#[test]
fn pages_without_words_are_left_out() {
    let pages = vec!["".to_string(), "one two".to_string(), "   ".to_string(), "three".to_string()];
    let chunks = chunk_pdf(&pages).expect("chunking never fails");
    assert_eq!(chunks, vec![vec!["one two".to_string()], vec!["three".to_string()]]);
}

#[test]
fn multibyte_words_count_their_bytes() {
    // "é" takes two bytes: 666 of them with their spaces fill 1998 bytes.
    let page = vec!["é"; 700].join(" ");
    let chunks = chunk_page(&page);
    assert_eq!(chunks.len(), 2);
    assert_eq!(chunks[0].split(' ').count(), 666);
}
