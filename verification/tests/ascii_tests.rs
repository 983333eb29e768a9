use imagebot::ascii_art::ascii_art_block;

#[test]
fn ascii_art_is_fenced_as_a_code_block() {
    let block = ascii_art_block("Hi").unwrap();
    assert!(block.starts_with("```"));
    assert!(block.ends_with("```"));
}

#[test]
fn ascii_art_really_renders_a_figure() {
    let block = ascii_art_block("Hi").unwrap();
    assert_ne!(block, "```Hi```");
    assert!(block.contains('\n'));
    assert!(block.len() > "```Hi```".len());
}

#[test]
fn ascii_art_of_distinct_messages_differs() {
    let a = ascii_art_block("abc").unwrap();
    let b = ascii_art_block("xyz").unwrap();
    assert_ne!(a, b);
}
