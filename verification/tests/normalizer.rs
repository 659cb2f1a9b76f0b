use cafe_relay::normalize::{escpae_markdown, html_decode, normalize};

#[test]
fn decodes_known_entities_round_trip() {
    let out = normalize(String::from("a &#124; b &#60;c&#62;"));
    assert_eq!(out, "a | b <c>");
}

#[test]
fn decodes_each_entity() {
    assert_eq!(html_decode(String::from("&#124;")), "|");
    assert_eq!(html_decode(String::from("&#92;")), "\\");
    assert_eq!(html_decode(String::from("&#34;")), "\"");
    assert_eq!(html_decode(String::from("&#39;")), "'");
    assert_eq!(html_decode(String::from("&#60;")), "<");
    assert_eq!(html_decode(String::from("&lt;")), "<");
    assert_eq!(html_decode(String::from("&#62;")), ">");
    assert_eq!(html_decode(String::from("&gt;")), ">");
    assert_eq!(html_decode(String::from("&#43;")), "+");
    assert_eq!(html_decode(String::from("&#96;")), "`");
}

#[test]
fn unknown_entities_left_untouched() {
    assert_eq!(html_decode(String::from("fish &amp; chips")), "fish &amp; chips");
}

#[test]
fn decode_of_empty_string_is_empty() {
    assert_eq!(html_decode(String::new()), "");
    assert_eq!(normalize(String::new()), "");
}

#[test]
fn escape_drops_heading_markers() {
    assert_eq!(escpae_markdown(String::from("### Title\n")), " Title\n");
    assert_eq!(escpae_markdown(String::from("## Title")), " Title");
}

#[test]
fn escape_turns_double_space_into_line_break() {
    assert_eq!(escpae_markdown(String::from("one  two")), "one\ntwo");
}

#[test]
fn escape_prefixes_lone_hash() {
    assert_eq!(escpae_markdown(String::from("#remaining")), "\\#remaining");
}

#[test]
fn escape_of_four_hashes() {
    // "###" is dropped first, and the single "#" left is then escaped.
    assert_eq!(escpae_markdown(String::from("####")), "\\#");
}

#[test]
fn decoded_hash_is_still_escaped() {
    // Entity decoding runs first, so a decoded "<" survives and a literal
    // "#" after decoding is still escape-processed.
    assert_eq!(normalize(String::from("&#60;# x")), "<\\# x");
}
