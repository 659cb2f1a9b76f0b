//! Content normalizer: decodes a fixed table of HTML entities and escapes
//! chat-markdown control sequences, in that order, so that decoded
//! characters are still escape-processed.

use vstd::prelude::*;
use crate::text::{replaced, replace_all, str_to_chars, chars_to_string};

verus! {

/// The fixed entity table, substituted in a single left-to-right pass each:
/// pipe, backslash, double and single quote, angle brackets (numeric and
/// named), plus and backtick. Unknown entities are left untouched.
pub open spec fn html_decoded(s: Seq<char>) -> Seq<char> {
    replaced(
        replaced(
            replaced(
                replaced(
                    replaced(
                        replaced(
                            replaced(
                                replaced(
                                    replaced(
                                        replaced(s, "&#124;"@, "|"@),
                                        "&#92;"@,
                                        "\\"@,
                                    ),
                                    "&#34;"@,
                                    "\""@,
                                ),
                                "&#39;"@,
                                "'"@,
                            ),
                            "&#60;"@,
                            "<"@,
                        ),
                        "&lt;"@,
                        "<"@,
                    ),
                    "&#62;"@,
                    ">"@,
                ),
                "&gt;"@,
                ">"@,
            ),
            "&#43;"@,
            "+"@,
        ),
        "&#96;"@,
        "`"@,
    )
}

/// The markdown escape: heading markers of length three and two are dropped
/// entirely, a remaining `#` is escaped with a backslash, and a literal
/// double space becomes a line break.
pub open spec fn markdown_escaped(s: Seq<char>) -> Seq<char> {
    replaced(
        replaced(replaced(replaced(s, "###"@, ""@), "##"@, ""@), "#"@, "\\#"@),
        "  "@,
        "\n"@,
    )
}

/// Full normalization: entities are decoded first, then markdown is escaped,
/// because decoding can introduce characters that still need escaping.
pub open spec fn normalized(s: Seq<char>) -> Seq<char> {
    markdown_escaped(html_decoded(s))
}

fn replace_lit(v: Vec<char>, pat: &str, rep: &str) -> (r: Vec<char>)
    ensures
        r@ == replaced(v@, pat@, rep@),
{
    let p = str_to_chars(pat);
    let q = str_to_chars(rep);
    replace_all(&v, &p, &q)
}

/// Decodes the fixed table of HTML entities in `content`.
pub fn html_decode(content: String) -> (r: String)
    ensures
        r@ == html_decoded(content@),
{
    let mut cs = str_to_chars(content.as_str());
    cs = replace_lit(cs, "&#124;", "|");
    cs = replace_lit(cs, "&#92;", "\\");
    cs = replace_lit(cs, "&#34;", "\"");
    cs = replace_lit(cs, "&#39;", "'");
    cs = replace_lit(cs, "&#60;", "<");
    cs = replace_lit(cs, "&lt;", "<");
    cs = replace_lit(cs, "&#62;", ">");
    cs = replace_lit(cs, "&gt;", ">");
    cs = replace_lit(cs, "&#43;", "+");
    cs = replace_lit(cs, "&#96;", "`");
    chars_to_string(&cs)
}

/// Escapes chat-markdown control sequences in `content`.
pub fn escpae_markdown(content: String) -> (r: String)
    ensures
        r@ == markdown_escaped(content@),
{
    let mut cs = str_to_chars(content.as_str());
    cs = replace_lit(cs, "###", "");
    cs = replace_lit(cs, "##", "");
    cs = replace_lit(cs, "#", "\\#");
    cs = replace_lit(cs, "  ", "\n");
    chars_to_string(&cs)
}

/// Decodes entities, then escapes markdown: the order `normalized` fixes.
pub fn normalize(content: String) -> (r: String)
    ensures
        r@ == normalized(content@),
{
    escpae_markdown(html_decode(content))
}

} // verus!
