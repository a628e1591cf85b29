use blend::comment::extract_first_block_comment;

fn found(text: &str) -> Option<String> {
    extract_first_block_comment(text)
}

#[test]
fn comment_at_the_top_of_a_file() {
    let text = "/*\nname: widget\ndescription: a thing\n*/\nfn main() {}\n";
    assert_eq!(found(text), Some("name: widget\ndescription: a thing".to_string()));
}

#[test]
fn comment_on_one_line() {
    assert_eq!(found("/* name: x */"), Some("name: x".to_string()));
    assert_eq!(found("let a = 1; /* b */ let c = 2;"), Some("b".to_string()));
    assert_eq!(found("/**/"), Some(String::new()));
    assert_eq!(found("/*   */"), Some(String::new()));
}

#[test]
fn text_without_a_comment_holds_none() {
    assert_eq!(found(""), None);
    assert_eq!(found("fn main() {}\n"), None);
    assert_eq!(found("// a line comment\n/ * not one * /\n"), None);
    assert_eq!(found("a */ b"), None);
}

#[test]
fn comment_that_is_never_closed_holds_none() {
    assert_eq!(found("/* name: x\nmore\n"), None);
    assert_eq!(found("/*"), None);
    assert_eq!(found("/*/"), None);
}

#[test]
fn delimiters_are_not_found_across_lines() {
    assert_eq!(found("/\n* a */"), None);
    assert_eq!(found("/* a *\n/"), None);
    assert_eq!(found("/* a *\r\n/ b */"), Some("a *\n/ b".to_string()));
}

#[test]
fn only_the_first_comment_is_read() {
    assert_eq!(found("/* one */ /* two */"), Some("one".to_string()));
    assert_eq!(found("x\n/* one\n*/\n/* two */"), Some("one".to_string()));
}

#[test]
fn closing_delimiter_before_the_opening_one_is_passed_over() {
    assert_eq!(found("*/ /* a */"), Some("a".to_string()));
    assert_eq!(found("*/\n/* a\n*/"), Some("a".to_string()));
}

#[test]
fn comment_that_opens_inside_a_line_and_closes_later() {
    let text = "code(); /*\nrepo: r\nhash: h\n   */ more();\n";
    assert_eq!(found(text), Some("repo: r\nhash: h".to_string()));
}

#[test]
fn line_feed_that_ends_the_opening_line_is_kept() {
    assert_eq!(found("/* name: x\ndescription: y */"), Some("name: x\ndescription: y".to_string()));
    assert_eq!(found("/*a\nb\nc*/"), Some("a\nb\nc".to_string()));
    assert_eq!(found("/*a\nb*/"), Some("a\nb".to_string()));
    assert_eq!(
        found("/* name: a\ndescription: b\n*/\n"),
        Some("name: a\ndescription: b".to_string())
    );
    assert_eq!(found("/* name: a\r\ndescription: b\r\n*/"), Some("name: a\ndescription: b".to_string()));
}

#[test]
fn comment_is_the_text_between_the_first_delimiters() {
    for text in [
        "/**/",
        "x /* y */ z",
        "/*a\nb*/",
        "a\n/* b\n  c: d\n\n e */ f /* g */",
        "*/ /*/ k\n */",
        "/* open\nnever closed",
        "no comment\nat all",
        "/*\n\n\n*/",
    ] {
        let expected = text.find("/*").and_then(|open| {
            let rest = &text[open + 2..];
            rest.find("*/").map(|close| rest[..close].trim().to_string())
        });
        assert_eq!(found(text), expected, "for {:?}", text);
    }
}

#[test]
fn lines_inside_the_comment_are_joined_by_line_feeds() {
    assert_eq!(found("/*\r\na\r\nb\r\n*/"), Some("a\nb".to_string()));
    assert_eq!(found("/*\na\n\nb\n*/"), Some("a\n\nb".to_string()));
    assert_eq!(found("/*\n  a\n  b: c\n*/"), Some("a\n  b: c".to_string()));
}

#[test]
fn white_space_around_the_comment_is_dropped() {
    assert_eq!(found("/*\n\n\t a \u{a0}\n\n*/"), Some("a".to_string()));
    assert_eq!(found("/* \u{3000}é\u{2003} */"), Some("é".to_string()));
}

#[test]
fn opening_delimiter_may_close_on_its_own_characters_only_after_it() {
    assert_eq!(found("/*/ a */"), Some("/ a".to_string()));
    assert_eq!(found("/*/\n*/"), Some("/".to_string()));
    assert_eq!(found("/*/"), None);
}
