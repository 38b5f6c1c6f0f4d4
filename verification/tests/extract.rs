use lyrics_display::extract::{
    collect_text, extract_lyrics, find_body, find_div, is_div_with, lyrics_from_html,
    tidy_fragments, MarkupToken,
};
use lyrics_display::token::{keep_alphanumerics, lyrics_url, normalize_token};

fn strings(items: &[&str]) -> Vec<String> {
    items.iter().map(|s| s.to_string()).collect()
}

fn open(tag: &str, class: Option<&str>) -> MarkupToken {
    MarkupToken::Open { tag: tag.to_string(), class: class.map(|c| c.to_string()) }
}

fn text(s: &str) -> Vec<MarkupToken> {
    vec![MarkupToken::Text(s.to_string()), MarkupToken::Close]
}

fn page_tokens(classes: [&str; 3], holder_class: Option<&str>) -> Vec<MarkupToken> {
    let mut tokens = vec![
        MarkupToken::Other,
        open("html", None),
        open("head", None),
        MarkupToken::Close,
        open("body", None),
        open("div", Some(classes[0])),
        open("div", Some(classes[1])),
        open("div", Some(classes[2])),
        open("div", Some("ringtone")),
    ];
    tokens.extend(text("advert"));
    tokens.push(MarkupToken::Close);
    tokens.push(open("div", holder_class));
    for fragment in ["credit1", "credit2", "\n", "Hello", "\n", "\n", "World"] {
        tokens.extend(text(fragment));
        tokens.push(open("br", None));
        tokens.push(MarkupToken::Close);
    }
    for _ in 0..5 {
        tokens.push(MarkupToken::Close);
    }
    tokens.extend(text("after the body's divs"));
    tokens.push(MarkupToken::Close);
    tokens.push(MarkupToken::Close);
    tokens.push(MarkupToken::Close);
    tokens
}

const CLASSES: [&str; 3] = ["container main-page", "row", "col-xs-12 col-lg-8 text-center"];

fn page_html(classes: [&str; 3], holder: &str) -> String {
    format!(
        "<!DOCTYPE html><html><head><title>t</title></head><body>\
         <div class=\"{}\"><div class=\"{}\"><div class=\"{}\">\
         <div class=\"ringtone\">advert</div>\
         <{}>credit1<br>credit2<br>\n<br>Hello<br>\n<br>\n<br>World</div>\
         </div></div></div></body></html>",
        classes[0], classes[1], classes[2], holder
    )
}

#[test]
fn tidy_drops_credits_and_collapses_double_blank() {
    let fragments = strings(&["credit1", "credit2", "\n", "Hello", "\n", "\n", "World"]);
    assert_eq!(tidy_fragments(&fragments), strings(&["", "Hello", "", "World"]));
}

#[test]
fn tidy_trims_each_fragment() {
    let fragments = strings(&["a", "b", "  Hello there \r\n", "\tWorld\u{a0}"]);
    assert_eq!(tidy_fragments(&fragments), strings(&["Hello there", "World"]));
}

#[test]
fn tidy_trims_white_space_and_nothing_else() {
    let fragments = strings(&[
        "a",
        "b",
        "\u{2003}\u{3000}wide\u{85}\u{2028}\u{1680}",
        "\u{200b}kept\u{200b}",
        "\u{b}\u{c} in the middle\u{202f}\u{205f}\u{2029}",
        "_x_",
    ]);
    assert_eq!(
        tidy_fragments(&fragments),
        strings(&["wide", "\u{200b}kept\u{200b}", "in the middle", "_x_"])
    );
}

#[test]
fn tidy_trims_exactly_the_white_space_characters() {
    let white = |c: char| {
        let n = c as u32;
        (0x09..=0x0D).contains(&n)
            || [0x20, 0x85, 0xA0, 0x1680, 0x2028, 0x2029, 0x202F, 0x205F, 0x3000].contains(&n)
            || (0x2000..=0x200A).contains(&n)
    };
    let mut fragments = strings(&["a", "b"]);
    let mut expected = Vec::new();
    for c in '\u{0}'..=char::MAX {
        fragments.push(format!("{}x{}", c, c));
        fragments.push("|".to_string());
        expected.push(if white(c) { "x".to_string() } else { format!("{}x{}", c, c) });
        expected.push("|".to_string());
    }
    assert_eq!(tidy_fragments(&fragments), expected);
}

#[test]
fn tidy_drops_the_advert_configuration() {
    let fragments = strings(&["a", "b", "one", " freestar.config.enabled_slots.push({}) ", "two"]);
    assert_eq!(tidy_fragments(&fragments), strings(&["one", "two"]));
}

#[test]
fn tidy_looks_one_fragment_ahead_only() {
    let fragments = strings(&["a", "b", "x", "\n", " ", "\n", "y", "\n"]);
    assert_eq!(tidy_fragments(&fragments), strings(&["x", "", "y", ""]));
    let advert = strings(&["a", "b", "x", "\n", "freestar.config", "\n", "y"]);
    assert_eq!(tidy_fragments(&advert), strings(&["x", "", "", "y"]));
}

#[test]
fn tidy_of_two_fragments_or_fewer_is_empty() {
    assert_eq!(tidy_fragments(&strings(&[])), Vec::<String>::new());
    assert_eq!(tidy_fragments(&strings(&["only"])), Vec::<String>::new());
    assert_eq!(tidy_fragments(&strings(&["one", "two"])), Vec::<String>::new());
    assert_eq!(tidy_fragments(&strings(&["one", "two", "three"])), strings(&["three"]));
}

#[test]
fn is_div_with_compares_tag_and_class() {
    assert!(is_div_with(&open("div", Some("row")), Some("row")));
    assert!(!is_div_with(&open("div", Some("row extra")), Some("row")));
    assert!(!is_div_with(&open("span", Some("row")), Some("row")));
    assert!(!is_div_with(&open("div", None), Some("row")));
    assert!(is_div_with(&open("div", None), None));
    assert!(!is_div_with(&open("div", Some("")), None));
    assert!(!is_div_with(&MarkupToken::Close, None));
    assert!(!is_div_with(&MarkupToken::Text("div".to_string()), None));
}

#[test]
fn find_body_and_divs_by_index() {
    let tokens = page_tokens(CLASSES, None);
    assert_eq!(find_body(&tokens), Some(4));
    assert_eq!(find_div(&tokens, 4, Some("container main-page"), true), Some(5));
    assert_eq!(find_div(&tokens, 5, Some("row"), true), Some(6));
    assert_eq!(find_div(&tokens, 4, Some("row"), true), None);
    assert_eq!(find_div(&tokens, 4, Some("row"), false), Some(6));
    assert_eq!(find_div(&tokens, 6, Some("row"), false), None);
    assert_eq!(find_div(&tokens, 7, None, false), Some(12));
    assert_eq!(find_div(&tokens, 7, None, true), Some(12));
    assert_eq!(find_div(&tokens, 6, None, true), None);
    assert_eq!(find_div(&tokens, 6, None, false), Some(12));
    assert_eq!(find_div(&tokens, 8, None, false), None);
    assert_eq!(find_div(&tokens, tokens.len(), None, false), None);
    assert_eq!(collect_text(&tokens, tokens.len() + 3), Vec::<String>::new());
    assert_eq!(find_body(&vec![MarkupToken::Other, MarkupToken::Close]), None);
}

#[test]
fn find_div_stops_where_the_element_closes() {
    let tokens = vec![
        open("body", None),
        open("div", Some("a")),
        MarkupToken::Close,
        open("div", Some("b")),
        MarkupToken::Close,
        MarkupToken::Close,
    ];
    assert_eq!(find_div(&tokens, 0, Some("b"), true), Some(3));
    assert_eq!(find_div(&tokens, 0, Some("b"), false), Some(3));
    assert_eq!(find_div(&tokens, 1, Some("b"), false), None);
    assert_eq!(collect_text(&tokens, 1), Vec::<String>::new());
}

#[test]
fn collect_text_takes_the_text_nodes_in_order() {
    let tokens = page_tokens(CLASSES, None);
    assert_eq!(
        collect_text(&tokens, 12),
        strings(&["credit1", "credit2", "\n", "Hello", "\n", "\n", "World"])
    );
    assert_eq!(collect_text(&tokens, 8), strings(&["advert"]));
}

#[test]
fn extract_finds_the_unlabeled_div() {
    let tokens = page_tokens(CLASSES, None);
    assert_eq!(extract_lyrics(&tokens), Some(strings(&["", "Hello", "", "World"])));
}

#[test]
fn extract_without_an_unlabeled_div_finds_nothing() {
    let tokens = page_tokens(CLASSES, Some("lyrics"));
    assert_eq!(extract_lyrics(&tokens), None);
}

#[test]
fn extract_without_one_of_the_containers_finds_nothing() {
    assert_eq!(extract_lyrics(&page_tokens(["container", "row", CLASSES[2]], None)), None);
    assert_eq!(extract_lyrics(&page_tokens([CLASSES[0], "rows", CLASSES[2]], None)), None);
    assert_eq!(extract_lyrics(&page_tokens([CLASSES[0], "row", "col-xs-12"], None)), None);
    assert_eq!(extract_lyrics(&Vec::new()), None);
}

#[test]
fn extract_wants_each_container_as_a_child_of_the_one_before() {
    let mut tokens = vec![
        open("body", None),
        open("div", Some(CLASSES[0])),
        open("div", Some("wrapper")),
        open("div", Some(CLASSES[1])),
        open("div", Some(CLASSES[2])),
        open("div", None),
    ];
    for _ in 0..6 {
        tokens.push(MarkupToken::Close);
    }
    assert_eq!(extract_lyrics(&tokens), None);
    let mut nested = vec![
        open("body", None),
        open("div", Some(CLASSES[0])),
        open("div", Some(CLASSES[1])),
        open("div", Some(CLASSES[2])),
        open("span", Some("wrapper")),
        open("div", Some("labeled")),
        MarkupToken::Close,
        open("div", None),
    ];
    nested.extend(text("one"));
    nested.extend(text("two"));
    nested.extend(text(" three "));
    for _ in 0..6 {
        nested.push(MarkupToken::Close);
    }
    assert_eq!(extract_lyrics(&nested), Some(strings(&["three"])));
}

#[test]
fn extract_of_an_empty_holder_is_found_and_empty() {
    let tokens = vec![
        open("body", None),
        open("div", Some(CLASSES[0])),
        open("div", Some(CLASSES[1])),
        open("div", Some(CLASSES[2])),
        open("div", None),
        MarkupToken::Close,
        MarkupToken::Close,
        MarkupToken::Close,
        MarkupToken::Close,
        MarkupToken::Close,
    ];
    assert_eq!(extract_lyrics(&tokens), Some(Vec::new()));
}

#[test]
fn lyrics_from_html_reads_a_page() {
    let html = page_html(CLASSES, "div");
    assert_eq!(lyrics_from_html(&html), Some(strings(&["", "Hello", "", "World"])));
}

#[test]
fn lyrics_from_html_is_repeatable() {
    let html = page_html(CLASSES, "div");
    assert_eq!(lyrics_from_html(&html), lyrics_from_html(&html));
    let other = page_html(["x", "row", CLASSES[2]], "div");
    assert_eq!(lyrics_from_html(&other), lyrics_from_html(&other));
}

#[test]
fn lyrics_from_html_without_a_container_finds_nothing() {
    assert_eq!(lyrics_from_html(&page_html(["main-page", "row", CLASSES[2]], "div")), None);
    assert_eq!(lyrics_from_html(&page_html([CLASSES[0], "column", CLASSES[2]], "div")), None);
    assert_eq!(lyrics_from_html(&page_html([CLASSES[0], "row", "text-center"], "div")), None);
    assert_eq!(lyrics_from_html(&page_html(CLASSES, "div class=\"lyrics\"")), None);
    assert_eq!(lyrics_from_html(""), None);
}

#[test]
fn normalize_token_lowers_and_strips() {
    assert_eq!(normalize_token("JPEGMAFIA"), "jpegmafia");
    assert_eq!(normalize_token("I used to be into dope"), "iusedtobeintodope");
    assert_eq!(normalize_token("Beyonc\u{e9} & JAY-Z, 4:44!"), "beyoncjayz444");
    assert_eq!(normalize_token(""), "");
}

#[test]
fn keep_alphanumerics_keeps_case() {
    assert_eq!(keep_alphanumerics("A b-C_1 \u{e9}9"), "AbC19");
    assert_eq!(keep_alphanumerics(" !?"), "");
}

#[test]
fn lyrics_url_matches_the_site() {
    assert_eq!(
        lyrics_url("JPEGMAFIA", "I used to be into dope"),
        "https://www.azlyrics.com/lyrics/jpegmafia/iusedtobeintodope.html"
    );
    assert_eq!(lyrics_url("", ""), "https://www.azlyrics.com/lyrics//.html");
}
