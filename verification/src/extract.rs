//! Finding the lyrics in the markup of a lyrics page.
//!
//! The page is read as a sequence of tokens in document order: every node
//! opens with one token and closes with a `Close`. Three `div`s, each a child
//! of the one before and known by its class string alone, lead from the
//! `body` to a container; the lyrics stand in the first `div` without a class
//! below it.

use vstd::prelude::*;
use crate::text::{has_substring, lines_of, occurs_in, same_text, text_of, trimmed};

verus! {

/// One step of a walk through a parsed document, in document order.
#[derive(Debug)]
pub enum MarkupToken {
    /// An element opens, with its tag name and its `class` attribute.
    Open { tag: String, class: Option<String> },
    /// A text node opens, with its text.
    Text(String),
    /// A node of another kind opens.
    Other,
    /// The node that was opened last and is still open closes.
    Close,
}

/// The mathematical content of a `MarkupToken`.
pub enum TokenView {
    Open { tag: Seq<char>, class: Option<Seq<char>> },
    Text(Seq<char>),
    Other,
    Close,
}

impl View for MarkupToken {
    type V = TokenView;

    open spec fn view(&self) -> TokenView {
        match *self {
            MarkupToken::Open { tag, class } => TokenView::Open { tag: tag@, class: text_of(class) },
            MarkupToken::Text(text) => TokenView::Text(text@),
            MarkupToken::Other => TokenView::Other,
            MarkupToken::Close => TokenView::Close,
        }
    }
}

/// The mathematical content of a sequence of tokens.
pub open spec fn tokens_of(tokens: Seq<MarkupToken>) -> Seq<TokenView> {
    Seq::new(tokens.len(), |i: int| tokens[i]@)
}

/// Whether `token` opens an element with the tag `body`.
pub open spec fn opens_body(token: TokenView) -> bool {
    match token {
        TokenView::Open { tag, .. } => tag == "body"@,
        _ => false,
    }
}

/// Whether `token` opens a `div` whose class attribute is `class`: the given
/// string, or no attribute at all.
pub open spec fn opens_div(token: TokenView, class: Option<Seq<char>>) -> bool {
    match token {
        TokenView::Open { tag, class: found } => tag == "div"@ && found == class,
        _ => false,
    }
}

/// The index of the first token from `from` on that opens a `body`.
pub open spec fn first_body(tokens: Seq<TokenView>, from: int) -> Option<int>
    decreases tokens.len() - from,
{
    if from < 0 || from >= tokens.len() {
        None
    } else if opens_body(tokens[from]) {
        Some(from)
    } else {
        first_body(tokens, from + 1)
    }
}

/// The index of the first token from `from` on that opens a `div` with the
/// class `class`, before the element closes that has `depth` nodes open at
/// `from`, itself included. With `direct`, only a child of that element
/// counts; without, any node below it.
pub open spec fn first_div(
    tokens: Seq<TokenView>,
    from: int,
    depth: nat,
    class: Option<Seq<char>>,
    direct: bool,
) -> Option<int>
    decreases tokens.len() - from,
{
    if from < 0 || from >= tokens.len() || depth == 0 {
        None
    } else if tokens[from] is Close {
        first_div(tokens, from + 1, (depth - 1) as nat, class, direct)
    } else if opens_div(tokens[from], class) && (depth == 1 || !direct) {
        Some(from)
    } else {
        first_div(tokens, from + 1, depth + 1, class, direct)
    }
}

/// The texts of the text nodes from `from` on, in order, up to where the
/// element closes that has `depth` nodes open at `from`, itself included.
pub open spec fn texts_within(tokens: Seq<TokenView>, from: int, depth: nat) -> Seq<Seq<char>>
    decreases tokens.len() - from,
{
    if from < 0 || from >= tokens.len() || depth == 0 {
        Seq::empty()
    } else {
        match tokens[from] {
            TokenView::Close => texts_within(tokens, from + 1, (depth - 1) as nat),
            TokenView::Text(text) => seq![text] + texts_within(tokens, from + 1, depth + 1),
            _ => texts_within(tokens, from + 1, depth + 1),
        }
    }
}

/// Whether a fragment is a blank line: nothing but white space.
pub open spec fn is_blank(fragment: Seq<char>) -> bool {
    trimmed(fragment).len() == 0
}

/// Whether the fragment at `i` stays: it does not show the advertisement's
/// configuration, and it is not a blank line right before another one.
pub open spec fn survives(fragments: Seq<Seq<char>>, i: int) -> bool {
    &&& !occurs_in("freestar.config"@, fragments[i])
    &&& !(is_blank(fragments[i]) && i + 1 < fragments.len() && is_blank(fragments[i + 1]))
}

/// The fragments from `from` on that stay, each trimmed.
pub open spec fn tidied_from(fragments: Seq<Seq<char>>, from: int) -> Seq<Seq<char>>
    decreases fragments.len() - from,
{
    if from < 0 || from >= fragments.len() {
        Seq::empty()
    } else if survives(fragments, from) {
        seq![trimmed(fragments[from])] + tidied_from(fragments, from + 1)
    } else {
        tidied_from(fragments, from + 1)
    }
}

/// The lyric lines that a lyrics container's text fragments stand for: the
/// first two fragments are the site's own and are dropped, the others are
/// tidied.
pub open spec fn tidied(fragments: Seq<Seq<char>>) -> Seq<Seq<char>> {
    if fragments.len() <= 2 {
        Seq::empty()
    } else {
        tidied_from(fragments.skip(2), 0)
    }
}

/// The lyric lines of a document, or `None` where the document has no
/// `body`, lacks one of the three containers, or has no `div` without a
/// class in the innermost of them.
pub open spec fn extracted(tokens: Seq<TokenView>) -> Option<Seq<Seq<char>>> {
    match first_body(tokens, 0) {
        None => None,
        Some(body) => match first_div(tokens, body + 1, 1, Some("container main-page"@), true) {
            None => None,
            Some(page) => match first_div(tokens, page + 1, 1, Some("row"@), true) {
                None => None,
                Some(row) => match first_div(
                    tokens,
                    row + 1,
                    1,
                    Some("col-xs-12 col-lg-8 text-center"@),
                    true,
                ) {
                    None => None,
                    Some(column) => match first_div(tokens, column + 1, 1, None, false) {
                        None => None,
                        Some(lyrics) => Some(tidied(texts_within(tokens, lyrics + 1, 1))),
                    },
                },
            },
        },
    }
}

/// An index as the mathematical integer it stands for.
pub open spec fn index_of(found: Option<usize>) -> Option<int> {
    match found {
        Some(i) => Some(i as int),
        None => None,
    }
}

/// The lines of an optional text.
pub open spec fn lines_of_option(lines: Option<Vec<String>>) -> Option<Seq<Seq<char>>> {
    match lines {
        Some(v) => Some(lines_of(v@)),
        None => None,
    }
}

/// The characters of the class that is asked for, if one is.
pub open spec fn class_of(class: Option<&str>) -> Option<Seq<char>> {
    match class {
        Some(c) => Some(c@),
        None => None,
    }
}

/// Whether `token` opens a `div` with the class `class`, or for `None` a
/// `div` without a class attribute.
pub fn is_div_with(token: &MarkupToken, class: Option<&str>) -> (yes: bool)
    ensures
        yes == opens_div(token@, class_of(class)),
{
    match token {
        MarkupToken::Open { tag, class: found } => {
            if !same_text(tag.as_str(), "div") {
                false
            } else {
                match (found, class) {
                    (Some(f), Some(c)) => same_text(f.as_str(), c),
                    (None, None) => true,
                    _ => false,
                }
            }
        },
        _ => false,
    }
}

/// Finds the first `body` element of the document.
pub fn find_body(tokens: &Vec<MarkupToken>) -> (found: Option<usize>)
    ensures
        index_of(found) == first_body(tokens_of(tokens@), 0),
        found is Some ==> found->0 < tokens.len() && opens_body(tokens[found->0 as int]@),
        forall|j: int|
            0 <= j < (if found is Some { found->0 } else { tokens.len() }) ==> !opens_body(
                #[trigger] tokens[j]@,
            ),
{
    let mut i: usize = 0;
    while i < tokens.len()
        invariant
            i <= tokens.len(),
            first_body(tokens_of(tokens@), 0) == first_body(tokens_of(tokens@), i as int),
            forall|j: int| 0 <= j < i ==> !opens_body(#[trigger] tokens[j]@),
        decreases tokens.len() - i,
    {
        let is_body = match &tokens[i] {
            MarkupToken::Open { tag, .. } => same_text(tag.as_str(), "body"),
            _ => false,
        };
        if is_body {
            return Some(i);
        }
        i += 1;
    }
    None
}

/// Finds the first `div` with the class `class` (or without any, for `None`)
/// in the element that opens at `inside`: among its children where `direct`
/// is set, among all the nodes below it where not.
pub fn find_div(tokens: &Vec<MarkupToken>, inside: usize, class: Option<&str>, direct: bool) -> (found:
    Option<usize>)
    ensures
        index_of(found) == first_div(tokens_of(tokens@), inside + 1, 1, class_of(class), direct),
        found is Some ==> inside < found->0 < tokens.len() && opens_div(
            tokens[found->0 as int]@,
            class_of(class),
        ),
{
    if inside >= tokens.len() {
        return None;
    }
    let mut i: usize = inside + 1;
    let mut depth: usize = 1;
    while i < tokens.len() && depth > 0
        invariant
            inside < i <= tokens.len(),
            depth <= i - inside,
            first_div(tokens_of(tokens@), inside + 1, 1, class_of(class), direct) == first_div(
                tokens_of(tokens@),
                i as int,
                depth as nat,
                class_of(class),
                direct,
            ),
        decreases tokens.len() - i,
    {
        match &tokens[i] {
            MarkupToken::Close => {
                depth -= 1;
            },
            token => {
                if (depth == 1 || !direct) && is_div_with(token, class) {
                    return Some(i);
                }
                depth += 1;
            },
        }
        i += 1;
    }
    None
}

/// Collects the texts of the text nodes below the element that opens at
/// `inside`, in document order.
pub fn collect_text(tokens: &Vec<MarkupToken>, inside: usize) -> (fragments: Vec<String>)
    ensures
        lines_of(fragments@) == texts_within(tokens_of(tokens@), inside + 1, 1),
{
    let mut fragments: Vec<String> = Vec::new();
    if inside >= tokens.len() {
        assert(lines_of(fragments@) =~= Seq::empty());
        return fragments;
    }
    let mut i: usize = inside + 1;
    let mut depth: usize = 1;
    assert(lines_of(fragments@) + texts_within(tokens_of(tokens@), i as int, 1) =~= texts_within(
        tokens_of(tokens@),
        i as int,
        1,
    ));
    while i < tokens.len() && depth > 0
        invariant
            inside < i <= tokens.len(),
            depth <= i - inside,
            texts_within(tokens_of(tokens@), inside + 1, 1) == lines_of(fragments@) + texts_within(
                tokens_of(tokens@),
                i as int,
                depth as nat,
            ),
        decreases tokens.len() - i,
    {
        let ghost before = lines_of(fragments@);
        let ghost rest = texts_within(tokens_of(tokens@), i + 1, (depth + 1) as nat);
        match &tokens[i] {
            MarkupToken::Close => {
                depth -= 1;
            },
            MarkupToken::Text(text) => {
                fragments.push(text.clone());
                depth += 1;
                assert(lines_of(fragments@) =~= before.push(text@));
                assert(before + (seq![text@] + rest) =~= before.push(text@) + rest);
            },
            _ => {
                depth += 1;
            },
        }
        i += 1;
    }
    assert(lines_of(fragments@) + Seq::<Seq<char>>::empty() =~= lines_of(fragments@));
    fragments
}

/// Turns the text fragments of the lyrics container into lyric lines: drops
/// the first two, drops every fragment that shows the advertisement's
/// configuration and every blank one that stands right before another blank
/// one, and trims what stays.
pub fn tidy_fragments(fragments: &Vec<String>) -> (lines: Vec<String>)
    ensures
        lines_of(lines@) == tidied(lines_of(fragments@)),
{
    let mut lines: Vec<String> = Vec::new();
    if fragments.len() <= 2 {
        assert(lines_of(lines@) =~= Seq::empty());
        return lines;
    }
    let ghost all = lines_of(fragments@);
    let ghost rest = all.skip(2);
    let mut i: usize = 2;
    assert(lines_of(lines@) + tidied_from(rest, 0) =~= tidied_from(rest, 0));
    while i < fragments.len()
        invariant
            2 <= i <= fragments.len(),
            all == lines_of(fragments@),
            rest == all.skip(2),
            tidied_from(rest, 0) == lines_of(lines@) + tidied_from(rest, i - 2),
        decreases fragments.len() - i,
    {
        let ghost before = lines_of(lines@);
        let ghost after = tidied_from(rest, i - 1);
        assert(rest[i - 2] == fragments[i as int]@);
        assert(i + 1 < fragments.len() ==> rest[i - 1] == fragments[i + 1]@);
        let piece = fragments[i].as_str().trim();
        let blank_pair = piece.is_empty() && i + 1 < fragments.len() && fragments[i
            + 1].as_str().trim().is_empty();
        if !blank_pair && !has_substring(fragments[i].as_str(), "freestar.config") {
            lines.push(piece.to_owned());
            assert(lines_of(lines@) =~= before.push(piece@));
            assert(before + (seq![piece@] + after) =~= before.push(piece@) + after);
        }
        i += 1;
    }
    assert(lines_of(lines@) + Seq::<Seq<char>>::empty() =~= lines_of(lines@));
    lines
}

/// Finds the lyrics in a document that is given as its tokens.
pub fn extract_lyrics(tokens: &Vec<MarkupToken>) -> (lyrics: Option<Vec<String>>)
    ensures
        lines_of_option(lyrics) == extracted(tokens_of(tokens@)),
{
    let body = match find_body(tokens) {
        Some(i) => i,
        None => return None,
    };
    let page = match find_div(tokens, body, Some("container main-page"), true) {
        Some(i) => i,
        None => return None,
    };
    let row = match find_div(tokens, page, Some("row"), true) {
        Some(i) => i,
        None => return None,
    };
    let column = match find_div(tokens, row, Some("col-xs-12 col-lg-8 text-center"), true) {
        Some(i) => i,
        None => return None,
    };
    let holder = match find_div(tokens, column, None, false) {
        Some(i) => i,
        None => return None,
    };
    let fragments = collect_text(tokens, holder);
    Some(tidy_fragments(&fragments))
}

/// The tokens of the document that `scraper` builds from `html`: a walk
/// through its tree in document order, one token where a node opens and a
/// `Close` where it closes. An element's token holds its tag name and, in the
/// place of the class, what its attribute named `attribute` holds.
pub uninterp spec fn parsed_markup(html: Seq<char>, attribute: Seq<char>) -> Seq<TokenView>;

/// Parses `html` with `scraper::Html::parse_document` and walks the tree it
/// built with `ego_tree`'s `traverse`, turning each edge into one token. The
/// parser reads nothing but its arguments, so the tokens are named
/// `parsed_markup(html@, attribute@)`; nothing else is claimed of them.
#[verifier::external_body]
fn parse_markup(html: &str, attribute: &str) -> (tokens: Vec<MarkupToken>)
    ensures
        tokens_of(tokens@) == parsed_markup(html@, attribute@),
{
    let document = scraper::Html::parse_document(html);
    let mut tokens = Vec::new();
    for edge in document.tree.root().traverse() {
        tokens.push(match edge {
            ego_tree::iter::Edge::Open(node) => match node.value() {
                scraper::Node::Element(e) => MarkupToken::Open { tag: e.name().to_owned(), class: e.attr(attribute).map(str::to_owned) },
                scraper::Node::Text(t) => MarkupToken::Text(t.to_string()),
                _ => MarkupToken::Other,
            },
            ego_tree::iter::Edge::Close(_) => MarkupToken::Close,
        });
    }
    tokens
}

/// Finds the lyrics in the text of a lyrics page.
pub fn lyrics_from_html(html: &str) -> (lyrics: Option<Vec<String>>)
    ensures
        lines_of_option(lyrics) == extracted(parsed_markup(html@, "class"@)),
{
    let tokens = parse_markup(html, "class");
    extract_lyrics(&tokens)
}

/// Extraction is repeatable: two results for the same page text are the
/// same lines, or both nothing.
pub proof fn extraction_repeats(
    html: Seq<char>,
    first: Option<Vec<String>>,
    second: Option<Vec<String>>,
)
    requires
        lines_of_option(first) == extracted(parsed_markup(html, "class"@)),
        lines_of_option(second) == extracted(parsed_markup(html, "class"@)),
    ensures
        lines_of_option(first) == lines_of_option(second),
        first is Some <==> second is Some,
{
}

} // verus!
