//! The tokens by which a track is looked up, and the address of its lyrics page.

use vstd::prelude::*;
use vstd::std_specs::iter::IteratorSpec;
use vstd::string::{axiom_spec_iter, next_postcondition};
use crate::text::lowercased;

verus! {

/// Whether `c` is an ASCII letter or digit.
pub open spec fn is_ascii_alphanumeric(c: char) -> bool {
    ('a' <= c && c <= 'z') || ('A' <= c && c <= 'Z') || ('0' <= c && c <= '9')
}

/// The ASCII letters and digits of `s`, in order.
pub open spec fn alphanumerics(s: Seq<char>) -> Seq<char> {
    s.filter(|c: char| is_ascii_alphanumeric(c))
}

/// The token for `s`: its lower-case form, with everything but ASCII letters
/// and digits taken out.
pub open spec fn token_of(s: Seq<char>) -> Seq<char> {
    alphanumerics(lowercased(s))
}

/// Keeps the ASCII letters and digits of `s` and drops everything else.
pub fn keep_alphanumerics(s: &str) -> (kept: String)
    ensures
        kept@ == alphanumerics(s@),
{
    broadcast use axiom_spec_iter, next_postcondition;

    let mut kept = String::new();
    let mut rest = s.chars();
    let ghost mut seen: Seq<char> = Seq::empty();
    loop
        invariant
            s@ == seen + rest.remaining(),
            kept@ == alphanumerics(seen),
            rest.obeys_prophetic_iter_laws(),
            rest.decrease() is Some,
        ensures
            kept@ == alphanumerics(s@),
        decreases rest.decrease()->0,
    {
        let ghost before = rest;
        match rest.next() {
            Some(c) => {
                proof {
                    assert(seen + before.remaining() =~= seen.push(c) + rest.remaining());
                    push_alphanumerics(seen, c);
                    seen = seen.push(c);
                }
                if ('a' <= c && c <= 'z') || ('A' <= c && c <= 'Z') || ('0' <= c && c <= '9') {
                    kept.push(c);
                }
            },
            None => {
                proof {
                    assert(seen + rest.remaining() =~= seen);
                    assert(s@ == seen);
                }
                break;
            },
        }
    }
    kept
}

/// Appending one character appends it to the kept characters, or not at all.
proof fn push_alphanumerics(s: Seq<char>, c: char)
    ensures
        alphanumerics(s.push(c)) == if is_ascii_alphanumeric(c) {
            alphanumerics(s).push(c)
        } else {
            alphanumerics(s)
        },
{
    reveal(Seq::filter);
    assert(s.push(c).drop_last() =~= s);
}

/// The token by which the lyrics site knows an artist or a title.
pub fn normalize_token(s: &str) -> (token: String)
    ensures
        token@ == token_of(s@),
{
    let lower = s.to_lowercase();
    keep_alphanumerics(lower.as_str())
}

/// The address of the lyrics page for a track, as characters.
pub open spec fn url_of(artist: Seq<char>, title: Seq<char>) -> Seq<char> {
    "https://www.azlyrics.com/lyrics/"@ + token_of(artist) + "/"@ + token_of(title) + ".html"@
}

/// The address of the lyrics page for the track `title` by `artist`.
pub fn lyrics_url(artist: &str, title: &str) -> (url: String)
    ensures
        url@ == url_of(artist@, title@),
{
    let mut url = String::from_str("https://www.azlyrics.com/lyrics/");
    let artist_token = normalize_token(artist);
    let title_token = normalize_token(title);
    url.append(artist_token.as_str());
    url.append("/");
    url.append(title_token.as_str());
    url.append(".html");
    url
}

} // verus!
