//! The address of a request: the proxy rewrite of a route's path, and the
//! `url` crate's parser behind a stated contract.

use crate::constants::API_BASE;
use url::{ParseError, Url};
use vstd::prelude::*;
use vstd::string::*;

verus! {

/// The `url` crate's `Url`, of which the proofs see `url_text` alone.
#[verifier::external_type_specification]
#[verifier::external_body]
pub struct ExUrl(Url);

/// The `url` crate's `ParseError`: why a text is no address. It is carried,
/// never looked into.
#[verifier::external_type_specification]
#[verifier::external_body]
pub struct ExParseError(ParseError);

/// The text of a parsed address: its serialization.
pub uninterp spec fn url_text(url: Url) -> Seq<char>;

/// What parsing a text as an absolute address gives: the serialization of the
/// address, or nothing where the text is refused.
pub uninterp spec fn parsed_url(text: Seq<char>) -> Option<Seq<char>>;

/// `Url::parse`. Claimed: the outcome depends on the text alone; it is named
/// `parsed_url`, and nothing more is said of it.
#[verifier::external_body]
pub(crate) fn parse_url(text: &str) -> (parsed: Result<Url, ParseError>)
    ensures
        parsed matches Ok(url) ==> parsed_url(text@) == Some(url_text(url)),
        parsed is Err ==> parsed_url(text@) is None,
{
    Url::parse(text)
}

/// `Url::as_str`. Claimed: it hands out the address's serialization.
#[verifier::external_body]
pub(crate) fn url_as_str(url: &Url) -> (text: &str)
    ensures
        text@ == url_text(*url),
{
    url.as_str()
}

/// `text` with every occurrence of `from` replaced by `to`, the occurrences
/// taken from the left and not overlapping.
pub open spec fn replaced(text: Seq<char>, from: Seq<char>, to: Seq<char>) -> Seq<char>
    decreases text.len(),
{
    if from.len() == 0 || text.len() < from.len() {
        text
    } else if text.subrange(0, from.len() as int) == from {
        to + replaced(text.subrange(from.len() as int, text.len() as int), from, to)
    } else {
        seq![text[0]] + replaced(text.subrange(1, text.len() as int), from, to)
    }
}

/// `from` stands somewhere in `text`.
pub open spec fn occurs(text: Seq<char>, from: Seq<char>) -> bool {
    exists|at: int|
        0 <= at && at + from.len() <= text.len() && #[trigger] text.subrange(
            at,
            at + from.len(),
        ) == from
}

/// std's `str::replace` with a text as the pattern. Claimed: all matches of
/// the pattern are replaced, found from the left and not overlapping. An
/// empty pattern, which std treats in a way of its own, is left out.
#[verifier::external_body]
pub(crate) fn replace_text(text: &str, from: &str, to: &str) -> (out: String)
    requires
        from@.len() > 0,
    ensures
        out@ == replaced(text@, from@, to@),
{
    text.replace(from, to)
}

/// Replacing changes nothing in a text that the pattern does not occur in.
pub proof fn lemma_replaced_without_occurrence(text: Seq<char>, from: Seq<char>, to: Seq<char>)
    requires
        !occurs(text, from),
    ensures
        replaced(text, from, to) == text,
    decreases text.len(),
{
    if from.len() == 0 || text.len() < from.len() {
    } else {
        assert(text.subrange(0int, 0int + from.len()) != from);
        let rest = text.subrange(1, text.len() as int);
        assert(!occurs(rest, from)) by {
            if occurs(rest, from) {
                let at = choose|at: int|
                    0 <= at && at + from.len() <= rest.len() && #[trigger] rest.subrange(
                        at,
                        at + from.len(),
                    ) == from;
                assert(text.subrange(at + 1, at + 1 + from.len()) =~= rest.subrange(
                    at,
                    at + from.len(),
                ));
            }
        }
        lemma_replaced_without_occurrence(rest, from, to);
        assert(seq![text[0]] + rest =~= text);
    }
}

/// A text that begins with the pattern begins, after replacing, with the
/// replacement; what follows the pattern is replaced in its turn.
pub proof fn lemma_replaced_at_start(rest: Seq<char>, from: Seq<char>, to: Seq<char>)
    requires
        from.len() > 0,
    ensures
        replaced(from + rest, from, to) == to + replaced(rest, from, to),
{
    let text = from + rest;
    assert(text.subrange(0, from.len() as int) =~= from);
    assert(text.subrange(from.len() as int, text.len() as int) =~= rest);
}

/// The path that is parsed as the request's address: with a proxy, the path
/// in which the proxy's address stands for the production base address;
/// without one, the path itself.
pub open spec fn rewritten(path: Seq<char>, proxy: Option<Seq<char>>) -> Seq<char> {
    match proxy {
        Some(to) => replaced(path, API_BASE@, to),
        None => path,
    }
}

/// The text of an optional address.
pub open spec fn text_of(proxy: Option<&Url>) -> Option<Seq<char>> {
    match proxy {
        Some(url) => Some(url_text(*url)),
        None => None,
    }
}

/// Applies the proxy rewrite to a route's rendered path.
pub fn resolve_path(path: &str, proxy: Option<&Url>) -> (resolved: String)
    ensures
        resolved@ == rewritten(path@, text_of(proxy)),
        proxy is None ==> resolved@ == path@,
{
    match proxy {
        Some(url) => {
            proof {
                reveal_strlit("https://discord.com/");
            }
            replace_text(path, API_BASE, url_as_str(url))
        },
        None => path.to_owned(),
    }
}

} // verus!
