//! Calls into the `url` crate.
//!
//! A URL is held by the rest of the library as its serialization. Each
//! function here parses that text with the `url` crate, makes one call on the
//! parsed value and hands the outcome back as text. Nothing in this file is
//! proved: every contract gives what the `url` crate's function returns a
//! name of its own, and so claims that the same text gives the same answer
//! every time. Whether a serialization that comes back is itself accepted by
//! the parser is not claimed.
//!
//! The parser gives up on some text in a build that checks its arithmetic and
//! its own assertions. Each contract leaves that text out: text too long for
//! the parser's 32-bit counts, host labels long enough to overflow their
//! encoding, `blob` URLs that stand too deep in one another, and a path to
//! resolve against a `file` URL that ends in a drive letter.

use crate::text::{
    is_base_path, is_drive_letter_base, is_host_input, is_parser_input, TEXT_LIMIT,
};
use vstd::prelude::*;

verus! {

/// What `url::Url::parse` makes of `input`: the serialization of the parsed
/// URL, or the parser's message.
pub uninterp spec fn parse_outcome(input: Seq<char>) -> Result<Seq<char>, Seq<char>>;

/// What `url::Url::join` makes of `input` against the URL that `base`
/// serializes: the serialization of the resolved URL, or the parser's message.
pub uninterp spec fn join_outcome(base: Seq<char>, input: Seq<char>) -> Result<
    Seq<char>,
    Seq<char>,
>;

/// The serialization after `url::Url::set_fragment` with `Some(fragment)`.
pub uninterp spec fn fragment_replaced(href: Seq<char>, fragment: Seq<char>) -> Seq<char>;

/// The serialization after `url::Url::set_query` with `query`.
pub uninterp spec fn query_replaced(href: Seq<char>, query: Option<Seq<char>>) -> Seq<char>;

/// The serialization after `url::Url::set_path` with `path`.
pub uninterp spec fn path_replaced(href: Seq<char>, path: Seq<char>) -> Seq<char>;

/// The serialization after `url::Url::set_host` with `Some(host)`, whether
/// the call reported success or not.
pub uninterp spec fn host_replaced(href: Seq<char>, host: Seq<char>) -> Seq<char>;

/// The serialization after `url::quirks::set_port` with `port`, whether the
/// call reported success or not.
pub uninterp spec fn port_replaced(href: Seq<char>, port: Seq<char>) -> Seq<char>;

/// The serialization after `url::Url::set_scheme` with `scheme`, or `None`
/// where the call reports an error.
pub uninterp spec fn scheme_replaced(href: Seq<char>, scheme: Seq<char>) -> Option<Seq<char>>;

/// What `url::Url::cannot_be_a_base` answers: whether the path does not
/// begin with `/`.
pub open spec fn cannot_be_a_base_of(href: Seq<char>) -> bool {
    !(pathname_of(href).len() > 0 && pathname_of(href)[0] == '/')
}

/// Whether `url::Url::host` answers with a host.
pub uninterp spec fn has_host_of(href: Seq<char>) -> bool;

/// What `url::Url::scheme` answers.
pub uninterp spec fn scheme_of(href: Seq<char>) -> Seq<char>;

/// What `url::quirks::origin` answers.
pub uninterp spec fn origin_of(href: Seq<char>) -> Seq<char>;

/// What `url::quirks::protocol` answers: the scheme and a `:`.
pub open spec fn protocol_of(href: Seq<char>) -> Seq<char> {
    scheme_of(href).push(':')
}

/// What `url::quirks::host` answers.
pub uninterp spec fn host_of(href: Seq<char>) -> Seq<char>;

/// What `url::quirks::hostname` answers.
pub uninterp spec fn hostname_of(href: Seq<char>) -> Seq<char>;

/// What `url::quirks::port` answers.
pub uninterp spec fn port_of(href: Seq<char>) -> Seq<char>;

/// What `url::quirks::pathname` answers.
pub uninterp spec fn pathname_of(href: Seq<char>) -> Seq<char>;

/// What `url::quirks::search` answers.
pub uninterp spec fn search_of(href: Seq<char>) -> Seq<char>;

/// What `url::quirks::hash` answers.
pub uninterp spec fn hash_of(href: Seq<char>) -> Seq<char>;

/// The URL and the value are short enough for a setter: together they hold
/// no more than [`TEXT_LIMIT`] characters. The `url` crate counts the bytes
/// of a serialization in 32 bits and gives up where a setter makes a longer
/// one.
pub open spec fn fits(href: Seq<char>, value: Seq<char>) -> bool {
    href.len() + value.len() <= TEXT_LIMIT
}

/// The serialization that the parser makes of `text`.
pub open spec fn serialization_of(text: Seq<char>) -> Seq<char> {
    parse_outcome(text)->Ok_0
}

/// The text is accepted by the parser as an absolute URL.
pub open spec fn is_url(text: Seq<char>) -> bool {
    parse_outcome(text) is Ok
}

/// The outcome of a parse as plain text on both sides.
pub open spec fn outcome_view(outcome: Result<String, String>) -> Result<Seq<char>, Seq<char>> {
    match outcome {
        Ok(text) => Ok(text@),
        Err(message) => Err(message@),
    }
}

/// An optional text as an optional sequence of characters.
pub open spec fn optional_view(text: Option<&str>) -> Option<Seq<char>> {
    match text {
        Some(text) => Some(text@),
        None => None,
    }
}

/// The characters of an optional text: none where it is absent.
pub open spec fn optional_text(text: Option<&str>) -> Seq<char> {
    match text {
        Some(text) => text@,
        None => Seq::empty(),
    }
}

/// An optional owned text as an optional sequence of characters.
pub open spec fn owned_view(text: Option<String>) -> Option<Seq<char>> {
    match text {
        Some(text) => Some(text@),
        None => None,
    }
}

/// `url::Url::parse`. The outcome is named by [`parse_outcome`]. One fact
/// about the parser stands beside the name: `about:blank` is accepted and is
/// its own serialization. Text that is too long, or whose labels are, is
/// left out.
#[verifier::external_body]
pub(crate) fn parse_text(input: &str) -> (outcome: Result<String, String>)
    requires
        is_parser_input(input@),
    ensures
        outcome_view(outcome) == parse_outcome(input@),
        input@ == "about:blank"@ ==> outcome is Ok,
        input@ == "about:blank"@ ==> outcome_view(outcome)->Ok_0 == input@,
{
    match url::Url::parse(input) {
        Ok(parsed) => Ok(parsed.into_string()),
        Err(error) => Err(error.to_string()),
    }
}

/// `url::Url::join` on the URL that `base` parses to. The outcome is named
/// by [`join_outcome`]. A path that goes on from a `file` base that ends in
/// a drive letter is left out: the parser asserts a trailing `/` that such a
/// base does not have.
#[verifier::external_body]
pub(crate) fn join_text(base: &str, input: &str) -> (outcome: Result<String, String>)
    requires
        is_url(base@),
        !is_drive_letter_base(serialization_of(base@)) || !is_base_path(input@),
        is_parser_input(input@),
    ensures
        outcome_view(outcome) == join_outcome(base@, input@),
{
    match url::Url::parse(base).unwrap().join(input) {
        Ok(joined) => Ok(joined.into_string()),
        Err(error) => Err(error.to_string()),
    }
}

/// `url::Url::set_fragment` with `Some(fragment)`. The new serialization is
/// named by [`fragment_replaced`].
#[verifier::external_body]
pub(crate) fn set_fragment_text(href: &str, fragment: &str) -> (text: String)
    requires
        is_url(href@),
        fits(href@, fragment@),
    ensures
        text@ == fragment_replaced(href@, fragment@),
{
    let mut parsed = url::Url::parse(href).unwrap();
    parsed.set_fragment(Some(fragment));
    parsed.into_string()
}

/// `url::Url::set_query`. The new serialization is named by
/// [`query_replaced`].
#[verifier::external_body]
pub(crate) fn set_query_text(href: &str, query: Option<&str>) -> (text: String)
    requires
        is_url(href@),
        fits(href@, optional_text(query)),
    ensures
        text@ == query_replaced(href@, optional_view(query)),
{
    let mut parsed = url::Url::parse(href).unwrap();
    parsed.set_query(query);
    parsed.into_string()
}

/// `url::Url::set_path`. The new serialization is named by
/// [`path_replaced`].
#[verifier::external_body]
pub(crate) fn set_path_text(href: &str, path: &str) -> (text: String)
    requires
        is_url(href@),
        fits(href@, path@),
    ensures
        text@ == path_replaced(href@, path@),
{
    let mut parsed = url::Url::parse(href).unwrap();
    parsed.set_path(path);
    parsed.into_string()
}

/// `url::Url::set_host` with `Some(host)`; what the call reports is dropped.
/// The serialization afterwards is named by [`host_replaced`]. A host that
/// the parser could not encode in 32 bits is left out.
#[verifier::external_body]
pub(crate) fn set_host_text(href: &str, host: &str) -> (text: String)
    requires
        is_url(href@),
        fits(href@, host@),
        is_host_input(host@),
    ensures
        text@ == host_replaced(href@, host@),
{
    let mut parsed = url::Url::parse(href).unwrap();
    let _ = parsed.set_host(Some(host));
    parsed.into_string()
}

/// `url::quirks::set_port`; what the call reports is dropped. The
/// serialization afterwards is named by [`port_replaced`].
#[verifier::external_body]
pub(crate) fn set_port_text(href: &str, port: &str) -> (text: String)
    requires
        is_url(href@),
        fits(href@, port@),
    ensures
        text@ == port_replaced(href@, port@),
{
    let mut parsed = url::Url::parse(href).unwrap();
    let _ = url::quirks::set_port(&mut parsed, port);
    parsed.into_string()
}

/// `url::Url::set_scheme`. Named by [`scheme_replaced`]: the new
/// serialization, or `None` where the call reports an error.
#[verifier::external_body]
pub(crate) fn set_scheme_text(href: &str, scheme: &str) -> (text: Option<String>)
    requires
        is_url(href@),
        fits(href@, scheme@),
    ensures
        owned_view(text) == scheme_replaced(href@, scheme@),
{
    let mut parsed = url::Url::parse(href).unwrap();
    match parsed.set_scheme(scheme) {
        Ok(()) => Some(parsed.into_string()),
        Err(()) => None,
    }
}

/// `url::Url::cannot_be_a_base`, which says whether the path does not begin
/// with `/`: stated by [`cannot_be_a_base_of`] over the path's name.
#[verifier::external_body]
pub(crate) fn cannot_be_a_base_text(href: &str) -> (flag: bool)
    requires
        is_url(href@),
    ensures
        flag == cannot_be_a_base_of(href@),
{
    url::Url::parse(href).unwrap().cannot_be_a_base()
}

/// `url::Url::host`, of which only the presence of a host is kept, named by
/// [`has_host_of`].
#[verifier::external_body]
pub(crate) fn has_host_text(href: &str) -> (flag: bool)
    requires
        is_url(href@),
    ensures
        flag == has_host_of(href@),
{
    url::Url::parse(href).unwrap().host().is_some()
}

/// `url::Url::scheme`, named by [`scheme_of`].
#[verifier::external_body]
pub(crate) fn scheme_text(href: &str) -> (text: String)
    requires
        is_url(href@),
    ensures
        text@ == scheme_of(href@),
{
    url::Url::parse(href).unwrap().scheme().to_string()
}

/// `url::quirks::origin`, named by [`origin_of`]. For a `blob` URL it parses
/// the path as a URL of its own, and so on for a `blob` URL inside it, so
/// the text has to be fit for the parser at each depth, and the depth
/// limited.
#[verifier::external_body]
pub(crate) fn origin_text(href: &str) -> (text: String)
    requires
        is_url(href@),
        is_parser_input(href@),
    ensures
        text@ == origin_of(href@),
{
    url::quirks::origin(&url::Url::parse(href).unwrap())
}

/// `url::quirks::protocol`, which cuts the serialization behind the `:` of
/// the scheme: stated by [`protocol_of`] over the scheme's name.
#[verifier::external_body]
pub(crate) fn protocol_text(href: &str) -> (text: String)
    requires
        is_url(href@),
    ensures
        text@ == protocol_of(href@),
{
    url::quirks::protocol(&url::Url::parse(href).unwrap()).to_string()
}

/// `url::quirks::host`, named by [`host_of`].
#[verifier::external_body]
pub(crate) fn host_text(href: &str) -> (text: String)
    requires
        is_url(href@),
    ensures
        text@ == host_of(href@),
{
    url::quirks::host(&url::Url::parse(href).unwrap()).to_string()
}

/// `url::quirks::hostname`, named by [`hostname_of`].
#[verifier::external_body]
pub(crate) fn hostname_text(href: &str) -> (text: String)
    requires
        is_url(href@),
    ensures
        text@ == hostname_of(href@),
{
    url::quirks::hostname(&url::Url::parse(href).unwrap()).to_string()
}

/// `url::quirks::port`, named by [`port_of`].
#[verifier::external_body]
pub(crate) fn port_text(href: &str) -> (text: String)
    requires
        is_url(href@),
    ensures
        text@ == port_of(href@),
{
    url::quirks::port(&url::Url::parse(href).unwrap()).to_string()
}

/// `url::quirks::pathname`, named by [`pathname_of`].
#[verifier::external_body]
pub(crate) fn pathname_text(href: &str) -> (text: String)
    requires
        is_url(href@),
    ensures
        text@ == pathname_of(href@),
{
    url::quirks::pathname(&url::Url::parse(href).unwrap()).to_string()
}

/// `url::quirks::search`, named by [`search_of`].
#[verifier::external_body]
pub(crate) fn search_text(href: &str) -> (text: String)
    requires
        is_url(href@),
    ensures
        text@ == search_of(href@),
{
    url::quirks::search(&url::Url::parse(href).unwrap()).to_string()
}

/// `url::quirks::hash`, named by [`hash_of`].
#[verifier::external_body]
pub(crate) fn hash_text(href: &str) -> (text: String)
    requires
        is_url(href@),
    ensures
        text@ == hash_of(href@),
{
    url::quirks::hash(&url::Url::parse(href).unwrap()).to_string()
}

} // verus!
