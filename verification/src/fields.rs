//! The fields of a `Location`: how each is read from a URL, and what setting
//! each does to a copy of the document's URL.

use crate::context::EntrySettings;
use crate::error::{Error, ErrorView};
use crate::text::{
    before_first, cut_before, eq_ignore_ascii_case, host_input, is_host_input,
    lemma_length_before, same_ignoring_ascii_case, strip_leading, without_leading,
};
use crate::url_calls::{
    cannot_be_a_base_of, fits, fragment_replaced, has_host_of, hash_of, host_of, host_replaced,
    hostname_of, join_outcome, optional_view, origin_of, path_replaced, pathname_of, port_of,
    port_replaced, protocol_of, query_replaced, scheme_of, scheme_replaced, search_of,
    serialization_of,
};
use crate::url_value::Url;
use vstd::prelude::*;

verus! {

/// A field that a script can read.
#[derive(Clone, Copy, Debug, PartialEq, Eq, Structural)]
pub enum Component {
    Href,
    Origin,
    Protocol,
    Host,
    Hostname,
    Port,
    Pathname,
    Search,
    Hash,
}

impl Component {
    /// The value of the field for the URL that `url` serializes.
    pub open spec fn of(self, url: Seq<char>) -> Seq<char> {
        match self {
            Component::Href => serialization_of(url),
            Component::Origin => origin_of(url),
            Component::Protocol => protocol_of(url),
            Component::Host => host_of(url),
            Component::Hostname => hostname_of(url),
            Component::Port => port_of(url),
            Component::Pathname => pathname_of(url),
            Component::Search => search_of(url),
            Component::Hash => hash_of(url),
        }
    }

    /// Reads the field from `url`.
    pub fn read(self, url: &Url) -> (text: String)
        ensures
            text@ == self.of(url@),
    {
        match self {
            Component::Href => url.href(),
            Component::Origin => url.origin(),
            Component::Protocol => url.protocol(),
            Component::Host => url.host(),
            Component::Hostname => url.hostname(),
            Component::Port => url.port(),
            Component::Pathname => url.pathname(),
            Component::Search => url.search(),
            Component::Hash => url.hash(),
        }
    }
}

/// A way to turn the document's URL and a script's value into the URL to
/// navigate to: one for each field that can be set, and one for `assign`.
#[derive(Clone, Copy, Debug, PartialEq, Eq, Structural)]
pub enum Setter {
    Assign,
    Hash,
    Host,
    Hostname,
    Pathname,
    Port,
    Protocol,
    Search,
}

/// The fragment that a value for `hash` stands for: the value without a
/// single leading `#`. An empty value stands for the empty fragment, so that
/// the URL keeps a bare `#`.
pub open spec fn fragment_input(value: Seq<char>) -> Seq<char> {
    without_leading(value, '#')
}

/// The query that a value for `search` stands for: none for an empty value,
/// else the value without a single leading `?`.
pub open spec fn query_input(value: Seq<char>) -> Option<Seq<char>> {
    if value.len() == 0 {
        None
    } else {
        Some(without_leading(value, '?'))
    }
}

/// The scheme that a value for `protocol` stands for: what stands before the
/// first `:`, or the whole value.
pub open spec fn scheme_input(value: Seq<char>) -> Seq<char> {
    before_first(value, ':')
}

/// A URL with this scheme cannot have a port.
pub open spec fn is_file_scheme(scheme: Seq<char>) -> bool {
    scheme == "file"@
}

/// The scheme is `http` or `https`, in any mix of cases.
pub open spec fn is_http_scheme(scheme: Seq<char>) -> bool {
    same_ignoring_ascii_case(scheme, "http"@) || same_ignoring_ascii_case(scheme, "https"@)
}

/// The scheme of a serialization, read off the text: what stands before its
/// first `:`.
pub open spec fn scheme_in(url: Seq<char>) -> Seq<char> {
    before_first(url, ':')
}

/// The serialization has the scheme `http` or `https`.
pub open spec fn has_http_scheme(url: Seq<char>) -> bool {
    is_http_scheme(scheme_in(url))
}

/// The URL cannot have a port: it has no host, cannot be a base, or has the
/// scheme `file`.
pub open spec fn cannot_have_port(url: Seq<char>) -> bool {
    !has_host_of(url) || cannot_be_a_base_of(url) || is_file_scheme(scheme_of(url))
}

/// The query that a value for `search` stands for.
pub fn query_of(value: &str) -> (query: Option<&str>)
    ensures
        optional_view(query) == query_input(value@),
{
    if value.unicode_len() == 0 {
        None
    } else {
        Some(strip_leading(value, '?'))
    }
}

/// What setting `protocol` answers once the scheme has been set: a syntax
/// error where the scheme was refused; the changed URL where its scheme is
/// `http` or `https`; nothing for any other scheme.
pub fn protocol_outcome(changed: Option<String>) -> (outcome: Result<Option<String>, Error>)
    ensures
        setter_outcome_view(outcome) == match changed {
            None => Err(ErrorView::Syntax),
            Some(url) => if has_http_scheme(url@) {
                Ok(Some(url@))
            } else {
                Ok(None)
            },
        },
{
    match changed {
        None => Err(Error::Syntax),
        Some(url) => {
            let scheme = cut_before(url.as_str(), ':');
            if eq_ignore_ascii_case(scheme, "http") || eq_ignore_ascii_case(scheme, "https") {
                Ok(Some(url))
            } else {
                Ok(None)
            }
        },
    }
}

impl Setter {
    /// What the setter makes of a copy of the document's URL: the
    /// serialization of the URL to navigate to, `None` where the steps end
    /// without a navigation, or the error to throw. `base` is the base URL
    /// of the entry settings object.
    pub open spec fn outcome(self, url: Seq<char>, value: Seq<char>, base: Seq<char>) -> Result<
        Option<Seq<char>>,
        ErrorView,
    > {
        match self {
            Setter::Assign => match join_outcome(base, value) {
                Ok(resolved) => Ok(Some(resolved)),
                Err(_) => Err(ErrorView::Syntax),
            },
            Setter::Hash => Ok(Some(fragment_replaced(url, fragment_input(value)))),
            Setter::Host | Setter::Hostname => if cannot_be_a_base_of(url) {
                Ok(None)
            } else {
                Ok(Some(host_replaced(url, value)))
            },
            Setter::Pathname => if cannot_be_a_base_of(url) {
                Ok(None)
            } else {
                Ok(Some(path_replaced(url, value)))
            },
            Setter::Port => if cannot_have_port(url) {
                Ok(None)
            } else {
                Ok(Some(port_replaced(url, value)))
            },
            Setter::Protocol => match scheme_replaced(url, scheme_input(value)) {
                None => Err(ErrorView::Syntax),
                Some(changed) => if has_http_scheme(changed) {
                    Ok(Some(changed))
                } else {
                    Ok(None)
                },
            },
            Setter::Search => Ok(Some(query_replaced(url, query_input(value)))),
        }
    }

    /// Whether the setter can be applied: where it reaches the URL parser,
    /// what it hands over is within the parser's limits. A setter that ends
    /// before it reaches the parser takes any value.
    pub open spec fn accepts(
        self,
        url: Seq<char>,
        value: Seq<char>,
        entry: &EntrySettings,
    ) -> bool {
        match self {
            Setter::Assign => entry.resolves(value),
            Setter::Hash | Setter::Search | Setter::Protocol => fits(url, value),
            Setter::Host | Setter::Hostname => cannot_be_a_base_of(url) || (fits(url, value)
                && is_host_input(value)),
            Setter::Pathname => cannot_be_a_base_of(url) || fits(url, value),
            Setter::Port => cannot_have_port(url) || fits(url, value),
        }
    }

    /// Whether the setter can be applied.
    pub fn can_apply(self, url: &Url, value: &str, entry: &EntrySettings) -> (fit: bool)
        ensures
            fit == self.accepts(url@, value@, entry),
    {
        match self {
            Setter::Assign => entry.can_resolve(value),
            Setter::Hash | Setter::Search | Setter::Protocol => url.fits(value),
            Setter::Host | Setter::Hostname => url.cannot_be_a_base() || (url.fits(value)
                && host_input(value)),
            Setter::Pathname => url.cannot_be_a_base() || url.fits(value),
            Setter::Port => !url.has_host() || url.cannot_be_a_base() || url.scheme()
                == String::from_str("file") || url.fits(value),
        }
    }

    /// Applies the setter to a copy of the document's URL.
    pub fn apply(self, copy_url: Url, value: &str, entry: &EntrySettings) -> (outcome: Result<
        Option<String>,
        Error,
    >)
        requires
            self.accepts(copy_url@, value@, entry),
        ensures
            setter_outcome_view(outcome) == self.outcome(copy_url@, value@, entry.api_base_url@),
    {
        match self {
            Setter::Assign => match entry.api_base_url.join(value) {
                Ok(resolved) => Ok(Some(resolved)),
                Err(_) => Err(Error::Syntax),
            },
            Setter::Hash => Ok(Some(copy_url.with_fragment(strip_leading(value, '#')))),
            Setter::Host | Setter::Hostname => {
                if copy_url.cannot_be_a_base() {
                    Ok(None)
                } else {
                    Ok(Some(copy_url.with_host(value)))
                }
            },
            Setter::Pathname => {
                if copy_url.cannot_be_a_base() {
                    Ok(None)
                } else {
                    Ok(Some(copy_url.with_path(value)))
                }
            },
            Setter::Port => {
                if !copy_url.has_host() || copy_url.cannot_be_a_base() || copy_url.scheme()
                    == String::from_str("file") {
                    Ok(None)
                } else {
                    Ok(Some(copy_url.with_port(value)))
                }
            },
            Setter::Protocol => {
                proof {
                    lemma_length_before(value@, ':');
                }
                protocol_outcome(copy_url.with_scheme(cut_before(value, ':')))
            },
            Setter::Search => Ok(Some(copy_url.with_query(query_of(value)))),
        }
    }
}

/// The outcome of a setter as its mathematical value.
pub open spec fn setter_outcome_view(outcome: Result<Option<String>, Error>) -> Result<
    Option<Seq<char>>,
    ErrorView,
> {
    match outcome {
        Ok(Some(url)) => Ok(Some(url@)),
        Ok(None) => Ok(None),
        Err(error) => Err(error@),
    }
}

} // verus!
