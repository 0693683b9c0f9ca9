//! The URL value that a document carries.

use crate::text::{
    base_path, drive_letter_base, is_base_path, is_drive_letter_base, is_host_input,
    is_parser_input, lemma_blank_is_parser_input, parser_input, TEXT_LIMIT,
};
use crate::url_calls::{
    cannot_be_a_base_of, cannot_be_a_base_text, fits, fragment_replaced, has_host_of,
    has_host_text, hash_of, hash_text, host_of, host_replaced, host_text, hostname_of,
    hostname_text, join_outcome, join_text, optional_text, optional_view, origin_of,
    origin_text, outcome_view, owned_view, parse_outcome, parse_text, path_replaced, pathname_of,
    pathname_text, port_of, port_replaced, port_text, protocol_of, protocol_text, query_replaced,
    scheme_of, scheme_replaced, scheme_text, search_of, search_text, serialization_of,
    set_fragment_text, set_host_text, set_path_text, set_port_text, set_query_text,
    set_scheme_text,
};
use vstd::prelude::*;

verus! {

/// An absolute URL: the text that was parsed, and the serialization that the
/// parser made of it.
///
/// A value exists only for text that the parser accepts, so every component
/// can be read from it and every setter applied to it. Two values are equal
/// where the same text was parsed. What a setter or a resolution gives is
/// plain text: the serialization of the new URL, of which nothing more is
/// known.
#[derive(Debug, PartialEq, Eq)]
pub struct Url {
    source: String,
    serialization: String,
}

impl View for Url {
    type V = Seq<char>;

    /// The text that was parsed.
    closed spec fn view(&self) -> Seq<char> {
        self.source@
    }
}

impl Clone for Url {
    fn clone(&self) -> (copy: Self)
        ensures
            copy == *self,
    {
        proof {
            use_type_invariant(self);
        }
        Url { source: self.source.clone(), serialization: self.serialization.clone() }
    }
}

impl Url {
    #[verifier::type_invariant]
    spec fn accepted(self) -> bool {
        &&& is_parser_input(self.source@)
        &&& parse_outcome(self.source@) == Ok::<Seq<char>, Seq<char>>(self.serialization@)
    }

    /// The serialization that the parser made.
    pub closed spec fn serialization(&self) -> Seq<char> {
        self.serialization@
    }

    /// Whether a path can go on from this URL's: it is no `file` URL that
    /// ends in a drive letter.
    pub open spec fn is_base(&self) -> bool {
        !is_drive_letter_base(self.serialization())
    }

    /// Whether `input` can be resolved against this URL: the parser can take
    /// it, and it is no path that would go on from a drive letter.
    pub open spec fn resolves(&self, input: Seq<char>) -> bool {
        is_parser_input(input) && (self.is_base() || !is_base_path(input))
    }

    /// Parses an absolute URL. Fails with the parser's message. The text has
    /// to be within the parser's limits, which `parser_input` tests.
    pub fn parse(input: &str) -> (outcome: Result<Url, String>)
        requires
            is_parser_input(input@),
        ensures
            match parse_outcome(input@) {
                Ok(serialization) => outcome matches Ok(url) && url@ == input@
                    && url.serialization() == serialization,
                Err(message) => outcome matches Err(refusal) && refusal@ == message,
            },
    {
        match parse_text(input) {
            Ok(serialization) => Ok(Url { source: String::from_str(input), serialization }),
            Err(message) => Err(message),
        }
    }

    /// The URL `about:blank`.
    pub fn about_blank() -> (blank: Url)
        ensures
            blank@ == "about:blank"@,
            blank.serialization() == "about:blank"@,
    {
        proof {
            lemma_blank_is_parser_input();
        }
        match parse_text("about:blank") {
            Ok(serialization) => Url { source: String::from_str("about:blank"), serialization },
            Err(_) => vstd::pervasive::unreached(),
        }
    }

    /// The serialization.
    pub fn as_str(&self) -> (text: &str)
        ensures
            text@ == self.serialization(),
            text@ == serialization_of(self@),
    {
        proof {
            use_type_invariant(self);
        }
        self.serialization.as_str()
    }

    /// Whether this URL and `value` are short enough for a setter.
    pub fn fits(&self, value: &str) -> (short: bool)
        ensures
            short == fits(self@, value@),
    {
        let length: usize = self.source.as_str().unicode_len();
        length <= TEXT_LIMIT && value.unicode_len() <= TEXT_LIMIT - length
    }

    /// Whether a path can go on from this URL's.
    pub fn can_be_base(&self) -> (base: bool)
        ensures
            base == self.is_base(),
    {
        !drive_letter_base(self.serialization.as_str())
    }

    /// Whether `input` can be resolved against this URL.
    pub fn can_resolve(&self, input: &str) -> (fit: bool)
        ensures
            fit == self.resolves(input@),
    {
        parser_input(input) && (self.can_be_base() || !base_path(input))
    }

    /// Resolves `input` against this URL and gives the serialization of the
    /// result. Fails with the parser's message. The input has to be one that
    /// `can_resolve` accepts.
    pub fn join(&self, input: &str) -> (outcome: Result<String, String>)
        requires
            self.resolves(input@),
        ensures
            outcome_view(outcome) == join_outcome(self@, input@),
    {
        proof {
            use_type_invariant(self);
        }
        join_text(self.source.as_str(), input)
    }

    /// The serialized URL, as the `href` attribute gives it.
    pub fn href(&self) -> (text: String)
        ensures
            text@ == self.serialization(),
            text@ == serialization_of(self@),
    {
        proof {
            use_type_invariant(self);
        }
        self.serialization.clone()
    }

    /// The serialized origin, as the `origin` attribute gives it.
    pub fn origin(&self) -> (text: String)
        ensures
            text@ == origin_of(self@),
    {
        proof {
            use_type_invariant(self);
        }
        origin_text(self.source.as_str())
    }

    /// The scheme followed by `:`, as the `protocol` attribute gives it.
    pub fn protocol(&self) -> (text: String)
        ensures
            text@ == protocol_of(self@),
    {
        proof {
            use_type_invariant(self);
        }
        protocol_text(self.source.as_str())
    }

    /// The host with its port, as the `host` attribute gives it.
    pub fn host(&self) -> (text: String)
        ensures
            text@ == host_of(self@),
    {
        proof {
            use_type_invariant(self);
        }
        host_text(self.source.as_str())
    }

    /// The host alone, as the `hostname` attribute gives it.
    pub fn hostname(&self) -> (text: String)
        ensures
            text@ == hostname_of(self@),
    {
        proof {
            use_type_invariant(self);
        }
        hostname_text(self.source.as_str())
    }

    /// The port, as the `port` attribute gives it.
    pub fn port(&self) -> (text: String)
        ensures
            text@ == port_of(self@),
    {
        proof {
            use_type_invariant(self);
        }
        port_text(self.source.as_str())
    }

    /// The path, as the `pathname` attribute gives it.
    pub fn pathname(&self) -> (text: String)
        ensures
            text@ == pathname_of(self@),
    {
        proof {
            use_type_invariant(self);
        }
        pathname_text(self.source.as_str())
    }

    /// The query with its `?`, as the `search` attribute gives it.
    pub fn search(&self) -> (text: String)
        ensures
            text@ == search_of(self@),
    {
        proof {
            use_type_invariant(self);
        }
        search_text(self.source.as_str())
    }

    /// The fragment with its `#`, as the `hash` attribute gives it.
    pub fn hash(&self) -> (text: String)
        ensures
            text@ == hash_of(self@),
    {
        proof {
            use_type_invariant(self);
        }
        hash_text(self.source.as_str())
    }

    /// The scheme, in lower case and without `:`.
    pub fn scheme(&self) -> (text: String)
        ensures
            text@ == scheme_of(self@),
    {
        proof {
            use_type_invariant(self);
        }
        scheme_text(self.source.as_str())
    }

    /// Whether the URL has no hierarchy to resolve against.
    pub fn cannot_be_a_base(&self) -> (flag: bool)
        ensures
            flag == cannot_be_a_base_of(self@),
    {
        proof {
            use_type_invariant(self);
        }
        cannot_be_a_base_text(self.source.as_str())
    }

    /// Whether the URL has a host.
    pub fn has_host(&self) -> (flag: bool)
        ensures
            flag == has_host_of(self@),
    {
        proof {
            use_type_invariant(self);
        }
        has_host_text(self.source.as_str())
    }

    /// The serialization of this URL with its fragment set to `fragment`.
    pub fn with_fragment(&self, fragment: &str) -> (changed: String)
        requires
            fits(self@, fragment@),
        ensures
            changed@ == fragment_replaced(self@, fragment@),
    {
        proof {
            use_type_invariant(self);
        }
        set_fragment_text(self.source.as_str(), fragment)
    }

    /// The serialization of this URL with its query set to `query`, or
    /// without a query.
    pub fn with_query(&self, query: Option<&str>) -> (changed: String)
        requires
            fits(self@, optional_text(query)),
        ensures
            changed@ == query_replaced(self@, optional_view(query)),
    {
        proof {
            use_type_invariant(self);
        }
        set_query_text(self.source.as_str(), query)
    }

    /// The serialization of this URL with its path replaced by `path`.
    pub fn with_path(&self, path: &str) -> (changed: String)
        requires
            fits(self@, path@),
        ensures
            changed@ == path_replaced(self@, path@),
    {
        proof {
            use_type_invariant(self);
        }
        set_path_text(self.source.as_str(), path)
    }

    /// The serialization of this URL after an attempt to set its host from
    /// `host`.
    pub fn with_host(&self, host: &str) -> (changed: String)
        requires
            fits(self@, host@),
            is_host_input(host@),
        ensures
            changed@ == host_replaced(self@, host@),
    {
        proof {
            use_type_invariant(self);
        }
        set_host_text(self.source.as_str(), host)
    }

    /// The serialization of this URL after an attempt to set its port from
    /// `port`; an empty `port` removes the port.
    pub fn with_port(&self, port: &str) -> (changed: String)
        requires
            fits(self@, port@),
        ensures
            changed@ == port_replaced(self@, port@),
    {
        proof {
            use_type_invariant(self);
        }
        set_port_text(self.source.as_str(), port)
    }

    /// The serialization of this URL with its scheme set to `scheme`, or
    /// `None` where the scheme is refused.
    pub fn with_scheme(&self, scheme: &str) -> (changed: Option<String>)
        requires
            fits(self@, scheme@),
        ensures
            owned_view(changed) == scheme_replaced(self@, scheme@),
    {
        proof {
            use_type_invariant(self);
        }
        set_scheme_text(self.source.as_str(), scheme)
    }
}

} // verus!
