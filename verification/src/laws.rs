//! What holds of a `Location` whatever the windows, the caller and the value.

use crate::context::{Document, EntrySettings, Window};
use crate::error::ErrorView;
use crate::fields::{is_file_scheme, is_http_scheme, scheme_input, Component, Setter};
use crate::location::{about_blank, Location};
use crate::navigation::HistoryEntryReplacement;
use crate::text::before_first;
use crate::url_calls::{
    cannot_be_a_base_of, fragment_replaced, join_outcome, query_replaced, scheme_of,
    scheme_replaced, serialization_of,
};
use vstd::prelude::*;

verus! {

/// The relevant document of `location` is `document`: the `Location` is
/// local, the document of its window has a browsing context, and `document`
/// is the active document of that context.
pub open spec fn has_live_document(location: &Location, document: &Document) -> bool {
    &&& location.window() is Some
    &&& location.window().unwrap().browsing_context is Some
    &&& location.window().unwrap().browsing_context.unwrap().active_document == Some(*document)
}

/// A caller that is same origin-domain with a live document passes the
/// origin check, and every getter answers with the field of that document's
/// URL.
pub proof fn lemma_same_origin_domain_reads_document(
    location: &Location,
    document: &Document,
    entry: &EntrySettings,
    component: Component,
)
    requires
        has_live_document(location, document),
        entry.same_origin_domain,
    ensures
        location.origin_check(entry) == Ok::<Option<Document>, ErrorView>(Some(*document)),
        location.read_result(entry, component) == Ok::<Seq<char>, ErrorView>(
            component.of(document.url@),
        ),
{
}

/// A caller that is not same origin-domain with a live document gets a
/// security error from every getter, from `reload` and from every setter
/// that runs the shared steps, whatever the value: no setter is reached, so
/// every value can be run.
pub proof fn lemma_cross_origin_domain_is_refused(
    location: &Location,
    document: &Document,
    entry: &EntrySettings,
    incumbent: &Window,
    component: Component,
    setter: Setter,
    value: Seq<char>,
)
    requires
        has_live_document(location, document),
        !entry.same_origin_domain,
    ensures
        location.accepts(entry, setter, value),
        location.read_result(entry, component) == Err::<Seq<char>, ErrorView>(ErrorView::Security),
        location.setter_result(entry, incumbent, setter, value) is Err,
        location.setter_result(entry, incumbent, setter, value)->Err_0 == ErrorView::Security,
        location.reload_result(entry, incumbent) is Err,
        location.reload_result(entry, incumbent)->Err_0 == ErrorView::Security,
{
}

/// `replace` and setting `href` never look at the origin of the document:
/// with a relevant document they navigate to whatever the value resolves to,
/// and fail only as the parser does, whoever calls.
pub proof fn lemma_resolving_skips_origin_check(
    location: &Location,
    entry: &EntrySettings,
    incumbent: &Window,
    value: Seq<char>,
    replacement: HistoryEntryReplacement,
    failure: spec_fn(Seq<char>) -> ErrorView,
)
    requires
        location.has_document(),
    ensures
        match join_outcome(entry.api_base_url@, value) {
            Ok(url) => {
                &&& location.resolve_result(entry, incumbent, value, replacement, failure) is Ok
                &&& location.resolve_result(
                    entry,
                    incumbent,
                    value,
                    replacement,
                    failure,
                )->Ok_0 matches Some(navigation)
                &&& navigation.load_data.url == url
                &&& navigation.replacement == replacement
                &&& !navigation.reload_triggered
            },
            Err(message) => {
                &&& location.resolve_result(entry, incumbent, value, replacement, failure) is Err
                &&& location.resolve_result(entry, incumbent, value, replacement, failure)->Err_0
                    == failure(message)
            },
        },
{
}

/// `replace` and setting `href` never fail with a security error.
pub proof fn lemma_replace_and_href_are_open(
    location: &Location,
    entry: &EntrySettings,
    incumbent: &Window,
    value: Seq<char>,
)
    ensures
        location.replace_result(entry, incumbent, value) is Err ==> location.replace_result(
            entry,
            incumbent,
            value,
        )->Err_0 == ErrorView::Syntax,
        location.set_href_result(entry, incumbent, value) is Err ==> location.set_href_result(
            entry,
            incumbent,
            value,
        )->Err_0 is Type,
{
}

/// Without a relevant document every getter answers with the field of
/// `about:blank`, and no setter, `assign`, `replace` or `href` navigates or
/// fails, whatever the value.
pub proof fn lemma_no_document_reads_blank(
    location: &Location,
    entry: &EntrySettings,
    incumbent: &Window,
    component: Component,
    setter: Setter,
    value: Seq<char>,
    replacement: HistoryEntryReplacement,
    failure: spec_fn(Seq<char>) -> ErrorView,
)
    requires
        !location.has_document(),
    ensures
        location.accepts(entry, setter, value),
        location.resolves(entry, value),
        location.origin_check(entry) == Ok::<Option<Document>, ErrorView>(None),
        location.read_result(entry, component) == Ok::<Seq<char>, ErrorView>(
            component.of(about_blank()),
        ),
        location.setter_result(entry, incumbent, setter, value) is Ok,
        location.setter_result(entry, incumbent, setter, value)->Ok_0 is None,
        location.resolve_result(entry, incumbent, value, replacement, failure) is Ok,
        location.resolve_result(entry, incumbent, value, replacement, failure)->Ok_0 is None,
{
}

/// An empty value for `hash` leaves the empty fragment.
pub proof fn lemma_empty_hash_is_empty_fragment(url: Seq<char>, base: Seq<char>)
    ensures
        Setter::Hash.outcome(url, Seq::<char>::empty(), base) is Ok,
        Setter::Hash.outcome(url, Seq::<char>::empty(), base)->Ok_0 == Some(
            fragment_replaced(url, Seq::<char>::empty()),
        ),
{
}

/// A leading `#` makes no difference to `hash`: a value that does not begin
/// with one is set as it is, and with one in front it is set to the same.
pub proof fn lemma_hash_marker_is_optional(
    location: &Location,
    entry: &EntrySettings,
    incumbent: &Window,
    url: Seq<char>,
    base: Seq<char>,
    value: Seq<char>,
)
    requires
        value.len() == 0 || value[0] != '#',
    ensures
        Setter::Hash.outcome(url, seq!['#'] + value, base) == Setter::Hash.outcome(
            url,
            value,
            base,
        ),
        Setter::Hash.outcome(url, value, base) is Ok,
        Setter::Hash.outcome(url, value, base)->Ok_0 == Some(fragment_replaced(url, value)),
        location.setter_result(entry, incumbent, Setter::Hash, seq!['#'] + value)
            == location.setter_result(entry, incumbent, Setter::Hash, value),
{
    assert((seq!['#'] + value).skip(1) == value);
}

/// An empty value for `search` removes the query.
pub proof fn lemma_empty_search_removes_query(url: Seq<char>, base: Seq<char>)
    ensures
        Setter::Search.outcome(url, Seq::<char>::empty(), base) is Ok,
        Setter::Search.outcome(url, Seq::<char>::empty(), base)->Ok_0 == Some(
            query_replaced(url, None),
        ),
{
}

/// A leading `?` makes no difference to `search`: a value that is not empty
/// and does not begin with one is set as it is, and with one in front it is
/// set to the same.
pub proof fn lemma_search_marker_is_optional(
    location: &Location,
    entry: &EntrySettings,
    incumbent: &Window,
    url: Seq<char>,
    base: Seq<char>,
    value: Seq<char>,
)
    requires
        value.len() > 0,
        value[0] != '?',
    ensures
        Setter::Search.outcome(url, seq!['?'] + value, base) == Setter::Search.outcome(
            url,
            value,
            base,
        ),
        Setter::Search.outcome(url, value, base) is Ok,
        Setter::Search.outcome(url, value, base)->Ok_0 == Some(
            query_replaced(url, Some(value)),
        ),
        location.setter_result(entry, incumbent, Setter::Search, seq!['?'] + value)
            == location.setter_result(entry, incumbent, Setter::Search, value),
{
    assert((seq!['?'] + value).skip(1) == value);
}

/// Setting `protocol` hands on a URL only where the scheme was accepted and
/// the URL then has the scheme `http` or `https`; a refused scheme is a
/// syntax error, and any other scheme ends the steps without a navigation.
pub proof fn lemma_protocol_navigates_to_http_only(
    url: Seq<char>,
    base: Seq<char>,
    value: Seq<char>,
)
    ensures
        match scheme_replaced(url, scheme_input(value)) {
            None => {
                &&& Setter::Protocol.outcome(url, value, base) is Err
                &&& Setter::Protocol.outcome(url, value, base)->Err_0 == ErrorView::Syntax
            },
            Some(changed) => {
                &&& Setter::Protocol.outcome(url, value, base) is Ok
                &&& Setter::Protocol.outcome(url, value, base)->Ok_0 == if is_http_scheme(
                    before_first(changed, ':'),
                ) {
                    Some(changed)
                } else {
                    None
                }
            },
        },
{
}

/// Setting `port` on a URL with the scheme `file` can be run with every
/// value and never navigates.
pub proof fn lemma_file_url_takes_no_port(
    location: &Location,
    entry: &EntrySettings,
    incumbent: &Window,
    url: Seq<char>,
    base: Seq<char>,
    value: Seq<char>,
)
    requires
        is_file_scheme(scheme_of(url)),
    ensures
        Setter::Port.accepts(url, value, entry),
        Setter::Port.outcome(url, value, base) is Ok,
        Setter::Port.outcome(url, value, base)->Ok_0 is None,
        location.origin_check(entry) matches Ok(Some(document)) && document.url@ == url
            ==> location.setter_result(entry, incumbent, Setter::Port, value) is Ok
            && location.setter_result(entry, incumbent, Setter::Port, value)->Ok_0 is None,
{
}

/// On a URL that cannot be a base, setting `host`, `hostname`, `pathname` or
/// `port` can be run with every value and never navigates.
pub proof fn lemma_no_base_takes_no_hierarchy(
    entry: &EntrySettings,
    setter: Setter,
    url: Seq<char>,
    base: Seq<char>,
    value: Seq<char>,
)
    requires
        cannot_be_a_base_of(url),
        setter == Setter::Host || setter == Setter::Hostname || setter == Setter::Pathname
            || setter == Setter::Port,
    ensures
        setter.accepts(url, value, entry),
        setter.outcome(url, value, base) is Ok,
        setter.outcome(url, value, base)->Ok_0 is None,
{
}

/// `reload` navigates to exactly the URL of the document that passed the
/// origin check, replaces the current entry of the history and is marked as a
/// reload.
pub proof fn lemma_reload_keeps_url(
    location: &Location,
    document: &Document,
    entry: &EntrySettings,
    incumbent: &Window,
)
    requires
        location.origin_check(entry) == Ok::<Option<Document>, ErrorView>(Some(*document)),
    ensures
        location.reload_result(entry, incumbent) is Ok,
        location.reload_result(entry, incumbent)->Ok_0 matches Some(navigation)
            && navigation.load_data.url == serialization_of(document.url@)
            && navigation.replacement == HistoryEntryReplacement::Enabled
            && navigation.reload_triggered,
{
}

/// `assign` navigates to its argument resolved against the base URL of the
/// entry settings object, and does not replace the current entry of the
/// history.
pub proof fn lemma_assign_resolves_against_entry(
    location: &Location,
    document: &Document,
    entry: &EntrySettings,
    incumbent: &Window,
    url: Seq<char>,
    resolved: Seq<char>,
)
    requires
        location.origin_check(entry) == Ok::<Option<Document>, ErrorView>(Some(*document)),
        join_outcome(entry.api_base_url@, url) == Ok::<Seq<char>, Seq<char>>(resolved),
    ensures
        location.setter_result(entry, incumbent, Setter::Assign, url) is Ok,
        location.setter_result(entry, incumbent, Setter::Assign, url)->Ok_0 matches Some(
            navigation,
        ) && navigation.load_data.url == resolved && navigation.replacement
            == HistoryEntryReplacement::Disabled && !navigation.reload_triggered,
{
}

} // verus!
