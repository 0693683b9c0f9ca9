//! The windows, documents and settings objects that a `Location` consults,
//! each as the plain values that a decision reads.

use crate::navigation::{PipelineId, ReferrerPolicy};
use crate::origin::ImmutableOrigin;
use crate::url_value::Url;
use vstd::prelude::*;

verus! {

/// A document: its URL and its referrer policy.
#[derive(Debug, PartialEq, Eq)]
pub struct Document {
    pub url: Url,
    pub referrer_policy: Option<ReferrerPolicy>,
}

/// The browsing context of a window's document. Its active document is
/// absent while that document is not fully active.
#[derive(Debug, PartialEq, Eq)]
pub struct BrowsingContext {
    pub active_document: Option<Document>,
}

/// A window: its own document, that document's browsing context if it still
/// has one, and what the window says of itself as a global object.
#[derive(Debug, PartialEq, Eq)]
pub struct Window {
    pub document: Document,
    pub browsing_context: Option<BrowsingContext>,
    pub origin: ImmutableOrigin,
    pub pipeline_id: PipelineId,
}

/// The entry settings object: the scripting context at the outermost call
/// into the API.
#[derive(Debug, PartialEq, Eq)]
pub struct EntrySettings {
    /// What the comparison of origins answers: whether the origin of this
    /// settings object is same origin-domain with the origin of the active
    /// document that the `Location` stands for. It is read only where there
    /// is such a document.
    pub same_origin_domain: bool,
    /// The base URL against which a script's URLs are resolved.
    pub api_base_url: Url,
}

impl EntrySettings {
    /// Whether `value` can be resolved against the base URL.
    pub open spec fn resolves(&self, value: Seq<char>) -> bool {
        self.api_base_url.resolves(value)
    }

    /// Whether `value` can be resolved against the base URL.
    pub fn can_resolve(&self, value: &str) -> (fit: bool)
        ensures
            fit == self.resolves(value@),
    {
        self.api_base_url.can_resolve(value)
    }
}

} // verus!
