//! What a `Location` hands to the embedder when it decides to navigate.

use crate::origin::{ImmutableOrigin, ImmutableOriginView};
use crate::url_value::Url;
use vstd::prelude::*;

verus! {

/// Why a navigation is started.
#[derive(Clone, Copy, Debug, PartialEq, Eq, Structural)]
pub enum NavigationType {
    /// A script set a field, or called `assign` or `replace`.
    Normal,
    /// A script called `reload`.
    ReloadByScript,
    /// The user asked for a reload; no script is involved.
    ReloadByConstellation,
}

/// Whether a navigation replaces the current entry of the session history.
#[derive(Clone, Copy, Debug, PartialEq, Eq, Structural)]
pub enum HistoryEntryReplacement {
    Enabled,
    Disabled,
}

/// The referrer policy of a document.
#[derive(Clone, Copy, Debug, PartialEq, Eq, Structural)]
pub enum ReferrerPolicy {
    NoReferrer,
    NoReferrerWhenDowngrade,
    Origin,
    SameOrigin,
    OriginWhenCrossOrigin,
    UnsafeUrl,
    StrictOrigin,
    StrictOriginWhenCrossOrigin,
}

/// The pipeline of a window.
#[derive(Clone, Copy, Debug, PartialEq, Eq, Structural)]
pub struct PipelineId {
    pub namespace_id: u32,
    pub index: u32,
}

/// Who started a load.
#[derive(Debug, PartialEq, Eq)]
pub enum LoadOrigin {
    /// The browsing-context manager itself.
    Constellation,
    /// A script running at this origin.
    Script(ImmutableOrigin),
}

/// The mathematical value of a [`LoadOrigin`].
pub enum LoadOriginView {
    Constellation,
    Script(ImmutableOriginView),
}

impl View for LoadOrigin {
    type V = LoadOriginView;

    open spec fn view(&self) -> LoadOriginView {
        match *self {
            LoadOrigin::Constellation => LoadOriginView::Constellation,
            LoadOrigin::Script(origin) => LoadOriginView::Script(origin@),
        }
    }
}

/// The referrer of a request.
#[derive(Debug, PartialEq, Eq)]
pub enum Referrer {
    NoReferrer,
    Client,
    ReferrerUrl(Url),
}

/// The mathematical value of a [`Referrer`].
pub enum ReferrerView {
    NoReferrer,
    Client,
    ReferrerUrl(Seq<char>),
}

impl View for Referrer {
    type V = ReferrerView;

    open spec fn view(&self) -> ReferrerView {
        match *self {
            Referrer::NoReferrer => ReferrerView::NoReferrer,
            Referrer::Client => ReferrerView::Client,
            Referrer::ReferrerUrl(url) => ReferrerView::ReferrerUrl(url@),
        }
    }
}

/// A fully resolved request to load a document. The URL to load is given
/// as its serialization.
#[derive(Debug, PartialEq, Eq)]
pub struct LoadData {
    pub load_origin: LoadOrigin,
    pub url: String,
    pub creator_pipeline_id: Option<PipelineId>,
    pub referrer: Referrer,
    pub referrer_policy: Option<ReferrerPolicy>,
    pub inherited_secure_context: Option<bool>,
}

/// The mathematical value of a [`LoadData`].
pub struct LoadDataView {
    pub load_origin: LoadOriginView,
    pub url: Seq<char>,
    pub creator_pipeline_id: Option<PipelineId>,
    pub referrer: ReferrerView,
    pub referrer_policy: Option<ReferrerPolicy>,
    pub inherited_secure_context: Option<bool>,
}

impl View for LoadData {
    type V = LoadDataView;

    open spec fn view(&self) -> LoadDataView {
        LoadDataView {
            load_origin: self.load_origin@,
            url: self.url@,
            creator_pipeline_id: self.creator_pipeline_id,
            referrer: self.referrer@,
            referrer_policy: self.referrer_policy,
            inherited_secure_context: self.inherited_secure_context,
        }
    }
}

impl LoadData {
    /// A request made of its parts.
    pub fn new(
        load_origin: LoadOrigin,
        url: String,
        creator_pipeline_id: Option<PipelineId>,
        referrer: Referrer,
        referrer_policy: Option<ReferrerPolicy>,
        inherited_secure_context: Option<bool>,
    ) -> (load_data: LoadData)
        ensures
            load_data == (LoadData {
                load_origin,
                url,
                creator_pipeline_id,
                referrer,
                referrer_policy,
                inherited_secure_context,
            }),
    {
        LoadData {
            load_origin,
            url,
            creator_pipeline_id,
            referrer,
            referrer_policy,
            inherited_secure_context,
        }
    }
}

/// What an operation on a `Location` decides before any window is asked: the
/// URL to go to, as its serialization, and how.
#[derive(Debug, PartialEq, Eq)]
pub struct Request {
    pub url: String,
    pub replacement: HistoryEntryReplacement,
    pub ty: NavigationType,
}

/// The mathematical value of a [`Request`].
pub struct RequestView {
    pub url: Seq<char>,
    pub replacement: HistoryEntryReplacement,
    pub ty: NavigationType,
}

impl View for Request {
    type V = RequestView;

    open spec fn view(&self) -> RequestView {
        RequestView { url: self.url@, replacement: self.replacement, ty: self.ty }
    }
}

/// A navigation for the window of a `Location` to perform.
#[derive(Debug, PartialEq, Eq)]
pub struct Navigation {
    pub replacement: HistoryEntryReplacement,
    pub reload_triggered: bool,
    pub load_data: LoadData,
}

/// The mathematical value of a [`Navigation`].
pub struct NavigationView {
    pub replacement: HistoryEntryReplacement,
    pub reload_triggered: bool,
    pub load_data: LoadDataView,
}

impl View for Navigation {
    type V = NavigationView;

    open spec fn view(&self) -> NavigationView {
        NavigationView {
            replacement: self.replacement,
            reload_triggered: self.reload_triggered,
            load_data: self.load_data@,
        }
    }
}

} // verus!
