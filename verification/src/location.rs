//! The `Location` proxy: the origin check, the steps shared by the setters,
//! and the operations that a script calls.

use crate::context::{Document, EntrySettings, Window};
use crate::error::{parse_failure, parse_failure_prefix, Error, ErrorView};
use crate::fields::{Component, Setter};
use crate::navigation::{
    HistoryEntryReplacement, LoadData, LoadDataView, LoadOrigin, LoadOriginView, Navigation,
    NavigationType, NavigationView, Referrer, ReferrerView, Request, RequestView,
};
use crate::url_calls::{join_outcome, serialization_of};
use crate::url_value::Url;
use vstd::prelude::*;

verus! {

/// What a `Location` stands for: a window of this script thread, or a window
/// that lives elsewhere.
#[derive(Debug, PartialEq, Eq)]
pub enum Target {
    Local(Window),
    Remote,
}

/// The `Location` object of a window.
///
/// A proxy for a remote window behaves as if its document had been discarded
/// for good: it reads as `about:blank` and never navigates.
#[derive(Debug, PartialEq, Eq)]
pub struct Location {
    target: Target,
}

/// The URL that a `Location` without a relevant document reads as.
pub open spec fn about_blank() -> Seq<char> {
    "about:blank"@
}

/// An optional navigation as its mathematical value.
pub open spec fn optional_navigation_view(navigation: Option<Navigation>) -> Option<
    NavigationView,
> {
    match navigation {
        Some(navigation) => Some(navigation@),
        None => None,
    }
}

/// The result of an operation that may navigate, as its mathematical value.
pub open spec fn navigation_result_view(result: Result<Option<Navigation>, Error>) -> Result<
    Option<NavigationView>,
    ErrorView,
> {
    match result {
        Ok(navigation) => Ok(optional_navigation_view(navigation)),
        Err(error) => Err(error@),
    }
}

/// The result of a decision, as its mathematical value.
pub open spec fn request_result_view(result: Result<Option<Request>, Error>) -> Result<
    Option<RequestView>,
    ErrorView,
> {
    match result {
        Ok(Some(request)) => Ok(Some(request@)),
        Ok(None) => Ok(None),
        Err(error) => Err(error@),
    }
}

/// The result of reading a field, as its mathematical value.
pub open spec fn text_result_view(result: Result<String, Error>) -> Result<Seq<char>, ErrorView> {
    match result {
        Ok(text) => Ok(text@),
        Err(error) => Err(error@),
    }
}

/// The result of reading the URL, as its mathematical value.
pub open spec fn url_result_view(result: Result<Url, Error>) -> Result<Seq<char>, ErrorView> {
    match result {
        Ok(url) => Ok(url@),
        Err(error) => Err(error@),
    }
}

impl Location {
    /// What this `Location` stands for.
    pub closed spec fn target(&self) -> Target {
        self.target
    }

    /// The window of a local `Location`.
    pub open spec fn window(&self) -> Option<Window> {
        match self.target() {
            Target::Local(window) => Some(window),
            Target::Remote => None,
        }
    }

    /// Whether the relevant document is non-null: the `Location` is local and
    /// the document of its window still has a browsing context.
    pub open spec fn spec_has_document(&self) -> bool {
        match self.target() {
            Target::Local(window) => window.browsing_context is Some,
            Target::Remote => false,
        }
    }

    /// Whether `setter` can be run with `value`: where the origin check lets
    /// the caller through to a document, the setter accepts that document's
    /// URL and the value. Anywhere else nothing reaches the URL parser, and
    /// any value will do.
    pub open spec fn accepts(
        &self,
        entry: &EntrySettings,
        setter: Setter,
        value: Seq<char>,
    ) -> bool {
        match self.origin_check(entry) {
            Ok(Some(document)) => setter.accepts(document.url@, value, entry),
            _ => true,
        }
    }

    /// Whether `value` can be resolved for `replace` or `href`: with a
    /// relevant document, the entry settings object resolves it. Without one
    /// nothing reaches the URL parser.
    pub open spec fn resolves(&self, entry: &EntrySettings, value: Seq<char>) -> bool {
        self.spec_has_document() ==> entry.resolves(value)
    }

    /// What the origin check answers: no document where the relevant
    /// document is null; the active document of the browsing context where
    /// the comparison of origins says same origin-domain; a security error
    /// in every other case.
    pub open spec fn origin_check(&self, entry: &EntrySettings) -> Result<
        Option<Document>,
        ErrorView,
    > {
        match self.target() {
            Target::Local(window) => match window.browsing_context {
                Some(context) => match context.active_document {
                    Some(document) => if entry.same_origin_domain {
                        Ok(Some(document))
                    } else {
                        Err(ErrorView::Security)
                    },
                    None => Err(ErrorView::Security),
                },
                None => Ok(None),
            },
            Target::Remote => Ok(None),
        }
    }

    /// The URL that the getters read: that of the relevant document, or
    /// `about:blank` where there is none.
    pub open spec fn current_url(&self, entry: &EntrySettings) -> Result<Seq<char>, ErrorView> {
        match self.origin_check(entry) {
            Ok(Some(document)) => Ok(document.url@),
            Ok(None) => Ok(about_blank()),
            Err(error) => Err(error),
        }
    }

    /// The navigation that a local `Location` hands to its window, and none
    /// for a remote one.
    ///
    /// A reload has the window itself as the source of the referrer; any
    /// other navigation has the incumbent window. A script is named as the
    /// origin of the load, with the incumbent window's origin and pipeline,
    /// unless the reload was asked for without a script.
    pub open spec fn navigation(
        &self,
        incumbent: Option<&Window>,
        url: Seq<char>,
        replacement: HistoryEntryReplacement,
        ty: NavigationType,
    ) -> Option<NavigationView> {
        match self.target() {
            Target::Remote => None,
            Target::Local(window) => {
                let source = match ty {
                    NavigationType::Normal => *incumbent.unwrap(),
                    _ => window,
                };
                Some(
                    NavigationView {
                        replacement,
                        reload_triggered: ty != NavigationType::Normal,
                        load_data: LoadDataView {
                            load_origin: match ty {
                                NavigationType::ReloadByConstellation => {
                                    LoadOriginView::Constellation
                                },
                                _ => LoadOriginView::Script(incumbent.unwrap().origin@),
                            },
                            url,
                            creator_pipeline_id: match ty {
                                NavigationType::ReloadByConstellation => None,
                                _ => Some(incumbent.unwrap().pipeline_id),
                            },
                            referrer: ReferrerView::ReferrerUrl(source.document.url@),
                            referrer_policy: source.document.referrer_policy,
                            inherited_secure_context: None,
                        },
                    },
                )
            },
        }
    }

    /// The navigation that carries out `request`.
    pub open spec fn request_navigation(
        &self,
        incumbent: Option<&Window>,
        request: RequestView,
    ) -> Option<NavigationView> {
        self.navigation(incumbent, request.url, request.replacement, request.ty)
    }

    /// Whether the incumbent window has to be looked up to carry out
    /// `request`: the `Location` is local, and a script is involved.
    pub open spec fn asks_incumbent(&self, request: RequestView) -> bool {
        self.window() is Some && request.ty != NavigationType::ReloadByConstellation
    }

    /// What the steps shared by the setters decide before any window is
    /// asked: the error of the origin check; nothing where there is no
    /// document; else what `setter` makes of the document's URL, and for a
    /// new URL a request that does not replace the current entry of the
    /// history.
    pub open spec fn setter_request(
        &self,
        entry: &EntrySettings,
        setter: Setter,
        value: Seq<char>,
    ) -> Result<Option<RequestView>, ErrorView> {
        match self.origin_check(entry) {
            Err(error) => Err(error),
            Ok(None) => Ok(None),
            Ok(Some(document)) => match setter.outcome(document.url@, value, entry.api_base_url@) {
                Err(error) => Err(error),
                Ok(None) => Ok(None),
                Ok(Some(url)) => Ok(
                    Some(
                        RequestView {
                            url,
                            replacement: HistoryEntryReplacement::Disabled,
                            ty: NavigationType::Normal,
                        },
                    ),
                ),
            },
        }
    }

    /// What `replace` and setting `href` decide before any window is asked.
    pub open spec fn resolve_request(
        &self,
        entry: &EntrySettings,
        value: Seq<char>,
        replacement: HistoryEntryReplacement,
        failure: spec_fn(Seq<char>) -> ErrorView,
    ) -> Result<Option<RequestView>, ErrorView> {
        if self.spec_has_document() {
            match join_outcome(entry.api_base_url@, value) {
                Ok(url) => Ok(Some(RequestView { url, replacement, ty: NavigationType::Normal })),
                Err(message) => Err(failure(message)),
            }
        } else {
            Ok(None)
        }
    }

    /// What `replace` decides before any window is asked.
    pub open spec fn replace_request(&self, entry: &EntrySettings, url: Seq<char>) -> Result<
        Option<RequestView>,
        ErrorView,
    > {
        self.resolve_request(
            entry,
            url,
            HistoryEntryReplacement::Enabled,
            |message: Seq<char>| ErrorView::Syntax,
        )
    }

    /// What setting `href` decides before any window is asked.
    pub open spec fn href_request(&self, entry: &EntrySettings, value: Seq<char>) -> Result<
        Option<RequestView>,
        ErrorView,
    > {
        self.resolve_request(
            entry,
            value,
            HistoryEntryReplacement::Disabled,
            |message: Seq<char>| ErrorView::Type(parse_failure_prefix() + message),
        )
    }

    /// What `reload` decides before any window is asked.
    pub open spec fn reload_request(&self, entry: &EntrySettings) -> Result<
        Option<RequestView>,
        ErrorView,
    > {
        match self.current_url(entry) {
            Err(error) => Err(error),
            Ok(url) => Ok(
                Some(
                    RequestView {
                        url: serialization_of(url),
                        replacement: HistoryEntryReplacement::Enabled,
                        ty: NavigationType::ReloadByScript,
                    },
                ),
            ),
        }
    }

    /// What the reload that a user asks for comes to: the URL of the
    /// window's document, with replacement, and no script named.
    pub open spec fn user_reload_request(&self) -> RequestView {
        RequestView {
            url: serialization_of(self.window().unwrap().document.url@),
            replacement: HistoryEntryReplacement::Enabled,
            ty: NavigationType::ReloadByConstellation,
        }
    }

    /// What the steps shared by the setters answer: the error of the origin
    /// check; nothing where there is no document; else what `setter` makes
    /// of the document's URL, and for a new URL the navigation to it, which
    /// does not replace the current entry of the history.
    pub open spec fn setter_result(
        &self,
        entry: &EntrySettings,
        incumbent: &Window,
        setter: Setter,
        value: Seq<char>,
    ) -> Result<Option<NavigationView>, ErrorView> {
        match self.origin_check(entry) {
            Err(error) => Err(error),
            Ok(None) => Ok(None),
            Ok(Some(document)) => match setter.outcome(document.url@, value, entry.api_base_url@) {
                Err(error) => Err(error),
                Ok(None) => Ok(None),
                Ok(Some(url)) => Ok(
                    self.navigation(
                        Some(incumbent),
                        url,
                        HistoryEntryReplacement::Disabled,
                        NavigationType::Normal,
                    ),
                ),
            },
        }
    }

    /// What `replace` and setting `href` answer: nothing where there is no
    /// relevant document; else the navigation to `value` resolved against the
    /// base URL of the entry settings object, or `failure` of the parser's
    /// message. The origin of the document is not looked at.
    pub open spec fn resolve_result(
        &self,
        entry: &EntrySettings,
        incumbent: &Window,
        value: Seq<char>,
        replacement: HistoryEntryReplacement,
        failure: spec_fn(Seq<char>) -> ErrorView,
    ) -> Result<Option<NavigationView>, ErrorView> {
        if self.spec_has_document() {
            match join_outcome(entry.api_base_url@, value) {
                Ok(url) => Ok(
                    self.navigation(Some(incumbent), url, replacement, NavigationType::Normal),
                ),
                Err(message) => Err(failure(message)),
            }
        } else {
            Ok(None)
        }
    }

    /// What `replace` answers: a URL that does not parse is a syntax error.
    pub open spec fn replace_result(
        &self,
        entry: &EntrySettings,
        incumbent: &Window,
        url: Seq<char>,
    ) -> Result<Option<NavigationView>, ErrorView> {
        self.resolve_result(
            entry,
            incumbent,
            url,
            HistoryEntryReplacement::Enabled,
            |message: Seq<char>| ErrorView::Syntax,
        )
    }

    /// What setting `href` answers: a URL that does not parse is a type error
    /// with the parser's message.
    pub open spec fn set_href_result(
        &self,
        entry: &EntrySettings,
        incumbent: &Window,
        value: Seq<char>,
    ) -> Result<Option<NavigationView>, ErrorView> {
        self.resolve_result(
            entry,
            incumbent,
            value,
            HistoryEntryReplacement::Disabled,
            |message: Seq<char>| ErrorView::Type(parse_failure_prefix() + message),
        )
    }

    /// What `reload` answers: the error of the origin check, else the
    /// navigation to the URL that the getters read, which replaces the
    /// current entry of the history and is marked as a reload by a script.
    pub open spec fn reload_result(&self, entry: &EntrySettings, incumbent: &Window) -> Result<
        Option<NavigationView>,
        ErrorView,
    > {
        match self.current_url(entry) {
            Err(error) => Err(error),
            Ok(url) => Ok(
                self.navigation(
                    Some(incumbent),
                    serialization_of(url),
                    HistoryEntryReplacement::Enabled,
                    NavigationType::ReloadByScript,
                ),
            ),
        }
    }

    /// What reading `component` answers: the error of the origin check, else
    /// the field of the URL that the getters read.
    pub open spec fn read_result(&self, entry: &EntrySettings, component: Component) -> Result<
        Seq<char>,
        ErrorView,
    > {
        match self.current_url(entry) {
            Err(error) => Err(error),
            Ok(url) => Ok(component.of(url)),
        }
    }

    fn new_inherited(window: Option<Window>) -> (location: Location)
        ensures
            location.window() == window,
    {
        match window {
            Some(window) => Location { target: Target::Local(window) },
            None => Location { target: Target::Remote },
        }
    }

    /// The `Location` of a window of this script thread.
    pub fn new(window: Window) -> (location: Location)
        ensures
            location.target() == Target::Local(window),
    {
        Location::new_inherited(Some(window))
    }

    /// A `Location` for a remote document: a proxy for the real object, which
    /// lives outside this script thread.
    pub fn new_remote() -> (location: Location)
        ensures
            location.target() == Target::Remote,
    {
        Location::new_inherited(None)
    }

    /// Builds the navigation of the relevant document's browsing context to
    /// `url`. A remote `Location` does not navigate.
    ///
    /// The incumbent window is needed unless the `Location` is remote or the
    /// reload was asked for without a script.
    pub fn navigate(
        &self,
        incumbent: Option<&Window>,
        url: String,
        replacement_flag: HistoryEntryReplacement,
        ty: NavigationType,
    ) -> (navigation: Option<Navigation>)
        requires
            self.window() is Some && ty != NavigationType::ReloadByConstellation
                ==> incumbent is Some,
        ensures
            optional_navigation_view(navigation) == self.navigation(
                incumbent,
                url@,
                replacement_flag,
                ty,
            ),
    {
        let window = match &self.target {
            Target::Local(window) => window,
            Target::Remote => {
                return None;
            },
        };
        // The active document of the source browsing context determines the
        // referrer and the referrer policy of the request.
        let source_window = match ty {
            NavigationType::ReloadByScript | NavigationType::ReloadByConstellation => window,
            NavigationType::Normal => match incumbent {
                Some(incumbent_window) => incumbent_window,
                None => vstd::pervasive::unreached(),
            },
        };
        let source_document = &source_window.document;
        let referrer = Referrer::ReferrerUrl(source_document.url.clone());
        let referrer_policy = source_document.referrer_policy;
        let (load_origin, creator_pipeline_id) = match ty {
            NavigationType::Normal | NavigationType::ReloadByScript => match incumbent {
                Some(incumbent_window) => (
                    LoadOrigin::Script(incumbent_window.origin.clone()),
                    Some(incumbent_window.pipeline_id),
                ),
                None => vstd::pervasive::unreached(),
            },
            NavigationType::ReloadByConstellation => (LoadOrigin::Constellation, None),
        };
        let reload_triggered = match ty {
            NavigationType::ReloadByScript | NavigationType::ReloadByConstellation => true,
            NavigationType::Normal => false,
        };
        // A top-level navigation does not inherit a secure context.
        let load_data = LoadData::new(
            load_origin,
            url,
            creator_pipeline_id,
            referrer,
            referrer_policy,
            None,
        );
        Some(Navigation { replacement: replacement_flag, reload_triggered, load_data })
    }

    /// Whether the relevant document is non-null.
    #[verifier::when_used_as_spec(spec_has_document)]
    pub fn has_document(&self) -> (present: bool)
        ensures
            present == self.spec_has_document(),
    {
        match &self.target {
            Target::Local(window) => window.browsing_context.is_some(),
            Target::Remote => false,
        }
    }

    /// The relevant document, or a security error where it is non-null and
    /// its origin is not same origin-domain with the entry settings object's
    /// origin.
    pub fn document_if_same_origin(&self, entry: &EntrySettings) -> (result: Result<
        Option<&Document>,
        Error,
    >)
        ensures
            match self.origin_check(entry) {
                Ok(Some(document)) => result == Ok::<Option<&Document>, Error>(Some(&document)),
                Ok(None) => result == Ok::<Option<&Document>, Error>(None),
                Err(_) => result == Err::<Option<&Document>, Error>(Error::Security),
            },
    {
        let context = match &self.target {
            Target::Local(window) => match &window.browsing_context {
                Some(context) => context,
                None => {
                    return Ok(None);
                },
            },
            Target::Remote => {
                return Ok(None);
            },
        };
        match &context.active_document {
            Some(document) => {
                if entry.same_origin_domain {
                    Ok(Some(document))
                } else {
                    Err(Error::Security)
                }
            },
            None => Err(Error::Security),
        }
    }

    /// The URL of the relevant document, `about:blank` where there is none,
    /// or the security error of the origin check.
    pub fn get_url_if_same_origin(&self, entry: &EntrySettings) -> (result: Result<Url, Error>)
        ensures
            url_result_view(result) == self.current_url(entry),
    {
        match self.document_if_same_origin(entry) {
            Ok(Some(document)) => Ok(document.url.clone()),
            Ok(None) => Ok(Url::about_blank()),
            Err(error) => Err(error),
        }
    }

    /// Whether `setter` can be run with `value`.
    pub fn can_set(&self, entry: &EntrySettings, setter: Setter, value: &str) -> (fit: bool)
        ensures
            fit == self.accepts(entry, setter, value@),
    {
        match self.document_if_same_origin(entry) {
            Ok(Some(document)) => setter.can_apply(&document.url, value, entry),
            _ => true,
        }
    }

    /// Whether `value` can be resolved for `replace` or `href`.
    pub fn can_resolve(&self, entry: &EntrySettings, value: &str) -> (fit: bool)
        ensures
            fit == self.resolves(entry, value@),
    {
        !self.has_document() || entry.can_resolve(value)
    }

    /// The steps shared by the setters and `assign`. Where they reach the URL
    /// parser, the value has to be within its limits, which `can_set` tests;
    /// `set` tests and runs in one.
    pub fn setter_common(
        &self,
        entry: &EntrySettings,
        incumbent: &Window,
        setter: Setter,
        value: &str,
    ) -> (result: Result<Option<Navigation>, Error>)
        requires
            self.accepts(entry, setter, value@),
        ensures
            navigation_result_view(result) == self.setter_result(entry, incumbent, setter, value@),
    {
        match self.decide_setter(entry, setter, value) {
            Err(error) => Err(error),
            Ok(None) => Ok(None),
            Ok(Some(request)) => Ok(self.carry_out(Some(incumbent), request)),
        }
    }

    /// What the steps shared by the setters decide before any window is
    /// asked. The value has to be one that `can_set` accepts.
    pub fn decide_setter(&self, entry: &EntrySettings, setter: Setter, value: &str) -> (result:
        Result<Option<Request>, Error>)
        requires
            self.accepts(entry, setter, value@),
        ensures
            request_result_view(result) == self.setter_request(entry, setter, value@),
    {
        match self.document_if_same_origin(entry) {
            Err(error) => Err(error),
            Ok(None) => Ok(None),
            Ok(Some(document)) => match setter.apply(document.url.clone(), value, entry) {
                Err(error) => Err(error),
                Ok(None) => Ok(None),
                Ok(Some(copy_url)) => Ok(
                    Some(
                        Request {
                            url: copy_url,
                            replacement: HistoryEntryReplacement::Disabled,
                            ty: NavigationType::Normal,
                        },
                    ),
                ),
            },
        }
    }

    /// What `replace` decides before any window is asked. The URL has to be
    /// one that `can_resolve` accepts.
    pub fn decide_replace(&self, entry: &EntrySettings, url: &str) -> (result: Result<
        Option<Request>,
        Error,
    >)
        requires
            self.resolves(entry, url@),
        ensures
            request_result_view(result) == self.replace_request(entry, url@),
    {
        if self.has_document() {
            match entry.api_base_url.join(url) {
                Ok(url) => Ok(
                    Some(
                        Request {
                            url,
                            replacement: HistoryEntryReplacement::Enabled,
                            ty: NavigationType::Normal,
                        },
                    ),
                ),
                Err(_) => Err(Error::Syntax),
            }
        } else {
            Ok(None)
        }
    }

    /// What setting `href` decides before any window is asked. The value has
    /// to be one that `can_resolve` accepts.
    pub fn decide_href(&self, entry: &EntrySettings, value: &str) -> (result: Result<
        Option<Request>,
        Error,
    >)
        requires
            self.resolves(entry, value@),
        ensures
            request_result_view(result) == self.href_request(entry, value@),
    {
        if self.has_document() {
            match entry.api_base_url.join(value) {
                Ok(url) => Ok(
                    Some(
                        Request {
                            url,
                            replacement: HistoryEntryReplacement::Disabled,
                            ty: NavigationType::Normal,
                        },
                    ),
                ),
                Err(message) => Err(parse_failure(message.as_str())),
            }
        } else {
            Ok(None)
        }
    }

    /// What `reload` decides before any window is asked.
    pub fn decide_reload(&self, entry: &EntrySettings) -> (result: Result<Option<Request>, Error>)
        ensures
            request_result_view(result) == self.reload_request(entry),
    {
        match self.get_url_if_same_origin(entry) {
            Ok(url) => Ok(
                Some(
                    Request {
                        url: url.href(),
                        replacement: HistoryEntryReplacement::Enabled,
                        ty: NavigationType::ReloadByScript,
                    },
                ),
            ),
            Err(error) => Err(error),
        }
    }

    /// What the reload that a user asks for comes to. Only a local
    /// `Location` can do this.
    pub fn decide_user_reload(&self) -> (request: Request)
        requires
            self.window() is Some,
        ensures
            request@ == self.user_reload_request(),
    {
        let url = match &self.target {
            Target::Local(window) => window.document.url.href(),
            Target::Remote => vstd::pervasive::unreached(),
        };
        Request {
            url,
            replacement: HistoryEntryReplacement::Enabled,
            ty: NavigationType::ReloadByConstellation,
        }
    }

    /// Whether the incumbent window has to be looked up to carry out
    /// `request`.
    pub fn needs_incumbent(&self, request: &Request) -> (needed: bool)
        ensures
            needed == self.asks_incumbent(request@),
    {
        self.is_local() && !matches!(request.ty, NavigationType::ReloadByConstellation)
    }

    /// Carries out `request`: builds the navigation for the window to
    /// perform. The incumbent window is needed where `needs_incumbent` says
    /// so.
    pub fn carry_out(&self, incumbent: Option<&Window>, request: Request) -> (navigation: Option<
        Navigation,
    >)
        requires
            self.asks_incumbent(request@) ==> incumbent is Some,
        ensures
            optional_navigation_view(navigation) == self.request_navigation(incumbent, request@),
    {
        self.navigate(incumbent, request.url, request.replacement, request.ty)
    }

    /// The reload that a user asks for. It names no script, looks at no
    /// origin and replaces the current entry of the history.
    ///
    /// Only a local `Location` can do this.
    pub fn reload_without_origin_check(&self) -> (navigation: Navigation)
        requires
            self.window() is Some,
        ensures
            Some(navigation@) == self.navigation(
                None,
                serialization_of(self.window().unwrap().document.url@),
                HistoryEntryReplacement::Enabled,
                NavigationType::ReloadByConstellation,
            ),
    {
        match self.carry_out(None, self.decide_user_reload()) {
            Some(navigation) => navigation,
            None => vstd::pervasive::unreached(),
        }
    }

    /// Whether this `Location` stands for a window of this script thread.
    pub fn is_local(&self) -> (local: bool)
        ensures
            local == (self.window() is Some),
    {
        match &self.target {
            Target::Local(_) => true,
            Target::Remote => false,
        }
    }

    /// Runs `setter` with `value` where it can be run, and answers `None`
    /// where it cannot.
    pub fn set(
        &self,
        entry: &EntrySettings,
        incumbent: &Window,
        setter: Setter,
        value: &str,
    ) -> (result: Option<Result<Option<Navigation>, Error>>)
        ensures
            match result {
                Some(result) => self.accepts(entry, setter, value@) && navigation_result_view(
                    result,
                ) == self.setter_result(entry, incumbent, setter, value@),
                None => !self.accepts(entry, setter, value@),
            },
    {
        if !self.can_set(entry, setter, value) {
            return None;
        }
        Some(
            match setter {
                Setter::Assign => self.Assign(entry, incumbent, value),
                Setter::Hash => self.SetHash(entry, incumbent, value),
                Setter::Host => self.SetHost(entry, incumbent, value),
                Setter::Hostname => self.SetHostname(entry, incumbent, value),
                Setter::Pathname => self.SetPathname(entry, incumbent, value),
                Setter::Port => self.SetPort(entry, incumbent, value),
                Setter::Protocol => self.SetProtocol(entry, incumbent, value),
                Setter::Search => self.SetSearch(entry, incumbent, value),
            },
        )
    }

    /// Reads one field of the URL of the relevant document.
    pub fn get(&self, entry: &EntrySettings, component: Component) -> (result: Result<
        String,
        Error,
    >)
        ensures
            text_result_view(result) == self.read_result(entry, component),
    {
        match self.get_url_if_same_origin(entry) {
            Ok(url) => Ok(component.read(&url)),
            Err(error) => Err(error),
        }
    }

    /// `assign(url)`: navigates to `url` resolved against the base URL of the
    /// entry settings object. The origin check comes first; a URL that does not
    /// parse is a syntax error.
    #[allow(non_snake_case)]
    pub fn Assign(
        &self,
        entry: &EntrySettings,
        incumbent: &Window,
        url: &str,
    ) -> (result: Result<Option<Navigation>, Error>)
        requires
            self.accepts(entry, Setter::Assign, url@),
        ensures
            navigation_result_view(result) == self.setter_result(
                entry,
                incumbent,
                Setter::Assign,
                url@,
            ),
    {
        self.setter_common(entry, incumbent, Setter::Assign, url)
    }

    /// `reload()`: navigates to the current URL, replacing the current entry
    /// of the history.
    #[allow(non_snake_case)]
    pub fn Reload(&self, entry: &EntrySettings, incumbent: &Window) -> (result: Result<
        Option<Navigation>,
        Error,
    >)
        ensures
            navigation_result_view(result) == self.reload_result(entry, incumbent),
    {
        match self.decide_reload(entry) {
            Ok(Some(request)) => Ok(self.carry_out(Some(incumbent), request)),
            Ok(None) => Ok(None),
            Err(error) => Err(error),
        }
    }

    /// `replace(url)`: navigates to `url` resolved against the base URL of
    /// the entry settings object, replacing the current entry of the history.
    /// Only the presence of a document is asked for, not its origin; a URL
    /// that does not parse is a syntax error.
    #[allow(non_snake_case)]
    pub fn Replace(
        &self,
        entry: &EntrySettings,
        incumbent: &Window,
        url: &str,
    ) -> (result: Result<Option<Navigation>, Error>)
        requires
            self.resolves(entry, url@),
        ensures
            navigation_result_view(result) == self.replace_result(entry, incumbent, url@),
    {
        match self.decide_replace(entry, url) {
            Ok(Some(request)) => Ok(self.carry_out(Some(incumbent), request)),
            Ok(None) => Ok(None),
            Err(error) => Err(error),
        }
    }

    /// Sets `href`: navigates to `value` resolved against the base URL of the
    /// entry settings object. Only the presence of a document is asked for,
    /// not its origin; a URL that does not parse is a type error with the
    /// parser's message.
    #[allow(non_snake_case)]
    pub fn SetHref(
        &self,
        entry: &EntrySettings,
        incumbent: &Window,
        value: &str,
    ) -> (result: Result<Option<Navigation>, Error>)
        requires
            self.resolves(entry, value@),
        ensures
            navigation_result_view(result) == self.set_href_result(entry, incumbent, value@),
    {
        match self.decide_href(entry, value) {
            Ok(Some(request)) => Ok(self.carry_out(Some(incumbent), request)),
            Ok(None) => Ok(None),
            Err(error) => Err(error),
        }
    }

    /// Reads `href`.
    #[allow(non_snake_case)]
    pub fn GetHref(&self, entry: &EntrySettings) -> (result: Result<String, Error>)
        ensures
            text_result_view(result) == self.read_result(entry, Component::Href),
    {
        self.get(entry, Component::Href)
    }

    /// Reads `origin`.
    #[allow(non_snake_case)]
    pub fn GetOrigin(&self, entry: &EntrySettings) -> (result: Result<String, Error>)
        ensures
            text_result_view(result) == self.read_result(entry, Component::Origin),
    {
        self.get(entry, Component::Origin)
    }

    /// Reads `protocol`.
    #[allow(non_snake_case)]
    pub fn GetProtocol(&self, entry: &EntrySettings) -> (result: Result<String, Error>)
        ensures
            text_result_view(result) == self.read_result(entry, Component::Protocol),
    {
        self.get(entry, Component::Protocol)
    }

    /// Reads `host`.
    #[allow(non_snake_case)]
    pub fn GetHost(&self, entry: &EntrySettings) -> (result: Result<String, Error>)
        ensures
            text_result_view(result) == self.read_result(entry, Component::Host),
    {
        self.get(entry, Component::Host)
    }

    /// Reads `hostname`.
    #[allow(non_snake_case)]
    pub fn GetHostname(&self, entry: &EntrySettings) -> (result: Result<String, Error>)
        ensures
            text_result_view(result) == self.read_result(entry, Component::Hostname),
    {
        self.get(entry, Component::Hostname)
    }

    /// Reads `port`.
    #[allow(non_snake_case)]
    pub fn GetPort(&self, entry: &EntrySettings) -> (result: Result<String, Error>)
        ensures
            text_result_view(result) == self.read_result(entry, Component::Port),
    {
        self.get(entry, Component::Port)
    }

    /// Reads `pathname`.
    #[allow(non_snake_case)]
    pub fn GetPathname(&self, entry: &EntrySettings) -> (result: Result<String, Error>)
        ensures
            text_result_view(result) == self.read_result(entry, Component::Pathname),
    {
        self.get(entry, Component::Pathname)
    }

    /// Reads `search`.
    #[allow(non_snake_case)]
    pub fn GetSearch(&self, entry: &EntrySettings) -> (result: Result<String, Error>)
        ensures
            text_result_view(result) == self.read_result(entry, Component::Search),
    {
        self.get(entry, Component::Search)
    }

    /// Reads `hash`.
    #[allow(non_snake_case)]
    pub fn GetHash(&self, entry: &EntrySettings) -> (result: Result<String, Error>)
        ensures
            text_result_view(result) == self.read_result(entry, Component::Hash),
    {
        self.get(entry, Component::Hash)
    }

    /// Sets `protocol`.
    #[allow(non_snake_case)]
    pub fn SetProtocol(
        &self,
        entry: &EntrySettings,
        incumbent: &Window,
        value: &str,
    ) -> (result: Result<Option<Navigation>, Error>)
        requires
            self.accepts(entry, Setter::Protocol, value@),
        ensures
            navigation_result_view(result) == self.setter_result(
                entry,
                incumbent,
                Setter::Protocol,
                value@,
            ),
    {
        self.setter_common(entry, incumbent, Setter::Protocol, value)
    }

    /// Sets `host`.
    #[allow(non_snake_case)]
    pub fn SetHost(
        &self,
        entry: &EntrySettings,
        incumbent: &Window,
        value: &str,
    ) -> (result: Result<Option<Navigation>, Error>)
        requires
            self.accepts(entry, Setter::Host, value@),
        ensures
            navigation_result_view(result) == self.setter_result(
                entry,
                incumbent,
                Setter::Host,
                value@,
            ),
    {
        self.setter_common(entry, incumbent, Setter::Host, value)
    }

    /// Sets `hostname`.
    #[allow(non_snake_case)]
    pub fn SetHostname(
        &self,
        entry: &EntrySettings,
        incumbent: &Window,
        value: &str,
    ) -> (result: Result<Option<Navigation>, Error>)
        requires
            self.accepts(entry, Setter::Hostname, value@),
        ensures
            navigation_result_view(result) == self.setter_result(
                entry,
                incumbent,
                Setter::Hostname,
                value@,
            ),
    {
        self.setter_common(entry, incumbent, Setter::Hostname, value)
    }

    /// Sets `port`.
    #[allow(non_snake_case)]
    pub fn SetPort(
        &self,
        entry: &EntrySettings,
        incumbent: &Window,
        value: &str,
    ) -> (result: Result<Option<Navigation>, Error>)
        requires
            self.accepts(entry, Setter::Port, value@),
        ensures
            navigation_result_view(result) == self.setter_result(
                entry,
                incumbent,
                Setter::Port,
                value@,
            ),
    {
        self.setter_common(entry, incumbent, Setter::Port, value)
    }

    /// Sets `pathname`.
    #[allow(non_snake_case)]
    pub fn SetPathname(
        &self,
        entry: &EntrySettings,
        incumbent: &Window,
        value: &str,
    ) -> (result: Result<Option<Navigation>, Error>)
        requires
            self.accepts(entry, Setter::Pathname, value@),
        ensures
            navigation_result_view(result) == self.setter_result(
                entry,
                incumbent,
                Setter::Pathname,
                value@,
            ),
    {
        self.setter_common(entry, incumbent, Setter::Pathname, value)
    }

    /// Sets `search`.
    #[allow(non_snake_case)]
    pub fn SetSearch(
        &self,
        entry: &EntrySettings,
        incumbent: &Window,
        value: &str,
    ) -> (result: Result<Option<Navigation>, Error>)
        requires
            self.accepts(entry, Setter::Search, value@),
        ensures
            navigation_result_view(result) == self.setter_result(
                entry,
                incumbent,
                Setter::Search,
                value@,
            ),
    {
        self.setter_common(entry, incumbent, Setter::Search, value)
    }

    /// Sets `hash`.
    #[allow(non_snake_case)]
    pub fn SetHash(
        &self,
        entry: &EntrySettings,
        incumbent: &Window,
        value: &str,
    ) -> (result: Result<Option<Navigation>, Error>)
        requires
            self.accepts(entry, Setter::Hash, value@),
        ensures
            navigation_result_view(result) == self.setter_result(
                entry,
                incumbent,
                Setter::Hash,
                value@,
            ),
    {
        self.setter_common(entry, incumbent, Setter::Hash, value)
    }
}

} // verus!
