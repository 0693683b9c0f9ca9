use location::context::{BrowsingContext, Document, EntrySettings, Window};
use location::error::Error;
use location::fields::Component;
use location::location::Location;
use location::navigation::{PipelineId, ReferrerPolicy};
use location::origin::ImmutableOrigin;
use location::url_value::Url;

fn url(text: &str) -> Url {
    Url::parse(text).unwrap()
}

fn origin(host: &str) -> ImmutableOrigin {
    ImmutableOrigin::Tuple { scheme: "https".to_string(), host: host.to_string(), port: 443 }
}

fn document(address: &str, _host: &str) -> Document {
    Document { url: url(address), referrer_policy: Some(ReferrerPolicy::Origin) }
}

fn window(address: &str, host: &str) -> Window {
    Window {
        document: document(address, host),
        browsing_context: Some(BrowsingContext { active_document: Some(document(address, host)) }),
        origin: origin(host),
        pipeline_id: PipelineId { namespace_id: 1, index: 2 },
    }
}

fn entry(same_origin_domain: bool) -> EntrySettings {
    EntrySettings { same_origin_domain, api_base_url: url("https://example.com/base/page.html") }
}

fn same_origin() -> EntrySettings {
    entry(true)
}

fn cross_origin() -> EntrySettings {
    entry(false)
}

const ADDRESS: &str = "https://user:pw@example.com:8080/a/b?x=1#frag";

const COMPONENTS: [Component; 9] = [
    Component::Href,
    Component::Origin,
    Component::Protocol,
    Component::Host,
    Component::Hostname,
    Component::Port,
    Component::Pathname,
    Component::Search,
    Component::Hash,
];

#[test]
fn has_document_follows_the_browsing_context() {
    assert!(Location::new(window(ADDRESS, "example.com")).has_document());
    let mut discarded = window(ADDRESS, "example.com");
    discarded.browsing_context = None;
    assert!(!Location::new(discarded).has_document());
    assert!(!Location::new_remote().has_document());
}

#[test]
fn has_document_does_not_look_at_the_active_document() {
    let mut inactive = window(ADDRESS, "example.com");
    inactive.browsing_context = Some(BrowsingContext { active_document: None });
    assert!(Location::new(inactive).has_document());
}

#[test]
fn is_local_tells_the_two_kinds_apart() {
    assert!(Location::new(window(ADDRESS, "example.com")).is_local());
    assert!(!Location::new_remote().is_local());
}

#[test]
fn document_if_same_origin_hands_out_the_active_document() {
    let location = Location::new(window(ADDRESS, "example.com"));
    let expected = document(ADDRESS, "example.com");
    assert_eq!(location.document_if_same_origin(&same_origin()), Ok(Some(&expected)));
}

#[test]
fn document_if_same_origin_hands_out_the_active_document_not_the_window_document() {
    let mut target = window(ADDRESS, "example.com");
    target.browsing_context = Some(BrowsingContext {
        active_document: Some(document("https://example.com/other", "example.com")),
    });
    let location = Location::new(target);
    let expected = document("https://example.com/other", "example.com");
    assert_eq!(location.document_if_same_origin(&same_origin()), Ok(Some(&expected)));
}

#[test]
fn document_if_same_origin_refuses_another_origin() {
    let location = Location::new(window(ADDRESS, "example.com"));
    assert_eq!(location.document_if_same_origin(&cross_origin()), Err(Error::Security));
}

#[test]
fn document_if_same_origin_refuses_a_context_without_active_document() {
    let mut inactive = window(ADDRESS, "example.com");
    inactive.browsing_context = Some(BrowsingContext { active_document: None });
    let location = Location::new(inactive);
    assert_eq!(location.document_if_same_origin(&same_origin()), Err(Error::Security));
}

#[test]
fn document_if_same_origin_is_silent_without_browsing_context() {
    let mut discarded = window(ADDRESS, "example.com");
    discarded.browsing_context = None;
    let location = Location::new(discarded);
    assert_eq!(location.document_if_same_origin(&same_origin()), Ok(None));
    assert_eq!(location.document_if_same_origin(&cross_origin()), Ok(None));
    assert_eq!(Location::new_remote().document_if_same_origin(&cross_origin()), Ok(None));
}

#[test]
fn get_url_if_same_origin_reads_the_document_url() {
    let location = Location::new(window(ADDRESS, "example.com"));
    assert_eq!(location.get_url_if_same_origin(&same_origin()), Ok(url(ADDRESS)));
}

#[test]
fn get_url_if_same_origin_reads_blank_without_document() {
    let mut discarded = window(ADDRESS, "example.com");
    discarded.browsing_context = None;
    let location = Location::new(discarded);
    assert_eq!(location.get_url_if_same_origin(&cross_origin()), Ok(url("about:blank")));
    assert_eq!(
        Location::new_remote().get_url_if_same_origin(&same_origin()),
        Ok(url("about:blank"))
    );
}

#[test]
fn get_url_if_same_origin_refuses_another_origin() {
    let location = Location::new(window(ADDRESS, "example.com"));
    assert_eq!(location.get_url_if_same_origin(&cross_origin()), Err(Error::Security));
}

#[test]
fn getters_read_the_document_url_for_a_same_origin_caller() {
    let location = Location::new(window(ADDRESS, "example.com"));
    let caller = same_origin();
    assert_eq!(location.GetHref(&caller), Ok(ADDRESS.to_string()));
    assert_eq!(location.GetOrigin(&caller), Ok("https://example.com:8080".to_string()));
    assert_eq!(location.GetProtocol(&caller), Ok("https:".to_string()));
    assert_eq!(location.GetHost(&caller), Ok("example.com:8080".to_string()));
    assert_eq!(location.GetHostname(&caller), Ok("example.com".to_string()));
    assert_eq!(location.GetPort(&caller), Ok("8080".to_string()));
    assert_eq!(location.GetPathname(&caller), Ok("/a/b".to_string()));
    assert_eq!(location.GetSearch(&caller), Ok("?x=1".to_string()));
    assert_eq!(location.GetHash(&caller), Ok("#frag".to_string()));
}

#[test]
fn getters_refuse_a_cross_origin_caller() {
    let location = Location::new(window(ADDRESS, "example.com"));
    let caller = cross_origin();
    assert_eq!(location.GetHref(&caller), Err(Error::Security));
    assert_eq!(location.GetOrigin(&caller), Err(Error::Security));
    assert_eq!(location.GetProtocol(&caller), Err(Error::Security));
    assert_eq!(location.GetHost(&caller), Err(Error::Security));
    assert_eq!(location.GetHostname(&caller), Err(Error::Security));
    assert_eq!(location.GetPort(&caller), Err(Error::Security));
    assert_eq!(location.GetPathname(&caller), Err(Error::Security));
    assert_eq!(location.GetSearch(&caller), Err(Error::Security));
    assert_eq!(location.GetHash(&caller), Err(Error::Security));
}

#[test]
fn getters_read_blank_without_document() {
    let mut discarded = window(ADDRESS, "example.com");
    discarded.browsing_context = None;
    for location in [Location::new(discarded), Location::new_remote()] {
        for caller in [same_origin(), cross_origin()] {
            assert_eq!(location.GetHref(&caller), Ok("about:blank".to_string()));
            assert_eq!(location.GetOrigin(&caller), Ok("null".to_string()));
            assert_eq!(location.GetProtocol(&caller), Ok("about:".to_string()));
            assert_eq!(location.GetHost(&caller), Ok("".to_string()));
            assert_eq!(location.GetHostname(&caller), Ok("".to_string()));
            assert_eq!(location.GetPort(&caller), Ok("".to_string()));
            assert_eq!(location.GetPathname(&caller), Ok("blank".to_string()));
            assert_eq!(location.GetSearch(&caller), Ok("".to_string()));
            assert_eq!(location.GetHash(&caller), Ok("".to_string()));
        }
    }
}

#[test]
fn get_agrees_with_the_named_getters() {
    let location = Location::new(window(ADDRESS, "example.com"));
    let caller = same_origin();
    let named = [
        location.GetHref(&caller),
        location.GetOrigin(&caller),
        location.GetProtocol(&caller),
        location.GetHost(&caller),
        location.GetHostname(&caller),
        location.GetPort(&caller),
        location.GetPathname(&caller),
        location.GetSearch(&caller),
        location.GetHash(&caller),
    ];
    for (component, expected) in COMPONENTS.iter().zip(named.iter()) {
        assert_eq!(&location.get(&caller, *component), expected);
    }
}

#[test]
fn component_read_picks_the_field() {
    let full = url(ADDRESS);
    assert_eq!(Component::Href.read(&full), ADDRESS);
    assert_eq!(Component::Origin.read(&full), "https://example.com:8080");
    assert_eq!(Component::Protocol.read(&full), "https:");
    assert_eq!(Component::Host.read(&full), "example.com:8080");
    assert_eq!(Component::Hostname.read(&full), "example.com");
    assert_eq!(Component::Port.read(&full), "8080");
    assert_eq!(Component::Pathname.read(&full), "/a/b");
    assert_eq!(Component::Search.read(&full), "?x=1");
    assert_eq!(Component::Hash.read(&full), "#frag");
}
