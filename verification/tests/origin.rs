use location::origin::ImmutableOrigin;

fn tuple(scheme: &str, host: &str, port: u16) -> ImmutableOrigin {
    ImmutableOrigin::Tuple { scheme: scheme.to_string(), host: host.to_string(), port }
}

#[test]
fn clone_keeps_an_immutable_origin() {
    let origin = tuple("https", "example.com", 443);
    assert_eq!(origin.clone(), origin);
    assert_eq!(ImmutableOrigin::Opaque(9).clone(), ImmutableOrigin::Opaque(9));
}

#[test]
fn origins_differ_by_each_part() {
    let origin = tuple("https", "example.com", 443);
    assert_ne!(origin, tuple("http", "example.com", 443));
    assert_ne!(origin, tuple("https", "example.org", 443));
    assert_ne!(origin, tuple("https", "example.com", 8443));
    assert_ne!(origin, ImmutableOrigin::Opaque(9));
}
