use wallet_bridge::endpoint::is_endpoint;

#[test]
fn an_address_with_scheme_and_rest_is_well_formed() {
    assert!(is_endpoint(b"https://main.ton.dev/graphql"));
    assert!(is_endpoint(b"http://localhost:8080"));
    assert!(is_endpoint(b"a://b"));
    assert!(is_endpoint(b"a://b://c"));
    assert!(is_endpoint(b"a:///"));
    assert!(is_endpoint(b"a::///"));
}

#[test]
fn an_address_without_separator_is_malformed() {
    assert!(!is_endpoint(b""));
    assert!(!is_endpoint(b"a"));
    assert!(!is_endpoint(b"ab"));
    assert!(!is_endpoint(b"main.ton.dev"));
    assert!(!is_endpoint(b"https:/main.ton.dev"));
    assert!(!is_endpoint(b"https//main.ton.dev"));
    assert!(!is_endpoint(b"https:main.ton.dev//"));
}

#[test]
fn an_address_without_scheme_is_malformed() {
    assert!(!is_endpoint(b"://"));
    assert!(!is_endpoint(b"://main.ton.dev"));
    assert!(!is_endpoint(b"://a://b"));
}

#[test]
fn an_address_without_rest_is_malformed() {
    assert!(!is_endpoint(b"https://"));
    assert!(!is_endpoint(b"a://"));
}
