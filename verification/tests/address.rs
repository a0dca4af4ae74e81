use rest_request::address::resolve_path;
use rest_request::constants::API_BASE;
use url::Url;

#[test]
fn base_address_is_the_production_one() {
    assert_eq!(API_BASE, "https://discord.com/");
}

#[test]
fn no_proxy_no_change() {
    assert_eq!(resolve_path("https://discord.com/api/v9/users/1", None), "https://discord.com/api/v9/users/1");
    assert_eq!(resolve_path("", None), "");
    assert_eq!(resolve_path("/v9/gateway", None), "/v9/gateway");
}

#[test]
fn proxy_replaces_the_base() {
    let proxy = Url::parse("http://localhost:8080").unwrap();
    assert_eq!(proxy.as_str(), "http://localhost:8080/");
    assert_eq!(
        resolve_path("https://discord.com/api/v9/users/1", Some(&proxy)),
        "http://localhost:8080/api/v9/users/1"
    );
}

#[test]
fn proxy_with_a_path_is_kept_whole() {
    let proxy = Url::parse("https://relay.example/forward/").unwrap();
    assert_eq!(
        resolve_path("https://discord.com/api/v9/gateway?v=9", Some(&proxy)),
        "https://relay.example/forward/api/v9/gateway?v=9"
    );
}

#[test]
fn proxy_replaces_every_occurrence() {
    let proxy = Url::parse("http://p/").unwrap();
    assert_eq!(
        resolve_path("https://discord.com/a?next=https://discord.com/b", Some(&proxy)),
        "http://p/a?next=http://p/b"
    );
    assert_eq!(
        resolve_path("https://discord.com/https://discord.com/", Some(&proxy)),
        "http://p/http://p/"
    );
}

#[test]
fn proxy_without_occurrence_changes_nothing() {
    let proxy = Url::parse("http://localhost:8080").unwrap();
    assert_eq!(
        resolve_path("https://api.example.com/v9/users/1", Some(&proxy)),
        "https://api.example.com/v9/users/1"
    );
    assert_eq!(resolve_path("https://discord.com", Some(&proxy)), "https://discord.com");
    assert_eq!(resolve_path("", Some(&proxy)), "");
}

#[test]
fn proxy_rewrite_keeps_other_characters() {
    let proxy = Url::parse("http://p/").unwrap();
    assert_eq!(
        resolve_path("\u{e9}https://discord.com/\u{1f600}", Some(&proxy)),
        "\u{e9}http://p/\u{1f600}"
    );
}
