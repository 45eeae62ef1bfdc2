use handy::proxy::{is_valid_proxy_url, proxy_browser_arguments, proxy_url_setting};

#[test]
fn accepts_plain_http_proxy() {
    assert!(is_valid_proxy_url("http://127.0.0.1:7890"));
    assert!(is_valid_proxy_url("https://proxy.example.com"));
    assert!(is_valid_proxy_url("socks5h://localhost:1080/"));
    assert!(is_valid_proxy_url("socks4://h"));
}

#[test]
fn rejects_missing_scheme() {
    assert!(!is_valid_proxy_url("127.0.0.1:7890"));
    assert!(!is_valid_proxy_url("http:/badhost"));
    assert!(!is_valid_proxy_url(""));
    assert!(!is_valid_proxy_url("   "));
}

#[test]
fn rejects_other_schemes() {
    assert!(!is_valid_proxy_url("ftp://host"));
    assert!(!is_valid_proxy_url("socks://host"));
    assert!(!is_valid_proxy_url("://host"));
}

#[test]
fn scheme_case_is_ignored() {
    assert!(is_valid_proxy_url("HTTP://Proxy:8080"));
    assert!(is_valid_proxy_url("SoCkS5://h"));
}

#[test]
fn surrounding_whitespace_is_trimmed() {
    assert!(is_valid_proxy_url("  http://host:1  \n"));
    assert!(is_valid_proxy_url("\u{3000}http://host\u{2003}"));
}

#[test]
fn rejects_characters_that_split_the_flag() {
    assert!(!is_valid_proxy_url("http://ho st"));
    assert!(!is_valid_proxy_url("http://\"host\""));
    assert!(!is_valid_proxy_url("http://host'"));
    assert!(!is_valid_proxy_url("http://host\u{7}"));
    assert!(!is_valid_proxy_url("http://ho\u{85}st"));
}

#[test]
fn requires_a_host() {
    assert!(!is_valid_proxy_url("http://"));
    assert!(!is_valid_proxy_url("http://:8080"));
    assert!(!is_valid_proxy_url("http:///path"));
    assert!(!is_valid_proxy_url("http://user@:80"));
    assert!(!is_valid_proxy_url("http://?q"));
    assert!(is_valid_proxy_url("http://user:pw@host:80/x"));
    assert!(is_valid_proxy_url("http://a@b@c"));
    assert!(!is_valid_proxy_url("http://a@b@"));
}

#[test]
fn only_the_first_separator_counts() {
    assert!(!is_valid_proxy_url("x://http://host"));
    assert!(is_valid_proxy_url("http://host/socks5://"));
}

#[test]
fn browser_arguments_for_valid_proxy() {
    let args = proxy_browser_arguments("http://127.0.0.1:7890", "").unwrap();
    assert_eq!(
        args,
        "--proxy-server=http://127.0.0.1:7890 --proxy-bypass-list=<local>;localhost;127.0.0.1;tauri.localhost"
    );
    let args = proxy_browser_arguments("socks5://h:1", "--foo").unwrap();
    assert_eq!(
        args,
        "--foo --proxy-server=socks5://h:1 --proxy-bypass-list=<local>;localhost;127.0.0.1;tauri.localhost"
    );
}

#[test]
fn browser_arguments_refused_for_invalid_proxy() {
    assert!(proxy_browser_arguments("127.0.0.1:7890", "--foo").is_none());
}

#[test]
fn empty_setting_means_no_proxy() {
    assert_eq!(proxy_url_setting(Some("")), None);
    assert_eq!(proxy_url_setting(None), None);
    assert_eq!(proxy_url_setting(Some("http://h")), Some("http://h".to_string()));
}
