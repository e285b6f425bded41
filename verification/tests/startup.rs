use btc_proxy::config::{
    get_quicknode_url, StartupError, UpstreamTarget, LISTEN_ADDRESS, LISTEN_PORT,
    OUTBOUND_TIMEOUT_SECS,
};

fn args(items: &[&str]) -> Vec<String> {
    items.iter().map(|s| s.to_string()).collect()
}

#[test]
fn url_is_the_first_argument_after_the_program_name() {
    let found = get_quicknode_url(&args(&["btc-proxy", "https://node.example/abc123/"]));
    match found {
        Ok(target) => assert_eq!(target.as_str(), "https://node.example/abc123/"),
        Err(e) => panic!("unexpected error: {:?}", e),
    }
}

#[test]
fn further_arguments_are_ignored() {
    let found = get_quicknode_url(&args(&["btc-proxy", "http://127.0.0.1:9000/rpc", "--verbose", "x"]));
    match found {
        Ok(target) => assert_eq!(target.as_str(), "http://127.0.0.1:9000/rpc"),
        Err(e) => panic!("unexpected error: {:?}", e),
    }
}

#[test]
fn missing_url_is_a_startup_error() {
    let found = get_quicknode_url(&args(&["btc-proxy"]));
    assert!(matches!(found, Err(StartupError::MissingUpstreamUrl)));
}

#[test]
fn empty_argument_list_is_a_startup_error() {
    let found = get_quicknode_url(&Vec::new());
    assert!(matches!(found, Err(StartupError::MissingUpstreamUrl)));
}

#[test]
fn program_name_alone_is_never_taken_for_the_url() {
    let found = get_quicknode_url(&args(&["http://looks.like/a/url"]));
    assert!(matches!(found, Err(StartupError::MissingUpstreamUrl)));
}

#[test]
fn malformed_url_is_accepted_at_startup() {
    let found = get_quicknode_url(&args(&["btc-proxy", "not a url"]));
    match found {
        Ok(target) => assert_eq!(target.as_str(), "not a url"),
        Err(e) => panic!("unexpected error: {:?}", e),
    }
}

#[test]
fn empty_url_argument_is_kept_as_it_is() {
    let found = get_quicknode_url(&args(&["btc-proxy", ""]));
    match found {
        Ok(target) => assert_eq!(target.as_str(), ""),
        Err(e) => panic!("unexpected error: {:?}", e),
    }
}

#[test]
fn startup_error_message_names_the_usage() {
    assert_eq!(
        StartupError::MissingUpstreamUrl.message(),
        "QuickNode URL not provided. Usage: <program> <quicknode_url>"
    );
}

#[test]
fn target_keeps_its_text() {
    let target = UpstreamTarget::new("https://example.org:8443/path?q=1".to_string());
    assert_eq!(target.as_str(), "https://example.org:8443/path?q=1");
}

#[test]
fn listens_on_loopback_port_8332() {
    assert_eq!(LISTEN_ADDRESS, [127, 0, 0, 1]);
    assert_eq!(LISTEN_PORT, 8332);
}

#[test]
fn outbound_timeout_is_bounded() {
    assert_eq!(OUTBOUND_TIMEOUT_SECS, 30);
}
