use cargo_credential_netrc::error::CredentialError;
use cargo_credential_netrc::host::{host_name, ipv4_to_text, ipv6_to_text, resolve_host, UrlHost};

fn resolved(index_url: &str) -> String {
    match resolve_host(index_url) {
        Ok(host) => host,
        Err(error) => panic!("{} does not resolve: {:?}", index_url, error),
    }
}

/// The text that the standard library gives the address in a URL.
fn address_text(index_url: &str) -> String {
    let parsed = url::Url::parse(index_url).expect("a URL");
    match parsed.host() {
        Some(url::Host::Ipv4(address)) => address.to_string(),
        Some(url::Host::Ipv6(address)) => address.to_string(),
        other => panic!("{} has no address: {:?}", index_url, other),
    }
}

#[test]
fn domain_is_returned_unchanged() {
    assert_eq!(resolved("https://example.com/index"), "example.com");
    assert_eq!(resolved("https://crates.example.com:8443/api/v1?x=1#top"), "crates.example.com");
    assert_eq!(resolved("https://user:pw@my-registry.internal/"), "my-registry.internal");
    assert_eq!(resolved("ftp://localhost"), "localhost");
}

#[test]
fn domain_is_what_the_parser_hands_out() {
    assert_eq!(resolved("HTTPS://EXAMPLE.COM/index"), "example.com");
    assert_eq!(resolved("https://b\u{fc}cher.example/"), "xn--bcher-kva.example");
}

#[test]
fn sparse_registry_urls() {
    assert_eq!(resolved("sparse+https://crates.example.com/index"), "crates.example.com");
    assert_eq!(resolved("https://sparse+crates.example.com/index"), "sparse+crates.example.com");
}

#[test]
fn ipv4_literal_in_dotted_form() {
    assert_eq!(resolved("https://127.0.0.1/index"), "127.0.0.1");
    assert_eq!(resolved("http://192.168.0.255:8080/x"), "192.168.0.255");
    assert_eq!(resolved("http://0.0.0.0/"), "0.0.0.0");
    assert_eq!(resolved("http://0x7f.1/"), "127.0.0.1");
}

#[test]
fn ipv6_literal_without_brackets() {
    assert_eq!(resolved("http://[::1]/"), "::1");
    assert_eq!(resolved("https://[2001:db8::1]:8080/index"), "2001:db8::1");
    assert_eq!(resolved("https://[2001:0DB8:0000:0000:0000:0000:0000:0001]/"), "2001:db8::1");
    assert_eq!(resolved("http://[::ffff:1.2.3.4]/"), "::ffff:1.2.3.4");
}

#[test]
fn addresses_as_text() {
    assert_eq!(ipv4_to_text(&[0, 0, 0, 0]), "0.0.0.0");
    assert_eq!(ipv4_to_text(&[255, 255, 255, 255]), "255.255.255.255");
    assert_eq!(ipv4_to_text(&[10, 1, 20, 109]), "10.1.20.109");
    assert_eq!(ipv6_to_text(&[0; 8]), "::");
    assert_eq!(ipv6_to_text(&[0, 0, 0, 0, 0, 0, 0, 1]), "::1");
    assert_eq!(ipv6_to_text(&[1, 0, 0, 0, 0, 0, 0, 0]), "1::");
    assert_eq!(ipv6_to_text(&[0xffff; 8]), "ffff:ffff:ffff:ffff:ffff:ffff:ffff:ffff");
    assert_eq!(ipv6_to_text(&[1, 2, 3, 4, 5, 6, 7, 8]), "1:2:3:4:5:6:7:8");
    assert_eq!(ipv6_to_text(&[0x2001, 0xdb8, 0, 0, 0, 0, 0, 1]), "2001:db8::1");
    assert_eq!(ipv6_to_text(&[1, 0, 2, 3, 4, 5, 6, 7]), "1:0:2:3:4:5:6:7");
    assert_eq!(ipv6_to_text(&[1, 0, 0, 2, 0, 0, 0, 3]), "1:0:0:2::3");
    assert_eq!(ipv6_to_text(&[0x2001, 0xdb8, 0, 0, 1, 0, 0, 1]), "2001:db8::1:0:0:1");
    assert_eq!(ipv6_to_text(&[0, 0, 1, 0, 0, 0, 0, 0]), "0:0:1::");
    assert_eq!(ipv6_to_text(&[0, 0, 0, 0, 0, 0xffff, 0x0102, 0x0304]), "::ffff:1.2.3.4");
    assert_eq!(ipv6_to_text(&[0, 0, 0, 0, 0, 0xffff, 0xc0a8, 0x00ff]), "::ffff:192.168.0.255");
    assert_eq!(ipv6_to_text(&[0, 0, 0, 0, 0, 0, 0x0102, 0x0304]), "::102:304");
    assert_eq!(ipv6_to_text(&[0, 0, 0, 0, 0, 0xfffe, 0x0102, 0x0304]), "::fffe:102:304");
    assert_eq!(ipv6_to_text(&[0xfe80, 0, 0, 0, 0x10, 0xa00, 0, 0xabcd]), "fe80::10:a00:0:abcd");
}

#[test]
fn address_text_is_the_standard_one() {
    let urls = [
        "http://1.2.3.4/",
        "http://255.255.255.255/",
        "http://0.0.0.0/",
        "http://100.20.3.0/",
        "http://[::]/",
        "http://[::1]/",
        "http://[1::]/",
        "http://[::ffff:1.2.3.4]/",
        "http://[::ffff:0:0]/",
        "http://[::1.2.3.4]/",
        "http://[::fffe:1.2.3.4]/",
        "http://[1:0:0:2:0:0:0:3]/",
        "http://[1:0:0:0:2:0:0:3]/",
        "http://[2001:db8:0:0:1:0:0:1]/",
        "http://[1:0:2:0:3:0:4:0]/",
        "http://[0:1:0:1:0:1:0:1]/",
        "http://[1:2:3:4:5:6:7:8]/",
        "http://[0:0:1:0:0:0:0:0]/",
        "http://[0:0:0:1:0:0:0:0]/",
        "http://[a:b:c:d:e:f:0:0]/",
        "http://[0:0:b:c:d:e:f:a]/",
        "http://[ffff:ffff:ffff:ffff:ffff:ffff:ffff:ffff]/",
        "http://[fe80::10:a00:0:abcd]/",
        "http://[64:ff9b::192.0.2.33]/",
        "http://[0:0:0:0:1:ffff:102:304]/",
    ];
    for index_url in urls {
        assert_eq!(resolved(index_url), address_text(index_url), "{}", index_url);
    }
}

#[test]
fn resolving_a_url_built_from_a_host_gives_the_host() {
    for host in ["example.com", "a.b.c.example", "localhost", "10.1.2.3", "203.0.113.7"] {
        assert_eq!(resolved(&format!("https://{}/index", host)), host);
        assert_eq!(resolved(&format!("sparse+https://{}:443/index", host)), host);
    }
    for host in ["::1", "2001:db8::1", "fe80::10:a00:0:abcd", "::ffff:10.0.0.1"] {
        assert_eq!(resolved(&format!("https://[{}]/index", host)), host);
    }
}

#[test]
fn url_without_host_is_not_supported() {
    for index_url in ["mailto:rms@example.net", "data:text/plain,Stuff", "unix:/run/foo.socket"] {
        assert_eq!(resolve_host(index_url), Err(CredentialError::UrlNotSupported));
    }
}

#[test]
fn malformed_url_is_a_parse_error() {
    for index_url in ["not a url", "", "https://", "//example.com/index", "https://[::1/"] {
        match resolve_host(index_url) {
            Err(CredentialError::UrlParseError { reason }) => assert!(!reason.is_empty()),
            other => panic!("{:?}: {:?}", index_url, other),
        }
    }
}

#[test]
fn parse_error_carries_the_parsers_reason() {
    assert_eq!(
        resolve_host("not a url"),
        Err(CredentialError::UrlParseError { reason: "relative URL without a base".to_string() })
    );
    assert_eq!(
        resolve_host("https://example.com:99999/"),
        Err(CredentialError::UrlParseError { reason: "invalid port number".to_string() })
    );
}

#[test]
fn name_of_a_parsed_host() {
    assert_eq!(host_name(UrlHost::Domain("Example.COM".to_string())), Ok("Example.COM".to_string()));
    assert_eq!(host_name(UrlHost::Ipv4([8, 8, 4, 4])), Ok("8.8.4.4".to_string()));
    assert_eq!(
        host_name(UrlHost::Ipv6([0x2606, 0x4700, 0, 0, 0, 0, 0, 0x1111])),
        Ok("2606:4700::1111".to_string())
    );
    assert_eq!(host_name(UrlHost::Absent), Err(CredentialError::UrlNotSupported));
}
