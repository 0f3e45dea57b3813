use luxnulla::config::{ParseError, ProxyConfig};
use luxnulla::dispatch::parse_line;

fn s(x: &str) -> String {
    x.to_string()
}

#[test]
fn vless_full_link() {
    let line = "vless://11111111-2222-3333-4444-555555555555@example.com:443?type=tcp&security=tls&path=%2Fws&host=cdn.example.com#MyNode";
    let cfg = parse_line(line).unwrap();
    match &cfg {
        ProxyConfig::Vless(v) => {
            assert_eq!(v.id, "11111111-2222-3333-4444-555555555555");
            assert_eq!(v.address, "example.com");
            assert_eq!(v.port, 443);
            assert_eq!(v.network, "tcp");
            assert_eq!(v.security, Some(s("tls")));
            assert!(v.tls);
            assert_eq!(v.path, Some(s("/ws")));
            assert_eq!(v.host, Some(s("cdn.example.com")));
            assert_eq!(v.name, Some(s("MyNode")));
            assert_eq!(v.encryption, None);
            assert!(v.extras.is_empty());
        }
        other => panic!("expected vless, got {:?}", other),
    }
    assert_eq!(cfg.address(), "example.com");
    assert_eq!(cfg.port(), 443);
    assert_eq!(cfg.id(), Some("11111111-2222-3333-4444-555555555555"));
    assert_eq!(cfg.display_name(), Some("MyNode"));
}

#[test]
fn not_a_uri_is_malformed() {
    assert_eq!(parse_line("not a uri"), Err(ParseError::MalformedUri(s("not a uri"))));
}

#[test]
fn unknown_scheme_is_unsupported() {
    assert_eq!(
        parse_line("http://example.com:80/"),
        Err(ParseError::UnsupportedScheme(s("http")))
    );
    assert_eq!(
        parse_line("hysteria2://pw@example.com:443"),
        Err(ParseError::UnsupportedScheme(s("hysteria2")))
    );
}

#[test]
fn missing_host_is_missing_address() {
    assert_eq!(
        parse_line("vless:/x?type=tcp"),
        Err(ParseError::FieldMissing(s("address")))
    );
    assert_eq!(parse_line("trojan:pw"), Err(ParseError::FieldMissing(s("address"))));
    assert_eq!(parse_line("ss:abc"), Err(ParseError::FieldMissing(s("address"))));
}

#[test]
fn vless_missing_fields() {
    assert_eq!(
        parse_line("vless://id@example.com?type=tcp"),
        Err(ParseError::FieldMissing(s("port")))
    );
    assert_eq!(
        parse_line("vless://example.com:443?type=tcp"),
        Err(ParseError::FieldMissing(s("id")))
    );
    assert_eq!(
        parse_line("vless://id@example.com:443?security=tls"),
        Err(ParseError::FieldMissing(s("network")))
    );
}

#[test]
fn vless_port_zero_is_wrong_type() {
    assert_eq!(
        parse_line("vless://id@example.com:0?type=tcp"),
        Err(ParseError::UnknownFieldType { current: s("0"), expected: s("port") })
    );
}

#[test]
fn vless_tls_only_for_security_tls() {
    match parse_line("vless://id@h.example:8443?type=grpc&security=reality&encryption=none").unwrap() {
        ProxyConfig::Vless(v) => {
            assert!(!v.tls);
            assert_eq!(v.security, Some(s("reality")));
            assert_eq!(v.encryption, Some(s("none")));
            assert_eq!(v.name, None);
        }
        other => panic!("expected vless, got {:?}", other),
    }
    match parse_line("vless://id@h.example:8443?type=tcp").unwrap() {
        ProxyConfig::Vless(v) => {
            assert!(!v.tls);
            assert_eq!(v.security, None);
        }
        other => panic!("expected vless, got {:?}", other),
    }
}

#[test]
fn vless_extras_hold_only_unmapped_keys() {
    let line = "vless://id@h.example:1?type=ws&flow=a&sni=x&flow=b&security=tls&path=%2F";
    match parse_line(line).unwrap() {
        ProxyConfig::Vless(v) => {
            assert_eq!(v.extras, vec![(s("flow"), s("b")), (s("sni"), s("x"))]);
            assert_eq!(v.path, Some(s("/")));
        }
        other => panic!("expected vless, got {:?}", other),
    }
}

#[test]
fn same_line_twice_gives_equal_results() {
    let line = "vless://id@example.com:443?type=tcp&security=tls&x=1#N";
    assert_eq!(parse_line(line), parse_line(line));
    assert_eq!(parse_line("bad line"), parse_line("bad line"));
}

#[test]
fn trojan_link() {
    let cfg = parse_line("trojan://secret@t.example:443?sni=s.example&allowInsecure=1&path=%2Fp&host=h.example&mode=gun#Tro").unwrap();
    match &cfg {
        ProxyConfig::Trojan(t) => {
            assert_eq!(t.password, "secret");
            assert_eq!(t.address, "t.example");
            assert_eq!(t.port, 443);
            assert_eq!(t.sni, Some(s("s.example")));
            assert_eq!(t.ws_path, Some(s("/p")));
            assert_eq!(t.host, Some(s("h.example")));
            assert!(t.allow_insecure);
            assert_eq!(t.name, Some(s("Tro")));
            assert_eq!(t.extras, vec![(s("mode"), s("gun"))]);
        }
        other => panic!("expected trojan, got {:?}", other),
    }
    assert_eq!(cfg.id(), Some("secret"));
}

#[test]
fn trojan_insecure_flag_needs_one() {
    match parse_line("trojan://pw@t.example:443?allowInsecure=true").unwrap() {
        ProxyConfig::Trojan(t) => assert!(!t.allow_insecure),
        other => panic!("expected trojan, got {:?}", other),
    }
    assert_eq!(
        parse_line("trojan://t.example:443"),
        Err(ParseError::FieldMissing(s("password")))
    );
}

#[test]
fn shadowsocks_plain_userinfo() {
    let cfg = parse_line("ss://aes-256-gcm:secret@1.2.3.4:8388#Node").unwrap();
    match &cfg {
        ProxyConfig::Shadowsocks(c) => {
            assert_eq!(c.method, "aes-256-gcm");
            assert_eq!(c.password, "secret");
            assert_eq!(c.address, "1.2.3.4");
            assert_eq!(c.port, 8388);
            assert_eq!(c.name, Some(s("Node")));
        }
        other => panic!("expected shadowsocks, got {:?}", other),
    }
    assert_eq!(cfg.id(), None);
}

#[test]
fn shadowsocks_base64_userinfo() {
    // "aes-128-gcm:pwd" in standard base64
    match parse_line("ss://YWVzLTEyOC1nY206cHdk@ss.example:443").unwrap() {
        ProxyConfig::Shadowsocks(c) => {
            assert_eq!(c.method, "aes-128-gcm");
            assert_eq!(c.password, "pwd");
            assert_eq!(c.name, None);
        }
        other => panic!("expected shadowsocks, got {:?}", other),
    }
}

#[test]
fn shadowsocks_bad_userinfo() {
    assert_eq!(
        parse_line("ss://!!!@ss.example:443"),
        Err(ParseError::UnknownFieldType { current: s("!!!"), expected: s("base64 method:password") })
    );
    // unpadded base64 is rejected by the strict decoder
    assert_eq!(
        parse_line("ss://bm9jb2xvbg@ss.example:443"),
        Err(ParseError::UnknownFieldType { current: s("bm9jb2xvbg"), expected: s("base64 method:password") })
    );
    // "abcdef" in standard base64: no colon
    assert_eq!(
        parse_line("ss://YWJjZGVm@ss.example:443"),
        Err(ParseError::FieldMissing(s("password")))
    );
    assert_eq!(
        parse_line("ss://@ss.example:443"),
        Err(ParseError::FieldMissing(s("method")))
    );
}

#[test]
fn error_messages() {
    assert_eq!(ParseError::FieldMissing(s("address")).message(), "Missing field: address");
    assert_eq!(ParseError::UnsupportedScheme(s("http")).message(), "unknown url scheme: \"http\"");
    assert_eq!(ParseError::MalformedUri(s("x y")).message(), "malformed URI: x y");
    assert_eq!(
        ParseError::UnknownFieldType { current: s("abc"), expected: s("port") }.message(),
        "Unknown field type: abc (expected: port)"
    );
}

#[test]
fn missing_id_is_reported_before_port() {
    assert_eq!(
        parse_line("vless://@example.com?type=tcp"),
        Err(ParseError::FieldMissing(s("id")))
    );
    assert_eq!(
        parse_line("trojan://t.example"),
        Err(ParseError::FieldMissing(s("password")))
    );
    assert_eq!(
        parse_line("ss://YWJjZGVm@ss.example"),
        Err(ParseError::FieldMissing(s("password")))
    );
}
