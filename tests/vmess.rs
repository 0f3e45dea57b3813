use base64::Engine;
use luxnulla::config::{ParseError, ProxyConfig};
use luxnulla::dispatch::parse_line;

fn s(x: &str) -> String {
    x.to_string()
}

fn link(json: &str) -> String {
    format!("vmess://{}", base64::engine::general_purpose::STANDARD.encode(json))
}

#[test]
fn vmess_full_object() {
    let line = link(r#"{"v":"2","ps":"Vm","add":"vm.example","port":"443","id":"uuid-1","aid":"0","net":"ws","type":"none","host":"h.example","path":"/p","tls":"tls","sni":"x"}"#);
    let cfg = parse_line(&line).unwrap();
    match &cfg {
        ProxyConfig::Vmess(v) => {
            assert_eq!(v.address, "vm.example");
            assert_eq!(v.port, 443);
            assert_eq!(v.id, "uuid-1");
            assert_eq!(v.aid, 0);
            assert_eq!(v.network, "ws");
            assert_eq!(v.type_field, Some(s("none")));
            assert_eq!(v.host, Some(s("h.example")));
            assert_eq!(v.path, Some(s("/p")));
            assert!(v.tls);
            assert_eq!(v.name, Some(s("Vm")));
            let mut extras = v.extras.clone();
            extras.sort();
            assert_eq!(extras, vec![(s("sni"), s("x")), (s("v"), s("2"))]);
        }
        other => panic!("expected vmess, got {:?}", other),
    }
    assert_eq!(cfg.id(), Some("uuid-1"));
}

#[test]
fn vmess_numeric_members() {
    let line = link(r#"{"add":"a.example","port":8080,"id":"u","aid":64,"net":"tcp","v":2}"#);
    match parse_line(&line).unwrap() {
        ProxyConfig::Vmess(v) => {
            assert_eq!(v.port, 8080);
            assert_eq!(v.aid, 64);
            assert!(!v.tls);
            assert_eq!(v.name, None);
            assert_eq!(v.extras, vec![(s("v"), s("2"))]);
        }
        other => panic!("expected vmess, got {:?}", other),
    }
}

#[test]
fn vmess_missing_and_wrong_members() {
    assert_eq!(
        parse_line(&link(r#"{"port":"443","id":"u","net":"tcp"}"#)),
        Err(ParseError::FieldMissing(s("address")))
    );
    assert_eq!(
        parse_line(&link(r#"{"add":"a","id":"u","net":"tcp"}"#)),
        Err(ParseError::FieldMissing(s("port")))
    );
    assert_eq!(
        parse_line(&link(r#"{"add":"a","port":"https","id":"u","net":"tcp"}"#)),
        Err(ParseError::UnknownFieldType { current: s("https"), expected: s("port") })
    );
    assert_eq!(
        parse_line(&link(r#"{"add":"a","port":"443","net":"tcp"}"#)),
        Err(ParseError::FieldMissing(s("id")))
    );
    assert_eq!(
        parse_line(&link(r#"{"add":"a","port":"443","id":"u"}"#)),
        Err(ParseError::FieldMissing(s("network")))
    );
    assert_eq!(
        parse_line(&link(r#"{"add":7,"port":"443","id":"u","net":"tcp"}"#)),
        Err(ParseError::UnknownFieldType { current: s("7"), expected: s("string") })
    );
}

#[test]
fn vmess_payload_not_json() {
    assert_eq!(
        parse_line("vmess://bm90IGpzb24="),
        Err(ParseError::UnknownFieldType { current: s("bm90IGpzb24="), expected: s("base64 JSON object") })
    );
}

#[test]
fn vmess_scheme_in_upper_case() {
    let line = link(r#"{"add":"a.example","port":"443","id":"u","net":"tcp"}"#);
    let upper = format!("VMESS{}", &line[5..]);
    match parse_line(&upper).unwrap() {
        ProxyConfig::Vmess(v) => {
            assert_eq!(v.address, "a.example");
            assert_eq!(v.port, 443);
        }
        other => panic!("expected vmess, got {:?}", other),
    }
}
