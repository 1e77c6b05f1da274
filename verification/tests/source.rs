use irctext::{ClientSource, Host, Source};

fn client(s: &str) -> ClientSource {
    match Source::parse_str(s).unwrap() {
        Source::Client(c) => c,
        Source::Server(h) => panic!("unexpected server {h:?}"),
    }
}

#[test]
fn simpler() {
    let c = client("coolguy");
    assert_eq!(c.nickname.as_str(), "coolguy");
    assert!(c.user.is_none());
    assert!(c.host.is_none());
}

#[test]
fn simple1() {
    let c = client("coolguy!ag@127.0.0.1");
    assert_eq!(c.nickname.as_str(), "coolguy");
    assert_eq!(c.user.unwrap().as_str(), "ag");
    assert_eq!(c.host.unwrap(), "127.0.0.1");
}

#[test]
fn simple2() {
    let c = client("coolguy!~ag@localhost");
    assert_eq!(c.nickname.as_str(), "coolguy");
    assert_eq!(c.user.unwrap().as_str(), "~ag");
    assert_eq!(c.host.unwrap(), "localhost");
}

#[test]
fn without_user() {
    let c = client("coolguy@127.0.0.1");
    assert_eq!(c.nickname.as_str(), "coolguy");
    assert!(c.user.is_none());
    assert_eq!(c.host.unwrap(), "127.0.0.1");
}

#[test]
fn without_host() {
    let c = client("coolguy!ag");
    assert_eq!(c.nickname.as_str(), "coolguy");
    assert_eq!(c.user.unwrap().as_str(), "ag");
    assert!(c.host.is_none());
}

#[test]
fn control_codes1() {
    let c = client("coolguy!ag@net\x035w\x03ork.admin");
    assert_eq!(c.nickname.as_str(), "coolguy");
    assert_eq!(c.user.unwrap().as_str(), "ag");
    assert_eq!(c.host.unwrap(), "net\x035w\x03ork.admin");
}

#[test]
fn control_codes2() {
    let c = client("coolguy!~ag@n\x02et\x0305w\x0fork.admin");
    assert_eq!(c.nickname.as_str(), "coolguy");
    assert_eq!(c.user.unwrap().as_str(), "~ag");
    assert_eq!(c.host.unwrap(), "n\x02et\x0305w\x0fork.admin");
}

#[test]
fn server_source() {
    let s = Source::parse_str("irc.example.com").unwrap();
    assert_eq!(s, Source::Server(Host::Domain("irc.example.com".to_string())));
    assert!(s.is_server());
    assert_eq!(s.to_string(), "irc.example.com");
}

#[test]
fn server_source_ipv4() {
    let s = Source::parse_str("127.0.0.1").unwrap();
    assert_eq!(s, Source::Server(Host::Ipv4(127, 0, 0, 1)));
    assert_eq!(s.to_string(), "127.0.0.1");
}

#[test]
fn client_source_roundtrip() {
    let c = ClientSource::parse_str("nick!user@host.example").unwrap();
    assert_eq!(c.to_string(), "nick!user@host.example");
}

#[test]
fn bad_sources() {
    assert!(Source::parse_str("").is_err());
    assert!(ClientSource::parse_str("a b").is_err());
}

#[test]
fn client_source_render_then_parse() {
    for s in ["nick", "nick!user", "nick@host", "nick!~user@host.example.com"] {
        let c = client(s);
        assert_eq!(c.to_string(), s);
        assert_eq!(ClientSource::parse_str(&c.to_string()).unwrap(), c);
    }
}

#[test]
fn dotted_nickname_reads_as_server() {
    assert!(matches!(Source::parse_str("nick.name").unwrap(), Source::Server(Host::Domain(_))));
}

#[test]
fn source_from_parts() {
    let c = client("nick!user@host");
    assert!(Source::from(c).is_client());
    let h = Host::parse_str("irc.example.com").unwrap();
    assert!(Source::from(h).is_server());
}

#[test]
fn host_text_forms() {
    let h = Host::parse_str("[0:0:0:0:0:0:0:1]").unwrap();
    assert_eq!(h, Host::Ipv6(0, 0, 0, 0, 0, 0, 0, 1));
    assert_eq!(h.to_string(), "[::1]");
    let h = Host::parse_str("127.0.0.1").unwrap();
    assert_eq!(h, Host::Ipv4(127, 0, 0, 1));
    assert_eq!(h.to_string(), "127.0.0.1");
    assert_eq!(Host::parse_str("EXAMPLE.com").unwrap().to_string(), "example.com");
    assert!(Host::parse_str("").is_err());
}
