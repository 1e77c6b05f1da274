use irctext::replies::{codes, Away, Bounce, ISupport, LocalUsers, NamReply, WhoIsActually, WhoReply};
use irctext::{
    ChannelStatus, Host, HostError, ISupportParam, IpAddr, Message, ParseUsernameError, ParameterList, Payload, Reply, ReplyError, ReplyParts,
    ReplyTarget, Source,
};

fn params(s: &str) -> ParameterList {
    ParameterList::parse_str(s).unwrap()
}

fn strs(p: &ParameterList) -> Vec<String> {
    p.iter().iter().map(|x| x.as_str().to_string()).collect()
}

fn reply(line: &str) -> Reply {
    match Message::parse_str(line).unwrap().payload {
        Payload::Reply(r) => r,
        Payload::ClientMessage(m) => panic!("unexpected {m:?}"),
    }
}

#[test]
fn namreply_with_prefix() {
    let msg = ":silver.libera.chat 353 jwodder = #python :dostoyevsky2 tk @litharge snowolf DarthOreo enyc_ `Nothing4You fizi[DWBouncers]";
    let msg = Message::parse_str(msg).unwrap();
    assert_eq!(msg.source.as_ref().unwrap().to_string(), "silver.libera.chat");
    let Payload::Reply(Reply::NamReply(r)) = msg.payload else {
        panic!("not RPL_NAMREPLY");
    };
    assert_eq!(r.client().as_str(), "jwodder");
    assert_eq!(*r.channel_status(), ChannelStatus::Public);
    assert_eq!(r.channel().as_str(), "#python");
    let clients: Vec<(Option<char>, &str)> =
        r.clients().iter().map(|(p, n)| (*p, n.as_str())).collect();
    assert_eq!(
        clients,
        [
            (None, "dostoyevsky2"),
            (None, "tk"),
            (Some('@'), "litharge"),
            (None, "snowolf"),
            (None, "DarthOreo"),
            (None, "enyc_"),
            (None, "`Nothing4You"),
            (None, "fizi[DWBouncers]"),
        ]
    );
}

#[test]
fn umodeis() {
    let r = reply(":molybdenum.libera.chat 221 jwodder +Ziw");
    assert_eq!(r.code(), 221);
    let Reply::UModeIs(r) = r else {
        panic!("not RPL_UMODEIS");
    };
    assert_eq!(r.client().as_str(), "jwodder");
    assert_eq!(r.user_modes(), "+Ziw");
    assert!(!r.is_error());
}

#[test]
fn isupport_draft() {
    let msg = ":irc.example.org 005 * NETWORK=Example draft/ICON=https://example.org/icon.svg :are supported by this server";
    let Reply::ISupport(r) = reply(msg) else {
        panic!("not RPL_ISUPPORT");
    };
    assert_eq!(r.code(), 5);
    assert_eq!(*r.client(), ReplyTarget::Star);
    assert_eq!(
        r.tokens(),
        [
            ISupportParam::Eq("NETWORK".into(), "Example".into()),
            ISupportParam::Eq("draft/ICON".into(), "https://example.org/icon.svg".into()),
        ]
    );
    assert_eq!(r.message(), "are supported by this server");
}

#[test]
fn version_no_comment() {
    let msg = ":irc.ergo.chat 351 jwodder ergo-v2.17.0-rc1 irc.ergo.chat";
    let msg = Message::parse_str(msg).unwrap();
    assert!(matches!(&msg.source, Some(Source::Server(Host::Domain(h))) if h == "irc.ergo.chat"));
    let Payload::Reply(Reply::Version(r)) = msg.payload else {
        panic!("not RPL_VERSION");
    };
    assert_eq!(r.code(), 351);
    assert_eq!(r.client().as_str(), "jwodder");
    assert_eq!(r.version(), "ergo-v2.17.0-rc1");
    assert_eq!(r.server(), "irc.ergo.chat");
    assert!(r.comments().is_none());
    assert_eq!(strs(r.parameters()), ["jwodder", "ergo-v2.17.0-rc1", "irc.ergo.chat"]);
}

#[test]
fn version_with_comment() {
    let r = reply(":irc.ergo.chat 351 jwodder ergo-v2.17.0-rc1 irc.ergo.chat :a comment");
    let Reply::Version(r) = r else {
        panic!("not RPL_VERSION");
    };
    assert_eq!(r.comments(), Some("a comment"));
    assert_eq!(
        Reply::from_parts(codes::RPL_VERSION, params("jwodder v2")).unwrap_err(),
        ReplyError::ParamQty { min_required: 3, received: 2 }
    );
}

#[test]
fn unknown_042() {
    let msg = ":weber.oftc.net 042 jwodder 9J5AACK4S :your unique ID";
    let msg = Message::parse_str(msg).unwrap();
    assert!(matches!(&msg.source, Some(Source::Server(Host::Domain(h))) if h == "weber.oftc.net"));
    let Payload::Reply(Reply::Unknown(r)) = msg.payload else {
        panic!("not an unknown reply");
    };
    assert_eq!(r.code(), 42);
    assert_eq!(strs(r.parameters()), ["jwodder", "9J5AACK4S", "your unique ID"]);
    assert!(!r.is_error());
}

#[test]
fn from_parts_unknown_code() {
    let r = Reply::from_parts(999, params("jwodder :whatever")).unwrap();
    assert_eq!(r.code(), 999);
    let (code, p) = r.into_parts();
    assert_eq!(code, 999);
    assert_eq!(strs(&p), ["jwodder", "whatever"]);
}

#[test]
fn topicwhotime_libera() {
    let msg =
        ":calcium.libera.chat 333 jwodder #python nedbat!~nedbat@python/psf/nedbat 1698253660";
    let msg = Message::parse_str(msg).unwrap();
    assert!(matches!(&msg.source, Some(Source::Server(Host::Domain(h))) if h == "calcium.libera.chat"));
    let Payload::Reply(Reply::TopicWhoTime(r)) = msg.payload else {
        panic!("not RPL_TOPICWHOTIME");
    };
    assert_eq!(r.client().as_str(), "jwodder");
    assert_eq!(r.channel().as_str(), "#python");
    assert_eq!(r.user().nickname.as_str(), "nedbat");
    assert_eq!(r.user().user.as_ref().unwrap().as_str(), "~nedbat");
    assert_eq!(r.user().host.as_ref().unwrap(), "python/psf/nedbat");
    assert_eq!(r.nickname().as_str(), "nedbat");
    assert_eq!(r.setat(), 1698253660);
}

#[test]
fn topicwhotime_plain_nick() {
    let r = reply(":srv.example 333 me #chan someone 1698253660");
    let Reply::TopicWhoTime(r) = r else {
        panic!("not RPL_TOPICWHOTIME");
    };
    assert_eq!(r.nickname().as_str(), "someone");
    assert!(r.user().user.is_none());
    assert!(r.user().host.is_none());
}

#[test]
fn loggedin_with_star_source() {
    let msg = ":irc.ergo.chat 900 * * jwodder :You are now logged in as jwodder";
    let msg = Message::parse_str(msg).unwrap();
    assert!(matches!(&msg.source, Some(Source::Server(Host::Domain(h))) if h == "irc.ergo.chat"));
    let Payload::Reply(Reply::LoggedIn(r)) = msg.payload else {
        panic!("not RPL_LOGGEDIN");
    };
    assert_eq!(r.code(), 900);
    assert_eq!(r.client().as_str(), "*");
    assert!(r.your_source().is_none());
    assert_eq!(r.account(), "jwodder");
    assert_eq!(r.message(), "You are now logged in as jwodder");
    assert_eq!(
        strs(r.parameters()),
        ["*", "*", "jwodder", "You are now logged in as jwodder"]
    );
}

#[test]
fn loggedin_with_source() {
    let r = reply(":irc.ergo.chat 900 me me!~u@host jwodder :You are now logged in as jwodder");
    let Reply::LoggedIn(r) = r else {
        panic!("not RPL_LOGGEDIN");
    };
    let src = r.your_source().unwrap();
    assert_eq!(src.nickname.as_str(), "me");
    assert_eq!(src.host.as_deref(), Some("host"));
}

#[test]
fn channelurl() {
    let msg = ":services. 328 jwodder #irssi :irssi.org";
    let msg = Message::parse_str(msg).unwrap();
    assert!(matches!(&msg.source, Some(Source::Server(Host::Domain(h))) if h == "services."));
    let Payload::Reply(Reply::ChannelUrl(r)) = msg.payload else {
        panic!("not RPL_CHANNEL_URL");
    };
    assert_eq!(r.code(), 328);
    assert_eq!(r.client().as_str(), "jwodder");
    assert_eq!(r.channel().as_str(), "#irssi");
    assert_eq!(r.url(), "irssi.org");
    assert_eq!(strs(r.parameters()), ["jwodder", "#irssi", "irssi.org"]);
}

#[test]
fn statsconn_and_invalid_cap_cmd() {
    let r = reply(":srv.example 250 me :Highest connection count: 3 (2 clients)");
    let Reply::StatsConn(r) = r else {
        panic!("not RPL_STATSCONN");
    };
    assert_eq!(r.message(), "Highest connection count: 3 (2 clients)");
    assert!(!r.is_error());
    let r = reply(":srv.example 410 me FOO :Invalid CAP command");
    let Reply::InvalidCapCmd(r) = r else {
        panic!("not ERR_INVALIDCAPCMD");
    };
    assert_eq!(r.subcommand(), "FOO");
    assert_eq!(r.message(), "Invalid CAP command");
    assert!(r.is_error());
}

#[test]
fn param_qty_error() {
    assert_eq!(
        Away::try_from_params(params("nick")),
        Err(ReplyError::ParamQty { min_required: 3, received: 1 })
    );
}

#[test]
fn int_error() {
    match Bounce::try_from_params(params("me host 99999 :try")) {
        Err(ReplyError::Int { string, .. }) => assert_eq!(string, "99999"),
        other => panic!("unexpected {other:?}"),
    }
    let b = Bounce::try_from_params(params("me host +6667 :try")).unwrap();
    assert_eq!(b.port(), 6667);
    assert_eq!(b.hostname(), "host");
}

#[test]
fn reply_target_error() {
    assert!(matches!(
        Away::try_from_params(params("#bad nick :gone")),
        Err(ReplyError::ReplyTarget(_))
    ));
    assert!(matches!(
        Away::try_from_params(params("me #bad :gone")),
        Err(ReplyError::Nickname(_))
    ));
}

#[test]
fn local_users_optional_counts() {
    let r = LocalUsers::try_from_params(params("me 3 10 :Current local users 3, max 10")).unwrap();
    assert_eq!(r.current_users(), Some(3));
    assert_eq!(r.max_users(), Some(10));
    let r = LocalUsers::try_from_params(params("me :Current local users")).unwrap();
    assert_eq!(r.current_users(), None);
    assert_eq!(r.max_users(), None);
}

#[test]
fn who_reply_fields() {
    let r = WhoReply::try_from_params(params(
        "me #chan ~user host.example server.example nick H@ :3 Real Name",
    ))
    .unwrap();
    assert_eq!(r.channel().as_str(), "#chan");
    assert_eq!(r.username().as_str(), "~user");
    assert_eq!(r.host(), "host.example");
    assert_eq!(r.nickname().as_str(), "nick");
    assert_eq!(r.hopcount(), 3);
    assert_eq!(r.realname(), "Real Name");
}

#[test]
fn parts_roundtrip() {
    let p = params("* NETWORK=x -FOO BAR :are supported");
    let r = Reply::from_parts(5, p.clone()).unwrap();
    let (code, q) = r.clone().into_parts();
    assert_eq!(code, codes::RPL_ISUPPORT);
    assert_eq!(q, p);
    assert_eq!(Reply::from_parts(code, q).unwrap(), r);
    let Reply::ISupport(i) = r else { panic!() };
    let _: &ISupport = &i;
    assert_eq!(i.tokens()[1], ISupportParam::Unset("FOO".into()));
    assert_eq!(i.tokens()[2], ISupportParam::Flag("BAR".into()));
}

#[test]
fn isupport_bad_token() {
    match Reply::from_parts(5, params("* =x :are supported")) {
        Err(ReplyError::ISupportParam(e)) => assert_eq!(e.string, "=x"),
        other => panic!("unexpected {other:?}"),
    }
}

#[test]
fn error_replies_are_errors() {
    let r = Reply::from_parts(433, params("* nick :Nickname is already in use")).unwrap();
    assert!(r.is_error());
    assert_eq!(r.code(), codes::ERR_NICKNAMEINUSE);
    let r = Reply::from_parts(1, params("nick :Welcome")).unwrap();
    assert!(!r.is_error());
}

#[test]
fn message_render() {
    let m = Message::parse_str(":srv.example 001 nick :Welcome home").unwrap();
    assert!(matches!(m.source, Some(Source::Server(_))));
    assert_eq!(m.to_string(), ":srv.example 001nick :Welcome home");
    let raw = m.into_raw();
    assert_eq!(raw.to_string(), ":srv.example 001 nick :Welcome home");
}

#[test]
fn channel_mode_is_arguments() {
    let r = Reply::from_parts(324, params("me #chan +kl key 10")).unwrap();
    let Reply::ChannelModeIs(r) = r else { panic!() };
    assert_eq!(r.modestring().as_str(), "+kl");
    assert_eq!(r.arguments().to_string(), "+kl key 10");
}

#[test]
fn whois_channels_list() {
    let r = Reply::from_parts(319, params("me nick :@#ops +#chat #plain")).unwrap();
    let Reply::WhoIsChannels(r) = r else { panic!() };
    let chans: Vec<(Option<char>, &str)> =
        r.channels().iter().map(|(p, c)| (*p, c.as_str())).collect();
    assert_eq!(chans, [(Some('@'), "#ops"), (Some('+'), "#chat"), (None, "#plain")]);
    let _: Option<NamReply> = None;
}

#[test]
fn just_ip_host() {
    let msg = ":molybdenum.libera.chat 338 jwodder somenick 127.0.0.1 :actually using host";
    let msg = Message::parse_str(msg).unwrap();
    assert!(matches!(&msg.source, Some(Source::Server(Host::Domain(h))) if h == "molybdenum.libera.chat"));
    let Payload::Reply(Reply::WhoIsActually(r)) = msg.payload else {
        panic!("not RPL_WHOISACTUALLY");
    };
    assert_eq!(r.client().as_str(), "jwodder");
    assert_eq!(r.nickname().as_str(), "somenick");
    assert_eq!(r.host(), None);
    assert!(r.username().is_none());
    assert_eq!(r.ip(), Some(IpAddr::V4(127, 0, 0, 1)));
    assert_eq!(r.message(), "actually using host");
}

#[test]
fn whois_actually_domain_host() {
    let r = WhoIsActually::try_from_params(params("jwodder somenick example.com :actually using host"))
        .unwrap();
    assert_eq!(r.host(), Some(&Host::Domain("example.com".into())));
    assert_eq!(r.ip(), None);
    let r = WhoIsActually::try_from_params(params("jwodder somenick [::1] :actually using host")).unwrap();
    assert_eq!(r.host(), None);
    assert_eq!(r.ip(), Some(IpAddr::V6(0, 0, 0, 0, 0, 0, 0, 1)));
}

#[test]
fn whois_actually_user_host_ip() {
    let r = WhoIsActually::try_from_params(params(
        "jwodder somenick ~me@example.com 2001:db8::5 :actually using host",
    ))
    .unwrap();
    assert_eq!(r.username().unwrap().as_str(), "~me");
    assert_eq!(r.host(), Some(&Host::Domain("example.com".into())));
    assert_eq!(r.ip(), Some(IpAddr::V6(0x2001, 0xdb8, 0, 0, 0, 0, 0, 5)));
    let r = WhoIsActually::try_from_params(params("jwodder somenick :actually using host")).unwrap();
    assert_eq!(r.host(), None);
    assert!(r.username().is_none());
    assert_eq!(r.ip(), None);
}

#[test]
fn whois_actually_errors() {
    let e = WhoIsActually::try_from_params(params("jwodder somenick nohost 10.0.0.1 :x")).unwrap_err();
    assert_eq!(e, ReplyError::NoAt("nohost".into()));
    let e = WhoIsActually::try_from_params(params("jwodder somenick ~a@b@example.com 10.0.0.1 :x"))
        .unwrap_err();
    let ReplyError::Username(e) = e else {
        panic!("not a username error");
    };
    assert_eq!(e.inner, ParseUsernameError::BadCharacter);
    assert_eq!(e.string, "~a@b");
    let e = WhoIsActually::try_from_params(params("jwodder somenick me@example.com 10.0.0.256 :x"))
        .unwrap_err();
    assert_eq!(e, ReplyError::IpAddr { string: "10.0.0.256".into() });
    let e = WhoIsActually::try_from_params(params("jwodder somenick me@ 10.0.0.1 :x")).unwrap_err();
    assert_eq!(e, ReplyError::Host { string: "".into(), inner: HostError::EmptyHost });
    let e = WhoIsActually::try_from_params(params("jwodder :x")).unwrap_err();
    assert!(matches!(e, ReplyError::ParamQty { min_required: 3, received: 2 }));
    let code = Reply::from_parts(codes::RPL_WHOISACTUALLY, params("jwodder :x")).unwrap_err();
    assert_eq!(code, e);
}

#[test]
fn reply_conversions() {
    let w = irctext::replies::Welcome::try_from_params(params("me :Welcome to the network")).unwrap();
    let raw = irctext::RawMessage::from(w);
    assert_eq!(raw.to_string(), "001 me :Welcome to the network");
    let w = irctext::replies::Welcome::try_from_params(params("me :hi")).unwrap();
    let m = Message::from(w);
    assert!(m.source.is_none());
    let Payload::Reply(Reply::Welcome(w)) = m.payload else {
        panic!("not RPL_WELCOME");
    };
    assert_eq!(w.message(), "hi");
    let r = Reply::from(w);
    assert_eq!(r.code(), 1);
    assert!(matches!(Payload::from(r), Payload::Reply(_)));
}

#[test]
fn umodeis_extra_parameter() {
    let r = Reply::from_parts(221, params("jwodder +Ziw extra")).unwrap();
    let Reply::UModeIs(r) = r else {
        panic!("not RPL_UMODEIS");
    };
    assert_eq!(r.user_modes(), "+Ziw");
    assert_eq!(r.client().as_str(), "jwodder");
}
