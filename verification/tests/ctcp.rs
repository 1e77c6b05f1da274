use irctext::{CtcpCommand, CtcpMessage, CtcpParams, FinalParam, ParseCtcpCommandError};

fn ctcp(s: &str) -> CtcpMessage {
    CtcpMessage::from_final(s.parse::<FinalParam>().unwrap())
}

#[test]
fn version_no_params() {
    let p = "\x01VERSION\x01".parse::<FinalParam>().unwrap();
    let ctcp = CtcpMessage::from_final(p);
    assert_eq!(ctcp, CtcpMessage::Version(None));
}

#[test]
fn version_params() {
    match ctcp("\x01VERSION Snak for Mac 4.13\x01") {
        CtcpMessage::Version(Some(ps)) => assert_eq!(ps.as_str(), "Snak for Mac 4.13"),
        other => panic!("unexpected {other:?}"),
    }
}

#[test]
fn ping() {
    match ctcp("\x01PING 1473523796 918320\x01") {
        CtcpMessage::Ping(Some(ps)) => assert_eq!(ps.as_str(), "1473523796 918320"),
        other => panic!("unexpected {other:?}"),
    }
}

#[test]
fn action() {
    match ctcp("\x01ACTION writes some specs!\x01") {
        CtcpMessage::Action(Some(ps)) => assert_eq!(ps.as_str(), "writes some specs!"),
        other => panic!("unexpected {other:?}"),
    }
}

#[test]
fn action_no_param() {
    for s in ["\x01ACTION \x01", "\x01ACTION\x01", "\x01ACTION"] {
        assert_eq!(ctcp(s), CtcpMessage::Action(None));
    }
}

#[test]
fn plain_text_and_invalid() {
    assert!(ctcp("hello").is_plain());
    assert!(ctcp("\x01").is_plain());
    assert!(ctcp("\x01 x\x01").is_plain());
    assert_eq!(ctcp("\x01action x").is_action(), true);
}

#[test]
fn other_command_roundtrip() {
    let m = CtcpMessage::Other {
        command: "FOO".parse::<CtcpCommand>().unwrap(),
        params: Some("a b".parse::<CtcpParams>().unwrap()),
    };
    let text = m.clone().into_final();
    assert_eq!(text.as_str(), "\x01FOO a b\x01");
    assert_eq!(CtcpMessage::from_final(text), m);
}

#[test]
fn known_command_roundtrip() {
    let m = CtcpMessage::Time(None);
    let text = m.clone().into_final();
    assert_eq!(text.as_str(), "\x01TIME\x01");
    assert_eq!(CtcpMessage::from_final(text), m);
    assert!(CtcpMessage::Time(None).is_time());
}

#[test]
fn command_errors() {
    assert_eq!("".parse::<CtcpCommand>(), Err(ParseCtcpCommandError::Empty));
    assert_eq!(
        "a b".parse::<CtcpCommand>(),
        Err(ParseCtcpCommandError::BadCharacter)
    );
    assert!("a\x01".parse::<CtcpParams>().is_err());
    assert!("".parse::<CtcpParams>().is_err());
}
