use irctext::{Command, ParameterList, RawMessage};

fn params(p: &ParameterList) -> Vec<String> {
    p.iter().iter().map(|x| x.as_str().to_string()).collect()
}

fn verb(c: &Command) -> String {
    match c {
        Command::Verb(v) => v.as_str().to_string(),
        Command::Reply(n) => panic!("unexpected reply {n}"),
    }
}

fn parse(s: &str) -> RawMessage {
    RawMessage::parse_str(s).unwrap()
}

#[test]
fn simple() {
    let msg = parse("foo bar baz asdf");
    assert!(msg.source.is_none());
    assert_eq!(verb(&msg.command), "foo");
    assert_eq!(params(&msg.parameters), ["bar", "baz", "asdf"]);
}

#[test]
fn with_source() {
    let msg = parse(":coolguy foo bar baz asdf");
    assert_eq!(msg.source.unwrap().to_string(), "coolguy");
    assert_eq!(verb(&msg.command), "foo");
    assert_eq!(params(&msg.parameters), ["bar", "baz", "asdf"]);
}

#[test]
fn with_trailing_param1() {
    let msg = parse("foo bar baz :asdf quux");
    assert!(msg.source.is_none());
    assert_eq!(verb(&msg.command), "foo");
    assert_eq!(params(&msg.parameters), ["bar", "baz", "asdf quux"]);
}

#[test]
fn with_trailing_param2() {
    let msg = parse("foo bar baz :");
    assert!(msg.source.is_none());
    assert_eq!(verb(&msg.command), "foo");
    assert_eq!(params(&msg.parameters), ["bar", "baz", ""]);
}

#[test]
fn with_trailing_param3() {
    let msg = parse("foo bar baz ::asdf");
    assert!(msg.source.is_none());
    assert_eq!(verb(&msg.command), "foo");
    assert_eq!(params(&msg.parameters), ["bar", "baz", ":asdf"]);
}

#[test]
fn with_source_and_trailing_param1() {
    let msg = parse(":coolguy foo bar baz :asdf quux");
    assert_eq!(msg.source.unwrap().to_string(), "coolguy");
    assert_eq!(verb(&msg.command), "foo");
    assert_eq!(params(&msg.parameters), ["bar", "baz", "asdf quux"]);
}

#[test]
fn with_source_and_trailing_param2() {
    let msg = parse(":coolguy foo bar baz :  asdf quux ");
    assert_eq!(msg.source.unwrap().to_string(), "coolguy");
    assert_eq!(verb(&msg.command), "foo");
    assert_eq!(params(&msg.parameters), ["bar", "baz", "  asdf quux "]);
}

#[test]
fn with_source_and_trailing_param3() {
    let msg = parse(":coolguy PRIVMSG bar :lol :) ");
    assert_eq!(msg.source.unwrap().to_string(), "coolguy");
    assert_eq!(verb(&msg.command), "PRIVMSG");
    assert_eq!(params(&msg.parameters), ["bar", "lol :) "]);
}

#[test]
fn with_source_and_trailing_param4() {
    let msg = parse(":coolguy foo bar baz :");
    assert_eq!(msg.source.unwrap().to_string(), "coolguy");
    assert_eq!(verb(&msg.command), "foo");
    assert_eq!(params(&msg.parameters), ["bar", "baz", ""]);
}

#[test]
fn with_source_and_trailing_param5() {
    let msg = parse(":coolguy foo bar baz :  ");
    assert_eq!(msg.source.unwrap().to_string(), "coolguy");
    assert_eq!(verb(&msg.command), "foo");
    assert_eq!(params(&msg.parameters), ["bar", "baz", "  "]);
}

#[test]
fn last_param1() {
    let msg = parse(":src JOIN #chan");
    assert_eq!(msg.source.unwrap().to_string(), "src");
    assert_eq!(verb(&msg.command), "JOIN");
    assert_eq!(params(&msg.parameters), ["#chan"]);
}

#[test]
fn last_param2() {
    let msg = parse(":src JOIN :#chan");
    assert_eq!(msg.source.unwrap().to_string(), "src");
    assert_eq!(verb(&msg.command), "JOIN");
    assert_eq!(params(&msg.parameters), ["#chan"]);
}

#[test]
fn without_last_param() {
    let msg = parse(":src AWAY");
    assert_eq!(msg.source.unwrap().to_string(), "src");
    assert_eq!(verb(&msg.command), "AWAY");
    assert!(msg.parameters.is_empty());
}

#[test]
fn with_last_param() {
    let msg = parse(":src AWAY ");
    assert_eq!(msg.source.unwrap().to_string(), "src");
    assert_eq!(verb(&msg.command), "AWAY");
    assert!(msg.parameters.is_empty());
}

#[test]
fn tab_not_space() {
    let msg = parse(":cool\tguy foo bar baz");
    assert_eq!(msg.source.unwrap().to_string(), "cool\tguy");
    assert_eq!(verb(&msg.command), "foo");
    assert_eq!(params(&msg.parameters), ["bar", "baz"]);
}

#[test]
fn control_code_source1() {
    let msg = parse(":coolguy!ag@net\x035w\x03ork.admin PRIVMSG foo :bar baz");
    assert_eq!(
        msg.source.unwrap().to_string(),
        "coolguy!ag@net\x035w\x03ork.admin"
    );
    assert_eq!(verb(&msg.command), "PRIVMSG");
    assert_eq!(params(&msg.parameters), ["foo", "bar baz"]);
}

#[test]
fn control_code_source2() {
    let msg = parse(":coolguy!~ag@n\x02et\x0305w\x0fork.admin PRIVMSG foo :bar baz");
    assert_eq!(
        msg.source.unwrap().to_string(),
        "coolguy!~ag@n\x02et\x0305w\x0fork.admin"
    );
    assert_eq!(verb(&msg.command), "PRIVMSG");
    assert_eq!(params(&msg.parameters), ["foo", "bar baz"]);
}

#[test]
fn misc01() {
    let msg = parse(":irc.example.com COMMAND param1 param2 :param3 param3");
    assert_eq!(msg.source.unwrap().to_string(), "irc.example.com");
    assert_eq!(verb(&msg.command), "COMMAND");
    assert_eq!(params(&msg.parameters), ["param1", "param2", "param3 param3"]);
}

#[test]
fn just_command() {
    let msg = parse("COMMAND");
    assert!(msg.source.is_none());
    assert_eq!(verb(&msg.command), "COMMAND");
    assert!(msg.parameters.is_empty());
}

#[test]
fn unreal01() {
    let msg = parse(":gravel.mozilla.org 432  #momo :Erroneous Nickname: Illegal characters");
    assert_eq!(msg.source.unwrap().to_string(), "gravel.mozilla.org");
    assert_eq!(msg.command, Command::Reply(432));
    assert_eq!(
        params(&msg.parameters),
        ["#momo", "Erroneous Nickname: Illegal characters"]
    );
}

#[test]
fn unreal02() {
    let msg = parse(":gravel.mozilla.org MODE #tckk +n ");
    assert_eq!(msg.source.unwrap().to_string(), "gravel.mozilla.org");
    assert_eq!(verb(&msg.command), "MODE");
    assert_eq!(params(&msg.parameters), ["#tckk", "+n"]);
}

#[test]
fn unreal03() {
    let msg = parse(":services.esper.net MODE #foo-bar +o foobar  ");
    assert_eq!(msg.source.unwrap().to_string(), "services.esper.net");
    assert_eq!(verb(&msg.command), "MODE");
    assert_eq!(params(&msg.parameters), ["#foo-bar", "+o", "foobar"]);
}

#[test]
fn mode01() {
    let msg = parse(":SomeOp MODE #channel :+i");
    assert_eq!(msg.source.unwrap().to_string(), "SomeOp");
    assert_eq!(verb(&msg.command), "MODE");
    assert_eq!(params(&msg.parameters), ["#channel", "+i"]);
}

#[test]
fn mode02() {
    let msg = parse(":SomeOp MODE #channel +oo SomeUser :AnotherUser");
    assert_eq!(msg.source.unwrap().to_string(), "SomeOp");
    assert_eq!(verb(&msg.command), "MODE");
    assert_eq!(
        params(&msg.parameters),
        ["#channel", "+oo", "SomeUser", "AnotherUser"]
    );
}

#[test]
fn render_raw_message() {
    let msg = parse(":nick!user@host PRIVMSG #chan :hello there");
    assert_eq!(msg.to_string(), ":nick!user@host PRIVMSG #chan :hello there");
    let msg = parse("PING x");
    assert_eq!(msg.to_string(), "PING x");
}

#[test]
fn raw_message_errors() {
    assert!(RawMessage::parse_str(":").is_err());
    assert!(RawMessage::parse_str(":a b c!d").is_ok());
    assert!(RawMessage::parse_str("foo a\0b").is_err());
    assert_eq!(RawMessage::parse_str("12 a").unwrap().command.is_verb(), true);
}

#[test]
fn render_then_parse_gives_message_back() {
    for line in [
        ":nick!~user@host.example PRIVMSG #chan :hello world",
        "PING :",
        "NOTICE * :*** Looking up your hostname",
        ":nick 401 target :No such nick",
        "CAP LS 302",
    ] {
        let msg = RawMessage::parse_str(line).unwrap();
        let text = msg.to_string();
        assert_eq!(text, line);
        assert_eq!(RawMessage::parse_str(&text).unwrap(), msg);
    }
}

#[test]
fn server_source_text() {
    let msg = RawMessage::parse_str(":irc.example.com 001 me :Welcome").unwrap();
    assert_eq!(msg.to_string(), ":irc.example.com 001 me :Welcome");
}

#[test]
fn three_digit_command_text() {
    for s in ["001", "042", "999"] {
        let c = Command::parse_str(s).unwrap();
        assert!(c.is_reply());
        assert_eq!(c.to_string(), s);
    }
    assert!(Command::parse_str("1000").unwrap().is_verb());
}
