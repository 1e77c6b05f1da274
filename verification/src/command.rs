//! The command of a message: a verb or a three-digit reply code.
use crate::names::Verb;
use crate::numfmt::{decimal, decimal_padded, digit_char, push_decimal_padded};
use crate::text::{chars_of, char_is_ascii_digit, digit_value, is_ascii_digit, push_str};
use vstd::prelude::*;
use vstd::std_specs::convert::FromSpecImpl;

verus! {

/// The abstract content of a [`Command`]
pub enum CommandView {
    Verb(Seq<char>),
    Reply(u16),
}

/// The command of a message
#[derive(Clone, Debug, PartialEq, Eq, Hash)]
pub enum Command {
    Verb(Verb),
    Reply(u16),
}

impl View for Command {
    type V = CommandView;

    open spec fn view(&self) -> CommandView {
        match self {
            Command::Verb(v) => CommandView::Verb(v@),
            Command::Reply(c) => CommandView::Reply(*c),
        }
    }
}

/// A failure to parse a command (never produced: every string is a command)
#[derive(Clone, Copy, Debug, PartialEq, Eq, Hash)]
pub struct ParseCommandError;

/// Whether `s` is exactly three ASCII digits
pub open spec fn is_three_digits(s: Seq<char>) -> bool {
    s.len() == 3 && is_ascii_digit(s[0]) && is_ascii_digit(s[1]) && is_ascii_digit(s[2])
}

/// The value of three ASCII digits
pub open spec fn three_digit_value(s: Seq<char>) -> nat {
    digit_value(s[0]) * 100 + digit_value(s[1]) * 10 + digit_value(s[2])
}

/// The command that `s` spells: three ASCII digits are a reply code, anything
/// else a verb
pub open spec fn parse_command(s: Seq<char>) -> CommandView {
    if is_three_digits(s) {
        CommandView::Reply(three_digit_value(s) as u16)
    } else {
        CommandView::Verb(s)
    }
}

/// The text form of a command: a verb as it is, a reply code as at least three
/// digits
pub open spec fn render_command(c: CommandView) -> Seq<char> {
    match c {
        CommandView::Verb(v) => v,
        CommandView::Reply(code) => decimal_padded(code as nat, 3),
    }
}

impl Command {
    pub fn is_verb(&self) -> (r: bool)
        ensures
            r == self is Verb,
    {
        match self {
            Command::Verb(_) => true,
            Command::Reply(_) => false,
        }
    }

    pub fn is_reply(&self) -> (r: bool)
        ensures
            r == self is Reply,
    {
        match self {
            Command::Verb(_) => false,
            Command::Reply(_) => true,
        }
    }

    /// Parses `s` as a command (see [`parse_command`])
    pub fn try_from_string(s: String) -> (r: Result<Command, ParseCommandError>)
        ensures
            r matches Ok(c) && c@ == parse_command(s@),
    {
        let v = chars_of(s.as_str());
        if v.len() == 3 && char_is_ascii_digit(v[0]) && char_is_ascii_digit(v[1])
            && char_is_ascii_digit(v[2]) {
            let d0 = (v[0] as u16) - ('0' as u16);
            let d1 = (v[1] as u16) - ('0' as u16);
            let d2 = (v[2] as u16) - ('0' as u16);
            Ok(Command::Reply(d0 * 100 + d1 * 10 + d2))
        } else {
            Ok(Command::Verb(Verb::from_string(s)))
        }
    }

    /// Parses `s` as a command (see [`parse_command`])
    pub fn parse_str(s: &str) -> (r: Result<Command, ParseCommandError>)
        ensures
            r matches Ok(c) && c@ == parse_command(s@),
    {
        Command::try_from_string(crate::text::string_from(s))
    }

    /// The text form of the command (see [`render_command`])
    pub fn to_string(&self) -> (r: String)
        ensures
            r@ == render_command(self@),
    {
        match self {
            Command::Verb(v) => v.to_string(),
            Command::Reply(code) => {
                let mut s = String::new();
                push_decimal_padded(&mut s, *code as u64, 3);
                assert(s@ =~= decimal_padded(*code as nat, 3));
                s
            },
        }
    }

    /// Whether the command is the verb `v`
    pub fn eq_verb(&self, v: &Verb) -> (r: bool)
        ensures
            r == (self@ == CommandView::Verb(v@)),
    {
        match self {
            Command::Verb(w) => crate::text::str_eq(w.as_str(), v.as_str()),
            Command::Reply(_) => false,
        }
    }

    /// Whether the command is the reply code `code`
    pub fn eq_code(&self, code: u16) -> (r: bool)
        ensures
            r == (self@ == CommandView::Reply(code)),
    {
        match self {
            Command::Verb(_) => false,
            Command::Reply(c) => *c == code,
        }
    }
}

impl std::str::FromStr for Command {
    type Err = ParseCommandError;

    fn from_str(s: &str) -> Result<Command, ParseCommandError> {
        Command::parse_str(s)
    }
}


/// A reply code below 1000 is written as three digits
pub proof fn lemma_reply_code_text(code: u16)
    requires
        code < 1000,
    ensures
        render_command(CommandView::Reply(code)) == seq![
            digit_char((code / 100) as nat),
            digit_char((code / 10 % 10) as nat),
            digit_char((code % 10) as nat),
        ],
{
    let n = code as nat;
    let t = seq![digit_char(n / 100), digit_char(n / 10 % 10), digit_char(n % 10)];
    if n < 10 {
        assert(decimal(n) == seq![digit_char(n)]);
        assert(decimal_padded(n, 3) =~= t);
    } else if n < 100 {
        assert(decimal(n / 10) == seq![digit_char(n / 10)]);
        assert(decimal(n) == seq![digit_char(n / 10), digit_char(n % 10)]);
        assert(decimal_padded(n, 3) =~= t);
    } else {
        assert(n / 10 / 10 == n / 100);
        assert(decimal(n / 10 / 10) == seq![digit_char(n / 100)]);
        assert(decimal(n / 10) == seq![digit_char(n / 100), digit_char(n / 10 % 10)]);
        assert(decimal(n) =~= t);
    }
}

/// A command that reads back as itself: a reply code below 1000, or a verb
/// without spaces that is not three digits
pub open spec fn command_round_trips(c: CommandView) -> bool {
    match c {
        CommandView::Reply(code) => code < 1000,
        CommandView::Verb(v) => !v.contains(' ') && !is_three_digits(v),
    }
}

/// Writing a command and parsing the text gives the same command, when it is
/// a reply code below 1000 or a verb that is not three digits
pub proof fn lemma_command_roundtrip(c: CommandView)
    requires
        command_round_trips(c),
    ensures
        parse_command(render_command(c)) == c,
{
    match c {
        CommandView::Reply(code) => {
            lemma_reply_code_text(code);
            let t = render_command(c);
            assert(is_three_digits(t));
            assert(three_digit_value(t) == code);
        },
        CommandView::Verb(_) => {},
    }
}


impl From<Verb> for Command {
    fn from(value: Verb) -> (r: Command)
        ensures
            r == Command::Verb(value),
    {
        Command::Verb(value)
    }
}

impl FromSpecImpl<Verb> for Command {
    open spec fn obeys_from_spec() -> bool {
        true
    }

    open spec fn from_spec(v: Verb) -> Command {
        Command::Verb(v)
    }
}

impl From<u16> for Command {
    fn from(value: u16) -> (r: Command)
        ensures
            r == Command::Reply(value),
    {
        Command::Reply(value)
    }
}

impl FromSpecImpl<u16> for Command {
    open spec fn obeys_from_spec() -> bool {
        true
    }

    open spec fn from_spec(v: u16) -> Command {
        Command::Reply(v)
    }
}


/// Three ASCII digits read as a reply code below 1000, which is written back
/// as the same three digits
pub proof fn lemma_three_digits_roundtrip(s: Seq<char>)
    requires
        is_three_digits(s),
    ensures
        parse_command(s) is Reply,
        parse_command(s)->Reply_0 < 1000,
        render_command(parse_command(s)) == s,
{
    let code = three_digit_value(s) as u16;
    assert(three_digit_value(s) < 1000);
    lemma_reply_code_text(code);
    let a = digit_value(s[0]);
    let b = digit_value(s[1]);
    let c = digit_value(s[2]);
    assert(code / 100 == a && code / 10 % 10 == b && code % 10 == c) by (nonlinear_arith)
        requires
            code == a * 100 + b * 10 + c,
            a < 10,
            b < 10,
            c < 10,
    ;
    assert(digit_char(a) == s[0] && digit_char(b) == s[1] && digit_char(c) == s[2]);
    assert(render_command(parse_command(s)) =~= s);
}

} // verus!
