//! CTCP messages: commands and parameters wrapped in Ctrl-A characters
//! inside the text of a message, as described at
//! <https://datatracker.ietf.org/doc/html/draft-oakley-irc-ctcp-02>.
use crate::parameters::{final_check, FinalParam};
use crate::text::{
    chars_of, exec_find_from, find_from, has_in_set, in_set, lemma_find_from_bounds, push_char,
    push_str, seq_has_in_set, str_has_in_set, string_from, string_of, CharSet,
};
use crate::validstr::TryFromStringError;
use vstd::prelude::*;
use vstd::std_specs::convert::FromSpecImpl;

verus! {

/// The Ctrl-A character that delimits a CTCP message
pub const CTCP_DELIM: char = '\x01';

/// Why a string is not a valid CTCP command
#[derive(Clone, Copy, Debug, PartialEq, Eq, Hash)]
pub enum ParseCtcpCommandError {
    /// The string is empty
    Empty,
    /// The string holds NUL, Ctrl-A, CR, LF, or SPACE
    BadCharacter,
}

/// Why a string is not a valid CTCP parameter string
#[derive(Clone, Copy, Debug, PartialEq, Eq, Hash)]
pub enum ParseCtcpParamsError {
    /// The string is empty
    Empty,
    /// The string holds NUL, Ctrl-A, CR, or LF
    BadCharacter,
}

/// How `s` fares as a [`CtcpCommand`]
pub open spec fn ctcp_command_check(s: Seq<char>) -> Result<(), ParseCtcpCommandError> {
    if s.len() == 0 {
        Err(ParseCtcpCommandError::Empty)
    } else if has_in_set(s, CharSet::NulCtrlACrLfSpace) {
        Err(ParseCtcpCommandError::BadCharacter)
    } else {
        Ok(())
    }
}

/// A CTCP command is nonempty and holds none of NUL, Ctrl-A, CR, LF, and space
pub proof fn lemma_ctcp_command_chars(s: Seq<char>)
    ensures
        ctcp_command_check(s) is Ok <==> {
            &&& s.len() > 0
            &&& forall|i: int| 0 <= i < s.len() ==> !(s[i] == '\0' || s[i] == '\x01' || s[i] == '\r' || s[i] == '\n'
                || s[i] == ' ')
        },
        s.len() == 0 ==> ctcp_command_check(s) == Err::<(), ParseCtcpCommandError>(ParseCtcpCommandError::Empty),
        ({
            &&& s.len() > 0
            &&& exists|i: int| 0 <= i < s.len() && (s[i] == '\0' || s[i] == '\x01' || s[i] == '\r' || s[i] == '\n'
                || s[i] == ' ')
        }) ==> ctcp_command_check(s) == Err::<(), ParseCtcpCommandError>(ParseCtcpCommandError::BadCharacter),
{
    if has_in_set(s, CharSet::NulCtrlACrLfSpace) {
        let i = choose|i: int| 0 <= i < s.len() && #[trigger] in_set(s[i], CharSet::NulCtrlACrLfSpace);
        assert((s[i] == '\0' || s[i] == '\x01' || s[i] == '\r' || s[i] == '\n'
            || s[i] == ' '));
    } else {
        assert forall|i: int| 0 <= i < s.len() implies !(s[i] == '\0' || s[i] == '\x01' || s[i] == '\r' || s[i] == '\n'
            || s[i] == ' ') by {
            assert(!in_set(s[i], CharSet::NulCtrlACrLfSpace));
        }
    }
}

/// How `s` fares as [`CtcpParams`]
pub open spec fn ctcp_params_check(s: Seq<char>) -> Result<(), ParseCtcpParamsError> {
    if s.len() == 0 {
        Err(ParseCtcpParamsError::Empty)
    } else if has_in_set(s, CharSet::NulCtrlACrLf) {
        Err(ParseCtcpParamsError::BadCharacter)
    } else {
        Ok(())
    }
}

/// CTCP parameters are nonempty and hold none of NUL, Ctrl-A, CR, and LF
pub proof fn lemma_ctcp_params_chars(s: Seq<char>)
    ensures
        ctcp_params_check(s) is Ok <==> {
            &&& s.len() > 0
            &&& forall|i: int| 0 <= i < s.len() ==> !(s[i] == '\0' || s[i] == '\x01' || s[i] == '\r' || s[i] == '\n')
        },
        s.len() == 0 ==> ctcp_params_check(s) == Err::<(), ParseCtcpParamsError>(ParseCtcpParamsError::Empty),
        ({
            &&& s.len() > 0
            &&& exists|i: int| 0 <= i < s.len() && (s[i] == '\0' || s[i] == '\x01' || s[i] == '\r' || s[i] == '\n')
        }) ==> ctcp_params_check(s) == Err::<(), ParseCtcpParamsError>(ParseCtcpParamsError::BadCharacter),
{
    if has_in_set(s, CharSet::NulCtrlACrLf) {
        let i = choose|i: int| 0 <= i < s.len() && #[trigger] in_set(s[i], CharSet::NulCtrlACrLf);
        assert((s[i] == '\0' || s[i] == '\x01' || s[i] == '\r' || s[i] == '\n'));
    } else {
        assert forall|i: int| 0 <= i < s.len() implies !(s[i] == '\0' || s[i] == '\x01' || s[i] == '\r' || s[i] == '\n') by {
            assert(!in_set(s[i], CharSet::NulCtrlACrLf));
        }
    }
}

/// The command of a CTCP message: nonempty, without NUL, Ctrl-A, CR, LF, or SPACE
#[derive(Debug, PartialEq, Eq, Hash, PartialOrd, Ord)]
pub struct CtcpCommand(String);

impl View for CtcpCommand {
    type V = Seq<char>;

    closed spec fn view(&self) -> Seq<char> {
        self.0@
    }
}

impl CtcpCommand {
    #[verifier::type_invariant]
    pub(crate) open spec fn inv(self) -> bool {
        ctcp_command_check(self@) is Ok
    }

    /// Validates `string` as a [`CtcpCommand`], returning it back on failure
    pub fn try_from_string(string: String) -> (r: Result<CtcpCommand, TryFromStringError<ParseCtcpCommandError>>)
        ensures
            r is Ok <==> ctcp_command_check(string@) is Ok,
            r matches Ok(v) ==> v@ == string@,
            r matches Err(e) ==> ctcp_command_check(string@) == Err::<(), ParseCtcpCommandError>(e.inner)
                && e.string@ == string@,
    {
        let bad = str_has_in_set(string.as_str(), CharSet::NulCtrlACrLfSpace);
        if chars_of(string.as_str()).len() == 0 {
            Err(TryFromStringError { inner: ParseCtcpCommandError::Empty, string })
        } else if bad {
            Err(TryFromStringError { inner: ParseCtcpCommandError::BadCharacter, string })
        } else {
            Ok(CtcpCommand(string))
        }
    }

    /// Parses `s` as a [`CtcpCommand`]
    pub fn parse_str(s: &str) -> (r: Result<CtcpCommand, ParseCtcpCommandError>)
        ensures
            r is Ok <==> ctcp_command_check(s@) is Ok,
            r matches Ok(v) ==> v@ == s@,
            r matches Err(e) ==> ctcp_command_check(s@) == Err::<(), ParseCtcpCommandError>(e),
    {
        match CtcpCommand::try_from_string(string_from(s)) {
            Ok(c) => Ok(c),
            Err(e) => Err(e.inner),
        }
    }

    pub fn as_str(&self) -> (r: &str)
        ensures
            r@ == self@,
    {
        self.0.as_str()
    }

    pub fn into_inner(self) -> (r: String)
        ensures
            r@ == self@,
    {
        self.0
    }

    /// The command as a final parameter
    pub fn into_final(self) -> (r: FinalParam)
        ensures
            r@ == self@,
    {
        proof {
            use_type_invariant(&self);
            lemma_no_nul_cr_lf(self@, CharSet::NulCtrlACrLfSpace);
        }
        match FinalParam::try_from_string(self.0) {
            Ok(p) => p,
            Err(_) => {
                assert(false);
                unreached()
            },
        }
    }
}

impl Clone for CtcpCommand {
    fn clone(&self) -> (r: Self)
        ensures
            r@ == self@,
    {
        proof {
            use_type_invariant(self);
        }
        CtcpCommand(self.0.clone())
    }
}

impl std::str::FromStr for CtcpCommand {
    type Err = ParseCtcpCommandError;

    fn from_str(s: &str) -> Result<CtcpCommand, ParseCtcpCommandError> {
        CtcpCommand::parse_str(s)
    }
}

/// The parameters of a CTCP message: nonempty, without NUL, Ctrl-A, CR, or LF
#[derive(Debug, PartialEq, Eq, Hash, PartialOrd, Ord)]
pub struct CtcpParams(String);

impl View for CtcpParams {
    type V = Seq<char>;

    closed spec fn view(&self) -> Seq<char> {
        self.0@
    }
}

impl CtcpParams {
    #[verifier::type_invariant]
    pub(crate) open spec fn inv(self) -> bool {
        ctcp_params_check(self@) is Ok
    }

    /// Validates `string` as [`CtcpParams`], returning it back on failure
    pub fn try_from_string(string: String) -> (r: Result<CtcpParams, TryFromStringError<ParseCtcpParamsError>>)
        ensures
            r is Ok <==> ctcp_params_check(string@) is Ok,
            r matches Ok(v) ==> v@ == string@,
            r matches Err(e) ==> ctcp_params_check(string@) == Err::<(), ParseCtcpParamsError>(e.inner)
                && e.string@ == string@,
    {
        let bad = str_has_in_set(string.as_str(), CharSet::NulCtrlACrLf);
        if chars_of(string.as_str()).len() == 0 {
            Err(TryFromStringError { inner: ParseCtcpParamsError::Empty, string })
        } else if bad {
            Err(TryFromStringError { inner: ParseCtcpParamsError::BadCharacter, string })
        } else {
            Ok(CtcpParams(string))
        }
    }

    /// Parses `s` as [`CtcpParams`]
    pub fn parse_str(s: &str) -> (r: Result<CtcpParams, ParseCtcpParamsError>)
        ensures
            r is Ok <==> ctcp_params_check(s@) is Ok,
            r matches Ok(v) ==> v@ == s@,
            r matches Err(e) ==> ctcp_params_check(s@) == Err::<(), ParseCtcpParamsError>(e),
    {
        match CtcpParams::try_from_string(string_from(s)) {
            Ok(c) => Ok(c),
            Err(e) => Err(e.inner),
        }
    }

    pub fn as_str(&self) -> (r: &str)
        ensures
            r@ == self@,
    {
        self.0.as_str()
    }

    pub fn into_inner(self) -> (r: String)
        ensures
            r@ == self@,
    {
        self.0
    }

    /// The parameters as a final parameter
    pub fn into_final(self) -> (r: FinalParam)
        ensures
            r@ == self@,
    {
        proof {
            use_type_invariant(&self);
            lemma_no_nul_cr_lf(self@, CharSet::NulCtrlACrLf);
        }
        match FinalParam::try_from_string(self.0) {
            Ok(p) => p,
            Err(_) => {
                assert(false);
                unreached()
            },
        }
    }
}

impl Clone for CtcpParams {
    fn clone(&self) -> (r: Self)
        ensures
            r@ == self@,
    {
        proof {
            use_type_invariant(self);
        }
        CtcpParams(self.0.clone())
    }
}

impl std::str::FromStr for CtcpParams {
    type Err = ParseCtcpParamsError;

    fn from_str(s: &str) -> Result<CtcpParams, ParseCtcpParamsError> {
        CtcpParams::parse_str(s)
    }
}

/// A string without any character of `cs`, which holds NUL, CR, and LF, has
/// none of NUL, CR, and LF
proof fn lemma_no_nul_cr_lf(s: Seq<char>, cs: CharSet)
    requires
        cs == CharSet::NulCtrlACrLfSpace || cs == CharSet::NulCtrlACrLf,
        !has_in_set(s, cs),
    ensures
        final_check(s) is Ok,
{
    if has_in_set(s, CharSet::NulCrLf) {
        let i = choose|i: int| 0 <= i < s.len() && #[trigger] in_set(s[i], CharSet::NulCrLf);
        assert(in_set(s[i], cs));
    }
}

/// The abstract content of a [`CtcpMessage`]: commands and parameters by their
/// characters
pub enum CtcpView {
    Action(Option<Seq<char>>),
    ClientInfo(Option<Seq<char>>),
    Dcc(Option<Seq<char>>),
    Finger(Option<Seq<char>>),
    Ping(Option<Seq<char>>),
    Source(Option<Seq<char>>),
    Time(Option<Seq<char>>),
    UserInfo(Option<Seq<char>>),
    Version(Option<Seq<char>>),
    Other(Seq<char>, Option<Seq<char>>),
    Plain(Seq<char>),
}

/// A message that may be a CTCP request or reply
#[derive(Clone, Debug, PartialEq, Eq, Hash)]
pub enum CtcpMessage {
    Action(Option<CtcpParams>),
    ClientInfo(Option<CtcpParams>),
    Dcc(Option<CtcpParams>),
    Finger(Option<CtcpParams>),
    Ping(Option<CtcpParams>),
    Source(Option<CtcpParams>),
    Time(Option<CtcpParams>),
    UserInfo(Option<CtcpParams>),
    Version(Option<CtcpParams>),
    Other { command: CtcpCommand, params: Option<CtcpParams> },
    /// Not a CTCP message, just text
    Plain(FinalParam),
}

/// The view of optional parameters
pub open spec fn opt_params_view(p: Option<CtcpParams>) -> Option<Seq<char>> {
    match p {
        Some(ps) => Some(ps@),
        None => None,
    }
}

impl View for CtcpMessage {
    type V = CtcpView;

    open spec fn view(&self) -> CtcpView {
        match self {
            CtcpMessage::Action(p) => CtcpView::Action(opt_params_view(*p)),
            CtcpMessage::ClientInfo(p) => CtcpView::ClientInfo(opt_params_view(*p)),
            CtcpMessage::Dcc(p) => CtcpView::Dcc(opt_params_view(*p)),
            CtcpMessage::Finger(p) => CtcpView::Finger(opt_params_view(*p)),
            CtcpMessage::Ping(p) => CtcpView::Ping(opt_params_view(*p)),
            CtcpMessage::Source(p) => CtcpView::Source(opt_params_view(*p)),
            CtcpMessage::Time(p) => CtcpView::Time(opt_params_view(*p)),
            CtcpMessage::UserInfo(p) => CtcpView::UserInfo(opt_params_view(*p)),
            CtcpMessage::Version(p) => CtcpView::Version(opt_params_view(*p)),
            CtcpMessage::Other { command, params } => CtcpView::Other(command@, opt_params_view(*params)),
            CtcpMessage::Plain(p) => CtcpView::Plain(p@),
        }
    }
}

/// The code of `c`, with ASCII capital letters made small
pub open spec fn ascii_lower(c: char) -> int {
    if 'A' <= c && c <= 'Z' {
        c as int + 32
    } else {
        c as int
    }
}

/// Whether `a` and `b` are the same up to the case of ASCII letters
pub open spec fn eq_ignore_ascii_case(a: Seq<char>, b: Seq<char>) -> bool {
    a.len() == b.len() && forall|i: int| 0 <= i < a.len() ==> ascii_lower(#[trigger] a[i]) == ascii_lower(b[i])
}

/// Whether `a` and `b` are the same up to the case of ASCII letters
pub fn exec_eq_ignore_ascii_case(a: &str, b: &str) -> (r: bool)
    ensures
        r == eq_ignore_ascii_case(a@, b@),
{
    let x = chars_of(a);
    let y = chars_of(b);
    if x.len() != y.len() {
        return false;
    }
    let mut i: usize = 0;
    while i < x.len()
        invariant
            0 <= i <= x@.len() == y@.len(),
            x@ == a@,
            y@ == b@,
            forall|j: int| 0 <= j < i ==> ascii_lower(#[trigger] x@[j]) == ascii_lower(y@[j]),
        decreases x@.len() - i,
    {
        let c = x[i];
        let d = y[i];
        let same = if c == d {
            true
        } else if 'A' <= c && c <= 'Z' && 'a' <= d && d <= 'z' {
            (c as u32) + 32 == (d as u32)
        } else if 'a' <= c && c <= 'z' && 'A' <= d && d <= 'Z' {
            (c as u32) == (d as u32) + 32
        } else {
            false
        };
        if !same {
            assert(ascii_lower(x@[i as int]) != ascii_lower(y@[i as int]));
            return false;
        }
        i = i + 1;
    }
    true
}

/// The message kind named by `cmd`, compared without regard to ASCII case,
/// holding `params`
pub open spec fn ctcp_kind(cmd: Seq<char>, params: Option<Seq<char>>) -> CtcpView {
    if eq_ignore_ascii_case(cmd, "ACTION"@) {
        CtcpView::Action(params)
    } else if eq_ignore_ascii_case(cmd, "CLIENTINFO"@) {
        CtcpView::ClientInfo(params)
    } else if eq_ignore_ascii_case(cmd, "DCC"@) {
        CtcpView::Dcc(params)
    } else if eq_ignore_ascii_case(cmd, "FINGER"@) {
        CtcpView::Finger(params)
    } else if eq_ignore_ascii_case(cmd, "PING"@) {
        CtcpView::Ping(params)
    } else if eq_ignore_ascii_case(cmd, "SOURCE"@) {
        CtcpView::Source(params)
    } else if eq_ignore_ascii_case(cmd, "TIME"@) {
        CtcpView::Time(params)
    } else if eq_ignore_ascii_case(cmd, "USERINFO"@) {
        CtcpView::UserInfo(params)
    } else if eq_ignore_ascii_case(cmd, "VERSION"@) {
        CtcpView::Version(params)
    } else {
        CtcpView::Other(cmd, params)
    }
}

/// The text between the leading Ctrl-A of `s` and a trailing Ctrl-A, if any
pub open spec fn ctcp_body(s: Seq<char>) -> Seq<char> {
    let t = s.drop_first();
    if t.len() > 0 && t.last() == CTCP_DELIM {
        t.drop_last()
    } else {
        t
    }
}

/// The CTCP message that the text `s` of a message holds: after a leading
/// Ctrl-A (and up to a trailing one), a valid command, then optionally a space
/// and, if anything follows, valid parameters.  Any other text is plain.
pub open spec fn parse_ctcp(s: Seq<char>) -> CtcpView {
    if s.len() == 0 || s[0] != CTCP_DELIM {
        CtcpView::Plain(s)
    } else {
        let body = ctcp_body(s);
        let i = find_from(body, ' ', 0);
        let cmd = if i < body.len() { body.take(i) } else { body };
        let params = if i < body.len() { body.skip(i + 1) } else { Seq::empty() };
        if ctcp_command_check(cmd) is Err {
            CtcpView::Plain(s)
        } else if params.len() == 0 {
            ctcp_kind(cmd, None)
        } else if ctcp_params_check(params) is Ok {
            ctcp_kind(cmd, Some(params))
        } else {
            CtcpView::Plain(s)
        }
    }
}

/// The name written for a message kind
pub open spec fn ctcp_name(m: CtcpView) -> Seq<char> {
    match m {
        CtcpView::Action(_) => "ACTION"@,
        CtcpView::ClientInfo(_) => "CLIENTINFO"@,
        CtcpView::Dcc(_) => "DCC"@,
        CtcpView::Finger(_) => "FINGER"@,
        CtcpView::Ping(_) => "PING"@,
        CtcpView::Source(_) => "SOURCE"@,
        CtcpView::Time(_) => "TIME"@,
        CtcpView::UserInfo(_) => "USERINFO"@,
        CtcpView::Version(_) => "VERSION"@,
        CtcpView::Other(c, _) => c,
        CtcpView::Plain(t) => t,
    }
}

/// The parameters of a message
pub open spec fn ctcp_params(m: CtcpView) -> Option<Seq<char>> {
    match m {
        CtcpView::Action(p) => p,
        CtcpView::ClientInfo(p) => p,
        CtcpView::Dcc(p) => p,
        CtcpView::Finger(p) => p,
        CtcpView::Ping(p) => p,
        CtcpView::Source(p) => p,
        CtcpView::Time(p) => p,
        CtcpView::UserInfo(p) => p,
        CtcpView::Version(p) => p,
        CtcpView::Other(_, p) => p,
        CtcpView::Plain(_) => None,
    }
}

/// The text of a message: plain text as it is; else a Ctrl-A, the command,
/// a space and the parameters if there are any, and a Ctrl-A
pub open spec fn ctcp_text(m: CtcpView) -> Seq<char> {
    match m {
        CtcpView::Plain(t) => t,
        _ => match ctcp_params(m) {
            Some(ps) => seq![CTCP_DELIM] + ctcp_name(m) + seq![' '] + ps + seq![CTCP_DELIM],
            None => seq![CTCP_DELIM] + ctcp_name(m) + seq![CTCP_DELIM],
        },
    }
}

impl CtcpMessage {
    pub fn is_action(&self) -> (r: bool)
        ensures
            r == (self is Action),
    {
        matches!(self, CtcpMessage::Action(_))
    }

    pub fn is_clientinfo(&self) -> (r: bool)
        ensures
            r == (self is ClientInfo),
    {
        matches!(self, CtcpMessage::ClientInfo(_))
    }

    pub fn is_dcc(&self) -> (r: bool)
        ensures
            r == (self is Dcc),
    {
        matches!(self, CtcpMessage::Dcc(_))
    }

    pub fn is_finger(&self) -> (r: bool)
        ensures
            r == (self is Finger),
    {
        matches!(self, CtcpMessage::Finger(_))
    }

    pub fn is_ping(&self) -> (r: bool)
        ensures
            r == (self is Ping),
    {
        matches!(self, CtcpMessage::Ping(_))
    }

    pub fn is_source(&self) -> (r: bool)
        ensures
            r == (self is Source),
    {
        matches!(self, CtcpMessage::Source(_))
    }

    pub fn is_time(&self) -> (r: bool)
        ensures
            r == (self is Time),
    {
        matches!(self, CtcpMessage::Time(_))
    }

    pub fn is_userinfo(&self) -> (r: bool)
        ensures
            r == (self is UserInfo),
    {
        matches!(self, CtcpMessage::UserInfo(_))
    }

    pub fn is_version(&self) -> (r: bool)
        ensures
            r == (self is Version),
    {
        matches!(self, CtcpMessage::Version(_))
    }

    pub fn is_other(&self) -> (r: bool)
        ensures
            r == (self is Other),
    {
        matches!(self, CtcpMessage::Other { .. })
    }

    pub fn is_plain(&self) -> (r: bool)
        ensures
            r == (self is Plain),
    {
        matches!(self, CtcpMessage::Plain(_))
    }

    /// Reads the text of a message as a CTCP message (see [`parse_ctcp`])
    pub fn from_final(p: FinalParam) -> (r: CtcpMessage)
        ensures
            r@ == parse_ctcp(p@),
    {
        let v = chars_of(p.as_str());
        if v.len() == 0 || v[0] != CTCP_DELIM {
            return CtcpMessage::Plain(p);
        }
        let ghost s = v@;
        let end = if v.len() > 1 && v[v.len() - 1] == CTCP_DELIM { v.len() - 1 } else { v.len() };
        let ghost body = ctcp_body(s);
        assert(body =~= s.subrange(1, end as int));
        proof {
            lemma_find_from_bounds(body, ' ', 0);
        }
        let body_v = {
            let mut b: Vec<char> = Vec::new();
            let mut k: usize = 1;
            while k < end
                invariant
                    1 <= k <= end <= v@.len(),
                    b@ == v@.subrange(1, k as int),
                decreases end - k,
            {
                b.push(v[k]);
                assert(v@.subrange(1, k + 1) =~= v@.subrange(1, k as int).push(v@[k as int]));
                k = k + 1;
            }
            b
        };
        assert(body_v@ =~= body);
        let i = exec_find_from(&body_v, ' ', 0);
        let (cmd, params) = if i < body_v.len() {
            (string_of(&body_v, 0, i), string_of(&body_v, i + 1, body_v.len()))
        } else {
            (string_of(&body_v, 0, body_v.len()), String::new())
        };
        assert(i < body.len() ==> cmd@ =~= body.take(i as int) && params@ =~= body.skip(i + 1));
        assert(i >= body.len() ==> cmd@ =~= body && params@ =~= Seq::<char>::empty());
        let cmd = match CtcpCommand::try_from_string(cmd) {
            Ok(c) => c,
            Err(_) => {
                return CtcpMessage::Plain(p);
            },
        };
        let params = if chars_of(params.as_str()).len() == 0 {
            None
        } else {
            match CtcpParams::try_from_string(params) {
                Ok(ps) => Some(ps),
                Err(_) => {
                    return CtcpMessage::Plain(p);
                },
            }
        };
        CtcpMessage::from_parts(cmd, params)
    }

    /// The message of the kind that `cmd` names, holding `params`
    fn from_parts(cmd: CtcpCommand, params: Option<CtcpParams>) -> (r: CtcpMessage)
        ensures
            r@ == ctcp_kind(cmd@, opt_params_view(params)),
    {
        let c = cmd.as_str();
        if exec_eq_ignore_ascii_case(c, "ACTION") {
            CtcpMessage::Action(params)
        } else if exec_eq_ignore_ascii_case(c, "CLIENTINFO") {
            CtcpMessage::ClientInfo(params)
        } else if exec_eq_ignore_ascii_case(c, "DCC") {
            CtcpMessage::Dcc(params)
        } else if exec_eq_ignore_ascii_case(c, "FINGER") {
            CtcpMessage::Finger(params)
        } else if exec_eq_ignore_ascii_case(c, "PING") {
            CtcpMessage::Ping(params)
        } else if exec_eq_ignore_ascii_case(c, "SOURCE") {
            CtcpMessage::Source(params)
        } else if exec_eq_ignore_ascii_case(c, "TIME") {
            CtcpMessage::Time(params)
        } else if exec_eq_ignore_ascii_case(c, "USERINFO") {
            CtcpMessage::UserInfo(params)
        } else if exec_eq_ignore_ascii_case(c, "VERSION") {
            CtcpMessage::Version(params)
        } else {
            CtcpMessage::Other { command: cmd, params }
        }
    }

    /// The text of the message (see [`ctcp_text`])
    pub fn into_final(self) -> (r: FinalParam)
        ensures
            r@ == ctcp_text(self@),
    {
        let (name, params): (String, Option<CtcpParams>) = match self {
            CtcpMessage::Action(ps) => (string_from("ACTION"), ps),
            CtcpMessage::ClientInfo(ps) => (string_from("CLIENTINFO"), ps),
            CtcpMessage::Dcc(ps) => (string_from("DCC"), ps),
            CtcpMessage::Finger(ps) => (string_from("FINGER"), ps),
            CtcpMessage::Ping(ps) => (string_from("PING"), ps),
            CtcpMessage::Source(ps) => (string_from("SOURCE"), ps),
            CtcpMessage::Time(ps) => (string_from("TIME"), ps),
            CtcpMessage::UserInfo(ps) => (string_from("USERINFO"), ps),
            CtcpMessage::Version(ps) => (string_from("VERSION"), ps),
            CtcpMessage::Other { command, params } => {
                proof {
                    use_type_invariant(&command);
                }
                (command.into_inner(), params)
            },
            CtcpMessage::Plain(fp) => {
                return fp;
            },
        };
        let ghost m = self@;
        proof {
            reveal_strlit("ACTION");
            reveal_strlit("CLIENTINFO");
            reveal_strlit("DCC");
            reveal_strlit("FINGER");
            reveal_strlit("PING");
            reveal_strlit("SOURCE");
            reveal_strlit("TIME");
            reveal_strlit("USERINFO");
            reveal_strlit("VERSION");
        }
        assert(name@ == ctcp_name(m));
        assert(!has_in_set(name@, CharSet::NulCtrlACrLfSpace)) by {
            if has_in_set(name@, CharSet::NulCtrlACrLfSpace) {
                let k = choose|k: int| 0 <= k < name@.len() && #[trigger] in_set(name@[k], CharSet::NulCtrlACrLfSpace);
                if let CtcpView::Other(c, _) = m {
                    assert(ctcp_command_check(c) is Ok);
                }
            }
        }
        let mut s = String::new();
        push_char(&mut s, CTCP_DELIM);
        push_str(&mut s, name.as_str());
        match params {
            Some(ps) => {
                let ghost pv = ps@;
                proof {
                    use_type_invariant(&ps);
                }
                push_char(&mut s, ' ');
                push_str(&mut s, ps.as_str());
                push_char(&mut s, CTCP_DELIM);
                assert(s@ =~= ctcp_text(m));
                assert(final_check(s@) is Ok) by {
                    lemma_frame_ok(name@, Some(pv));
                }
            },
            None => {
                push_char(&mut s, CTCP_DELIM);
                assert(s@ =~= ctcp_text(m));
                assert(final_check(s@) is Ok) by {
                    lemma_frame_ok(name@, None);
                }
            },
        }
        match FinalParam::try_from_string(s) {
            Ok(fp) => fp,
            Err(_) => {
                assert(false);
                unreached()
            },
        }
    }
}

/// The framed text of a command and parameters without NUL, CR, or LF holds
/// none of them either
proof fn lemma_frame_ok(name: Seq<char>, params: Option<Seq<char>>)
    requires
        !has_in_set(name, CharSet::NulCtrlACrLfSpace),
        params matches Some(ps) ==> ctcp_params_check(ps) is Ok,
    ensures
        final_check(
            match params {
                Some(ps) => seq![CTCP_DELIM] + name + seq![' '] + ps + seq![CTCP_DELIM],
                None => seq![CTCP_DELIM] + name + seq![CTCP_DELIM],
            },
        ) is Ok,
{
    let t = match params {
        Some(ps) => seq![CTCP_DELIM] + name + seq![' '] + ps + seq![CTCP_DELIM],
        None => seq![CTCP_DELIM] + name + seq![CTCP_DELIM],
    };
    if has_in_set(t, CharSet::NulCrLf) {
        let k = choose|k: int| 0 <= k < t.len() && #[trigger] in_set(t[k], CharSet::NulCrLf);
        if 1 <= k < 1 + name.len() {
            assert(t[k] == name[k - 1]);
            assert(in_set(name[k - 1], CharSet::NulCtrlACrLfSpace));
        } else if let Some(ps) = params {
            if 2 + name.len() <= k < 2 + name.len() + ps.len() {
                assert(t[k] == ps[k - 2 - name.len()]);
                assert(in_set(ps[k - 2 - name.len()], CharSet::NulCtrlACrLf));
            }
        }
    }
}

/// Writing a CTCP message and reading the text back gives the same message,
/// for every message whose command, if it is not one of the named kinds, does
/// not spell a named kind in another case, and, for plain text, whenever the
/// text does not read as a CTCP message (text not starting with `\x01` never
/// does).
pub proof fn lemma_ctcp_roundtrip(m: CtcpView)
    requires
        m matches CtcpView::Plain(s) ==> parse_ctcp(s) is Plain,
        m matches CtcpView::Other(c, _) ==> ctcp_command_check(c) is Ok && ctcp_kind(c, None) == CtcpView::Other(c, None),
        ctcp_params(m) matches Some(ps) ==> ctcp_params_check(ps) is Ok,
    ensures
        parse_ctcp(ctcp_text(m)) == m,
{
    if !(m is Plain) {
        reveal_strlit("ACTION");
        reveal_strlit("CLIENTINFO");
        reveal_strlit("DCC");
        reveal_strlit("FINGER");
        reveal_strlit("PING");
        reveal_strlit("SOURCE");
        reveal_strlit("TIME");
        reveal_strlit("USERINFO");
        reveal_strlit("VERSION");
        let name = ctcp_name(m);
        let t = ctcp_text(m);
        let body = ctcp_body(t);
        assert(ctcp_command_check(name) is Ok) by {
            if let CtcpView::Other(c, _) = m {
            } else {
                assert(!has_in_set(name, CharSet::NulCtrlACrLfSpace));
            }
        }
        assert(!name.contains(' ')) by {
            if name.contains(' ') {
                let k = choose|k: int| 0 <= k < name.len() && name[k] == ' ';
                assert(in_set(name[k], CharSet::NulCtrlACrLfSpace));
            }
        }
        proof_find_space(name);
        assert(t.len() > 0 && t[0] == CTCP_DELIM);
        match ctcp_params(m) {
            Some(ps) => {
                assert(t.drop_first() =~= name + seq![' '] + ps + seq![CTCP_DELIM]);
                assert(body =~= name + (seq![' '] + ps));
                lemma_find_prefix(name, seq![' '] + ps);
                assert(body.take(name.len() as int) =~= name);
                assert(body.skip(name.len() as int + 1) =~= ps);
                assert(ctcp_params_check(ps) is Ok);
                assert(ps.len() > 0);
                assert(parse_ctcp(t) == ctcp_kind(name, Some(ps)));
                assert(ctcp_kind(name, Some(ps)) == m) by {
                    lemma_kind_params(m, Some(ps));
                }
            },
            None => {
                assert(t.drop_first() =~= name + seq![CTCP_DELIM]);
                assert(body =~= name);
                assert(parse_ctcp(t) == ctcp_kind(name, None));
                assert(ctcp_kind(name, None) == m) by {
                    lemma_kind_params(m, None);
                }
            },
        }
    }
}

/// The framed text of a command and optional parameters: a Ctrl-A, the
/// command, a space and the parameters if there are any, and a Ctrl-A
pub open spec fn ctcp_frame(name: Seq<char>, params: Option<Seq<char>>) -> Seq<char> {
    match params {
        Some(ps) => seq![CTCP_DELIM] + name + seq![' '] + ps + seq![CTCP_DELIM],
        None => seq![CTCP_DELIM] + name + seq![CTCP_DELIM],
    }
}

/// The names of the CTCP message kinds: each named kind is written with its
/// own name (`ACTION`, `CLIENTINFO`, `DCC`, `FINGER`, `PING`, `SOURCE`,
/// `TIME`, `USERINFO`, `VERSION`), and the framed name reads back as that
/// kind, with or without parameters
pub proof fn lemma_ctcp_names(p: Option<Seq<char>>)
    requires
        p matches Some(ps) ==> ctcp_params_check(ps) is Ok,
    ensures
        ctcp_text(CtcpView::Action(p)) == ctcp_frame(seq!['A', 'C', 'T', 'I', 'O', 'N'], p),
        parse_ctcp(ctcp_frame(seq!['A', 'C', 'T', 'I', 'O', 'N'], p)) == CtcpView::Action(p),
        ctcp_text(CtcpView::ClientInfo(p)) == ctcp_frame(seq!['C', 'L', 'I', 'E', 'N', 'T', 'I', 'N', 'F', 'O'], p),
        parse_ctcp(ctcp_frame(seq!['C', 'L', 'I', 'E', 'N', 'T', 'I', 'N', 'F', 'O'], p)) == CtcpView::ClientInfo(p),
        ctcp_text(CtcpView::Dcc(p)) == ctcp_frame(seq!['D', 'C', 'C'], p),
        parse_ctcp(ctcp_frame(seq!['D', 'C', 'C'], p)) == CtcpView::Dcc(p),
        ctcp_text(CtcpView::Finger(p)) == ctcp_frame(seq!['F', 'I', 'N', 'G', 'E', 'R'], p),
        parse_ctcp(ctcp_frame(seq!['F', 'I', 'N', 'G', 'E', 'R'], p)) == CtcpView::Finger(p),
        ctcp_text(CtcpView::Ping(p)) == ctcp_frame(seq!['P', 'I', 'N', 'G'], p),
        parse_ctcp(ctcp_frame(seq!['P', 'I', 'N', 'G'], p)) == CtcpView::Ping(p),
        ctcp_text(CtcpView::Source(p)) == ctcp_frame(seq!['S', 'O', 'U', 'R', 'C', 'E'], p),
        parse_ctcp(ctcp_frame(seq!['S', 'O', 'U', 'R', 'C', 'E'], p)) == CtcpView::Source(p),
        ctcp_text(CtcpView::Time(p)) == ctcp_frame(seq!['T', 'I', 'M', 'E'], p),
        parse_ctcp(ctcp_frame(seq!['T', 'I', 'M', 'E'], p)) == CtcpView::Time(p),
        ctcp_text(CtcpView::UserInfo(p)) == ctcp_frame(seq!['U', 'S', 'E', 'R', 'I', 'N', 'F', 'O'], p),
        parse_ctcp(ctcp_frame(seq!['U', 'S', 'E', 'R', 'I', 'N', 'F', 'O'], p)) == CtcpView::UserInfo(p),
        ctcp_text(CtcpView::Version(p)) == ctcp_frame(seq!['V', 'E', 'R', 'S', 'I', 'O', 'N'], p),
        parse_ctcp(ctcp_frame(seq!['V', 'E', 'R', 'S', 'I', 'O', 'N'], p)) == CtcpView::Version(p),
{
    reveal_strlit("ACTION");
    assert("ACTION"@ =~= seq!['A', 'C', 'T', 'I', 'O', 'N']);
    lemma_named_kind(CtcpView::Action(p), seq!['A', 'C', 'T', 'I', 'O', 'N']);
    reveal_strlit("CLIENTINFO");
    assert("CLIENTINFO"@ =~= seq!['C', 'L', 'I', 'E', 'N', 'T', 'I', 'N', 'F', 'O']);
    lemma_named_kind(CtcpView::ClientInfo(p), seq!['C', 'L', 'I', 'E', 'N', 'T', 'I', 'N', 'F', 'O']);
    reveal_strlit("DCC");
    assert("DCC"@ =~= seq!['D', 'C', 'C']);
    lemma_named_kind(CtcpView::Dcc(p), seq!['D', 'C', 'C']);
    reveal_strlit("FINGER");
    assert("FINGER"@ =~= seq!['F', 'I', 'N', 'G', 'E', 'R']);
    lemma_named_kind(CtcpView::Finger(p), seq!['F', 'I', 'N', 'G', 'E', 'R']);
    reveal_strlit("PING");
    assert("PING"@ =~= seq!['P', 'I', 'N', 'G']);
    lemma_named_kind(CtcpView::Ping(p), seq!['P', 'I', 'N', 'G']);
    reveal_strlit("SOURCE");
    assert("SOURCE"@ =~= seq!['S', 'O', 'U', 'R', 'C', 'E']);
    lemma_named_kind(CtcpView::Source(p), seq!['S', 'O', 'U', 'R', 'C', 'E']);
    reveal_strlit("TIME");
    assert("TIME"@ =~= seq!['T', 'I', 'M', 'E']);
    lemma_named_kind(CtcpView::Time(p), seq!['T', 'I', 'M', 'E']);
    reveal_strlit("USERINFO");
    assert("USERINFO"@ =~= seq!['U', 'S', 'E', 'R', 'I', 'N', 'F', 'O']);
    lemma_named_kind(CtcpView::UserInfo(p), seq!['U', 'S', 'E', 'R', 'I', 'N', 'F', 'O']);
    reveal_strlit("VERSION");
    assert("VERSION"@ =~= seq!['V', 'E', 'R', 'S', 'I', 'O', 'N']);
    lemma_named_kind(CtcpView::Version(p), seq!['V', 'E', 'R', 'S', 'I', 'O', 'N']);
}

/// A named kind is written as its name framed with its parameters, and that
/// text reads back as the kind
proof fn lemma_named_kind(m: CtcpView, name: Seq<char>)
    requires
        !(m is Plain),
        !(m is Other),
        ctcp_name(m) == name,
        ctcp_params(m) matches Some(ps) ==> ctcp_params_check(ps) is Ok,
    ensures
        ctcp_text(m) == ctcp_frame(name, ctcp_params(m)),
        parse_ctcp(ctcp_frame(name, ctcp_params(m))) == m,
{
    lemma_ctcp_roundtrip(m);
}

/// [`find_from`] finds no space in a string without one
proof fn proof_find_space(s: Seq<char>)
    requires
        !s.contains(' '),
    ensures
        find_from(s, ' ', 0) == s.len(),
{
    lemma_find_absent(s, 0);
}

proof fn lemma_find_absent(s: Seq<char>, i: int)
    requires
        !s.contains(' '),
        0 <= i <= s.len(),
    ensures
        find_from(s, ' ', i) == s.len(),
    decreases s.len() - i,
{
    if i < s.len() {
        assert(s[i] != ' ');
        lemma_find_absent(s, i + 1);
    }
}

/// The first space of `a + t`, where `a` has none and `t` starts with one, is
/// at the end of `a`
proof fn lemma_find_prefix(a: Seq<char>, t: Seq<char>)
    requires
        !a.contains(' '),
        t.len() > 0,
        t[0] == ' ',
    ensures
        find_from(a + t, ' ', 0) == a.len(),
{
    lemma_find_prefix_from(a, t, 0);
}

proof fn lemma_find_prefix_from(a: Seq<char>, t: Seq<char>, i: int)
    requires
        !a.contains(' '),
        t.len() > 0,
        t[0] == ' ',
        0 <= i <= a.len(),
    ensures
        find_from(a + t, ' ', i) == a.len(),
    decreases a.len() - i,
{
    if i < a.len() {
        assert((a + t)[i] == a[i]);
        lemma_find_prefix_from(a, t, i + 1);
    } else {
        assert((a + t)[i] == ' ');
    }
}

/// The kind that the name of a message spells is the message's own kind
proof fn lemma_kind_params(m: CtcpView, p: Option<Seq<char>>)
    requires
        !(m is Plain),
        p == ctcp_params(m),
        m matches CtcpView::Other(c, _) ==> ctcp_kind(c, None) == CtcpView::Other(c, None),
    ensures
        ctcp_kind(ctcp_name(m), p) == m,
{
    reveal_strlit("ACTION");
    reveal_strlit("CLIENTINFO");
    reveal_strlit("DCC");
    reveal_strlit("FINGER");
    reveal_strlit("PING");
    reveal_strlit("SOURCE");
    reveal_strlit("TIME");
    reveal_strlit("USERINFO");
    reveal_strlit("VERSION");
    let n = ctcp_name(m);
    assert("ACTION"@[0] == 'A' && "CLIENTINFO"@[0] == 'C' && "DCC"@[0] == 'D' && "FINGER"@[0] == 'F');
    assert("PING"@[0] == 'P' && "SOURCE"@[0] == 'S' && "TIME"@[0] == 'T' && "USERINFO"@[0] == 'U');
    assert("VERSION"@[0] == 'V');
    assert(eq_ignore_ascii_case(n, n));
    match m {
        CtcpView::Other(c, _) => {
            assert(ctcp_kind(c, p) is Other) by {
                assert(!(ctcp_kind(c, None) is Action));
            }
        },
        _ => {},
    }
}


impl From<CtcpCommand> for FinalParam {
    /// Every CTCP command is a valid final parameter
    fn from(value: CtcpCommand) -> (r: FinalParam)
        ensures
            r@ == value@,
    {
        value.into_final()
    }
}

impl FromSpecImpl<CtcpCommand> for FinalParam {
    open spec fn obeys_from_spec() -> bool {
        false
    }

    open spec fn from_spec(v: CtcpCommand) -> FinalParam {
        arbitrary()
    }
}

impl From<CtcpParams> for FinalParam {
    /// Every CTCP parameter string is a valid final parameter
    fn from(value: CtcpParams) -> (r: FinalParam)
        ensures
            r@ == value@,
    {
        value.into_final()
    }
}

impl FromSpecImpl<CtcpParams> for FinalParam {
    open spec fn obeys_from_spec() -> bool {
        false
    }

    open spec fn from_spec(v: CtcpParams) -> FinalParam {
        arbitrary()
    }
}

impl From<CtcpMessage> for FinalParam {
    /// The text of the message (see [`ctcp_text`])
    fn from(value: CtcpMessage) -> (r: FinalParam)
        ensures
            r@ == ctcp_text(value@),
    {
        value.into_final()
    }
}

impl FromSpecImpl<CtcpMessage> for FinalParam {
    open spec fn obeys_from_spec() -> bool {
        false
    }

    open spec fn from_spec(v: CtcpMessage) -> FinalParam {
        arbitrary()
    }
}

impl From<FinalParam> for CtcpMessage {
    /// Reads the text of a message as a CTCP message (see [`parse_ctcp`])
    fn from(value: FinalParam) -> (r: CtcpMessage)
        ensures
            r@ == parse_ctcp(value@),
    {
        CtcpMessage::from_final(value)
    }
}

impl FromSpecImpl<FinalParam> for CtcpMessage {
    open spec fn obeys_from_spec() -> bool {
        false
    }

    open spec fn from_spec(v: FinalParam) -> CtcpMessage {
        arbitrary()
    }
}

} // verus!
