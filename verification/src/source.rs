//! The source prefix of a message: a server or a client.
use crate::host::{display_host, parse_host, url_host_display, url_host_parse, Host, HostError, HostView};
use crate::names::{
    nickname_check, username_check, Nickname, NicknameError, ParseUsernameError, Username,
};
use crate::text::{
    has_in_set, in_set, CharSet, chars_of, exec_rfind_before, lemma_rfind_bounds, push_char, push_str, rfind_before,
    split_last, string_of, vec_contains,
};
use crate::validstr::TryFromStringError;
use vstd::prelude::*;
use vstd::std_specs::convert::FromSpecImpl;

verus! {

/// The abstract content of a [`ClientSource`]
pub struct ClientSourceView {
    pub nickname: Seq<char>,
    pub user: Option<Seq<char>>,
    pub host: Option<Seq<char>>,
}

/// The abstract content of a [`Source`]
pub enum SourceView {
    Server(HostView),
    Client(ClientSourceView),
}

/// A client source: a nickname with an optional user and an optional host
#[derive(Clone, Debug, PartialEq, Eq)]
pub struct ClientSource {
    pub nickname: Nickname,
    pub user: Option<Username>,
    pub host: Option<String>,
}

/// The source of a message
#[derive(Clone, Debug, PartialEq, Eq)]
pub enum Source {
    Server(Host),
    Client(ClientSource),
}

impl View for ClientSource {
    type V = ClientSourceView;

    open spec fn view(&self) -> ClientSourceView {
        ClientSourceView {
            nickname: self.nickname@,
            user: match self.user {
                Some(u) => Some(u@),
                None => None,
            },
            host: match self.host {
                Some(h) => Some(h@),
                None => None,
            },
        }
    }
}

impl View for Source {
    type V = SourceView;

    open spec fn view(&self) -> SourceView {
        match self {
            Source::Server(h) => SourceView::Server(h@),
            Source::Client(c) => SourceView::Client(c@),
        }
    }
}

/// Why a string is not a valid client source
#[derive(Clone, Copy, Debug, PartialEq, Eq, Hash)]
pub enum ParseClientSourceError {
    Nickname(NicknameError),
    Username(ParseUsernameError),
}

/// Why a string is not a valid source
#[derive(Clone, Copy, Debug, PartialEq, Eq, Hash)]
pub enum ParseSourceError {
    Host(HostError),
    Client(ParseClientSourceError),
}

/// The client source that `s` spells: the host follows the last `@`, the user
/// follows the last `!` before that, and the nickname is the rest
pub open spec fn parse_client_source(s: Seq<char>) -> Result<ClientSourceView, ParseClientSourceError> {
    let (s1, host) = split_last(s, '@');
    let (nick, user) = split_last(s1, '!');
    match nickname_check(nick) {
        Err(e) => Err(ParseClientSourceError::Nickname(e)),
        Ok(_) => match user {
            Some(u) => match username_check(u) {
                Err(e) => Err(ParseClientSourceError::Username(e)),
                Ok(_) => Ok(ClientSourceView { nickname: nick, user: Some(u), host }),
            },
            None => Ok(ClientSourceView { nickname: nick, user: None, host }),
        },
    }
}

/// Whether `s` names a server: it holds a dot and neither `!` nor `@`
pub open spec fn names_server(s: Seq<char>) -> bool {
    !s.contains('!') && !s.contains('@') && s.contains('.')
}

/// The source that `s` spells
pub open spec fn parse_source(s: Seq<char>) -> Result<SourceView, ParseSourceError> {
    if names_server(s) {
        match url_host_parse(s) {
            Ok(h) => Ok(SourceView::Server(h)),
            Err(e) => Err(ParseSourceError::Host(e)),
        }
    } else {
        match parse_client_source(s) {
            Ok(c) => Ok(SourceView::Client(c)),
            Err(e) => Err(ParseSourceError::Client(e)),
        }
    }
}

/// The text form of a client source: `nick[!user][@host]`
pub open spec fn render_client_source(c: ClientSourceView) -> Seq<char> {
    c.nickname + match c.user {
        Some(u) => seq!['!'] + u,
        None => Seq::empty(),
    } + match c.host {
        Some(h) => seq!['@'] + h,
        None => Seq::empty(),
    }
}

/// The text form of a source
pub open spec fn render_source(s: SourceView) -> Seq<char> {
    match s {
        SourceView::Server(h) => url_host_display(h),
        SourceView::Client(c) => render_client_source(c),
    }
}

/// Splits `v` at its last `c` before `end`, as [`split_last`] does for `v[..end]`
pub(crate) fn exec_split_last(v: &Vec<char>, c: char, end: usize) -> (r: (usize, Option<usize>))
    requires
        end <= v@.len(),
    ensures
        r.0 <= end,
        split_last(v@.take(end as int), c).0 == v@.take(r.0 as int),
        r.1 is None <==> split_last(v@.take(end as int), c).1 is None,
        r.1 matches Some(k) ==> k == r.0 + 1 && k <= end && split_last(v@.take(end as int), c).1
            == Some(v@.subrange(k as int, end as int)),
{
    let ghost t = v@.take(end as int);
    proof {
        lemma_rfind_take(v@, c, end as int, end as int);
        lemma_rfind_bounds(v@, c, end as int);
    }
    match exec_rfind_before(v, c, end) {
        Some(k) => {
            assert(t.take(k as int) =~= v@.take(k as int));
            assert(t.skip(k + 1) =~= v@.subrange(k + 1, end as int));
            (k, Some(k + 1))
        },
        None => {
            assert(t =~= v@.take(end as int));
            (end, None)
        },
    }
}

/// Searching a prefix for `c` gives what searching the whole does, up to the
/// same point.
pub proof fn lemma_rfind_take(s: Seq<char>, c: char, n: int, i: int)
    requires
        0 <= i <= n <= s.len(),
    ensures
        rfind_before(s.take(n), c, i) == rfind_before(s, c, i),
    decreases i,
{
    if i > 0 {
        lemma_rfind_take(s, c, n, i - 1);
    }
}

impl ClientSource {
    /// Parses `s` as a client source (see [`parse_client_source`])
    pub fn parse_str(s: &str) -> (r: Result<ClientSource, ParseClientSourceError>)
        ensures
            match r {
                Ok(c) => parse_client_source(s@) == Ok::<ClientSourceView, ParseClientSourceError>(c@),
                Err(e) => parse_client_source(s@) == Err::<ClientSourceView, ParseClientSourceError>(e),
            },
    {
        let v = chars_of(s);
        assert(v@.take(v@.len() as int) =~= v@);
        let (e1, host_start) = exec_split_last(&v, '@', v.len());
        let host = match host_start {
            Some(k) => Some(string_of(&v, k, v.len())),
            None => None,
        };
        let (e2, user_start) = exec_split_last(&v, '!', e1);
        let nick = string_of(&v, 0, e2);
        assert(nick@ =~= v@.take(e2 as int));
        let nickname = match Nickname::try_from_string(nick) {
            Ok(n) => n,
            Err(e) => {
                return Err(ParseClientSourceError::Nickname(e.inner));
            },
        };
        let user = match user_start {
            Some(k) => {
                let u = string_of(&v, k, e1);
                assert(u@ == v@.take(e1 as int).skip(k as int));
                match Username::try_from_string(u) {
                    Ok(u) => Some(u),
                    Err(e) => {
                        return Err(ParseClientSourceError::Username(e.inner));
                    },
                }
            },
            None => None,
        };
        let r = ClientSource { nickname, user, host };
        assert(v@.take(e1 as int).take(e2 as int) =~= v@.take(e2 as int));
        Ok(r)
    }

    /// Parses `string` as a client source, returning it back on failure
    pub fn try_from_string(string: String) -> (r: Result<ClientSource, TryFromStringError<ParseClientSourceError>>)
        ensures
            match r {
                Ok(c) => parse_client_source(string@) == Ok::<ClientSourceView, ParseClientSourceError>(c@),
                Err(e) => parse_client_source(string@) == Err::<ClientSourceView, ParseClientSourceError>(e.inner)
                    && e.string@ == string@,
            },
    {
        match ClientSource::parse_str(string.as_str()) {
            Ok(c) => Ok(c),
            Err(inner) => Err(TryFromStringError { inner, string }),
        }
    }

    /// The text form of the source (see [`render_client_source`])
    pub fn to_string(&self) -> (r: String)
        ensures
            r@ == render_client_source(self@),
    {
        let mut s = String::new();
        push_str(&mut s, self.nickname.as_str());
        match &self.user {
            Some(u) => {
                push_char(&mut s, '!');
                push_str(&mut s, u.as_str());
            },
            None => {},
        }
        match &self.host {
            Some(h) => {
                push_char(&mut s, '@');
                push_str(&mut s, h.as_str());
            },
            None => {},
        }
        assert(s@ =~= render_client_source(self@));
        s
    }
}

impl Source {
    pub fn is_server(&self) -> (r: bool)
        ensures
            r == self is Server,
    {
        match self {
            Source::Server(_) => true,
            Source::Client(_) => false,
        }
    }

    pub fn is_client(&self) -> (r: bool)
        ensures
            r == self is Client,
    {
        match self {
            Source::Server(_) => false,
            Source::Client(_) => true,
        }
    }

    /// Parses `s` as a source (see [`parse_source`])
    pub fn parse_str(s: &str) -> (r: Result<Source, ParseSourceError>)
        ensures
            match r {
                Ok(c) => parse_source(s@) == Ok::<SourceView, ParseSourceError>(c@),
                Err(e) => parse_source(s@) == Err::<SourceView, ParseSourceError>(e),
            },
    {
        let v = chars_of(s);
        if !vec_contains(&v, '!') && !vec_contains(&v, '@') && vec_contains(&v, '.') {
            match parse_host(s) {
                Ok(h) => Ok(Source::Server(h)),
                Err(e) => Err(ParseSourceError::Host(e)),
            }
        } else {
            match ClientSource::parse_str(s) {
                Ok(c) => Ok(Source::Client(c)),
                Err(e) => Err(ParseSourceError::Client(e)),
            }
        }
    }

    /// Parses `string` as a source, returning it back on failure
    pub fn try_from_string(string: String) -> (r: Result<Source, TryFromStringError<ParseSourceError>>)
        ensures
            match r {
                Ok(c) => parse_source(string@) == Ok::<SourceView, ParseSourceError>(c@),
                Err(e) => parse_source(string@) == Err::<SourceView, ParseSourceError>(e.inner)
                    && e.string@ == string@,
            },
    {
        match Source::parse_str(string.as_str()) {
            Ok(c) => Ok(c),
            Err(inner) => Err(TryFromStringError { inner, string }),
        }
    }

    /// The text form of the source (see [`render_source`])
    pub fn to_string(&self) -> (r: String)
        ensures
            r@ == render_source(self@),
    {
        match self {
            Source::Server(h) => display_host(h),
            Source::Client(c) => c.to_string(),
        }
    }
}

impl std::str::FromStr for Source {
    type Err = ParseSourceError;

    fn from_str(s: &str) -> Result<Source, ParseSourceError> {
        Source::parse_str(s)
    }
}

impl std::str::FromStr for ClientSource {
    type Err = ParseClientSourceError;

    fn from_str(s: &str) -> Result<ClientSource, ParseClientSourceError> {
        ClientSource::parse_str(s)
    }
}


/// Text without a character of a set holds none of its characters
pub proof fn lemma_not_in_set(s: Seq<char>, cs: CharSet, c: char)
    requires
        !has_in_set(s, cs),
        in_set(c, cs),
    ensures
        !s.contains(c),
{
    if s.contains(c) {
        let i = choose|i: int| 0 <= i < s.len() && s[i] == c;
        assert(in_set(s[i], cs));
    }
}

/// Two texts without `c` joined hold no `c`
pub proof fn lemma_concat_without(x: Seq<char>, y: Seq<char>, c: char)
    requires
        !x.contains(c),
        !y.contains(c),
    ensures
        !(x + y).contains(c),
{
    if (x + y).contains(c) {
        let i = choose|i: int| 0 <= i < (x + y).len() && (x + y)[i] == c;
        if i < x.len() {
            assert(x[i] == c);
        } else {
            assert(y[i - x.len()] == c);
        }
    }
}

/// Text with `c` right after `a` and no `c` in `b` splits at that `c`
proof fn lemma_split_last_at(a: Seq<char>, c: char, b: Seq<char>)
    requires
        !b.contains(c),
    ensures
        split_last(a + seq![c] + b, c) == (a, Some(b)),
{
    let s = a + seq![c] + b;
    let k = a.len() as int;
    assert(s[k] == c);
    lemma_rfind_bounds(s, c, s.len() as int);
    match rfind_before(s, c, s.len() as int) {
        Some(k2) => {
            if k2 > k {
                assert(b[k2 - k - 1] == c);
            }
            assert(k2 == k);
        },
        None => {
            assert(false);
        },
    }
    assert(s.take(k) =~= a);
    assert(s.skip(k + 1) =~= b);
}

/// Text without `c` does not split at `c`
proof fn lemma_split_last_none(s: Seq<char>, c: char)
    requires
        !s.contains(c),
    ensures
        split_last(s, c) == (s, None::<Seq<char>>),
{
    lemma_rfind_bounds(s, c, s.len() as int);
    if let Some(k) = rfind_before(s, c, s.len() as int) {
        assert(s[k] == c);
    }
}

/// A client source whose text form reads back as itself: a valid nickname, a
/// valid username without `!`, and a host without `@`
pub open spec fn client_source_round_trips(c: ClientSourceView) -> bool {
    &&& nickname_check(c.nickname) is Ok
    &&& (c.user matches Some(u) ==> username_check(u) is Ok && !u.contains('!'))
    &&& (c.host matches Some(h) ==> !h.contains('@'))
}

/// Writing a client source and parsing the text gives the same source, when
/// its nickname and username are valid, its username has no `!`, and its host
/// has no `@`
pub proof fn lemma_client_source_roundtrip(c: ClientSourceView)
    requires
        client_source_round_trips(c),
    ensures
        parse_client_source(render_client_source(c)) == Ok::<ClientSourceView, ParseClientSourceError>(c),
{
    let n = c.nickname;
    lemma_not_in_set(n, CharSet::NickBad, '!');
    lemma_not_in_set(n, CharSet::NickBad, '@');
    let up = match c.user {
        Some(u) => seq!['!'] + u,
        None => Seq::<char>::empty(),
    };
    let hp = match c.host {
        Some(h) => seq!['@'] + h,
        None => Seq::<char>::empty(),
    };
    let a = n + up;
    assert(render_client_source(c) == a + hp);
    assert(!up.contains('@')) by {
        if let Some(u) = c.user {
            lemma_not_in_set(u, CharSet::UserBad, '@');
            lemma_concat_without(seq!['!'], u, '@');
        }
    }
    lemma_concat_without(n, up, '@');
    match c.host {
        Some(h) => {
            assert(a + hp =~= a + seq!['@'] + h);
            lemma_split_last_at(a, '@', h);
        },
        None => {
            assert(a + hp =~= a);
            lemma_split_last_none(a, '@');
        },
    }
    match c.user {
        Some(u) => {
            assert(a =~= n + seq!['!'] + u);
            lemma_split_last_at(n, '!', u);
        },
        None => {
            assert(a =~= n);
            lemma_split_last_none(n, '!');
        },
    }
}

/// A client source is written `nick!user@host`: the text after the last `@`
/// is the host, the text after the last `!` before it is the user, and the
/// rest is the nickname (for a valid nickname `n`, a valid username `u`
/// without `!`, and a host `h` without `@`), and any of the two parts may be
/// left out
pub proof fn lemma_client_source_parts(n: Seq<char>, u: Seq<char>, h: Seq<char>)
    requires
        nickname_check(n) is Ok,
        username_check(u) is Ok,
        !u.contains('!'),
        !h.contains('@'),
    ensures
        parse_client_source(n + seq!['!'] + u + seq!['@'] + h) == Ok::<ClientSourceView, ParseClientSourceError>(
            ClientSourceView { nickname: n, user: Some(u), host: Some(h) },
        ),
        parse_client_source(n + seq!['!'] + u) == Ok::<ClientSourceView, ParseClientSourceError>(
            ClientSourceView { nickname: n, user: Some(u), host: None },
        ),
        parse_client_source(n + seq!['@'] + h) == Ok::<ClientSourceView, ParseClientSourceError>(
            ClientSourceView { nickname: n, user: None, host: Some(h) },
        ),
        parse_client_source(n) == Ok::<ClientSourceView, ParseClientSourceError>(
            ClientSourceView { nickname: n, user: None, host: None },
        ),
{
    let full = ClientSourceView { nickname: n, user: Some(u), host: Some(h) };
    let user_only = ClientSourceView { nickname: n, user: Some(u), host: None };
    let host_only = ClientSourceView { nickname: n, user: None, host: Some(h) };
    let bare = ClientSourceView { nickname: n, user: None, host: None };
    lemma_client_source_roundtrip(full);
    lemma_client_source_roundtrip(user_only);
    lemma_client_source_roundtrip(host_only);
    lemma_client_source_roundtrip(bare);
    assert(render_client_source(full) =~= n + seq!['!'] + u + seq!['@'] + h);
    assert(render_client_source(user_only) =~= n + seq!['!'] + u);
    assert(render_client_source(host_only) =~= n + seq!['@'] + h);
    assert(render_client_source(bare) =~= n);
}

/// A client source that reads back as a source: it round-trips, and a
/// nickname alone holds no `.` (else it names a server)
pub open spec fn client_source_text_round_trips(c: ClientSourceView) -> bool {
    &&& client_source_round_trips(c)
    &&& (c.user is None && c.host is None ==> !c.nickname.contains('.'))
}

/// Writing a client source and parsing the text as a source gives the same
/// client source, when it round-trips as a client source and a nickname
/// alone holds no `.`
pub proof fn lemma_source_roundtrip(c: ClientSourceView)
    requires
        client_source_text_round_trips(c),
    ensures
        parse_source(render_client_source(c)) == Ok::<SourceView, ParseSourceError>(SourceView::Client(c)),
{
    let s = render_client_source(c);
    let n = c.nickname;
    lemma_client_source_roundtrip(c);
    match c.user {
        Some(u) => {
            assert(s[n.len() as int] == '!');
            assert(s.contains('!'));
        },
        None => {
            match c.host {
                Some(h) => {
                    assert(s[n.len() as int] == '@');
                    assert(s.contains('@'));
                },
                None => {
                    assert(s =~= n);
                },
            }
        },
    }
    assert(!names_server(s));
}


impl From<Host> for Source {
    fn from(value: Host) -> (r: Source)
        ensures
            r == Source::Server(value),
    {
        Source::Server(value)
    }
}

impl FromSpecImpl<Host> for Source {
    open spec fn obeys_from_spec() -> bool {
        true
    }

    open spec fn from_spec(v: Host) -> Source {
        Source::Server(v)
    }
}

impl From<ClientSource> for Source {
    fn from(value: ClientSource) -> (r: Source)
        ensures
            r == Source::Client(value),
    {
        Source::Client(value)
    }
}

impl FromSpecImpl<ClientSource> for Source {
    open spec fn obeys_from_spec() -> bool {
        true
    }

    open spec fn from_spec(v: ClientSource) -> Source {
        Source::Client(v)
    }
}

} // verus!
