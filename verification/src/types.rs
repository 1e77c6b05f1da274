//! Small structured values found in replies: channel statuses, `RPL_ISUPPORT`
//! tokens, `RPL_WHOREPLY` flags, `RPL_USERHOST` entries, and channel
//! membership prefixes.
use crate::names::{nickname_check, Nickname, NicknameError};
use crate::text::{chars_of, exec_find_from, find_from, in_set, lemma_find_from_bounds, string_of, CharSet};
use crate::validstr::TryFromStringError;
use vstd::prelude::*;

verus! {

/// Whether `c` is a channel membership prefix: `~`, `&`, `@`, `%`, or `+`
pub open spec fn is_membership_prefix(c: char) -> bool {
    c == '~' || c == '&' || c == '@' || c == '%' || c == '+'
}

/// Splits a leading channel membership prefix off `s`
pub open spec fn pop_membership(s: Seq<char>) -> (Option<char>, Seq<char>) {
    if s.len() > 0 && is_membership_prefix(s[0]) {
        (Some(s[0]), s.drop_first())
    } else {
        (None, s)
    }
}

/// The channel membership prefixes are `~`, `&`, `@`, `%`, and `+`: one of
/// them is split off the front of a string, and any other first character
/// stays
pub proof fn lemma_membership_prefixes(c: char, t: Seq<char>)
    ensures
        (c == '~' || c == '&' || c == '@' || c == '%' || c == '+') ==> pop_membership(seq![c] + t) == (
        Some(c), t),
        !(c == '~' || c == '&' || c == '@' || c == '%' || c == '+') ==> pop_membership(seq![c] + t) == (
        None::<char>, seq![c] + t),
        pop_membership(Seq::empty()) == (None::<char>, Seq::<char>::empty()),
{
    assert((seq![c] + t).drop_first() =~= t);
}

/// Splits a leading channel membership prefix off `s`
pub fn pop_channel_membership(s: &str) -> (r: (Option<char>, String))
    ensures
        (r.0, r.1@) == pop_membership(s@),
{
    let v = chars_of(s);
    if v.len() > 0 && (v[0] == '~' || v[0] == '&' || v[0] == '@' || v[0] == '%' || v[0] == '+') {
        let rest = string_of(&v, 1, v.len());
        assert(rest@ =~= s@.drop_first());
        (Some(v[0]), rest)
    } else {
        let rest = string_of(&v, 0, v.len());
        assert(rest@ =~= s@);
        (None, rest)
    }
}

/// The visibility of a channel in `RPL_NAMREPLY`
#[derive(Clone, Copy, Debug, PartialEq, Eq, Hash)]
pub enum ChannelStatus {
    /// `=`
    Public,
    /// `*`
    Private,
    /// `@`
    Secret,
}

/// A string that is not `=`, `*`, or `@`
#[derive(Clone, Copy, Debug, PartialEq, Eq, Hash)]
pub struct ParseChannelStatusError;

/// The channel status that `s` spells, if any
pub open spec fn parse_channel_status(s: Seq<char>) -> Option<ChannelStatus> {
    if s.len() != 1 {
        None
    } else if s[0] == '=' {
        Some(ChannelStatus::Public)
    } else if s[0] == '*' {
        Some(ChannelStatus::Private)
    } else if s[0] == '@' {
        Some(ChannelStatus::Secret)
    } else {
        None
    }
}

/// The channel statuses of `RPL_NAMREPLY` are spelled `=` (public), `*`
/// (private), and `@` (secret), and nothing else spells one
pub proof fn lemma_channel_status_chars(s: Seq<char>)
    ensures
        parse_channel_status(s) == Some(ChannelStatus::Public) <==> s == seq!['='],
        parse_channel_status(s) == Some(ChannelStatus::Private) <==> s == seq!['*'],
        parse_channel_status(s) == Some(ChannelStatus::Secret) <==> s == seq!['@'],
{
    if s.len() == 1 {
        if s[0] == '=' {
            assert(s =~= seq!['=']);
        } else if s[0] == '*' {
            assert(s =~= seq!['*']);
        } else if s[0] == '@' {
            assert(s =~= seq!['@']);
        }
    }
}

impl ChannelStatus {
    /// Parses `value` as a channel status, returning it back on failure
    pub fn try_from_string(value: String) -> (r: Result<ChannelStatus, TryFromStringError<ParseChannelStatusError>>)
        ensures
            match r {
                Ok(c) => parse_channel_status(value@) == Some(c),
                Err(e) => parse_channel_status(value@) is None && e.string@ == value@,
            },
    {
        let v = chars_of(value.as_str());
        if v.len() == 1 {
            if v[0] == '=' {
                return Ok(ChannelStatus::Public);
            } else if v[0] == '*' {
                return Ok(ChannelStatus::Private);
            } else if v[0] == '@' {
                return Ok(ChannelStatus::Secret);
            }
        }
        Err(TryFromStringError { inner: ParseChannelStatusError, string: value })
    }

    /// The character that stands for the status
    pub fn as_char(self) -> (r: char)
        ensures
            parse_channel_status(seq![r]) == Some(self),
    {
        let r = match self {
            ChannelStatus::Public => '=',
            ChannelStatus::Private => '*',
            ChannelStatus::Secret => '@',
        };
        r
    }
}

/// The abstract content of an [`ISupportParam`]
pub enum ISupportView {
    Flag(Seq<char>),
    Eq(Seq<char>, Seq<char>),
    Unset(Seq<char>),
}

/// A token of `RPL_ISUPPORT`: `KEY`, `KEY=VALUE`, or `-KEY`
#[derive(Clone, Debug, PartialEq, Eq, Hash)]
pub enum ISupportParam {
    Flag(String),
    Eq(String, String),
    Unset(String),
}

impl View for ISupportParam {
    type V = ISupportView;

    open spec fn view(&self) -> ISupportView {
        match self {
            ISupportParam::Flag(k) => ISupportView::Flag(k@),
            ISupportParam::Eq(k, v) => ISupportView::Eq(k@, v@),
            ISupportParam::Unset(k) => ISupportView::Unset(k@),
        }
    }
}

/// An `RPL_ISUPPORT` token with an empty key
#[derive(Clone, Copy, Debug, PartialEq, Eq, Hash)]
pub struct ParseISupportParamError;

/// The token that `s` spells: a leading `-` unsets the key after it; else
/// the first `=` separates a key from its value; else `s` is a key.  Keys are
/// nonempty.
pub open spec fn parse_isupport(s: Seq<char>) -> Option<ISupportView> {
    if s.len() > 0 && s[0] == '-' {
        if s.len() > 1 {
            Some(ISupportView::Unset(s.drop_first()))
        } else {
            None
        }
    } else {
        let i = find_from(s, '=', 0);
        if i == 0 {
            None
        } else if i < s.len() {
            Some(ISupportView::Eq(s.take(i), s.skip(i + 1)))
        } else {
            Some(ISupportView::Flag(s))
        }
    }
}

/// `RPL_ISUPPORT` tokens: `-KEY` unsets `KEY`, `KEY=VALUE` sets `KEY` to
/// `VALUE` (splitting at the first `=`), and `KEY` alone is a flag, for every
/// nonempty key without `=` that does not start with `-`
pub proof fn lemma_isupport_tokens(k: Seq<char>, v: Seq<char>)
    requires
        k.len() > 0,
        k[0] != '-',
        !k.contains('='),
    ensures
        parse_isupport(seq!['-'] + k) == Some(ISupportView::Unset(k)),
        parse_isupport(k + seq!['='] + v) == Some(ISupportView::Eq(k, v)),
        parse_isupport(k) == Some(ISupportView::Flag(k)),
        parse_isupport(seq!['-']) is None,
        parse_isupport(seq!['='] + v) is None,
{
    assert((seq!['-'] + k).drop_first() =~= k);
    let t = k + seq!['='] + v;
    assert(t =~= k + (seq!['='] + v));
    lemma_find_eq_prefix(k, seq!['='] + v, 0);
    assert(t.take(k.len() as int) =~= k);
    assert(t.skip(k.len() as int + 1) =~= v);
    assert(t[0] == k[0]);
    lemma_find_from_bounds(k, '=', 0);
    if find_from(k, '=', 0) < k.len() {
        assert(k[find_from(k, '=', 0)] == '=');
        assert(k.contains('='));
    }
    assert((seq!['='] + v)[0] == '=');
}

impl ISupportParam {
    /// Parses `value` as an `RPL_ISUPPORT` token, returning it back on failure
    pub fn try_from_string(value: String) -> (r: Result<ISupportParam, TryFromStringError<ParseISupportParamError>>)
        ensures
            match r {
                Ok(p) => parse_isupport(value@) == Some(p@),
                Err(e) => parse_isupport(value@) is None && e.string@ == value@,
            },
    {
        let v = chars_of(value.as_str());
        if v.len() > 0 && v[0] == '-' {
            if v.len() > 1 {
                let k = string_of(&v, 1, v.len());
                assert(k@ =~= value@.drop_first());
                return Ok(ISupportParam::Unset(k));
            } else {
                return Err(TryFromStringError { inner: ParseISupportParamError, string: value });
            }
        }
        proof {
            lemma_find_from_bounds(v@, '=', 0);
        }
        let i = exec_find_from(&v, '=', 0);
        if i == 0 {
            Err(TryFromStringError { inner: ParseISupportParamError, string: value })
        } else if i < v.len() {
            let k = string_of(&v, 0, i);
            let val = string_of(&v, i + 1, v.len());
            assert(k@ =~= value@.take(i as int));
            assert(val@ =~= value@.skip(i + 1));
            Ok(ISupportParam::Eq(k, val))
        } else {
            Ok(ISupportParam::Flag(value))
        }
    }
}

/// The abstract content of [`WhoFlags`]
pub struct WhoFlagsView {
    pub is_away: bool,
    pub is_op: bool,
    pub channel_membership: Option<char>,
    pub user_modes: Seq<char>,
}

/// The flags of an `RPL_WHOREPLY`: `H` (here) or `G` (gone), an optional `*`
/// for a server operator, an optional channel membership prefix, and any
/// further user mode characters
#[derive(Clone, Debug, PartialEq, Eq)]
pub struct WhoFlags {
    pub is_away: bool,
    pub is_op: bool,
    pub channel_membership: Option<char>,
    pub user_modes: String,
}

impl View for WhoFlags {
    type V = WhoFlagsView;

    open spec fn view(&self) -> WhoFlagsView {
        WhoFlagsView {
            is_away: self.is_away,
            is_op: self.is_op,
            channel_membership: self.channel_membership,
            user_modes: self.user_modes@,
        }
    }
}

/// Why a string is not a valid set of `RPL_WHOREPLY` flags
#[derive(Clone, Copy, Debug, PartialEq, Eq, Hash)]
pub enum ParseWhoFlagsError {
    Empty,
    BadAwayStatus,
}

/// The flags that `s` spells
pub open spec fn parse_who_flags(s: Seq<char>) -> Result<WhoFlagsView, ParseWhoFlagsError> {
    if s.len() == 0 {
        Err(ParseWhoFlagsError::Empty)
    } else if s[0] != 'H' && s[0] != 'G' {
        Err(ParseWhoFlagsError::BadAwayStatus)
    } else {
        let is_op = s.len() > 1 && s[1] == '*';
        let rest = if is_op {
            s.skip(2)
        } else {
            s.skip(1)
        };
        let (m, modes) = pop_membership(rest);
        Ok(WhoFlagsView { is_away: s[0] == 'G', is_op, channel_membership: m, user_modes: modes })
    }
}

/// `RPL_WHOREPLY` flags start with `H` (here) or `G` (gone, that is away);
/// a `*` right after marks a server operator; then may come one channel
/// membership prefix (`~`, `&`, `@`, `%`, `+`), and the rest are user modes
pub proof fn lemma_who_flags_fields(s: Seq<char>)
    ensures
        parse_who_flags(s) is Ok <==> s.len() > 0 && (s[0] == 'H' || s[0] == 'G'),
        s.len() == 0 ==> parse_who_flags(s) == Err::<WhoFlagsView, ParseWhoFlagsError>(ParseWhoFlagsError::Empty),
        s.len() > 0 && s[0] != 'H' && s[0] != 'G' ==> parse_who_flags(s) == Err::<WhoFlagsView, ParseWhoFlagsError>(
            ParseWhoFlagsError::BadAwayStatus,
        ),
        parse_who_flags(s) matches Ok(f) ==> {
            &&& f.is_away <==> s[0] == 'G'
            &&& !f.is_away <==> s[0] == 'H'
            &&& f.is_op <==> s.len() > 1 && s[1] == '*'
        },
{
}

/// The away letter and the rest of the flags are read apart: `H` + `t` and
/// `G` + `t` give the same flags but for `is_away`, which is false for `H`
/// and true for `G`
pub proof fn lemma_who_flags_here_gone(t: Seq<char>)
    ensures
        parse_who_flags(seq!['H'] + t) matches Ok(h) && !h.is_away,
        parse_who_flags(seq!['G'] + t) matches Ok(g) && g.is_away,
        parse_who_flags(seq!['H'] + t) matches Ok(h) && parse_who_flags(seq!['G'] + t) matches Ok(g) && h.is_op
            == g.is_op && h.channel_membership == g.channel_membership && h.user_modes == g.user_modes,
        parse_who_flags(seq!['H', '*'] + t) matches Ok(h) && h.is_op,
        parse_who_flags(seq!['H', '*', '@'] + t) matches Ok(h) && h.is_op && h.channel_membership == Some('@')
            && h.user_modes == t,
        t.len() == 0 || t[0] != '*' ==> (parse_who_flags(seq!['H'] + t) matches Ok(h) && !h.is_op),
{
    let h = seq!['H'] + t;
    let g = seq!['G'] + t;
    assert(h.skip(1) =~= t);
    assert(g.skip(1) =~= t);
    if t.len() > 0 {
        assert(h.skip(2) =~= t.skip(1));
        assert(g.skip(2) =~= t.skip(1));
    }
    assert((seq!['H', '*'] + t)[1] == '*');
    let ho = seq!['H', '*', '@'] + t;
    assert(ho[1] == '*');
    assert(ho.skip(2) =~= seq!['@'] + t);
    assert((seq!['@'] + t).drop_first() =~= t);
}

impl WhoFlags {
    /// Parses `value` as `RPL_WHOREPLY` flags, returning it back on failure
    pub fn try_from_string(value: String) -> (r: Result<WhoFlags, TryFromStringError<ParseWhoFlagsError>>)
        ensures
            match r {
                Ok(f) => parse_who_flags(value@) == Ok::<WhoFlagsView, ParseWhoFlagsError>(f@),
                Err(e) => parse_who_flags(value@) == Err::<WhoFlagsView, ParseWhoFlagsError>(e.inner)
                    && e.string@ == value@,
            },
    {
        let v = chars_of(value.as_str());
        if v.len() == 0 {
            return Err(TryFromStringError { inner: ParseWhoFlagsError::Empty, string: value });
        }
        if v[0] != 'H' && v[0] != 'G' {
            return Err(TryFromStringError { inner: ParseWhoFlagsError::BadAwayStatus, string: value });
        }
        let is_op = v.len() > 1 && v[1] == '*';
        let start: usize = if is_op { 2 } else { 1 };
        let rest = string_of(&v, start, v.len());
        assert(rest@ =~= value@.skip(start as int));
        let (m, modes) = pop_channel_membership(rest.as_str());
        Ok(WhoFlags { is_away: v[0] == 'G', is_op, channel_membership: m, user_modes: modes })
    }
}

/// The abstract content of a [`UserHostReply`]
pub struct UserHostView {
    pub nickname: Seq<char>,
    pub is_op: bool,
    pub is_away: bool,
    pub hostname: Seq<char>,
}

/// An entry of `RPL_USERHOST`: `nickname[*]=<+|->hostname`
#[derive(Clone, Debug, PartialEq, Eq)]
pub struct UserHostReply {
    pub nickname: Nickname,
    pub is_op: bool,
    pub is_away: bool,
    pub hostname: String,
}

impl View for UserHostReply {
    type V = UserHostView;

    open spec fn view(&self) -> UserHostView {
        UserHostView {
            nickname: self.nickname@,
            is_op: self.is_op,
            is_away: self.is_away,
            hostname: self.hostname@,
        }
    }
}

/// Why a string is not a valid `RPL_USERHOST` entry
#[derive(Clone, Copy, Debug, PartialEq, Eq, Hash)]
pub enum ParseUserHostReplyError {
    NoEquals,
    Nickname(NicknameError),
    BadAwayStatus,
}

/// The entry that `s` spells
pub open spec fn parse_userhost(s: Seq<char>) -> Result<UserHostView, ParseUserHostReplyError> {
    let i = find_from(s, '=', 0);
    if i >= s.len() {
        Err(ParseUserHostReplyError::NoEquals)
    } else {
        let left = s.take(i);
        let right = s.skip(i + 1);
        let is_op = left.len() > 0 && left.last() == '*';
        let nick = if is_op {
            left.drop_last()
        } else {
            left
        };
        match nickname_check(nick) {
            Err(e) => Err(ParseUserHostReplyError::Nickname(e)),
            Ok(_) => if right.len() > 0 && (right[0] == '+' || right[0] == '-') {
                Ok(
                    UserHostView {
                        nickname: nick,
                        is_op,
                        is_away: right[0] == '-',
                        hostname: right.drop_first(),
                    },
                )
            } else {
                Err(ParseUserHostReplyError::BadAwayStatus)
            },
        }
    }
}

/// An `RPL_USERHOST` entry is `nickname[*]=<+|->hostname`: a `*` before the
/// first `=` marks an operator, `+` after it means here and `-` away, and
/// the rest is the hostname
pub proof fn lemma_userhost_fields(s: Seq<char>)
    ensures
        parse_userhost(s) matches Ok(u) ==> {
            let i = find_from(s, '=', 0);
            &&& 0 <= i < s.len()
            &&& s[i] == '='
            &&& i + 1 < s.len()
            &&& s[i + 1] == '+' || s[i + 1] == '-'
            &&& u.is_away <==> s[i + 1] == '-'
            &&& !u.is_away <==> s[i + 1] == '+'
            &&& u.is_op <==> i > 0 && s[i - 1] == '*'
            &&& u.hostname == s.skip(i + 2)
            &&& u.nickname == (if u.is_op { s.take(i - 1) } else { s.take(i) })
        },
{
    lemma_find_from_bounds(s, '=', 0);
    let i = find_from(s, '=', 0);
    if let Ok(u) = parse_userhost(s) {
        assert(s.skip(i + 1).drop_first() =~= s.skip(i + 2));
        assert(s.take(i).drop_last() =~= s.take(i - 1));
    }
}

/// Writing an entry and reading it back: for a valid nickname `n` without
/// `=`, `n=+h` is here, `n=-h` is away, and `n*=+h`, `n*=-h` are the same
/// for an operator, each with nickname `n` and hostname `h`
pub proof fn lemma_userhost_entries(n: Seq<char>, h: Seq<char>)
    requires
        nickname_check(n) is Ok,
        !n.contains('='),
    ensures
        parse_userhost(n + seq!['=', '+'] + h) == Ok::<UserHostView, ParseUserHostReplyError>(
            UserHostView { nickname: n, is_op: false, is_away: false, hostname: h },
        ),
        parse_userhost(n + seq!['=', '-'] + h) == Ok::<UserHostView, ParseUserHostReplyError>(
            UserHostView { nickname: n, is_op: false, is_away: true, hostname: h },
        ),
        parse_userhost(n + seq!['*', '=', '+'] + h) == Ok::<UserHostView, ParseUserHostReplyError>(
            UserHostView { nickname: n, is_op: true, is_away: false, hostname: h },
        ),
        parse_userhost(n + seq!['*', '=', '-'] + h) == Ok::<UserHostView, ParseUserHostReplyError>(
            UserHostView { nickname: n, is_op: true, is_away: true, hostname: h },
        ),
{
    assert(n.len() == 0 || n.last() != '*') by {
        if n.len() > 0 && n.last() == '*' {
            assert(in_set(n[n.len() - 1], CharSet::NickBad));
        }
    }
    assert((seq!['=', '+'] + h).skip(2) =~= h);
    assert((seq!['=', '-'] + h).skip(2) =~= h);
    lemma_userhost_entry(n, seq!['=', '+'] + h, h);
    lemma_userhost_entry(n, seq!['=', '-'] + h, h);
    assert(!(n + seq!['*']).contains('=')) by {
        if (n + seq!['*']).contains('=') {
            let k = choose|k: int| 0 <= k < (n + seq!['*']).len() && (n + seq!['*'])[k] == '=';
            assert(k < n.len());
            assert(n[k] == '=');
        }
    }
    lemma_userhost_entry(n + seq!['*'], seq!['=', '+'] + h, h);
    lemma_userhost_entry(n + seq!['*'], seq!['=', '-'] + h, h);
    assert(n + seq!['=', '+'] + h =~= n + (seq!['=', '+'] + h));
    assert(n + seq!['=', '-'] + h =~= n + (seq!['=', '-'] + h));
    assert(n + seq!['*', '=', '+'] + h =~= (n + seq!['*']) + (seq!['=', '+'] + h));
    assert(n + seq!['*', '=', '-'] + h =~= (n + seq!['*']) + (seq!['=', '-'] + h));
    assert((n + seq!['*']).drop_last() =~= n);
}

/// The first `=` of `left + right`, where `left` has none and `right` starts
/// with one, splits it there
proof fn lemma_userhost_entry(left: Seq<char>, right: Seq<char>, h: Seq<char>)
    requires
        !left.contains('='),
        right.len() >= 2,
        right[0] == '=',
        right.skip(2) == h,
    ensures
        find_from(left + right, '=', 0) == left.len(),
        (left + right).take(left.len() as int) == left,
        (left + right).skip(left.len() as int + 1) == right.drop_first(),
        right.drop_first().drop_first() == h,
{
    lemma_find_eq_prefix(left, right, 0);
    assert((left + right).take(left.len() as int) =~= left);
    assert((left + right).skip(left.len() as int + 1) =~= right.drop_first());
    assert(right.drop_first().drop_first() =~= right.skip(2));
}

proof fn lemma_find_eq_prefix(a: Seq<char>, t: Seq<char>, i: int)
    requires
        !a.contains('='),
        t.len() > 0,
        t[0] == '=',
        0 <= i <= a.len(),
    ensures
        find_from(a + t, '=', i) == a.len(),
    decreases a.len() - i,
{
    if i < a.len() {
        assert((a + t)[i] == a[i]);
        assert(a[i] != '=');
        lemma_find_eq_prefix(a, t, i + 1);
    } else {
        assert((a + t)[i] == '=');
    }
}

impl UserHostReply {
    /// Parses `value` as an `RPL_USERHOST` entry, returning it back on failure
    pub fn try_from_string(value: String) -> (r: Result<UserHostReply, TryFromStringError<ParseUserHostReplyError>>)
        ensures
            match r {
                Ok(u) => parse_userhost(value@) == Ok::<UserHostView, ParseUserHostReplyError>(u@),
                Err(e) => parse_userhost(value@) == Err::<UserHostView, ParseUserHostReplyError>(e.inner)
                    && e.string@ == value@,
            },
    {
        let v = chars_of(value.as_str());
        proof {
            lemma_find_from_bounds(v@, '=', 0);
        }
        let i = exec_find_from(&v, '=', 0);
        if i >= v.len() {
            return Err(TryFromStringError { inner: ParseUserHostReplyError::NoEquals, string: value });
        }
        let is_op = i > 0 && v[i - 1] == '*';
        let nick_end: usize = if is_op { i - 1 } else { i };
        let nick = string_of(&v, 0, nick_end);
        assert(is_op ==> nick@ =~= value@.take(i as int).drop_last());
        assert(!is_op ==> nick@ =~= value@.take(i as int));
        let nickname = match Nickname::try_from_string(nick) {
            Ok(n) => n,
            Err(e) => {
                return Err(TryFromStringError { inner: ParseUserHostReplyError::Nickname(e.inner), string: value });
            },
        };
        if i + 1 < v.len() && (v[i + 1] == '+' || v[i + 1] == '-') {
            let hostname = string_of(&v, i + 2, v.len());
            assert(hostname@ =~= value@.skip(i + 1).drop_first());
            Ok(UserHostReply { nickname, is_op, is_away: v[i + 1] == '-', hostname })
        } else {
            Err(TryFromStringError { inner: ParseUserHostReplyError::BadAwayStatus, string: value })
        }
    }
}

} // verus!
