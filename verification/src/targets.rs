//! Targets of messages and replies: channels, users, and `*`.
use crate::names::{
    channel_check, channel_prefixed, channel_prefixed_exec, nickname_check, Channel, Nickname,
    NicknameError, ParseChannelError,
};
use crate::parameters::{lemma_middle_is_trailing, medial_check, FinalParam, MedialParam};
use crate::text::{chars_of, has_in_set, in_set, string_from, CharSet};
use crate::validstr::TryFromStringError;
use vstd::prelude::*;
use vstd::std_specs::convert::FromSpecImpl;

verus! {

/// The abstract content of a target: which kind it is and its text
pub enum TargetView {
    Channel(Seq<char>),
    User(Seq<char>),
    Star,
}

/// The target of a `MODE` message
#[derive(Clone, Debug, PartialEq, Eq)]
pub enum ModeTarget {
    Channel(Channel),
    User(Nickname),
}

impl View for ModeTarget {
    type V = TargetView;

    open spec fn view(&self) -> TargetView {
        match self {
            ModeTarget::Channel(c) => TargetView::Channel(c@),
            ModeTarget::User(n) => TargetView::User(n@),
        }
    }
}

/// Why a string is not a valid target
#[derive(Clone, Copy, Debug, PartialEq, Eq, Hash)]
pub enum ParseModeTargetError {
    Channel(ParseChannelError),
    Nickname(NicknameError),
}

/// The text of a target
pub open spec fn target_text(t: TargetView) -> Seq<char> {
    match t {
        TargetView::Channel(s) => s,
        TargetView::User(s) => s,
        TargetView::Star => seq!['*'],
    }
}

/// The mode target that `s` spells: a channel if it starts with a channel
/// prefix, else a nickname
pub open spec fn parse_mode_target(s: Seq<char>) -> Result<TargetView, ParseModeTargetError> {
    if channel_prefixed(s) {
        match channel_check(s) {
            Ok(_) => Ok(TargetView::Channel(s)),
            Err(e) => Err(ParseModeTargetError::Channel(e)),
        }
    } else {
        match nickname_check(s) {
            Ok(_) => Ok(TargetView::User(s)),
            Err(e) => Err(ParseModeTargetError::Nickname(e)),
        }
    }
}

proof fn lemma_target_medial(s: Seq<char>)
    requires
        channel_check(s) is Ok || nickname_check(s) is Ok,
    ensures
        medial_check(s) is Ok,
{
    assert forall|i: int| 0 <= i < s.len() implies !in_set(#[trigger] s[i], CharSet::NulCrLfSpace) by {
        if channel_check(s) is Ok {
            assert(!in_set(s[i], CharSet::ChannelBad));
        } else {
            assert(!in_set(s[i], CharSet::NickBad));
        }
    }
    if nickname_check(s) is Ok {
        assert(!in_set(s[0], CharSet::NickStart));
    }
}

impl ModeTarget {
    /// Parses `s` as a mode target (see [`parse_mode_target`])
    pub fn parse_str(s: &str) -> (r: Result<ModeTarget, ParseModeTargetError>)
        ensures
            match r {
                Ok(t) => parse_mode_target(s@) == Ok::<TargetView, ParseModeTargetError>(t@),
                Err(e) => parse_mode_target(s@) == Err::<TargetView, ParseModeTargetError>(e),
            },
    {
        match ModeTarget::try_from_string(string_from(s)) {
            Ok(t) => Ok(t),
            Err(e) => Err(e.inner),
        }
    }

    /// Parses `value` as a mode target, returning it back on failure
    pub fn try_from_string(value: String) -> (r: Result<ModeTarget, TryFromStringError<ParseModeTargetError>>)
        ensures
            match r {
                Ok(t) => parse_mode_target(value@) == Ok::<TargetView, ParseModeTargetError>(t@),
                Err(e) => parse_mode_target(value@) == Err::<TargetView, ParseModeTargetError>(e.inner)
                    && e.string@ == value@,
            },
    {
        if channel_prefixed_exec(value.as_str()) {
            match Channel::try_from_string(value) {
                Ok(c) => Ok(ModeTarget::Channel(c)),
                Err(TryFromStringError { inner, string }) => Err(
                    TryFromStringError { inner: ParseModeTargetError::Channel(inner), string },
                ),
            }
        } else {
            match Nickname::try_from_string(value) {
                Ok(n) => Ok(ModeTarget::User(n)),
                Err(TryFromStringError { inner, string }) => Err(
                    TryFromStringError { inner: ParseModeTargetError::Nickname(inner), string },
                ),
            }
        }
    }

    pub fn as_str(&self) -> (r: &str)
        ensures
            r@ == target_text(self@),
    {
        match self {
            ModeTarget::Channel(c) => c.as_str(),
            ModeTarget::User(n) => n.as_str(),
        }
    }

    pub fn into_inner(self) -> (r: String)
        ensures
            r@ == target_text(self@),
    {
        match self {
            ModeTarget::Channel(c) => c.into_inner(),
            ModeTarget::User(n) => n.into_inner(),
        }
    }

    /// The text form of the target
    pub fn to_string(&self) -> (r: String)
        ensures
            r@ == target_text(self@),
    {
        string_from(self.as_str())
    }

    /// Every mode target is a valid medial parameter
    pub fn into_medial(self) -> (r: MedialParam)
        ensures
            r@ == target_text(self@),
    {
        let s = match self {
            ModeTarget::Channel(c) => {
                proof {
                    use_type_invariant(&c);
                }
                c.into_inner()
            },
            ModeTarget::User(n) => {
                proof {
                    use_type_invariant(&n);
                }
                n.into_inner()
            },
        };
        proof {
            lemma_target_medial(s@);
        }
        match MedialParam::try_from_string(s) {
            Ok(p) => p,
            Err(_) => {
                assert(false);
                unreached()
            },
        }
    }

    /// Every mode target is a valid final parameter
    pub fn into_final(self) -> (r: FinalParam)
        ensures
            r@ == target_text(self@),
    {
        FinalParam::from_medial(self.into_medial())
    }
}

impl std::str::FromStr for ModeTarget {
    type Err = ParseModeTargetError;

    fn from_str(s: &str) -> Result<ModeTarget, ParseModeTargetError> {
        ModeTarget::parse_str(s)
    }
}

/// The target of a `PRIVMSG` or `NOTICE` message
#[derive(Clone, Debug, PartialEq, Eq)]
pub enum Target {
    Channel(Channel),
    User(Nickname),
    Star,
}

impl View for Target {
    type V = TargetView;

    open spec fn view(&self) -> TargetView {
        match self {
            Target::Channel(c) => TargetView::Channel(c@),
            Target::User(n) => TargetView::User(n@),
            Target::Star => TargetView::Star,
        }
    }
}

/// Why a string is not a valid message target
#[derive(Clone, Copy, Debug, PartialEq, Eq, Hash)]
pub enum ParseTargetError {
    Channel(ParseChannelError),
    Nickname(NicknameError),
}

/// The message target that `s` spells: `*`, a channel if it starts with a
/// channel prefix, else a nickname
pub open spec fn parse_target(s: Seq<char>) -> Result<TargetView, ParseTargetError> {
    if s == seq!['*'] {
        Ok(TargetView::Star)
    } else if channel_prefixed(s) {
        match channel_check(s) {
            Ok(_) => Ok(TargetView::Channel(s)),
            Err(e) => Err(ParseTargetError::Channel(e)),
        }
    } else {
        match nickname_check(s) {
            Ok(_) => Ok(TargetView::User(s)),
            Err(e) => Err(ParseTargetError::Nickname(e)),
        }
    }
}

/// Whether `s` is the single character `*`
pub fn is_star(s: &str) -> (r: bool)
    ensures
        r == (s@ == seq!['*']),
{
    let v = chars_of(s);
    let r = v.len() == 1 && v[0] == '*';
    assert(r ==> v@ =~= seq!['*']);
    r
}

impl Target {
    /// Parses `s` as a message target (see [`parse_target`])
    pub fn parse_str(s: &str) -> (r: Result<Target, ParseTargetError>)
        ensures
            match r {
                Ok(t) => parse_target(s@) == Ok::<TargetView, ParseTargetError>(t@),
                Err(e) => parse_target(s@) == Err::<TargetView, ParseTargetError>(e),
            },
    {
        match Target::try_from_string(string_from(s)) {
            Ok(t) => Ok(t),
            Err(e) => Err(e.inner),
        }
    }

    /// Parses `value` as a message target, returning it back on failure
    pub fn try_from_string(value: String) -> (r: Result<Target, TryFromStringError<ParseTargetError>>)
        ensures
            match r {
                Ok(t) => parse_target(value@) == Ok::<TargetView, ParseTargetError>(t@),
                Err(e) => parse_target(value@) == Err::<TargetView, ParseTargetError>(e.inner)
                    && e.string@ == value@,
            },
    {
        if is_star(value.as_str()) {
            Ok(Target::Star)
        } else if channel_prefixed_exec(value.as_str()) {
            match Channel::try_from_string(value) {
                Ok(c) => Ok(Target::Channel(c)),
                Err(TryFromStringError { inner, string }) => Err(
                    TryFromStringError { inner: ParseTargetError::Channel(inner), string },
                ),
            }
        } else {
            match Nickname::try_from_string(value) {
                Ok(n) => Ok(Target::User(n)),
                Err(TryFromStringError { inner, string }) => Err(
                    TryFromStringError { inner: ParseTargetError::Nickname(inner), string },
                ),
            }
        }
    }

    pub fn as_str(&self) -> (r: &str)
        ensures
            r@ == target_text(self@),
    {
        match self {
            Target::Channel(c) => c.as_str(),
            Target::User(n) => n.as_str(),
            Target::Star => {
                let s = "*";
                proof {
                    reveal_strlit("*");
                }
                s
            },
        }
    }
}

impl std::str::FromStr for Target {
    type Err = ParseTargetError;

    fn from_str(s: &str) -> Result<Target, ParseTargetError> {
        Target::parse_str(s)
    }
}

/// The client to which a reply is addressed: a nickname, or `*` before one is
/// registered
#[derive(Clone, Debug, PartialEq, Eq)]
pub enum ReplyTarget {
    Star,
    Nick(Nickname),
}

impl View for ReplyTarget {
    type V = TargetView;

    open spec fn view(&self) -> TargetView {
        match self {
            ReplyTarget::Star => TargetView::Star,
            ReplyTarget::Nick(n) => TargetView::User(n@),
        }
    }
}

/// Why a string is not a valid reply target
#[derive(Clone, Copy, Debug, PartialEq, Eq, Hash)]
pub enum ParseReplyTargetError {
    Nickname(NicknameError),
}

/// The reply target that `s` spells: `*` or a nickname
pub open spec fn parse_reply_target(s: Seq<char>) -> Result<TargetView, ParseReplyTargetError> {
    if s == seq!['*'] {
        Ok(TargetView::Star)
    } else {
        match nickname_check(s) {
            Ok(_) => Ok(TargetView::User(s)),
            Err(e) => Err(ParseReplyTargetError::Nickname(e)),
        }
    }
}

/// Targets: `*` is the star target where one is allowed; text starting with
/// `#` or `&` is a channel; anything else is a nickname
pub proof fn lemma_target_kinds(s: Seq<char>)
    ensures
        parse_target(seq!['*']) == Ok::<TargetView, ParseTargetError>(TargetView::Star),
        parse_reply_target(seq!['*']) == Ok::<TargetView, ParseReplyTargetError>(TargetView::Star),
        s.len() > 0 && (s[0] == '#' || s[0] == '&') ==> {
            &&& parse_target(s) is Ok ==> parse_target(s) == Ok::<TargetView, ParseTargetError>(TargetView::Channel(s))
            &&& parse_mode_target(s) is Ok ==> parse_mode_target(s) == Ok::<TargetView, ParseModeTargetError>(
                TargetView::Channel(s),
            )
        },
        !(s.len() > 0 && (s[0] == '#' || s[0] == '&')) && s != seq!['*'] ==> {
            &&& parse_target(s) is Ok ==> parse_target(s) == Ok::<TargetView, ParseTargetError>(TargetView::User(s))
            &&& parse_reply_target(s) is Ok ==> parse_reply_target(s) == Ok::<TargetView, ParseReplyTargetError>(
                TargetView::User(s),
            )
        },
        !(s.len() > 0 && (s[0] == '#' || s[0] == '&')) ==> (parse_mode_target(s) is Ok ==> parse_mode_target(s)
            == Ok::<TargetView, ParseModeTargetError>(TargetView::User(s))),
{
}

impl ReplyTarget {
    /// Parses `value` as a reply target, returning it back on failure
    pub fn try_from_string(value: String) -> (r: Result<ReplyTarget, TryFromStringError<ParseReplyTargetError>>)
        ensures
            match r {
                Ok(t) => parse_reply_target(value@) == Ok::<TargetView, ParseReplyTargetError>(t@),
                Err(e) => parse_reply_target(value@) == Err::<TargetView, ParseReplyTargetError>(e.inner)
                    && e.string@ == value@,
            },
    {
        if is_star(value.as_str()) {
            Ok(ReplyTarget::Star)
        } else {
            match Nickname::try_from_string(value) {
                Ok(n) => Ok(ReplyTarget::Nick(n)),
                Err(TryFromStringError { inner, string }) => Err(
                    TryFromStringError { inner: ParseReplyTargetError::Nickname(inner), string },
                ),
            }
        }
    }

    /// Parses `s` as a reply target
    pub fn parse_str(s: &str) -> (r: Result<ReplyTarget, ParseReplyTargetError>)
        ensures
            match r {
                Ok(t) => parse_reply_target(s@) == Ok::<TargetView, ParseReplyTargetError>(t@),
                Err(e) => parse_reply_target(s@) == Err::<TargetView, ParseReplyTargetError>(e),
            },
    {
        match ReplyTarget::try_from_string(string_from(s)) {
            Ok(t) => Ok(t),
            Err(e) => Err(e.inner),
        }
    }

    pub fn as_str(&self) -> (r: &str)
        ensures
            r@ == target_text(self@),
    {
        match self {
            ReplyTarget::Nick(n) => n.as_str(),
            ReplyTarget::Star => {
                let s = "*";
                proof {
                    reveal_strlit("*");
                }
                s
            },
        }
    }
}

impl std::str::FromStr for ReplyTarget {
    type Err = ParseReplyTargetError;

    fn from_str(s: &str) -> Result<ReplyTarget, ParseReplyTargetError> {
        ReplyTarget::parse_str(s)
    }
}


impl From<Channel> for Target {
    fn from(value: Channel) -> (r: Target)
        ensures
            r == Target::Channel(value),
    {
        Target::Channel(value)
    }
}

impl FromSpecImpl<Channel> for Target {
    open spec fn obeys_from_spec() -> bool {
        true
    }

    open spec fn from_spec(v: Channel) -> Target {
        Target::Channel(v)
    }
}

impl From<Nickname> for Target {
    fn from(value: Nickname) -> (r: Target)
        ensures
            r == Target::User(value),
    {
        Target::User(value)
    }
}

impl FromSpecImpl<Nickname> for Target {
    open spec fn obeys_from_spec() -> bool {
        true
    }

    open spec fn from_spec(v: Nickname) -> Target {
        Target::User(v)
    }
}

impl From<Channel> for ModeTarget {
    fn from(value: Channel) -> (r: ModeTarget)
        ensures
            r == ModeTarget::Channel(value),
    {
        ModeTarget::Channel(value)
    }
}

impl FromSpecImpl<Channel> for ModeTarget {
    open spec fn obeys_from_spec() -> bool {
        true
    }

    open spec fn from_spec(v: Channel) -> ModeTarget {
        ModeTarget::Channel(v)
    }
}

impl From<Nickname> for ModeTarget {
    fn from(value: Nickname) -> (r: ModeTarget)
        ensures
            r == ModeTarget::User(value),
    {
        ModeTarget::User(value)
    }
}

impl FromSpecImpl<Nickname> for ModeTarget {
    open spec fn obeys_from_spec() -> bool {
        true
    }

    open spec fn from_spec(v: Nickname) -> ModeTarget {
        ModeTarget::User(v)
    }
}


impl From<ModeTarget> for MedialParam {
    /// Every mode target is a valid medial parameter
    fn from(value: ModeTarget) -> (r: MedialParam)
        ensures
            r@ == target_text(value@),
    {
        value.into_medial()
    }
}

impl FromSpecImpl<ModeTarget> for MedialParam {
    open spec fn obeys_from_spec() -> bool {
        false
    }

    open spec fn from_spec(v: ModeTarget) -> MedialParam {
        arbitrary()
    }
}

impl From<ModeTarget> for FinalParam {
    /// Every mode target is a valid final parameter
    fn from(value: ModeTarget) -> (r: FinalParam)
        ensures
            r@ == target_text(value@),
    {
        value.into_final()
    }
}

impl FromSpecImpl<ModeTarget> for FinalParam {
    open spec fn obeys_from_spec() -> bool {
        false
    }

    open spec fn from_spec(v: ModeTarget) -> FinalParam {
        arbitrary()
    }
}

} // verus!
