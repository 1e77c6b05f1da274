//! Validated names used in IRC messages: nicknames, channels, usernames,
//! channel keys, mode strings, and verbs.
use crate::parameters::{
    final_check, lemma_middle_is_trailing, medial_check, FinalParam, MedialParam,
};
use crate::text::{
    chars_of, has_in_set, in_set, is_ascii_alpha, seq_has_in_set, str_has_in_set, string_from,
    CharSet,
};
use crate::validstr::TryFromStringError;
use vstd::prelude::*;
use vstd::std_specs::convert::FromSpecImpl;

verus! {

/// Why a string is not a valid nickname
#[derive(Clone, Copy, Debug, PartialEq, Eq, Hash)]
pub enum NicknameError {
    Empty,
    BadStart,
    BadCharacter,
}

/// Why a string is not a valid channel name
#[derive(Clone, Copy, Debug, PartialEq, Eq, Hash)]
pub enum ParseChannelError {
    BadStart,
    BadCharacter,
}

/// Why a string is not a valid username
#[derive(Clone, Copy, Debug, PartialEq, Eq, Hash)]
pub enum ParseUsernameError {
    Empty,
    BadCharacter,
}

/// A string that contains NUL, CR, LF, or comma
#[derive(Clone, Copy, Debug, PartialEq, Eq, Hash)]
pub struct KeyError;

/// Why a string is not a valid mode string
#[derive(Clone, Copy, Debug, PartialEq, Eq, Hash)]
pub enum ParseModestringError {
    BadStart,
    BadCharacter,
}

/// Whether `s` starts with one of the channel type prefixes `#` and `&`
pub open spec fn channel_prefixed(s: Seq<char>) -> bool {
    s.len() > 0 && (s[0] == '#' || s[0] == '&')
}

/// Whether `s` starts with one of the channel type prefixes `#` and `&`
pub fn channel_prefixed_exec(s: &str) -> (r: bool)
    ensures
        r == channel_prefixed(s@),
{
    let v = chars_of(s);
    v.len() > 0 && (v[0] == '#' || v[0] == '&')
}

/// A nickname: nonempty, not starting with `$`, `:`, `#`, `&`, `~`, `@`, `%`, or `+`, and without NUL, CR, LF, space, comma, `*`, `?`, `!`, or `@`
#[derive(Debug, PartialEq, Eq, Hash)]
pub struct Nickname(String);

impl View for Nickname {
    type V = Seq<char>;

    closed spec fn view(&self) -> Seq<char> {
        self.0@
    }
}

/// How `s` fares as a [`Nickname`]
pub open spec fn nickname_check(s: Seq<char>) -> Result<(), NicknameError> {
    if s.len() == 0 {
        Err(NicknameError::Empty)
    } else if in_set(s[0], CharSet::NickStart) {
        Err(NicknameError::BadStart)
    } else if has_in_set(s, CharSet::NickBad) {
        Err(NicknameError::BadCharacter)
    } else {
        Ok(())
    }
}

/// A nickname is nonempty, does not start with `$`, `:`, `#`, `&`, `~`, `@`,
/// `%`, or `+`, and holds none of NUL, CR, LF, space, comma, `*`, `?`, `!`,
/// and `@`; each error names the first of these rules that fails
pub proof fn lemma_nickname_chars(s: Seq<char>)
    ensures
        nickname_check(s) is Ok <==> {
            &&& s.len() > 0
            &&& !(s[0] == '$' || s[0] == ':' || s[0] == '#' || s[0] == '&'
                || s[0] == '~' || s[0] == '@' || s[0] == '%' || s[0] == '+')
            &&& forall|i: int| 0 <= i < s.len() ==> !(s[i] == '\0' || s[i] == '\r' || s[i] == '\n' || s[i] == ' '
                || s[i] == ',' || s[i] == '*' || s[i] == '?' || s[i] == '!'
                || s[i] == '@')
        },
        s.len() == 0 ==> nickname_check(s) == Err::<(), NicknameError>(NicknameError::Empty),
        s.len() > 0 && (s[0] == '$' || s[0] == ':' || s[0] == '#' || s[0] == '&'
            || s[0] == '~' || s[0] == '@' || s[0] == '%' || s[0] == '+') ==> nickname_check(s) == Err::<(), NicknameError>(
            NicknameError::BadStart,
        ),
        ({
            &&& s.len() > 0
            &&& !(s[0] == '$' || s[0] == ':' || s[0] == '#' || s[0] == '&'
                || s[0] == '~' || s[0] == '@' || s[0] == '%' || s[0] == '+')
            &&& exists|i: int| 0 <= i < s.len() && (s[i] == '\0' || s[i] == '\r' || s[i] == '\n' || s[i] == ' '
                || s[i] == ',' || s[i] == '*' || s[i] == '?' || s[i] == '!'
                || s[i] == '@')
        }) ==> nickname_check(s) == Err::<(), NicknameError>(NicknameError::BadCharacter),
{
    if has_in_set(s, CharSet::NickBad) {
        let i = choose|i: int| 0 <= i < s.len() && #[trigger] in_set(s[i], CharSet::NickBad);
        assert((s[i] == '\0' || s[i] == '\r' || s[i] == '\n' || s[i] == ' '
            || s[i] == ',' || s[i] == '*' || s[i] == '?' || s[i] == '!'
            || s[i] == '@'));
    } else {
        assert forall|i: int| 0 <= i < s.len() implies !(s[i] == '\0' || s[i] == '\r' || s[i] == '\n' || s[i] == ' '
            || s[i] == ',' || s[i] == '*' || s[i] == '?' || s[i] == '!'
            || s[i] == '@') by {
            assert(!in_set(s[i], CharSet::NickBad));
        }
    }
}

impl Nickname {
    #[verifier::type_invariant]
    pub(crate) open spec fn inv(self) -> bool {
        nickname_check(self@) is Ok
    }

    /// Validates `string` as a [`Nickname`], returning it back on failure
    pub fn try_from_string(string: String) -> (r: Result<Nickname, TryFromStringError<NicknameError>>)
        ensures
            r is Ok <==> nickname_check(string@) is Ok,
            r matches Ok(v) ==> v@ == string@,
            r matches Err(e) ==> nickname_check(string@) == Err::<(), NicknameError>(e.inner) && e.string@ == string@,
    {
        match nickname_check_exec(string.as_str()) {
            Ok(()) => Ok(Nickname(string)),
            Err(inner) => Err(TryFromStringError { inner, string }),
        }
    }

    /// Parses `s` as a [`Nickname`]
    pub fn parse_str(s: &str) -> (r: Result<Nickname, NicknameError>)
        ensures
            r is Ok <==> nickname_check(s@) is Ok,
            r matches Ok(v) ==> v@ == s@,
            r matches Err(e) ==> nickname_check(s@) == Err::<(), NicknameError>(e),
    {
        match nickname_check_exec(s) {
            Ok(()) => Ok(Nickname(crate::text::string_from(s))),
            Err(e) => Err(e),
        }
    }

    pub fn as_str(&self) -> (r: &str)
        ensures
            r@ == self@,
            nickname_check(self@) is Ok,
    {
        proof {
            use_type_invariant(self);
        }
        self.0.as_str()
    }

    pub fn into_inner(self) -> (r: String)
        ensures
            r@ == self@,
            nickname_check(self@) is Ok,
    {
        proof {
            use_type_invariant(&self);
        }
        self.0
    }

}

impl Clone for Nickname {
    fn clone(&self) -> (r: Self)
        ensures
            r == *self,
    {
        proof {
            use_type_invariant(self);
        }
        Nickname(self.0.clone())
    }
}

impl std::str::FromStr for Nickname {
    type Err = NicknameError;

    fn from_str(s: &str) -> Result<Nickname, NicknameError> {
        Nickname::parse_str(s)
    }
}

/// Checks `s` as [`nickname_check`] does
pub fn nickname_check_exec(s: &str) -> (r: Result<(), NicknameError>)
    ensures
        r == nickname_check(s@),
{
    let v = chars_of(s);
    if v.len() == 0 {
        Err(NicknameError::Empty)
    } else if crate::text::char_in_set(v[0], CharSet::NickStart) {
        Err(NicknameError::BadStart)
    } else if seq_has_in_set(&v, CharSet::NickBad) {
        Err(NicknameError::BadCharacter)
    } else {
        Ok(())
    }
}

/// A channel name: starting with `#` or `&`, and without NUL, CR, LF, space, BEL, or comma
#[derive(Debug, PartialEq, Eq, Hash)]
pub struct Channel(String);

impl View for Channel {
    type V = Seq<char>;

    closed spec fn view(&self) -> Seq<char> {
        self.0@
    }
}

/// How `s` fares as a [`Channel`]
pub open spec fn channel_check(s: Seq<char>) -> Result<(), ParseChannelError> {
    if !channel_prefixed(s) {
        Err(ParseChannelError::BadStart)
    } else if has_in_set(s, CharSet::ChannelBad) {
        Err(ParseChannelError::BadCharacter)
    } else {
        Ok(())
    }
}

/// A channel name starts with `#` or `&` and holds none of NUL, CR, LF,
/// space, BELL, and comma
pub proof fn lemma_channel_chars(s: Seq<char>)
    ensures
        channel_check(s) is Ok <==> {
            &&& !!(s.len() > 0 && (s[0] == '#' || s[0] == '&'))
            &&& forall|i: int| 0 <= i < s.len() ==> !(s[i] == '\0' || s[i] == '\r' || s[i] == '\n' || s[i] == ' '
                || s[i] == '\x07' || s[i] == ',')
        },
        !(s.len() > 0 && (s[0] == '#' || s[0] == '&')) ==> channel_check(s) == Err::<(), ParseChannelError>(
            ParseChannelError::BadStart,
        ),
        ({
            &&& !!(s.len() > 0 && (s[0] == '#' || s[0] == '&'))
            &&& exists|i: int| 0 <= i < s.len() && (s[i] == '\0' || s[i] == '\r' || s[i] == '\n' || s[i] == ' '
                || s[i] == '\x07' || s[i] == ',')
        }) ==> channel_check(s) == Err::<(), ParseChannelError>(ParseChannelError::BadCharacter),
{
    if has_in_set(s, CharSet::ChannelBad) {
        let i = choose|i: int| 0 <= i < s.len() && #[trigger] in_set(s[i], CharSet::ChannelBad);
        assert((s[i] == '\0' || s[i] == '\r' || s[i] == '\n' || s[i] == ' '
            || s[i] == '\x07' || s[i] == ','));
    } else {
        assert forall|i: int| 0 <= i < s.len() implies !(s[i] == '\0' || s[i] == '\r' || s[i] == '\n' || s[i] == ' '
            || s[i] == '\x07' || s[i] == ',') by {
            assert(!in_set(s[i], CharSet::ChannelBad));
        }
    }
}

impl Channel {
    #[verifier::type_invariant]
    pub(crate) open spec fn inv(self) -> bool {
        channel_check(self@) is Ok
    }

    /// Validates `string` as a [`Channel`], returning it back on failure
    pub fn try_from_string(string: String) -> (r: Result<Channel, TryFromStringError<ParseChannelError>>)
        ensures
            r is Ok <==> channel_check(string@) is Ok,
            r matches Ok(v) ==> v@ == string@,
            r matches Err(e) ==> channel_check(string@) == Err::<(), ParseChannelError>(e.inner) && e.string@ == string@,
    {
        match channel_check_exec(string.as_str()) {
            Ok(()) => Ok(Channel(string)),
            Err(inner) => Err(TryFromStringError { inner, string }),
        }
    }

    /// Parses `s` as a [`Channel`]
    pub fn parse_str(s: &str) -> (r: Result<Channel, ParseChannelError>)
        ensures
            r is Ok <==> channel_check(s@) is Ok,
            r matches Ok(v) ==> v@ == s@,
            r matches Err(e) ==> channel_check(s@) == Err::<(), ParseChannelError>(e),
    {
        match channel_check_exec(s) {
            Ok(()) => Ok(Channel(crate::text::string_from(s))),
            Err(e) => Err(e),
        }
    }

    pub fn as_str(&self) -> (r: &str)
        ensures
            r@ == self@,
            channel_check(self@) is Ok,
    {
        proof {
            use_type_invariant(self);
        }
        self.0.as_str()
    }

    pub fn into_inner(self) -> (r: String)
        ensures
            r@ == self@,
            channel_check(self@) is Ok,
    {
        proof {
            use_type_invariant(&self);
        }
        self.0
    }

}

impl Clone for Channel {
    fn clone(&self) -> (r: Self)
        ensures
            r == *self,
    {
        proof {
            use_type_invariant(self);
        }
        Channel(self.0.clone())
    }
}

impl std::str::FromStr for Channel {
    type Err = ParseChannelError;

    fn from_str(s: &str) -> Result<Channel, ParseChannelError> {
        Channel::parse_str(s)
    }
}

/// Checks `s` as [`channel_check`] does
pub fn channel_check_exec(s: &str) -> (r: Result<(), ParseChannelError>)
    ensures
        r == channel_check(s@),
{
    if !channel_prefixed_exec(s) {
        Err(ParseChannelError::BadStart)
    } else if str_has_in_set(s, CharSet::ChannelBad) {
        Err(ParseChannelError::BadCharacter)
    } else {
        Ok(())
    }
}

/// A username: nonempty and without NUL, CR, LF, space, or `@`
#[derive(Debug, PartialEq, Eq, Hash)]
pub struct Username(String);

impl View for Username {
    type V = Seq<char>;

    closed spec fn view(&self) -> Seq<char> {
        self.0@
    }
}

/// How `s` fares as a [`Username`]
pub open spec fn username_check(s: Seq<char>) -> Result<(), ParseUsernameError> {
    if s.len() == 0 {
        Err(ParseUsernameError::Empty)
    } else if has_in_set(s, CharSet::UserBad) {
        Err(ParseUsernameError::BadCharacter)
    } else {
        Ok(())
    }
}

/// A username is nonempty and holds none of NUL, CR, LF, space, and `@`
pub proof fn lemma_username_chars(s: Seq<char>)
    ensures
        username_check(s) is Ok <==> {
            &&& s.len() > 0
            &&& forall|i: int| 0 <= i < s.len() ==> !(s[i] == '\0' || s[i] == '\r' || s[i] == '\n' || s[i] == ' '
                || s[i] == '@')
        },
        s.len() == 0 ==> username_check(s) == Err::<(), ParseUsernameError>(ParseUsernameError::Empty),
        ({
            &&& s.len() > 0
            &&& exists|i: int| 0 <= i < s.len() && (s[i] == '\0' || s[i] == '\r' || s[i] == '\n' || s[i] == ' '
                || s[i] == '@')
        }) ==> username_check(s) == Err::<(), ParseUsernameError>(ParseUsernameError::BadCharacter),
{
    if has_in_set(s, CharSet::UserBad) {
        let i = choose|i: int| 0 <= i < s.len() && #[trigger] in_set(s[i], CharSet::UserBad);
        assert((s[i] == '\0' || s[i] == '\r' || s[i] == '\n' || s[i] == ' '
            || s[i] == '@'));
    } else {
        assert forall|i: int| 0 <= i < s.len() implies !(s[i] == '\0' || s[i] == '\r' || s[i] == '\n' || s[i] == ' '
            || s[i] == '@') by {
            assert(!in_set(s[i], CharSet::UserBad));
        }
    }
}

impl Username {
    #[verifier::type_invariant]
    pub(crate) open spec fn inv(self) -> bool {
        username_check(self@) is Ok
    }

    /// Validates `string` as a [`Username`], returning it back on failure
    pub fn try_from_string(string: String) -> (r: Result<Username, TryFromStringError<ParseUsernameError>>)
        ensures
            r is Ok <==> username_check(string@) is Ok,
            r matches Ok(v) ==> v@ == string@,
            r matches Err(e) ==> username_check(string@) == Err::<(), ParseUsernameError>(e.inner) && e.string@ == string@,
    {
        match username_check_exec(string.as_str()) {
            Ok(()) => Ok(Username(string)),
            Err(inner) => Err(TryFromStringError { inner, string }),
        }
    }

    /// Parses `s` as a [`Username`]
    pub fn parse_str(s: &str) -> (r: Result<Username, ParseUsernameError>)
        ensures
            r is Ok <==> username_check(s@) is Ok,
            r matches Ok(v) ==> v@ == s@,
            r matches Err(e) ==> username_check(s@) == Err::<(), ParseUsernameError>(e),
    {
        match username_check_exec(s) {
            Ok(()) => Ok(Username(crate::text::string_from(s))),
            Err(e) => Err(e),
        }
    }

    pub fn as_str(&self) -> (r: &str)
        ensures
            r@ == self@,
            username_check(self@) is Ok,
    {
        proof {
            use_type_invariant(self);
        }
        self.0.as_str()
    }

    pub fn into_inner(self) -> (r: String)
        ensures
            r@ == self@,
            username_check(self@) is Ok,
    {
        proof {
            use_type_invariant(&self);
        }
        self.0
    }

}

impl Clone for Username {
    fn clone(&self) -> (r: Self)
        ensures
            r == *self,
    {
        proof {
            use_type_invariant(self);
        }
        Username(self.0.clone())
    }
}

impl std::str::FromStr for Username {
    type Err = ParseUsernameError;

    fn from_str(s: &str) -> Result<Username, ParseUsernameError> {
        Username::parse_str(s)
    }
}

/// Checks `s` as [`username_check`] does
pub fn username_check_exec(s: &str) -> (r: Result<(), ParseUsernameError>)
    ensures
        r == username_check(s@),
{
    let v = chars_of(s);
    if v.len() == 0 {
        Err(ParseUsernameError::Empty)
    } else if seq_has_in_set(&v, CharSet::UserBad) {
        Err(ParseUsernameError::BadCharacter)
    } else {
        Ok(())
    }
}

/// A channel key: without NUL, CR, LF, or comma
#[derive(Debug, PartialEq, Eq, Hash)]
pub struct Key(String);

impl View for Key {
    type V = Seq<char>;

    closed spec fn view(&self) -> Seq<char> {
        self.0@
    }
}

/// How `s` fares as a [`Key`]
pub open spec fn key_check(s: Seq<char>) -> Result<(), KeyError> {
    if has_in_set(s, CharSet::NulCrLfComma) {
        Err(KeyError)
    } else {
        Ok(())
    }
}

/// A channel key holds none of NUL, CR, LF, and comma
pub proof fn lemma_key_chars(s: Seq<char>)
    ensures
        key_check(s) is Ok <==> {
            &&& forall|i: int| 0 <= i < s.len() ==> !(s[i] == '\0' || s[i] == '\r' || s[i] == '\n' || s[i] == ',')
        },
        ({
            &&& exists|i: int| 0 <= i < s.len() && (s[i] == '\0' || s[i] == '\r' || s[i] == '\n' || s[i] == ',')
        }) ==> key_check(s) == Err::<(), KeyError>(KeyError),
{
    if has_in_set(s, CharSet::NulCrLfComma) {
        let i = choose|i: int| 0 <= i < s.len() && #[trigger] in_set(s[i], CharSet::NulCrLfComma);
        assert((s[i] == '\0' || s[i] == '\r' || s[i] == '\n' || s[i] == ','));
    } else {
        assert forall|i: int| 0 <= i < s.len() implies !(s[i] == '\0' || s[i] == '\r' || s[i] == '\n' || s[i] == ',') by {
            assert(!in_set(s[i], CharSet::NulCrLfComma));
        }
    }
}

impl Key {
    #[verifier::type_invariant]
    pub(crate) open spec fn inv(self) -> bool {
        key_check(self@) is Ok
    }

    /// Validates `string` as a [`Key`], returning it back on failure
    pub fn try_from_string(string: String) -> (r: Result<Key, TryFromStringError<KeyError>>)
        ensures
            r is Ok <==> key_check(string@) is Ok,
            r matches Ok(v) ==> v@ == string@,
            r matches Err(e) ==> key_check(string@) == Err::<(), KeyError>(e.inner) && e.string@ == string@,
    {
        match key_check_exec(string.as_str()) {
            Ok(()) => Ok(Key(string)),
            Err(inner) => Err(TryFromStringError { inner, string }),
        }
    }

    /// Parses `s` as a [`Key`]
    pub fn parse_str(s: &str) -> (r: Result<Key, KeyError>)
        ensures
            r is Ok <==> key_check(s@) is Ok,
            r matches Ok(v) ==> v@ == s@,
            r matches Err(e) ==> key_check(s@) == Err::<(), KeyError>(e),
    {
        match key_check_exec(s) {
            Ok(()) => Ok(Key(crate::text::string_from(s))),
            Err(e) => Err(e),
        }
    }

    pub fn as_str(&self) -> (r: &str)
        ensures
            r@ == self@,
            key_check(self@) is Ok,
    {
        proof {
            use_type_invariant(self);
        }
        self.0.as_str()
    }

    pub fn into_inner(self) -> (r: String)
        ensures
            r@ == self@,
            key_check(self@) is Ok,
    {
        proof {
            use_type_invariant(&self);
        }
        self.0
    }

}

impl Clone for Key {
    fn clone(&self) -> (r: Self)
        ensures
            r == *self,
    {
        proof {
            use_type_invariant(self);
        }
        Key(self.0.clone())
    }
}

impl std::str::FromStr for Key {
    type Err = KeyError;

    fn from_str(s: &str) -> Result<Key, KeyError> {
        Key::parse_str(s)
    }
}

/// Checks `s` as [`key_check`] does
pub fn key_check_exec(s: &str) -> (r: Result<(), KeyError>)
    ensures
        r == key_check(s@),
{
    if str_has_in_set(s, CharSet::NulCrLfComma) {
        Err(KeyError)
    } else {
        Ok(())
    }
}

/// A mode string: `+` or `-` followed by ASCII letters, `+`, and `-`
#[derive(Debug, PartialEq, Eq, Hash)]
pub struct Modestring(String);

impl View for Modestring {
    type V = Seq<char>;

    closed spec fn view(&self) -> Seq<char> {
        self.0@
    }
}

/// How `s` fares as a [`Modestring`]
pub open spec fn modestring_check(s: Seq<char>) -> Result<(), ParseModestringError> {
    if !(s.len() > 0 && (s[0] == '+' || s[0] == '-')) {
        Err(ParseModestringError::BadStart)
    } else if has_in_set(s, CharSet::NotModeChar) {
        Err(ParseModestringError::BadCharacter)
    } else {
        Ok(())
    }
}

/// A mode string starts with `+` or `-` and holds nothing but ASCII letters,
/// `+`, and `-`
pub proof fn lemma_modestring_chars(s: Seq<char>)
    ensures
        modestring_check(s) is Ok <==> {
            &&& !!(s.len() > 0 && (s[0] == '+' || s[0] == '-'))
            &&& forall|i: int| 0 <= i < s.len() ==> !!(('a' <= s[i] && s[i] <= 'z') || ('A' <= s[i] && s[i] <= 'Z') || s[i] == '+' || s[i] == '-')
        },
        !(s.len() > 0 && (s[0] == '+' || s[0] == '-')) ==> modestring_check(s) == Err::<(), ParseModestringError>(
            ParseModestringError::BadStart,
        ),
        ({
            &&& !!(s.len() > 0 && (s[0] == '+' || s[0] == '-'))
            &&& exists|i: int| 0 <= i < s.len() && !(('a' <= s[i] && s[i] <= 'z') || ('A' <= s[i] && s[i] <= 'Z') || s[i] == '+' || s[i] == '-')
        }) ==> modestring_check(s) == Err::<(), ParseModestringError>(ParseModestringError::BadCharacter),
{
    if has_in_set(s, CharSet::NotModeChar) {
        let i = choose|i: int| 0 <= i < s.len() && #[trigger] in_set(s[i], CharSet::NotModeChar);
        assert(!(('a' <= s[i] && s[i] <= 'z') || ('A' <= s[i] && s[i] <= 'Z') || s[i] == '+' || s[i] == '-'));
    } else {
        assert forall|i: int| 0 <= i < s.len() implies !!(('a' <= s[i] && s[i] <= 'z') || ('A' <= s[i] && s[i] <= 'Z') || s[i] == '+' || s[i] == '-') by {
            assert(!in_set(s[i], CharSet::NotModeChar));
        }
    }
}

impl Modestring {
    #[verifier::type_invariant]
    pub(crate) open spec fn inv(self) -> bool {
        modestring_check(self@) is Ok
    }

    /// Validates `string` as a [`Modestring`], returning it back on failure
    pub fn try_from_string(string: String) -> (r: Result<Modestring, TryFromStringError<ParseModestringError>>)
        ensures
            r is Ok <==> modestring_check(string@) is Ok,
            r matches Ok(v) ==> v@ == string@,
            r matches Err(e) ==> modestring_check(string@) == Err::<(), ParseModestringError>(e.inner) && e.string@ == string@,
    {
        match modestring_check_exec(string.as_str()) {
            Ok(()) => Ok(Modestring(string)),
            Err(inner) => Err(TryFromStringError { inner, string }),
        }
    }

    /// Parses `s` as a [`Modestring`]
    pub fn parse_str(s: &str) -> (r: Result<Modestring, ParseModestringError>)
        ensures
            r is Ok <==> modestring_check(s@) is Ok,
            r matches Ok(v) ==> v@ == s@,
            r matches Err(e) ==> modestring_check(s@) == Err::<(), ParseModestringError>(e),
    {
        match modestring_check_exec(s) {
            Ok(()) => Ok(Modestring(crate::text::string_from(s))),
            Err(e) => Err(e),
        }
    }

    pub fn as_str(&self) -> (r: &str)
        ensures
            r@ == self@,
            modestring_check(self@) is Ok,
    {
        proof {
            use_type_invariant(self);
        }
        self.0.as_str()
    }

    pub fn into_inner(self) -> (r: String)
        ensures
            r@ == self@,
            modestring_check(self@) is Ok,
    {
        proof {
            use_type_invariant(&self);
        }
        self.0
    }

}

impl Clone for Modestring {
    fn clone(&self) -> (r: Self)
        ensures
            r == *self,
    {
        proof {
            use_type_invariant(self);
        }
        Modestring(self.0.clone())
    }
}

impl std::str::FromStr for Modestring {
    type Err = ParseModestringError;

    fn from_str(s: &str) -> Result<Modestring, ParseModestringError> {
        Modestring::parse_str(s)
    }
}

/// Checks `s` as [`modestring_check`] does
pub fn modestring_check_exec(s: &str) -> (r: Result<(), ParseModestringError>)
    ensures
        r == modestring_check(s@),
{
    let v = chars_of(s);
    if !(v.len() > 0 && (v[0] == '+' || v[0] == '-')) {
        Err(ParseModestringError::BadStart)
    } else if seq_has_in_set(&v, CharSet::NotModeChar) {
        Err(ParseModestringError::BadCharacter)
    } else {
        Ok(())
    }
}

impl Modestring {
    /// Every mode string is a valid medial parameter
    pub fn into_medial(self) -> (r: MedialParam)
        ensures
            r@ == self@,
    {
        let s = self.into_inner();
        proof {
            lemma_mode_chars_medial(s@);
        }
        match MedialParam::try_from_string(s) {
            Ok(p) => p,
            Err(_) => {
                assert(false);
                unreached()
            },
        }
    }

    /// Every mode string is a valid final parameter
    pub fn into_final(self) -> (r: FinalParam)
        ensures
            r@ == self@,
    {
        FinalParam::from_medial(self.into_medial())
    }
}

proof fn lemma_mode_chars_medial(s: Seq<char>)
    requires
        modestring_check(s) is Ok,
    ensures
        medial_check(s) is Ok,
{
    assert forall|i: int| 0 <= i < s.len() implies !in_set(#[trigger] s[i], CharSet::NulCrLfSpace) by {
        assert(!in_set(s[i], CharSet::NotModeChar));
    }
}

/// The name of a command, as it stands in a message
#[derive(Debug, PartialEq, Eq, Hash)]
pub struct Verb(String);

impl View for Verb {
    type V = Seq<char>;

    closed spec fn view(&self) -> Seq<char> {
        self.0@
    }
}

impl Verb {
    pub fn from_string(s: String) -> (r: Verb)
        ensures
            r@ == s@,
    {
        Verb(s)
    }

    pub fn as_str(&self) -> (r: &str)
        ensures
            r@ == self@,
    {
        self.0.as_str()
    }

    pub fn into_inner(self) -> (r: String)
        ensures
            r@ == self@,
    {
        self.0
    }

    /// The text form of the verb
    pub fn to_string(&self) -> (r: String)
        ensures
            r@ == self@,
    {
        self.0.clone()
    }
}

impl Clone for Verb {
    fn clone(&self) -> (r: Self)
        ensures
            r == *self,
    {
        Verb(self.0.clone())
    }
}

impl std::str::FromStr for Verb {
    type Err = std::convert::Infallible;

    fn from_str(s: &str) -> Result<Verb, std::convert::Infallible> {
        Ok(Verb(string_from(s)))
    }
}


impl From<Modestring> for MedialParam {
    /// Every mode string is a valid medial parameter
    fn from(value: Modestring) -> (r: MedialParam)
        ensures
            r@ == value@,
    {
        value.into_medial()
    }
}

impl FromSpecImpl<Modestring> for MedialParam {
    open spec fn obeys_from_spec() -> bool {
        false
    }

    open spec fn from_spec(v: Modestring) -> MedialParam {
        arbitrary()
    }
}

impl From<Modestring> for FinalParam {
    /// Every mode string is a valid final parameter
    fn from(value: Modestring) -> (r: FinalParam)
        ensures
            r@ == value@,
    {
        value.into_final()
    }
}

impl FromSpecImpl<Modestring> for FinalParam {
    open spec fn obeys_from_spec() -> bool {
        false
    }

    open spec fn from_spec(v: Modestring) -> FinalParam {
        arbitrary()
    }
}

} // verus!
