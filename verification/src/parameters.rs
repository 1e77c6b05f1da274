//! The parameter types of IRC messages.
use crate::text::{chars_of, has_in_set, in_set, seq_has_in_set, str_has_in_set, string_from, CharSet};
use crate::validstr::TryFromStringError;
use vstd::prelude::*;
use vstd::std_specs::convert::FromSpecImpl;

verus! {

/// Why a string is not a valid middle parameter
#[derive(Clone, Copy, Debug, PartialEq, Eq, Hash)]
pub enum ParseMiddleParamError {
    Empty,
    StartsWithColon,
    BadCharacter,
}

/// Why a string is not a valid medial parameter
#[derive(Clone, Copy, Debug, PartialEq, Eq, Hash)]
pub enum ParseMedialParamError {
    Empty,
    StartsWithColon,
    BadCharacter,
}

/// A string that contains NUL, CR, or LF
#[derive(Clone, Copy, Debug, PartialEq, Eq, Hash)]
pub struct ParseTrailingParamError;

/// A string that contains NUL, CR, or LF
#[derive(Clone, Copy, Debug, PartialEq, Eq, Hash)]
pub struct ParseFinalParamError;

/// A parameter that may stand anywhere in a parameter list: nonempty, not starting with a colon, and without NUL, CR, LF, or SPACE
#[derive(Debug, PartialEq, Eq, Hash, PartialOrd, Ord)]
pub struct MiddleParam(String);

impl View for MiddleParam {
    type V = Seq<char>;

    closed spec fn view(&self) -> Seq<char> {
        self.0@
    }
}

/// How `s` fares as a [`MiddleParam`]
pub open spec fn middle_check(s: Seq<char>) -> Result<(), ParseMiddleParamError> {
    if s.len() == 0 {
        Err(ParseMiddleParamError::Empty)
    } else if s[0] == ':' {
        Err(ParseMiddleParamError::StartsWithColon)
    } else if has_in_set(s, CharSet::NulCrLfSpace) {
        Err(ParseMiddleParamError::BadCharacter)
    } else {
        Ok(())
    }
}

/// A middle parameter is nonempty, does not start with a colon, and holds
/// none of NUL, CR, LF, and space
pub proof fn lemma_middle_chars(s: Seq<char>)
    ensures
        middle_check(s) is Ok <==> {
            &&& s.len() > 0
            &&& !(s[0] == ':')
            &&& forall|i: int| 0 <= i < s.len() ==> !(s[i] == '\0' || s[i] == '\r' || s[i] == '\n' || s[i] == ' ')
        },
        s.len() == 0 ==> middle_check(s) == Err::<(), ParseMiddleParamError>(ParseMiddleParamError::Empty),
        s.len() > 0 && (s[0] == ':') ==> middle_check(s) == Err::<(), ParseMiddleParamError>(
            ParseMiddleParamError::StartsWithColon,
        ),
        ({
            &&& s.len() > 0
            &&& !(s[0] == ':')
            &&& exists|i: int| 0 <= i < s.len() && (s[i] == '\0' || s[i] == '\r' || s[i] == '\n' || s[i] == ' ')
        }) ==> middle_check(s) == Err::<(), ParseMiddleParamError>(ParseMiddleParamError::BadCharacter),
{
    if has_in_set(s, CharSet::NulCrLfSpace) {
        let i = choose|i: int| 0 <= i < s.len() && #[trigger] in_set(s[i], CharSet::NulCrLfSpace);
        assert((s[i] == '\0' || s[i] == '\r' || s[i] == '\n' || s[i] == ' '));
    } else {
        assert forall|i: int| 0 <= i < s.len() implies !(s[i] == '\0' || s[i] == '\r' || s[i] == '\n' || s[i] == ' ') by {
            assert(!in_set(s[i], CharSet::NulCrLfSpace));
        }
    }
}

impl MiddleParam {
    #[verifier::type_invariant]
    pub(crate) open spec fn inv(self) -> bool {
        middle_check(self@) is Ok
    }

    /// Validates `string` as a [`MiddleParam`], returning it back on failure
    pub fn try_from_string(string: String) -> (r: Result<MiddleParam, TryFromStringError<ParseMiddleParamError>>)
        ensures
            r is Ok <==> middle_check(string@) is Ok,
            r matches Ok(v) ==> v@ == string@,
            r matches Err(e) ==> middle_check(string@) == Err::<(), ParseMiddleParamError>(e.inner) && e.string@ == string@,
    {
        match middle_check_exec(string.as_str()) {
            Ok(()) => Ok(MiddleParam(string)),
            Err(inner) => Err(TryFromStringError { inner, string }),
        }
    }

    /// Parses `s` as a [`MiddleParam`]
    pub fn parse_str(s: &str) -> (r: Result<MiddleParam, ParseMiddleParamError>)
        ensures
            r is Ok <==> middle_check(s@) is Ok,
            r matches Ok(v) ==> v@ == s@,
            r matches Err(e) ==> middle_check(s@) == Err::<(), ParseMiddleParamError>(e),
    {
        match middle_check_exec(s) {
            Ok(()) => Ok(MiddleParam(crate::text::string_from(s))),
            Err(e) => Err(e),
        }
    }

    pub fn as_str(&self) -> (r: &str)
        ensures
            r@ == self@,
            middle_check(self@) is Ok,
    {
        proof {
            use_type_invariant(self);
        }
        self.0.as_str()
    }

    pub fn into_inner(self) -> (r: String)
        ensures
            r@ == self@,
            middle_check(self@) is Ok,
    {
        proof {
            use_type_invariant(&self);
        }
        self.0
    }

}

impl Clone for MiddleParam {
    fn clone(&self) -> (r: Self)
        ensures
            r == *self,
    {
        proof {
            use_type_invariant(self);
        }
        MiddleParam(self.0.clone())
    }
}

impl std::str::FromStr for MiddleParam {
    type Err = ParseMiddleParamError;

    fn from_str(s: &str) -> Result<MiddleParam, ParseMiddleParamError> {
        MiddleParam::parse_str(s)
    }
}

/// Checks `s` as [`middle_check`] does
pub fn middle_check_exec(s: &str) -> (r: Result<(), ParseMiddleParamError>)
    ensures
        r == middle_check(s@),
{
    let v = chars_of(s);
    if v.len() == 0 {
        Err(ParseMiddleParamError::Empty)
    } else if v[0] == ':' {
        Err(ParseMiddleParamError::StartsWithColon)
    } else if seq_has_in_set(&v, CharSet::NulCrLfSpace) {
        Err(ParseMiddleParamError::BadCharacter)
    } else {
        Ok(())
    }
}

/// A parameter that may stand anywhere in a parameter list: nonempty, not starting with a colon, and without NUL, CR, LF, or SPACE
#[derive(Debug, PartialEq, Eq, Hash, PartialOrd, Ord)]
pub struct MedialParam(String);

impl View for MedialParam {
    type V = Seq<char>;

    closed spec fn view(&self) -> Seq<char> {
        self.0@
    }
}

/// How `s` fares as a [`MedialParam`]
pub open spec fn medial_check(s: Seq<char>) -> Result<(), ParseMedialParamError> {
    if s.len() == 0 {
        Err(ParseMedialParamError::Empty)
    } else if s[0] == ':' {
        Err(ParseMedialParamError::StartsWithColon)
    } else if has_in_set(s, CharSet::NulCrLfSpace) {
        Err(ParseMedialParamError::BadCharacter)
    } else {
        Ok(())
    }
}

/// A medial parameter is nonempty, does not start with a colon, and holds
/// none of NUL, CR, LF, and space
pub proof fn lemma_medial_chars(s: Seq<char>)
    ensures
        medial_check(s) is Ok <==> {
            &&& s.len() > 0
            &&& !(s[0] == ':')
            &&& forall|i: int| 0 <= i < s.len() ==> !(s[i] == '\0' || s[i] == '\r' || s[i] == '\n' || s[i] == ' ')
        },
        s.len() == 0 ==> medial_check(s) == Err::<(), ParseMedialParamError>(ParseMedialParamError::Empty),
        s.len() > 0 && (s[0] == ':') ==> medial_check(s) == Err::<(), ParseMedialParamError>(
            ParseMedialParamError::StartsWithColon,
        ),
        ({
            &&& s.len() > 0
            &&& !(s[0] == ':')
            &&& exists|i: int| 0 <= i < s.len() && (s[i] == '\0' || s[i] == '\r' || s[i] == '\n' || s[i] == ' ')
        }) ==> medial_check(s) == Err::<(), ParseMedialParamError>(ParseMedialParamError::BadCharacter),
{
    if has_in_set(s, CharSet::NulCrLfSpace) {
        let i = choose|i: int| 0 <= i < s.len() && #[trigger] in_set(s[i], CharSet::NulCrLfSpace);
        assert((s[i] == '\0' || s[i] == '\r' || s[i] == '\n' || s[i] == ' '));
    } else {
        assert forall|i: int| 0 <= i < s.len() implies !(s[i] == '\0' || s[i] == '\r' || s[i] == '\n' || s[i] == ' ') by {
            assert(!in_set(s[i], CharSet::NulCrLfSpace));
        }
    }
}

impl MedialParam {
    #[verifier::type_invariant]
    pub(crate) open spec fn inv(self) -> bool {
        medial_check(self@) is Ok
    }

    /// Validates `string` as a [`MedialParam`], returning it back on failure
    pub fn try_from_string(string: String) -> (r: Result<MedialParam, TryFromStringError<ParseMedialParamError>>)
        ensures
            r is Ok <==> medial_check(string@) is Ok,
            r matches Ok(v) ==> v@ == string@,
            r matches Err(e) ==> medial_check(string@) == Err::<(), ParseMedialParamError>(e.inner) && e.string@ == string@,
    {
        match medial_check_exec(string.as_str()) {
            Ok(()) => Ok(MedialParam(string)),
            Err(inner) => Err(TryFromStringError { inner, string }),
        }
    }

    /// Parses `s` as a [`MedialParam`]
    pub fn parse_str(s: &str) -> (r: Result<MedialParam, ParseMedialParamError>)
        ensures
            r is Ok <==> medial_check(s@) is Ok,
            r matches Ok(v) ==> v@ == s@,
            r matches Err(e) ==> medial_check(s@) == Err::<(), ParseMedialParamError>(e),
    {
        match medial_check_exec(s) {
            Ok(()) => Ok(MedialParam(crate::text::string_from(s))),
            Err(e) => Err(e),
        }
    }

    pub fn as_str(&self) -> (r: &str)
        ensures
            r@ == self@,
            medial_check(self@) is Ok,
    {
        proof {
            use_type_invariant(self);
        }
        self.0.as_str()
    }

    pub fn into_inner(self) -> (r: String)
        ensures
            r@ == self@,
            medial_check(self@) is Ok,
    {
        proof {
            use_type_invariant(&self);
        }
        self.0
    }

}

impl Clone for MedialParam {
    fn clone(&self) -> (r: Self)
        ensures
            r == *self,
    {
        proof {
            use_type_invariant(self);
        }
        MedialParam(self.0.clone())
    }
}

impl std::str::FromStr for MedialParam {
    type Err = ParseMedialParamError;

    fn from_str(s: &str) -> Result<MedialParam, ParseMedialParamError> {
        MedialParam::parse_str(s)
    }
}

/// Checks `s` as [`medial_check`] does
pub fn medial_check_exec(s: &str) -> (r: Result<(), ParseMedialParamError>)
    ensures
        r == medial_check(s@),
{
    let v = chars_of(s);
    if v.len() == 0 {
        Err(ParseMedialParamError::Empty)
    } else if v[0] == ':' {
        Err(ParseMedialParamError::StartsWithColon)
    } else if seq_has_in_set(&v, CharSet::NulCrLfSpace) {
        Err(ParseMedialParamError::BadCharacter)
    } else {
        Ok(())
    }
}

/// A parameter that may only stand last in a parameter list: without NUL, CR, or LF
#[derive(Debug, PartialEq, Eq, Hash, PartialOrd, Ord)]
pub struct TrailingParam(String);

impl View for TrailingParam {
    type V = Seq<char>;

    closed spec fn view(&self) -> Seq<char> {
        self.0@
    }
}

/// How `s` fares as a [`TrailingParam`]
pub open spec fn trailing_check(s: Seq<char>) -> Result<(), ParseTrailingParamError> {
    if has_in_set(s, CharSet::NulCrLf) {
        Err(ParseTrailingParamError)
    } else {
        Ok(())
    }
}

/// A trailing parameter holds none of NUL, CR, and LF
pub proof fn lemma_trailing_chars(s: Seq<char>)
    ensures
        trailing_check(s) is Ok <==> {
            &&& forall|i: int| 0 <= i < s.len() ==> !(s[i] == '\0' || s[i] == '\r' || s[i] == '\n')
        },
        ({
            &&& exists|i: int| 0 <= i < s.len() && (s[i] == '\0' || s[i] == '\r' || s[i] == '\n')
        }) ==> trailing_check(s) == Err::<(), ParseTrailingParamError>(ParseTrailingParamError),
{
    if has_in_set(s, CharSet::NulCrLf) {
        let i = choose|i: int| 0 <= i < s.len() && #[trigger] in_set(s[i], CharSet::NulCrLf);
        assert((s[i] == '\0' || s[i] == '\r' || s[i] == '\n'));
    } else {
        assert forall|i: int| 0 <= i < s.len() implies !(s[i] == '\0' || s[i] == '\r' || s[i] == '\n') by {
            assert(!in_set(s[i], CharSet::NulCrLf));
        }
    }
}

impl TrailingParam {
    #[verifier::type_invariant]
    pub(crate) open spec fn inv(self) -> bool {
        trailing_check(self@) is Ok
    }

    /// Validates `string` as a [`TrailingParam`], returning it back on failure
    pub fn try_from_string(string: String) -> (r: Result<TrailingParam, TryFromStringError<ParseTrailingParamError>>)
        ensures
            r is Ok <==> trailing_check(string@) is Ok,
            r matches Ok(v) ==> v@ == string@,
            r matches Err(e) ==> trailing_check(string@) == Err::<(), ParseTrailingParamError>(e.inner) && e.string@ == string@,
    {
        match trailing_check_exec(string.as_str()) {
            Ok(()) => Ok(TrailingParam(string)),
            Err(inner) => Err(TryFromStringError { inner, string }),
        }
    }

    /// Parses `s` as a [`TrailingParam`]
    pub fn parse_str(s: &str) -> (r: Result<TrailingParam, ParseTrailingParamError>)
        ensures
            r is Ok <==> trailing_check(s@) is Ok,
            r matches Ok(v) ==> v@ == s@,
            r matches Err(e) ==> trailing_check(s@) == Err::<(), ParseTrailingParamError>(e),
    {
        match trailing_check_exec(s) {
            Ok(()) => Ok(TrailingParam(crate::text::string_from(s))),
            Err(e) => Err(e),
        }
    }

    pub fn as_str(&self) -> (r: &str)
        ensures
            r@ == self@,
            trailing_check(self@) is Ok,
    {
        proof {
            use_type_invariant(self);
        }
        self.0.as_str()
    }

    pub fn into_inner(self) -> (r: String)
        ensures
            r@ == self@,
            trailing_check(self@) is Ok,
    {
        proof {
            use_type_invariant(&self);
        }
        self.0
    }

}

impl Clone for TrailingParam {
    fn clone(&self) -> (r: Self)
        ensures
            r == *self,
    {
        proof {
            use_type_invariant(self);
        }
        TrailingParam(self.0.clone())
    }
}

impl std::str::FromStr for TrailingParam {
    type Err = ParseTrailingParamError;

    fn from_str(s: &str) -> Result<TrailingParam, ParseTrailingParamError> {
        TrailingParam::parse_str(s)
    }
}

/// Checks `s` as [`trailing_check`] does
pub fn trailing_check_exec(s: &str) -> (r: Result<(), ParseTrailingParamError>)
    ensures
        r == trailing_check(s@),
{
    if str_has_in_set(s, CharSet::NulCrLf) {
        Err(ParseTrailingParamError)
    } else {
        Ok(())
    }
}

/// A parameter that may only stand last in a parameter list: without NUL, CR, or LF
#[derive(Debug, PartialEq, Eq, Hash)]
pub struct FinalParam(String);

impl View for FinalParam {
    type V = Seq<char>;

    closed spec fn view(&self) -> Seq<char> {
        self.0@
    }
}

/// How `s` fares as a [`FinalParam`]
pub open spec fn final_check(s: Seq<char>) -> Result<(), ParseFinalParamError> {
    if has_in_set(s, CharSet::NulCrLf) {
        Err(ParseFinalParamError)
    } else {
        Ok(())
    }
}

/// A final parameter holds none of NUL, CR, and LF
pub proof fn lemma_final_chars(s: Seq<char>)
    ensures
        final_check(s) is Ok <==> {
            &&& forall|i: int| 0 <= i < s.len() ==> !(s[i] == '\0' || s[i] == '\r' || s[i] == '\n')
        },
        ({
            &&& exists|i: int| 0 <= i < s.len() && (s[i] == '\0' || s[i] == '\r' || s[i] == '\n')
        }) ==> final_check(s) == Err::<(), ParseFinalParamError>(ParseFinalParamError),
{
    if has_in_set(s, CharSet::NulCrLf) {
        let i = choose|i: int| 0 <= i < s.len() && #[trigger] in_set(s[i], CharSet::NulCrLf);
        assert((s[i] == '\0' || s[i] == '\r' || s[i] == '\n'));
    } else {
        assert forall|i: int| 0 <= i < s.len() implies !(s[i] == '\0' || s[i] == '\r' || s[i] == '\n') by {
            assert(!in_set(s[i], CharSet::NulCrLf));
        }
    }
}

impl FinalParam {
    #[verifier::type_invariant]
    pub(crate) open spec fn inv(self) -> bool {
        final_check(self@) is Ok
    }

    /// Validates `string` as a [`FinalParam`], returning it back on failure
    pub fn try_from_string(string: String) -> (r: Result<FinalParam, TryFromStringError<ParseFinalParamError>>)
        ensures
            r is Ok <==> final_check(string@) is Ok,
            r matches Ok(v) ==> v@ == string@,
            r matches Err(e) ==> final_check(string@) == Err::<(), ParseFinalParamError>(e.inner) && e.string@ == string@,
    {
        match final_check_exec(string.as_str()) {
            Ok(()) => Ok(FinalParam(string)),
            Err(inner) => Err(TryFromStringError { inner, string }),
        }
    }

    /// Parses `s` as a [`FinalParam`]
    pub fn parse_str(s: &str) -> (r: Result<FinalParam, ParseFinalParamError>)
        ensures
            r is Ok <==> final_check(s@) is Ok,
            r matches Ok(v) ==> v@ == s@,
            r matches Err(e) ==> final_check(s@) == Err::<(), ParseFinalParamError>(e),
    {
        match final_check_exec(s) {
            Ok(()) => Ok(FinalParam(crate::text::string_from(s))),
            Err(e) => Err(e),
        }
    }

    pub fn as_str(&self) -> (r: &str)
        ensures
            r@ == self@,
            final_check(self@) is Ok,
    {
        proof {
            use_type_invariant(self);
        }
        self.0.as_str()
    }

    pub fn into_inner(self) -> (r: String)
        ensures
            r@ == self@,
            final_check(self@) is Ok,
    {
        proof {
            use_type_invariant(&self);
        }
        self.0
    }

}

impl Clone for FinalParam {
    fn clone(&self) -> (r: Self)
        ensures
            r == *self,
    {
        proof {
            use_type_invariant(self);
        }
        FinalParam(self.0.clone())
    }
}

impl std::str::FromStr for FinalParam {
    type Err = ParseFinalParamError;

    fn from_str(s: &str) -> Result<FinalParam, ParseFinalParamError> {
        FinalParam::parse_str(s)
    }
}

/// Checks `s` as [`final_check`] does
pub fn final_check_exec(s: &str) -> (r: Result<(), ParseFinalParamError>)
    ensures
        r == final_check(s@),
{
    if str_has_in_set(s, CharSet::NulCrLf) {
        Err(ParseFinalParamError)
    } else {
        Ok(())
    }
}

impl TrailingParam {
    /// Every middle parameter is a valid trailing parameter
    pub fn from_middle(value: MiddleParam) -> (r: TrailingParam)
        ensures
            r@ == value@,
    {
        let s = value.into_inner();
        proof {
            lemma_middle_is_trailing(s@);
        }
        TrailingParam(s)
    }
}

impl FinalParam {
    /// Every medial parameter is a valid final parameter
    pub fn from_medial(value: MedialParam) -> (r: FinalParam)
        ensures
            r@ == value@,
    {
        let s = value.into_inner();
        proof {
            lemma_middle_is_trailing(s@);
        }
        FinalParam(s)
    }
}

/// A string without NUL, CR, LF, or SPACE has none of NUL, CR, LF.
pub proof fn lemma_middle_is_trailing(s: Seq<char>)
    requires
        !has_in_set(s, CharSet::NulCrLfSpace),
    ensures
        !has_in_set(s, CharSet::NulCrLf),
{
    assert forall|i: int| 0 <= i < s.len() implies !in_set(#[trigger] s[i], CharSet::NulCrLf) by {
        assert(!in_set(s[i], CharSet::NulCrLfSpace));
    }
}

/// A parameter in a parameter list
#[derive(Clone, Debug, PartialEq, Eq, Hash)]
pub enum Parameter {
    Middle(MiddleParam),
    Trailing(TrailingParam),
}

impl View for Parameter {
    type V = Seq<char>;

    open spec fn view(&self) -> Seq<char> {
        match self {
            Parameter::Middle(p) => p@,
            Parameter::Trailing(p) => p@,
        }
    }
}

impl Parameter {
    pub fn is_middle(&self) -> (r: bool)
        ensures
            r == self is Middle,
    {
        match self {
            Parameter::Middle(_) => true,
            Parameter::Trailing(_) => false,
        }
    }

    pub fn is_trailing(&self) -> (r: bool)
        ensures
            r == self is Trailing,
    {
        match self {
            Parameter::Middle(_) => false,
            Parameter::Trailing(_) => true,
        }
    }

    pub fn as_str(&self) -> (r: &str)
        ensures
            r@ == self@,
    {
        match self {
            Parameter::Middle(p) => p.as_str(),
            Parameter::Trailing(p) => p.as_str(),
        }
    }

    pub fn into_string(self) -> (r: String)
        ensures
            r@ == self@,
    {
        match self {
            Parameter::Middle(p) => p.into_inner(),
            Parameter::Trailing(p) => p.into_inner(),
        }
    }
}

/// A borrowed parameter in a parameter list
#[derive(Clone, Debug, PartialEq, Eq, Hash)]
pub enum ParamRef<'a> {
    Middle(&'a MiddleParam),
    Trailing(&'a TrailingParam),
}

impl<'a> View for ParamRef<'a> {
    type V = Seq<char>;

    open spec fn view(&self) -> Seq<char> {
        match self {
            ParamRef::Middle(p) => p@,
            ParamRef::Trailing(p) => p@,
        }
    }
}

impl<'a> ParamRef<'a> {
    pub fn is_middle(&self) -> (r: bool)
        ensures
            r == self is Middle,
    {
        match self {
            ParamRef::Middle(_) => true,
            ParamRef::Trailing(_) => false,
        }
    }

    pub fn is_trailing(&self) -> (r: bool)
        ensures
            r == self is Trailing,
    {
        match self {
            ParamRef::Middle(_) => false,
            ParamRef::Trailing(_) => true,
        }
    }

    pub fn as_str(&self) -> (r: &'a str)
        ensures
            r@ == self@,
    {
        match self {
            ParamRef::Middle(p) => p.as_str(),
            ParamRef::Trailing(p) => p.as_str(),
        }
    }

    /// An owned copy of the parameter's text
    pub fn to_string(&self) -> (r: String)
        ensures
            r@ == self@,
    {
        string_from(self.as_str())
    }
}


impl From<MiddleParam> for TrailingParam {
    /// Every middle parameter is a valid trailing parameter
    fn from(value: MiddleParam) -> (r: TrailingParam)
        ensures
            r@ == value@,
    {
        TrailingParam::from_middle(value)
    }
}

impl FromSpecImpl<MiddleParam> for TrailingParam {
    open spec fn obeys_from_spec() -> bool {
        false
    }

    open spec fn from_spec(v: MiddleParam) -> TrailingParam {
        arbitrary()
    }
}

impl From<MedialParam> for FinalParam {
    /// Every medial parameter is a valid final parameter
    fn from(value: MedialParam) -> (r: FinalParam)
        ensures
            r@ == value@,
    {
        FinalParam::from_medial(value)
    }
}

impl FromSpecImpl<MedialParam> for FinalParam {
    open spec fn obeys_from_spec() -> bool {
        false
    }

    open spec fn from_spec(v: MedialParam) -> FinalParam {
        arbitrary()
    }
}

impl From<MiddleParam> for Parameter {
    fn from(value: MiddleParam) -> (r: Parameter)
        ensures
            r == Parameter::Middle(value),
    {
        Parameter::Middle(value)
    }
}

impl FromSpecImpl<MiddleParam> for Parameter {
    open spec fn obeys_from_spec() -> bool {
        true
    }

    open spec fn from_spec(v: MiddleParam) -> Parameter {
        Parameter::Middle(v)
    }
}

impl From<TrailingParam> for Parameter {
    fn from(value: TrailingParam) -> (r: Parameter)
        ensures
            r == Parameter::Trailing(value),
    {
        Parameter::Trailing(value)
    }
}

impl FromSpecImpl<TrailingParam> for Parameter {
    open spec fn obeys_from_spec() -> bool {
        true
    }

    open spec fn from_spec(v: TrailingParam) -> Parameter {
        Parameter::Trailing(v)
    }
}

impl From<Parameter> for String {
    /// The text of the parameter
    fn from(value: Parameter) -> (r: String)
        ensures
            r@ == value@,
    {
        value.into_string()
    }
}

impl FromSpecImpl<Parameter> for String {
    open spec fn obeys_from_spec() -> bool {
        false
    }

    open spec fn from_spec(v: Parameter) -> String {
        arbitrary()
    }
}

} // verus!
