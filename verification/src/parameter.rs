//! A single parameter string as it may stand anywhere in a message.
use crate::text::{has_in_set, in_set, str_has_in_set, string_from, CharSet};
use crate::validstr::TryFromStringError;
use vstd::prelude::*;

verus! {

/// A string that contains NUL, CR, or LF
#[derive(Clone, Copy, Debug, PartialEq, Eq, Hash)]
pub struct ParameterError;

/// A message parameter: without NUL, CR, or LF
#[derive(Debug, PartialEq, Eq, Hash)]
pub struct Parameter(String);

impl View for Parameter {
    type V = Seq<char>;

    closed spec fn view(&self) -> Seq<char> {
        self.0@
    }
}

/// How `s` fares as a [`Parameter`]
pub open spec fn parameter_check(s: Seq<char>) -> Result<(), ParameterError> {
    if has_in_set(s, CharSet::NulCrLf) {
        Err(ParameterError)
    } else {
        Ok(())
    }
}

/// A parameter holds none of NUL, CR, and LF
pub proof fn lemma_parameter_chars(s: Seq<char>)
    ensures
        parameter_check(s) is Ok <==> {
            &&& forall|i: int| 0 <= i < s.len() ==> !(s[i] == '\0' || s[i] == '\r' || s[i] == '\n')
        },
        ({
            &&& exists|i: int| 0 <= i < s.len() && (s[i] == '\0' || s[i] == '\r' || s[i] == '\n')
        }) ==> parameter_check(s) == Err::<(), ParameterError>(ParameterError),
{
    if has_in_set(s, CharSet::NulCrLf) {
        let i = choose|i: int| 0 <= i < s.len() && #[trigger] in_set(s[i], CharSet::NulCrLf);
        assert((s[i] == '\0' || s[i] == '\r' || s[i] == '\n'));
    } else {
        assert forall|i: int| 0 <= i < s.len() implies !(s[i] == '\0' || s[i] == '\r' || s[i] == '\n') by {
            assert(!in_set(s[i], CharSet::NulCrLf));
        }
    }
}

impl Parameter {
    #[verifier::type_invariant]
    pub(crate) open spec fn inv(self) -> bool {
        parameter_check(self@) is Ok
    }

    /// Validates `string` as a [`Parameter`], returning it back on failure
    pub fn try_from_string(string: String) -> (r: Result<Parameter, TryFromStringError<ParameterError>>)
        ensures
            r is Ok <==> parameter_check(string@) is Ok,
            r matches Ok(v) ==> v@ == string@,
            r matches Err(e) ==> parameter_check(string@) == Err::<(), ParameterError>(e.inner) && e.string@ == string@,
    {
        match parameter_check_exec(string.as_str()) {
            Ok(()) => Ok(Parameter(string)),
            Err(inner) => Err(TryFromStringError { inner, string }),
        }
    }

    /// Parses `s` as a [`Parameter`]
    pub fn parse_str(s: &str) -> (r: Result<Parameter, ParameterError>)
        ensures
            r is Ok <==> parameter_check(s@) is Ok,
            r matches Ok(v) ==> v@ == s@,
            r matches Err(e) ==> parameter_check(s@) == Err::<(), ParameterError>(e),
    {
        match parameter_check_exec(s) {
            Ok(()) => Ok(Parameter(crate::text::string_from(s))),
            Err(e) => Err(e),
        }
    }

    pub fn as_str(&self) -> (r: &str)
        ensures
            r@ == self@,
            parameter_check(self@) is Ok,
    {
        proof {
            use_type_invariant(self);
        }
        self.0.as_str()
    }

    pub fn into_inner(self) -> (r: String)
        ensures
            r@ == self@,
            parameter_check(self@) is Ok,
    {
        proof {
            use_type_invariant(&self);
        }
        self.0
    }

}

impl Clone for Parameter {
    fn clone(&self) -> (r: Self)
        ensures
            r == *self,
    {
        proof {
            use_type_invariant(self);
        }
        Parameter(self.0.clone())
    }
}

impl std::str::FromStr for Parameter {
    type Err = ParameterError;

    fn from_str(s: &str) -> Result<Parameter, ParameterError> {
        Parameter::parse_str(s)
    }
}

/// Checks `s` as [`parameter_check`] does
pub fn parameter_check_exec(s: &str) -> (r: Result<(), ParameterError>)
    ensures
        r == parameter_check(s@),
{
    if str_has_in_set(s, CharSet::NulCrLf) {
        Err(ParameterError)
    } else {
        Ok(())
    }
}

/// Whether `s`, as a parameter, can only stand last: it is empty, starts
/// with a colon, or contains a space
pub open spec fn is_final_param(s: Seq<char>) -> bool {
    s.len() == 0 || s[0] == ':' || s.contains(' ')
}

impl Parameter {
    pub fn is_middle(&self) -> (r: bool)
        ensures
            r == !is_final_param(self@),
    {
        !self.is_final()
    }

    pub fn is_final(&self) -> (r: bool)
        ensures
            r == is_final_param(self@),
    {
        let v = crate::text::chars_of(self.as_str());
        if v.len() == 0 || v[0] == ':' {
            return true;
        }
        let mut i: usize = 0;
        while i < v.len()
            invariant
                0 <= i <= v@.len(),
                v@ == self@,
                forall|j: int| 0 <= j < i ==> v@[j] != ' ',
            decreases v@.len() - i,
        {
            if v[i] == ' ' {
                assert(v@.contains(' ')) by {
                    assert(v@[i as int] == ' ');
                }
                return true;
            }
            i = i + 1;
        }
        false
    }
}

} // verus!
