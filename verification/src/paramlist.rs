//! Lists of message parameters: parsing, rendering, and conversion into tuples.
use crate::parameters::{
    middle_check, middle_check_exec, trailing_check, trailing_check_exec, MiddleParam,
    ParamRef, Parameter, ParseMiddleParamError, ParseTrailingParamError, TrailingParam,
};
use crate::text::{
    chars_of, exec_split_word, find_from, lemma_find_from_bounds, lemma_skip_spaces_bounds,
    push_char, push_str, skip_spaces_from, split_word, string_of, in_set, CharSet,
};
use crate::validstr::TryFromStringError;
use vstd::prelude::*;

verus! {

/// The abstract content of a [`ParameterList`]: its middle parameters in
/// order, followed by an optional trailing parameter
pub struct ParamsView {
    pub middle: Seq<Seq<char>>,
    pub trailing: Option<Seq<char>>,
}

impl ParamsView {
    /// All parameters, in order
    pub open spec fn all(self) -> Seq<Seq<char>> {
        match self.trailing {
            Some(t) => self.middle.push(t),
            None => self.middle,
        }
    }

    /// Whether every parameter is valid for its position
    pub open spec fn wf(self) -> bool {
        &&& forall|i: int| 0 <= i < self.middle.len() ==> #[trigger] middle_check(self.middle[i]) is Ok
        &&& self.trailing matches Some(t) ==> trailing_check(t) is Ok
    }

    /// The items that a rendering of the list joins with spaces: the middle
    /// parameters as they are, and the trailing one behind a colon
    pub open spec fn items(self) -> Seq<Seq<char>> {
        match self.trailing {
            Some(t) => self.middle.push(seq![':'] + t),
            None => self.middle,
        }
    }
}

/// `items` joined with single spaces
pub open spec fn join_spaces(items: Seq<Seq<char>>) -> Seq<char>
    decreases items.len(),
{
    if items.len() == 0 {
        Seq::empty()
    } else if items.len() == 1 {
        items[0]
    } else {
        join_spaces(items.drop_last()) + seq![' '] + items.last()
    }
}

/// The text form of a parameter list
pub open spec fn render_params(v: ParamsView) -> Seq<char> {
    join_spaces(v.items())
}

/// Why a string is not a valid parameter list
#[derive(Clone, Copy, Debug, PartialEq, Eq, Hash)]
pub enum ParseParameterListError {
    Middle(ParseMiddleParamError),
    Trailing(ParseTrailingParamError),
}

/// Parses `s` into parameters, after the middle parameters `mids` already read
pub open spec fn parse_params_after(s: Seq<char>, mids: Seq<Seq<char>>) -> Result<
    ParamsView,
    ParseParameterListError,
>
    decreases s.len(),
{
    if s.len() == 0 {
        Ok(ParamsView { middle: mids, trailing: None })
    } else if s[0] == ':' {
        match trailing_check(s.drop_first()) {
            Err(e) => Err(ParseParameterListError::Trailing(e)),
            Ok(_) => Ok(ParamsView { middle: mids, trailing: Some(s.drop_first()) }),
        }
    } else {
        let (w, rest) = split_word(s);
        proof {
            lemma_split_word_shorter(s);
        }
        match middle_check(w) {
            Err(e) => Err(ParseParameterListError::Middle(e)),
            Ok(_) => parse_params_after(rest, mids.push(w)),
        }
    }
}

/// The parameter list that `s` spells, or why it spells none: a colon starts
/// the trailing parameter, which runs to the end; before it, space-separated
/// middle parameters.
pub open spec fn parse_params(s: Seq<char>) -> Result<ParamsView, ParseParameterListError> {
    parse_params_after(s, Seq::empty())
}

pub proof fn lemma_split_word_shorter(s: Seq<char>)
    requires
        s.len() > 0,
    ensures
        split_word(s).1.len() < s.len(),
{
    lemma_find_from_bounds(s, ' ', 0);
    if find_from(s, ' ', 0) < s.len() {
        lemma_skip_spaces_bounds(s, find_from(s, ' ', 0) + 1);
    }
}

/// A list of IRC message parameters: zero or more middle parameters followed
/// by an optional trailing parameter
#[derive(Debug, PartialEq, Eq, Hash)]
pub struct ParameterList {
    middle: Vec<MiddleParam>,
    trailing: Option<TrailingParam>,
}

impl View for ParameterList {
    type V = ParamsView;

    closed spec fn view(&self) -> ParamsView {
        ParamsView {
            middle: self.middle@.map_values(|m: MiddleParam| m@),
            trailing: match self.trailing {
                Some(t) => Some(t@),
                None => None,
            },
        }
    }
}

impl Clone for ParameterList {
    fn clone(&self) -> (r: Self)
        ensures
            r@ == self@,
    {
        proof {
            use_type_invariant(self);
        }
        let mut middle: Vec<MiddleParam> = Vec::new();
        let mut i: usize = 0;
        while i < self.middle.len()
            invariant
                0 <= i <= self.middle@.len(),
                middle@.len() == i,
                forall|j: int| 0 <= j < i ==> #[trigger] middle@[j] == self.middle@[j],
            decreases self.middle@.len() - i,
        {
            middle.push(self.middle[i].clone());
            i = i + 1;
        }
        let trailing = match &self.trailing {
            Some(t) => Some(t.clone()),
            None => None,
        };
        assert(middle@ =~= self.middle@);
        let r = ParameterList { middle, trailing };
        assert(r@.middle =~= self@.middle);
        r
    }
}

impl ParameterList {
    #[verifier::type_invariant]
    spec fn inv(self) -> bool {
        self@.wf()
    }

    /// An empty list
    pub fn new() -> (r: ParameterList)
        ensures
            r@.middle == Seq::<Seq<char>>::empty(),
            r@.trailing is None,
    {
        let r = ParameterList { middle: Vec::new(), trailing: None };
        assert(r@.middle =~= Seq::<Seq<char>>::empty());
        r
    }

    pub fn builder() -> (r: ParameterListBuilder)
        ensures
            r@.middle == Seq::<Seq<char>>::empty(),
            r@.trailing is None,
    {
        ParameterListBuilder::new()
    }

    /// The validity of every parameter in the list
    pub fn lemma_wf(&self)
        ensures
            self@.wf(),
    {
        proof {
            use_type_invariant(self);
        }
    }

    /// The number of parameters (saturating at `usize::MAX`)
    pub fn len(&self) -> (r: usize)
        ensures
            r as int == if self@.all().len() > usize::MAX {
                usize::MAX as int
            } else {
                self@.all().len() as int
            },
    {
        let n = self.middle.len();
        if self.trailing.is_some() {
            if n == usize::MAX {
                usize::MAX
            } else {
                n + 1
            }
        } else {
            n
        }
    }

    pub fn is_empty(&self) -> (r: bool)
        ensures
            r == (self@.all().len() == 0),
    {
        self.middle.len() == 0 && self.trailing.is_none()
    }

    /// The parameter at `index`, if any
    pub fn get(&self, index: usize) -> (r: Option<ParamRef<'_>>)
        ensures
            r is Some <==> index < self@.all().len(),
            r matches Some(p) ==> p@ == self@.all()[index as int] && (p is Middle <==> index
                < self@.middle.len()),
    {
        if index < self.middle.len() {
            Some(ParamRef::Middle(&self.middle[index]))
        } else if index == self.middle.len() {
            match &self.trailing {
                Some(t) => Some(ParamRef::Trailing(t)),
                None => None,
            }
        } else {
            None
        }
    }

    /// The last parameter, if any
    pub fn last(&self) -> (r: Option<ParamRef<'_>>)
        ensures
            r is Some <==> self@.all().len() > 0,
            r matches Some(p) ==> p@ == self@.all().last() && (p is Trailing <==> self@.trailing
                is Some),
    {
        match &self.trailing {
            Some(t) => Some(ParamRef::Trailing(t)),
            None => {
                if self.middle.len() == 0 {
                    None
                } else {
                    Some(ParamRef::Middle(&self.middle[self.middle.len() - 1]))
                }
            },
        }
    }

    /// All parameters, in order
    pub fn iter(&self) -> (r: Vec<ParamRef<'_>>)
        ensures
            r@.len() == self@.all().len(),
            forall|i: int| 0 <= i < r@.len() ==> (#[trigger] r@[i])@ == self@.all()[i] && (r@[i]
                is Middle <==> i < self@.middle.len()),
    {
        let mut out: Vec<ParamRef<'_>> = Vec::new();
        let mut i: usize = 0;
        while i < self.middle.len()
            invariant
                0 <= i <= self.middle@.len(),
                out@.len() == i,
                forall|j: int| 0 <= j < i ==> (#[trigger] out@[j])@ == self@.middle[j] && out@[j] is Middle,
            decreases self.middle@.len() - i,
        {
            out.push(ParamRef::Middle(&self.middle[i]));
            i = i + 1;
        }
        match &self.trailing {
            Some(t) => {
                out.push(ParamRef::Trailing(t));
            },
            None => {},
        }
        out
    }

    /// Parses `s` as a parameter list (see [`parse_params`])
    pub fn parse_str(s: &str) -> (r: Result<ParameterList, ParseParameterListError>)
        ensures
            match r {
                Ok(p) => parse_params(s@) == Ok::<ParamsView, ParseParameterListError>(p@),
                Err(e) => parse_params(s@) == Err::<ParamsView, ParseParameterListError>(e),
            },
    {
        let v = chars_of(s);
        let mut middle: Vec<MiddleParam> = Vec::new();
        let mut pos: usize = 0;
        assert(v@.skip(0) =~= v@);
        assert(middle@.map_values(|m: MiddleParam| m@) =~= Seq::<Seq<char>>::empty());
        loop
            invariant
                0 <= pos <= v@.len(),
                v@ == s@,
                forall|j: int| 0 <= j < middle@.len() ==> #[trigger] middle_check(middle@[j]@) is Ok,
                parse_params(s@) == parse_params_after(
                    v@.skip(pos as int),
                    middle@.map_values(|m: MiddleParam| m@),
                ),
            decreases v@.len() - pos,
        {
            let ghost rest = v@.skip(pos as int);
            if pos == v.len() {
                let r = ParameterList { middle, trailing: None };
                return Ok(r);
            }
            if v[pos] == ':' {
                let t = string_of(&v, pos + 1, v.len());
                assert(t@ =~= rest.drop_first());
                match trailing_check_exec(t.as_str()) {
                    Err(e) => {
                        return Err(ParseParameterListError::Trailing(e));
                    },
                    Ok(()) => {
                        let tp = match TrailingParam::try_from_string(t) {
                            Ok(tp) => tp,
                            Err(_) => {
                                return Err(ParseParameterListError::Trailing(ParseTrailingParamError));
                            },
                        };
                        let r = ParameterList { middle, trailing: Some(tp) };
                        return Ok(r);
                    },
                }
            }
            let tail = string_of(&v, pos, v.len());
            let tv = chars_of(tail.as_str());
            assert(tv@ =~= rest);
            let (we, rs) = exec_split_word(&tv);
            let w = string_of(&tv, 0, we);
            assert(w@ =~= rest.take(we as int));
            match MiddleParam::try_from_string(w) {
                Err(e) => {
                    return Err(ParseParameterListError::Middle(e.inner));
                },
                Ok(m) => {
                    let ghost old_views = middle@.map_values(|x: MiddleParam| x@);
                    proof {
                        lemma_split_word_shorter(rest);
                    }
                    middle.push(m);
                    assert(middle@.map_values(|x: MiddleParam| x@) =~= old_views.push(m@));
                    assert(v@.skip(pos + rs) =~= rest.skip(rs as int));
                    pos = pos + rs;
                },
            }
        }
    }

    /// The text form of the list: parameters joined with spaces, the
    /// trailing one behind a colon
    pub fn to_string(&self) -> (r: String)
        ensures
            r@ == render_params(self@),
    {
        let items = self.iter();
        let mut s = String::new();
        let mut i: usize = 0;
        while i < items.len()
            invariant
                0 <= i <= items@.len(),
                items@.len() == self@.all().len(),
                forall|j: int| 0 <= j < items@.len() ==> (#[trigger] items@[j])@ == self@.all()[j]
                    && (items@[j] is Middle <==> j < self@.middle.len()),
                s@ == join_spaces(self@.items().take(i as int)),
            decreases items@.len() - i,
        {
            let p = &items[i];
            let ghost before = s@;
            if i > 0 {
                push_char(&mut s, ' ');
            }
            if !p.is_middle() {
                push_char(&mut s, ':');
            }
            push_str(&mut s, p.as_str());
            proof {
                let its = self@.items();
                assert(its.take(i + 1).drop_last() =~= its.take(i as int));
                assert(its.take(i + 1).last() == its[i as int]);
                if i < self@.middle.len() {
                    assert(its[i as int] == self@.all()[i as int]);
                } else {
                    assert(its[i as int] =~= seq![':'] + self@.all()[i as int]);
                }
                if i == 0 {
                    assert(s@ =~= join_spaces(its.take(1)));
                } else {
                    assert(s@ =~= join_spaces(its.take(i as int)) + seq![' '] + its[i as int]);
                }
            }
            i = i + 1;
        }
        assert(self@.items().take(items@.len() as int) =~= self@.items());
        s
    }
}

impl std::str::FromStr for ParameterList {
    type Err = ParseParameterListError;

    fn from_str(s: &str) -> Result<ParameterList, ParseParameterListError> {
        ParameterList::parse_str(s)
    }
}

/// Builds a [`ParameterList`] one parameter at a time
#[derive(Debug, PartialEq, Eq, Hash)]
pub struct ParameterListBuilder(ParameterList);

impl View for ParameterListBuilder {
    type V = ParamsView;

    closed spec fn view(&self) -> ParamsView {
        self.0@
    }
}

impl ParameterListBuilder {
    pub fn new() -> (r: ParameterListBuilder)
        ensures
            r@.middle == Seq::<Seq<char>>::empty(),
            r@.trailing is None,
    {
        ParameterListBuilder(ParameterList::new())
    }

    pub fn push_middle(&mut self, param: MiddleParam)
        ensures
            final(self)@.middle == old(self)@.middle.push(param@),
            final(self)@.trailing == old(self)@.trailing,
    {
        proof {
            use_type_invariant(&param);
        }
        let tmp = param.as_str();
        let ghost m = param@;
        let mut list = ParameterList::new();
        std::mem::swap(&mut list, &mut self.0);
        proof {
            use_type_invariant(&list);
        }
        let ghost old_views = list.middle@.map_values(|x: MiddleParam| x@);
        let ParameterList { mut middle, trailing } = list;
        middle.push(param);
        assert(middle@.map_values(|x: MiddleParam| x@) =~= old_views.push(m));
        let new_list = ParameterList { middle, trailing };
        self.0 = new_list;
    }

    pub fn with_middle(self, param: MiddleParam) -> (r: Self)
        ensures
            r@.middle == self@.middle.push(param@),
            r@.trailing == self@.trailing,
    {
        let mut b = self;
        b.push_middle(param);
        b
    }

    pub fn maybe_with_trailing(self, param: Option<TrailingParam>) -> (r: ParameterList)
        ensures
            r@.middle == self@.middle,
            r@.trailing == match param {
                Some(p) => Some(p@),
                None => None::<Seq<char>>,
            },
    {
        let ParameterListBuilder(list) = self;
        proof {
            use_type_invariant(&list);
        }
        let ParameterList { middle, trailing: _ } = list;
        match param {
            Some(p) => {
                proof {
                    use_type_invariant(&p);
                }
                ParameterList { middle, trailing: Some(p) }
            },
            None => ParameterList { middle, trailing: None },
        }
    }

    pub fn with_trailing(self, param: TrailingParam) -> (r: ParameterList)
        ensures
            r@.middle == self@.middle,
            r@.trailing == Some(param@),
    {
        self.maybe_with_trailing(Some(param))
    }

    /// Appends the middle parameters of `params` and takes its trailing parameter
    pub fn with_list(self, params: ParameterList) -> (r: ParameterList)
        ensures
            r@.middle == self@.middle + params@.middle,
            r@.trailing == params@.trailing,
    {
        let ParameterListBuilder(list) = self;
        proof {
            use_type_invariant(&list);
            use_type_invariant(&params);
        }
        let ghost v1 = list@;
        let ghost v2 = params@;
        let ParameterList { mut middle, trailing: _ } = list;
        let ParameterList { middle: mut more, trailing } = params;
        let ghost mv1 = middle@;
        let ghost mv2 = more@;
        middle.append(&mut more);
        assert(middle@ =~= mv1 + mv2);
        assert(middle@.map_values(|x: MiddleParam| x@) =~= v1.middle + v2.middle);
        let r = ParameterList { middle, trailing };
        r
    }

    pub fn finish(self) -> (r: ParameterList)
        ensures
            r@ == self@,
    {
        self.0
    }
}

/// The first `c` at or after `i` is at `k` when none lies in between.
pub proof fn lemma_find_from_at(s: Seq<char>, c: char, i: int, k: int)
    requires
        0 <= i <= k <= s.len(),
        forall|j: int| i <= j < k ==> s[j] != c,
        k < s.len() ==> s[k] == c,
    ensures
        find_from(s, c, i) == k,
    decreases k - i,
{
    if i < k {
        lemma_find_from_at(s, c, i + 1, k);
    }
}

/// A word without spaces, a space, and text not starting with a space split
/// back into the word and the text.
pub proof fn lemma_split_word_join(w: Seq<char>, r: Seq<char>)
    requires
        forall|j: int| 0 <= j < w.len() ==> w[j] != ' ',
        r.len() == 0 || r[0] != ' ',
    ensures
        split_word(w + seq![' '] + r) == (w, r),
{
    let x = w + seq![' '] + r;
    lemma_find_from_at(x, ' ', 0, w.len() as int);
    assert(skip_spaces_from(x, w.len() + 1 as int) == w.len() + 1);
    assert(x.take(w.len() as int) =~= w);
    assert(x.skip(w.len() + 1 as int) =~= r);
}

/// A word without spaces splits into itself and nothing.
pub proof fn lemma_split_word_whole(w: Seq<char>)
    requires
        forall|j: int| 0 <= j < w.len() ==> w[j] != ' ',
    ensures
        split_word(w) == (w, Seq::<char>::empty()),
{
    lemma_find_from_at(w, ' ', 0, w.len() as int);
    assert(w.take(w.len() as int) =~= w);
}

/// `join_spaces` unfolded from the front
pub proof fn lemma_join_front(items: Seq<Seq<char>>)
    requires
        items.len() >= 2,
    ensures
        join_spaces(items) == items[0] + seq![' '] + join_spaces(items.drop_first()),
    decreases items.len(),
{
    if items.len() == 2 {
        assert(items.drop_last() =~= seq![items[0]]);
        assert(items.drop_first() =~= seq![items[1]]);
        assert(join_spaces(items.drop_last()) == items[0]);
        assert(join_spaces(items.drop_first()) == items[1]);
    } else {
        let dl = items.drop_last();
        let df = items.drop_first();
        lemma_join_front(dl);
        assert(dl.drop_first() =~= df.drop_last());
        assert(df.last() == items.last());
        assert(dl[0] == items[0]);
        assert(join_spaces(df) == join_spaces(df.drop_last()) + seq![' '] + df.last());
        assert(join_spaces(items) == join_spaces(dl) + seq![' '] + items.last());
        assert(join_spaces(items) =~= items[0] + seq![' '] + join_spaces(df));
    }
}

/// A join starts with the first character of its first item.
pub proof fn lemma_join_first(items: Seq<Seq<char>>)
    requires
        items.len() >= 1,
        items[0].len() >= 1,
    ensures
        join_spaces(items).len() >= 1,
        join_spaces(items)[0] == items[0][0],
    decreases items.len(),
{
    if items.len() >= 2 {
        lemma_join_front(items);
    }
}

proof fn lemma_middle_facts(w: Seq<char>)
    requires
        middle_check(w) is Ok,
    ensures
        w.len() >= 1,
        w[0] != ':',
        w[0] != ' ',
        forall|j: int| 0 <= j < w.len() ==> w[j] != ' ',
{
    assert forall|j: int| 0 <= j < w.len() implies w[j] != ' ' by {
        if w[j] == ' ' {
            assert(in_set(w[j], CharSet::NulCrLfSpace));
        }
    }
}

proof fn lemma_parse_rendered(ms: Seq<Seq<char>>, t: Option<Seq<char>>, acc: Seq<Seq<char>>)
    requires
        (ParamsView { middle: ms, trailing: t }).wf(),
    ensures
        parse_params_after(join_spaces((ParamsView { middle: ms, trailing: t }).items()), acc)
            == Ok::<ParamsView, ParseParameterListError>(ParamsView { middle: acc + ms, trailing: t }),
    decreases ms.len(),
{
    let v = ParamsView { middle: ms, trailing: t };
    let items = v.items();
    if ms.len() == 0 {
        assert(acc + ms =~= acc);
        match t {
            Some(tt) => {
                assert(items =~= seq![seq![':'] + tt]);
                assert((seq![':'] + tt).drop_first() =~= tt);
            },
            None => {
                assert(items =~= Seq::<Seq<char>>::empty());
            },
        }
    } else {
        let m0 = ms[0];
        assert(middle_check(ms[0]) is Ok);
        lemma_middle_facts(m0);
        let v2 = ParamsView { middle: ms.drop_first(), trailing: t };
        assert(v2.wf()) by {
            assert forall|i: int| 0 <= i < v2.middle.len() implies #[trigger] middle_check(
                v2.middle[i],
            ) is Ok by {
                assert(v2.middle[i] == ms[i + 1]);
            }
        }
        assert(items =~= seq![m0] + v2.items());
        assert(acc.push(m0) + ms.drop_first() =~= acc + ms);
        if items.len() == 1 {
            assert(ms.len() == 1 && t is None);
            assert(items =~= seq![m0]);
            lemma_split_word_whole(m0);
            assert(ms.drop_first() =~= Seq::<Seq<char>>::empty());
        } else {
            lemma_join_front(items);
            assert(items.drop_first() =~= v2.items());
            let rest = join_spaces(v2.items());
            assert(v2.items().len() >= 1);
            if v2.middle.len() > 0 {
                assert(middle_check(v2.middle[0]) is Ok);
                lemma_middle_facts(v2.middle[0]);
                assert(v2.items()[0] == v2.middle[0]);
            } else {
                assert(v2.items()[0] == seq![':'] + t->0);
            }
            lemma_join_first(v2.items());
            lemma_split_word_join(m0, rest);
            lemma_parse_rendered(ms.drop_first(), t, acc.push(m0));
        }
    }
}

/// Rendering a valid parameter list and parsing the text gives back the same list.
pub proof fn lemma_params_roundtrip(v: ParamsView)
    requires
        v.wf(),
    ensures
        parse_params(render_params(v)) == Ok::<ParamsView, ParseParameterListError>(v),
{
    lemma_parse_rendered(v.middle, v.trailing, Seq::empty());
    assert(Seq::<Seq<char>>::empty() + v.middle =~= v.middle);
}

/// Why a parameter list does not fit a fixed shape
#[derive(Clone, Copy, Debug, PartialEq, Eq, Hash)]
pub enum TryFromParameterListError {
    ExactSizeMismatch { required: usize, received: usize },
    RangeSizeMismatch { min_required: usize, max_required: usize, received: usize },
    TrailingNotMiddle,
}

/// The saturating length that [`ParameterList::len`] reports
pub open spec fn sat_len(v: ParamsView) -> usize {
    if v.all().len() > usize::MAX {
        usize::MAX
    } else {
        v.all().len() as usize
    }
}

/// The error for a list whose length is not `required`
pub open spec fn exact_mismatch(required: usize, v: ParamsView) -> TryFromParameterListError {
    TryFromParameterListError::ExactSizeMismatch { required, received: sat_len(v) }
}

/// The error for a list whose length is outside `min_required..=max_required`
pub open spec fn range_mismatch(
    min_required: usize,
    max_required: usize,
    v: ParamsView,
) -> TryFromParameterListError {
    TryFromParameterListError::RangeSizeMismatch { min_required, max_required, received: sat_len(v) }
}

impl ParameterList {
    /// Takes the list apart into its middle parameters and trailing parameter
    fn into_fields(self) -> (r: (Vec<MiddleParam>, Option<TrailingParam>))
        ensures
            r.0@.map_values(|m: MiddleParam| m@) == self@.middle,
            r.1 matches Some(t) ==> self@.trailing == Some(t@),
            r.1 is None ==> self@.trailing is None,
    {
        let ParameterList { middle, trailing } = self;
        (middle, trailing)
    }

    /// Succeeds on an empty list
    pub fn try_into_unit(self) -> (r: Result<(), TryFromParameterListError>)
        ensures
            r is Ok <==> self@.all().len() == 0,
            r matches Err(e) ==> e == exact_mismatch(0, self@),
    {
        if self.is_empty() {
            Ok(())
        } else {
            Err(TryFromParameterListError::ExactSizeMismatch { required: 0, received: self.len() })
        }
    }

    /// The single parameter of a one-element list, as a trailing parameter
    pub fn try_into_trailing(self) -> (r: Result<(TrailingParam,), TryFromParameterListError>)
        ensures
            r is Ok <==> self@.all().len() == 1,
            r matches Ok(t) ==> t.0@ == self@.all()[0],
            r matches Err(e) ==> e == exact_mismatch(1, self@),
    {
        let n = self.len();
        if n == 1 {
            let (mut middle, trailing) = self.into_fields();
            if middle.len() == 1 {
                let m = middle.remove(0);
                Ok((TrailingParam::from_middle(m),))
            } else {
                match trailing {
                    Some(t) => Ok((t,)),
                    None => {
                        assert(false);
                        Err(TryFromParameterListError::TrailingNotMiddle)
                    },
                }
            }
        } else {
            Err(TryFromParameterListError::ExactSizeMismatch { required: 1, received: n })
        }
    }

    /// The parameter of a list of at most one element, as a trailing parameter
    pub fn try_into_opt_trailing(self) -> (r: Result<(Option<TrailingParam>,), TryFromParameterListError>)
        ensures
            r is Ok <==> self@.all().len() <= 1,
            r matches Ok(t) ==> (t.0 is Some <==> self@.all().len() == 1) && (t.0 matches Some(
                p,
            ) ==> p@ == self@.all()[0]),
            r matches Err(e) ==> e == range_mismatch(0, 1, self@),
    {
        let n = self.len();
        let (mut middle, trailing) = self.into_fields();
        if middle.len() == 1 && trailing.is_none() {
            let m = middle.remove(0);
            Ok((Some(TrailingParam::from_middle(m)),))
        } else if middle.len() == 0 {
            Ok((trailing,))
        } else {
            Err(
                TryFromParameterListError::RangeSizeMismatch {
                    min_required: 0,
                    max_required: 1,
                    received: n,
                },
            )
        }
    }

    /// The two parameters of a two-element list: a middle and a trailing parameter
    pub fn try_into_middle_trailing(self) -> (r: Result<
        (MiddleParam, TrailingParam),
        TryFromParameterListError,
    >)
        ensures
            r is Ok <==> self@.all().len() == 2,
            r matches Ok(t) ==> t.0@ == self@.all()[0] && t.1@ == self@.all()[1],
            r matches Err(e) ==> e == exact_mismatch(2, self@),
    {
        let n = self.len();
        if n == 2 {
            let (mut middle, trailing) = self.into_fields();
            let m1 = middle.remove(0);
            if middle.len() == 1 {
                let m2 = middle.remove(0);
                Ok((m1, TrailingParam::from_middle(m2)))
            } else {
                match trailing {
                    Some(t) => Ok((m1, t)),
                    None => {
                        assert(false);
                        Err(TryFromParameterListError::TrailingNotMiddle)
                    },
                }
            }
        } else {
            Err(TryFromParameterListError::ExactSizeMismatch { required: 2, received: n })
        }
    }

    /// A middle parameter and an optional trailing parameter: from two middle
    /// parameters, from one middle parameter and an optional trailing one, or
    /// from a lone trailing parameter that is also a valid middle parameter
    pub fn try_into_middle_opt_trailing(self) -> (r: Result<
        (MiddleParam, Option<TrailingParam>),
        TryFromParameterListError,
    >)
        ensures
            r is Ok <==> (1 <= self@.all().len() <= 2 && !(self@.middle.len() == 0 && middle_check(
                self@.trailing->0,
            ) is Err)),
            r matches Ok(t) ==> t.0@ == self@.all()[0] && (t.1 is Some <==> self@.all().len() == 2)
                && (t.1 matches Some(p) ==> p@ == self@.all()[1]),
            r matches Err(e) ==> if self@.middle.len() == 0 && self@.trailing is Some {
                e == TryFromParameterListError::TrailingNotMiddle
            } else {
                e == range_mismatch(1, 2, self@)
            },
    {
        let n = self.len();
        let (mut middle, trailing) = self.into_fields();
        if middle.len() == 2 && trailing.is_none() {
            let m1 = middle.remove(0);
            let m2 = middle.remove(0);
            Ok((m1, Some(TrailingParam::from_middle(m2))))
        } else if middle.len() == 1 {
            let m1 = middle.remove(0);
            Ok((m1, trailing))
        } else if middle.len() == 0 && trailing.is_some() {
            let t = match trailing {
                Some(t) => t,
                None => {
                    return Err(TryFromParameterListError::TrailingNotMiddle);
                },
            };
            match MiddleParam::try_from_string(t.into_inner()) {
                Ok(m) => Ok((m, None)),
                Err(_) => Err(TryFromParameterListError::TrailingNotMiddle),
            }
        } else {
            Err(
                TryFromParameterListError::RangeSizeMismatch {
                    min_required: 1,
                    max_required: 2,
                    received: n,
                },
            )
        }
    }

    /// Two middle parameters and an optional trailing parameter
    pub fn try_into_middle2_opt_trailing(self) -> (r: Result<
        (MiddleParam, MiddleParam, Option<TrailingParam>),
        TryFromParameterListError,
    >)
        ensures
            r is Ok <==> (self@.middle.len() >= 2 && 2 <= self@.all().len() <= 3),
            r matches Ok(t) ==> t.0@ == self@.all()[0] && t.1@ == self@.all()[1] && (t.2 is Some
                <==> self@.all().len() == 3) && (t.2 matches Some(p) ==> p@ == self@.all()[2]),
            r matches Err(e) ==> e == range_mismatch(2, 3, self@),
    {
        let n = self.len();
        let (mut middle, trailing) = self.into_fields();
        if middle.len() == 3 && trailing.is_none() {
            let m1 = middle.remove(0);
            let m2 = middle.remove(0);
            let m3 = middle.remove(0);
            Ok((m1, m2, Some(TrailingParam::from_middle(m3))))
        } else if middle.len() == 2 {
            let m1 = middle.remove(0);
            let m2 = middle.remove(0);
            Ok((m1, m2, trailing))
        } else {
            Err(
                TryFromParameterListError::RangeSizeMismatch {
                    min_required: 2,
                    max_required: 3,
                    received: n,
                },
            )
        }
    }

    /// Two middle parameters and a trailing parameter, from a three-element list
    pub fn try_into_middle2_trailing(self) -> (r: Result<
        (MiddleParam, MiddleParam, TrailingParam),
        TryFromParameterListError,
    >)
        ensures
            r is Ok <==> self@.all().len() == 3,
            r matches Ok(t) ==> t.0@ == self@.all()[0] && t.1@ == self@.all()[1] && t.2@
                == self@.all()[2],
            r matches Err(e) ==> e == exact_mismatch(3, self@),
    {
        let n = self.len();
        if n == 3 {
            let (mut middle, trailing) = self.into_fields();
            let m1 = middle.remove(0);
            let m2 = middle.remove(0);
            if middle.len() == 1 {
                let m3 = middle.remove(0);
                Ok((m1, m2, TrailingParam::from_middle(m3)))
            } else {
                match trailing {
                    Some(t) => Ok((m1, m2, t)),
                    None => {
                        assert(false);
                        Err(TryFromParameterListError::TrailingNotMiddle)
                    },
                }
            }
        } else {
            Err(TryFromParameterListError::ExactSizeMismatch { required: 3, received: n })
        }
    }

    /// Three middle parameters and a trailing parameter, from a four-element list
    pub fn try_into_middle3_trailing(self) -> (r: Result<
        (MiddleParam, MiddleParam, MiddleParam, TrailingParam),
        TryFromParameterListError,
    >)
        ensures
            r is Ok <==> self@.all().len() == 4,
            r matches Ok(t) ==> t.0@ == self@.all()[0] && t.1@ == self@.all()[1] && t.2@
                == self@.all()[2] && t.3@ == self@.all()[3],
            r matches Err(e) ==> e == exact_mismatch(4, self@),
    {
        let n = self.len();
        if n == 4 {
            let (mut middle, trailing) = self.into_fields();
            let m1 = middle.remove(0);
            let m2 = middle.remove(0);
            let m3 = middle.remove(0);
            if middle.len() == 1 {
                let m4 = middle.remove(0);
                Ok((m1, m2, m3, TrailingParam::from_middle(m4)))
            } else {
                match trailing {
                    Some(t) => Ok((m1, m2, m3, t)),
                    None => {
                        assert(false);
                        Err(TryFromParameterListError::TrailingNotMiddle)
                    },
                }
            }
        } else {
            Err(TryFromParameterListError::ExactSizeMismatch { required: 4, received: n })
        }
    }
}

/// The parameters of a list, taken out one at a time from either end
#[derive(Debug)]
pub struct ParameterListIntoIter {
    items: Vec<Parameter>,
}

impl View for ParameterListIntoIter {
    type V = Seq<Parameter>;

    closed spec fn view(&self) -> Seq<Parameter> {
        self.items@
    }
}

/// The parameters of `v` as [`Parameter`] values, in order
pub open spec fn params_as_items(v: ParamsView, ps: Seq<Parameter>) -> bool {
    &&& ps.len() == v.all().len()
    &&& forall|i: int| 0 <= i < ps.len() ==> (#[trigger] ps[i])@ == v.all()[i] && (ps[i] is Middle
        <==> i < v.middle.len())
}

impl ParameterListIntoIter {
    #[verifier::type_invariant]
    spec fn inv(self) -> bool {
        forall|i: int| 0 <= i < self.items@.len() - 1 ==> (#[trigger] self.items@[i]) is Middle
    }

    fn new(params: ParameterList) -> (r: ParameterListIntoIter)
        ensures
            params_as_items(params@, r@),
    {
        let ghost v = params@;
        let (middle, trailing) = params.into_fields();
        let mut items: Vec<Parameter> = Vec::new();
        let mut middle = middle;
        let ghost mids = middle@;
        let mut i: usize = 0;
        let n = middle.len();
        while i < n
            invariant
                0 <= i <= n == mids.len(),
                middle@ == mids.skip(i as int),
                items@.len() == i,
                forall|j: int| 0 <= j < i ==> (#[trigger] items@[j]) == Parameter::Middle(mids[j]),
            decreases n - i,
        {
            assert(middle@[0] == mids[i as int]);
            let m = middle.remove(0);
            assert(middle@ =~= mids.skip(i + 1));
            items.push(Parameter::Middle(m));
            i = i + 1;
        }
        match trailing {
            Some(t) => items.push(Parameter::Trailing(t)),
            None => {},
        }
        assert(mids.map_values(|m: MiddleParam| m@) == v.middle);
        let r = ParameterListIntoIter { items };
        r
    }

    /// The number of parameters left
    pub fn len(&self) -> (r: usize)
        ensures
            r == self@.len(),
    {
        self.items.len()
    }

    /// Takes out the first parameter left, if any
    pub fn next(&mut self) -> (r: Option<Parameter>)
        ensures
            old(self)@.len() == 0 ==> r is None && final(self)@ == old(self)@,
            old(self)@.len() > 0 ==> r == Some(old(self)@[0]) && final(self)@ == old(self)@.drop_first(),
    {
        proof {
            use_type_invariant(&*self);
        }
        if self.items.len() == 0 {
            None
        } else {
            let mut items = Vec::new();
            std::mem::swap(&mut items, &mut self.items);
            let p = items.remove(0);
            self.items = items;
            Some(p)
        }
    }

    /// Takes out the last parameter left, if any
    pub fn next_back(&mut self) -> (r: Option<Parameter>)
        ensures
            old(self)@.len() == 0 ==> r is None && final(self)@ == old(self)@,
            old(self)@.len() > 0 ==> r == Some(old(self)@.last()) && final(self)@ == old(self)@.drop_last(),
    {
        proof {
            use_type_invariant(&*self);
        }
        let mut items = Vec::new();
        std::mem::swap(&mut items, &mut self.items);
        let r = items.pop();
        self.items = items;
        r
    }

    /// Gathers the parameters left back into a list
    pub fn into_parameter_list(self) -> (r: ParameterList)
        ensures
            r@.all() == self@.map_values(|p: Parameter| p@),
            r@.middle.len() == if self@.len() > 0 && self@.last() is Trailing {
                self@.len() - 1
            } else {
                self@.len() as int
            },
    {
        proof {
            use_type_invariant(&self);
        }
        let ghost ps = self@;
        let ParameterListIntoIter { items } = self;
        let mut items = items;
        let mut builder = ParameterList::builder();
        let n = items.len();
        let mut i: usize = 0;
        while i < n
            invariant
                0 <= i <= n == ps.len(),
                ps == self@,
                items@ == ps.skip(i as int),
                forall|j: int| 0 <= j < n - 1 ==> (#[trigger] ps[j]) is Middle,
                forall|j: int| 0 <= j < i ==> (#[trigger] ps[j]) is Middle,
                builder@.trailing is None,
                builder@.middle == ps.take(i as int).map_values(|p: Parameter| p@),
            decreases n - i,
        {
            assert(items@[0] == ps[i as int]);
            let p = items.remove(0);
            assert(items@ =~= ps.skip(i + 1));
            assert(ps.take(i + 1) =~= ps.take(i as int).push(ps[i as int]));
            match p {
                Parameter::Middle(m) => {
                    builder.push_middle(m);
                },
                Parameter::Trailing(t) => {
                    let ghost tv = t@;
                    assert(tv == ps[i as int]@);
                    let r = builder.with_trailing(t);
                    assert(i == n - 1);
                    assert(ps.take(i as int) =~= ps.drop_last());
                    assert(r@.all() =~= ps.map_values(|p: Parameter| p@));
                    assert(ps.last() is Trailing);
                    return r;
                },
            }
            i = i + 1;
        }
        let r = builder.finish();
        assert(ps.take(n as int) =~= ps);
        assert(n > 0 ==> ps.last() is Middle);
        r
    }
}

impl ParameterList {
    /// The parameters of the list, to be taken out one at a time
    pub fn into_iter(self) -> (r: ParameterListIntoIter)
        ensures
            params_as_items(self@, r@),
    {
        ParameterListIntoIter::new(self)
    }
}

/// Taking a list apart into [`Parameter`]s and gathering them back gives the
/// same list: any `w` that [`ParameterListIntoIter::into_parameter_list`] may
/// return for the items of `v` equals `v`.
pub proof fn lemma_into_iter_roundtrip(v: ParamsView, ps: Seq<Parameter>, w: ParamsView)
    requires
        params_as_items(v, ps),
        w.all() == ps.map_values(|p: Parameter| p@),
        w.middle.len() == if ps.len() > 0 && ps.last() is Trailing {
            ps.len() - 1
        } else {
            ps.len() as int
        },
    ensures
        w == v,
{
    assert(w.all().len() == v.all().len());
    if v.trailing is Some {
        assert(ps.last() is Trailing);
        assert(w.trailing is Some);
        assert(w.middle =~= v.middle) by {
            assert forall|i: int| 0 <= i < w.middle.len() implies w.middle[i] == v.middle[i] by {
                assert(w.all()[i] == ps[i]@);
            }
        }
        assert(w.all().last() == v.all().last());
    } else {
        assert(ps.len() > 0 ==> ps.last() is Middle);
        assert(w.trailing is None);
        assert(w.middle =~= v.middle) by {
            assert forall|i: int| 0 <= i < w.middle.len() implies w.middle[i] == v.middle[i] by {
                assert(w.all()[i] == ps[i]@);
            }
        }
    }
}

} // verus!
