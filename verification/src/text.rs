//! Character-level helpers shared by the parsers.
use vstd::prelude::*;
use vstd::std_specs::iter::IteratorSpec;

verus! {

broadcast use vstd::string::group_string_axioms;

/// The sets of characters that the validators of this crate test for.
#[derive(Clone, Copy, Debug, PartialEq, Eq)]
pub enum CharSet {
    /// NUL, CR, LF
    NulCrLf,
    /// NUL, CR, LF, SPACE
    NulCrLfSpace,
    /// NUL, CR, LF, comma
    NulCrLfComma,
    /// NUL, Ctrl-A, CR, LF, SPACE
    NulCtrlACrLfSpace,
    /// NUL, Ctrl-A, CR, LF
    NulCtrlACrLf,
    /// The characters that a nickname may not start with
    NickStart,
    /// The characters that a nickname may not contain
    NickBad,
    /// The characters that a channel name may not contain
    ChannelBad,
    /// The characters that a username may not contain
    UserBad,
    /// Characters other than ASCII letters, `+`, and `-`
    NotModeChar,
}

/// Whether `c` belongs to the set `cs`
pub open spec fn in_set(c: char, cs: CharSet) -> bool {
    match cs {
        CharSet::NulCrLf => c == '\0' || c == '\r' || c == '\n',
        CharSet::NulCrLfSpace => c == '\0' || c == '\r' || c == '\n' || c == ' ',
        CharSet::NulCrLfComma => c == '\0' || c == '\r' || c == '\n' || c == ',',
        CharSet::NulCtrlACrLfSpace => c == '\0' || c == '\x01' || c == '\r' || c == '\n' || c
            == ' ',
        CharSet::NulCtrlACrLf => c == '\0' || c == '\x01' || c == '\r' || c == '\n',
        CharSet::NickStart => c == '$' || c == ':' || c == '#' || c == '&' || c == '~' || c == '@'
            || c == '%' || c == '+',
        CharSet::NickBad => c == '\0' || c == '\r' || c == '\n' || c == ' ' || c == ',' || c
            == '*' || c == '?' || c == '!' || c == '@',
        CharSet::ChannelBad => c == '\0' || c == '\r' || c == '\n' || c == ' ' || c == '\x07'
            || c == ',',
        CharSet::UserBad => c == '\0' || c == '\r' || c == '\n' || c == ' ' || c == '@',
        CharSet::NotModeChar => !(is_ascii_alpha(c) || c == '+' || c == '-'),
    }
}

pub open spec fn is_ascii_alpha(c: char) -> bool {
    ('a' <= c && c <= 'z') || ('A' <= c && c <= 'Z')
}

pub open spec fn is_ascii_digit(c: char) -> bool {
    '0' <= c && c <= '9'
}

pub open spec fn is_hex_digit(c: char) -> bool {
    is_ascii_digit(c) || ('a' <= c && c <= 'f') || ('A' <= c && c <= 'F')
}

/// Whether some character of `s` belongs to `cs`
pub open spec fn has_in_set(s: Seq<char>, cs: CharSet) -> bool {
    exists|i: int| 0 <= i < s.len() && #[trigger] in_set(s[i], cs)
}

/// Whether `c` belongs to the set `cs`
pub fn char_in_set(c: char, cs: CharSet) -> (r: bool)
    ensures
        r == in_set(c, cs),
{
    match cs {
        CharSet::NulCrLf => c == '\0' || c == '\r' || c == '\n',
        CharSet::NulCrLfSpace => c == '\0' || c == '\r' || c == '\n' || c == ' ',
        CharSet::NulCrLfComma => c == '\0' || c == '\r' || c == '\n' || c == ',',
        CharSet::NulCtrlACrLfSpace => c == '\0' || c == '\x01' || c == '\r' || c == '\n' || c
            == ' ',
        CharSet::NulCtrlACrLf => c == '\0' || c == '\x01' || c == '\r' || c == '\n',
        CharSet::NickStart => c == '$' || c == ':' || c == '#' || c == '&' || c == '~' || c == '@'
            || c == '%' || c == '+',
        CharSet::NickBad => c == '\0' || c == '\r' || c == '\n' || c == ' ' || c == ',' || c
            == '*' || c == '?' || c == '!' || c == '@',
        CharSet::ChannelBad => c == '\0' || c == '\r' || c == '\n' || c == ' ' || c == '\x07'
            || c == ',',
        CharSet::UserBad => c == '\0' || c == '\r' || c == '\n' || c == ' ' || c == '@',
        CharSet::NotModeChar => !(('a' <= c && c <= 'z') || ('A' <= c && c <= 'Z') || c == '+'
            || c == '-'),
    }
}

pub fn char_is_ascii_digit(c: char) -> (r: bool)
    ensures
        r == is_ascii_digit(c),
{
    '0' <= c && c <= '9'
}

pub fn char_is_hex_digit(c: char) -> (r: bool)
    ensures
        r == is_hex_digit(c),
{
    ('0' <= c && c <= '9') || ('a' <= c && c <= 'f') || ('A' <= c && c <= 'F')
}

/// Whether some character of `s` belongs to `cs`
pub fn seq_has_in_set(s: &Vec<char>, cs: CharSet) -> (r: bool)
    ensures
        r == has_in_set(s@, cs),
{
    let mut i: usize = 0;
    while i < s.len()
        invariant
            0 <= i <= s@.len(),
            forall|j: int| 0 <= j < i ==> !in_set(#[trigger] s@[j], cs),
        decreases s@.len() - i,
    {
        if char_in_set(s[i], cs) {
            return true;
        }
        i = i + 1;
    }
    false
}

/// Whether some character of `s` belongs to `cs`
pub fn str_has_in_set(s: &str, cs: CharSet) -> (r: bool)
    ensures
        r == has_in_set(s@, cs),
{
    let v = chars_of(s);
    seq_has_in_set(&v, cs)
}

/// The characters of `s`, in order.
pub fn chars_of(s: &str) -> (v: Vec<char>)
    ensures
        v@ == s@,
{
    let mut it = s.chars();
    let mut v: Vec<char> = Vec::new();
    loop
        invariant
            v@ + it.remaining() == s@,
            it.obeys_prophetic_iter_laws(),
            it.decrease() is Some,
        decreases it.decrease()->0,
    {
        let ghost before = it.remaining();
        match it.next() {
            Some(c) => {
                v.push(c);
                assert(v@ + it.remaining() == s@) by {
                    assert(before == seq![c] + it.remaining());
                }
            },
            None => {
                assert(v@ == s@);
                return v;
            },
        }
    }
}

/// Calls `String::push`, which appends `c` to `s`; the contract claims what
/// its documentation says: the string then holds its old characters and `c`.
#[verifier::external_body]
pub(crate) fn push_char(s: &mut String, c: char)
    ensures
        final(s)@ == old(s)@.push(c),
{
    s.push(c);
}

/// Appends `t` to `s`.
pub fn push_str(s: &mut String, t: &str)
    ensures
        final(s)@ == old(s)@ + t@,
{
    let v = chars_of(t);
    push_chars(s, &v, 0, v.len());
}

/// Appends `v[from..to]` to `s`.
pub fn push_chars(s: &mut String, v: &Vec<char>, from: usize, to: usize)
    requires
        from <= to <= v@.len(),
    ensures
        final(s)@ == old(s)@ + v@.subrange(from as int, to as int),
{
    let mut i = from;
    while i < to
        invariant
            from <= i <= to <= v@.len(),
            s@ == old(s)@ + v@.subrange(from as int, i as int),
        decreases to - i,
    {
        push_char(s, v[i]);
        assert(v@.subrange(from as int, i + 1) == v@.subrange(from as int, i as int).push(v@[i as int]));
        i = i + 1;
    }
}

/// A new string holding `v[from..to]`.
pub fn string_of(v: &Vec<char>, from: usize, to: usize) -> (s: String)
    requires
        from <= to <= v@.len(),
    ensures
        s@ == v@.subrange(from as int, to as int),
{
    let mut s = String::new();
    push_chars(&mut s, v, from, to);
    assert(s@ =~= v@.subrange(from as int, to as int));
    s
}

/// A new string holding the characters of `t`.
pub fn string_from(t: &str) -> (s: String)
    ensures
        s@ == t@,
{
    let v = chars_of(t);
    string_of(&v, 0, v.len())
}

/// The index of the first `c` in `s` at or after `i`, or `s.len()` if there is none.
pub open spec fn find_from(s: Seq<char>, c: char, i: int) -> int
    decreases s.len() - i,
{
    if i >= s.len() {
        s.len() as int
    } else if s[i] == c {
        i
    } else {
        find_from(s, c, i + 1)
    }
}

/// The index of the last `c` in `s` before index `i`, if any.
pub open spec fn rfind_before(s: Seq<char>, c: char, i: int) -> Option<int>
    decreases i,
{
    if i <= 0 {
        None
    } else if s[i - 1] == c {
        Some(i - 1)
    } else {
        rfind_before(s, c, i - 1)
    }
}

/// The index of the first non-space character of `s` at or after `i`, or `s.len()`.
pub open spec fn skip_spaces_from(s: Seq<char>, i: int) -> int
    decreases s.len() - i,
{
    if i >= s.len() {
        s.len() as int
    } else if s[i] != ' ' {
        i
    } else {
        skip_spaces_from(s, i + 1)
    }
}

/// Splits `s` at its first space into the text before it and the text after
/// it with leading spaces removed; without a space, the whole of `s` and an
/// empty remainder.
pub open spec fn split_word(s: Seq<char>) -> (Seq<char>, Seq<char>) {
    let i = find_from(s, ' ', 0);
    if i < s.len() {
        (s.take(i), s.skip(skip_spaces_from(s, i + 1)))
    } else {
        (s, Seq::empty())
    }
}

/// `s` without its leading spaces
pub open spec fn trim_start_spaces(s: Seq<char>) -> Seq<char> {
    s.skip(skip_spaces_from(s, 0))
}

/// The nonempty space-separated words of `s`, in order.
pub open spec fn words(s: Seq<char>) -> Seq<Seq<char>>
    decreases s.len(),
{
    let t = trim_start_spaces(s);
    if t.len() == 0 {
        Seq::empty()
    } else {
        let (w, rest) = split_word(t);
        proof {
            lemma_skip_spaces_bounds(s, 0);
            lemma_find_from_bounds(t, ' ', 0);
            if find_from(t, ' ', 0) < t.len() {
                lemma_skip_spaces_bounds(t, find_from(t, ' ', 0) + 1);
            }
        }
        seq![w] + words(rest)
    }
}

pub proof fn lemma_find_from_bounds(s: Seq<char>, c: char, i: int)
    requires
        0 <= i <= s.len(),
    ensures
        i <= find_from(s, c, i) <= s.len(),
        find_from(s, c, i) < s.len() ==> s[find_from(s, c, i)] == c,
        forall|j: int| i <= j < find_from(s, c, i) ==> s[j] != c,
    decreases s.len() - i,
{
    if i < s.len() && s[i] != c {
        lemma_find_from_bounds(s, c, i + 1);
    }
}

pub proof fn lemma_skip_spaces_bounds(s: Seq<char>, i: int)
    requires
        0 <= i <= s.len(),
    ensures
        i <= skip_spaces_from(s, i) <= s.len(),
        skip_spaces_from(s, i) < s.len() ==> s[skip_spaces_from(s, i)] != ' ',
        forall|j: int| i <= j < skip_spaces_from(s, i) ==> s[j] == ' ',
    decreases s.len() - i,
{
    if i < s.len() && s[i] == ' ' {
        lemma_skip_spaces_bounds(s, i + 1);
    }
}

pub proof fn lemma_rfind_bounds(s: Seq<char>, c: char, i: int)
    requires
        0 <= i <= s.len(),
    ensures
        rfind_before(s, c, i) matches Some(k) ==> 0 <= k < i && s[k] == c && forall|j: int|
            k < j < i ==> s[j] != c,
        rfind_before(s, c, i) is None ==> forall|j: int| 0 <= j < i ==> s[j] != c,
    decreases i,
{
    if i > 0 && s[i - 1] != c {
        lemma_rfind_bounds(s, c, i - 1);
    }
}

/// The index of the first `c` in `s` at or after `i`, or `s.len()`.
pub fn exec_find_from(s: &Vec<char>, c: char, i: usize) -> (r: usize)
    requires
        i <= s@.len(),
    ensures
        r == find_from(s@, c, i as int),
{
    let mut k = i;
    while k < s.len() && s[k] != c
        invariant
            i <= k <= s@.len(),
            find_from(s@, c, k as int) == find_from(s@, c, i as int),
        decreases s@.len() - k,
    {
        k = k + 1;
    }
    k
}

/// The index of the last `c` in `s` before index `i`, if any.
pub fn exec_rfind_before(s: &Vec<char>, c: char, i: usize) -> (r: Option<usize>)
    requires
        i <= s@.len(),
    ensures
        r matches Some(k) ==> rfind_before(s@, c, i as int) == Some(k as int),
        r is None ==> rfind_before(s@, c, i as int) is None,
{
    let mut k = i;
    while k > 0
        invariant
            k <= i <= s@.len(),
            rfind_before(s@, c, k as int) == rfind_before(s@, c, i as int),
        decreases k,
    {
        if s[k - 1] == c {
            return Some(k - 1);
        }
        k = k - 1;
    }
    None
}

/// The index of the first non-space character of `s` at or after `i`, or `s.len()`.
pub fn exec_skip_spaces_from(s: &Vec<char>, i: usize) -> (r: usize)
    requires
        i <= s@.len(),
    ensures
        r == skip_spaces_from(s@, i as int),
{
    let mut k = i;
    while k < s.len() && s[k] == ' '
        invariant
            i <= k <= s@.len(),
            skip_spaces_from(s@, k as int) == skip_spaces_from(s@, i as int),
        decreases s@.len() - k,
    {
        k = k + 1;
    }
    k
}

/// Splits `s` as `split_word` does, returning the end of the word and the
/// start of the remainder.
pub fn exec_split_word(s: &Vec<char>) -> (r: (usize, usize))
    ensures
        r.0 <= r.1 <= s@.len(),
        split_word(s@).0 == s@.take(r.0 as int),
        split_word(s@).1 == s@.skip(r.1 as int),
{
    proof {
        lemma_find_from_bounds(s@, ' ', 0);
    }
    let i = exec_find_from(s, ' ', 0);
    if i < s.len() {
        proof {
            lemma_skip_spaces_bounds(s@, i + 1);
        }
        let j = exec_skip_spaces_from(s, i + 1);
        (i, j)
    } else {
        assert(s@.take(i as int) =~= s@);
        assert(s@.skip(s@.len() as int) =~= Seq::<char>::empty());
        (i, i)
    }
}

pub proof fn lemma_find_from_skip(s: Seq<char>, c: char, p: int, i: int)
    requires
        0 <= p <= s.len(),
        0 <= i,
    ensures
        find_from(s.skip(p), c, i) == find_from(s, c, i + p) - p,
    decreases s.len() - p - i,
{
    if i < s.len() - p && s[i + p] != c {
        lemma_find_from_skip(s, c, p, i + 1);
    }
}

pub proof fn lemma_skip_spaces_skip(s: Seq<char>, p: int, i: int)
    requires
        0 <= p <= s.len(),
        0 <= i,
    ensures
        skip_spaces_from(s.skip(p), i) == skip_spaces_from(s, i + p) - p,
    decreases s.len() - p - i,
{
    if i < s.len() - p && s[i + p] == ' ' {
        lemma_skip_spaces_skip(s, p, i + 1);
    }
}

/// One step of `words`, phrased over indices into `s`.
pub proof fn lemma_words_step(s: Seq<char>, p: int)
    requires
        0 <= p <= s.len(),
    ensures
        ({
            let k = skip_spaces_from(s, p);
            let e = find_from(s, ' ', k);
            &&& p <= k <= e <= s.len()
            &&& k == s.len() ==> words(s.skip(p)) == Seq::<Seq<char>>::empty()
            &&& k < s.len() ==> k < e && words(s.skip(p)) == seq![s.subrange(k, e)] + words(
                s.skip(if e < s.len() { skip_spaces_from(s, e + 1) } else { s.len() as int }),
            )
        }),
{
    let k = skip_spaces_from(s, p);
    lemma_skip_spaces_bounds(s, p);
    lemma_find_from_bounds(s, ' ', k);
    lemma_skip_spaces_skip(s, p, 0);
    let t = trim_start_spaces(s.skip(p));
    assert(t =~= s.skip(k));
    if k < s.len() {
        let e = find_from(s, ' ', k);
        lemma_find_from_skip(s, ' ', k, 0);
        assert(find_from(t, ' ', 0) == e - k);
        assert(t.take(e - k) =~= s.subrange(k, e));
        if e < s.len() {
            lemma_skip_spaces_skip(s, k, e - k + 1);
            lemma_skip_spaces_bounds(s, e + 1);
            assert(t.skip(skip_spaces_from(t, e - k + 1)) =~= s.skip(skip_spaces_from(s, e + 1)));
        } else {
            assert(s.skip(s.len() as int) =~= Seq::<char>::empty());
        }
    }
}

/// The nonempty space-separated words of `s`, in order.
pub fn split_spaces(s: &Vec<char>) -> (r: Vec<String>)
    ensures
        r@.len() == words(s@).len(),
        forall|i: int| 0 <= i < r@.len() ==> #[trigger] r@[i]@ == words(s@)[i],
{
    let mut out: Vec<String> = Vec::new();
    let ghost mut views: Seq<Seq<char>> = Seq::empty();
    let mut p: usize = 0;
    assert(s@.skip(0) =~= s@);
    loop
        invariant
            0 <= p <= s@.len(),
            out@.len() == views.len(),
            forall|i: int| 0 <= i < out@.len() ==> #[trigger] out@[i]@ == views[i],
            words(s@) == views + words(s@.skip(p as int)),
        decreases s@.len() - p,
    {
        proof {
            lemma_words_step(s@, p as int);
        }
        let k = exec_skip_spaces_from(s, p);
        if k == s.len() {
            assert(views + Seq::<Seq<char>>::empty() =~= views);
            return out;
        }
        let e = exec_find_from(s, ' ', k);
        let w = string_of(s, k, e);
        out.push(w);
        proof {
            let old_views = views;
            views = views.push(s@.subrange(k as int, e as int));
            assert(views + words(s@.skip(if e < s@.len() { skip_spaces_from(s@, e + 1) } else { s@.len() as int }))
                =~= old_views + (seq![s@.subrange(k as int, e as int)] + words(s@.skip(if e < s@.len() { skip_spaces_from(s@, e + 1) } else { s@.len() as int }))));
        }
        if e < s.len() {
            proof {
                lemma_skip_spaces_bounds(s@, e + 1);
            }
            p = exec_skip_spaces_from(s, e + 1);
        } else {
            p = s.len();
        }
    }
}

/// Why an unsigned decimal integer failed to parse
#[derive(Clone, Copy, Debug, PartialEq, Eq, Hash)]
pub enum IntErrorKind {
    /// The string was empty
    Empty,
    /// The string held a character other than a digit (after an optional `+`)
    InvalidDigit,
    /// The value exceeded the maximum of the target type
    PosOverflow,
}

pub open spec fn digit_value(c: char) -> nat {
    (c as int - '0' as int) as nat
}

/// Scans the digits of `d` from left to right, stopping at the first
/// character that is not a digit or at the first digit that takes the value
/// past `max`.
pub open spec fn scan_digits(d: Seq<char>, max: nat) -> Result<nat, IntErrorKind>
    decreases d.len(),
{
    if d.len() == 0 {
        Ok(0)
    } else {
        match scan_digits(d.drop_last(), max) {
            Err(e) => Err(e),
            Ok(v) => if !is_ascii_digit(d.last()) {
                Err(IntErrorKind::InvalidDigit)
            } else if v * 10 + digit_value(d.last()) > max {
                Err(IntErrorKind::PosOverflow)
            } else {
                Ok(v * 10 + digit_value(d.last()))
            },
        }
    }
}

/// The result of parsing `s` as an unsigned decimal integer no greater than `max`:
/// an optional leading `+` followed by ASCII digits.
pub open spec fn parse_uint(s: Seq<char>, max: nat) -> Result<nat, IntErrorKind> {
    if s.len() == 0 {
        Err(IntErrorKind::Empty)
    } else if s.len() == 1 && (s[0] == '+' || s[0] == '-') {
        Err(IntErrorKind::InvalidDigit)
    } else if s[0] == '+' {
        scan_digits(s.drop_first(), max)
    } else {
        scan_digits(s, max)
    }
}

proof fn lemma_scan_bound(d: Seq<char>, max: nat)
    ensures
        scan_digits(d, max) matches Ok(v) ==> v <= max,
    decreases d.len(),
{
    if d.len() > 0 {
        lemma_scan_bound(d.drop_last(), max);
    }
}

/// Parses `s` as an unsigned decimal integer no greater than `max`.
pub fn parse_uint_exec(s: &str, max: u64) -> (r: Result<u64, IntErrorKind>)
    ensures
        match r {
            Ok(v) => parse_uint(s@, max as nat) == Ok::<nat, IntErrorKind>(v as nat),
            Err(e) => parse_uint(s@, max as nat) == Err::<nat, IntErrorKind>(e),
        },
{
    let v = chars_of(s);
    if v.len() == 0 {
        return Err(IntErrorKind::Empty);
    }
    if v.len() == 1 && (v[0] == '+' || v[0] == '-') {
        return Err(IntErrorKind::InvalidDigit);
    }
    let start: usize = if v[0] == '+' { 1 } else { 0 };
    let ghost d = s@.skip(start as int);
    assert(start == 1 ==> d =~= s@.drop_first());
    assert(start == 0 ==> d =~= s@);
    let mut acc: u64 = 0;
    let mut i: usize = start;
    while i < v.len()
        invariant
            start <= i <= v@.len(),
            v@ == s@,
            d == s@.skip(start as int),
            parse_uint(s@, max as nat) == scan_digits(d, max as nat),
            scan_digits(d.take(i - start), max as nat) == Ok::<nat, IntErrorKind>(acc as nat),
            acc <= max,
        decreases v@.len() - i,
    {
        let c = v[i];
        assert(d.take(i + 1 - start).drop_last() =~= d.take(i - start));
        assert(d.take(i + 1 - start).last() == c);
        if !char_is_ascii_digit(c) {
            assert(scan_digits(d.take(i + 1 - start), max as nat) == Err::<nat, IntErrorKind>(
                IntErrorKind::InvalidDigit,
            ));
            proof { lemma_scan_prefix_err(d, max as nat, (i + 1 - start) as int); }
            return Err(IntErrorKind::InvalidDigit);
        }
        let dv: u64 = (c as u64) - ('0' as u64);
        if dv > max || acc > (max - dv) / 10 {
            assert(acc * 10 + dv > max) by (nonlinear_arith)
                requires dv > max || acc > (max - dv) / 10, dv <= 9, acc >= 0;
            assert(digit_value(c) == dv);
            assert(scan_digits(d.take(i + 1 - start), max as nat) == Err::<nat, IntErrorKind>(
                IntErrorKind::PosOverflow,
            ));
            proof { lemma_scan_prefix_err(d, max as nat, (i + 1 - start) as int); }
            return Err(IntErrorKind::PosOverflow);
        }
        assert(acc * 10 + dv <= max) by (nonlinear_arith)
            requires acc <= (max - dv) / 10, dv <= max;
        assert(digit_value(c) == dv);
        acc = acc * 10 + dv;
        i = i + 1;
    }
    assert(d.take(v@.len() - start) =~= d);
    Ok(acc)
}

/// Once a prefix of `d` fails to scan, all of `d` fails the same way.
proof fn lemma_scan_prefix_err(d: Seq<char>, max: nat, n: int)
    requires
        0 <= n <= d.len(),
        scan_digits(d.take(n), max) is Err,
    ensures
        scan_digits(d, max) == scan_digits(d.take(n), max),
    decreases d.len() - n,
{
    if n < d.len() {
        assert(d.take(n + 1).drop_last() =~= d.take(n));
        lemma_scan_prefix_err(d, max, n + 1);
    } else {
        assert(d.take(n) =~= d);
    }
}

/// Whether `a` and `b` hold the same characters
pub fn str_eq(a: &str, b: &str) -> (r: bool)
    ensures
        r == (a@ == b@),
{
    let x = chars_of(a);
    let y = chars_of(b);
    if x.len() != y.len() {
        return false;
    }
    let mut i: usize = 0;
    while i < x.len()
        invariant
            0 <= i <= x@.len() == y@.len(),
            x@ == a@,
            y@ == b@,
            forall|j: int| 0 <= j < i ==> x@[j] == y@[j],
        decreases x@.len() - i,
    {
        if x[i] != y[i] {
            assert(x@[i as int] != y@[i as int]);
            return false;
        }
        i = i + 1;
    }
    assert(x@ =~= y@);
    true
}

/// Whether `c` occurs in `v`
pub fn vec_contains(v: &Vec<char>, c: char) -> (r: bool)
    ensures
        r == v@.contains(c),
{
    let mut i: usize = 0;
    while i < v.len()
        invariant
            0 <= i <= v@.len(),
            forall|j: int| 0 <= j < i ==> v@[j] != c,
        decreases v@.len() - i,
    {
        if v[i] == c {
            assert(v@[i as int] == c);
            return true;
        }
        i = i + 1;
    }
    false
}

/// Splits `s` at its last `c` into the text before and the text after it;
/// without a `c`, the whole of `s` and nothing.
pub open spec fn split_last(s: Seq<char>, c: char) -> (Seq<char>, Option<Seq<char>>) {
    match rfind_before(s, c, s.len() as int) {
        Some(k) => (s.take(k), Some(s.skip(k + 1))),
        None => (s, None),
    }
}

} // verus!
