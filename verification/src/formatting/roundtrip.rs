//! Formatting a styled line and parsing the text back gives the same line.
use super::{
    lemma_hex_run,
    attr_char, attr_sym_diff, close_at, color_text, default_color, default_style, diff_text, digit_at, format_from,
    format_spans, hex_run, hex_value, is_format_char, mark_text, open_style, pad2, parse_from,
    parse_spans, restyle, rgb_text, scan_color100, scan_rgbcolor, starts_with_comma_digit,
    starts_with_digit, style_diff, toggle_attr, toggle_of, toggle_text, with_bg, with_fg,
    Attribute, ColorDiffView, ColorView, OpenSpan, RgbColor, SpanBuilder, StyleDiffView,
    StyleView, BOLD_CHAR, COLOR_CHAR, HEX_COLOR_CHAR, RESET_CHAR,
};
use super::attributes::{all_attributes, attr_index, lemma_attr_order, lemma_members_back, members_between};
use crate::numfmt::{digit_char, hex2, hex_char};
use crate::text::{is_ascii_digit, is_hex_digit};
use vstd::prelude::*;

verus! {

/// Formatting characters are not digits, hex digits, or commas, and each one
/// is read as a toggle, a reset, or a color code
proof fn lemma_format_char(c: char)
    requires
        is_format_char(c),
    ensures
        !is_ascii_digit(c),
        !is_hex_digit(c),
        c != ',',
        toggle_of(c) is Some || c == RESET_CHAR || c == COLOR_CHAR || c == HEX_COLOR_CHAR,
{
}

/// The two digits of an IRC color number read back as the number
proof fn lemma_pad2(n: u8)
    requires
        n < 100,
    ensures
        pad2(n).len() == 2,
        is_ascii_digit(pad2(n)[0]),
        is_ascii_digit(pad2(n)[1]),
        hex_value(pad2(n)[0]) * 10 + hex_value(pad2(n)[1]) == n,
{
    let a = (n / 10) as nat;
    let b = (n % 10) as nat;
    assert(digit_char(a) as int == '0' as int + a);
    assert(digit_char(b) as int == '0' as int + b);
}

/// The two hex digits of a byte read back as the byte
proof fn lemma_hex2(x: u8)
    ensures
        hex2(x).len() == 2,
        is_hex_digit(hex2(x)[0]),
        is_hex_digit(hex2(x)[1]),
        hex_value(hex2(x)[0]) * 16 + hex_value(hex2(x)[1]) == x,
{
    let a = (x as nat / 16) as nat;
    let b = (x as nat % 16) as nat;
    if a < 10 {
        assert(hex_char(a) as int == '0' as int + a);
    } else {
        assert(hex_char(a) as int == 'a' as int + a - 10);
    }
    if b < 10 {
        assert(hex_char(b) as int == '0' as int + b);
    } else {
        assert(hex_char(b) as int == 'a' as int + b - 10);
    }
}

/// Two digits of an IRC color number at position `j` are read as that number
proof fn lemma_scan_pad2(s: Seq<char>, j: int, n: u8)
    requires
        0 <= j,
        j + 2 <= s.len(),
        n < 100,
        s.subrange(j, j + 2) == pad2(n),
    ensures
        scan_color100(s, j) == Some((n, 2nat)),
{
    lemma_pad2(n);
    assert(s[j] == pad2(n)[0]);
    assert(s[j + 1] == pad2(n)[1]);
}

/// Six hex digits of a color at position `j` are read as that color
proof fn lemma_scan_rgb(s: Seq<char>, j: int, c: RgbColor)
    requires
        0 <= j,
        j + 6 <= s.len(),
        s.subrange(j, j + 6) == rgb_text(c),
    ensures
        scan_rgbcolor(s, j) == (Some(c), 6nat),
{
    lemma_hex2(c.0);
    lemma_hex2(c.1);
    lemma_hex2(c.2);
    let t = rgb_text(c);
    assert(t == hex2(c.0) + hex2(c.1) + hex2(c.2));
    assert forall|k: int| 0 <= k < 6 implies s[j + k] == t[k] && is_hex_digit(#[trigger] t[k]) by {
        assert(s.subrange(j, j + 6)[k] == s[j + k]);
    }
    assert(is_hex_digit(t[0]) && is_hex_digit(t[1]) && is_hex_digit(t[2]) && is_hex_digit(t[3]) && is_hex_digit(t[4]) && is_hex_digit(t[5]));
    reveal_with_fuel(hex_run, 7);
    assert(hex_run(s, j, 6) == 6);
    assert(s[j] == hex2(c.0)[0] && s[j + 1] == hex2(c.0)[1]);
    assert(s[j + 2] == hex2(c.1)[0] && s[j + 3] == hex2(c.1)[1]);
    assert(s[j + 4] == hex2(c.2)[0] && s[j + 5] == hex2(c.2)[1]);
}

/// Text without formatting characters adds nothing to a span already open
proof fn lemma_text_run(s: Seq<char>, a: nat, e: nat, b: SpanBuilder)
    requires
        a <= e <= s.len(),
        forall|j: int| a <= j < e ==> !is_format_char(#[trigger] s[j]),
        b.open is Spanning,
    ensures
        parse_from(s, a, b) == parse_from(s, e, b),
    decreases e - a,
{
    if a < e {
        step_text(s, a, b);
        lemma_text_run(s, a + 1, e, b);
    }
}

/// A character that is not a formatting character is read as text
proof fn lemma_format_char_neg(c: char)
    requires
        !is_format_char(c),
    ensures
        toggle_of(c) is None,
        c != RESET_CHAR,
        c != COLOR_CHAR,
        c != HEX_COLOR_CHAR,
{
}

/// One step of [`parse_from`] at a character that is not a formatting character
proof fn step_text(s: Seq<char>, i: nat, b: SpanBuilder)
    requires
        i < s.len(),
        !is_format_char(s[i as int]),
    ensures
        parse_from(s, i, b) == parse_from(s, i + 1, mark_text(b, i)),
{
    reveal(parse_from);
    lemma_format_char_neg(s[i as int]);
}

/// One step of [`parse_from`] at a character that toggles an attribute
proof fn step_toggle(s: Seq<char>, i: nat, b: SpanBuilder, a: Attribute)
    requires
        i < s.len(),
        toggle_of(s[i as int]) == Some(a),
    ensures
        parse_from(s, i, b) == parse_from(
            s,
            i + 1,
            restyle(b, i, StyleView { attributes: toggle_attr(open_style(b).attributes, a), ..open_style(b) }),
        ),
{
    reveal(parse_from);
}

/// One step of [`parse_from`] at the reset character
proof fn step_reset(s: Seq<char>, i: nat, b: SpanBuilder)
    requires
        i < s.len(),
        s[i as int] == RESET_CHAR,
    ensures
        parse_from(s, i, b) == parse_from(s, i + 1, restyle(b, i, default_style())),
{
    reveal(parse_from);
}

/// One step of [`parse_from`] at a color character without a number after it
proof fn step_color_none(s: Seq<char>, i: nat, b: SpanBuilder)
    requires
        i < s.len(),
        s[i as int] == COLOR_CHAR,
        scan_color100(s, i + 1 as int) is None,
    ensures
        parse_from(s, i, b) == parse_from(
            s,
            i + 1,
            restyle(b, i, with_bg(with_fg(open_style(b), default_color()), default_color())),
        ),
{
    reveal(parse_from);
}

/// One step of [`parse_from`] at a color character with a foreground number
/// and a background number after a comma
proof fn step_color_both(s: Seq<char>, i: nat, b: SpanBuilder, f: u8, g: u8)
    requires
        i + 6 < s.len() || i + 6 == s.len(),
        s[i as int] == COLOR_CHAR,
        scan_color100(s, i + 1 as int) == Some((f, 2nat)),
        s[i + 3 as int] == ',',
        scan_color100(s, i + 4 as int) == Some((g, 2nat)),
    ensures
        parse_from(s, i, b) == parse_from(
            s,
            (i + 6) as nat,
            restyle(b, i, with_bg(with_fg(open_style(b), ColorView::Color100(f)), ColorView::Color100(g))),
        ),
{
    reveal(parse_from);
}

/// One step of [`parse_from`] at a color character with a foreground number
/// followed by no background number
proof fn step_color_fg(s: Seq<char>, i: nat, b: SpanBuilder, f: u8, comma: bool)
    requires
        i + 3 <= s.len(),
        s[i as int] == COLOR_CHAR,
        scan_color100(s, i + 1 as int) == Some((f, 2nat)),
        comma == (i + 3 < s.len() && s[i + 3 as int] == ','),
        scan_color100(s, if comma { i + 4 as int } else { i + 3 as int }) is None,
    ensures
        comma ==> parse_from(s, i, b) == parse_from(
            s,
            i + 4,
            mark_text(restyle(b, i, with_fg(open_style(b), ColorView::Color100(f))), i + 3),
        ),
        !comma ==> parse_from(s, i, b) == parse_from(s, i + 3, restyle(b, i, with_fg(open_style(b), ColorView::Color100(f)))),
{
    reveal(parse_from);
}

/// One step of [`parse_from`] at a hex color character with two colors
proof fn step_hex_both(s: Seq<char>, i: nat, b: SpanBuilder, f: RgbColor, g: RgbColor)
    requires
        i + 14 <= s.len(),
        s[i as int] == HEX_COLOR_CHAR,
        scan_rgbcolor(s, i + 1 as int) == (Some(f), 6nat),
        s[i + 7 as int] == ',',
        scan_rgbcolor(s, i + 8 as int) == (Some(g), 6nat),
    ensures
        parse_from(s, i, b) == parse_from(
            s,
            (i + 14) as nat,
            restyle(b, i, with_bg(with_fg(open_style(b), ColorView::Rgb(f)), ColorView::Rgb(g))),
        ),
{
    reveal(parse_from);
    lemma_hex_run(s, i + 1 as int, 6);
    lemma_hex_run(s, i + 8 as int, 6);
}

/// One step of [`parse_from`] at a hex color character with a foreground
/// color followed by no background color
proof fn step_hex_fg(s: Seq<char>, i: nat, b: SpanBuilder, f: RgbColor, comma: bool, m: nat)
    requires
        i + 7 <= s.len(),
        s[i as int] == HEX_COLOR_CHAR,
        scan_rgbcolor(s, i + 1 as int) == (Some(f), 6nat),
        comma == (i + 7 < s.len() && s[i + 7 as int] == ','),
        scan_rgbcolor(s, if comma { i + 8 as int } else { i + 7 as int }) == (None::<RgbColor>, m),
    ensures
        comma ==> parse_from(s, i, b) == parse_from(
            s,
            i + 8 + m,
            mark_text(restyle(b, i, with_fg(open_style(b), ColorView::Rgb(f))), i + 7),
        ),
        !comma ==> parse_from(s, i, b) == parse_from(s, i + 7 + m, restyle(b, i, with_fg(open_style(b), ColorView::Rgb(f)))),
{
    reveal(parse_from);
    lemma_hex_run(s, i + 1 as int, 6);
}

/// Text without formatting characters starts a span at its first character
/// and adds nothing after it
proof fn lemma_text(s: Seq<char>, a: nat, e: nat, b: SpanBuilder)
    requires
        a < e <= s.len(),
        forall|j: int| a <= j < e ==> !is_format_char(#[trigger] s[j]),
    ensures
        parse_from(s, a, b) == parse_from(s, e, mark_text(b, a)),
{
    step_text(s, a, b);
    lemma_text_run(s, a + 1, e, mark_text(b, a));
}

/// `toggle_attr` twice with the same attribute changes nothing
proof fn lemma_toggle_twice(s: Set<Attribute>, a: Attribute)
    ensures
        toggle_attr(toggle_attr(s, a), a) == s,
{
    assert(toggle_attr(toggle_attr(s, a), a) =~= s);
}

/// `a` with the attributes of `t` among the first `i` of [`all_attributes`]
/// toggled
pub open spec fn prefix_toggle(a: Set<Attribute>, t: Set<Attribute>, i: int) -> Set<Attribute> {
    Set::new(|x: Attribute| a.contains(x) != (t.contains(x) && attr_index(x) < i))
}

/// The parsing progress after the toggle characters of the first `i`
/// attributes of `t`, starting from `b` at `p`
pub open spec fn toggled_builder(b: SpanBuilder, p: nat, t: Set<Attribute>, i: int) -> SpanBuilder {
    if members_between(t, 0, i).len() == 0 {
        b
    } else {
        restyle(b, p, StyleView { attributes: prefix_toggle(open_style(b).attributes, t, i), ..open_style(b) })
    }
}

/// The members of `t` among the first `i` attributes start the members among
/// the first `j`
proof fn lemma_members_prefix(t: Set<Attribute>, i: int, j: int)
    requires
        0 <= i <= j <= 6,
    ensures
        members_between(t, 0, i).len() <= members_between(t, 0, j).len(),
        members_between(t, 0, j).subrange(0, members_between(t, 0, i).len() as int) == members_between(t, 0, i),
    decreases j - i,
{
    if i < j {
        lemma_members_prefix(t, i, j - 1);
        lemma_members_back(t, 0, j);
        let mj1 = members_between(t, 0, j - 1);
        let mj = members_between(t, 0, j);
        let mi = members_between(t, 0, i);
        assert(mj.subrange(0, mi.len() as int) =~= mj1.subrange(0, mi.len() as int));
    } else {
        assert(members_between(t, 0, j).subrange(0, members_between(t, 0, j).len() as int) =~= members_between(t, 0, j));
    }
}

/// Without members among the first `i` attributes, toggling them changes nothing
proof fn lemma_no_members(t: Set<Attribute>, i: int)
    requires
        0 <= i <= 6,
        members_between(t, 0, i).len() == 0,
    ensures
        forall|x: Attribute| t.contains(x) ==> attr_index(x) >= i,
    decreases i,
{
    lemma_attr_order();
    if i > 0 {
        lemma_members_back(t, 0, i);
        lemma_no_members(t, i - 1);
        assert(!t.contains(all_attributes()[i - 1]));
    }
}

/// Parsing the toggle characters of the attributes of `t` at `p` toggles
/// them one by one
proof fn lemma_toggles(s: Seq<char>, p: nat, b: SpanBuilder, t: Set<Attribute>, i: int)
    requires
        0 <= i <= 6,
        p + toggle_text(t).len() <= s.len(),
        s.subrange(p as int, p + toggle_text(t).len() as int) == toggle_text(t),
    ensures
        parse_from(s, p, b) == parse_from(s, p + members_between(t, 0, i).len(), toggled_builder(b, p, t, i)),
    decreases i,
{
    lemma_attr_order();
    let st0 = open_style(b);
    if i == 0 {
        assert(prefix_toggle(st0.attributes, t, 0) =~= st0.attributes);
    } else {
        lemma_toggles(s, p, b, t, i - 1);
        lemma_members_back(t, 0, i);
        let a = all_attributes()[i - 1];
        let mp = members_between(t, 0, i - 1);
        let m = members_between(t, 0, i);
        let bp = toggled_builder(b, p, t, i - 1);
        if t.contains(a) {
            lemma_members_prefix(t, i, 6);
            let q = p + mp.len();
            assert(m == mp.push(a));
            assert(members_between(t, 0, 6)[mp.len() as int] == a) by {
                assert(members_between(t, 0, 6).subrange(0, m.len() as int)[mp.len() as int] == m[mp.len() as int]);
            }
            assert(toggle_text(t)[mp.len() as int] == attr_char(a));
            assert(s[q as int] == attr_char(a)) by {
                assert(s.subrange(p as int, p + toggle_text(t).len() as int)[mp.len() as int] == s[q as int]);
            }
            assert(toggle_of(attr_char(a)) == Some(a));
            let stp = open_style(bp);
            assert(stp == StyleView { attributes: prefix_toggle(st0.attributes, t, i - 1), ..st0 }) by {
                if mp.len() == 0 {
                    lemma_no_members(t, i - 1);
                    assert(prefix_toggle(st0.attributes, t, i - 1) =~= st0.attributes);
                }
            }
            assert(toggle_attr(stp.attributes, a) =~= prefix_toggle(st0.attributes, t, i));
            step_toggle(s, q, bp, a);
        } else {
            assert(m == mp);
            assert(prefix_toggle(st0.attributes, t, i) =~= prefix_toggle(st0.attributes, t, i - 1));
        }
    }
}

/// A character inside a stretch of `s` with known text
proof fn lemma_at(s: Seq<char>, i: int, t: Seq<char>, k: int)
    requires
        0 <= i,
        i + t.len() <= s.len(),
        s.subrange(i, i + t.len()) == t,
        0 <= k < t.len(),
    ensures
        s[i + k] == t[k],
{
    assert(s.subrange(i, i + t.len())[k] == s[i + k]);
}

/// Text without formatting characters
pub open spec fn plain_text(c: Seq<char>) -> bool {
    forall|j: int| 0 <= j < c.len() ==> !is_format_char(#[trigger] c[j])
}

/// The characters of text `c` at `a` in `s` are no formatting characters
proof fn lemma_plain_at(s: Seq<char>, a: int, c: Seq<char>)
    requires
        0 <= a,
        a + c.len() <= s.len(),
        s.subrange(a, a + c.len()) == c,
        plain_text(c),
    ensures
        forall|j: int| a <= j < a + c.len() ==> !is_format_char(#[trigger] s[j]),
{
    assert forall|j: int| a <= j < a + c.len() implies !is_format_char(#[trigger] s[j]) by {
        lemma_at(s, a, c, j - a);
    }
}

/// Hex digits counted in `s` at a stretch holding `t`, which is followed by no
/// hex digit, are those counted in `t`
proof fn lemma_hex_run_in(s: Seq<char>, a: int, t: Seq<char>, j: int, n: nat)
    requires
        0 <= a,
        a + t.len() <= s.len(),
        s.subrange(a, a + t.len()) == t,
        a + t.len() < s.len() ==> !is_hex_digit(s[a + t.len()]),
        0 <= j <= t.len(),
    ensures
        hex_run(s, a + j, n) == hex_run(t, j, n),
    decreases n,
{
    if n > 0 && j < t.len() {
        lemma_at(s, a, t, j);
        lemma_hex_run_in(s, a, t, j + 1, (n - 1) as nat);
        assert(a + j + 1 == a + (j + 1));
    }
}

/// Content that is safe after a foreground color number: it does not start
/// with a digit (a comma and a digit at its start are kept apart from the
/// number by the guard that formatting writes)
pub open spec fn safe_after_color100(c: Seq<char>) -> bool {
    !starts_with_digit(c)
}

/// Content that is safe after a 24-bit color: it does not start with a hex
/// digit, and a comma at its start is not followed by six hex digits
pub open spec fn safe_after_rgb(c: Seq<char>) -> bool {
    &&& !(c.len() > 0 && is_hex_digit(c[0]))
    &&& !(c.len() > 0 && c[0] == ',' && hex_run(c, 1, 6) == 6)
}

/// The progress after a color code that ends at the start `q0` of a text in
/// style `st`, with the style changed at `i`
pub open spec fn after_code(b: SpanBuilder, i: nat, st: StyleView, q0: nat) -> SpanBuilder {
    SpanBuilder { closed: close_at(b, i), open: OpenSpan::Spanning(st, q0) }
}

/// A foreground color number, the digit guard, and text
proof fn lemma_fg100_text(s: Seq<char>, i: nat, b: SpanBuilder, n: u8, c: Seq<char>)
    requires
        n < 100,
        i + 3 + digit_guard_len(c) + c.len() <= s.len(),
        s.subrange(i as int, i + 3 + digit_guard_len(c) + c.len() as int) == seq![COLOR_CHAR] + pad2(n)
            + super::digit_guard(starts_with_comma_digit(c)) + c,
        c.len() > 0,
        plain_text(c),
        safe_after_color100(c),
        i + 3 + digit_guard_len(c) + c.len() < s.len() ==> is_format_char(
            s[i + 3 + digit_guard_len(c) + c.len() as int],
        ),
    ensures
        parse_from(s, i, b) == parse_from(
            s,
            (i + 3 + digit_guard_len(c) + c.len()) as nat,
            after_code(b, i, with_fg(open_style(b), ColorView::Color100(n)), (i + 3 + digit_guard_len(c)) as nat),
        ),
{
    let g = super::digit_guard(starts_with_comma_digit(c));
    let t = seq![COLOR_CHAR] + pad2(n) + g + c;
    let ii = i as int;
    let glen = digit_guard_len(c) as int;
    let q0 = ii + 3 + glen;
    let e = q0 + c.len();
    lemma_pad2(n);
    assert(g.len() == glen);
    assert(t.len() == e - ii);
    lemma_at(s, ii, t, 0);
    assert(s.subrange(ii + 1, ii + 3) == pad2(n)) by {
        assert(s.subrange(ii + 1, ii + 3) =~= t.subrange(1, 3));
    }
    lemma_scan_pad2(s, ii + 1, n);
    let st1 = with_fg(open_style(b), ColorView::Color100(n));
    assert(s.subrange(q0, q0 + c.len()) == c) by {
        assert(s.subrange(q0, q0 + c.len()) =~= t.subrange(3 + glen, t.len() as int));
    }
    lemma_plain_at(s, q0, c);
    if e < s.len() {
        lemma_format_char(s[e]);
    }
    if starts_with_comma_digit(c) {
        lemma_at(s, ii, t, 3);
        lemma_at(s, ii, t, 4);
        assert(s[ii + 3] == BOLD_CHAR && s[ii + 4] == BOLD_CHAR);
        assert(toggle_of(BOLD_CHAR) == Some(Attribute::Bold));
        let b1 = restyle(b, i, st1);
        assert(!digit_at(s, ii + 3));
        step_color_fg(s, i, b, n, false);
        let st2 = StyleView { attributes: toggle_attr(st1.attributes, Attribute::Bold), ..st1 };
        let b2 = restyle(b1, (ii + 3) as nat, st2);
        step_toggle(s, (ii + 3) as nat, b1, Attribute::Bold);
        lemma_toggle_twice(st1.attributes, Attribute::Bold);
        let b3 = restyle(b2, (ii + 4) as nat, st1);
        step_toggle(s, (ii + 4) as nat, b2, Attribute::Bold);
        assert(b3 == restyle(b, i, st1));
        lemma_text(s, q0 as nat, e as nat, b3);
    } else {
        assert(g.len() == 0);
        lemma_at(s, q0, c, 0);
        assert(s[q0] == c[0]);
        if c[0] == ',' {
            if q0 + 1 < e {
                lemma_at(s, q0, c, 1);
            }
            assert(!digit_at(s, q0 + 1));
            assert(scan_color100(s, q0 + 1) is None);
            let b1 = mark_text(restyle(b, i, st1), q0 as nat);
            step_color_fg(s, i, b, n, true);
            lemma_text_run(s, (q0 + 1) as nat, e as nat, b1);
        } else {
            assert(!digit_at(s, q0));
            step_color_fg(s, i, b, n, false);
            lemma_text(s, q0 as nat, e as nat, restyle(b, i, st1));
        }
    }
}

/// The number of guard characters before text `c` after a color number
pub open spec fn digit_guard_len(c: Seq<char>) -> nat {
    if starts_with_comma_digit(c) {
        2
    } else {
        0
    }
}

/// A hex foreground color and text
proof fn lemma_fgrgb_text(s: Seq<char>, i: nat, b: SpanBuilder, f: RgbColor, c: Seq<char>)
    requires
        i + 7 + c.len() <= s.len(),
        s.subrange(i as int, i + 7 + c.len() as int) == seq![HEX_COLOR_CHAR] + rgb_text(f) + c,
        c.len() > 0,
        plain_text(c),
        safe_after_rgb(c),
        i + 7 + c.len() < s.len() ==> is_format_char(s[i + 7 + c.len() as int]),
    ensures
        parse_from(s, i, b) == parse_from(
            s,
            (i + 7 + c.len()) as nat,
            after_code(b, i, with_fg(open_style(b), ColorView::Rgb(f)), (i + 7) as nat),
        ),
{
    let t = seq![HEX_COLOR_CHAR] + rgb_text(f) + c;
    let ii = i as int;
    let q0 = ii + 7;
    let e = q0 + c.len();
    lemma_hex2(f.0);
    lemma_hex2(f.1);
    lemma_hex2(f.2);
    assert(rgb_text(f).len() == 6);
    assert(t.len() == e - ii);
    lemma_at(s, ii, t, 0);
    assert(s.subrange(ii + 1, ii + 7) == rgb_text(f)) by {
        assert(s.subrange(ii + 1, ii + 7) =~= t.subrange(1, 7));
    }
    lemma_scan_rgb(s, ii + 1, f);
    let st1 = with_fg(open_style(b), ColorView::Rgb(f));
    assert(s.subrange(q0, q0 + c.len()) == c) by {
        assert(s.subrange(q0, q0 + c.len()) =~= t.subrange(7, t.len() as int));
    }
    lemma_plain_at(s, q0, c);
    if e < s.len() {
        lemma_format_char(s[e]);
    }
    lemma_at(s, q0, c, 0);
    if c[0] == ',' {
        lemma_hex_run_in(s, q0, c, 1, 6);
        lemma_hex_run(c, 1, 6);
        let m = hex_run(c, 1, 6);
        assert(m < 6);
        assert(scan_rgbcolor(s, q0 + 1) == (None::<RgbColor>, m));
        step_hex_fg(s, i, b, f, true, m);
        let b1 = mark_text(restyle(b, i, st1), q0 as nat);
        assert(q0 + 1 + m <= e) by {
            if m > 0 {
                assert(1 + m <= c.len());
            }
        }
        lemma_text_run(s, (q0 + 1 + m) as nat, e as nat, b1);
    } else {
        assert(!is_hex_digit(s[q0]));
        assert(hex_run(s, q0, 6) == 0);
        assert(scan_rgbcolor(s, q0) == (None::<RgbColor>, 0nat));
        step_hex_fg(s, i, b, f, false, 0);
        lemma_text(s, q0 as nat, e as nat, restyle(b, i, st1));
    }
}

/// A bare color character, the digit guard, and text
proof fn lemma_reset_colors_text(s: Seq<char>, i: nat, b: SpanBuilder, c: Seq<char>)
    requires
        i + 1 + reset_guard_len(c) + c.len() <= s.len(),
        s.subrange(i as int, i + 1 + reset_guard_len(c) + c.len() as int) == seq![COLOR_CHAR] + super::digit_guard(
            starts_with_digit(c),
        ) + c,
        c.len() > 0,
        plain_text(c),
        i + 1 + reset_guard_len(c) + c.len() < s.len() ==> is_format_char(s[i + 1 + reset_guard_len(c) + c.len() as int]),
    ensures
        parse_from(s, i, b) == parse_from(
            s,
            (i + 1 + reset_guard_len(c) + c.len()) as nat,
            after_code(
                b,
                i,
                with_bg(with_fg(open_style(b), default_color()), default_color()),
                (i + 1 + reset_guard_len(c)) as nat,
            ),
        ),
{
    let g = super::digit_guard(starts_with_digit(c));
    let t = seq![COLOR_CHAR] + g + c;
    let ii = i as int;
    let glen = reset_guard_len(c) as int;
    let q0 = ii + 1 + glen;
    let e = q0 + c.len();
    assert(g.len() == glen);
    assert(t.len() == e - ii);
    lemma_at(s, ii, t, 0);
    let st1 = with_bg(with_fg(open_style(b), default_color()), default_color());
    assert(s.subrange(q0, q0 + c.len()) == c) by {
        assert(s.subrange(q0, q0 + c.len()) =~= t.subrange(1 + glen, t.len() as int));
    }
    lemma_plain_at(s, q0, c);
    if e < s.len() {
        lemma_format_char(s[e]);
    }
    if starts_with_digit(c) {
        lemma_at(s, ii, t, 1);
        lemma_at(s, ii, t, 2);
        assert(s[ii + 1] == BOLD_CHAR && s[ii + 2] == BOLD_CHAR);
        assert(!digit_at(s, ii + 1));
        step_color_none(s, i, b);
        let b1 = restyle(b, i, st1);
        step_toggle(s, (ii + 1) as nat, b1, Attribute::Bold);
        let st2 = StyleView { attributes: toggle_attr(st1.attributes, Attribute::Bold), ..st1 };
        let b2 = restyle(b1, (ii + 1) as nat, st2);
        step_toggle(s, (ii + 2) as nat, b2, Attribute::Bold);
        lemma_toggle_twice(st1.attributes, Attribute::Bold);
        let b3 = restyle(b2, (ii + 2) as nat, st1);
        assert(b3 == restyle(b, i, st1));
        lemma_text(s, q0 as nat, e as nat, b3);
    } else {
        lemma_at(s, q0, c, 0);
        assert(!digit_at(s, ii + 1));
        step_color_none(s, i, b);
        lemma_text(s, q0 as nat, e as nat, restyle(b, i, st1));
    }
}

/// The number of guard characters before text `c` after a bare color character
pub open spec fn reset_guard_len(c: Seq<char>) -> nat {
    if starts_with_digit(c) {
        2
    } else {
        0
    }
}

/// A color character with two color numbers
proof fn lemma_both100(s: Seq<char>, i: nat, b: SpanBuilder, f: u8, g: u8)
    requires
        f < 100,
        g < 100,
        i + 6 <= s.len(),
        s.subrange(i as int, i + 6 as int) == seq![COLOR_CHAR] + pad2(f) + seq![','] + pad2(g),
    ensures
        parse_from(s, i, b) == parse_from(
            s,
            (i + 6) as nat,
            restyle(b, i, with_bg(with_fg(open_style(b), ColorView::Color100(f)), ColorView::Color100(g))),
        ),
{
    let ii = i as int;
    let t = seq![COLOR_CHAR] + pad2(f) + seq![','] + pad2(g);
    lemma_pad2(f);
    lemma_pad2(g);
    lemma_at(s, ii, t, 0);
    lemma_at(s, ii, t, 3);
    assert(s.subrange(ii + 1, ii + 3) =~= pad2(f)) by {
        assert(s.subrange(ii + 1, ii + 3) =~= t.subrange(1, 3));
    }
    assert(s.subrange(ii + 4, ii + 6) =~= pad2(g)) by {
        assert(s.subrange(ii + 4, ii + 6) =~= t.subrange(4, 6));
    }
    lemma_scan_pad2(s, ii + 1, f);
    lemma_scan_pad2(s, ii + 4, g);
    step_color_both(s, i, b, f, g);
}

/// A hex color character with two colors
proof fn lemma_bothrgb(s: Seq<char>, i: nat, b: SpanBuilder, f: RgbColor, g: RgbColor)
    requires
        i + 14 <= s.len(),
        s.subrange(i as int, i + 14 as int) == seq![HEX_COLOR_CHAR] + rgb_text(f) + seq![','] + rgb_text(g),
    ensures
        parse_from(s, i, b) == parse_from(
            s,
            (i + 14) as nat,
            restyle(b, i, with_bg(with_fg(open_style(b), ColorView::Rgb(f)), ColorView::Rgb(g))),
        ),
{
    let ii = i as int;
    let t = seq![HEX_COLOR_CHAR] + rgb_text(f) + seq![','] + rgb_text(g);
    lemma_hex2(f.0);
    lemma_hex2(f.1);
    lemma_hex2(f.2);
    lemma_hex2(g.0);
    lemma_hex2(g.1);
    lemma_hex2(g.2);
    lemma_at(s, ii, t, 0);
    lemma_at(s, ii, t, 7);
    assert(s.subrange(ii + 1, ii + 7) =~= rgb_text(f)) by {
        assert(s.subrange(ii + 1, ii + 7) =~= t.subrange(1, 7));
    }
    assert(s.subrange(ii + 8, ii + 14) =~= rgb_text(g)) by {
        assert(s.subrange(ii + 8, ii + 14) =~= t.subrange(8, 14));
    }
    lemma_scan_rgb(s, ii + 1, f);
    lemma_scan_rgb(s, ii + 8, g);
    step_hex_both(s, i, b, f, g);
}


/// A stretch inside a stretch of `s` with known text
proof fn lemma_sub(s: Seq<char>, i: int, t: Seq<char>, a: int, e: int)
    requires
        0 <= i,
        i + t.len() <= s.len(),
        s.subrange(i, i + t.len()) == t,
        0 <= a <= e <= t.len(),
    ensures
        s.subrange(i + a, i + e) == t.subrange(a, e),
{
    assert forall|k: int| 0 <= k < e - a implies #[trigger] s.subrange(i + a, i + e)[k] == t.subrange(a, e)[k] by {
        assert(s.subrange(i, i + t.len())[a + k] == s[i + a + k]);
    }
    assert(s.subrange(i + a, i + e) =~= t.subrange(a, e));
}

/// The style after the color change `cd`
pub open spec fn apply_colors(st: StyleView, cd: ColorDiffView) -> StyleView {
    match cd {
        ColorDiffView::NoChange => st,
        ColorDiffView::Reset => with_bg(with_fg(st, default_color()), default_color()),
        ColorDiffView::SetFg(f) => with_fg(st, f),
        ColorDiffView::SetBoth(f, g) => with_bg(with_fg(st, f), g),
    }
}

/// A color that IRC formatting can spell: a color number below 100, or any
/// 24-bit color
pub open spec fn color_ok(c: ColorView) -> bool {
    match c {
        ColorView::Color100(n) => n < 100,
        ColorView::Rgb(_) => true,
    }
}

/// A style whose colors IRC formatting can spell
pub open spec fn style_ok(st: StyleView) -> bool {
    color_ok(st.foreground) && color_ok(st.background)
}

/// The colors of a color change can be spelled
pub open spec fn color_diff_ok(cd: ColorDiffView) -> bool {
    match cd {
        ColorDiffView::SetFg(f) => color_ok(f),
        ColorDiffView::SetBoth(f, g) => color_ok(f) && color_ok(g),
        _ => true,
    }
}

/// Text `c` is not read as part of the color code of `cd` before it
pub open spec fn safe_after_colors(cd: ColorDiffView, c: Seq<char>) -> bool {
    match cd {
        ColorDiffView::SetFg(ColorView::Color100(_)) => safe_after_color100(c),
        ColorDiffView::SetBoth(ColorView::Color100(_), ColorView::Rgb(_)) => safe_after_color100(c),
        ColorDiffView::SetFg(ColorView::Rgb(_)) => safe_after_rgb(c),
        ColorDiffView::SetBoth(ColorView::Rgb(_), ColorView::Color100(_)) => safe_after_rgb(c),
        _ => true,
    }
}

/// Text `c` is not read as part of the characters that change style
/// `before` into `after`
pub open spec fn segment_safe(before: StyleView, after: StyleView, c: Seq<char>) -> bool {
    match style_diff(before, after) {
        StyleDiffView::Delta(_, cd) => safe_after_colors(cd, c),
        StyleDiffView::Reset => true,
    }
}

/// A color code followed by text sets the colors and starts a span at the text
proof fn lemma_color_text(s: Seq<char>, i: nat, b: SpanBuilder, cd: ColorDiffView, c: Seq<char>)
    requires
        !(cd is NoChange),
        color_diff_ok(cd),
        i + color_text(cd, c).len() + c.len() <= s.len(),
        s.subrange(i as int, i + color_text(cd, c).len() + c.len() as int) == color_text(cd, c) + c,
        c.len() > 0,
        plain_text(c),
        safe_after_colors(cd, c),
        i + color_text(cd, c).len() + c.len() < s.len() ==> is_format_char(
            s[i + color_text(cd, c).len() + c.len() as int],
        ),
    ensures
        parse_from(s, i, b) == parse_from(
            s,
            (i + color_text(cd, c).len() + c.len()) as nat,
            after_code(b, i, apply_colors(open_style(b), cd), (i + color_text(cd, c).len()) as nat),
        ),
{
    let ii = i as int;
    let ct = color_text(cd, c);
    let n = ct.len() as int;
    let e = ii + n + c.len();
    let st = open_style(b);
    match cd {
        ColorDiffView::NoChange => {},
        ColorDiffView::Reset => {
            assert(n == 1 + reset_guard_len(c));
            lemma_reset_colors_text(s, i, b, c);
        },
        ColorDiffView::SetFg(ColorView::Color100(f)) => {
            assert(n == 3 + digit_guard_len(c));
            lemma_fg100_text(s, i, b, f, c);
        },
        ColorDiffView::SetFg(ColorView::Rgb(f)) => {
            lemma_hex2(f.0);
            lemma_hex2(f.1);
            lemma_hex2(f.2);
            assert(n == 7);
            lemma_fgrgb_text(s, i, b, f, c);
        },
        ColorDiffView::SetBoth(ColorView::Color100(f), ColorView::Color100(g)) => {
            assert(n == 6);
            lemma_sub(s, ii, ct + c, 0, 6);
            assert((ct + c).subrange(0, 6) =~= ct);
            lemma_both100(s, i, b, f, g);
            let b1 = restyle(b, i, with_bg(with_fg(st, ColorView::Color100(f)), ColorView::Color100(g)));
            lemma_sub(s, ii, ct + c, 6, n + c.len());
            assert((ct + c).subrange(6, n + c.len()) =~= c);
            lemma_plain_at(s, ii + 6, c);
            lemma_text(s, (ii + 6) as nat, e as nat, b1);
        },
        ColorDiffView::SetBoth(ColorView::Rgb(f), ColorView::Rgb(g)) => {
            lemma_hex2(f.0);
            lemma_hex2(f.1);
            lemma_hex2(f.2);
            lemma_hex2(g.0);
            lemma_hex2(g.1);
            lemma_hex2(g.2);
            assert(n == 14);
            lemma_sub(s, ii, ct + c, 0, 14);
            assert((ct + c).subrange(0, 14) =~= ct);
            lemma_bothrgb(s, i, b, f, g);
            let b1 = restyle(b, i, with_bg(with_fg(st, ColorView::Rgb(f)), ColorView::Rgb(g)));
            lemma_sub(s, ii, ct + c, 14, n + c.len());
            assert((ct + c).subrange(14, n + c.len()) =~= c);
            lemma_plain_at(s, ii + 14, c);
            lemma_text(s, (ii + 14) as nat, e as nat, b1);
        },
        ColorDiffView::SetBoth(ColorView::Color100(f), ColorView::Rgb(g)) => {
            let z = RgbColor(0, 0, 0);
            lemma_hex2(z.0);
            lemma_hex2(g.0);
            lemma_hex2(g.1);
            lemma_hex2(g.2);
            let head = seq![HEX_COLOR_CHAR] + rgb_text(z) + seq![','] + rgb_text(g);
            let tail = seq![COLOR_CHAR] + pad2(f) + super::digit_guard(starts_with_comma_digit(c));
            assert(ct =~= head + tail);
            assert(head.len() == 14);
            assert(n == 17 + digit_guard_len(c));
            lemma_sub(s, ii, ct + c, 0, 14);
            assert((ct + c).subrange(0, 14) =~= head);
            lemma_bothrgb(s, i, b, z, g);
            let b1 = restyle(b, i, with_bg(with_fg(st, ColorView::Rgb(z)), ColorView::Rgb(g)));
            lemma_sub(s, ii, ct + c, 14, n + c.len());
            assert((ct + c).subrange(14, n + c.len()) =~= tail + c);
            lemma_fg100_text(s, (ii + 14) as nat, b1, f, c);
            assert(with_fg(open_style(b1), ColorView::Color100(f)) == apply_colors(st, cd));
        },
        ColorDiffView::SetBoth(ColorView::Rgb(f), ColorView::Color100(g)) => {
            lemma_hex2(f.0);
            lemma_hex2(f.1);
            lemma_hex2(f.2);
            let head = seq![COLOR_CHAR] + pad2(99) + seq![','] + pad2(g);
            let tail = seq![HEX_COLOR_CHAR] + rgb_text(f);
            assert(ct =~= head + tail);
            assert(n == 13);
            lemma_sub(s, ii, ct + c, 0, 6);
            assert((ct + c).subrange(0, 6) =~= head);
            lemma_both100(s, i, b, 99, g);
            let b1 = restyle(b, i, with_bg(with_fg(st, ColorView::Color100(99)), ColorView::Color100(g)));
            lemma_sub(s, ii, ct + c, 6, n + c.len());
            assert((ct + c).subrange(6, n + c.len()) =~= tail + c);
            lemma_fgrgb_text(s, (ii + 6) as nat, b1, f, c);
            assert(with_fg(open_style(b1), ColorView::Rgb(f)) == apply_colors(st, cd));
        },
    }
}


/// Each toggle character is a formatting character
proof fn lemma_toggle_chars(t: Set<Attribute>)
    ensures
        toggle_text(t).len() == members_between(t, 0, 6).len(),
        forall|j: int| 0 <= j < toggle_text(t).len() ==> is_format_char(#[trigger] toggle_text(t)[j]),
{
}

/// Without toggle characters, the attributes to toggle are none
proof fn lemma_no_toggles(t: Set<Attribute>)
    requires
        toggle_text(t).len() == 0,
    ensures
        forall|x: Attribute| !t.contains(x),
{
    lemma_toggle_chars(t);
    lemma_no_members(t, 6);
    lemma_attr_order();
}

/// Toggling the attributes in exactly one of `a` and `b` turns `a` into `b`
proof fn lemma_toggle_diff(a: Set<Attribute>, b: Set<Attribute>)
    ensures
        prefix_toggle(a, attr_sym_diff(a, b), 6) == b,
{
    lemma_attr_order();
    assert(prefix_toggle(a, attr_sym_diff(a, b), 6) =~= b);
}

/// The characters that change one style into another are there and start
/// with a formatting character
proof fn lemma_diff_start(before: StyleView, after: StyleView, c: Seq<char>)
    requires
        before != after,
    ensures
        diff_text(before, after, c).len() > 0,
        is_format_char(diff_text(before, after, c)[0]),
{
    match style_diff(before, after) {
        StyleDiffView::Reset => {},
        StyleDiffView::Delta(t, cd) => {
            lemma_toggle_chars(t);
            let tt = toggle_text(t);
            let ct = color_text(cd, c);
            if tt.len() == 0 {
                lemma_no_toggles(t);
                if cd is NoChange {
                    assert(t == attr_sym_diff(before.attributes, after.attributes));
                    assert forall|x: Attribute| before.attributes.contains(x) == after.attributes.contains(x) by {
                        assert(!t.contains(x));
                    }
                    assert(before.attributes =~= after.attributes);
                    assert(false);
                }
                assert(ct.len() > 0);
                assert(ct[0] == COLOR_CHAR || ct[0] == HEX_COLOR_CHAR);
                assert(tt + ct =~= ct);
            } else {
                assert((tt + ct)[0] == tt[0]);
            }
        },
    }
}

/// The characters that change the style of `b` into `after`, then text `c`:
/// the open span is closed and a span of `c` in style `after` is opened
proof fn lemma_segment(s: Seq<char>, p: nat, b: SpanBuilder, after: StyleView, c: Seq<char>)
    requires
        style_ok(after),
        segment_safe(open_style(b), after, c),
        open_style(b) != after || b.open is Styling,
        p + diff_text(open_style(b), after, c).len() + c.len() <= s.len(),
        s.subrange(p as int, p + diff_text(open_style(b), after, c).len() + c.len() as int) == diff_text(
            open_style(b),
            after,
            c,
        ) + c,
        c.len() > 0,
        plain_text(c),
        p + diff_text(open_style(b), after, c).len() + c.len() < s.len() ==> is_format_char(
            s[p + diff_text(open_style(b), after, c).len() + c.len() as int],
        ),
    ensures
        parse_from(s, p, b) == parse_from(
            s,
            (p + diff_text(open_style(b), after, c).len() + c.len()) as nat,
            SpanBuilder {
                closed: close_at(b, p),
                open: OpenSpan::Spanning(after, (p + diff_text(open_style(b), after, c).len()) as nat),
            },
        ),
{
    let before = open_style(b);
    let d = diff_text(before, after, c);
    let pp = p as int;
    let e = pp + d.len() + c.len();
    match style_diff(before, after) {
        StyleDiffView::Reset => {
            lemma_at(s, pp, d + c, 0);
            step_reset(s, p, b);
            let b1 = restyle(b, p, default_style());
            lemma_sub(s, pp, d + c, 1, (d.len() + c.len()) as int);
            assert((d + c).subrange(1, (d.len() + c.len()) as int) =~= c);
            lemma_plain_at(s, pp + 1, c);
            lemma_text(s, (pp + 1) as nat, e as nat, b1);
        },
        StyleDiffView::Delta(t, cd) => {
            let tt = toggle_text(t);
            let ct = color_text(cd, c);
            let n = tt.len() as int;
            assert(d == tt + ct);
            lemma_toggle_chars(t);
            lemma_sub(s, pp, d + c, 0, n);
            assert((d + c).subrange(0, n) =~= tt);
            lemma_toggles(s, p, b, t, 6);
            let tb = toggled_builder(b, p, t, 6);
            let stt = StyleView { attributes: prefix_toggle(before.attributes, t, 6), ..before };
            lemma_toggle_diff(before.attributes, after.attributes);
            if n == 0 {
                lemma_no_toggles(t);
                assert(prefix_toggle(before.attributes, t, 6) =~= before.attributes);
            }
            assert(open_style(tb) == stt);
            assert(stt.attributes == after.attributes);
            assert(close_at(tb, (pp + n) as nat) == close_at(b, p));
            if cd is NoChange {
                assert(stt == after);
                assert(ct.len() == 0);
                lemma_sub(s, pp, d + c, n, (d.len() + c.len()) as int);
                assert((d + c).subrange(n, (d.len() + c.len()) as int) =~= c);
                lemma_plain_at(s, pp + n, c);
                lemma_text(s, (pp + n) as nat, e as nat, tb);
                if n == 0 {
                    assert(before == after);
                }
            } else {
                lemma_sub(s, pp, d + c, n, (d.len() + c.len()) as int);
                assert((d + c).subrange(n, (d.len() + c.len()) as int) =~= ct + c);
                lemma_color_text(s, (pp + n) as nat, tb, cd, c);
                assert(apply_colors(stt, cd) == after);
            }
        },
    }
}


/// The style before span `k` of `v`: the default style before the first span
pub open spec fn style_before(v: Seq<(StyleView, Seq<char>)>, k: int) -> StyleView {
    if k == 0 {
        default_style()
    } else {
        v[k - 1].0
    }
}

/// Span `k` of `v` comes back from formatting and parsing: its text is not
/// empty and holds no formatting character, its colors can be spelled, its
/// style differs from the style before it (but for the first span), and its
/// text is not read as part of the color code before it
pub open spec fn span_round_trips(v: Seq<(StyleView, Seq<char>)>, k: int) -> bool {
    let prev = style_before(v, k);
    &&& v[k].1.len() > 0
    &&& plain_text(v[k].1)
    &&& style_ok(v[k].0)
    &&& (k > 0 ==> v[k].0 != prev)
    &&& segment_safe(prev, v[k].0, v[k].1)
}

/// Every span of `v` comes back from formatting and parsing
pub open spec fn spans_round_trip(v: Seq<(StyleView, Seq<char>)>) -> bool {
    forall|k: int| 0 <= k < v.len() ==> #[trigger] span_round_trips(v, k)
}

/// The spans of `s` that the ranges `r` mark
pub open spec fn text_ranges(r: Seq<(StyleView, nat, nat)>, s: Seq<char>) -> Seq<(StyleView, Seq<char>)> {
    r.map_values(|x: (StyleView, nat, nat)| (x.0, s.subrange(x.1 as int, x.2 as int)))
}

/// Parsing the formatted text of the spans of `v` from index `k` on adds
/// those spans to the ones closed so far
proof fn lemma_format_parse(v: Seq<(StyleView, Seq<char>)>, k: int, s: Seq<char>, p: nat, b: SpanBuilder)
    requires
        spans_round_trip(v),
        0 <= k <= v.len(),
        open_style(b) == style_before(v, k),
        k == 0 ==> b.open is Styling,
        p + format_from(v, k, style_before(v, k)).len() == s.len(),
        s.subrange(p as int, s.len() as int) == format_from(v, k, style_before(v, k)),
    ensures
        text_ranges(close_at(parse_from(s, p, b), s.len()), s) == text_ranges(close_at(b, p), s) + v.subrange(
            k,
            v.len() as int,
        ),
    decreases v.len() - k,
{
    let prev = style_before(v, k);
    if k == v.len() {
        reveal(parse_from);
        assert(v.subrange(k, k) =~= Seq::<(StyleView, Seq<char>)>::empty());
        assert(text_ranges(close_at(b, p), s) + Seq::<(StyleView, Seq<char>)>::empty() =~= text_ranges(close_at(b, p), s));
    } else {
        assert(span_round_trips(v, k));
        let c = v[k].1;
        let st = v[k].0;
        let d = diff_text(prev, st, c);
        let rest = format_from(v, k + 1, st);
        assert(style_before(v, k + 1) == st);
        assert(format_from(v, k, prev) == d + c + rest);
        let pp = p as int;
        let q0 = pp + d.len();
        let e = q0 + c.len();
        let whole = d + c + rest;
        lemma_sub(s, pp, whole, 0, (d.len() + c.len()) as int);
        assert(whole.subrange(0, (d.len() + c.len()) as int) =~= d + c);
        lemma_sub(s, pp, whole, (d.len() + c.len()) as int, whole.len() as int);
        assert(whole.subrange((d.len() + c.len()) as int, whole.len() as int) =~= rest);
        if e < s.len() {
            assert(rest.len() > 0);
            if k + 1 >= v.len() {
                assert(rest.len() == 0);
            }
            assert(span_round_trips(v, k + 1));
            let c2 = v[k + 1].1;
            lemma_diff_start(st, v[k + 1].0, c2);
            assert(rest == diff_text(st, v[k + 1].0, c2) + c2 + format_from(v, k + 2, v[k + 1].0));
            assert(rest[0] == diff_text(st, v[k + 1].0, c2)[0]);
            assert(s.subrange(e, s.len() as int)[0] == s[e]);
        }
        lemma_segment(s, p, b, st, c);
        let b2 = SpanBuilder { closed: close_at(b, p), open: OpenSpan::Spanning(st, q0 as nat) };
        lemma_format_parse(v, k + 1, s, e as nat, b2);
        assert(close_at(b2, e as nat) == close_at(b, p).push((st, q0 as nat, e as nat)));
        lemma_sub(s, pp, whole, d.len() as int, (d.len() + c.len()) as int);
        assert(whole.subrange(d.len() as int, (d.len() + c.len()) as int) =~= c);
        assert(text_ranges(close_at(b2, e as nat), s) =~= text_ranges(close_at(b, p), s).push(v[k]));
        assert(v.subrange(k, v.len() as int) =~= seq![v[k]] + v.subrange(k + 1, v.len() as int));
        assert(text_ranges(close_at(b, p), s).push(v[k]) + v.subrange(k + 1, v.len() as int) =~= text_ranges(
            close_at(b, p),
            s,
        ) + v.subrange(k, v.len() as int));
    }
}

/// Formatting spans and parsing the text gives the same spans back, when
/// each span has text without formatting characters, colors that can be
/// spelled, a style other than the one before it, and text that the color
/// code before it does not absorb
pub proof fn lemma_parse_format(v: Seq<(StyleView, Seq<char>)>)
    requires
        spans_round_trip(v),
    ensures
        parse_spans(format_spans(v)) == v,
{
    let s = format_spans(v);
    let b0 = SpanBuilder { closed: Seq::empty(), open: OpenSpan::Styling(default_style()) };
    assert(s.subrange(0, s.len() as int) =~= s);
    lemma_format_parse(v, 0, s, 0, b0);
    assert(text_ranges(close_at(b0, 0), s) =~= Seq::<(StyleView, Seq<char>)>::empty());
    assert(v.subrange(0, v.len() as int) =~= v);
    assert(Seq::<(StyleView, Seq<char>)>::empty() + v =~= v);
    assert(parse_spans(s) =~= text_ranges(close_at(parse_from(s, 0, b0), s.len()), s));
}

} // verus!
