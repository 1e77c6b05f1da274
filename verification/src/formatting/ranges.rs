//! The spans that parsing gives are pieces of the input text, without
//! formatting characters, in order.
use super::{
    lemma_hex_run, close_at, default_style, digit_at, is_format_char, mark_text, open_style,
    parse_from, parse_spans, restyle, scan_color100, scan_rgbcolor, toggle_of, OpenSpan,
    SpanBuilder, StyleView, COLOR_CHAR, HEX_COLOR_CHAR, RESET_CHAR,
};
use crate::text::{is_ascii_digit, is_hex_digit};
use vstd::prelude::*;

verus! {

/// No formatting character stands in `s` from `a` up to `e`
pub open spec fn plain_between(s: Seq<char>, a: int, e: int) -> bool {
    forall|j: int| a <= j < e ==> !is_format_char(#[trigger] s[j])
}

/// A range of text in `s`: not empty, inside `s`, without formatting characters
pub open spec fn text_range(s: Seq<char>, r: (StyleView, nat, nat)) -> bool {
    r.1 < r.2 <= s.len() && plain_between(s, r.1 as int, r.2 as int)
}

/// The ranges `rs` of text in `s`, in order and apart
pub open spec fn text_ranges_in(s: Seq<char>, rs: Seq<(StyleView, nat, nat)>) -> bool {
    &&& forall|k: int| 0 <= k < rs.len() ==> #[trigger] text_range(s, rs[k])
    &&& forall|k: int, m: int| 0 <= k < m < rs.len() ==> #[trigger] rs[k].2 <= #[trigger] rs[m].1
}

/// Where the closed ranges end: 0 if there are none
pub open spec fn closed_end(b: SpanBuilder) -> nat {
    if b.closed.len() == 0 {
        0
    } else {
        b.closed.last().2
    }
}

/// Parsing progress at position `i` of `s` whose ranges are text of `s`
pub open spec fn progress_ok(s: Seq<char>, i: nat, b: SpanBuilder) -> bool {
    &&& i <= s.len()
    &&& text_ranges_in(s, b.closed)
    &&& closed_end(b) <= i
    &&& b.open matches OpenSpan::Spanning(_, q) ==> closed_end(b) <= q <= i && plain_between(s, q as int, i as int)
}

/// The ranges of the spans that parsing `s` gives
pub open spec fn parse_ranges(s: Seq<char>) -> Seq<(StyleView, nat, nat)> {
    close_at(
        parse_from(s, 0, SpanBuilder { closed: Seq::empty(), open: OpenSpan::Styling(default_style()) }),
        s.len(),
    )
}

/// Changing the style closes the open span as a range of text
proof fn lemma_restyle_ok(s: Seq<char>, i: nat, b: SpanBuilder, st: StyleView)
    requires
        progress_ok(s, i, b),
    ensures
        progress_ok(s, i, restyle(b, i, st)),
{
    let c = close_at(b, i);
    if let OpenSpan::Spanning(sv, q) = b.open {
        if q < i {
            assert(c == b.closed.push((sv, q, i)));
            assert(text_range(s, (sv, q, i)));
            assert forall|k: int, m: int| 0 <= k < m < c.len() implies #[trigger] c[k].2 <= #[trigger] c[m].1 by {
                if m == c.len() - 1 && k < b.closed.len() {
                    assert(b.closed[k].2 <= closed_end(b)) by {
                        if k < b.closed.len() - 1 {
                            assert(b.closed[k].2 <= b.closed[b.closed.len() - 1].1);
                            assert(text_range(s, b.closed[b.closed.len() - 1]));
                        }
                    }
                }
            }
            assert forall|k: int| 0 <= k < c.len() implies #[trigger] text_range(s, c[k]) by {
                if k < b.closed.len() {
                    assert(text_range(s, b.closed[k]));
                }
            }
        }
    }
}

/// A restyled or marked progress without an open span moves on freely
proof fn lemma_advance_styling(s: Seq<char>, i: nat, i2: nat, b: SpanBuilder)
    requires
        progress_ok(s, i, b),
        b.open is Styling,
        i <= i2 <= s.len(),
    ensures
        progress_ok(s, i2, b),
{
}

/// An open span moves on over text without formatting characters
proof fn lemma_extend(s: Seq<char>, i: nat, i2: nat, b: SpanBuilder)
    requires
        progress_ok(s, i, b),
        b.open is Spanning,
        i <= i2 <= s.len(),
        plain_between(s, i as int, i2 as int),
    ensures
        progress_ok(s, i2, b),
{
    if let OpenSpan::Spanning(_, q) = b.open {
        assert forall|j: int| q <= j < i2 implies !is_format_char(#[trigger] s[j]) by {
            if j < i {
                assert(plain_between(s, q as int, i as int));
            }
        }
    }
}

/// Text starts a span at `i`
proof fn lemma_mark_ok(s: Seq<char>, i: nat, b: SpanBuilder)
    requires
        progress_ok(s, i, b),
    ensures
        progress_ok(s, i, mark_text(b, i)),
{
}

/// Hex digits and commas are no formatting characters
proof fn lemma_not_format(c: char)
    requires
        is_hex_digit(c) || c == ',' || is_ascii_digit(c),
    ensures
        !is_format_char(c),
{
}

/// The digits of a color number lie inside `s`
proof fn lemma_scan_color100_bounds(s: Seq<char>, j: int)
    requires
        0 <= j,
    ensures
        scan_color100(s, j) matches Some((_, n)) ==> 1 <= n <= 2 && j + n <= s.len() && forall|k: int|
            j <= k < j + n ==> is_ascii_digit(#[trigger] s[k]),
{
}

/// Parsing keeps the ranges of the spans text of `s`, in order
proof fn lemma_parse_ok(s: Seq<char>, i: nat, b: SpanBuilder)
    requires
        progress_ok(s, i, b),
    ensures
        progress_ok(s, s.len(), parse_from(s, i, b)),
    decreases s.len() - i,
{
    reveal(parse_from);
    if i < s.len() {
        let c = s[i as int];
        let st = open_style(b);
        if toggle_of(c) is Some || c == RESET_CHAR {
            let st2 = if c == RESET_CHAR {
                default_style()
            } else {
                StyleView { attributes: super::toggle_attr(st.attributes, toggle_of(c)->Some_0), ..st }
            };
            lemma_restyle_ok(s, i, b, st2);
            lemma_advance_styling(s, i, i + 1, restyle(b, i, st2));
            lemma_parse_ok(s, i + 1, restyle(b, i, st2));
        } else if c == COLOR_CHAR {
            lemma_scan_color100_bounds(s, i + 1 as int);
            match scan_color100(s, i + 1 as int) {
                None => {
                    let b1 = restyle(b, i, super::with_bg(super::with_fg(st, super::default_color()), super::default_color()));
                    lemma_restyle_ok(s, i, b, b1.open->Styling_0);
                    lemma_advance_styling(s, i, i + 1, b1);
                    lemma_parse_ok(s, i + 1, b1);
                },
                Some((fg, n1)) => {
                    let st1 = super::with_fg(st, super::ColorView::Color100(fg));
                    let j = i + 1 + n1;
                    let comma = j < s.len() && s[j as int] == ',';
                    let j2 = if comma { j + 1 } else { j };
                    lemma_scan_color100_bounds(s, j2 as int);
                    match scan_color100(s, j2 as int) {
                        Some((bg, n2)) => {
                            let b1 = restyle(b, i, super::with_bg(st1, super::ColorView::Color100(bg)));
                            lemma_restyle_ok(s, i, b, b1.open->Styling_0);
                            lemma_advance_styling(s, i, (j2 + n2) as nat, b1);
                            lemma_parse_ok(s, (j2 + n2) as nat, b1);
                        },
                        None => {
                            let b1 = restyle(b, i, st1);
                            lemma_restyle_ok(s, i, b, st1);
                            if comma {
                                lemma_advance_styling(s, i, j as nat, b1);
                                lemma_mark_ok(s, j as nat, b1);
                                lemma_not_format(s[j as int]);
                                lemma_extend(s, j as nat, j2 as nat, mark_text(b1, j as nat));
                                lemma_parse_ok(s, j2 as nat, mark_text(b1, j as nat));
                            } else {
                                lemma_advance_styling(s, i, j2 as nat, b1);
                                lemma_parse_ok(s, j2 as nat, b1);
                            }
                        },
                    }
                },
            }
        } else if c == HEX_COLOR_CHAR {
            lemma_hex_run(s, i + 1 as int, 6);
            match scan_rgbcolor(s, i + 1 as int) {
                (None, n1) => {
                    let b1 = restyle(b, i, super::with_bg(super::with_fg(st, super::default_color()), super::default_color()));
                    lemma_restyle_ok(s, i, b, b1.open->Styling_0);
                    lemma_advance_styling(s, i, i + 1, b1);
                    lemma_mark_ok(s, i + 1, b1);
                    assert forall|k: int| i + 1 <= k < i + 1 + n1 implies !is_format_char(#[trigger] s[k]) by {
                        lemma_not_format(s[k]);
                    }
                    lemma_extend(s, i + 1, i + 1 + n1, mark_text(b1, i + 1));
                    lemma_parse_ok(s, i + 1 + n1, mark_text(b1, i + 1));
                },
                (Some(fg), n1) => {
                    let st1 = super::with_fg(st, super::ColorView::Rgb(fg));
                    let j = i + 1 + n1;
                    let comma = j < s.len() && s[j as int] == ',';
                    let j2 = if comma { j + 1 } else { j };
                    lemma_hex_run(s, j2 as int, 6);
                    match scan_rgbcolor(s, j2 as int) {
                        (Some(bg), n2) => {
                            let b1 = restyle(b, i, super::with_bg(st1, super::ColorView::Rgb(bg)));
                            lemma_restyle_ok(s, i, b, b1.open->Styling_0);
                            lemma_advance_styling(s, i, (j2 + n2) as nat, b1);
                            lemma_parse_ok(s, (j2 + n2) as nat, b1);
                        },
                        (None, n2) => {
                            let b1 = restyle(b, i, st1);
                            lemma_restyle_ok(s, i, b, st1);
                            if comma {
                                lemma_advance_styling(s, i, j as nat, b1);
                                lemma_mark_ok(s, j as nat, b1);
                                assert forall|k: int| j <= k < j2 + n2 implies !is_format_char(#[trigger] s[k]) by {
                                    lemma_not_format(s[k]);
                                }
                                lemma_extend(s, j as nat, (j2 + n2) as nat, mark_text(b1, j as nat));
                                lemma_parse_ok(s, (j2 + n2) as nat, mark_text(b1, j as nat));
                            } else {
                                lemma_advance_styling(s, i, (j2 + n2) as nat, b1);
                                lemma_parse_ok(s, (j2 + n2) as nat, b1);
                            }
                        },
                    }
                },
            }
        } else {
            assert(!is_format_char(c));
            lemma_mark_ok(s, i, b);
            lemma_extend(s, i, i + 1, mark_text(b, i));
            lemma_parse_ok(s, i + 1, mark_text(b, i));
        }
    }
}

/// Parsing a line gives spans whose texts are nonempty pieces of the line,
/// without formatting characters, in the order of the line and apart: span
/// `k` holds the text of range `k` of [`parse_ranges`]
pub proof fn lemma_parse_ranges(s: Seq<char>)
    ensures
        text_ranges_in(s, parse_ranges(s)),
        parse_spans(s).len() == parse_ranges(s).len(),
        forall|k: int| 0 <= k < parse_ranges(s).len() ==> #[trigger] parse_spans(s)[k] == (
            parse_ranges(s)[k].0,
            s.subrange(parse_ranges(s)[k].1 as int, parse_ranges(s)[k].2 as int),
        ),
{
    let b0 = SpanBuilder { closed: Seq::empty(), open: OpenSpan::Styling(default_style()) };
    lemma_parse_ok(s, 0, b0);
    let b = parse_from(s, 0, b0);
    lemma_restyle_ok(s, s.len(), b, default_style());
}

} // verus!
