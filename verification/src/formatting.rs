//! IRC text formatting: attributes, colors, styles, and styled lines.
mod attributes;
mod color100;
mod rgbcolor;
pub mod ansi;
pub mod ranges;
pub mod roundtrip;
pub use self::attributes::{
    all_attributes, attr_bit, attr_count, attr_index, bits_set, count_in, full_attr_set, has_bit,
    lemma_attr_order, lemma_members_back, members_between, Attribute, AttributeSet, AttributeSetIter,
};
pub use self::color100::{
    ansi_index_of, ansi_mapped_count, color_of_ansi, lemma_ansi_inverse, lemma_ansi_mapped_count,
    lemma_ansi_roundtrip, Color100,
    Color100TryFromIntError,
};
pub use self::rgbcolor::RgbColor;
pub use self::ranges::{lemma_parse_ranges, parse_ranges};
pub use self::roundtrip::{lemma_parse_format, spans_round_trip};
use crate::numfmt::{char_from_digit, digit_char, hex2, push_hex2};
use crate::text::{push_char, push_str, char_is_ascii_digit, char_is_hex_digit, chars_of, is_ascii_digit, is_hex_digit, string_from, string_of};
use vstd::prelude::*;
use vstd::std_specs::convert::FromSpecImpl;

verus! {

pub const BOLD_CHAR: char = '\x02';
pub const ITALIC_CHAR: char = '\x1D';
pub const UNDERLINE_CHAR: char = '\x1F';
pub const STRIKETHROUGH_CHAR: char = '\x1E';
pub const MONOSPACE_CHAR: char = '\x11';
pub const COLOR_CHAR: char = '\x03';
pub const HEX_COLOR_CHAR: char = '\x04';
pub const REVERSE_CHAR: char = '\x16';
pub const RESET_CHAR: char = '\x0F';

/// The abstract content of a [`Color`]
pub enum ColorView {
    Color100(u8),
    Rgb(RgbColor),
}

/// A text color: one of the 100 numbered IRC colors, or a 24-bit color
#[derive(Clone, Copy, Debug, PartialEq, Eq, Hash)]
pub enum Color {
    Color100(Color100),
    Rgb(RgbColor),
}

impl View for Color {
    type V = ColorView;

    open spec fn view(&self) -> ColorView {
        match self {
            Color::Color100(c) => ColorView::Color100(c@),
            Color::Rgb(c) => ColorView::Rgb(*c),
        }
    }
}

/// The default color: IRC color 99
pub open spec fn default_color() -> ColorView {
    ColorView::Color100(99)
}

impl Color {
    /// Whether the two colors are the same
    pub fn same_as(self, other: Color) -> (r: bool)
        ensures
            r == (self@ == other@),
    {
        match (self, other) {
            (Color::Color100(a), Color::Color100(b)) => a.value() == b.value(),
            (Color::Rgb(a), Color::Rgb(b)) => a.0 == b.0 && a.1 == b.1 && a.2 == b.2,
            _ => false,
        }
    }
}

impl Default for Color {
    fn default() -> (r: Color)
        ensures
            r@ == default_color(),
    {
        Color::Color100(Color100::default())
    }
}

impl From<Color100> for Color {
    fn from(value: Color100) -> (r: Color)
        ensures
            r == Color::Color100(value),
    {
        Color::Color100(value)
    }
}

impl FromSpecImpl<Color100> for Color {
    open spec fn obeys_from_spec() -> bool {
        true
    }

    open spec fn from_spec(v: Color100) -> Color {
        Color::Color100(v)
    }
}

impl From<RgbColor> for Color {
    fn from(value: RgbColor) -> (r: Color)
        ensures
            r == Color::Rgb(value),
    {
        Color::Rgb(value)
    }
}

impl FromSpecImpl<RgbColor> for Color {
    open spec fn obeys_from_spec() -> bool {
        true
    }

    open spec fn from_spec(v: RgbColor) -> Color {
        Color::Rgb(v)
    }
}

/// The abstract content of a [`Style`]
pub struct StyleView {
    pub foreground: ColorView,
    pub background: ColorView,
    pub attributes: Set<Attribute>,
}

/// The colors and attributes of a piece of text
#[derive(Clone, Copy, Debug, PartialEq, Eq, Hash)]
pub struct Style {
    pub foreground: Color,
    pub background: Color,
    pub attributes: AttributeSet,
}

impl View for Style {
    type V = StyleView;

    open spec fn view(&self) -> StyleView {
        StyleView {
            foreground: self.foreground@,
            background: self.background@,
            attributes: self.attributes@,
        }
    }
}

/// The default style: default colors and no attributes
pub open spec fn default_style() -> StyleView {
    StyleView {
        foreground: default_color(),
        background: default_color(),
        attributes: Set::empty(),
    }
}

impl Default for Style {
    fn default() -> (r: Style)
        ensures
            r@ == default_style(),
    {
        Style { foreground: Color::default(), background: Color::default(), attributes: AttributeSet::new() }
    }
}

impl Style {
    /// Whether the two styles are the same
    pub fn same_as(self, other: Style) -> (r: bool)
        ensures
            r == (self@ == other@),
    {
        self.foreground.same_as(other.foreground) && self.background.same_as(other.background)
            && self.attributes.same_as(other.attributes)
    }

    /// Whether the style is the default style
    pub fn is_plain(self) -> (r: bool)
        ensures
            r == (self@ == default_style()),
    {
        self.same_as(Style::default())
    }

    /// Whether the text is hidden: the foreground and background colors are
    /// the same, and not the default color
    pub fn is_spoiler(self) -> (r: bool)
        ensures
            r == (self@.foreground == self@.background && self@.foreground != default_color()),
    {
        self.foreground.same_as(self.background) && !self.foreground.same_as(Color::default())
    }
}

/// A piece of text with one style
#[derive(Clone, Debug, PartialEq, Eq, Hash)]
pub struct StyledSpan {
    pub style: Style,
    pub content: String,
}

impl View for StyledSpan {
    type V = (StyleView, Seq<char>);

    open spec fn view(&self) -> (StyleView, Seq<char>) {
        (self.style@, self.content@)
    }
}

impl From<String> for StyledSpan {
    fn from(value: String) -> (r: StyledSpan)
        ensures
            r@ == (default_style(), value@),
    {
        StyledSpan { style: Style::default(), content: value }
    }
}

impl FromSpecImpl<String> for StyledSpan {
    open spec fn obeys_from_spec() -> bool {
        false
    }

    open spec fn from_spec(v: String) -> StyledSpan {
        arbitrary()
    }
}

impl FromSpecImpl<&str> for StyledSpan {
    open spec fn obeys_from_spec() -> bool {
        false
    }

    open spec fn from_spec(v: &str) -> StyledSpan {
        arbitrary()
    }
}

impl From<&str> for StyledSpan {
    fn from(value: &str) -> (r: StyledSpan)
        ensures
            r@ == (default_style(), value@),
    {
        StyledSpan { style: Style::default(), content: string_from(value) }
    }
}

/// A line of text made of styled pieces
#[derive(Clone, Debug, PartialEq, Eq, Hash)]
pub struct StyledLine(pub Vec<StyledSpan>);

impl View for StyledLine {
    type V = Seq<(StyleView, Seq<char>)>;

    open spec fn view(&self) -> Seq<(StyleView, Seq<char>)> {
        self.0@.map_values(|s: StyledSpan| s@)
    }
}

impl From<StyledSpan> for StyledLine {
    fn from(value: StyledSpan) -> (r: StyledLine)
        ensures
            r@ == seq![value@],
    {
        let r = StyledLine(vec![value]);
        assert(r@ =~= seq![value@]);
        r
    }
}

impl FromSpecImpl<StyledSpan> for StyledLine {
    open spec fn obeys_from_spec() -> bool {
        false
    }

    open spec fn from_spec(v: StyledSpan) -> StyledLine {
        arbitrary()
    }
}

/// Whether `c` starts or changes formatting
pub open spec fn is_format_char(c: char) -> bool {
    c == BOLD_CHAR || c == ITALIC_CHAR || c == UNDERLINE_CHAR || c == STRIKETHROUGH_CHAR
        || c == MONOSPACE_CHAR || c == COLOR_CHAR || c == HEX_COLOR_CHAR || c == REVERSE_CHAR
        || c == RESET_CHAR
}

/// The attribute that `c` toggles, if any
pub open spec fn toggle_of(c: char) -> Option<Attribute> {
    if c == BOLD_CHAR {
        Some(Attribute::Bold)
    } else if c == ITALIC_CHAR {
        Some(Attribute::Italic)
    } else if c == UNDERLINE_CHAR {
        Some(Attribute::Underline)
    } else if c == STRIKETHROUGH_CHAR {
        Some(Attribute::Strikethrough)
    } else if c == MONOSPACE_CHAR {
        Some(Attribute::Monospace)
    } else if c == REVERSE_CHAR {
        Some(Attribute::Reverse)
    } else {
        None
    }
}

/// The character that toggles `a`
pub open spec fn attr_char(a: Attribute) -> char {
    match a {
        Attribute::Bold => BOLD_CHAR,
        Attribute::Italic => ITALIC_CHAR,
        Attribute::Underline => UNDERLINE_CHAR,
        Attribute::Strikethrough => STRIKETHROUGH_CHAR,
        Attribute::Monospace => MONOSPACE_CHAR,
        Attribute::Reverse => REVERSE_CHAR,
    }
}

/// The formatting characters: `\x02` toggles bold, `\x1D` italic, `\x1F`
/// underline, `\x1E` strikethrough, `\x11` monospace, and `\x16` reverse;
/// `\x03` and `\x04` start a color and `\x0F` resets; no other character
/// formats
pub proof fn lemma_format_chars(c: char)
    ensures
        toggle_of('\x02') == Some(Attribute::Bold) && attr_char(Attribute::Bold) == '\x02',
        toggle_of('\x1D') == Some(Attribute::Italic) && attr_char(Attribute::Italic) == '\x1D',
        toggle_of('\x1F') == Some(Attribute::Underline) && attr_char(Attribute::Underline) == '\x1F',
        toggle_of('\x1E') == Some(Attribute::Strikethrough) && attr_char(Attribute::Strikethrough) == '\x1E',
        toggle_of('\x11') == Some(Attribute::Monospace) && attr_char(Attribute::Monospace) == '\x11',
        toggle_of('\x16') == Some(Attribute::Reverse) && attr_char(Attribute::Reverse) == '\x16',
        COLOR_CHAR == '\x03' && HEX_COLOR_CHAR == '\x04' && RESET_CHAR == '\x0F',
        is_format_char(c) <==> (c == '\x02' || c == '\x1D' || c == '\x1F' || c == '\x1E' || c == '\x11'
            || c == '\x03' || c == '\x04' || c == '\x16' || c == '\x0F'),
        toggle_of(c) is Some <==> (c == '\x02' || c == '\x1D' || c == '\x1F' || c == '\x1E' || c == '\x11'
            || c == '\x16'),
{
}

/// `s` with `a` added if absent and removed if present
pub open spec fn toggle_attr(s: Set<Attribute>, a: Attribute) -> Set<Attribute> {
    if s.contains(a) {
        s.remove(a)
    } else {
        s.insert(a)
    }
}

/// Whether position `j` of `s` holds an ASCII digit
pub open spec fn digit_at(s: Seq<char>, j: int) -> bool {
    0 <= j < s.len() && is_ascii_digit(s[j])
}

/// The value of an ASCII digit or hex digit
pub open spec fn hex_value(c: char) -> nat {
    if '0' <= c <= '9' {
        (c as int - '0' as int) as nat
    } else if 'a' <= c <= 'f' {
        (c as int - 'a' as int + 10) as nat
    } else {
        (c as int - 'A' as int + 10) as nat
    }
}

/// An IRC color number of one or two digits at position `j` of `s`, with the
/// number of digits read
pub open spec fn scan_color100(s: Seq<char>, j: int) -> Option<(u8, nat)> {
    if !digit_at(s, j) {
        None
    } else if digit_at(s, j + 1) {
        Some(((hex_value(s[j]) * 10 + hex_value(s[j + 1])) as u8, 2))
    } else {
        Some((hex_value(s[j]) as u8, 1))
    }
}

/// The number of hex digits, at most `n`, that start at position `j` of `s`
pub open spec fn hex_run(s: Seq<char>, j: int, n: nat) -> nat
    decreases n,
{
    if n == 0 || j < 0 || j >= s.len() || !is_hex_digit(s[j]) {
        0
    } else {
        1 + hex_run(s, j + 1, (n - 1) as nat)
    }
}

/// A color of six hex digits at position `j` of `s`, if there is one, with
/// the number of hex digits read either way
pub open spec fn scan_rgbcolor(s: Seq<char>, j: int) -> (Option<RgbColor>, nat) {
    let m = hex_run(s, j, 6);
    if m == 6 {
        (
            Some(
                RgbColor(
                    (hex_value(s[j]) * 16 + hex_value(s[j + 1])) as u8,
                    (hex_value(s[j + 2]) * 16 + hex_value(s[j + 3])) as u8,
                    (hex_value(s[j + 4]) * 16 + hex_value(s[j + 5])) as u8,
                ),
            ),
            6,
        )
    } else {
        (None, m)
    }
}

/// The span being built while parsing: either only a style so far, or a
/// style with the position where its text starts
pub enum OpenSpan {
    Styling(StyleView),
    Spanning(StyleView, nat),
}

/// Parsing progress: the spans closed so far, as styles with the ranges of
/// their text, and the open span
pub struct SpanBuilder {
    pub closed: Seq<(StyleView, nat, nat)>,
    pub open: OpenSpan,
}

/// The style of the open span
pub open spec fn open_style(b: SpanBuilder) -> StyleView {
    match b.open {
        OpenSpan::Styling(st) => st,
        OpenSpan::Spanning(st, _) => st,
    }
}

/// Closes the open span at position `i`, keeping it if it holds text
pub open spec fn close_at(b: SpanBuilder, i: nat) -> Seq<(StyleView, nat, nat)> {
    match b.open {
        OpenSpan::Spanning(st, start) => if start < i {
            b.closed.push((st, start, i))
        } else {
            b.closed
        },
        OpenSpan::Styling(_) => b.closed,
    }
}

/// Changes the style to `st` at position `i`
pub open spec fn restyle(b: SpanBuilder, i: nat, st: StyleView) -> SpanBuilder {
    SpanBuilder { closed: close_at(b, i), open: OpenSpan::Styling(st) }
}

/// Marks position `i` as text: the open span's text starts there unless it
/// has started already
pub open spec fn mark_text(b: SpanBuilder, i: nat) -> SpanBuilder {
    match b.open {
        OpenSpan::Styling(st) => SpanBuilder { closed: b.closed, open: OpenSpan::Spanning(st, i) },
        OpenSpan::Spanning(_, _) => b,
    }
}

/// `st` with foreground `c`
pub open spec fn with_fg(st: StyleView, c: ColorView) -> StyleView {
    StyleView { foreground: c, ..st }
}

/// `st` with background `c`
pub open spec fn with_bg(st: StyleView, c: ColorView) -> StyleView {
    StyleView { background: c, ..st }
}

/// Parses `s` from position `i` with progress `b`
#[verifier::opaque]
pub open spec fn parse_from(s: Seq<char>, i: nat, b: SpanBuilder) -> SpanBuilder
    decreases s.len() - i,
{
    if i >= s.len() {
        b
    } else {
        let c = s[i as int];
        let st = open_style(b);
        if toggle_of(c) is Some {
            parse_from(s, i + 1, restyle(b, i, StyleView { attributes: toggle_attr(st.attributes, toggle_of(c)->Some_0), ..st }))
        } else if c == RESET_CHAR {
            parse_from(s, i + 1, restyle(b, i, default_style()))
        } else if c == COLOR_CHAR {
            match scan_color100(s, i + 1 as int) {
                None => parse_from(s, i + 1, restyle(b, i, with_bg(with_fg(st, default_color()), default_color()))),
                Some((fg, n1)) => {
                    let st1 = with_fg(st, ColorView::Color100(fg));
                    let j = i + 1 + n1;
                    let comma = j < s.len() && s[j as int] == ',';
                    let j2 = if comma { j + 1 } else { j };
                    match scan_color100(s, j2 as int) {
                        Some((bg, n2)) => parse_from(s, j2 + n2, restyle(b, i, with_bg(st1, ColorView::Color100(bg)))),
                        None => if comma {
                            parse_from(s, j2, mark_text(restyle(b, i, st1), j))
                        } else {
                            parse_from(s, j2, restyle(b, i, st1))
                        },
                    }
                },
            }
        } else if c == HEX_COLOR_CHAR {
            proof {
                lemma_hex_run(s, i + 1 as int, 6);
            }
            match scan_rgbcolor(s, i + 1 as int) {
                (None, n1) => parse_from(s, i + 1 + n1, mark_text(restyle(b, i, with_bg(with_fg(st, default_color()), default_color())), i + 1)),
                (Some(fg), n1) => {
                    let st1 = with_fg(st, ColorView::Rgb(fg));
                    let j = i + 1 + n1;
                    let comma = j < s.len() && s[j as int] == ',';
                    let j2 = if comma { j + 1 } else { j };
                    proof {
                        lemma_hex_run(s, j2 as int, 6);
                    }
                    match scan_rgbcolor(s, j2 as int) {
                        (Some(bg), n2) => parse_from(s, j2 + n2, restyle(b, i, with_bg(st1, ColorView::Rgb(bg)))),
                        (None, n2) => if comma {
                            parse_from(s, j2 + n2, mark_text(restyle(b, i, st1), j))
                        } else {
                            parse_from(s, j2 + n2, restyle(b, i, st1))
                        },
                    }
                },
            }
        } else {
            parse_from(s, i + 1, mark_text(b, i))
        }
    }
}

/// The spans of text that `s` spells: each formatting character changes the
/// style of the text that follows it, and pieces of text without a character
/// between them form one span
pub open spec fn parse_spans(s: Seq<char>) -> Seq<(StyleView, Seq<char>)> {
    let b = parse_from(s, 0, SpanBuilder { closed: Seq::empty(), open: OpenSpan::Styling(default_style()) });
    close_at(b, s.len()).map_values(|r: (StyleView, nat, nat)| (r.0, s.subrange(r.1 as int, r.2 as int)))
}

/// The span being built while parsing
enum OpenStyledSpan {
    Styling(Style),
    Spanning(Style, usize),
}

impl View for OpenStyledSpan {
    type V = OpenSpan;

    closed spec fn view(&self) -> OpenSpan {
        match self {
            OpenStyledSpan::Styling(st) => OpenSpan::Styling(st@),
            OpenStyledSpan::Spanning(st, start) => OpenSpan::Spanning(st@, *start as nat),
        }
    }
}

/// The views of closed spans: styles with the ranges of their text
pub open spec fn range_views(v: Seq<(Style, usize, usize)>) -> Seq<(StyleView, nat, nat)> {
    v.map_values(|r: (Style, usize, usize)| (r.0@, r.1 as nat, r.2 as nat))
}

/// Parsing progress
struct StyledLineBuilder {
    closed: Vec<(Style, usize, usize)>,
    open: OpenStyledSpan,
}

impl View for StyledLineBuilder {
    type V = SpanBuilder;

    closed spec fn view(&self) -> SpanBuilder {
        SpanBuilder { closed: range_views(self.closed@), open: self.open@ }
    }
}

/// Whether the ranges of `b` lie within a text of length `n`, and the
/// closed ones are nonempty
pub open spec fn ranges_within(b: SpanBuilder, n: nat) -> bool {
    &&& forall|k: int| 0 <= k < b.closed.len() ==> #[trigger] b.closed[k].1 < b.closed[k].2 <= n
    &&& b.open matches OpenSpan::Spanning(_, start) ==> start <= n
}

proof fn lemma_restyle_within(b: SpanBuilder, i: nat, st: StyleView, n: nat)
    requires
        ranges_within(b, n),
        i <= n,
    ensures
        ranges_within(restyle(b, i, st), n),
{
    let c = close_at(b, i);
    assert forall|k: int| 0 <= k < c.len() implies #[trigger] c[k].1 < c[k].2 <= n by {
        if k < b.closed.len() {
            assert(c[k] == b.closed[k]);
        }
    }
}

proof fn lemma_close_within(b: SpanBuilder, i: nat, n: nat)
    requires
        ranges_within(b, n),
        i <= n,
    ensures
        forall|k: int| 0 <= k < close_at(b, i).len() ==> #[trigger] close_at(b, i)[k].1 < close_at(b, i)[k].2 <= n,
{
}

impl StyledLineBuilder {
    fn new() -> (r: StyledLineBuilder)
        ensures
            r@ == (SpanBuilder { closed: Seq::empty(), open: OpenSpan::Styling(default_style()) }),
    {
        let r = StyledLineBuilder { closed: Vec::new(), open: OpenStyledSpan::Styling(Style::default()) };
        assert(r@.closed =~= Seq::<(StyleView, nat, nat)>::empty());
        r
    }

    /// The style of the open span
    fn style(&self) -> (r: Style)
        ensures
            r@ == open_style(self@),
    {
        match self.open {
            OpenStyledSpan::Styling(st) => st,
            OpenStyledSpan::Spanning(st, _) => st,
        }
    }

    /// Closes the open span at `i`
    fn close(&mut self, i: usize)
        ensures
            final(self)@.closed == close_at(old(self)@, i as nat),
            final(self)@.open == old(self)@.open,
    {
        match self.open {
            OpenStyledSpan::Spanning(st, start) => {
                if start < i {
                    let ghost before = self.closed@;
                    self.closed.push((st, start, i));
                    assert(range_views(self.closed@) =~= range_views(before).push((st@, start as nat, i as nat)));
                }
            },
            OpenStyledSpan::Styling(_) => {},
        }
    }

    /// Changes the style to `st` at `i`
    fn restyle(&mut self, i: usize, st: Style)
        ensures
            final(self)@ == restyle(old(self)@, i as nat, st@),
            forall|n: nat| ranges_within(old(self)@, n) && i <= n ==> #[trigger] ranges_within(final(self)@, n),
    {
        proof {
            assert forall|n: nat| ranges_within(old(self)@, n) && i <= n implies #[trigger] ranges_within(
                restyle(old(self)@, i as nat, st@),
                n,
            ) by {
                lemma_restyle_within(old(self)@, i as nat, st@, n);
            }
        }
        self.close(i);
        self.open = OpenStyledSpan::Styling(st);
    }

    /// Marks `i` as text
    fn mark_text(&mut self, i: usize)
        ensures
            final(self)@ == mark_text(old(self)@, i as nat),
            forall|n: nat| ranges_within(old(self)@, n) && i <= n ==> #[trigger] ranges_within(final(self)@, n),
    {
        match self.open {
            OpenStyledSpan::Styling(st) => {
                self.open = OpenStyledSpan::Spanning(st, i);
            },
            OpenStyledSpan::Spanning(_, _) => {},
        }
    }
}

/// Reads an IRC color number of one or two digits at position `j` of `v`
fn scan_color100_at(v: &Vec<char>, j: usize) -> (r: Option<(Color100, usize)>)
    ensures
        match r {
            Some((c, n)) => scan_color100(v@, j as int) == Some((c@, n as nat)),
            None => scan_color100(v@, j as int) is None,
        },
{
    if j < v.len() && char_is_ascii_digit(v[j]) {
        let d1 = (v[j] as u32 - '0' as u32) as u8;
        if j + 1 < v.len() && char_is_ascii_digit(v[j + 1]) {
            let d2 = (v[j + 1] as u32 - '0' as u32) as u8;
            match Color100::try_from_u8(d1 * 10 + d2) {
                Ok(c) => Some((c, 2)),
                Err(_) => None,
            }
        } else {
            match Color100::try_from_u8(d1) {
                Ok(c) => Some((c, 1)),
                Err(_) => None,
            }
        }
    } else {
        None
    }
}

/// The value of the hex digit `c`
fn hex_digit_value(c: char) -> (r: u8)
    requires
        is_hex_digit(c),
    ensures
        r == hex_value(c),
        r < 16,
{
    if '0' <= c && c <= '9' {
        (c as u32 - '0' as u32) as u8
    } else if 'a' <= c && c <= 'f' {
        (c as u32 - 'a' as u32 + 10) as u8
    } else {
        (c as u32 - 'A' as u32 + 10) as u8
    }
}

/// The digits that [`hex_run`] counts are hex digits within `s`
pub proof fn lemma_hex_run(s: Seq<char>, j: int, n: nat)
    ensures
        hex_run(s, j, n) <= n,
        hex_run(s, j, n) > 0 ==> 0 <= j && j + hex_run(s, j, n) <= s.len(),
        forall|k: int| j <= k < j + hex_run(s, j, n) ==> 0 <= k < s.len() && is_hex_digit(#[trigger] s[k]),
    decreases n,
{
    if !(n == 0 || j < 0 || j >= s.len() || !is_hex_digit(s[j])) {
        assert(hex_run(s, j, n) == 1 + hex_run(s, j + 1, (n - 1) as nat));
        lemma_hex_run(s, j + 1, (n - 1) as nat);
    }
}

/// Reads a color of six hex digits at position `j` of `v`
fn scan_rgbcolor_at(v: &Vec<char>, j: usize) -> (r: (Option<RgbColor>, usize))
    requires
        j <= v@.len(),
    ensures
        scan_rgbcolor(v@, j as int) == (r.0, r.1 as nat),
        j + r.1 <= v@.len(),
{
    let mut m: usize = 0;
    while m < 6 && m < v.len() - j && char_is_hex_digit(v[j + m])
        invariant
            m <= 6,
            j + m <= v@.len(),
            hex_run(v@, j as int, 6) == m + hex_run(v@, j + m, (6 - m) as nat),
        decreases 6 - m,
    {
        m = m + 1;
    }
    proof {
        lemma_hex_run(v@, j as int, 6);
    }
    if m == 6 {
        assert(is_hex_digit(v@[j as int]) && is_hex_digit(v@[j + 1]) && is_hex_digit(v@[j + 2]));
        assert(is_hex_digit(v@[j + 3]) && is_hex_digit(v@[j + 4]) && is_hex_digit(v@[j + 5]));
        let len = v.len();
        assert(j + 5 < len);
        let r = (hex_digit_value(v[j]) * 16 + hex_digit_value(v[j + 1])) as u8;
        let g = (hex_digit_value(v[j + 2]) * 16 + hex_digit_value(v[j + 3])) as u8;
        let b = (hex_digit_value(v[j + 4]) * 16 + hex_digit_value(v[j + 5])) as u8;
        (Some(RgbColor(r, g, b)), 6)
    } else {
        (None, m)
    }
}

/// One step of parsing `v` at `i`, where `v[i]` toggles an attribute or
/// resets the style
fn step_attr(v: &Vec<char>, i: usize, b: &mut StyledLineBuilder) -> (r: usize)
    requires
        i < v@.len(),
        ranges_within(old(b)@, v@.len() as nat),
        toggle_of(v@[i as int]) is Some || v@[i as int] == RESET_CHAR,
    ensures
        r == i + 1,
        parse_from(v@, r as nat, final(b)@) == parse_from(v@, i as nat, old(b)@),
        ranges_within(final(b)@, v@.len() as nat),
{
    proof {
        reveal(parse_from);
    }
    let n = v.len();
    let c = v[i];
    let st = b.style();
    if c == RESET_CHAR {
        b.restyle(i, Style::default());
    } else {
        let a = if c == BOLD_CHAR {
            Attribute::Bold
        } else if c == ITALIC_CHAR {
            Attribute::Italic
        } else if c == UNDERLINE_CHAR {
            Attribute::Underline
        } else if c == STRIKETHROUGH_CHAR {
            Attribute::Strikethrough
        } else if c == MONOSPACE_CHAR {
            Attribute::Monospace
        } else {
            Attribute::Reverse
        };
        let attrs = st.attributes.symmetric_difference(AttributeSet::single(a));
        assert(attrs@ =~= toggle_attr(st@.attributes, a));
        b.restyle(i, Style { attributes: attrs, ..st });
    }
    i + 1
}

/// One step of parsing `v` at `i`, where `v[i]` is the color character
fn step_color(v: &Vec<char>, i: usize, b: &mut StyledLineBuilder) -> (r: usize)
    requires
        i < v@.len(),
        ranges_within(old(b)@, v@.len() as nat),
        v@[i as int] == COLOR_CHAR,
    ensures
        i < r <= v@.len(),
        parse_from(v@, r as nat, final(b)@) == parse_from(v@, i as nat, old(b)@),
        ranges_within(final(b)@, v@.len() as nat),
{
    proof {
        reveal(parse_from);
    }
    let n = v.len();
    let st = b.style();
    match scan_color100_at(v, i + 1) {
        None => {
            b.restyle(i, Style { foreground: Color::default(), background: Color::default(), ..st });
            i + 1
        },
        Some((fg, n1)) => {
            let st1 = Style { foreground: Color::Color100(fg), ..st };
            let j = i + 1 + n1;
            let comma = j < n && v[j] == ',';
            let j2 = if comma { j + 1 } else { j };
            match scan_color100_at(v, j2) {
                Some((bg, n2)) => {
                    b.restyle(i, Style { background: Color::Color100(bg), ..st1 });
                    j2 + n2
                },
                None => {
                    b.restyle(i, st1);
                    if comma {
                        b.mark_text(j);
                    }
                    j2
                },
            }
        },
    }
}

/// One step of parsing `v` at `i`, where `v[i]` is the hex color character
fn step_hex(v: &Vec<char>, i: usize, b: &mut StyledLineBuilder) -> (r: usize)
    requires
        i < v@.len(),
        ranges_within(old(b)@, v@.len() as nat),
        v@[i as int] == HEX_COLOR_CHAR,
    ensures
        i < r <= v@.len(),
        parse_from(v@, r as nat, final(b)@) == parse_from(v@, i as nat, old(b)@),
        ranges_within(final(b)@, v@.len() as nat),
{
    proof {
        reveal(parse_from);
    }
    let n = v.len();
    let st = b.style();
    match scan_rgbcolor_at(v, i + 1) {
        (None, n1) => {
            b.restyle(i, Style { foreground: Color::default(), background: Color::default(), ..st });
            b.mark_text(i + 1);
            i + 1 + n1
        },
        (Some(fg), n1) => {
            let st1 = Style { foreground: Color::Rgb(fg), ..st };
            let j = i + 1 + n1;
            let comma = j < n && v[j] == ',';
            let j2 = if comma { j + 1 } else { j };
            match scan_rgbcolor_at(v, j2) {
                (Some(bg), n2) => {
                    b.restyle(i, Style { background: Color::Rgb(bg), ..st1 });
                    j2 + n2
                },
                (None, n2) => {
                    b.restyle(i, st1);
                    if comma {
                        b.mark_text(j);
                    }
                    j2 + n2
                },
            }
        },
    }
}

impl StyledLine {
    /// Parses IRC-formatted text into styled spans (see [`parse_spans`])
    pub fn parse(s: &str) -> (r: StyledLine)
        ensures
            r@ == parse_spans(s@),
    {
        let v = chars_of(s);
        let n = v.len();
        let mut b = StyledLineBuilder::new();
        let ghost init = b@;
        let mut i: usize = 0;
        while i < n
            invariant
                i <= n == v@.len(),
                v@ == s@,
                init == (SpanBuilder { closed: Seq::empty(), open: OpenSpan::Styling(default_style()) }),
                parse_from(s@, i as nat, b@) == parse_from(s@, 0, init),
                ranges_within(b@, n as nat),
            decreases n - i,
        {
            let c = v[i];
            if c == BOLD_CHAR || c == ITALIC_CHAR || c == UNDERLINE_CHAR || c == STRIKETHROUGH_CHAR
                || c == MONOSPACE_CHAR || c == REVERSE_CHAR || c == RESET_CHAR {
                i = step_attr(&v, i, &mut b);
            } else if c == COLOR_CHAR {
                i = step_color(&v, i, &mut b);
            } else if c == HEX_COLOR_CHAR {
                i = step_hex(&v, i, &mut b);
            } else {
                proof {
                    reveal(parse_from);
                }
                b.mark_text(i);
                i = i + 1;
            }
        }
        proof {
            reveal(parse_from);
        }
        let ghost fin = b@;
        let mut ranges = b.closed;
        match b.open {
            OpenStyledSpan::Spanning(st, start) => {
                if start < n {
                    ranges.push((st, start, n));
                }
            },
            OpenStyledSpan::Styling(_) => {},
        }
        proof {
            lemma_close_within(fin, n as nat, n as nat);
        }
        assert(range_views(ranges@) =~= close_at(fin, n as nat));
        assert forall|q: int| 0 <= q < ranges@.len() implies #[trigger] ranges@[q].1 < ranges@[q].2 <= n by {
            assert(range_views(ranges@)[q] == close_at(fin, n as nat)[q]);
            assert(close_at(fin, n as nat)[q].1 < close_at(fin, n as nat)[q].2 <= n);
        }
        let mut spans: Vec<StyledSpan> = Vec::new();
        let mut k: usize = 0;
        while k < ranges.len()
            invariant
                0 <= k <= ranges@.len(),
                v@ == s@,
                n == v@.len(),
                range_views(ranges@) == close_at(fin, n as nat),
                forall|q: int| 0 <= q < ranges@.len() ==> #[trigger] ranges@[q].1 < ranges@[q].2 <= n,
                spans@.len() == k,
                forall|q: int| 0 <= q < k ==> (#[trigger] spans@[q])@ == (ranges@[q].0@, s@.subrange(ranges@[q].1 as int, ranges@[q].2 as int)),
            decreases ranges@.len() - k,
        {
            let (st, a, e) = ranges[k];
            assert(range_views(ranges@)[k as int] == (st@, a as nat, e as nat));
            let content = string_of(&v, a, e);
            spans.push(StyledSpan { style: st, content });
            k = k + 1;
        }
        let r = StyledLine(spans);
        assert(r@ =~= parse_spans(s@)) by {
            assert forall|q: int| 0 <= q < r@.len() implies r@[q] == parse_spans(s@)[q] by {
                assert(range_views(ranges@)[q] == close_at(fin, n as nat)[q]);
            }
        }
        r
    }
}

/// The abstract content of a [`ColorDiff`]
pub enum ColorDiffView {
    NoChange,
    Reset,
    SetFg(ColorView),
    SetBoth(ColorView, ColorView),
}

/// The abstract content of a [`StyleDiff`]
pub enum StyleDiffView {
    Delta(Set<Attribute>, ColorDiffView),
    Reset,
}

/// The attributes in exactly one of `a` and `b`
pub open spec fn attr_sym_diff(a: Set<Attribute>, b: Set<Attribute>) -> Set<Attribute> {
    a.difference(b).union(b.difference(a))
}

/// How to get from style `before` to style `after`: nothing if they are the
/// same; a reset if `after` is the default style; else the attributes to
/// toggle and how the colors change
pub open spec fn style_diff(before: StyleView, after: StyleView) -> StyleDiffView {
    if before == after {
        StyleDiffView::Delta(Set::empty(), ColorDiffView::NoChange)
    } else if after == default_style() {
        StyleDiffView::Reset
    } else {
        let cd = if after.foreground == default_color() && after.background == default_color() {
            ColorDiffView::Reset
        } else if before.foreground == after.foreground && before.background == after.background {
            ColorDiffView::NoChange
        } else if before.background == after.background {
            ColorDiffView::SetFg(after.foreground)
        } else {
            ColorDiffView::SetBoth(after.foreground, after.background)
        };
        StyleDiffView::Delta(attr_sym_diff(before.attributes, after.attributes), cd)
    }
}

/// The two decimal digits of an IRC color number
pub open spec fn pad2(n: u8) -> Seq<char> {
    seq![digit_char((n / 10) as nat), digit_char((n % 10) as nat)]
}

/// The six hex digits of a 24-bit color
pub open spec fn rgb_text(c: RgbColor) -> Seq<char> {
    hex2(c.0) + hex2(c.1) + hex2(c.2)
}

/// Two bold characters, which change nothing, to keep `content` from being
/// read as part of a color code: after a bare color character if it starts
/// with a digit, after a foreground color number if it starts with a comma
/// and a digit
pub open spec fn digit_guard(cond: bool) -> Seq<char> {
    if cond {
        seq![BOLD_CHAR, BOLD_CHAR]
    } else {
        Seq::empty()
    }
}

/// Whether `t` starts with an ASCII digit
pub open spec fn starts_with_digit(t: Seq<char>) -> bool {
    t.len() > 0 && is_ascii_digit(t[0])
}

/// Whether `t` starts with a comma and an ASCII digit
pub open spec fn starts_with_comma_digit(t: Seq<char>) -> bool {
    t.len() > 1 && t[0] == ',' && is_ascii_digit(t[1])
}

/// The characters that toggle the attributes of `t`, in the order of
/// [`all_attributes`]
pub open spec fn toggle_text(t: Set<Attribute>) -> Seq<char> {
    members_between(t, 0, 6).map_values(|a: Attribute| attr_char(a))
}

/// The characters that make a color change, before text `content`
pub open spec fn color_text(cd: ColorDiffView, content: Seq<char>) -> Seq<char> {
    match cd {
        ColorDiffView::NoChange => Seq::empty(),
        ColorDiffView::Reset => seq![COLOR_CHAR] + digit_guard(starts_with_digit(content)),
        ColorDiffView::SetFg(ColorView::Color100(c)) => seq![COLOR_CHAR] + pad2(c) + digit_guard(
            starts_with_comma_digit(content),
        ),
        ColorDiffView::SetFg(ColorView::Rgb(c)) => seq![HEX_COLOR_CHAR] + rgb_text(c),
        ColorDiffView::SetBoth(ColorView::Color100(f), ColorView::Color100(b)) => seq![COLOR_CHAR] + pad2(f)
            + seq![','] + pad2(b),
        ColorDiffView::SetBoth(ColorView::Rgb(f), ColorView::Rgb(b)) => seq![HEX_COLOR_CHAR] + rgb_text(f)
            + seq![','] + rgb_text(b),
        ColorDiffView::SetBoth(ColorView::Color100(f), ColorView::Rgb(b)) => seq![HEX_COLOR_CHAR] + rgb_text(
            RgbColor(0, 0, 0),
        ) + seq![','] + rgb_text(b) + seq![COLOR_CHAR] + pad2(f) + digit_guard(starts_with_comma_digit(content)),
        ColorDiffView::SetBoth(ColorView::Rgb(f), ColorView::Color100(b)) => seq![COLOR_CHAR] + pad2(99)
            + seq![','] + pad2(b) + seq![HEX_COLOR_CHAR] + rgb_text(f),
    }
}

/// The formatting characters that change style `before` into style `after`
/// before text `content`
pub open spec fn diff_text(before: StyleView, after: StyleView, content: Seq<char>) -> Seq<char> {
    match style_diff(before, after) {
        StyleDiffView::Reset => seq![RESET_CHAR],
        StyleDiffView::Delta(t, cd) => toggle_text(t) + color_text(cd, content),
    }
}

/// The text of `spans` from index `k` on, after text in style `prev`: each
/// nonempty span's text follows the characters that change the style to its
/// own; empty spans are left out
pub open spec fn format_from(spans: Seq<(StyleView, Seq<char>)>, k: int, prev: StyleView) -> Seq<char>
    decreases spans.len() - k,
{
    if k >= spans.len() || k < 0 {
        Seq::empty()
    } else if spans[k].1.len() == 0 {
        format_from(spans, k + 1, prev)
    } else {
        diff_text(prev, spans[k].0, spans[k].1) + spans[k].1 + format_from(spans, k + 1, spans[k].0)
    }
}

/// The IRC-formatted text of `spans`
pub open spec fn format_spans(spans: Seq<(StyleView, Seq<char>)>) -> Seq<char> {
    format_from(spans, 0, default_style())
}

/// How the colors change from one style to the next
#[derive(Clone, Copy, Debug, PartialEq, Eq)]
enum ColorDiff {
    NoChange,
    Reset,
    SetFg(Color),
    SetBoth(Color, Color),
}

impl View for ColorDiff {
    type V = ColorDiffView;

    closed spec fn view(&self) -> ColorDiffView {
        match self {
            ColorDiff::NoChange => ColorDiffView::NoChange,
            ColorDiff::Reset => ColorDiffView::Reset,
            ColorDiff::SetFg(c) => ColorDiffView::SetFg(c@),
            ColorDiff::SetBoth(f, b) => ColorDiffView::SetBoth(f@, b@),
        }
    }
}

/// How to get from one style to the next
#[derive(Clone, Copy, Debug, PartialEq, Eq)]
enum StyleDiff {
    Delta(AttributeSet, ColorDiff),
    Reset,
}

impl View for StyleDiff {
    type V = StyleDiffView;

    closed spec fn view(&self) -> StyleDiffView {
        match self {
            StyleDiff::Delta(t, cd) => StyleDiffView::Delta(t@, cd@),
            StyleDiff::Reset => StyleDiffView::Reset,
        }
    }
}

impl StyleDiff {
    /// The change from `before` to `after` (see [`style_diff`])
    fn new(before: Style, after: Style) -> (r: StyleDiff)
        ensures
            r@ == style_diff(before@, after@),
    {
        if before.same_as(after) {
            let r = StyleDiff::Delta(AttributeSet::new(), ColorDiff::NoChange);
            assert(r@ == style_diff(before@, after@));
            r
        } else if after.is_plain() {
            StyleDiff::Reset
        } else {
            let mut toggled = AttributeSet::new();
            let attrs = Attribute::iter();
            let mut i: usize = 0;
            while i < attrs.len()
                invariant
                    0 <= i <= attrs@.len(),
                    attrs@ == all_attributes(),
                    forall|a: Attribute| #[trigger] toggled@.contains(a) <==> (attr_index(a) < i
                        && attr_sym_diff(before@.attributes, after@.attributes).contains(a)),
                decreases attrs@.len() - i,
            {
                proof {
                    lemma_attr_order();
                }
                let a = attrs[i];
                if before.attributes.contains(a) != after.attributes.contains(a) {
                    toggled.insert(a);
                }
                i = i + 1;
            }
            proof {
                lemma_attr_order();
            }
            assert(toggled@ =~= attr_sym_diff(before@.attributes, after@.attributes));
            let dflt = Color::default();
            let cd = if after.foreground.same_as(dflt) && after.background.same_as(dflt) {
                ColorDiff::Reset
            } else if before.foreground.same_as(after.foreground) && before.background.same_as(after.background) {
                ColorDiff::NoChange
            } else if before.background.same_as(after.background) {
                ColorDiff::SetFg(after.foreground)
            } else {
                ColorDiff::SetBoth(after.foreground, after.background)
            };
            StyleDiff::Delta(toggled, cd)
        }
    }
}

/// Appends the two decimal digits of `n`
fn push_pad2(s: &mut String, n: u8)
    requires
        n < 100,
    ensures
        final(s)@ == old(s)@ + pad2(n),
{
    push_char(s, char_from_digit(n / 10));
    push_char(s, char_from_digit(n % 10));
    assert(final(s)@ =~= old(s)@ + pad2(n)) by {
        assert(s@ =~= old(s)@ + pad2(n));
    }
}

/// Appends the six hex digits of `c`
fn push_rgb(s: &mut String, c: RgbColor)
    ensures
        final(s)@ == old(s)@ + rgb_text(c),
{
    push_hex2(s, c.0);
    push_hex2(s, c.1);
    push_hex2(s, c.2);
    assert(s@ =~= old(s)@ + rgb_text(c));
}

/// Whether `t` starts with an ASCII digit
fn exec_starts_with_digit(t: &Vec<char>) -> (r: bool)
    ensures
        r == starts_with_digit(t@),
{
    t.len() > 0 && char_is_ascii_digit(t[0])
}

/// Whether `t` starts with a comma and an ASCII digit
fn exec_starts_with_comma_digit(t: &Vec<char>) -> (r: bool)
    ensures
        r == starts_with_comma_digit(t@),
{
    t.len() > 1 && t[0] == ',' && char_is_ascii_digit(t[1])
}

/// Appends two bold characters if `cond` holds
fn push_guard(s: &mut String, cond: bool)
    ensures
        final(s)@ == old(s)@ + digit_guard(cond),
{
    if cond {
        push_char(s, BOLD_CHAR);
        push_char(s, BOLD_CHAR);
    }
    assert(s@ =~= old(s)@ + digit_guard(cond));
}

/// Appends the characters that toggle the attributes of `t`
fn push_toggles(s: &mut String, t: AttributeSet)
    ensures
        final(s)@ == old(s)@ + toggle_text(t@),
{
    let attrs = Attribute::iter();
    let mut i: usize = 0;
    assert(members_between(t@, 0, 0) =~= Seq::<Attribute>::empty());
    while i < attrs.len()
        invariant
            0 <= i <= attrs@.len(),
            attrs@ == all_attributes(),
            s@ == old(s)@ + members_between(t@, 0, i as int).map_values(|a: Attribute| attr_char(a)),
        decreases attrs@.len() - i,
    {
        let a = attrs[i];
        proof {
            lemma_members_back(t@, 0, i + 1);
        }
        let ghost before = s@;
        if t.contains(a) {
            let c = match a {
                Attribute::Bold => BOLD_CHAR,
                Attribute::Italic => ITALIC_CHAR,
                Attribute::Underline => UNDERLINE_CHAR,
                Attribute::Strikethrough => STRIKETHROUGH_CHAR,
                Attribute::Monospace => MONOSPACE_CHAR,
                Attribute::Reverse => REVERSE_CHAR,
            };
            push_char(s, c);
            assert(members_between(t@, 0, i + 1).map_values(|a: Attribute| attr_char(a)) =~= members_between(
                t@,
                0,
                i as int,
            ).map_values(|a: Attribute| attr_char(a)).push(c));
        }
        i = i + 1;
    }
}

/// Appends the characters of a color change before text `content`
fn push_color_diff(s: &mut String, cd: ColorDiff, content: &Vec<char>)
    ensures
        final(s)@ == old(s)@ + color_text(cd@, content@),
{
    match cd {
        ColorDiff::NoChange => {
            assert(s@ =~= old(s)@ + color_text(cd@, content@));
        },
        ColorDiff::Reset => {
            push_char(s, COLOR_CHAR);
            push_guard(s, exec_starts_with_digit(content));
            assert(s@ =~= old(s)@ + color_text(cd@, content@));
        },
        ColorDiff::SetFg(Color::Color100(c)) => {
            push_char(s, COLOR_CHAR);
            push_pad2(s, c.value());
            push_guard(s, exec_starts_with_comma_digit(content));
            assert(s@ =~= old(s)@ + color_text(cd@, content@));
        },
        ColorDiff::SetFg(Color::Rgb(c)) => {
            push_char(s, HEX_COLOR_CHAR);
            push_rgb(s, c);
            assert(s@ =~= old(s)@ + color_text(cd@, content@));
        },
        ColorDiff::SetBoth(Color::Color100(f), Color::Color100(b)) => {
            push_char(s, COLOR_CHAR);
            push_pad2(s, f.value());
            push_char(s, ',');
            push_pad2(s, b.value());
            assert(s@ =~= old(s)@ + color_text(cd@, content@));
        },
        ColorDiff::SetBoth(Color::Rgb(f), Color::Rgb(b)) => {
            push_char(s, HEX_COLOR_CHAR);
            push_rgb(s, f);
            push_char(s, ',');
            push_rgb(s, b);
            assert(s@ =~= old(s)@ + color_text(cd@, content@));
        },
        ColorDiff::SetBoth(Color::Color100(f), Color::Rgb(b)) => {
            push_char(s, HEX_COLOR_CHAR);
            push_rgb(s, RgbColor(0, 0, 0));
            push_char(s, ',');
            push_rgb(s, b);
            push_char(s, COLOR_CHAR);
            push_pad2(s, f.value());
            push_guard(s, exec_starts_with_comma_digit(content));
            assert(s@ =~= old(s)@ + color_text(cd@, content@));
        },
        ColorDiff::SetBoth(Color::Rgb(f), Color::Color100(b)) => {
            push_char(s, COLOR_CHAR);
            push_pad2(s, 99);
            push_char(s, ',');
            push_pad2(s, b.value());
            push_char(s, HEX_COLOR_CHAR);
            push_rgb(s, f);
            assert(s@ =~= old(s)@ + color_text(cd@, content@));
        },
    }
}

impl StyledLine {
    /// Renders the line as IRC-formatted text (see [`format_spans`])
    pub fn format(&self) -> (r: String)
        ensures
            r@ == format_spans(self@),
    {
        let mut s = String::new();
        let mut prev = Style::default();
        let mut k: usize = 0;
        while k < self.0.len()
            invariant
                0 <= k <= self.0@.len(),
                s@ + format_from(self@, k as int, prev@) == format_spans(self@),
            decreases self.0@.len() - k,
        {
            let span = &self.0[k];
            assert(self@[k as int] == span@);
            let content = chars_of(span.content.as_str());
            if content.len() > 0 {
                let ghost before = s@;
                match StyleDiff::new(prev, span.style) {
                    StyleDiff::Reset => {
                        push_char(&mut s, RESET_CHAR);
                    },
                    StyleDiff::Delta(toggled, cd) => {
                        push_toggles(&mut s, toggled);
                        push_color_diff(&mut s, cd, &content);
                    },
                }
                assert(s@ == before + diff_text(prev@, span.style@, span.content@));
                push_str(&mut s, span.content.as_str());
                assert(before + format_from(self@, k as int, prev@) =~= s@ + format_from(self@, k + 1, span.style@));
                prev = span.style;
            }
            k = k + 1;
        }
        assert(s@ + format_from(self@, k as int, prev@) =~= s@);
        s
    }

    /// The spans of the line, in order
    pub fn iter(&self) -> (r: &[StyledSpan])
        ensures
            r@ == self.0@,
    {
        self.0.as_slice()
    }
}

} // verus!
