//! Rendering styled text for ANSI terminals, with the `anstyle` crate.
use super::{
    ansi_index_of, Attribute, AttributeSet, Color, Color100, ColorView, RgbColor, Style, StyleView,
    StyledLine, StyledSpan,
};
use crate::numfmt::decimal;
use crate::text::push_str;
use vstd::prelude::*;
use vstd::std_specs::convert::FromSpecImpl;

verus! {

/// A color as an ANSI terminal knows it: an index in the 256-color palette,
/// or a 24-bit color
#[derive(Clone, Copy, Debug, PartialEq, Eq, Structural)]
pub enum AnsiColor {
    Ansi256(u8),
    Rgb(u8, u8, u8),
}

/// The effects of a style on an ANSI terminal
#[derive(Clone, Copy, Debug, PartialEq, Eq, Structural)]
pub struct AnsiEffects {
    pub bold: bool,
    pub italic: bool,
    pub underline: bool,
    pub strikethrough: bool,
    pub invert: bool,
}

/// A style as an ANSI terminal knows it; a color of `None` is the terminal's
/// default
#[derive(Clone, Copy, Debug, PartialEq, Eq, Structural)]
pub struct AnsiStyle {
    pub fg: Option<AnsiColor>,
    pub bg: Option<AnsiColor>,
    pub effects: AnsiEffects,
}

/// The terminal color of an IRC color: the palette index of a color number,
/// none for the default color, and a 24-bit color as it is
pub open spec fn ansi_color_of(c: ColorView) -> Option<AnsiColor> {
    match c {
        ColorView::Color100(n) => match ansi_index_of(n) {
            Some(i) => Some(AnsiColor::Ansi256(i)),
            None => None,
        },
        ColorView::Rgb(rgb) => Some(AnsiColor::Rgb(rgb.0, rgb.1, rgb.2)),
    }
}

/// The terminal effects of a set of attributes; monospace has none
pub open spec fn ansi_effects_of(a: Set<Attribute>) -> AnsiEffects {
    AnsiEffects {
        bold: a.contains(Attribute::Bold),
        italic: a.contains(Attribute::Italic),
        underline: a.contains(Attribute::Underline),
        strikethrough: a.contains(Attribute::Strikethrough),
        invert: a.contains(Attribute::Reverse),
    }
}

/// The terminal style of an IRC style
pub open spec fn ansi_style_of(st: StyleView) -> AnsiStyle {
    AnsiStyle {
        fg: ansi_color_of(st.foreground),
        bg: ansi_color_of(st.background),
        effects: ansi_effects_of(st.attributes),
    }
}

/// A "select graphic rendition" sequence: `ESC [`, the parameters, and `m`
pub open spec fn sgr(params: Seq<char>) -> Seq<char> {
    seq!['\x1b', '['] + params + seq!['m']
}

/// `t` if `on`, else nothing
pub open spec fn when(on: bool, t: Seq<char>) -> Seq<char> {
    if on {
        t
    } else {
        Seq::empty()
    }
}

/// The codes of the effects, in `anstyle`'s order of effects: bold (`1`),
/// italic (`3`), underline (`4`), invert (`7`), strikethrough (`9`)
pub open spec fn ansi_effect_codes(e: AnsiEffects) -> Seq<char> {
    when(e.bold, sgr(seq!['1'])) + when(e.italic, sgr(seq!['3'])) + when(e.underline, sgr(seq!['4']))
        + when(e.invert, sgr(seq!['7'])) + when(e.strikethrough, sgr(seq!['9']))
}

/// The code of a color on layer `layer` (`'3'` for the foreground, `'4'` for
/// the background): `<layer>8;5;<index>` for a palette color,
/// `<layer>8;2;<r>;<g>;<b>` for a 24-bit one, with decimal numbers without
/// leading zeros; nothing for the terminal's default
pub open spec fn ansi_color_codes(c: Option<AnsiColor>, layer: char) -> Seq<char> {
    match c {
        None => Seq::empty(),
        Some(AnsiColor::Ansi256(i)) => sgr(seq![layer, '8', ';', '5', ';'] + decimal(i as nat)),
        Some(AnsiColor::Rgb(r, g, b)) => sgr(
            seq![layer, '8', ';', '2', ';'] + decimal(r as nat) + seq![';'] + decimal(g as nat) + seq![';']
                + decimal(b as nat),
        ),
    }
}

/// The codes that `anstyle` writes to set `style`: the effects, then the
/// foreground, then the background
pub open spec fn ansi_style_codes(style: AnsiStyle) -> Seq<char> {
    ansi_effect_codes(style.effects) + ansi_color_codes(style.fg, '3') + ansi_color_codes(style.bg, '4')
}

/// A style with no colors and no effects
pub open spec fn plain_ansi(style: AnsiStyle) -> bool {
    &&& style.fg is None
    &&& style.bg is None
    &&& style.effects == (AnsiEffects {
        bold: false,
        italic: false,
        underline: false,
        strikethrough: false,
        invert: false,
    })
}

/// The code that `anstyle` writes to reset `style`: nothing for a plain
/// style, else the reset sequence `ESC [ 0 m`
pub open spec fn ansi_reset_codes(style: AnsiStyle) -> Seq<char> {
    if plain_ansi(style) {
        Seq::empty()
    } else {
        sgr(seq!['0'])
    }
}

/// The text that `anstyle` writes for `content` in `style`: the style's
/// codes, the text as it is, and the code that resets the style
pub open spec fn ansi_styled(style: AnsiStyle, content: Seq<char>) -> Seq<char> {
    ansi_style_codes(style) + content + ansi_reset_codes(style)
}

/// Writes the codes of `style` as `anstyle` renders them: the `Display` and
/// the alternate `Display` of an `anstyle::Style` built with `fg_color`,
/// `bg_color` and `effects` (each effect set with `Effects::set`). The
/// contract claims what `anstyle`'s source shows: `Display` writes the escape
/// of each effect in its order of effects, then the foreground and the
/// background color codes, each number in decimal without leading zeros; the
/// alternate `Display` writes the reset sequence unless the style equals
/// `Style::new()`, and then nothing.
#[verifier::external_body]
fn style_codes(style: &AnsiStyle) -> (r: (String, String))
    ensures
        r.0@ == ansi_style_codes(*style),
        r.1@ == ansi_reset_codes(*style),
{
    let color = |c: AnsiColor| match c {
        AnsiColor::Ansi256(i) => anstyle::Color::Ansi256(anstyle::Ansi256Color(i)),
        AnsiColor::Rgb(r, g, b) => anstyle::Color::Rgb(anstyle::RgbColor(r, g, b)),
    };
    let e = &style.effects;
    let effects = anstyle::Effects::new().set(anstyle::Effects::BOLD, e.bold).set(
        anstyle::Effects::ITALIC,
        e.italic,
    ).set(anstyle::Effects::UNDERLINE, e.underline).set(anstyle::Effects::STRIKETHROUGH, e.strikethrough).set(
        anstyle::Effects::INVERT,
        e.invert,
    );
    let st = anstyle::Style::new().fg_color(style.fg.map(color)).bg_color(style.bg.map(color)).effects(effects);
    (format!("{st}"), format!("{st:#}"))
}

impl Color100 {
    /// The color as a terminal color: its index in the 256-color palette, or
    /// none for the default color
    pub fn to_anstyle(self) -> (r: Option<AnsiColor>)
        ensures
            r == ansi_color_of(ColorView::Color100(self@)),
    {
        match self.to_ansi_index() {
            Some(i) => Some(AnsiColor::Ansi256(i)),
            None => None,
        }
    }
}

impl RgbColor {
    /// The color as a 24-bit terminal color
    pub fn to_anstyle(self) -> (r: AnsiColor)
        ensures
            r == AnsiColor::Rgb(self.0, self.1, self.2),
    {
        AnsiColor::Rgb(self.0, self.1, self.2)
    }
}

impl Color {
    /// The color as a terminal color; the default color has none
    pub fn to_anstyle(self) -> (r: Option<AnsiColor>)
        ensures
            r == ansi_color_of(self@),
    {
        match self {
            Color::Color100(c) => c.to_anstyle(),
            Color::Rgb(c) => Some(c.to_anstyle()),
        }
    }
}

impl From<AttributeSet> for AnsiEffects {
    /// The terminal effects of the attributes; monospace is dropped, as
    /// terminals have no such effect
    fn from(value: AttributeSet) -> (r: AnsiEffects)
        ensures
            r == ansi_effects_of(value@),
    {
        AnsiEffects {
            bold: value.contains(Attribute::Bold),
            italic: value.contains(Attribute::Italic),
            underline: value.contains(Attribute::Underline),
            strikethrough: value.contains(Attribute::Strikethrough),
            invert: value.contains(Attribute::Reverse),
        }
    }
}

impl FromSpecImpl<AttributeSet> for AnsiEffects {
    open spec fn obeys_from_spec() -> bool {
        true
    }

    open spec fn from_spec(v: AttributeSet) -> AnsiEffects {
        ansi_effects_of(v@)
    }
}

impl From<Style> for AnsiStyle {
    /// The terminal style of the style
    fn from(style: Style) -> (r: AnsiStyle)
        ensures
            r == ansi_style_of(style@),
    {
        AnsiStyle {
            fg: style.foreground.to_anstyle(),
            bg: style.background.to_anstyle(),
            effects: AnsiEffects::from(style.attributes),
        }
    }
}

impl FromSpecImpl<Style> for AnsiStyle {
    open spec fn obeys_from_spec() -> bool {
        true
    }

    open spec fn from_spec(v: Style) -> AnsiStyle {
        ansi_style_of(v@)
    }
}

/// The rendering of a styled span for an ANSI terminal
#[derive(Clone, Copy, Debug)]
pub struct RenderStyledSpan<'a>(&'a StyledSpan);

impl<'a> View for RenderStyledSpan<'a> {
    type V = (StyleView, Seq<char>);

    closed spec fn view(&self) -> (StyleView, Seq<char>) {
        self.0@
    }
}

/// The text that renders a span for an ANSI terminal
pub open spec fn render_span(span: (StyleView, Seq<char>)) -> Seq<char> {
    ansi_styled(ansi_style_of(span.0), span.1)
}

/// The text that renders the spans `v` for an ANSI terminal, one after the
/// other
pub open spec fn render_spans(v: Seq<(StyleView, Seq<char>)>) -> Seq<char>
    decreases v.len(),
{
    if v.len() == 0 {
        Seq::empty()
    } else {
        render_spans(v.drop_last()) + render_span(v.last())
    }
}

impl StyledSpan {
    /// The span, to be rendered for an ANSI terminal
    pub fn render_ansi(&self) -> (r: RenderStyledSpan<'_>)
        ensures
            r@ == self@,
    {
        RenderStyledSpan(self)
    }
}

impl<'a> RenderStyledSpan<'a> {
    /// The span's text between the codes that set its style on an ANSI
    /// terminal and the code that resets it
    pub fn to_string(&self) -> (r: String)
        ensures
            r@ == render_span(self@),
            plain_ansi(ansi_style_of(self@.0)) ==> r@ == self@.1,
    {
        let st = AnsiStyle::from(self.0.style);
        let (codes, reset) = style_codes(&st);
        let mut out = codes;
        push_str(&mut out, self.0.content.as_str());
        push_str(&mut out, reset.as_str());
        out
    }
}

/// The rendering of a styled line for an ANSI terminal
#[derive(Clone, Copy, Debug)]
pub struct RenderStyledLine<'a>(&'a StyledLine);

impl<'a> View for RenderStyledLine<'a> {
    type V = Seq<(StyleView, Seq<char>)>;

    closed spec fn view(&self) -> Seq<(StyleView, Seq<char>)> {
        self.0@
    }
}

impl StyledLine {
    /// The line, to be rendered for an ANSI terminal
    pub fn render_ansi(&self) -> (r: RenderStyledLine<'_>)
        ensures
            r@ == self@,
    {
        RenderStyledLine(self)
    }
}

impl<'a> RenderStyledLine<'a> {
    /// The rendering of each span, one after the other
    pub fn to_string(&self) -> (r: String)
        ensures
            r@ == render_spans(self@),
    {
        let spans = &self.0.0;
        let mut out = String::new();
        let mut i: usize = 0;
        while i < spans.len()
            invariant
                i <= spans@.len(),
                spans@.map_values(|s: StyledSpan| s@) == self@,
                out@ == render_spans(self@.subrange(0, i as int)),
            decreases spans@.len() - i,
        {
            let piece = spans[i].render_ansi().to_string();
            proof {
                let v = self@;
                assert(v.subrange(0, i + 1 as int).drop_last() =~= v.subrange(0, i as int));
                assert(v.subrange(0, i + 1 as int).last() == spans@[i as int]@);
            }
            push_str(&mut out, piece.as_str());
            i = i + 1;
        }
        proof {
            assert(self@.subrange(0, spans@.len() as int) =~= self@);
        }
        out
    }
}

} // verus!
