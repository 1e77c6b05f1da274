use irctext::formatting::ansi::{AnsiColor, AnsiEffects, AnsiStyle};
use irctext::formatting::{
    Attribute, AttributeSet, Color, Color100, RgbColor, Style, StyledLine, StyledSpan,
};

fn span(style: Style, content: &str) -> StyledSpan {
    StyledSpan {
        style,
        content: content.into(),
    }
}

#[test]
fn color100_to_ansi() {
    assert_eq!(Color100::red().to_anstyle(), Some(AnsiColor::Ansi256(9)));
    assert_eq!(Color100::white().to_anstyle(), Some(AnsiColor::Ansi256(15)));
    assert_eq!(Color100::default().to_anstyle(), None);
}

#[test]
fn rgb_and_color_to_ansi() {
    assert_eq!(RgbColor(1, 2, 3).to_anstyle(), AnsiColor::Rgb(1, 2, 3));
    assert_eq!(Color::from(RgbColor(1, 2, 3)).to_anstyle(), Some(AnsiColor::Rgb(1, 2, 3)));
    assert_eq!(Color::default().to_anstyle(), None);
}

#[test]
fn effects_drop_monospace() {
    let attrs = AttributeSet::from(Attribute::Bold) | Attribute::Monospace | Attribute::Reverse;
    assert_eq!(
        AnsiEffects::from(attrs),
        AnsiEffects {
            bold: true,
            italic: false,
            underline: false,
            strikethrough: false,
            invert: true,
        }
    );
}

#[test]
fn style_to_ansi() {
    let style = Style {
        foreground: Color100::red().into(),
        background: RgbColor(0, 0x80, 0xff).into(),
        attributes: AttributeSet::from(Attribute::Italic),
    };
    let st = AnsiStyle::from(style);
    assert_eq!(st.fg, Some(AnsiColor::Ansi256(9)));
    assert_eq!(st.bg, Some(AnsiColor::Rgb(0, 0x80, 0xff)));
    assert!(st.effects.italic);
    assert!(!st.effects.bold);
}

#[test]
fn render_plain_span() {
    let s = span(Style::default(), "plain");
    assert_eq!(s.render_ansi().to_string(), "plain");
}

#[test]
fn render_bold_span() {
    let style = Style {
        attributes: AttributeSet::from(Attribute::Bold),
        ..Style::default()
    };
    let s = span(style, "x");
    assert_eq!(s.render_ansi().to_string(), "\x1b[1mx\x1b[0m");
}

#[test]
fn render_colored_span() {
    let style = Style {
        foreground: Color100::red().into(),
        ..Style::default()
    };
    let s = span(style, "hi");
    assert_eq!(s.render_ansi().to_string(), "\x1b[38;5;9mhi\x1b[0m");
}

#[test]
fn render_line() {
    let bold = Style {
        attributes: AttributeSet::from(Attribute::Bold),
        ..Style::default()
    };
    let line = StyledLine(vec![span(Style::default(), "a "), span(bold, "b")]);
    assert_eq!(line.render_ansi().to_string(), "a \x1b[1mb\x1b[0m");
    assert_eq!(StyledLine(vec![]).render_ansi().to_string(), "");
}

#[test]
fn render_effects_and_rgb_colors() {
    let style = Style {
        foreground: RgbColor(7, 0, 255).into(),
        background: RgbColor(0, 128, 40).into(),
        attributes: AttributeSet::from(Attribute::Strikethrough)
            | Attribute::Reverse
            | Attribute::Italic
            | Attribute::Underline,
    };
    let s = span(style, "z");
    assert_eq!(
        s.render_ansi().to_string(),
        "\x1b[3m\x1b[4m\x1b[7m\x1b[9m\x1b[38;2;7;0;255m\x1b[48;2;0;128;40mz\x1b[0m"
    );
    let style = Style {
        background: Color100::white().into(),
        ..Style::default()
    };
    assert_eq!(span(style, "w").render_ansi().to_string(), "\x1b[48;5;15mw\x1b[0m");
}
