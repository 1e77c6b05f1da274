use irctext::formatting::{
    Attribute, AttributeSet, Color, Color100, RgbColor, Style, StyledLine, StyledSpan,
};

fn span(style: Style, content: &str) -> StyledSpan {
    StyledSpan {
        style,
        content: content.into(),
    }
}

fn fg(c: Color100) -> Style {
    Style {
        foreground: c.into(),
        ..Style::default()
    }
}

fn attrs(a: Attribute) -> Style {
    Style {
        attributes: a.into(),
        ..Style::default()
    }
}

#[test]
fn example1() {
    let s = "I love \x033IRC! \x03It is the \x037best protocol ever!";
    let sline = StyledLine::parse(s);
    assert_eq!(
        sline,
        StyledLine(vec![
            span(Style::default(), "I love "),
            span(fg(Color100::green()), "IRC! "),
            span(Style::default(), "It is the "),
            span(fg(Color100::orange()), "best protocol ever!"),
        ])
    );
}

#[test]
fn example2() {
    let s = "This is a \x1D\x0313,9cool \x03message";
    let sline = StyledLine::parse(s);
    assert_eq!(
        sline,
        StyledLine(vec![
            span(Style::default(), "This is a "),
            span(
                Style {
                    foreground: Color100::pink().into(),
                    background: Color100::light_green().into(),
                    attributes: Attribute::Italic.into()
                },
                "cool "
            ),
            span(attrs(Attribute::Italic), "message"),
        ])
    );
}

#[test]
fn example3() {
    let s = "IRC \x02is \x034,12so \x03great\x0F!";
    let sline = StyledLine::parse(s);
    assert_eq!(
        sline,
        StyledLine(vec![
            span(Style::default(), "IRC "),
            span(attrs(Attribute::Bold), "is "),
            span(
                Style {
                    foreground: Color100::red().into(),
                    background: Color100::light_blue().into(),
                    attributes: Attribute::Bold.into(),
                },
                "so "
            ),
            span(attrs(Attribute::Bold), "great"),
            span(Style::default(), "!"),
        ])
    );
}

#[test]
fn example4() {
    let s = "Rules: Don't spam 5\x0313,8,6\x03,7,8, and especially not \x029\x02\x1D!";
    let sline = StyledLine::parse(s);
    assert_eq!(
        sline,
        StyledLine(vec![
            span(Style::default(), "Rules: Don't spam 5"),
            span(
                Style {
                    foreground: Color100::pink().into(),
                    background: Color100::yellow().into(),
                    ..Style::default()
                },
                ",6"
            ),
            span(Style::default(), ",7,8, and especially not "),
            span(attrs(Attribute::Bold), "9"),
            span(attrs(Attribute::Italic), "!"),
        ])
    );
}

#[test]
fn color_comma_end() {
    let s = "\x03,";
    let sline = StyledLine::parse(s);
    assert_eq!(sline, StyledLine::from(StyledSpan::from(",")));
}

#[test]
fn color_comma_not_digit() {
    let s = "\x034,a";
    let sline = StyledLine::parse(s);
    assert_eq!(sline, StyledLine(vec![span(fg(Color100::red()), ",a")]));
}

#[test]
fn short_hex() {
    let s = "\x04ff00glarch";
    let sline = StyledLine::parse(s);
    assert_eq!(sline, StyledLine::from(StyledSpan::from("ff00glarch")));
}

#[test]
fn hex_char_other_fmt() {
    let s = "\x04\x02foo";
    let sline = StyledLine::parse(s);
    assert_eq!(sline, StyledLine::from(span(attrs(Attribute::Bold), "foo")));
}

#[test]
fn colored_text_reset_colors_digits() {
    let sline = StyledLine(vec![
        span(
            Style {
                foreground: Color100::blue().into(),
                background: Color100::white().into(),
                attributes: Attribute::Bold.into(),
            },
            "Cloudy!",
        ),
        span(attrs(Attribute::Bold), "12345"),
    ]);
    assert_eq!(StyledLine::parse(&sline.format()), sline);
}

#[test]
fn foreground_comma_digits() {
    let sline = StyledLine::from(span(fg(Color100::green()), ",123"));
    assert_eq!(StyledLine::parse(&sline.format()), sline);
}

#[test]
fn color100_fg_rgb_bg() {
    let sline = StyledLine::from(span(
        Style {
            foreground: Color100::yellow().into(),
            background: RgbColor(0x36, 0x36, 0x36).into(),
            ..Style::default()
        },
        "My eyes hurt.",
    ));
    assert_eq!(StyledLine::parse(&sline.format()), sline);
}

#[test]
fn rgb_fg_color100_bg() {
    let sline = StyledLine::from(span(
        Style {
            foreground: RgbColor(0x36, 0x36, 0x36).into(),
            background: Color100::yellow().into(),
            ..Style::default()
        },
        "My eyes hurt.",
    ));
    assert_eq!(StyledLine::parse(&sline.format()), sline);
}

#[test]
fn double_ended_iteration() {
    let attrs =
        Attribute::Bold | Attribute::Italic | Attribute::Strikethrough | Attribute::Reverse;
    let mut iter = attrs.into_iter();
    assert_eq!(iter.next(), Some(Attribute::Bold));
    assert_eq!(iter.next_back(), Some(Attribute::Reverse));
    assert_eq!(iter.next(), Some(Attribute::Italic));
    assert_eq!(iter.next_back(), Some(Attribute::Strikethrough));
    assert_eq!(iter.next(), None);
    assert_eq!(iter.next_back(), None);
    assert_eq!(iter.next(), None);
    assert_eq!(iter.next_back(), None);
}

#[test]
fn format_exact_text() {
    let sline = StyledLine(vec![
        span(Style::default(), "a"),
        span(attrs(Attribute::Bold), "b"),
        span(fg(Color100::green()), "c"),
        span(Style::default(), "d"),
    ]);
    assert_eq!(sline.format(), "a\x02\x03b\x02\x0303c\x0fd");
}

#[test]
fn format_rgb_both() {
    let sline = StyledLine::from(span(
        Style {
            foreground: RgbColor(0xab, 0x01, 0xff).into(),
            background: RgbColor(0x00, 0x10, 0x20).into(),
            ..Style::default()
        },
        "x",
    ));
    assert_eq!(sline.format(), "\x04ab01ff,001020x");
    assert_eq!(StyledLine::parse(&sline.format()), sline);
}

#[test]
fn format_skips_empty_spans() {
    let sline = StyledLine(vec![span(attrs(Attribute::Bold), ""), span(Style::default(), "z")]);
    assert_eq!(sline.format(), "z");
}

#[test]
fn parse_adjacent_same_style_splits() {
    let sline = StyledLine::parse("a\x02\x02b");
    assert_eq!(
        sline,
        StyledLine(vec![span(Style::default(), "a"), span(Style::default(), "b")])
    );
}

#[test]
fn parse_foreground_digit_is_background() {
    let sline = StyledLine::parse("\x031234x");
    assert_eq!(
        sline,
        StyledLine(vec![span(
            Style {
                foreground: Color100::light_blue().into(),
                background: Color100::try_from_u8(34).unwrap().into(),
                ..Style::default()
            },
            "x"
        )])
    );
}

#[test]
fn attribute_set_operations() {
    let mut set = AttributeSet::new();
    assert!(set.is_empty());
    assert!(set.insert(Attribute::Bold));
    assert!(!set.insert(Attribute::Bold));
    assert!(set.contains(Attribute::Bold));
    assert_eq!(set.len(), 1);
    assert!(set.insert(Attribute::Underline));
    assert_eq!(set.len(), 2);
    assert!(set.remove(Attribute::Bold));
    assert!(!set.remove(Attribute::Bold));
    assert!(!set.contains(Attribute::Bold));
    let other = Attribute::Underline | Attribute::Reverse;
    assert!(set.is_subset(other));
    assert!(other.is_superset(set));
    assert!(!set.is_disjoint(other));
    assert!(set.is_disjoint(AttributeSet::from(Attribute::Italic)));
    assert!(AttributeSet::all().is_all());
    assert_eq!(AttributeSet::all().len(), 6);
    assert_eq!(set.complement().len(), 5);
    set.clear();
    assert!(set.is_empty());
}

#[test]
fn attribute_iter_order() {
    assert_eq!(
        Attribute::iter(),
        vec![
            Attribute::Bold,
            Attribute::Italic,
            Attribute::Underline,
            Attribute::Strikethrough,
            Attribute::Monospace,
            Attribute::Reverse
        ]
    );
}

#[test]
fn color100_ansi_tables_are_inverse() {
    for n in 0..99u8 {
        let c = Color100::try_from_u8(n).unwrap();
        let i = c.to_ansi_index().unwrap();
        assert_eq!(Color100::try_from_ansi_index(i), Some(c));
    }
    assert_eq!(Color100::default().to_ansi_index(), None);
    assert_eq!(Color100::white().to_ansi_index(), Some(15));
    assert_eq!(Color100::try_from_ansi_index(16), Some(Color100::try_from_u8(88).unwrap()));
    assert_eq!(Color100::try_from_ansi_index(20), None);
    assert!(Color100::try_from_u8(100).is_err());
    assert_eq!(u8::from(Color100::pink()), 13);
}

#[test]
fn style_predicates() {
    assert!(Style::default().is_plain());
    assert!(!fg(Color100::red()).is_plain());
    let spoiler = Style {
        foreground: Color::Color100(Color100::black()),
        background: Color::Color100(Color100::black()),
        ..Style::default()
    };
    assert!(spoiler.is_spoiler());
    assert!(!Style::default().is_spoiler());
}

#[test]
fn rgb_components() {
    let c = RgbColor::from((1, 2, 3));
    assert_eq!((c.red(), c.green(), c.blue()), (1, 2, 3));
    assert_eq!(<(u8, u8, u8)>::from(c), (1, 2, 3));
}

#[test]
fn attribute_set_doc_examples() {
    let mut attrset = AttributeSet::new();
    assert!(!attrset.contains(Attribute::Bold));
    assert!(attrset.insert(Attribute::Bold));
    assert!(attrset.contains(Attribute::Bold));
    assert!(!attrset.insert(Attribute::Bold));
    assert!(attrset.contains(Attribute::Bold));

    let mut attrset = AttributeSet::from([Attribute::Bold]);
    assert!(attrset.contains(Attribute::Bold));
    assert!(attrset.remove(Attribute::Bold));
    assert!(!attrset.contains(Attribute::Bold));
    assert!(!attrset.remove(Attribute::Bold));
    assert!(!attrset.contains(Attribute::Bold));

    let bi = AttributeSet::from([Attribute::Bold, Attribute::Italic]);
    let ur = AttributeSet::from([Attribute::Underline, Attribute::Reverse]);
    let bu = AttributeSet::from([Attribute::Bold, Attribute::Underline]);
    let b = AttributeSet::from([Attribute::Bold]);
    assert!(bi.is_disjoint(ur));
    assert!(ur.is_disjoint(bi));
    assert!(!bi.is_disjoint(bu));
    assert!(!bu.is_disjoint(bi));
    assert!(b.is_subset(bu));
    assert!(!bu.is_subset(b));
    assert!(!bi.is_subset(bu));
    assert!(!bu.is_subset(bi));
    assert!(!b.is_superset(bu));
    assert!(bu.is_superset(b));
    assert!(!bi.is_superset(bu));
    assert!(!bu.is_superset(bi));
}

#[test]
fn attribute_set_operators() {
    let bi = AttributeSet::from([Attribute::Bold, Attribute::Italic]);
    let bu = AttributeSet::from([Attribute::Bold, Attribute::Underline]);
    assert_eq!(bi & bu, AttributeSet::from([Attribute::Bold]));
    assert_eq!(bi ^ bu, AttributeSet::from([Attribute::Italic, Attribute::Underline]));
    assert_eq!(bi - bu, AttributeSet::from([Attribute::Italic]));
    assert_eq!(bi - Attribute::Bold, AttributeSet::from([Attribute::Italic]));
    assert_eq!(Attribute::Bold & bi, AttributeSet::from([Attribute::Bold]));
    assert_eq!(Attribute::Bold ^ Attribute::Italic, bi);
    assert_eq!(Attribute::Bold - Attribute::Bold, AttributeSet::new());
    assert_eq!((!bi).len(), 4);
    assert!(!(!bi).contains(Attribute::Bold));
    assert_eq!(!Attribute::Bold, AttributeSet::all() - Attribute::Bold);
    assert_eq!(!AttributeSet::all(), AttributeSet::new());
    assert_eq!(AttributeSet::from([]), AttributeSet::new());
}

#[test]
fn parsed_spans_are_plain_pieces_in_order() {
    let s = "a\x02bc\x0304,5d\x04ff00ggx\x0f\x03,e";
    let line = StyledLine::parse(s);
    let texts: Vec<&str> = line.iter().iter().map(|sp| sp.content.as_str()).collect();
    assert_eq!(texts, ["a", "bc", "d", "ff00ggx", ",e"]);
    let mut rest = s;
    for t in &texts {
        assert!(!t.is_empty());
        assert!(!t.chars().any(|c| "\x02\x1d\x1f\x1e\x11\x03\x04\x16\x0f".contains(c)));
        let at = rest.find(t).unwrap();
        rest = &rest[at + t.len()..];
    }
}

#[test]
fn attribute_set_default_is_empty() {
    assert_eq!(AttributeSet::default(), AttributeSet::new());
    assert!(AttributeSet::default().is_empty());
    assert_eq!(AttributeSet::default().len(), 0);
}
