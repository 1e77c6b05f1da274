//! The 100 numbered IRC colors, and their places in the ANSI 256-color
//! palette.
use vstd::prelude::*;
use vstd::std_specs::convert::FromSpecImpl;

verus! {

/// A color that can be used for the foreground or background of text in an IRC
/// client.  Colors are identified by numbers from 0 through 99.
#[derive(Copy, Debug, PartialEq, Eq, Structural, Hash, PartialOrd, Ord)]
pub struct Color100(u8);

impl View for Color100 {
    type V = u8;

    closed spec fn view(&self) -> u8 {
        self.0
    }
}

impl Clone for Color100 {
    fn clone(&self) -> (r: Self)
        ensures
            r == *self,
    {
        *self
    }
}

/// The index in the ANSI 256-color palette of IRC color `c`; color 99, the
/// default color, has none.  The indices of colors 16 through 98 are those
/// of <https://modern.ircdocs.horse/formatting#colors-16-98>.
pub open spec fn ansi_index_of(c: u8) -> Option<u8> {
    match c {
        0 => Some(15),
        1 => Some(0),
        2 => Some(4),
        3 => Some(2),
        4 => Some(9),
        5 => Some(1),
        6 => Some(5),
        7 => Some(3),
        8 => Some(11),
        9 => Some(10),
        10 => Some(6),
        11 => Some(14),
        12 => Some(12),
        13 => Some(13),
        14 => Some(8),
        15 => Some(7),
        16 => Some(52),
        17 => Some(94),
        18 => Some(100),
        19 => Some(58),
        20 => Some(22),
        21 => Some(29),
        22 => Some(23),
        23 => Some(24),
        24 => Some(17),
        25 => Some(54),
        26 => Some(53),
        27 => Some(89),
        28 => Some(88),
        29 => Some(130),
        30 => Some(142),
        31 => Some(64),
        32 => Some(28),
        33 => Some(35),
        34 => Some(30),
        35 => Some(25),
        36 => Some(18),
        37 => Some(91),
        38 => Some(90),
        39 => Some(125),
        40 => Some(124),
        41 => Some(166),
        42 => Some(184),
        43 => Some(106),
        44 => Some(34),
        45 => Some(49),
        46 => Some(37),
        47 => Some(33),
        48 => Some(19),
        49 => Some(129),
        50 => Some(127),
        51 => Some(161),
        52 => Some(196),
        53 => Some(208),
        54 => Some(226),
        55 => Some(154),
        56 => Some(46),
        57 => Some(86),
        58 => Some(51),
        59 => Some(75),
        60 => Some(21),
        61 => Some(171),
        62 => Some(201),
        63 => Some(198),
        64 => Some(203),
        65 => Some(215),
        66 => Some(227),
        67 => Some(191),
        68 => Some(83),
        69 => Some(122),
        70 => Some(87),
        71 => Some(111),
        72 => Some(63),
        73 => Some(177),
        74 => Some(207),
        75 => Some(205),
        76 => Some(217),
        77 => Some(223),
        78 => Some(229),
        79 => Some(193),
        80 => Some(157),
        81 => Some(158),
        82 => Some(159),
        83 => Some(153),
        84 => Some(147),
        85 => Some(183),
        86 => Some(219),
        87 => Some(212),
        88 => Some(16),
        89 => Some(233),
        90 => Some(235),
        91 => Some(237),
        92 => Some(239),
        93 => Some(241),
        94 => Some(244),
        95 => Some(247),
        96 => Some(250),
        97 => Some(254),
        98 => Some(231),
        _ => None,
    }
}

/// The IRC color whose ANSI palette index is `i`, if any
pub open spec fn color_of_ansi(i: u8) -> Option<u8> {
    match i {
        0 => Some(1),
        1 => Some(5),
        2 => Some(3),
        3 => Some(7),
        4 => Some(2),
        5 => Some(6),
        6 => Some(10),
        7 => Some(15),
        8 => Some(14),
        9 => Some(4),
        10 => Some(9),
        11 => Some(8),
        12 => Some(12),
        13 => Some(13),
        14 => Some(11),
        15 => Some(0),
        16 => Some(88),
        17 => Some(24),
        18 => Some(36),
        19 => Some(48),
        21 => Some(60),
        22 => Some(20),
        23 => Some(22),
        24 => Some(23),
        25 => Some(35),
        28 => Some(32),
        29 => Some(21),
        30 => Some(34),
        33 => Some(47),
        34 => Some(44),
        35 => Some(33),
        37 => Some(46),
        46 => Some(56),
        49 => Some(45),
        51 => Some(58),
        52 => Some(16),
        53 => Some(26),
        54 => Some(25),
        58 => Some(19),
        63 => Some(72),
        64 => Some(31),
        75 => Some(59),
        83 => Some(68),
        86 => Some(57),
        87 => Some(70),
        88 => Some(28),
        89 => Some(27),
        90 => Some(38),
        91 => Some(37),
        94 => Some(17),
        100 => Some(18),
        106 => Some(43),
        111 => Some(71),
        122 => Some(69),
        124 => Some(40),
        125 => Some(39),
        127 => Some(50),
        129 => Some(49),
        130 => Some(29),
        142 => Some(30),
        147 => Some(84),
        153 => Some(83),
        154 => Some(55),
        157 => Some(80),
        158 => Some(81),
        159 => Some(82),
        161 => Some(51),
        166 => Some(41),
        171 => Some(61),
        177 => Some(73),
        183 => Some(85),
        184 => Some(42),
        191 => Some(67),
        193 => Some(79),
        196 => Some(52),
        198 => Some(63),
        201 => Some(62),
        203 => Some(64),
        205 => Some(75),
        207 => Some(74),
        208 => Some(53),
        212 => Some(87),
        215 => Some(65),
        217 => Some(76),
        219 => Some(86),
        223 => Some(77),
        226 => Some(54),
        227 => Some(66),
        229 => Some(78),
        231 => Some(98),
        233 => Some(89),
        235 => Some(90),
        237 => Some(91),
        239 => Some(92),
        241 => Some(93),
        244 => Some(94),
        247 => Some(95),
        250 => Some(96),
        254 => Some(97),
        _ => None,
    }
}

/// The two palette tables are inverse: each color below 99 maps to an index
/// that maps back to it.
pub proof fn lemma_ansi_roundtrip(c: u8)
    requires
        c < 99,
    ensures
        ansi_index_of(c) is Some,
        color_of_ansi(ansi_index_of(c)->Some_0) == Some(c),
{
}

/// The two palette tables are inverse: each index that maps to a color is the
/// index of that color.
pub proof fn lemma_ansi_inverse(i: u8)
    ensures
        color_of_ansi(i) matches Some(c) ==> c < 99 && ansi_index_of(c) == Some(i),
{
}

/// The number of palette indices below `n` that map to a color
pub open spec fn ansi_mapped_count(n: nat) -> nat
    decreases n,
{
    if n == 0 {
        0
    } else {
        ansi_mapped_count((n - 1) as nat) + if color_of_ansi((n - 1) as u8) is Some {
            1nat
        } else {
            0nat
        }
    }
}

/// Exactly 99 of the 256 palette indices map to a color, one for each color
/// but the default
pub proof fn lemma_ansi_mapped_count()
    ensures
        ansi_mapped_count(256) == 99,
{
    assert(ansi_mapped_count(0) == 0);
    assert(ansi_mapped_count(16) == 16) by {
        reveal_with_fuel(ansi_mapped_count, 17);
    }
    assert(ansi_mapped_count(32) == 28) by {
        reveal_with_fuel(ansi_mapped_count, 17);
    }
    assert(ansi_mapped_count(48) == 33) by {
        reveal_with_fuel(ansi_mapped_count, 17);
    }
    assert(ansi_mapped_count(64) == 40) by {
        reveal_with_fuel(ansi_mapped_count, 17);
    }
    assert(ansi_mapped_count(80) == 42) by {
        reveal_with_fuel(ansi_mapped_count, 17);
    }
    assert(ansi_mapped_count(96) == 50) by {
        reveal_with_fuel(ansi_mapped_count, 17);
    }
    assert(ansi_mapped_count(112) == 53) by {
        reveal_with_fuel(ansi_mapped_count, 17);
    }
    assert(ansi_mapped_count(128) == 57) by {
        reveal_with_fuel(ansi_mapped_count, 17);
    }
    assert(ansi_mapped_count(144) == 60) by {
        reveal_with_fuel(ansi_mapped_count, 17);
    }
    assert(ansi_mapped_count(160) == 66) by {
        reveal_with_fuel(ansi_mapped_count, 17);
    }
    assert(ansi_mapped_count(176) == 69) by {
        reveal_with_fuel(ansi_mapped_count, 17);
    }
    assert(ansi_mapped_count(192) == 73) by {
        reveal_with_fuel(ansi_mapped_count, 17);
    }
    assert(ansi_mapped_count(208) == 80) by {
        reveal_with_fuel(ansi_mapped_count, 17);
    }
    assert(ansi_mapped_count(224) == 86) by {
        reveal_with_fuel(ansi_mapped_count, 17);
    }
    assert(ansi_mapped_count(240) == 94) by {
        reveal_with_fuel(ansi_mapped_count, 17);
    }
    assert(ansi_mapped_count(256) == 99) by {
        reveal_with_fuel(ansi_mapped_count, 17);
    }
}

impl Color100 {
    #[verifier::type_invariant]
    spec fn inv(self) -> bool {
        self.0 < 100
    }

    /// Color 0, corresponding to ANSI bright white (index 15)
    pub fn white() -> (r: Color100)
        ensures
            r@ == 0,
    {
        Color100(0)
    }

    /// Color 1, corresponding to ANSI black (index 0)
    pub fn black() -> (r: Color100)
        ensures
            r@ == 1,
    {
        Color100(1)
    }

    /// Color 2, corresponding to ANSI blue (index 4)
    pub fn blue() -> (r: Color100)
        ensures
            r@ == 2,
    {
        Color100(2)
    }

    /// Color 3, corresponding to ANSI green (index 2)
    pub fn green() -> (r: Color100)
        ensures
            r@ == 3,
    {
        Color100(3)
    }

    /// Color 4, corresponding to ANSI bright red (9)
    ///
    /// Also called "light red" by some clients
    pub fn red() -> (r: Color100)
        ensures
            r@ == 4,
    {
        Color100(4)
    }

    /// Color 5, corresponding to ANSI red (1)
    ///
    /// Also called "red" by some clients
    pub fn brown() -> (r: Color100)
        ensures
            r@ == 5,
    {
        Color100(5)
    }

    /// Color 6, corresponding to ANSI magenta (5)
    pub fn magenta() -> (r: Color100)
        ensures
            r@ == 6,
    {
        Color100(6)
    }

    /// Color 7, corresponding to ANSI yellow (3)
    pub fn orange() -> (r: Color100)
        ensures
            r@ == 7,
    {
        Color100(7)
    }

    /// Color 8, corresponding to ANSI bright yellow (11)
    pub fn yellow() -> (r: Color100)
        ensures
            r@ == 8,
    {
        Color100(8)
    }

    /// Color 9, corresponding to ANSI bright green (index 10)
    pub fn light_green() -> (r: Color100)
        ensures
            r@ == 9,
    {
        Color100(9)
    }

    /// Color 10, corresponding to ANSI cyan (index 6)
    pub fn cyan() -> (r: Color100)
        ensures
            r@ == 10,
    {
        Color100(10)
    }

    /// Color 11, corresponding to ANSI cyan (index 14)
    pub fn light_cyan() -> (r: Color100)
        ensures
            r@ == 11,
    {
        Color100(11)
    }

    /// Color 12, corresponding to ANSI bright blue (index 12)
    pub fn light_blue() -> (r: Color100)
        ensures
            r@ == 12,
    {
        Color100(12)
    }

    /// Color 13, corresponding to ANSI bright magenta (index 13)
    ///
    /// Also called "light magenta" by some clients
    pub fn pink() -> (r: Color100)
        ensures
            r@ == 13,
    {
        Color100(13)
    }

    /// Color 14, corresponding to ANSI bright black (index 8)
    pub fn grey() -> (r: Color100)
        ensures
            r@ == 14,
    {
        Color100(14)
    }

    /// Color 15, corresponding to ANSI white (index 7)
    pub fn light_grey() -> (r: Color100)
        ensures
            r@ == 15,
    {
        Color100(15)
    }


    /// The color's index in the ANSI 256-color palette; the default color
    /// (99) has none
    pub fn to_ansi_index(self) -> (r: Option<u8>)
        ensures
            r == ansi_index_of(self@),
            r is None <==> self@ == 99,
    {
        proof {
            use_type_invariant(&self);
        }
        match self.0 {
            0 => Some(15),
            1 => Some(0),
            2 => Some(4),
            3 => Some(2),
            4 => Some(9),
            5 => Some(1),
            6 => Some(5),
            7 => Some(3),
            8 => Some(11),
            9 => Some(10),
            10 => Some(6),
            11 => Some(14),
            12 => Some(12),
            13 => Some(13),
            14 => Some(8),
            15 => Some(7),
            16 => Some(52),
            17 => Some(94),
            18 => Some(100),
            19 => Some(58),
            20 => Some(22),
            21 => Some(29),
            22 => Some(23),
            23 => Some(24),
            24 => Some(17),
            25 => Some(54),
            26 => Some(53),
            27 => Some(89),
            28 => Some(88),
            29 => Some(130),
            30 => Some(142),
            31 => Some(64),
            32 => Some(28),
            33 => Some(35),
            34 => Some(30),
            35 => Some(25),
            36 => Some(18),
            37 => Some(91),
            38 => Some(90),
            39 => Some(125),
            40 => Some(124),
            41 => Some(166),
            42 => Some(184),
            43 => Some(106),
            44 => Some(34),
            45 => Some(49),
            46 => Some(37),
            47 => Some(33),
            48 => Some(19),
            49 => Some(129),
            50 => Some(127),
            51 => Some(161),
            52 => Some(196),
            53 => Some(208),
            54 => Some(226),
            55 => Some(154),
            56 => Some(46),
            57 => Some(86),
            58 => Some(51),
            59 => Some(75),
            60 => Some(21),
            61 => Some(171),
            62 => Some(201),
            63 => Some(198),
            64 => Some(203),
            65 => Some(215),
            66 => Some(227),
            67 => Some(191),
            68 => Some(83),
            69 => Some(122),
            70 => Some(87),
            71 => Some(111),
            72 => Some(63),
            73 => Some(177),
            74 => Some(207),
            75 => Some(205),
            76 => Some(217),
            77 => Some(223),
            78 => Some(229),
            79 => Some(193),
            80 => Some(157),
            81 => Some(158),
            82 => Some(159),
            83 => Some(153),
            84 => Some(147),
            85 => Some(183),
            86 => Some(219),
            87 => Some(212),
            88 => Some(16),
            89 => Some(233),
            90 => Some(235),
            91 => Some(237),
            92 => Some(239),
            93 => Some(241),
            94 => Some(244),
            95 => Some(247),
            96 => Some(250),
            97 => Some(254),
            98 => Some(231),
            _ => None,
        }
    }

    /// The color whose ANSI palette index is `index`, if any
    pub fn try_from_ansi_index(index: u8) -> (r: Option<Color100>)
        ensures
            r matches Some(c) ==> color_of_ansi(index) == Some(c@),
            r is None ==> color_of_ansi(index) is None,
    {
        match index {
            0 => Some(Color100(1)),
            1 => Some(Color100(5)),
            2 => Some(Color100(3)),
            3 => Some(Color100(7)),
            4 => Some(Color100(2)),
            5 => Some(Color100(6)),
            6 => Some(Color100(10)),
            7 => Some(Color100(15)),
            8 => Some(Color100(14)),
            9 => Some(Color100(4)),
            10 => Some(Color100(9)),
            11 => Some(Color100(8)),
            12 => Some(Color100(12)),
            13 => Some(Color100(13)),
            14 => Some(Color100(11)),
            15 => Some(Color100(0)),
            16 => Some(Color100(88)),
            17 => Some(Color100(24)),
            18 => Some(Color100(36)),
            19 => Some(Color100(48)),
            21 => Some(Color100(60)),
            22 => Some(Color100(20)),
            23 => Some(Color100(22)),
            24 => Some(Color100(23)),
            25 => Some(Color100(35)),
            28 => Some(Color100(32)),
            29 => Some(Color100(21)),
            30 => Some(Color100(34)),
            33 => Some(Color100(47)),
            34 => Some(Color100(44)),
            35 => Some(Color100(33)),
            37 => Some(Color100(46)),
            46 => Some(Color100(56)),
            49 => Some(Color100(45)),
            51 => Some(Color100(58)),
            52 => Some(Color100(16)),
            53 => Some(Color100(26)),
            54 => Some(Color100(25)),
            58 => Some(Color100(19)),
            63 => Some(Color100(72)),
            64 => Some(Color100(31)),
            75 => Some(Color100(59)),
            83 => Some(Color100(68)),
            86 => Some(Color100(57)),
            87 => Some(Color100(70)),
            88 => Some(Color100(28)),
            89 => Some(Color100(27)),
            90 => Some(Color100(38)),
            91 => Some(Color100(37)),
            94 => Some(Color100(17)),
            100 => Some(Color100(18)),
            106 => Some(Color100(43)),
            111 => Some(Color100(71)),
            122 => Some(Color100(69)),
            124 => Some(Color100(40)),
            125 => Some(Color100(39)),
            127 => Some(Color100(50)),
            129 => Some(Color100(49)),
            130 => Some(Color100(29)),
            142 => Some(Color100(30)),
            147 => Some(Color100(84)),
            153 => Some(Color100(83)),
            154 => Some(Color100(55)),
            157 => Some(Color100(80)),
            158 => Some(Color100(81)),
            159 => Some(Color100(82)),
            161 => Some(Color100(51)),
            166 => Some(Color100(41)),
            171 => Some(Color100(61)),
            177 => Some(Color100(73)),
            183 => Some(Color100(85)),
            184 => Some(Color100(42)),
            191 => Some(Color100(67)),
            193 => Some(Color100(79)),
            196 => Some(Color100(52)),
            198 => Some(Color100(63)),
            201 => Some(Color100(62)),
            203 => Some(Color100(64)),
            205 => Some(Color100(75)),
            207 => Some(Color100(74)),
            208 => Some(Color100(53)),
            212 => Some(Color100(87)),
            215 => Some(Color100(65)),
            217 => Some(Color100(76)),
            219 => Some(Color100(86)),
            223 => Some(Color100(77)),
            226 => Some(Color100(54)),
            227 => Some(Color100(66)),
            229 => Some(Color100(78)),
            231 => Some(Color100(98)),
            233 => Some(Color100(89)),
            235 => Some(Color100(90)),
            237 => Some(Color100(91)),
            239 => Some(Color100(92)),
            241 => Some(Color100(93)),
            244 => Some(Color100(94)),
            247 => Some(Color100(95)),
            250 => Some(Color100(96)),
            254 => Some(Color100(97)),
            _ => None,
        }
    }

    /// The color numbered `value`, which must be at most 99
    pub fn try_from_u8(value: u8) -> (r: Result<Color100, Color100TryFromIntError>)
        ensures
            r is Ok <==> value < 100,
            r matches Ok(c) ==> c@ == value,
    {
        if value < 100 {
            Ok(Color100(value))
        } else {
            Err(Color100TryFromIntError)
        }
    }

    /// The color's number
    pub fn value(self) -> (r: u8)
        ensures
            r == self@,
            r < 100,
    {
        proof {
            use_type_invariant(&self);
        }
        self.0
    }
}

impl Default for Color100 {
    fn default() -> (r: Color100)
        ensures
            r@ == 99,
    {
        Color100(99)
    }
}

impl From<Color100> for u8 {
    fn from(value: Color100) -> (r: u8)
        ensures
            r == value@,
    {
        value.value()
    }
}

impl FromSpecImpl<Color100> for u8 {
    open spec fn obeys_from_spec() -> bool {
        true
    }

    open spec fn from_spec(v: Color100) -> u8 {
        v@
    }
}

/// A number above 99 given as an IRC color
#[derive(Clone, Copy, Debug, PartialEq, Eq, Hash)]
pub struct Color100TryFromIntError;

} // verus!
