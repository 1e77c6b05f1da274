//! Text attributes (bold, italic, ...) and sets of them.
use vstd::prelude::*;
use vstd::std_specs::convert::FromSpecImpl;
use vstd::std_specs::ops::{BitAndSpecImpl, BitOrSpecImpl, BitXorSpecImpl, NotSpecImpl, SubSpecImpl};

verus! {

/// Individual formatting effects that can be applied to IRC text
#[derive(Clone, Copy, Debug, PartialEq, Eq, Structural, Hash, PartialOrd, Ord)]
pub enum Attribute {
    Bold,
    Italic,
    Underline,
    Strikethrough,
    Monospace,
    Reverse,
}

/// The bit that stands for `a` in an [`AttributeSet`]
pub open spec fn attr_bit(a: Attribute) -> u8 {
    match a {
        Attribute::Bold => 1,
        Attribute::Italic => 2,
        Attribute::Underline => 4,
        Attribute::Strikethrough => 8,
        Attribute::Monospace => 16,
        Attribute::Reverse => 32,
    }
}

/// All attributes, in their order
pub open spec fn all_attributes() -> Seq<Attribute> {
    seq![
        Attribute::Bold,
        Attribute::Italic,
        Attribute::Underline,
        Attribute::Strikethrough,
        Attribute::Monospace,
        Attribute::Reverse,
    ]
}

/// The position of `a` in [`all_attributes`]
pub open spec fn attr_index(a: Attribute) -> int {
    match a {
        Attribute::Bold => 0,
        Attribute::Italic => 1,
        Attribute::Underline => 2,
        Attribute::Strikethrough => 3,
        Attribute::Monospace => 4,
        Attribute::Reverse => 5,
    }
}

/// Whether bit `b` is set in `x`
pub open spec fn has_bit(x: u8, b: u8) -> bool {
    x & b != 0
}

/// The attributes whose bits are set in `x`
pub open spec fn bits_set(x: u8) -> Set<Attribute> {
    Set::new(|a: Attribute| has_bit(x, attr_bit(a)))
}

/// Each attribute has its position in [`all_attributes`]
pub proof fn lemma_attr_order()
    ensures
        forall|a: Attribute| 0 <= #[trigger] attr_index(a) < 6 && all_attributes()[attr_index(a)] == a,
        forall|i: int| 0 <= i < 6 ==> attr_index(#[trigger] all_attributes()[i]) == i,
{
    assert forall|i: int| 0 <= i < 6 implies attr_index(#[trigger] all_attributes()[i]) == i by {
        if i == 0 {} else if i == 1 {} else if i == 2 {} else if i == 3 {} else if i == 4 {} else {}
    }
}

/// The bits of distinct attributes are distinct
proof fn lemma_single_bits()
    ensures
        forall|a: Attribute, c: Attribute| #[trigger] has_bit(attr_bit(a), attr_bit(c)) == (a == c),
{
    assert(has_bit(1, 1) && !has_bit(1, 2) && !has_bit(1, 4) && !has_bit(1, 8) && !has_bit(1, 16) && !has_bit(1, 32)
        && !has_bit(2, 1) && has_bit(2, 2) && !has_bit(2, 4) && !has_bit(2, 8) && !has_bit(2, 16) && !has_bit(2, 32)
        && !has_bit(4, 1) && !has_bit(4, 2) && has_bit(4, 4) && !has_bit(4, 8) && !has_bit(4, 16) && !has_bit(4, 32)
        && !has_bit(8, 1) && !has_bit(8, 2) && !has_bit(8, 4) && has_bit(8, 8) && !has_bit(8, 16) && !has_bit(8, 32)
        && !has_bit(16, 1) && !has_bit(16, 2) && !has_bit(16, 4) && !has_bit(16, 8) && has_bit(16, 16) && !has_bit(16, 32)
        && !has_bit(32, 1) && !has_bit(32, 2) && !has_bit(32, 4) && !has_bit(32, 8) && !has_bit(32, 16) && has_bit(32, 32)) by (bit_vector);
}

/// The six attribute bits of `x | y`, `x & y`, `x ^ y`, and `x & !y`
proof fn lemma_bit_ops(x: u8, y: u8)
    ensures
        forall|a: Attribute| #[trigger] has_bit(x | y, attr_bit(a)) == (has_bit(x, attr_bit(a)) || has_bit(y, attr_bit(a))),
        forall|a: Attribute| #[trigger] has_bit(x & y, attr_bit(a)) == (has_bit(x, attr_bit(a)) && has_bit(y, attr_bit(a))),
        forall|a: Attribute| #[trigger] has_bit(x ^ y, attr_bit(a)) == (has_bit(x, attr_bit(a)) != has_bit(y, attr_bit(a))),
        forall|a: Attribute| #[trigger] has_bit(x & !y, attr_bit(a)) == (has_bit(x, attr_bit(a)) && !has_bit(y, attr_bit(a))),
        x < 64 && y < 64 ==> (x | y) < 64 && (x & y) < 64 && (x ^ y) < 64 && (x & !y) < 64,
{
    assert(forall|b: u8| b == 1 || b == 2 || b == 4 || b == 8 || b == 16 || b == 32 ==> (
        ((x | y) & b != 0) == ((x & b != 0) || (y & b != 0))
        && ((x & y) & b != 0) == ((x & b != 0) && (y & b != 0))
        && ((x ^ y) & b != 0) == ((x & b != 0) != (y & b != 0))
        && ((x & !y) & b != 0) == ((x & b != 0) && !(y & b != 0)))) by (bit_vector);
    assert(x < 64 && y < 64 ==> (x | y) < 64 && (x & y) < 64 && (x ^ y) < 64 && (x & !y) < 64) by (bit_vector);
}

/// Below 64, a value is determined by its six attribute bits
proof fn lemma_bits_determine(x: u8, y: u8)
    requires
        x < 64,
        y < 64,
        forall|a: Attribute| #[trigger] has_bit(x, attr_bit(a)) == has_bit(y, attr_bit(a)),
    ensures
        x == y,
{
    assert(has_bit(x, attr_bit(Attribute::Bold)) == has_bit(y, attr_bit(Attribute::Bold)));
    assert(has_bit(x, attr_bit(Attribute::Italic)) == has_bit(y, attr_bit(Attribute::Italic)));
    assert(has_bit(x, attr_bit(Attribute::Underline)) == has_bit(y, attr_bit(Attribute::Underline)));
    assert(has_bit(x, attr_bit(Attribute::Strikethrough)) == has_bit(y, attr_bit(Attribute::Strikethrough)));
    assert(has_bit(x, attr_bit(Attribute::Monospace)) == has_bit(y, attr_bit(Attribute::Monospace)));
    assert(has_bit(x, attr_bit(Attribute::Reverse)) == has_bit(y, attr_bit(Attribute::Reverse)));
    assert(x < 64 && y < 64 && ((x & 1 != 0) == (y & 1 != 0)) && ((x & 2 != 0) == (y & 2 != 0)) && ((x & 4
        != 0) == (y & 4 != 0)) && ((x & 8 != 0) == (y & 8 != 0)) && ((x & 16 != 0) == (y & 16 != 0)) && ((x
        & 32 != 0) == (y & 32 != 0)) ==> x == y) by (bit_vector);
}

/// The values 0 and 63: no bits and all six bits
proof fn lemma_empty_full()
    ensures
        forall|a: Attribute| !#[trigger] has_bit(0, attr_bit(a)),
        forall|a: Attribute| #[trigger] has_bit(63, attr_bit(a)),
{
    assert(!has_bit(0, 1) && !has_bit(0, 2) && !has_bit(0, 4) && !has_bit(0, 8) && !has_bit(0, 16) && !has_bit(0, 32)
        && has_bit(63, 1) && has_bit(63, 2) && has_bit(63, 4) && has_bit(63, 8) && has_bit(63, 16) && has_bit(63, 32)) by (bit_vector);
}

impl Attribute {
    /// The bit that stands for the attribute in an [`AttributeSet`]
    pub fn bit(self) -> (r: u8)
        ensures
            r == attr_bit(self),
    {
        match self {
            Attribute::Bold => 1,
            Attribute::Italic => 2,
            Attribute::Underline => 4,
            Attribute::Strikethrough => 8,
            Attribute::Monospace => 16,
            Attribute::Reverse => 32,
        }
    }

    /// All attributes, in their order
    pub fn iter() -> (r: Vec<Attribute>)
        ensures
            r@ == all_attributes(),
    {
        let r = vec![
            Attribute::Bold,
            Attribute::Italic,
            Attribute::Underline,
            Attribute::Strikethrough,
            Attribute::Monospace,
            Attribute::Reverse,
        ];
        assert(r@ =~= all_attributes());
        r
    }
}

/// A set of [`Attribute`]s
#[derive(Copy, Debug, PartialEq, Eq, Structural, Hash, PartialOrd, Ord)]
pub struct AttributeSet(u8);

impl View for AttributeSet {
    type V = Set<Attribute>;

    closed spec fn view(&self) -> Set<Attribute> {
        bits_set(self.0)
    }
}

/// The set of all attributes
pub open spec fn full_attr_set() -> Set<Attribute> {
    Set::new(|a: Attribute| true)
}

impl Clone for AttributeSet {
    fn clone(&self) -> (r: Self)
        ensures
            r == *self,
    {
        *self
    }
}

impl AttributeSet {
    #[verifier::type_invariant]
    spec fn inv(self) -> bool {
        self.0 < 64
    }

    /// Two sets with the same attributes are equal
    proof fn lemma_view_eq(a: AttributeSet, b: AttributeSet)
        requires
            a.0 < 64,
            b.0 < 64,
        ensures
            (a@ == b@) == (a == b),
    {
        if a@ == b@ {
            assert forall|x: Attribute| #[trigger] has_bit(a.0, attr_bit(x)) == has_bit(b.0, attr_bit(x)) by {
                assert(a@.contains(x) == b@.contains(x));
            }
            lemma_bits_determine(a.0, b.0);
        }
    }

    /// A set containing no attributes
    pub fn new() -> (r: AttributeSet)
        ensures
            r@ == Set::<Attribute>::empty(),
    {
        proof {
            lemma_empty_full();
        }
        let r = AttributeSet(0);
        assert(r@ =~= Set::<Attribute>::empty());
        r
    }

    /// A set containing every attribute
    pub fn all() -> (r: AttributeSet)
        ensures
            r@ == full_attr_set(),
    {
        proof {
            lemma_empty_full();
        }
        let r = AttributeSet(63);
        assert(r@ =~= full_attr_set());
        r
    }

    /// Whether the set is empty
    pub fn is_empty(self) -> (r: bool)
        ensures
            r == (self@ == Set::<Attribute>::empty()),
    {
        proof {
            use_type_invariant(&self);
            lemma_empty_full();
            let e = AttributeSet(0);
            assert(e@ =~= Set::<Attribute>::empty());
            AttributeSet::lemma_view_eq(self, e);
        }
        self.0 == 0
    }

    /// The number of attributes in the set
    pub fn len(self) -> (r: usize)
        ensures
            r == attr_count(self@),
    {
        let mut n: usize = 0;
        let attrs = Attribute::iter();
        let mut i: usize = 0;
        while i < attrs.len()
            invariant
                0 <= i <= attrs@.len(),
                attrs@ == all_attributes(),
                n == count_in(self@, i as int),
                n <= i,
            decreases attrs@.len() - i,
        {
            if self.contains(attrs[i]) {
                n = n + 1;
            }
            i = i + 1;
        }
        n
    }

    /// Whether the set contains every attribute
    pub fn is_all(self) -> (r: bool)
        ensures
            r == (self@ == full_attr_set()),
    {
        proof {
            use_type_invariant(&self);
            lemma_empty_full();
            let f = AttributeSet(63);
            assert(f@ =~= full_attr_set());
            AttributeSet::lemma_view_eq(self, f);
        }
        self.0 == 63
    }

    /// Whether the two sets hold the same attributes
    pub fn same_as(self, other: AttributeSet) -> (r: bool)
        ensures
            r == (self@ == other@),
    {
        proof {
            use_type_invariant(&self);
            use_type_invariant(&other);
            AttributeSet::lemma_view_eq(self, other);
        }
        self.0 == other.0
    }

    /// Whether the set contains `attr`
    pub fn contains(self, attr: Attribute) -> (r: bool)
        ensures
            r == self@.contains(attr),
    {
        self.0 & attr.bit() != 0
    }

    /// Adds `attr` to the set, returning whether it was absent
    pub fn insert(&mut self, attr: Attribute) -> (r: bool)
        ensures
            r == !old(self)@.contains(attr),
            final(self)@ == old(self)@.insert(attr),
    {
        proof {
            use_type_invariant(&*self);
            lemma_bit_ops(self.0, attr_bit(attr));
            lemma_single_bits();
        }
        let b = attr.bit();
        let adding = self.0 & b == 0;
        let ghost before = self@;
        *self = AttributeSet(self.0 | b);
        assert(self@ =~= before.insert(attr));
        adding
    }

    /// Removes `attr` from the set, returning whether it was present
    pub fn remove(&mut self, attr: Attribute) -> (r: bool)
        ensures
            r == old(self)@.contains(attr),
            final(self)@ == old(self)@.remove(attr),
    {
        proof {
            use_type_invariant(&*self);
            lemma_bit_ops(self.0, attr_bit(attr));
            lemma_single_bits();
        }
        let b = attr.bit();
        let present = self.0 & b != 0;
        let ghost before = self@;
        *self = AttributeSet(self.0 & !b);
        assert(self@ =~= before.remove(attr));
        present
    }

    /// Removes every attribute from the set
    pub fn clear(&mut self)
        ensures
            final(self)@ == Set::<Attribute>::empty(),
    {
        *self = AttributeSet::new();
    }

    /// Whether no attribute is in both sets
    pub fn is_disjoint(self, other: AttributeSet) -> (r: bool)
        ensures
            r == self@.disjoint(other@),
    {
        proof {
            use_type_invariant(&self);
            use_type_invariant(&other);
            lemma_bit_ops(self.0, other.0);
            lemma_empty_full();
            let e = AttributeSet(0);
            let m = AttributeSet(self.0 & other.0);
            AttributeSet::lemma_view_eq(m, e);
            if self.0 & other.0 == 0 {
                assert forall|a: Attribute| !(self@.contains(a) && other@.contains(a)) by {
                    assert(!has_bit(m.0, attr_bit(a)));
                }
            } else {
                assert(!(m@ =~= e@));
                let a = choose|a: Attribute| !(m@.contains(a) == e@.contains(a));
                assert(self@.contains(a) && other@.contains(a));
            }
        }
        self.0 & other.0 == 0
    }

    /// Whether every attribute of `self` is in `other`
    pub fn is_subset(self, other: AttributeSet) -> (r: bool)
        ensures
            r == self@.subset_of(other@),
    {
        proof {
            use_type_invariant(&self);
            use_type_invariant(&other);
            lemma_bit_ops(self.0, other.0);
            let m = AttributeSet(self.0 & other.0);
            AttributeSet::lemma_view_eq(m, self);
            if self.0 & other.0 == self.0 {
                assert forall|a: Attribute| self@.contains(a) implies other@.contains(a) by {
                    assert(has_bit(m.0, attr_bit(a)));
                }
            } else {
                assert(!(m@ =~= self@));
                let a = choose|a: Attribute| !(m@.contains(a) == self@.contains(a));
                assert(self@.contains(a) && !other@.contains(a));
            }
        }
        self.0 & other.0 == self.0
    }

    /// Whether every attribute of `other` is in `self`
    pub fn is_superset(self, other: AttributeSet) -> (r: bool)
        ensures
            r == other@.subset_of(self@),
    {
        other.is_subset(self)
    }

    /// The attributes in either set
    pub fn union(self, other: AttributeSet) -> (r: AttributeSet)
        ensures
            r@ == self@.union(other@),
    {
        proof {
            use_type_invariant(&self);
            use_type_invariant(&other);
            lemma_bit_ops(self.0, other.0);
        }
        let r = AttributeSet(self.0 | other.0);
        assert(r@ =~= self@.union(other@));
        r
    }

    /// The attributes in both sets
    pub fn intersection(self, other: AttributeSet) -> (r: AttributeSet)
        ensures
            r@ == self@.intersect(other@),
    {
        proof {
            use_type_invariant(&self);
            use_type_invariant(&other);
            lemma_bit_ops(self.0, other.0);
        }
        let r = AttributeSet(self.0 & other.0);
        assert(r@ =~= self@.intersect(other@));
        r
    }

    /// The attributes in exactly one of the sets
    pub fn symmetric_difference(self, other: AttributeSet) -> (r: AttributeSet)
        ensures
            r@ == self@.difference(other@).union(other@.difference(self@)),
    {
        proof {
            use_type_invariant(&self);
            use_type_invariant(&other);
            lemma_bit_ops(self.0, other.0);
        }
        let r = AttributeSet(self.0 ^ other.0);
        assert(r@ =~= self@.difference(other@).union(other@.difference(self@)));
        r
    }

    /// The attributes of `self` that are not in `other`
    pub fn difference(self, other: AttributeSet) -> (r: AttributeSet)
        ensures
            r@ == self@.difference(other@),
    {
        proof {
            use_type_invariant(&self);
            use_type_invariant(&other);
            lemma_bit_ops(self.0, other.0);
        }
        let r = AttributeSet(self.0 & !other.0);
        assert(r@ =~= self@.difference(other@));
        r
    }

    /// The attributes not in the set
    pub fn complement(self) -> (r: AttributeSet)
        ensures
            r@ == full_attr_set().difference(self@),
    {
        proof {
            use_type_invariant(&self);
            lemma_bit_ops(63, self.0);
            lemma_empty_full();
        }
        let r = AttributeSet(63 & !self.0);
        assert(r@ =~= full_attr_set().difference(self@));
        r
    }

    /// The set holding just `attr`
    pub fn single(attr: Attribute) -> (r: AttributeSet)
        ensures
            r@ == Set::<Attribute>::empty().insert(attr),
    {
        proof {
            lemma_single_bits();
        }
        let r = AttributeSet(attr.bit());
        assert(r@ =~= Set::<Attribute>::empty().insert(attr));
        r
    }

    /// The attributes of the set, to be taken out one at a time from either end
    pub fn into_iter(self) -> (r: AttributeSetIter)
        ensures
            r@ == members_between(self@, 0, 6),
    {
        AttributeSetIter { set: self, front: 0, back: 6 }
    }
}

/// The number of attributes among the first `n` of [`all_attributes`] that are in `s`
pub open spec fn count_in(s: Set<Attribute>, n: int) -> nat
    decreases n,
{
    if n <= 0 {
        0
    } else {
        count_in(s, n - 1) + if s.contains(all_attributes()[n - 1]) { 1nat } else { 0nat }
    }
}

/// The number of attributes in `s`
pub open spec fn attr_count(s: Set<Attribute>) -> nat {
    count_in(s, 6)
}

/// The attributes of `s` among positions `from` to `to` (exclusive) of
/// [`all_attributes`], in order
pub open spec fn members_between(s: Set<Attribute>, from: int, to: int) -> Seq<Attribute>
    decreases to - from,
{
    if from >= to {
        Seq::empty()
    } else if s.contains(all_attributes()[from]) {
        seq![all_attributes()[from]] + members_between(s, from + 1, to)
    } else {
        members_between(s, from + 1, to)
    }
}

/// [`members_between`], taking from the back
pub proof fn lemma_members_back(s: Set<Attribute>, from: int, to: int)
    requires
        from < to,
    ensures
        members_between(s, from, to) == if s.contains(all_attributes()[to - 1]) {
            members_between(s, from, to - 1).push(all_attributes()[to - 1])
        } else {
            members_between(s, from, to - 1)
        },
    decreases to - from,
{
    let a = all_attributes()[from];
    let z = all_attributes()[to - 1];
    if from + 1 < to {
        lemma_members_back(s, from + 1, to);
        if s.contains(a) {
            if s.contains(z) {
                assert(seq![a] + members_between(s, from + 1, to - 1).push(z) =~= (seq![a]
                    + members_between(s, from + 1, to - 1)).push(z));
            }
        }
    } else {
        assert(members_between(s, from + 1, to) == Seq::<Attribute>::empty());
        assert(members_between(s, from, to - 1) == Seq::<Attribute>::empty());
        assert(seq![a] + Seq::<Attribute>::empty() =~= Seq::<Attribute>::empty().push(a));
    }
}

/// The attributes of a set, taken out from either end in the order of
/// [`all_attributes`]
#[derive(Debug)]
pub struct AttributeSetIter {
    set: AttributeSet,
    front: usize,
    back: usize,
}

impl View for AttributeSetIter {
    type V = Seq<Attribute>;

    closed spec fn view(&self) -> Seq<Attribute> {
        members_between(self.set@, self.front as int, self.back as int)
    }
}

impl Clone for AttributeSetIter {
    fn clone(&self) -> (r: Self)
        ensures
            r@ == self@,
    {
        proof {
            use_type_invariant(self);
        }
        AttributeSetIter { set: self.set, front: self.front, back: self.back }
    }
}

impl AttributeSetIter {
    #[verifier::type_invariant]
    spec fn inv(self) -> bool {
        self.front <= self.back <= 6
    }

    /// Takes out the first attribute left, if any
    pub fn next(&mut self) -> (r: Option<Attribute>)
        ensures
            old(self)@.len() == 0 ==> r is None && final(self)@ == old(self)@,
            old(self)@.len() > 0 ==> r == Some(old(self)@[0]) && final(self)@ == old(self)@.drop_first(),
    {
        proof {
            use_type_invariant(&*self);
        }
        let attrs = Attribute::iter();
        let ghost start = self@;
        while self.front < self.back
            invariant
                self.front <= self.back <= 6,
                attrs@ == all_attributes(),
                self@ == start,
                old(self)@ == start,
            decreases self.back - self.front,
        {
            let a = attrs[self.front];
            self.front = self.front + 1;
            if self.set.contains(a) {
                assert(start == seq![a] + self@);
                assert(start.drop_first() =~= self@);
                return Some(a);
            }
        }
        assert(start.len() == 0);
        None
    }

    /// Takes out the last attribute left, if any
    pub fn next_back(&mut self) -> (r: Option<Attribute>)
        ensures
            old(self)@.len() == 0 ==> r is None && final(self)@ == old(self)@,
            old(self)@.len() > 0 ==> r == Some(old(self)@.last()) && final(self)@ == old(self)@.drop_last(),
    {
        proof {
            use_type_invariant(&*self);
        }
        let attrs = Attribute::iter();
        let ghost start = self@;
        while self.front < self.back
            invariant
                self.front <= self.back <= 6,
                attrs@ == all_attributes(),
                self@ == start,
                old(self)@ == start,
            decreases self.back - self.front,
        {
            proof {
                lemma_members_back(self.set@, self.front as int, self.back as int);
            }
            let a = attrs[self.back - 1];
            self.back = self.back - 1;
            if self.set.contains(a) {
                assert(start == self@.push(a));
                assert(start.drop_last() =~= self@);
                return Some(a);
            }
        }
        assert(start.len() == 0);
        None
    }
}

impl From<Attribute> for AttributeSet {
    fn from(value: Attribute) -> (r: AttributeSet)
        ensures
            r@ == Set::<Attribute>::empty().insert(value),
    {
        proof {
            lemma_single_bits();
        }
        let r = AttributeSet(value.bit());
        assert(r@ =~= Set::<Attribute>::empty().insert(value));
        r
    }
}

impl FromSpecImpl<Attribute> for AttributeSet {
    open spec fn obeys_from_spec() -> bool {
        true
    }

    closed spec fn from_spec(v: Attribute) -> AttributeSet {
        AttributeSet(attr_bit(v))
    }
}

impl std::ops::BitOr<Attribute> for Attribute {
    type Output = AttributeSet;

    fn bitor(self, rhs: Attribute) -> (r: AttributeSet)
        ensures
            r@ == Set::<Attribute>::empty().insert(self).insert(rhs),
    {
        proof {
            lemma_single_bits();
            lemma_bit_ops(attr_bit(self), attr_bit(rhs));
        }
        let r = AttributeSet(self.bit() | rhs.bit());
        assert(r@ =~= Set::<Attribute>::empty().insert(self).insert(rhs));
        r
    }
}

impl BitOrSpecImpl<Attribute> for Attribute {
    open spec fn obeys_bitor_spec() -> bool {
        true
    }

    open spec fn bitor_req(self, rhs: Attribute) -> bool {
        true
    }

    closed spec fn bitor_spec(self, rhs: Attribute) -> AttributeSet {
        AttributeSet(attr_bit(self) | attr_bit(rhs))
    }
}

impl std::ops::BitOr<Attribute> for AttributeSet {
    type Output = AttributeSet;

    fn bitor(self, rhs: Attribute) -> (r: AttributeSet)
        ensures
            r@ == self@.insert(rhs),
    {
        proof {
            use_type_invariant(&self);
            lemma_single_bits();
            lemma_bit_ops(self.0, attr_bit(rhs));
        }
        let r = AttributeSet(self.0 | rhs.bit());
        assert(r@ =~= self@.insert(rhs));
        r
    }
}

impl BitOrSpecImpl<Attribute> for AttributeSet {
    open spec fn obeys_bitor_spec() -> bool {
        true
    }

    open spec fn bitor_req(self, rhs: Attribute) -> bool {
        true
    }

    closed spec fn bitor_spec(self, rhs: Attribute) -> AttributeSet {
        AttributeSet(self.0 | attr_bit(rhs))
    }
}

impl std::ops::BitOr<AttributeSet> for AttributeSet {
    type Output = AttributeSet;

    fn bitor(self, rhs: AttributeSet) -> (r: AttributeSet)
        ensures
            r@ == self@.union(rhs@),
    {
        proof {
            use_type_invariant(&self);
            use_type_invariant(&rhs);
            lemma_bit_ops(self.0, rhs.0);
        }
        let r = AttributeSet(self.0 | rhs.0);
        assert(r@ =~= self@.union(rhs@));
        r
    }
}

impl BitOrSpecImpl<AttributeSet> for AttributeSet {
    open spec fn obeys_bitor_spec() -> bool {
        true
    }

    open spec fn bitor_req(self, rhs: AttributeSet) -> bool {
        true
    }

    closed spec fn bitor_spec(self, rhs: AttributeSet) -> AttributeSet {
        AttributeSet(self.0 | rhs.0)
    }
}

impl std::ops::BitAnd<Attribute> for Attribute {
    type Output = AttributeSet;

    fn bitand(self, rhs: Attribute) -> (r: AttributeSet)
        ensures
            r@ == Set::<Attribute>::empty().insert(self).intersect(Set::<Attribute>::empty().insert(rhs)),
    {
        proof {
            lemma_single_bits();
            lemma_bit_ops(attr_bit(self), attr_bit(rhs));
        }
        let r = AttributeSet(self.bit() & rhs.bit());
        assert(r@ =~= Set::<Attribute>::empty().insert(self).intersect(Set::<Attribute>::empty().insert(rhs)));
        r
    }
}

impl BitAndSpecImpl<Attribute> for Attribute {
    open spec fn obeys_bitand_spec() -> bool {
        true
    }

    open spec fn bitand_req(self, rhs: Attribute) -> bool {
        true
    }

    closed spec fn bitand_spec(self, rhs: Attribute) -> AttributeSet {
        AttributeSet(attr_bit(self) & attr_bit(rhs))
    }
}

impl std::ops::BitAnd<AttributeSet> for Attribute {
    type Output = AttributeSet;

    fn bitand(self, rhs: AttributeSet) -> (r: AttributeSet)
        ensures
            r@ == Set::<Attribute>::empty().insert(self).intersect(rhs@),
    {
        proof {
            use_type_invariant(&rhs);
            lemma_single_bits();
            lemma_bit_ops(attr_bit(self), rhs.0);
        }
        let r = AttributeSet(self.bit() & rhs.0);
        assert(r@ =~= Set::<Attribute>::empty().insert(self).intersect(rhs@));
        r
    }
}

impl BitAndSpecImpl<AttributeSet> for Attribute {
    open spec fn obeys_bitand_spec() -> bool {
        true
    }

    open spec fn bitand_req(self, rhs: AttributeSet) -> bool {
        true
    }

    closed spec fn bitand_spec(self, rhs: AttributeSet) -> AttributeSet {
        AttributeSet(attr_bit(self) & rhs.0)
    }
}

impl std::ops::BitAnd<Attribute> for AttributeSet {
    type Output = AttributeSet;

    fn bitand(self, rhs: Attribute) -> (r: AttributeSet)
        ensures
            r@ == self@.intersect(Set::<Attribute>::empty().insert(rhs)),
    {
        proof {
            use_type_invariant(&self);
            lemma_single_bits();
            lemma_bit_ops(self.0, attr_bit(rhs));
        }
        let r = AttributeSet(self.0 & rhs.bit());
        assert(r@ =~= self@.intersect(Set::<Attribute>::empty().insert(rhs)));
        r
    }
}

impl BitAndSpecImpl<Attribute> for AttributeSet {
    open spec fn obeys_bitand_spec() -> bool {
        true
    }

    open spec fn bitand_req(self, rhs: Attribute) -> bool {
        true
    }

    closed spec fn bitand_spec(self, rhs: Attribute) -> AttributeSet {
        AttributeSet(self.0 & attr_bit(rhs))
    }
}

impl std::ops::BitAnd<AttributeSet> for AttributeSet {
    type Output = AttributeSet;

    fn bitand(self, rhs: AttributeSet) -> (r: AttributeSet)
        ensures
            r@ == self@.intersect(rhs@),
    {
        proof {
            use_type_invariant(&self);
            use_type_invariant(&rhs);
            lemma_bit_ops(self.0, rhs.0);
        }
        let r = AttributeSet(self.0 & rhs.0);
        assert(r@ =~= self@.intersect(rhs@));
        r
    }
}

impl BitAndSpecImpl<AttributeSet> for AttributeSet {
    open spec fn obeys_bitand_spec() -> bool {
        true
    }

    open spec fn bitand_req(self, rhs: AttributeSet) -> bool {
        true
    }

    closed spec fn bitand_spec(self, rhs: AttributeSet) -> AttributeSet {
        AttributeSet(self.0 & rhs.0)
    }
}

impl std::ops::BitXor<Attribute> for Attribute {
    type Output = AttributeSet;

    fn bitxor(self, rhs: Attribute) -> (r: AttributeSet)
        ensures
            r@ == Set::<Attribute>::empty().insert(self).difference(Set::<Attribute>::empty().insert(rhs)).union(Set::<Attribute>::empty().insert(rhs).difference(Set::<Attribute>::empty().insert(self))),
    {
        proof {
            lemma_single_bits();
            lemma_bit_ops(attr_bit(self), attr_bit(rhs));
        }
        let r = AttributeSet(self.bit() ^ rhs.bit());
        assert(r@ =~= Set::<Attribute>::empty().insert(self).difference(Set::<Attribute>::empty().insert(rhs)).union(Set::<Attribute>::empty().insert(rhs).difference(Set::<Attribute>::empty().insert(self))));
        r
    }
}

impl BitXorSpecImpl<Attribute> for Attribute {
    open spec fn obeys_bitxor_spec() -> bool {
        true
    }

    open spec fn bitxor_req(self, rhs: Attribute) -> bool {
        true
    }

    closed spec fn bitxor_spec(self, rhs: Attribute) -> AttributeSet {
        AttributeSet(attr_bit(self) ^ attr_bit(rhs))
    }
}

impl std::ops::BitXor<AttributeSet> for Attribute {
    type Output = AttributeSet;

    fn bitxor(self, rhs: AttributeSet) -> (r: AttributeSet)
        ensures
            r@ == Set::<Attribute>::empty().insert(self).difference(rhs@).union(rhs@.difference(Set::<Attribute>::empty().insert(self))),
    {
        proof {
            use_type_invariant(&rhs);
            lemma_single_bits();
            lemma_bit_ops(attr_bit(self), rhs.0);
        }
        let r = AttributeSet(self.bit() ^ rhs.0);
        assert(r@ =~= Set::<Attribute>::empty().insert(self).difference(rhs@).union(rhs@.difference(Set::<Attribute>::empty().insert(self))));
        r
    }
}

impl BitXorSpecImpl<AttributeSet> for Attribute {
    open spec fn obeys_bitxor_spec() -> bool {
        true
    }

    open spec fn bitxor_req(self, rhs: AttributeSet) -> bool {
        true
    }

    closed spec fn bitxor_spec(self, rhs: AttributeSet) -> AttributeSet {
        AttributeSet(attr_bit(self) ^ rhs.0)
    }
}

impl std::ops::BitXor<Attribute> for AttributeSet {
    type Output = AttributeSet;

    fn bitxor(self, rhs: Attribute) -> (r: AttributeSet)
        ensures
            r@ == self@.difference(Set::<Attribute>::empty().insert(rhs)).union(Set::<Attribute>::empty().insert(rhs).difference(self@)),
    {
        proof {
            use_type_invariant(&self);
            lemma_single_bits();
            lemma_bit_ops(self.0, attr_bit(rhs));
        }
        let r = AttributeSet(self.0 ^ rhs.bit());
        assert(r@ =~= self@.difference(Set::<Attribute>::empty().insert(rhs)).union(Set::<Attribute>::empty().insert(rhs).difference(self@)));
        r
    }
}

impl BitXorSpecImpl<Attribute> for AttributeSet {
    open spec fn obeys_bitxor_spec() -> bool {
        true
    }

    open spec fn bitxor_req(self, rhs: Attribute) -> bool {
        true
    }

    closed spec fn bitxor_spec(self, rhs: Attribute) -> AttributeSet {
        AttributeSet(self.0 ^ attr_bit(rhs))
    }
}

impl std::ops::BitXor<AttributeSet> for AttributeSet {
    type Output = AttributeSet;

    fn bitxor(self, rhs: AttributeSet) -> (r: AttributeSet)
        ensures
            r@ == self@.difference(rhs@).union(rhs@.difference(self@)),
    {
        proof {
            use_type_invariant(&self);
            use_type_invariant(&rhs);
            lemma_bit_ops(self.0, rhs.0);
        }
        let r = AttributeSet(self.0 ^ rhs.0);
        assert(r@ =~= self@.difference(rhs@).union(rhs@.difference(self@)));
        r
    }
}

impl BitXorSpecImpl<AttributeSet> for AttributeSet {
    open spec fn obeys_bitxor_spec() -> bool {
        true
    }

    open spec fn bitxor_req(self, rhs: AttributeSet) -> bool {
        true
    }

    closed spec fn bitxor_spec(self, rhs: AttributeSet) -> AttributeSet {
        AttributeSet(self.0 ^ rhs.0)
    }
}

impl std::ops::Sub<Attribute> for Attribute {
    type Output = AttributeSet;

    fn sub(self, rhs: Attribute) -> (r: AttributeSet)
        ensures
            r@ == Set::<Attribute>::empty().insert(self).difference(Set::<Attribute>::empty().insert(rhs)),
    {
        proof {
            lemma_single_bits();
            lemma_bit_ops(attr_bit(self), attr_bit(rhs));
        }
        let r = AttributeSet(self.bit() & !rhs.bit());
        assert(r@ =~= Set::<Attribute>::empty().insert(self).difference(Set::<Attribute>::empty().insert(rhs)));
        r
    }
}

impl SubSpecImpl<Attribute> for Attribute {
    open spec fn obeys_sub_spec() -> bool {
        true
    }

    open spec fn sub_req(self, rhs: Attribute) -> bool {
        true
    }

    closed spec fn sub_spec(self, rhs: Attribute) -> AttributeSet {
        AttributeSet(attr_bit(self) & !attr_bit(rhs))
    }
}

impl std::ops::Sub<AttributeSet> for Attribute {
    type Output = AttributeSet;

    fn sub(self, rhs: AttributeSet) -> (r: AttributeSet)
        ensures
            r@ == Set::<Attribute>::empty().insert(self).difference(rhs@),
    {
        proof {
            use_type_invariant(&rhs);
            lemma_single_bits();
            lemma_bit_ops(attr_bit(self), rhs.0);
        }
        let r = AttributeSet(self.bit() & !rhs.0);
        assert(r@ =~= Set::<Attribute>::empty().insert(self).difference(rhs@));
        r
    }
}

impl SubSpecImpl<AttributeSet> for Attribute {
    open spec fn obeys_sub_spec() -> bool {
        true
    }

    open spec fn sub_req(self, rhs: AttributeSet) -> bool {
        true
    }

    closed spec fn sub_spec(self, rhs: AttributeSet) -> AttributeSet {
        AttributeSet(attr_bit(self) & !rhs.0)
    }
}

impl std::ops::Sub<Attribute> for AttributeSet {
    type Output = AttributeSet;

    fn sub(self, rhs: Attribute) -> (r: AttributeSet)
        ensures
            r@ == self@.difference(Set::<Attribute>::empty().insert(rhs)),
    {
        proof {
            use_type_invariant(&self);
            lemma_single_bits();
            lemma_bit_ops(self.0, attr_bit(rhs));
        }
        let r = AttributeSet(self.0 & !rhs.bit());
        assert(r@ =~= self@.difference(Set::<Attribute>::empty().insert(rhs)));
        r
    }
}

impl SubSpecImpl<Attribute> for AttributeSet {
    open spec fn obeys_sub_spec() -> bool {
        true
    }

    open spec fn sub_req(self, rhs: Attribute) -> bool {
        true
    }

    closed spec fn sub_spec(self, rhs: Attribute) -> AttributeSet {
        AttributeSet(self.0 & !attr_bit(rhs))
    }
}

impl std::ops::Sub<AttributeSet> for AttributeSet {
    type Output = AttributeSet;

    fn sub(self, rhs: AttributeSet) -> (r: AttributeSet)
        ensures
            r@ == self@.difference(rhs@),
    {
        proof {
            use_type_invariant(&self);
            use_type_invariant(&rhs);
            lemma_bit_ops(self.0, rhs.0);
        }
        let r = AttributeSet(self.0 & !rhs.0);
        assert(r@ =~= self@.difference(rhs@));
        r
    }
}

impl SubSpecImpl<AttributeSet> for AttributeSet {
    open spec fn obeys_sub_spec() -> bool {
        true
    }

    open spec fn sub_req(self, rhs: AttributeSet) -> bool {
        true
    }

    closed spec fn sub_spec(self, rhs: AttributeSet) -> AttributeSet {
        AttributeSet(self.0 & !rhs.0)
    }
}

impl std::ops::Not for Attribute {
    type Output = AttributeSet;

    fn not(self) -> (r: AttributeSet)
        ensures
            r@ == full_attr_set().difference(Set::<Attribute>::empty().insert(self)),
    {
        proof {
            lemma_single_bits();
            lemma_bit_ops(63, attr_bit(self));
            lemma_empty_full();
        }
        let r = AttributeSet(63 & !self.bit());
        assert(r@ =~= full_attr_set().difference(Set::<Attribute>::empty().insert(self)));
        r
    }
}

impl NotSpecImpl for Attribute {
    open spec fn obeys_not_spec() -> bool {
        true
    }

    open spec fn not_req(self) -> bool {
        true
    }

    closed spec fn not_spec(self) -> AttributeSet {
        AttributeSet(63 & !attr_bit(self))
    }
}

impl std::ops::Not for AttributeSet {
    type Output = AttributeSet;

    fn not(self) -> (r: AttributeSet)
        ensures
            r@ == full_attr_set().difference(self@),
    {
        proof {
            use_type_invariant(&self);
            lemma_bit_ops(63, self.0);
            lemma_empty_full();
        }
        let r = AttributeSet(63 & !self.0);
        assert(r@ =~= full_attr_set().difference(self@));
        r
    }
}

impl NotSpecImpl for AttributeSet {
    open spec fn obeys_not_spec() -> bool {
        true
    }

    open spec fn not_req(self) -> bool {
        true
    }

    closed spec fn not_spec(self) -> AttributeSet {
        AttributeSet(63 & !self.0)
    }
}


impl<const N: usize> From<[Attribute; N]> for AttributeSet {
    /// The set of the attributes in the array
    fn from(value: [Attribute; N]) -> (r: AttributeSet)
        ensures
            r@ == value@.to_set(),
    {
        let mut r = AttributeSet::new();
        let mut i: usize = 0;
        while i < N
            invariant
                i <= N,
                value@.len() == N,
                r@ == value@.take(i as int).to_set(),
            decreases N - i,
        {
            let a = value[i];
            r.insert(a);
            proof {
                assert(value@.take(i + 1 as int) =~= value@.take(i as int).push(a));
                value@.take(i as int).lemma_push_to_set_commute(a);
            }
            i = i + 1;
        }
        proof {
            assert(value@.take(N as int) =~= value@);
        }
        r
    }
}

impl<const N: usize> FromSpecImpl<[Attribute; N]> for AttributeSet {
    open spec fn obeys_from_spec() -> bool {
        false
    }

    open spec fn from_spec(v: [Attribute; N]) -> AttributeSet {
        arbitrary()
    }
}


impl Default for AttributeSet {
    /// The empty set, as [`AttributeSet::new`] gives
    fn default() -> (r: AttributeSet)
        ensures
            r@ == Set::<Attribute>::empty(),
    {
        AttributeSet::new()
    }
}

} // verus!
