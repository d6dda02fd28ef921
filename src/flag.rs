use vstd::prelude::*;

verus! {

/// The set of semantic slots already resolved for one element: two 32-bit
/// words, bit `i` of the first word for slot `i < 32`, bit `i - 32` of the
/// second word otherwise.
#[derive(Debug, PartialEq, Eq, Structural, Clone, Copy)]
pub struct Field(pub u32, pub u32);

/// One semantic slot, as a mask over one of the two words of a `Field`.
#[derive(Debug, PartialEq, Eq, Structural, Clone, Copy)]
pub enum Flag {
    Flag(u32),
    Second(u32),
}

impl Field {
    /// Whether every bit of `flag` is set.
    pub open spec fn has(self, flag: Flag) -> bool {
        match flag {
            Flag::Flag(m) => m & self.0 == m,
            Flag::Second(m) => m & self.1 == m,
        }
    }

    /// The field with the bits of `flag` set in addition.
    pub open spec fn with(self, flag: Flag) -> Field {
        match flag {
            Flag::Flag(m) => Field(self.0 | m, self.1),
            Flag::Second(m) => Field(self.0, self.1 | m),
        }
    }

    pub fn none() -> (r: Self)
        ensures
            r == Field(0, 0),
            forall|f: Flag| f.wf() ==> !(#[trigger] r.has(f)),
    {
        proof {
            assert forall|f: Flag| f.wf() implies !(#[trigger] Field(0, 0).has(f)) by {
                let i = f.index();
                if i < 32 {
                    lemma_single_bit_nonzero(i as u32);
                } else {
                    lemma_single_bit_nonzero((i - 32) as u32);
                }
                match f {
                    Flag::Flag(m) => assert(m & 0 == 0) by (bit_vector),
                    Flag::Second(m) => assert(m & 0 == 0) by (bit_vector),
                }
            }
        }
        Field(0, 0)
    }

    pub fn merge(&mut self, field: Self)
        ensures
            *final(self) == Field(old(self).0 | field.0, old(self).1 | field.1),
    {
        self.0 = self.0 | field.0;
        self.1 = self.1 | field.1;
    }

    pub fn add(&mut self, flag: &Flag)
        ensures
            *final(self) == old(self).with(*flag),
            final(self).has(*flag),
            forall|g: Flag| old(self).has(g) ==> #[trigger] final(self).has(g),
    {
        proof {
            lemma_with_has(*old(self), *flag);
        }
        match flag {
            Flag::Flag(first) => self.0 = self.0 | *first,
            Flag::Second(second) => self.1 = self.1 | *second,
        }
    }

    pub fn present(&self, flag: &Flag) -> (r: bool)
        ensures
            r == self.has(*flag),
    {
        match flag {
            Flag::Flag(first) => (*first & self.0) == *first,
            Flag::Second(second) => (*second & self.1) == *second,
        }
    }
}

/// Adding a flag sets it, and keeps every flag that was set.
pub proof fn lemma_with_has(f: Field, flag: Flag)
    ensures
        f.with(flag).has(flag),
        forall|g: Flag| f.has(g) ==> #[trigger] f.with(flag).has(g),
{
    let a = f.0;
    let b = f.1;
    match flag {
        Flag::Flag(m) => {
            assert(m & (a | m) == m) by (bit_vector);
            assert forall|g: Flag| f.has(g) implies #[trigger] f.with(flag).has(g) by {
                match g {
                    Flag::Flag(n) => assert(n & a == n ==> n & (a | m) == n) by (bit_vector),
                    Flag::Second(n) => {},
                }
            }
        },
        Flag::Second(m) => {
            assert(m & (b | m) == m) by (bit_vector);
            assert forall|g: Flag| f.has(g) implies #[trigger] f.with(flag).has(g) by {
                match g {
                    Flag::Flag(n) => {},
                    Flag::Second(n) => assert(n & b == n ==> n & (b | m) == n) by (bit_vector),
                }
            }
        },
    }
}

/// Two distinct single-bit flags do not see each other.
pub proof fn lemma_with_other(f: Field, flag: Flag, g: Flag)
    requires
        flag.wf(),
        g.wf(),
        flag != g,
    ensures
        f.with(flag).has(g) == f.has(g),
{
    let a = f.0;
    let b = f.1;
    let i = flag.index();
    let j = g.index();
    if i < 32 && j < 32 {
        let (x, y) = (i as u32, j as u32);
        assert(x != y ==> ((1u32 << y) & (a | (1u32 << x)) == (1u32 << y) <==> (1u32 << y) & a
            == (1u32 << y))) by (bit_vector)
            requires
                x < 32,
                y < 32,
        ;
    } else if i >= 32 && j >= 32 {
        let (x, y) = ((i - 32) as u32, (j - 32) as u32);
        assert(x != y ==> ((1u32 << y) & (b | (1u32 << x)) == (1u32 << y) <==> (1u32 << y) & b
            == (1u32 << y))) by (bit_vector)
            requires
                x < 32,
                y < 32,
        ;
    }
}

proof fn lemma_single_bit_nonzero(x: u32)
    requires
        x < 32,
    ensures
        (1u32 << x) != 0,
        (1u32 << x) & 0 != (1u32 << x),
{
    assert((1u32 << x) != 0 && (1u32 << x) & 0 != (1u32 << x)) by (bit_vector)
        requires
            x < 32,
    ;
}

impl Flag {
    /// The flag of slot `i`.
    pub open spec fn spec_from(i: nat) -> Flag {
        if i > 31 {
            Flag::Second(1u32 << ((i - 32) as u32))
        } else {
            Flag::Flag(1u32 << (i as u32))
        }
    }

    /// A flag is well formed when it is the flag of one slot below 64.
    pub open spec fn wf(self) -> bool {
        exists|i: nat| i < 64 && Flag::spec_from(i) == self
    }

    pub open spec fn index(self) -> nat
        recommends
            self.wf(),
    {
        choose|i: nat| i < 64 && Flag::spec_from(i) == self
    }

    /// The slot of a well-formed flag.
    pub fn value(&self) -> (r: u32)
        requires
            self.wf(),
        ensures
            r < 64,
            Flag::spec_from(r as nat) == *self,
    {
        let (mask, base): (u32, u32) = match self {
            Flag::Flag(m) => (*m, 0),
            Flag::Second(m) => (*m, 32),
        };
        let ghost k = self.index();
        let ghost bit: u32 = if k > 31 { (k - 32) as u32 } else { k as u32 };
        assert(mask == 1u32 << bit);
        let mut i: u32 = 0;
        while i < 32
            invariant
                i <= 32,
                bit < 32,
                mask == 1u32 << bit,
                forall|j: u32| j < i ==> mask != (1u32 << j),
                base == 0 ==> k < 32 && bit == k,
                base == 32 ==> k >= 32 && bit == k - 32,
                base == 0 || base == 32,
                k < 64,
                Flag::spec_from(k) == *self,
                base == 0 ==> *self == Flag::Flag(mask),
                base == 32 ==> *self == Flag::Second(mask),
            decreases 32 - i,
        {
            if mask == (1u32 << i) {
                proof {
                    assert(i == bit) by {
                        lemma_shift_injective(i, bit);
                    }
                }
                return base + i;
            }
            i = i + 1;
        }
        proof {
            assert(mask != (1u32 << bit));
        }
        0
    }

    pub fn from(i: u32) -> (r: Self)
        requires
            i < 64,
        ensures
            r == Flag::spec_from(i as nat),
    {
        if i > 31 {
            Self::Second(1 << (i - 32))
        } else {
            Self::Flag(1 << i)
        }
    }

    pub fn transparency() -> (r: Flag)
        ensures
            r == Flag::spec_from(1),
    {
        Flag::from(1)
    }

    pub fn padding() -> (r: Flag)
        ensures
            r == Flag::spec_from(2),
    {
        Flag::from(2)
    }

    pub fn spacing() -> (r: Flag)
        ensures
            r == Flag::spec_from(3),
    {
        Flag::from(3)
    }

    pub fn font_size() -> (r: Flag)
        ensures
            r == Flag::spec_from(4),
    {
        Flag::from(4)
    }

    pub fn font_family() -> (r: Flag)
        ensures
            r == Flag::spec_from(5),
    {
        Flag::from(5)
    }

    pub fn width() -> (r: Flag)
        ensures
            r == Flag::spec_from(6),
    {
        Flag::from(6)
    }

    pub fn height() -> (r: Flag)
        ensures
            r == Flag::spec_from(7),
    {
        Flag::from(7)
    }

    pub fn bg_color() -> (r: Flag)
        ensures
            r == Flag::spec_from(8),
    {
        Flag::from(8)
    }

    pub fn bg_image() -> (r: Flag)
        ensures
            r == Flag::spec_from(9),
    {
        Flag::from(9)
    }

    pub fn bg_gradient() -> (r: Flag)
        ensures
            r == Flag::spec_from(10),
    {
        Flag::from(10)
    }

    pub fn border_style() -> (r: Flag)
        ensures
            r == Flag::spec_from(11),
    {
        Flag::from(11)
    }

    pub fn font_alignment() -> (r: Flag)
        ensures
            r == Flag::spec_from(12),
    {
        Flag::from(12)
    }

    pub fn font_weight() -> (r: Flag)
        ensures
            r == Flag::spec_from(13),
    {
        Flag::from(13)
    }

    pub fn font_color() -> (r: Flag)
        ensures
            r == Flag::spec_from(14),
    {
        Flag::from(14)
    }

    pub fn font_spacing() -> (r: Flag)
        ensures
            r == Flag::spec_from(15),
    {
        Flag::from(15)
    }

    pub fn letter_spacing() -> (r: Flag)
        ensures
            r == Flag::spec_from(16),
    {
        Flag::from(16)
    }

    pub fn border_rount() -> (r: Flag)
        ensures
            r == Flag::spec_from(17),
    {
        Flag::from(17)
    }

    pub fn text_shadows() -> (r: Flag)
        ensures
            r == Flag::spec_from(18),
    {
        Flag::from(18)
    }

    pub fn shadows() -> (r: Flag)
        ensures
            r == Flag::spec_from(19),
    {
        Flag::from(19)
    }

    pub fn overflow() -> (r: Flag)
        ensures
            r == Flag::spec_from(20),
    {
        Flag::from(20)
    }

    pub fn cursor() -> (r: Flag)
        ensures
            r == Flag::spec_from(21),
    {
        Flag::from(21)
    }

    pub fn scale() -> (r: Flag)
        ensures
            r == Flag::spec_from(23),
    {
        Flag::from(23)
    }

    pub fn rotate() -> (r: Flag)
        ensures
            r == Flag::spec_from(24),
    {
        Flag::from(24)
    }

    pub fn move_x() -> (r: Flag)
        ensures
            r == Flag::spec_from(25),
    {
        Flag::from(25)
    }

    pub fn move_y() -> (r: Flag)
        ensures
            r == Flag::spec_from(26),
    {
        Flag::from(26)
    }

    pub fn border_width() -> (r: Flag)
        ensures
            r == Flag::spec_from(27),
    {
        Flag::from(27)
    }

    pub fn border_color() -> (r: Flag)
        ensures
            r == Flag::spec_from(28),
    {
        Flag::from(28)
    }

    pub fn align_y() -> (r: Flag)
        ensures
            r == Flag::spec_from(29),
    {
        Flag::from(29)
    }

    pub fn align_x() -> (r: Flag)
        ensures
            r == Flag::spec_from(30),
    {
        Flag::from(30)
    }

    pub fn focus() -> (r: Flag)
        ensures
            r == Flag::spec_from(31),
    {
        Flag::from(31)
    }

    pub fn active() -> (r: Flag)
        ensures
            r == Flag::spec_from(32),
    {
        Flag::from(32)
    }

    pub fn hover() -> (r: Flag)
        ensures
            r == Flag::spec_from(33),
    {
        Flag::from(33)
    }

    pub fn grid_template() -> (r: Flag)
        ensures
            r == Flag::spec_from(34),
    {
        Flag::from(34)
    }

    pub fn grid_position() -> (r: Flag)
        ensures
            r == Flag::spec_from(35),
    {
        Flag::from(35)
    }

    pub fn height_content() -> (r: Flag)
        ensures
            r == Flag::spec_from(36),
    {
        Flag::from(36)
    }

    pub fn height_fill() -> (r: Flag)
        ensures
            r == Flag::spec_from(37),
    {
        Flag::from(37)
    }

    pub fn width_content() -> (r: Flag)
        ensures
            r == Flag::spec_from(38),
    {
        Flag::from(38)
    }

    pub fn width_fill() -> (r: Flag)
        ensures
            r == Flag::spec_from(39),
    {
        Flag::from(39)
    }

    pub fn align_right() -> (r: Flag)
        ensures
            r == Flag::spec_from(40),
    {
        Flag::from(40)
    }

    pub fn align_bottom() -> (r: Flag)
        ensures
            r == Flag::spec_from(41),
    {
        Flag::from(41)
    }

    pub fn center_x() -> (r: Flag)
        ensures
            r == Flag::spec_from(42),
    {
        Flag::from(42)
    }

    pub fn center_y() -> (r: Flag)
        ensures
            r == Flag::spec_from(43),
    {
        Flag::from(43)
    }

    pub fn width_between() -> (r: Flag)
        ensures
            r == Flag::spec_from(44),
    {
        Flag::from(44)
    }

    pub fn height_between() -> (r: Flag)
        ensures
            r == Flag::spec_from(45),
    {
        Flag::from(45)
    }

    pub fn behind() -> (r: Flag)
        ensures
            r == Flag::spec_from(46),
    {
        Flag::from(46)
    }

    pub fn height_text_area_content() -> (r: Flag)
        ensures
            r == Flag::spec_from(47),
    {
        Flag::from(47)
    }

    pub fn font_variant() -> (r: Flag)
        ensures
            r == Flag::spec_from(48),
    {
        Flag::from(48)
    }
}

proof fn lemma_shift_injective(x: u32, y: u32)
    requires
        x < 32,
        y < 32,
        (1u32 << x) == (1u32 << y),
    ensures
        x == y,
{
    assert((1u32 << x) == (1u32 << y) ==> x == y) by (bit_vector)
        requires
            x < 32,
            y < 32,
    ;
}

} // verus!
