//! Integers that keep the width they were stored with in a map file.
use vstd::prelude::*;

verus! {

/// An integer attribute of a map element, keeping the width it was encoded with.
#[derive(Clone, Copy, Debug, PartialEq, Eq, Structural)]
pub enum Integer {
    U8(u8),
    I16(i16),
    I32(i32),
}

/// Rust's integer division, which rounds toward zero (`/` on `int` is Euclidean).
pub open spec fn trunc_div(a: int, b: int) -> int {
    if a >= 0 {
        a / b
    } else {
        -((-a) / b)
    }
}

impl Integer {
    /// The number held.
    pub open spec fn value(self) -> int {
        match self {
            Integer::U8(b) => b as int,
            Integer::I16(s) => s as int,
            Integer::I32(i) => i as int,
        }
    }

    /// The width: 0 for a byte, 1 for a short, 2 for an int.
    pub open spec fn width(self) -> nat {
        match self {
            Integer::U8(_) => 0,
            Integer::I16(_) => 1,
            Integer::I32(_) => 2,
        }
    }

    /// The wider of two widths.
    pub open spec fn join(a: Self, b: Self) -> nat {
        if a.width() >= b.width() {
            a.width()
        } else {
            b.width()
        }
    }

    /// Whether `v` can be held at width `w`.
    pub open spec fn fits(w: nat, v: int) -> bool {
        if w == 0 {
            0 <= v <= u8::MAX
        } else if w == 1 {
            i16::MIN <= v <= i16::MAX
        } else {
            i32::MIN <= v <= i32::MAX
        }
    }

    /// Whether `r` is the integer of width `w` holding `v`.
    pub open spec fn is(r: Self, w: nat, v: int) -> bool {
        r.width() == w && r.value() == v
    }

    pub fn add(self, rhs: Self) -> (r: Self)
        requires
            Self::fits(Self::join(self, rhs), self.value() + rhs.value()),
        ensures
            Self::is(r, Self::join(self, rhs), self.value() + rhs.value()),
    {
        match (self, rhs) {
            (Integer::U8(b1), Integer::U8(b2)) => Integer::U8(b1 + b2),
            (Integer::U8(b1), Integer::I16(s2)) => Integer::I16(b1 as i16 + s2),
            (Integer::U8(b1), Integer::I32(i2)) => Integer::I32(b1 as i32 + i2),
            (Integer::I16(s1), Integer::U8(b2)) => Integer::I16(s1 + b2 as i16),
            (Integer::I16(s1), Integer::I16(s2)) => Integer::I16(s1 + s2),
            (Integer::I16(s1), Integer::I32(i2)) => Integer::I32(s1 as i32 + i2),
            (Integer::I32(i1), Integer::U8(b2)) => Integer::I32(i1 + b2 as i32),
            (Integer::I32(i1), Integer::I16(s2)) => Integer::I32(i1 + s2 as i32),
            (Integer::I32(i1), Integer::I32(i2)) => Integer::I32(i1 + i2),
        }
    }

    pub fn sub(self, rhs: Self) -> (r: Self)
        requires
            Self::fits(Self::join(self, rhs), self.value() - rhs.value()),
        ensures
            Self::is(r, Self::join(self, rhs), self.value() - rhs.value()),
    {
        match (self, rhs) {
            (Integer::U8(b1), Integer::U8(b2)) => Integer::U8(b1 - b2),
            (Integer::U8(b1), Integer::I16(s2)) => Integer::I16(b1 as i16 - s2),
            (Integer::U8(b1), Integer::I32(i2)) => Integer::I32(b1 as i32 - i2),
            (Integer::I16(s1), Integer::U8(b2)) => Integer::I16(s1 - b2 as i16),
            (Integer::I16(s1), Integer::I16(s2)) => Integer::I16(s1 - s2),
            (Integer::I16(s1), Integer::I32(i2)) => Integer::I32(s1 as i32 - i2),
            (Integer::I32(i1), Integer::U8(b2)) => Integer::I32(i1 - b2 as i32),
            (Integer::I32(i1), Integer::I16(s2)) => Integer::I32(i1 - s2 as i32),
            (Integer::I32(i1), Integer::I32(i2)) => Integer::I32(i1 - i2),
        }
    }

    pub fn mul(self, rhs: Self) -> (r: Self)
        requires
            Self::fits(Self::join(self, rhs), self.value() * rhs.value()),
        ensures
            Self::is(r, Self::join(self, rhs), self.value() * rhs.value()),
    {
        match (self, rhs) {
            (Integer::U8(b1), Integer::U8(b2)) => Integer::U8(b1 * b2),
            (Integer::U8(b1), Integer::I16(s2)) => Integer::I16(b1 as i16 * s2),
            (Integer::U8(b1), Integer::I32(i2)) => Integer::I32(b1 as i32 * i2),
            (Integer::I16(s1), Integer::U8(b2)) => Integer::I16(s1 * b2 as i16),
            (Integer::I16(s1), Integer::I16(s2)) => Integer::I16(s1 * s2),
            (Integer::I16(s1), Integer::I32(i2)) => Integer::I32(s1 as i32 * i2),
            (Integer::I32(i1), Integer::U8(b2)) => Integer::I32(i1 * b2 as i32),
            (Integer::I32(i1), Integer::I16(s2)) => Integer::I32(i1 * s2 as i32),
            (Integer::I32(i1), Integer::I32(i2)) => Integer::I32(i1 * i2),
        }
    }

    pub fn div(self, rhs: Self) -> (r: Self)
        requires
            rhs.value() != 0,
            Self::fits(Self::join(self, rhs), trunc_div(self.value(), rhs.value())),
        ensures
            Self::is(r, Self::join(self, rhs), trunc_div(self.value(), rhs.value())),
    {
        proof {
            let a = self.value();
            assert(rhs.value() == -1 ==> trunc_div(a, rhs.value()) == -a) by (nonlinear_arith)
                requires
                    trunc_div(a, rhs.value()) == (if a >= 0 {
                        a / rhs.value()
                    } else {
                        -((-a) / rhs.value())
                    }),
            ;
        }
        match (self, rhs) {
            (Integer::U8(b1), Integer::U8(b2)) => Integer::U8(b1 / b2),
            (Integer::U8(b1), Integer::I16(s2)) => Integer::I16(b1 as i16 / s2),
            (Integer::U8(b1), Integer::I32(i2)) => Integer::I32(b1 as i32 / i2),
            (Integer::I16(s1), Integer::U8(b2)) => Integer::I16(s1 / b2 as i16),
            (Integer::I16(s1), Integer::I16(s2)) => Integer::I16(s1 / s2),
            (Integer::I16(s1), Integer::I32(i2)) => Integer::I32(s1 as i32 / i2),
            (Integer::I32(i1), Integer::U8(b2)) => Integer::I32(i1 / b2 as i32),
            (Integer::I32(i1), Integer::I16(s2)) => Integer::I32(i1 / s2 as i32),
            (Integer::I32(i1), Integer::I32(i2)) => Integer::I32(i1 / i2),
        }
    }
}

/// A number of a map attribute that may be fractional.
///
/// An `F32` holds the bit pattern of its `f32`.
#[derive(Clone, Copy, Debug, PartialEq, Eq, Structural)]
pub enum Float {
    U8(u8),
    I16(i16),
    I32(i32),
    F32(u32),
}

} // verus!
