//! Integers tagged with their machine width, and their arithmetic.

use core::cmp::Ordering;
use vstd::prelude::*;

verus! {

/// An integer value tagged with the machine width it was written in.
#[derive(Debug, Copy, Clone)]
pub enum Integer {
    I8(i8),
    I16(i16),
    I32(i32),
    I64(i64),
    Isize(isize),
    U8(u8),
    U16(u16),
    U32(u32),
    U64(u64),
    Usize(usize),
}

/// Quotient rounded toward zero, as machine division computes it.
pub open spec fn truncated_quotient(x: int, d: int) -> int {
    if x >= 0 && d > 0 {
        x / d
    } else if x < 0 && d < 0 {
        (-x) / (-d)
    } else if x < 0 {
        -((-x) / d)
    } else {
        -(x / (-d))
    }
}

impl Integer {
    /// The mathematical integer held, whatever the width.
    pub open spec fn value(self) -> int {
        match self {
            Integer::I8(v) => v as int,
            Integer::I16(v) => v as int,
            Integer::I32(v) => v as int,
            Integer::I64(v) => v as int,
            Integer::Isize(v) => v as int,
            Integer::U8(v) => v as int,
            Integer::U16(v) => v as int,
            Integer::U32(v) => v as int,
            Integer::U64(v) => v as int,
            Integer::Usize(v) => v as int,
        }
    }

    /// Whether both integers carry the same width tag.
    pub open spec fn same_width(self, other: Integer) -> bool {
        match (self, other) {
            (Integer::I8(_), Integer::I8(_)) => true,
            (Integer::I16(_), Integer::I16(_)) => true,
            (Integer::I32(_), Integer::I32(_)) => true,
            (Integer::I64(_), Integer::I64(_)) => true,
            (Integer::Isize(_), Integer::Isize(_)) => true,
            (Integer::U8(_), Integer::U8(_)) => true,
            (Integer::U16(_), Integer::U16(_)) => true,
            (Integer::U32(_), Integer::U32(_)) => true,
            (Integer::U64(_), Integer::U64(_)) => true,
            (Integer::Usize(_), Integer::Usize(_)) => true,
            _ => false,
        }
    }

    /// Whether `v` is representable in the width of `self`.
    pub open spec fn fits(self, v: int) -> bool {
        match self {
            Integer::I8(_) => i8::MIN <= v <= i8::MAX,
            Integer::I16(_) => i16::MIN <= v <= i16::MAX,
            Integer::I32(_) => i32::MIN <= v <= i32::MAX,
            Integer::I64(_) => i64::MIN <= v <= i64::MAX,
            Integer::Isize(_) => isize::MIN <= v <= isize::MAX,
            Integer::U8(_) => 0 <= v <= u8::MAX,
            Integer::U16(_) => 0 <= v <= u16::MAX,
            Integer::U32(_) => 0 <= v <= u32::MAX,
            Integer::U64(_) => 0 <= v <= u64::MAX,
            Integer::Usize(_) => 0 <= v <= usize::MAX,
        }
    }

    /// The integer of the same width as `self` that holds `v`.
    pub open spec fn with_value(self, v: int) -> Integer {
        match self {
            Integer::I8(_) => Integer::I8(v as i8),
            Integer::I16(_) => Integer::I16(v as i16),
            Integer::I32(_) => Integer::I32(v as i32),
            Integer::I64(_) => Integer::I64(v as i64),
            Integer::Isize(_) => Integer::Isize(v as isize),
            Integer::U8(_) => Integer::U8(v as u8),
            Integer::U16(_) => Integer::U16(v as u16),
            Integer::U32(_) => Integer::U32(v as u32),
            Integer::U64(_) => Integer::U64(v as u64),
            Integer::Usize(_) => Integer::Usize(v as usize),
        }
    }

    /// The value coerced to a signed 64-bit word; only the unsigned 64-bit
    /// widths can wrap.
    pub open spec fn as_i64_spec(&self) -> i64 {
        self.value() as i64
    }

    /// The value coerced to an unsigned machine word; negative values wrap.
    pub open spec fn as_usize_spec(&self) -> usize {
        self.value() as usize
    }

    /// The value coerced to a signed 64-bit word.
    #[verifier::when_used_as_spec(as_i64_spec)]
    pub fn as_i64(&self) -> (r: i64)
        ensures
            r == self.as_i64_spec(),
    {
        match self {
            Self::I8(value) => *value as i64,
            Self::I16(value) => *value as i64,
            Self::I32(value) => *value as i64,
            Self::I64(value) => *value,
            Self::Isize(value) => *value as i64,
            Self::U8(value) => *value as i64,
            Self::U16(value) => *value as i64,
            Self::U32(value) => *value as i64,
            Self::U64(value) => #[verifier::truncate] (*value as i64),
            Self::Usize(value) => #[verifier::truncate] (*value as i64),
        }
    }

    /// The value coerced to an unsigned machine word.
    #[verifier::when_used_as_spec(as_usize_spec)]
    pub fn as_usize(&self) -> (r: usize)
        ensures
            r == self.as_usize_spec(),
    {
        match self {
            Self::I8(value) => #[verifier::truncate] (*value as usize),
            Self::I16(value) => #[verifier::truncate] (*value as usize),
            Self::I32(value) => #[verifier::truncate] (*value as usize),
            Self::I64(value) => #[verifier::truncate] (*value as usize),
            Self::Isize(value) => #[verifier::truncate] (*value as usize),
            Self::U8(value) => *value as usize,
            Self::U16(value) => *value as usize,
            Self::U32(value) => #[verifier::truncate] (*value as usize),
            Self::U64(value) => #[verifier::truncate] (*value as usize),
            Self::Usize(value) => *value,
        }
    }

    /// The width in which a binary operation on `self` and `rhs` is carried
    /// out: their own when they agree, signed 64-bit otherwise.
    pub open spec fn joint(self, rhs: Integer) -> Integer {
        if self.same_width(rhs) {
            self
        } else {
            Integer::I64(0)
        }
    }

    /// The left operand as the operation sees it.
    pub open spec fn left(self, rhs: Integer) -> int {
        if self.same_width(rhs) {
            self.value()
        } else {
            self.as_i64_spec() as int
        }
    }

    /// The right operand as the operation sees it.
    pub open spec fn right(self, rhs: Integer) -> int {
        if self.same_width(rhs) {
            rhs.value()
        } else {
            rhs.as_i64_spec() as int
        }
    }

    /// Sum in the joint width, or `None` where the host addition would trap.
    pub open spec fn sum(self, rhs: Integer) -> Option<Integer> {
        let exact = self.left(rhs) + self.right(rhs);
        if self.joint(rhs).fits(exact) {
            Some(self.joint(rhs).with_value(exact))
        } else {
            None
        }
    }

    /// Difference in the joint width, or `None` where the host subtraction
    /// would trap.
    pub open spec fn difference(self, rhs: Integer) -> Option<Integer> {
        let exact = self.left(rhs) - self.right(rhs);
        if self.joint(rhs).fits(exact) {
            Some(self.joint(rhs).with_value(exact))
        } else {
            None
        }
    }

    /// Product in the joint width, or `None` where the host multiplication
    /// would trap.
    pub open spec fn product(self, rhs: Integer) -> Option<Integer> {
        let exact = self.left(rhs) * self.right(rhs);
        if self.joint(rhs).fits(exact) {
            Some(self.joint(rhs).with_value(exact))
        } else {
            None
        }
    }

    /// Quotient rounded toward zero in the joint width, or `None` where the
    /// host division would trap: a zero divisor, or a quotient out of range.
    pub open spec fn quotient(self, rhs: Integer) -> Option<Integer> {
        let exact = truncated_quotient(self.left(rhs), self.right(rhs));
        if self.right(rhs) != 0 && self.joint(rhs).fits(exact) {
            Some(self.joint(rhs).with_value(exact))
        } else {
            None
        }
    }

    /// Bitwise conjunction in the joint width.
    pub open spec fn conjunction(self, rhs: Integer) -> Integer {
        match (self, rhs) {
            (Integer::I8(a), Integer::I8(b)) => Integer::I8(a & b),
            (Integer::I16(a), Integer::I16(b)) => Integer::I16(a & b),
            (Integer::I32(a), Integer::I32(b)) => Integer::I32(a & b),
            (Integer::I64(a), Integer::I64(b)) => Integer::I64(a & b),
            (Integer::Isize(a), Integer::Isize(b)) => Integer::Isize(a & b),
            (Integer::U8(a), Integer::U8(b)) => Integer::U8(a & b),
            (Integer::U16(a), Integer::U16(b)) => Integer::U16(a & b),
            (Integer::U32(a), Integer::U32(b)) => Integer::U32(a & b),
            (Integer::U64(a), Integer::U64(b)) => Integer::U64(a & b),
            (Integer::Usize(a), Integer::Usize(b)) => Integer::Usize(a & b),
            _ => Integer::I64(self.as_i64_spec() & rhs.as_i64_spec()),
        }
    }

    /// Bitwise disjunction in the joint width.
    pub open spec fn disjunction(self, rhs: Integer) -> Integer {
        match (self, rhs) {
            (Integer::I8(a), Integer::I8(b)) => Integer::I8(a | b),
            (Integer::I16(a), Integer::I16(b)) => Integer::I16(a | b),
            (Integer::I32(a), Integer::I32(b)) => Integer::I32(a | b),
            (Integer::I64(a), Integer::I64(b)) => Integer::I64(a | b),
            (Integer::Isize(a), Integer::Isize(b)) => Integer::Isize(a | b),
            (Integer::U8(a), Integer::U8(b)) => Integer::U8(a | b),
            (Integer::U16(a), Integer::U16(b)) => Integer::U16(a | b),
            (Integer::U32(a), Integer::U32(b)) => Integer::U32(a | b),
            (Integer::U64(a), Integer::U64(b)) => Integer::U64(a | b),
            (Integer::Usize(a), Integer::Usize(b)) => Integer::Usize(a | b),
            _ => Integer::I64(self.as_i64_spec() | rhs.as_i64_spec()),
        }
    }

    /// Equality: by value within one width, by the 64-bit coercions across
    /// widths.
    pub open spec fn equals(self, rhs: Integer) -> bool {
        self.left(rhs) == self.right(rhs)
    }

    /// Strict order: by value within one width, by the 64-bit coercions
    /// across widths.
    pub open spec fn precedes(self, rhs: Integer) -> bool {
        self.left(rhs) < self.right(rhs)
    }

    /// Adds in the joint width; `None` where the host addition would trap.
    pub fn checked_add(self, rhs: Integer) -> (r: Option<Integer>)
        ensures
            r == self.sum(rhs),
    {
        match (self, rhs) {
            (Self::I8(a), Self::I8(b)) => match a.checked_add(b) {
                Some(v) => Some(Self::I8(v)),
                None => None,
            },
            (Self::I16(a), Self::I16(b)) => match a.checked_add(b) {
                Some(v) => Some(Self::I16(v)),
                None => None,
            },
            (Self::I32(a), Self::I32(b)) => match a.checked_add(b) {
                Some(v) => Some(Self::I32(v)),
                None => None,
            },
            (Self::I64(a), Self::I64(b)) => match a.checked_add(b) {
                Some(v) => Some(Self::I64(v)),
                None => None,
            },
            (Self::Isize(a), Self::Isize(b)) => match a.checked_add(b) {
                Some(v) => Some(Self::Isize(v)),
                None => None,
            },
            (Self::U8(a), Self::U8(b)) => match a.checked_add(b) {
                Some(v) => Some(Self::U8(v)),
                None => None,
            },
            (Self::U16(a), Self::U16(b)) => match a.checked_add(b) {
                Some(v) => Some(Self::U16(v)),
                None => None,
            },
            (Self::U32(a), Self::U32(b)) => match a.checked_add(b) {
                Some(v) => Some(Self::U32(v)),
                None => None,
            },
            (Self::U64(a), Self::U64(b)) => match a.checked_add(b) {
                Some(v) => Some(Self::U64(v)),
                None => None,
            },
            (Self::Usize(a), Self::Usize(b)) => match a.checked_add(b) {
                Some(v) => Some(Self::Usize(v)),
                None => None,
            },
            _ => match self.as_i64().checked_add(rhs.as_i64()) {
                Some(v) => Some(Self::I64(v)),
                None => None,
            },
        }
    }

    /// Subtracts in the joint width; `None` where the host subtraction would trap.
    pub fn checked_sub(self, rhs: Integer) -> (r: Option<Integer>)
        ensures
            r == self.difference(rhs),
    {
        match (self, rhs) {
            (Self::I8(a), Self::I8(b)) => match a.checked_sub(b) {
                Some(v) => Some(Self::I8(v)),
                None => None,
            },
            (Self::I16(a), Self::I16(b)) => match a.checked_sub(b) {
                Some(v) => Some(Self::I16(v)),
                None => None,
            },
            (Self::I32(a), Self::I32(b)) => match a.checked_sub(b) {
                Some(v) => Some(Self::I32(v)),
                None => None,
            },
            (Self::I64(a), Self::I64(b)) => match a.checked_sub(b) {
                Some(v) => Some(Self::I64(v)),
                None => None,
            },
            (Self::Isize(a), Self::Isize(b)) => match a.checked_sub(b) {
                Some(v) => Some(Self::Isize(v)),
                None => None,
            },
            (Self::U8(a), Self::U8(b)) => match a.checked_sub(b) {
                Some(v) => Some(Self::U8(v)),
                None => None,
            },
            (Self::U16(a), Self::U16(b)) => match a.checked_sub(b) {
                Some(v) => Some(Self::U16(v)),
                None => None,
            },
            (Self::U32(a), Self::U32(b)) => match a.checked_sub(b) {
                Some(v) => Some(Self::U32(v)),
                None => None,
            },
            (Self::U64(a), Self::U64(b)) => match a.checked_sub(b) {
                Some(v) => Some(Self::U64(v)),
                None => None,
            },
            (Self::Usize(a), Self::Usize(b)) => match a.checked_sub(b) {
                Some(v) => Some(Self::Usize(v)),
                None => None,
            },
            _ => match self.as_i64().checked_sub(rhs.as_i64()) {
                Some(v) => Some(Self::I64(v)),
                None => None,
            },
        }
    }

    /// Multiplies in the joint width; `None` where the host multiplication would trap.
    pub fn checked_mul(self, rhs: Integer) -> (r: Option<Integer>)
        ensures
            r == self.product(rhs),
    {
        match (self, rhs) {
            (Self::I8(a), Self::I8(b)) => match a.checked_mul(b) {
                Some(v) => Some(Self::I8(v)),
                None => None,
            },
            (Self::I16(a), Self::I16(b)) => match a.checked_mul(b) {
                Some(v) => Some(Self::I16(v)),
                None => None,
            },
            (Self::I32(a), Self::I32(b)) => match a.checked_mul(b) {
                Some(v) => Some(Self::I32(v)),
                None => None,
            },
            (Self::I64(a), Self::I64(b)) => match a.checked_mul(b) {
                Some(v) => Some(Self::I64(v)),
                None => None,
            },
            (Self::Isize(a), Self::Isize(b)) => match a.checked_mul(b) {
                Some(v) => Some(Self::Isize(v)),
                None => None,
            },
            (Self::U8(a), Self::U8(b)) => match a.checked_mul(b) {
                Some(v) => Some(Self::U8(v)),
                None => None,
            },
            (Self::U16(a), Self::U16(b)) => match a.checked_mul(b) {
                Some(v) => Some(Self::U16(v)),
                None => None,
            },
            (Self::U32(a), Self::U32(b)) => match a.checked_mul(b) {
                Some(v) => Some(Self::U32(v)),
                None => None,
            },
            (Self::U64(a), Self::U64(b)) => match a.checked_mul(b) {
                Some(v) => Some(Self::U64(v)),
                None => None,
            },
            (Self::Usize(a), Self::Usize(b)) => match a.checked_mul(b) {
                Some(v) => Some(Self::Usize(v)),
                None => None,
            },
            _ => match self.as_i64().checked_mul(rhs.as_i64()) {
                Some(v) => Some(Self::I64(v)),
                None => None,
            },
        }
    }

    /// Divides in the joint width; `None` where the host division would trap.
    pub fn checked_div(self, rhs: Integer) -> (r: Option<Integer>)
        ensures
            r == self.quotient(rhs),
    {
        match (self, rhs) {
            (Self::I8(a), Self::I8(b)) => match a.checked_div(b) {
                Some(v) => Some(Self::I8(v)),
                None => None,
            },
            (Self::I16(a), Self::I16(b)) => match a.checked_div(b) {
                Some(v) => Some(Self::I16(v)),
                None => None,
            },
            (Self::I32(a), Self::I32(b)) => match a.checked_div(b) {
                Some(v) => Some(Self::I32(v)),
                None => None,
            },
            (Self::I64(a), Self::I64(b)) => match a.checked_div(b) {
                Some(v) => Some(Self::I64(v)),
                None => None,
            },
            (Self::Isize(a), Self::Isize(b)) => match a.checked_div(b) {
                Some(v) => Some(Self::Isize(v)),
                None => None,
            },
            (Self::U8(a), Self::U8(b)) => match a.checked_div(b) {
                Some(v) => Some(Self::U8(v)),
                None => None,
            },
            (Self::U16(a), Self::U16(b)) => match a.checked_div(b) {
                Some(v) => Some(Self::U16(v)),
                None => None,
            },
            (Self::U32(a), Self::U32(b)) => match a.checked_div(b) {
                Some(v) => Some(Self::U32(v)),
                None => None,
            },
            (Self::U64(a), Self::U64(b)) => match a.checked_div(b) {
                Some(v) => Some(Self::U64(v)),
                None => None,
            },
            (Self::Usize(a), Self::Usize(b)) => match a.checked_div(b) {
                Some(v) => Some(Self::Usize(v)),
                None => None,
            },
            _ => match self.as_i64().checked_div(rhs.as_i64()) {
                Some(v) => Some(Self::I64(v)),
                None => None,
            },
        }
    }

    /// Bitwise conjunction in the joint width.
    pub fn bit_and(self, rhs: Integer) -> (r: Integer)
        ensures
            r == self.conjunction(rhs),
    {
        match (self, rhs) {
            (Self::I8(a), Self::I8(b)) => Self::I8(a & b),
            (Self::I16(a), Self::I16(b)) => Self::I16(a & b),
            (Self::I32(a), Self::I32(b)) => Self::I32(a & b),
            (Self::I64(a), Self::I64(b)) => Self::I64(a & b),
            (Self::Isize(a), Self::Isize(b)) => Self::Isize(a & b),
            (Self::U8(a), Self::U8(b)) => Self::U8(a & b),
            (Self::U16(a), Self::U16(b)) => Self::U16(a & b),
            (Self::U32(a), Self::U32(b)) => Self::U32(a & b),
            (Self::U64(a), Self::U64(b)) => Self::U64(a & b),
            (Self::Usize(a), Self::Usize(b)) => Self::Usize(a & b),
            _ => Self::I64(self.as_i64() & rhs.as_i64()),
        }
    }

    /// Bitwise disjunction in the joint width.
    pub fn bit_or(self, rhs: Integer) -> (r: Integer)
        ensures
            r == self.disjunction(rhs),
    {
        match (self, rhs) {
            (Self::I8(a), Self::I8(b)) => Self::I8(a | b),
            (Self::I16(a), Self::I16(b)) => Self::I16(a | b),
            (Self::I32(a), Self::I32(b)) => Self::I32(a | b),
            (Self::I64(a), Self::I64(b)) => Self::I64(a | b),
            (Self::Isize(a), Self::Isize(b)) => Self::Isize(a | b),
            (Self::U8(a), Self::U8(b)) => Self::U8(a | b),
            (Self::U16(a), Self::U16(b)) => Self::U16(a | b),
            (Self::U32(a), Self::U32(b)) => Self::U32(a | b),
            (Self::U64(a), Self::U64(b)) => Self::U64(a | b),
            (Self::Usize(a), Self::Usize(b)) => Self::Usize(a | b),
            _ => Self::I64(self.as_i64() | rhs.as_i64()),
        }
    }

    /// Whether the divisor, as the division sees it, is zero.
    pub fn divisor_is_zero(self, rhs: Integer) -> (r: bool)
        ensures
            r == (self.right(rhs) == 0),
    {
        match (self, rhs) {
            (Self::I8(_), Self::I8(b)) => b == 0,
            (Self::I16(_), Self::I16(b)) => b == 0,
            (Self::I32(_), Self::I32(b)) => b == 0,
            (Self::I64(_), Self::I64(b)) => b == 0,
            (Self::Isize(_), Self::Isize(b)) => b == 0,
            (Self::U8(_), Self::U8(b)) => b == 0,
            (Self::U16(_), Self::U16(b)) => b == 0,
            (Self::U32(_), Self::U32(b)) => b == 0,
            (Self::U64(_), Self::U64(b)) => b == 0,
            (Self::Usize(_), Self::Usize(b)) => b == 0,
            _ => rhs.as_i64() == 0,
        }
    }

    /// Compares for equality as the interpreter does.
    pub fn is_equal(&self, rhs: &Integer) -> (r: bool)
        ensures
            r == self.equals(*rhs),
    {
        match (self, rhs) {
            (Self::I8(a), Self::I8(b)) => *a == *b,
            (Self::I16(a), Self::I16(b)) => *a == *b,
            (Self::I32(a), Self::I32(b)) => *a == *b,
            (Self::I64(a), Self::I64(b)) => *a == *b,
            (Self::Isize(a), Self::Isize(b)) => *a == *b,
            (Self::U8(a), Self::U8(b)) => *a == *b,
            (Self::U16(a), Self::U16(b)) => *a == *b,
            (Self::U32(a), Self::U32(b)) => *a == *b,
            (Self::U64(a), Self::U64(b)) => *a == *b,
            (Self::Usize(a), Self::Usize(b)) => *a == *b,
            _ => self.as_i64() == rhs.as_i64(),
        }
    }

    /// Compares for strict order as the interpreter does.
    pub fn is_less(&self, rhs: &Integer) -> (r: bool)
        ensures
            r == self.precedes(*rhs),
    {
        match (self, rhs) {
            (Self::I8(a), Self::I8(b)) => *a < *b,
            (Self::I16(a), Self::I16(b)) => *a < *b,
            (Self::I32(a), Self::I32(b)) => *a < *b,
            (Self::I64(a), Self::I64(b)) => *a < *b,
            (Self::Isize(a), Self::Isize(b)) => *a < *b,
            (Self::U8(a), Self::U8(b)) => *a < *b,
            (Self::U16(a), Self::U16(b)) => *a < *b,
            (Self::U32(a), Self::U32(b)) => *a < *b,
            (Self::U64(a), Self::U64(b)) => *a < *b,
            (Self::Usize(a), Self::Usize(b)) => *a < *b,
            _ => self.as_i64() < rhs.as_i64(),
        }
    }

}

impl core::ops::Add for Integer {
    type Output = Integer;

    fn add(self, rhs: Integer) -> (r: Integer) {
        match self.checked_add(rhs) {
            Some(v) => v,
            None => self,
        }
    }
}

impl vstd::std_specs::ops::AddSpecImpl for Integer {
    open spec fn obeys_add_spec() -> bool {
        true
    }

    open spec fn add_req(self, rhs: Integer) -> bool {
        self.sum(rhs) is Some
    }

    open spec fn add_spec(self, rhs: Integer) -> Integer {
        self.sum(rhs)->0
    }
}

impl core::ops::Sub for Integer {
    type Output = Integer;

    fn sub(self, rhs: Integer) -> (r: Integer) {
        match self.checked_sub(rhs) {
            Some(v) => v,
            None => self,
        }
    }
}

impl vstd::std_specs::ops::SubSpecImpl for Integer {
    open spec fn obeys_sub_spec() -> bool {
        true
    }

    open spec fn sub_req(self, rhs: Integer) -> bool {
        self.difference(rhs) is Some
    }

    open spec fn sub_spec(self, rhs: Integer) -> Integer {
        self.difference(rhs)->0
    }
}

impl core::ops::Mul for Integer {
    type Output = Integer;

    fn mul(self, rhs: Integer) -> (r: Integer) {
        match self.checked_mul(rhs) {
            Some(v) => v,
            None => self,
        }
    }
}

impl vstd::std_specs::ops::MulSpecImpl for Integer {
    open spec fn obeys_mul_spec() -> bool {
        true
    }

    open spec fn mul_req(self, rhs: Integer) -> bool {
        self.product(rhs) is Some
    }

    open spec fn mul_spec(self, rhs: Integer) -> Integer {
        self.product(rhs)->0
    }
}

impl core::ops::Div for Integer {
    type Output = Integer;

    fn div(self, rhs: Integer) -> (r: Integer) {
        match self.checked_div(rhs) {
            Some(v) => v,
            None => self,
        }
    }
}

impl vstd::std_specs::ops::DivSpecImpl for Integer {
    open spec fn obeys_div_spec() -> bool {
        true
    }

    open spec fn div_req(self, rhs: Integer) -> bool {
        self.quotient(rhs) is Some
    }

    open spec fn div_spec(self, rhs: Integer) -> Integer {
        self.quotient(rhs)->0
    }
}

impl core::ops::BitAnd for Integer {
    type Output = Integer;

    fn bitand(self, rhs: Integer) -> (r: Integer) {
        self.bit_and(rhs)
    }
}

impl vstd::std_specs::ops::BitAndSpecImpl for Integer {
    open spec fn obeys_bitand_spec() -> bool {
        true
    }

    open spec fn bitand_req(self, rhs: Integer) -> bool {
        true
    }

    open spec fn bitand_spec(self, rhs: Integer) -> Integer {
        self.conjunction(rhs)
    }
}

impl core::ops::BitOr for Integer {
    type Output = Integer;

    fn bitor(self, rhs: Integer) -> (r: Integer) {
        self.bit_or(rhs)
    }
}

impl vstd::std_specs::ops::BitOrSpecImpl for Integer {
    open spec fn obeys_bitor_spec() -> bool {
        true
    }

    open spec fn bitor_req(self, rhs: Integer) -> bool {
        true
    }

    open spec fn bitor_spec(self, rhs: Integer) -> Integer {
        self.disjunction(rhs)
    }
}

impl PartialEq for Integer {
    fn eq(&self, other: &Integer) -> (r: bool) {
        self.is_equal(other)
    }
}

impl vstd::std_specs::cmp::PartialEqSpecImpl for Integer {
    open spec fn obeys_eq_spec() -> bool {
        true
    }

    open spec fn eq_spec(&self, other: &Integer) -> bool {
        self.equals(*other)
    }
}

impl PartialOrd for Integer {
    fn partial_cmp(&self, other: &Integer) -> (r: Option<Ordering>) {
        if self.is_less(other) {
            Some(Ordering::Less)
        } else if self.is_equal(other) {
            Some(Ordering::Equal)
        } else {
            Some(Ordering::Greater)
        }
    }
}

impl vstd::std_specs::cmp::PartialOrdSpecImpl for Integer {
    open spec fn obeys_partial_cmp_spec() -> bool {
        true
    }

    open spec fn partial_cmp_spec(&self, other: &Integer) -> Option<Ordering> {
        if self.precedes(*other) {
            Some(Ordering::Less)
        } else if self.equals(*other) {
            Some(Ordering::Equal)
        } else {
            Some(Ordering::Greater)
        }
    }
}

impl From<i32> for Integer {
    fn from(value: i32) -> (r: Integer) {
        Integer::I32(value)
    }
}

impl vstd::std_specs::convert::FromSpecImpl<i32> for Integer {
    open spec fn obeys_from_spec() -> bool {
        true
    }

    open spec fn from_spec(value: i32) -> Integer {
        Integer::I32(value)
    }
}

impl From<i64> for Integer {
    fn from(value: i64) -> (r: Integer) {
        Integer::I64(value)
    }
}

impl vstd::std_specs::convert::FromSpecImpl<i64> for Integer {
    open spec fn obeys_from_spec() -> bool {
        true
    }

    open spec fn from_spec(value: i64) -> Integer {
        Integer::I64(value)
    }
}

impl From<usize> for Integer {
    fn from(value: usize) -> (r: Integer) {
        Integer::Usize(value)
    }
}

impl vstd::std_specs::convert::FromSpecImpl<usize> for Integer {
    open spec fn obeys_from_spec() -> bool {
        true
    }

    open spec fn from_spec(value: usize) -> Integer {
        Integer::Usize(value)
    }
}

} // verus!
