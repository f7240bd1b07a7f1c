//! The values that devices take.

use vstd::prelude::*;

verus! {

/// A double-precision number, held by its IEEE 754 bit pattern.
#[derive(Clone, Copy, Debug, PartialEq, Eq, Structural)]
pub struct Flt {
    pub bits: u64,
}

/// The bit patterns from here on have the sign bit set.
pub const SIGN_BIT: u64 = 0x8000_0000_0000_0000;

/// The magnitude bits of infinity. Anything above is not a number.
pub const INFINITY_BITS: u64 = 0x7ff0_0000_0000_0000;

/// The bit pattern of 100.0.
pub const HUNDRED_BITS: u64 = 0x4059_0000_0000_0000;

impl Flt {
    /// The bits that are left when the sign is taken off.
    pub open spec fn magnitude(self) -> int {
        if self.bits >= SIGN_BIT {
            self.bits - SIGN_BIT
        } else {
            self.bits as int
        }
    }

    pub open spec fn is_nan(self) -> bool {
        self.magnitude() > INFINITY_BITS
    }

    /// The place of a number on the number line. Two patterns that are not NaN
    /// denote ordered numbers exactly if their places are so ordered; both
    /// zeros have the same place.
    pub open spec fn place(self) -> int {
        if self.bits >= SIGN_BIT {
            -self.magnitude()
        } else {
            self.magnitude()
        }
    }

    /// Equality of numbers: NaN equals nothing, and the zeros are equal.
    pub open spec fn eq_num(self, other: Flt) -> bool {
        !self.is_nan() && !other.is_nan() && self.place() == other.place()
    }

    /// Order of numbers: NaN is below nothing and above nothing.
    pub open spec fn lt_num(self, other: Flt) -> bool {
        !self.is_nan() && !other.is_nan() && self.place() < other.place()
    }

    /// The number 0.0.
    pub fn zero() -> (r: Flt)
        ensures
            r == (Flt { bits: 0 }),
    {
        Flt { bits: 0 }
    }

    /// The number 100.0.
    pub fn hundred() -> (r: Flt)
        ensures
            r == (Flt { bits: HUNDRED_BITS }),
    {
        Flt { bits: HUNDRED_BITS }
    }

    fn magnitude_bits(&self) -> (m: u64)
        ensures
            m == self.magnitude(),
    {
        if self.bits >= SIGN_BIT {
            self.bits - SIGN_BIT
        } else {
            self.bits
        }
    }

    /// Whether the two numbers are equal.
    pub fn equals(&self, other: &Flt) -> (r: bool)
        ensures
            r == self.eq_num(*other),
    {
        let a: u64 = self.magnitude_bits();
        let b: u64 = other.magnitude_bits();
        if a > INFINITY_BITS || b > INFINITY_BITS {
            false
        } else if (self.bits >= SIGN_BIT) == (other.bits >= SIGN_BIT) {
            a == b
        } else {
            a == 0 && b == 0
        }
    }

    /// Whether this number is below `other`.
    pub fn less_than(&self, other: &Flt) -> (r: bool)
        ensures
            r == self.lt_num(*other),
    {
        let a: u64 = self.magnitude_bits();
        let b: u64 = other.magnitude_bits();
        if a > INFINITY_BITS || b > INFINITY_BITS {
            false
        } else if self.bits >= SIGN_BIT {
            if other.bits >= SIGN_BIT {
                b < a
            } else {
                a > 0 || b > 0
            }
        } else if other.bits >= SIGN_BIT {
            false
        } else {
            a < b
        }
    }

    /// What `clamp_percent` gives: the number itself unless it lies outside
    /// 0.0 to 100.0, then the nearer end. NaN lies nowhere and is kept.
    pub open spec fn clamped(self) -> Flt {
        let zero = Flt { bits: 0 };
        let hundred = Flt { bits: HUNDRED_BITS };
        if self.lt_num(zero) {
            zero
        } else if hundred.lt_num(self) {
            hundred
        } else {
            self
        }
    }

    /// Restricts the number to the range of percentages.
    pub fn clamp_percent(&self) -> (r: Flt)
        ensures
            r == self.clamped(),
    {
        let zero = Flt::zero();
        let hundred = Flt::hundred();
        if self.less_than(&zero) {
            zero
        } else if hundred.less_than(self) {
            hundred
        } else {
            *self
        }
    }
}

/// A color with a brightness.
#[derive(Clone, Copy, Debug, PartialEq, Eq, Structural)]
pub struct Rgba {
    pub red: u8,
    pub green: u8,
    pub blue: u8,
    pub alpha: u8,
}

/// A color without a brightness.
#[derive(Clone, Copy, Debug, PartialEq, Eq, Structural)]
pub struct Rgb {
    pub red: u8,
    pub green: u8,
    pub blue: u8,
}

/// The color of a light. In both forms the last component conveys the
/// brightness: 0 is off and 255 is full brightness.
#[derive(Clone, Copy, Debug, PartialEq, Eq, Structural)]
pub enum ColorType {
    /// A color in linear sRGB.
    Rgba { color: Rgba },
    /// A shade of white, by its correlated color temperature.
    Ccta { kelvin: u16, a: u8 },
}

/// The base name of a device.
#[derive(Debug)]
pub struct Base {
    pub name: String,
}

/// A reading or a setting of any type that devices support.
#[derive(Debug)]
pub enum DeviceValue {
    Bool(bool),
    Int(i32),
    Flt(Flt),
    Str(String),
    Color(ColorType),
}

impl DeviceValue {
    /// Whether two values are of the same type.
    pub open spec fn same_type(self, other: DeviceValue) -> bool {
        match self {
            DeviceValue::Bool(_) => other is Bool,
            DeviceValue::Int(_) => other is Int,
            DeviceValue::Flt(_) => other is Flt,
            DeviceValue::Str(_) => other is Str,
            DeviceValue::Color(_) => other is Color,
        }
    }

    /// Whether `other` is of the type that this value has.
    pub fn is_same_type(&self, other: &DeviceValue) -> (r: bool)
        ensures
            r == self.same_type(*other),
    {
        match (self, other) {
            (DeviceValue::Bool(_), DeviceValue::Bool(_)) => true,
            (DeviceValue::Int(_), DeviceValue::Int(_)) => true,
            (DeviceValue::Flt(_), DeviceValue::Flt(_)) => true,
            (DeviceValue::Str(_), DeviceValue::Str(_)) => true,
            (DeviceValue::Color(_), DeviceValue::Color(_)) => true,
            _ => false,
        }
    }
}

/// What a type needs so that a settable device can have it.
pub trait ReadWriteCompat: Sized {
    /// The meaning of `same`.
    spec fn is_same(self, other: Self) -> bool;

    /// Equality goes both ways.
    proof fn same_is_symmetric(a: Self, b: Self)
        requires
            a.is_same(b),
        ensures
            b.is_same(a),
    ;

    /// What equals the same value is equal. (A value need not equal itself: NaN
    /// does not.)
    proof fn same_is_transitive(a: Self, b: Self, c: Self)
        requires
            a.is_same(b),
            b.is_same(c),
        ensures
            a.is_same(c),
    ;

    /// Whether the two values are equal.
    fn same(&self, other: &Self) -> (r: bool)
        ensures
            r == self.is_same(*other),
    ;

    /// A copy of the value.
    fn duplicate(&self) -> (r: Self)
        ensures
            r == *self,
    ;
}

impl ReadWriteCompat for bool {
    open spec fn is_same(self, other: Self) -> bool {
        self == other
    }

    proof fn same_is_symmetric(a: Self, b: Self) {
    }

    proof fn same_is_transitive(a: Self, b: Self, c: Self) {
    }

    fn same(&self, other: &Self) -> (r: bool) {
        *self == *other
    }

    fn duplicate(&self) -> (r: Self) {
        *self
    }
}

impl ReadWriteCompat for i32 {
    open spec fn is_same(self, other: Self) -> bool {
        self == other
    }

    proof fn same_is_symmetric(a: Self, b: Self) {
    }

    proof fn same_is_transitive(a: Self, b: Self, c: Self) {
    }

    fn same(&self, other: &Self) -> (r: bool) {
        *self == *other
    }

    fn duplicate(&self) -> (r: Self) {
        *self
    }
}

impl ReadWriteCompat for Flt {
    open spec fn is_same(self, other: Self) -> bool {
        self.eq_num(other)
    }

    proof fn same_is_symmetric(a: Self, b: Self) {
    }

    proof fn same_is_transitive(a: Self, b: Self, c: Self) {
    }

    fn same(&self, other: &Self) -> (r: bool) {
        self.equals(other)
    }

    fn duplicate(&self) -> (r: Self) {
        *self
    }
}

impl ReadWriteCompat for String {
    open spec fn is_same(self, other: Self) -> bool {
        self@ == other@
    }

    proof fn same_is_symmetric(a: Self, b: Self) {
    }

    proof fn same_is_transitive(a: Self, b: Self, c: Self) {
    }

    fn same(&self, other: &Self) -> (r: bool) {
        *self == *other
    }

    fn duplicate(&self) -> (r: Self) {
        self.clone()
    }
}

impl ReadWriteCompat for ColorType {
    open spec fn is_same(self, other: Self) -> bool {
        self == other
    }

    proof fn same_is_symmetric(a: Self, b: Self) {
    }

    proof fn same_is_transitive(a: Self, b: Self, c: Self) {
    }

    fn same(&self, other: &Self) -> (r: bool) {
        *self == *other
    }

    fn duplicate(&self) -> (r: Self) {
        *self
    }
}

impl ReadWriteCompat for DeviceValue {
    open spec fn is_same(self, other: Self) -> bool {
        match (self, other) {
            (DeviceValue::Bool(a), DeviceValue::Bool(b)) => a == b,
            (DeviceValue::Int(a), DeviceValue::Int(b)) => a == b,
            (DeviceValue::Flt(a), DeviceValue::Flt(b)) => a.eq_num(b),
            (DeviceValue::Str(a), DeviceValue::Str(b)) => a@ == b@,
            (DeviceValue::Color(a), DeviceValue::Color(b)) => a == b,
            _ => false,
        }
    }

    proof fn same_is_symmetric(a: Self, b: Self) {
    }

    proof fn same_is_transitive(a: Self, b: Self, c: Self) {
    }

    fn same(&self, other: &Self) -> (r: bool) {
        match (self, other) {
            (DeviceValue::Bool(a), DeviceValue::Bool(b)) => *a == *b,
            (DeviceValue::Int(a), DeviceValue::Int(b)) => *a == *b,
            (DeviceValue::Flt(a), DeviceValue::Flt(b)) => a.equals(b),
            (DeviceValue::Str(a), DeviceValue::Str(b)) => *a == *b,
            (DeviceValue::Color(a), DeviceValue::Color(b)) => *a == *b,
            _ => false,
        }
    }

    fn duplicate(&self) -> (r: Self) {
        match self {
            DeviceValue::Bool(v) => DeviceValue::Bool(*v),
            DeviceValue::Int(v) => DeviceValue::Int(*v),
            DeviceValue::Flt(v) => DeviceValue::Flt(*v),
            DeviceValue::Str(v) => DeviceValue::Str(v.clone()),
            DeviceValue::Color(v) => DeviceValue::Color(*v),
        }
    }
}

/// A clamped number that is a number lies between 0.0 and 100.0.
pub proof fn clamped_is_a_percentage(x: Flt)
    requires
        !x.is_nan(),
    ensures
        !x.clamped().is_nan(),
        !x.clamped().lt_num(Flt { bits: 0 }),
        !(Flt { bits: HUNDRED_BITS }).lt_num(x.clamped()),
{
}

/// Clamping a second time changes nothing.
pub proof fn clamping_is_idempotent(x: Flt)
    ensures
        x.clamped().clamped() == x.clamped(),
{
}

/// A pattern is NaN exactly if its exponent is all ones and its fraction is not
/// zero.
pub proof fn nan_by_exponent_and_fraction(x: Flt)
    ensures
        x.is_nan() <==> (x.bits as int / 0x10_0000_0000_0000) % 0x800 == 0x7ff && x.bits as int
            % 0x10_0000_0000_0000 != 0,
{
}

/// Two numbers are equal exactly if they have the same pattern, or are both a zero.
/// NaN equals nothing.
pub proof fn equal_numbers_have_equal_patterns(a: Flt, b: Flt)
    ensures
        a.is_nan() || b.is_nan() ==> !a.eq_num(b),
        !a.is_nan() && !b.is_nan() ==> (a.eq_num(b) <==> a.bits == b.bits || {
            &&& a.bits == 0 || a.bits == 0x8000_0000_0000_0000
            &&& b.bits == 0 || b.bits == 0x8000_0000_0000_0000
        }),
{
}

/// Numbers without a sign are ordered as their patterns, those with a sign the other
/// way round, and a number with a sign is below one without unless both are zero.
/// NaN is ordered against nothing.
pub proof fn numbers_are_ordered_by_their_patterns(a: Flt, b: Flt)
    ensures
        a.is_nan() || b.is_nan() ==> !a.lt_num(b),
        !a.is_nan() && !b.is_nan() ==> {
            let (a_neg, b_neg) = (a.bits >= 0x8000_0000_0000_0000, b.bits >= 0x8000_0000_0000_0000);
            &&& !a_neg && !b_neg ==> (a.lt_num(b) <==> a.bits < b.bits)
            &&& a_neg && b_neg ==> (a.lt_num(b) <==> b.bits < a.bits)
            &&& a_neg && !b_neg ==> (a.lt_num(b) <==> a.bits != 0x8000_0000_0000_0000 || b.bits
                != 0)
            &&& !a_neg && b_neg ==> !a.lt_num(b)
        },
{
}

/// Of two numbers, either one is below the other or they are equal.
pub proof fn numbers_are_totally_ordered(a: Flt, b: Flt)
    requires
        !a.is_nan(),
        !b.is_nan(),
    ensures
        a.lt_num(b) || b.lt_num(a) || a.eq_num(b),
        !(a.lt_num(b) && b.lt_num(a)),
        a.eq_num(b) ==> !a.lt_num(b) && !b.lt_num(a),
{
}

/// The pattern of a hundred denotes a hundred: its exponent scales its significand
/// by 2 to the power of -46.
pub proof fn hundred_is_a_hundred()
    ensures
        HUNDRED_BITS as int / 0x10_0000_0000_0000 == 1075 - 46,
        0x10_0000_0000_0000 + HUNDRED_BITS as int % 0x10_0000_0000_0000 == 100 * 0x4000_0000_0000,
{
}

/// A number between 0.0 and 100.0 is not changed by clamping, and neither is NaN.
/// One that lies below becomes 0.0, and one that lies above becomes 100.0.
pub proof fn clamping_moves_to_the_nearer_end(x: Flt)
    ensures
        x.is_nan() ==> x.clamped() == x,
        !x.lt_num(Flt { bits: 0 }) && !(Flt { bits: 0x4059_0000_0000_0000 }).lt_num(x)
            ==> x.clamped() == x,
        x.lt_num(Flt { bits: 0 }) ==> x.clamped().bits == 0,
        (Flt { bits: 0x4059_0000_0000_0000 }).lt_num(x) ==> x.clamped().bits
            == 0x4059_0000_0000_0000,
{
}

/// Clamping keeps the order of numbers.
pub proof fn clamping_is_monotonic(a: Flt, b: Flt)
    requires
        a.lt_num(b),
    ensures
        !b.clamped().lt_num(a.clamped()),
{
}

/// Two values are of the same type exactly if they are of the same one of the five.
pub proof fn values_are_of_five_types(a: DeviceValue, b: DeviceValue)
    ensures
        a.same_type(b) <==> {
            ||| a is Bool && b is Bool
            ||| a is Int && b is Int
            ||| a is Flt && b is Flt
            ||| a is Str && b is Str
            ||| a is Color && b is Color
        },
        a.same_type(b) <==> b.same_type(a),
        a.same_type(a),
{
}

/// Truth values, integers and colors are equal if they are the same; texts are, if
/// their characters are; numbers are, if they are equal as numbers.
pub proof fn equality_by_type(
    b: (bool, bool),
    i: (i32, i32),
    f: (Flt, Flt),
    s: (String, String),
    c: (ColorType, ColorType),
)
    ensures
        b.0.is_same(b.1) <==> b.0 == b.1,
        i.0.is_same(i.1) <==> i.0 == i.1,
        f.0.is_same(f.1) <==> f.0.eq_num(f.1),
        s.0.is_same(s.1) <==> s.0@ == s.1@,
        c.0.is_same(c.1) <==> c.0 == c.1,
{
}

/// Values of any type are equal if they are of the same type, and equal by its
/// measure.
pub proof fn equality_of_values(v: DeviceValue, w: DeviceValue)
    ensures
        v.is_same(w) ==> v.same_type(w),
        v matches DeviceValue::Bool(a) ==> w matches DeviceValue::Bool(b) ==> (v.is_same(w) <==> a
            == b),
        v matches DeviceValue::Int(a) ==> w matches DeviceValue::Int(b) ==> (v.is_same(w) <==> a
            == b),
        v matches DeviceValue::Flt(a) ==> w matches DeviceValue::Flt(b) ==> (v.is_same(w)
            <==> a.eq_num(b)),
        v matches DeviceValue::Str(a) ==> w matches DeviceValue::Str(b) ==> (v.is_same(w) <==> a@
            == b@),
        v matches DeviceValue::Color(a) ==> w matches DeviceValue::Color(b) ==> (v.is_same(w) <==> a
            == b),
{
}

} // verus!
