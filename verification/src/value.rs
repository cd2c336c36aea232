//! Values computed by the interpreter of the architecture model.
use vstd::prelude::*;

verus! {

/// A value computed by the interpreter: an integer with its bit length, the
/// raw IEEE-754 bits of a float, an interned string key, the unit value or a
/// tuple.
#[derive(Debug)]
#[allow(inconsistent_fields)]
pub enum Value {
    UnsignedInteger { value: u64, length: u16 },
    SignedInteger { value: i64, length: u16 },
    FloatingPoint(u64),
    String(u32),
    Unit,
    Tuple(Vec<Value>),
}

/// The greater of two lengths.
pub open spec fn max_len(a: u16, b: u16) -> u16 {
    if a >= b {
        a
    } else {
        b
    }
}

fn max_u16(a: u16, b: u16) -> (r: u16)
    ensures
        r == max_len(a, b),
{
    if a >= b {
        a
    } else {
        b
    }
}

impl Value {
    /// The two values are equal, tuples holding equal sequences of elements.
    pub open spec fn same_as(self, other: Value) -> bool
        decreases self,
    {
        match (self, other) {
            (Value::Tuple(a), Value::Tuple(b)) => a@.len() == b@.len() && forall|k: int|
                0 <= k < a@.len() ==> (#[trigger] a@[k]).same_as(b@[k]),
            _ => self == other,
        }
    }

    /// A copy of the value, element by element for tuples.
    pub fn duplicate(&self) -> (out: Value)
        ensures
            out.same_as(*self),
        decreases self,
    {
        if let Value::Tuple(values) = self {
            let mut out: Vec<Value> = Vec::new();
            let mut i: usize = 0;
            proof {
                assert forall|k: int| 0 <= k < values@.len() implies decreases_to!(*self => #[trigger] values@[k]) by {
                    assert(decreases_to!(*self => *values));
                    assert(decreases_to!(*values => values@));
                    assert(decreases_to!(values@ => values@[k]));
                }
            }
            while i < values.len()
                invariant
                    i <= values@.len(),
                    out@.len() == i,
                    forall|k: int| 0 <= k < i ==> (#[trigger] out@[k]).same_as(values@[k]),
                    forall|k: int| 0 <= k < values@.len() ==> decreases_to!(*self => #[trigger] values@[k]),
                decreases values@.len() - i,
            {
                let v = values[i].duplicate();
                out.push(v);
                i = i + 1;
            }
            return Value::Tuple(out);
        }
        match self {
            Value::UnsignedInteger { value, length } => Value::UnsignedInteger { value: *value, length: *length },
            Value::SignedInteger { value, length } => Value::SignedInteger { value: *value, length: *length },
            Value::FloatingPoint(bits) => Value::FloatingPoint(*bits),
            Value::String(key) => Value::String(*key),
            _ => Value::Unit,
        }
    }

    /// When `sub` is defined: both integers, of the same signedness or a
    /// signed minus an unsigned, and the difference fits.
    pub open spec fn sub_ok(self, rhs: Value) -> bool {
        match (self, rhs) {
            (Value::SignedInteger { value: l, .. }, Value::SignedInteger { value: r, .. }) => i64::MIN
                <= l - r <= i64::MAX,
            (Value::UnsignedInteger { value: l, .. }, Value::UnsignedInteger { value: r, .. }) => r <= l,
            (Value::SignedInteger { value: l, .. }, Value::UnsignedInteger { value: r, .. }) => r
                <= i64::MAX && i64::MIN <= l - r <= i64::MAX,
            _ => false,
        }
    }

    /// The difference, of the longer of the two lengths, signed if the left
    /// operand is.
    pub open spec fn sub_spec(self, rhs: Value) -> (Value, bool) {
        match (self, rhs) {
            (Value::SignedInteger { value: l, length: ll }, Value::SignedInteger { value: r, length: rl }) => (
                Value::SignedInteger { value: (l - r) as i64, length: max_len(ll, rl) },
                true,
            ),
            (Value::UnsignedInteger { value: l, length: ll }, Value::UnsignedInteger { value: r, length: rl }) => (
                Value::UnsignedInteger { value: (l - r) as u64, length: max_len(ll, rl) },
                true,
            ),
            (Value::SignedInteger { value: l, length: ll }, Value::UnsignedInteger { value: r, length: rl }) => (
                Value::SignedInteger { value: (l - r) as i64, length: max_len(ll, rl) },
                true,
            ),
            _ => (Value::Unit, false),
        }
    }

    /// Subtraction of interpreter values.
    pub fn sub(self, rhs: Value) -> (r: Value)
        requires
            self.sub_ok(rhs),
        ensures
            r == self.sub_spec(rhs).0,
    {
        match (self, rhs) {
            (Value::SignedInteger { value: l, length: ll }, Value::SignedInteger { value: r, length: rl }) => {
                Value::SignedInteger { value: l - r, length: max_u16(ll, rl) }
            },
            (Value::UnsignedInteger { value: l, length: ll }, Value::UnsignedInteger { value: r, length: rl }) => {
                Value::UnsignedInteger { value: l - r, length: max_u16(ll, rl) }
            },
            (Value::SignedInteger { value: l, length: ll }, Value::UnsignedInteger { value: r, length: rl }) => {
                Value::SignedInteger { value: l - (r as i64), length: max_u16(ll, rl) }
            },
            _ => Value::Unit,
        }
    }

    /// When `add` is defined: two signed integers, or a signed and an
    /// unsigned one whose unsigned value fits `i64`, and the sum fits.
    pub open spec fn add_ok(self, rhs: Value) -> bool {
        match (self, rhs) {
            (Value::SignedInteger { value: l, .. }, Value::SignedInteger { value: r, .. }) => i64::MIN
                <= l + r <= i64::MAX,
            (Value::UnsignedInteger { value: l, .. }, Value::SignedInteger { value: r, .. }) => l
                <= i64::MAX && i64::MIN <= l + r <= i64::MAX,
            (Value::SignedInteger { value: l, .. }, Value::UnsignedInteger { value: r, .. }) => r
                <= i64::MAX && i64::MIN <= l + r <= i64::MAX,
            _ => false,
        }
    }

    /// The sum, signed, of the longer of the two lengths.
    pub open spec fn add_spec(self, rhs: Value) -> Value {
        match (self, rhs) {
            (Value::SignedInteger { value: l, length: ll }, Value::SignedInteger { value: r, length: rl }) =>
                Value::SignedInteger { value: (l + r) as i64, length: max_len(ll, rl) },
            (Value::UnsignedInteger { value: l, length: ll }, Value::SignedInteger { value: r, length: rl }) =>
                Value::SignedInteger { value: (l + r) as i64, length: max_len(ll, rl) },
            (Value::SignedInteger { value: l, length: ll }, Value::UnsignedInteger { value: r, length: rl }) =>
                Value::SignedInteger { value: (l + r) as i64, length: max_len(ll, rl) },
            _ => Value::Unit,
        }
    }

    /// Addition of interpreter values. Two unsigned values are not added by
    /// the interpreter.
    pub fn add(self, rhs: Value) -> (r: Value)
        requires
            self.add_ok(rhs),
        ensures
            r == self.add_spec(rhs),
    {
        match (self, rhs) {
            (Value::SignedInteger { value: l, length: ll }, Value::SignedInteger { value: r, length: rl }) => {
                Value::SignedInteger { value: l + r, length: max_u16(ll, rl) }
            },
            (Value::UnsignedInteger { value: l, length: ll }, Value::SignedInteger { value: r, length: rl }) => {
                Value::SignedInteger { value: (l as i64) + r, length: max_u16(ll, rl) }
            },
            (Value::SignedInteger { value: l, length: ll }, Value::UnsignedInteger { value: r, length: rl }) => {
                Value::SignedInteger { value: l + (r as i64), length: max_u16(ll, rl) }
            },
            _ => Value::Unit,
        }
    }

    /// When `mul` is defined: two signed, a signed and an unsigned that fits
    /// `i64`, or two unsigned integers, and the product fits.
    pub open spec fn mul_ok(self, rhs: Value) -> bool {
        match (self, rhs) {
            (Value::SignedInteger { value: l, .. }, Value::SignedInteger { value: r, .. }) => i64::MIN
                <= l * r <= i64::MAX,
            (Value::SignedInteger { value: l, .. }, Value::UnsignedInteger { value: r, .. }) => r
                <= i64::MAX && i64::MIN <= l * r <= i64::MAX,
            (Value::UnsignedInteger { value: l, .. }, Value::UnsignedInteger { value: r, .. }) => l * r
                <= u64::MAX,
            _ => false,
        }
    }

    /// The product, of the longer of the two lengths, signed if the left
    /// operand is.
    pub open spec fn mul_spec(self, rhs: Value) -> Value {
        match (self, rhs) {
            (Value::SignedInteger { value: l, length: ll }, Value::SignedInteger { value: r, length: rl }) =>
                Value::SignedInteger { value: (l * r) as i64, length: max_len(ll, rl) },
            (Value::SignedInteger { value: l, length: ll }, Value::UnsignedInteger { value: r, length: rl }) =>
                Value::SignedInteger { value: (l * r) as i64, length: max_len(ll, rl) },
            (Value::UnsignedInteger { value: l, length: ll }, Value::UnsignedInteger { value: r, length: rl }) =>
                Value::UnsignedInteger { value: (l * r) as u64, length: max_len(ll, rl) },
            _ => Value::Unit,
        }
    }

    /// Multiplication of interpreter values.
    pub fn mul(self, rhs: Value) -> (r: Value)
        requires
            self.mul_ok(rhs),
        ensures
            r == self.mul_spec(rhs),
    {
        match (self, rhs) {
            (Value::SignedInteger { value: l, length: ll }, Value::SignedInteger { value: r, length: rl }) => {
                Value::SignedInteger { value: l * r, length: max_u16(ll, rl) }
            },
            (Value::SignedInteger { value: l, length: ll }, Value::UnsignedInteger { value: r, length: rl }) => {
                Value::SignedInteger { value: l * (r as i64), length: max_u16(ll, rl) }
            },
            (Value::UnsignedInteger { value: l, length: ll }, Value::UnsignedInteger { value: r, length: rl }) => {
                Value::UnsignedInteger { value: l * r, length: max_u16(ll, rl) }
            },
            _ => Value::Unit,
        }
    }

    /// Whether both values are unsigned integers.
    pub open spec fn both_unsigned(self, rhs: Value) -> bool {
        self is UnsignedInteger && rhs is UnsignedInteger
    }

    /// The bitwise or of two unsigned values, of the longer length.
    pub fn bitor(self, rhs: Value) -> (r: Value)
        requires
            self.both_unsigned(rhs),
        ensures
            r == (Value::UnsignedInteger {
                value: self->UnsignedInteger_value | rhs->UnsignedInteger_value,
                length: max_len(self->UnsignedInteger_length, rhs->UnsignedInteger_length),
            }),
    {
        match (self, rhs) {
            (Value::UnsignedInteger { value: l, length: ll }, Value::UnsignedInteger { value: r, length: rl }) => {
                Value::UnsignedInteger { value: l | r, length: max_u16(ll, rl) }
            },
            _ => Value::Unit,
        }
    }

    /// The bitwise and of two unsigned values, of the longer length.
    pub fn bitand(self, rhs: Value) -> (r: Value)
        requires
            self.both_unsigned(rhs),
        ensures
            r == (Value::UnsignedInteger {
                value: self->UnsignedInteger_value & rhs->UnsignedInteger_value,
                length: max_len(self->UnsignedInteger_length, rhs->UnsignedInteger_length),
            }),
    {
        match (self, rhs) {
            (Value::UnsignedInteger { value: l, length: ll }, Value::UnsignedInteger { value: r, length: rl }) => {
                Value::UnsignedInteger { value: l & r, length: max_u16(ll, rl) }
            },
            _ => Value::Unit,
        }
    }

    /// When `div` is defined: two signed integers, a nonzero divisor, and not
    /// the one quotient that overflows.
    pub open spec fn div_ok(self, rhs: Value) -> bool {
        match (self, rhs) {
            (Value::SignedInteger { value: l, .. }, Value::SignedInteger { value: r, .. }) => r != 0
                && !(l == i64::MIN && r == -1),
            _ => false,
        }
    }

    /// Signed division truncating toward zero, of the longer length.
    pub fn div(self, rhs: Value) -> (r: Value)
        requires
            self.div_ok(rhs),
        ensures
            r == (Value::SignedInteger {
                value: truncating_div(self->SignedInteger_value, rhs->SignedInteger_value) as i64,
                length: max_len(self->SignedInteger_length, rhs->SignedInteger_length),
            }),
    {
        match (self, rhs) {
            (Value::SignedInteger { value: l, length: ll }, Value::SignedInteger { value: r, length: rl }) => {
                Value::SignedInteger { value: truncating_div_exec(l, r), length: max_u16(ll, rl) }
            },
            _ => Value::Unit,
        }
    }

    /// Ordering of two integers of the same signedness by value, as `-1`,
    /// `0` or `1`; lengths are not compared.
    pub open spec fn compare_spec(self, rhs: Value) -> int {
        match (self, rhs) {
            (Value::UnsignedInteger { value: l, .. }, Value::UnsignedInteger { value: r, .. }) => if l
                < r {
                -1
            } else if l == r {
                0
            } else {
                1
            },
            (Value::SignedInteger { value: l, .. }, Value::SignedInteger { value: r, .. }) => if l < r {
                -1
            } else if l == r {
                0
            } else {
                1
            },
            _ => 0,
        }
    }

    /// Whether two values can be ordered: integers of the same signedness.
    pub open spec fn comparable(self, rhs: Value) -> bool {
        (self is UnsignedInteger && rhs is UnsignedInteger) || (self is SignedInteger
            && rhs is SignedInteger)
    }

    /// Orders two integers of the same signedness by value: `-1`, `0` or `1`.
    pub fn compare(&self, rhs: &Value) -> (r: i8)
        requires
            self.comparable(*rhs),
        ensures
            r == self.compare_spec(*rhs),
    {
        match (self, rhs) {
            (Value::UnsignedInteger { value: l, .. }, Value::UnsignedInteger { value: r, .. }) => {
                if *l < *r {
                    -1
                } else if *l == *r {
                    0
                } else {
                    1
                }
            },
            (Value::SignedInteger { value: l, .. }, Value::SignedInteger { value: r, .. }) => {
                if *l < *r {
                    -1
                } else if *l == *r {
                    0
                } else {
                    1
                }
            },
            _ => 0,
        }
    }
}

/// Division rounding toward zero, as Rust's `/` on integers does.
pub open spec fn truncating_div(a: i64, b: i64) -> int {
    let q = (if a >= 0 { a as int } else { -a }) / (if b >= 0 { b as int } else { -b });
    if (a >= 0) == (b >= 0) {
        q
    } else {
        -q
    }
}

fn truncating_div_exec(a: i64, b: i64) -> (r: i64)
    requires
        b != 0,
        !(a == i64::MIN && b == -1),
    ensures
        r == truncating_div(a, b),
{
    let ua: u64 = if a >= 0 {
        a as u64
    } else {
        (0i128 - a as i128) as u64
    };
    let ub: u64 = if b >= 0 {
        b as u64
    } else {
        (0i128 - b as i128) as u64
    };
    let q: u64 = ua / ub;
    if (a >= 0) == (b >= 0) {
        assert(q <= i64::MAX) by (nonlinear_arith)
            requires
                q == ua / ub,
                ub >= 1,
                (a >= 0 ==> ua <= i64::MAX),
                (a < 0 && b < 0 ==> (ua <= 0x8000_0000_0000_0000u64 && (ua == 0x8000_0000_0000_0000u64 ==> ub >= 2))),
                (a >= 0) == (b >= 0),
        ;
        q as i64
    } else {
        assert(q <= 0x8000_0000_0000_0000u64) by (nonlinear_arith)
            requires
                q == ua / ub,
                ub >= 1,
                ua <= 0x8000_0000_0000_0000u64,
        ;
        (0i128 - q as i128) as i64
    }
}

/// The integer an integer value stands for.
pub open spec fn int_of(v: Value) -> int {
    match v {
        Value::UnsignedInteger { value, .. } => value as int,
        Value::SignedInteger { value, .. } => value as int,
        _ => 0,
    }
}

/// The bit length of an integer value.
pub open spec fn length_of(v: Value) -> u16 {
    match v {
        Value::UnsignedInteger { length, .. } => length,
        Value::SignedInteger { length, .. } => length,
        _ => 0,
    }
}

/// Arithmetic on interpreter values computes on the integers they stand
/// for: where defined, a sum, difference or product is the exact sum,
/// difference or product, of the longer of the two lengths, signed where an
/// operand is signed (for a difference and a product: where the left one
/// is).
pub proof fn lemma_value_arithmetic(l: Value, r: Value)
    ensures
        l.add_ok(r) ==> int_of(l.add_spec(r)) == int_of(l) + int_of(r) && l.add_spec(r) is SignedInteger
            && length_of(l.add_spec(r)) >= length_of(l) && length_of(l.add_spec(r)) >= length_of(r) && (length_of(
            l.add_spec(r),
        ) == length_of(l) || length_of(l.add_spec(r)) == length_of(r)),
        l.sub_ok(r) ==> int_of(l.sub_spec(r).0) == int_of(l) - int_of(r) && (l.sub_spec(r).0 is SignedInteger <==> l is SignedInteger)
            && length_of(l.sub_spec(r).0) >= length_of(l) && length_of(l.sub_spec(r).0) >= length_of(r) && (length_of(
            l.sub_spec(r).0,
        ) == length_of(l) || length_of(l.sub_spec(r).0) == length_of(r)),
        l.mul_ok(r) ==> int_of(l.mul_spec(r)) == int_of(l) * int_of(r) && (l.mul_spec(r) is SignedInteger <==> l is SignedInteger)
            && length_of(l.mul_spec(r)) >= length_of(l) && length_of(l.mul_spec(r)) >= length_of(r),
{
}

/// Ordering of values follows the integers they stand for, and reverses
/// when the operands trade places.
pub proof fn lemma_value_order(l: Value, r: Value)
    requires
        l.comparable(r),
    ensures
        (l.compare_spec(r) == -1) == (int_of(l) < int_of(r)),
        (l.compare_spec(r) == 0) == (int_of(l) == int_of(r)),
        (l.compare_spec(r) == 1) == (int_of(l) > int_of(r)),
        r.compare_spec(l) == -l.compare_spec(r),
{
}

/// Division rounding toward zero: the quotient times the divisor is no
/// farther from zero than the dividend, the remainder is smaller than the
/// divisor in magnitude and has the dividend's sign (or is zero).
pub proof fn lemma_truncating_div(a: i64, b: i64)
    requires
        b != 0,
    ensures
        ({
            let q = truncating_div(a, b);
            let rem = a - q * b;
            &&& (if b > 0 { rem < b } else { rem < -b })
            &&& (if b > 0 { -rem < b } else { -rem < -b })
            &&& (a >= 0 ==> rem >= 0)
            &&& (a < 0 ==> rem <= 0)
        }),
{
    let aa: int = if a >= 0 { a as int } else { -a };
    let bb: int = if b >= 0 { b as int } else { -b };
    assert(aa >= 0 && bb > 0);
    assert(aa == (if a >= 0 { a as int } else { -(a as int) }));
    assert(bb == (if b >= 0 { b as int } else { -(b as int) }));
    let q0 = aa / bb;
    let m = aa % bb;
    vstd::arithmetic::div_mod::lemma_fundamental_div_mod(aa, bb);
    vstd::arithmetic::div_mod::lemma_mod_pos_bound(aa, bb);
    assert(aa == q0 * bb + m) by (nonlinear_arith)
        requires
            aa == bb * (aa / bb) + aa % bb,
            q0 == aa / bb,
            m == aa % bb,
    ;
    let q = truncating_div(a, b);
    let rem = a - q * b;
    assert(q == (if (a >= 0) == (b >= 0) { q0 } else { -q0 }));
    if a >= 0 {
        assert(q * b == q0 * bb) by (nonlinear_arith)
            requires
                (b >= 0 && q == q0 && b == bb) || (b < 0 && q == -q0 && b == -bb),
        ;
        assert(rem == m);
    } else {
        assert(q * b == -(q0 * bb)) by (nonlinear_arith)
            requires
                (b < 0 && q == q0 && b == -bb) || (b >= 0 && q == -q0 && b == bb),
        ;
        assert(rem == -m);
    }
}

} // verus!
