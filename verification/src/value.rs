//! Typed values and their canonical text.
//!
//! Numbers are decimal fractions with six places, held exactly. Each number
//! has one text and each text stands for one number, so that two shaders
//! built from equal values are equal letter for letter.

use vstd::prelude::*;
use vstd::string::StringExecFns;

verus! {

/// Millionths in a unit.
pub const UNIT: u64 = 1_000_000;

/// The type of a value or of an expression.
#[derive(Clone, Copy, Debug, PartialEq, Eq, Structural)]
pub enum ValueType {
    Float,
    Vec2,
    Vec3,
    Vec4,
}

/// A decimal number with six places, as a count of millionths.
#[derive(Clone, Copy, Debug, PartialEq, Eq, Structural)]
pub struct Number {
    pub micros: i64,
}

/// A literal value: a number, or a vector of two to four numbers.
#[derive(Clone, Copy, Debug, PartialEq, Eq, Structural)]
pub enum Value {
    Float(Number),
    Vec2(Number, Number),
    Vec3(Number, Number, Number),
    Vec4(Number, Number, Number, Number),
}

/// The character of a decimal digit.
pub open spec fn digit_char(d: nat) -> char {
    if d == 0 {
        '0'
    } else if d == 1 {
        '1'
    } else if d == 2 {
        '2'
    } else if d == 3 {
        '3'
    } else if d == 4 {
        '4'
    } else if d == 5 {
        '5'
    } else if d == 6 {
        '6'
    } else if d == 7 {
        '7'
    } else if d == 8 {
        '8'
    } else {
        '9'
    }
}

/// The decimal digits of `n`, without leading zeros; `0` is `"0"`.
pub open spec fn digits(n: nat) -> Seq<char>
    decreases n,
{
    if n < 10 {
        seq![digit_char(n)]
    } else {
        digits(n / 10).push(digit_char(n % 10))
    }
}

/// The last `places` decimal digits of `n`, with leading zeros.
pub open spec fn padded(n: nat, places: nat) -> Seq<char>
    decreases places,
{
    if places == 0 {
        Seq::empty()
    } else {
        padded(n / 10, (places - 1) as nat).push(digit_char(n % 10))
    }
}

/// The decimal places of a fraction of `n` parts in `10^places`: the digits
/// of `n` with leading zeros, without trailing zeros, but at least one digit.
pub open spec fn fraction(n: nat, places: nat) -> Seq<char>
    decreases places,
{
    if places <= 1 {
        seq![digit_char(n % 10)]
    } else if n % 10 == 0 {
        fraction(n / 10, (places - 1) as nat)
    } else {
        padded(n, places)
    }
}

/// The type name of a value type in shader source.
pub open spec fn type_text(ty: ValueType) -> Seq<char> {
    match ty {
        ValueType::Float => "f32"@,
        ValueType::Vec2 => "vec2<f32>"@,
        ValueType::Vec3 => "vec3<f32>"@,
        ValueType::Vec4 => "vec4<f32>"@,
    }
}

impl ValueType {
    /// The type's name in shader source.
    pub fn name(self) -> (text: &'static str)
        ensures
            text@ == type_text(self),
    {
        match self {
            ValueType::Float => "f32",
            ValueType::Vec2 => "vec2<f32>",
            ValueType::Vec3 => "vec3<f32>",
            ValueType::Vec4 => "vec4<f32>",
        }
    }
}

impl Number {
    /// The number's size without its sign, in millionths.
    pub open spec fn magnitude(self) -> nat {
        if self.micros < 0 {
            (-self.micros) as nat
        } else {
            self.micros as nat
        }
    }

    /// The canonical text of the number: a minus sign if it is negative, its
    /// whole part, a point, and its decimal places without trailing zeros.
    pub open spec fn text(self) -> Seq<char> {
        let sign = if self.micros < 0 {
            seq!['-']
        } else {
            Seq::<char>::empty()
        };
        sign + digits(self.magnitude() / (UNIT as nat)) + seq!['.'] + fraction(
            self.magnitude() % (UNIT as nat),
            6,
        )
    }

    /// The number of `units` whole units.
    pub fn from_units(units: i32) -> (number: Number)
        ensures
            number.micros == units * UNIT,
    {
        Number { micros: (units as i64) * 1_000_000 }
    }

    /// Appends the number's canonical text to `out`.
    pub fn write(&self, out: &mut String)
        ensures
            final(out)@ == old(out)@ + self.text(),
    {
        let ghost start = out@;
        let size: u64 = if self.micros < 0 {
            out.append("-");
            proof {
                reveal_strlit("-");
                assert("-"@ =~= seq!['-']);
            }
            ((-(self.micros + 1)) as u64) + 1
        } else {
            self.micros as u64
        };
        assert(size == self.magnitude());
        write_digits(out, size / UNIT);
        out.append(".");
        proof {
            reveal_strlit(".");
            assert("."@ =~= seq!['.']);
        }
        write_fraction(out, size % UNIT, 6);
        assert(out@ =~= start + self.text());
    }

    /// The number's canonical text.
    pub fn render(&self) -> (text: String)
        ensures
            text@ == self.text(),
    {
        let mut text = String::new();
        self.write(&mut text);
        assert(text@ =~= self.text());
        text
    }
}

impl Value {
    /// The type of the value.
    pub open spec fn ty(self) -> ValueType {
        match self {
            Value::Float(_) => ValueType::Float,
            Value::Vec2(_, _) => ValueType::Vec2,
            Value::Vec3(_, _, _) => ValueType::Vec3,
            Value::Vec4(_, _, _, _) => ValueType::Vec4,
        }
    }

    /// The canonical text of the value: a number as it is, a vector as its
    /// type name and its numbers in brackets, separated by commas.
    pub open spec fn text(self) -> Seq<char> {
        match self {
            Value::Float(x) => x.text(),
            Value::Vec2(x, y) => "vec2<f32>("@ + x.text() + ","@ + y.text() + ")"@,
            Value::Vec3(x, y, z) => "vec3<f32>("@ + x.text() + ","@ + y.text() + ","@ + z.text()
                + ")"@,
            Value::Vec4(x, y, z, w) => "vec4<f32>("@ + x.text() + ","@ + y.text() + ","@
                + z.text() + ","@ + w.text() + ")"@,
        }
    }

    /// The type of the value.
    pub fn value_type(&self) -> (ty: ValueType)
        ensures
            ty == self.ty(),
    {
        match self {
            Value::Float(_) => ValueType::Float,
            Value::Vec2(_, _) => ValueType::Vec2,
            Value::Vec3(_, _, _) => ValueType::Vec3,
            Value::Vec4(_, _, _, _) => ValueType::Vec4,
        }
    }

    /// Appends the value's canonical text to `out`.
    pub fn write(&self, out: &mut String)
        ensures
            final(out)@ == old(out)@ + self.text(),
    {
        let ghost start = out@;
        match self {
            Value::Float(x) => {
                x.write(out);
            },
            Value::Vec2(x, y) => {
                out.append("vec2<f32>(");
                x.write(out);
                out.append(",");
                y.write(out);
                out.append(")");
            },
            Value::Vec3(x, y, z) => {
                out.append("vec3<f32>(");
                x.write(out);
                out.append(",");
                y.write(out);
                out.append(",");
                z.write(out);
                out.append(")");
            },
            Value::Vec4(x, y, z, w) => {
                out.append("vec4<f32>(");
                x.write(out);
                out.append(",");
                y.write(out);
                out.append(",");
                z.write(out);
                out.append(",");
                w.write(out);
                out.append(")");
            },
        }
        assert(out@ =~= start + self.text());
    }
}

/// The text of one decimal digit.
fn digit_text(d: u64) -> (text: &'static str)
    requires
        d < 10,
    ensures
        text@ == seq![digit_char(d as nat)],
{
    proof {
        reveal_strlit("0");
        reveal_strlit("1");
        reveal_strlit("2");
        reveal_strlit("3");
        reveal_strlit("4");
        reveal_strlit("5");
        reveal_strlit("6");
        reveal_strlit("7");
        reveal_strlit("8");
        reveal_strlit("9");
    }
    let text = if d == 0 {
        "0"
    } else if d == 1 {
        "1"
    } else if d == 2 {
        "2"
    } else if d == 3 {
        "3"
    } else if d == 4 {
        "4"
    } else if d == 5 {
        "5"
    } else if d == 6 {
        "6"
    } else if d == 7 {
        "7"
    } else if d == 8 {
        "8"
    } else {
        "9"
    };
    assert(text@ =~= seq![digit_char(d as nat)]);
    text
}

/// Appends the decimal digits of `n` to `out`.
pub fn write_digits(out: &mut String, n: u64)
    ensures
        final(out)@ == old(out)@ + digits(n as nat),
    decreases n,
{
    let ghost start = out@;
    if n >= 10 {
        write_digits(out, n / 10);
    }
    out.append(digit_text(n % 10));
    assert(out@ =~= start + digits(n as nat));
}

/// Appends the last `places` digits of `n` to `out`, with leading zeros.
fn write_padded(out: &mut String, n: u64, places: u8)
    ensures
        final(out)@ == old(out)@ + padded(n as nat, places as nat),
    decreases places,
{
    let ghost start = out@;
    if places > 0 {
        write_padded(out, n / 10, places - 1);
        out.append(digit_text(n % 10));
    }
    assert(out@ =~= start + padded(n as nat, places as nat));
}

/// Appends the decimal places of `n` parts in `10^places` to `out`.
fn write_fraction(out: &mut String, n: u64, places: u8)
    ensures
        final(out)@ == old(out)@ + fraction(n as nat, places as nat),
    decreases places,
{
    let ghost start = out@;
    if places <= 1 {
        out.append(digit_text(n % 10));
    } else if n % 10 == 0 {
        write_fraction(out, n / 10, places - 1);
    } else {
        write_padded(out, n, places);
    }
    assert(out@ =~= start + fraction(n as nat, places as nat));
}

/// Whether `c` is a decimal digit.
pub open spec fn is_digit(c: char) -> bool {
    c == '0' || c == '1' || c == '2' || c == '3' || c == '4' || c == '5' || c == '6' || c == '7'
        || c == '8' || c == '9'
}

/// Whether `text` holds decimal digits only.
pub open spec fn all_digits(text: Seq<char>) -> bool {
    forall|i: int| 0 <= i < text.len() ==> is_digit(#[trigger] text[i])
}

/// Ten to the power of `places`.
pub open spec fn pow10(places: nat) -> nat
    decreases places,
{
    if places == 0 {
        1
    } else {
        10 * pow10((places - 1) as nat)
    }
}

/// The digits of a number are digits, at least one, and more than one from
/// ten on.
proof fn lemma_digits_shape(n: nat)
    ensures
        digits(n).len() >= 1,
        all_digits(digits(n)),
        n < 10 <==> digits(n).len() == 1,
    decreases n,
{
    if n >= 10 {
        lemma_digits_shape(n / 10);
        let head = digits(n / 10);
        assert forall|i: int| 0 <= i < digits(n).len() implies is_digit(
            #[trigger] digits(n)[i],
        ) by {
            if i < head.len() {
                assert(digits(n)[i] == head[i]);
            }
        }
    }
}

/// Numbers with the same digits are the same.
proof fn lemma_digits_are_unique(a: nat, b: nat)
    requires
        digits(a) == digits(b),
    ensures
        a == b,
    decreases a,
{
    lemma_digits_shape(a);
    lemma_digits_shape(b);
    if a < 10 {
        assert(digits(a)[0] == digit_char(a));
        assert(digits(b)[0] == digit_char(b));
    } else {
        let head_a = digits(a / 10);
        let head_b = digits(b / 10);
        assert(digits(a).drop_last() =~= head_a);
        assert(digits(b).drop_last() =~= head_b);
        assert(digits(a).last() == digit_char(a % 10));
        assert(digits(b).last() == digit_char(b % 10));
        lemma_digits_are_unique(a / 10, b / 10);
    }
}

/// Padded digits are digits, as many as there are places.
proof fn lemma_padded_shape(n: nat, places: nat)
    ensures
        padded(n, places).len() == places,
        all_digits(padded(n, places)),
    decreases places,
{
    if places > 0 {
        lemma_padded_shape(n / 10, (places - 1) as nat);
        let head = padded(n / 10, (places - 1) as nat);
        assert forall|i: int| 0 <= i < padded(n, places).len() implies is_digit(
            #[trigger] padded(n, places)[i],
        ) by {
            if i < head.len() {
                assert(padded(n, places)[i] == head[i]);
            }
        }
    }
}

/// Numbers that fit the places and have the same padded digits are the same.
proof fn lemma_padded_is_unique(a: nat, b: nat, places: nat)
    requires
        a < pow10(places),
        b < pow10(places),
        padded(a, places) == padded(b, places),
    ensures
        a == b,
    decreases places,
{
    if places > 0 {
        let rest = (places - 1) as nat;
        assert(padded(a, places).drop_last() =~= padded(a / 10, rest));
        assert(padded(b, places).drop_last() =~= padded(b / 10, rest));
        assert(padded(a, places).last() == digit_char(a % 10));
        assert(padded(b, places).last() == digit_char(b % 10));
        lemma_padded_is_unique(a / 10, b / 10, rest);
    }
}

/// Decimal places are digits, at least one and at most as many as there are
/// places.
proof fn lemma_fraction_shape(n: nat, places: nat)
    requires
        places >= 1,
    ensures
        1 <= fraction(n, places).len() <= places,
        all_digits(fraction(n, places)),
        places > 1 && n % 10 != 0 ==> fraction(n, places).len() == places,
        places > 1 && n % 10 == 0 ==> fraction(n, places).len() < places,
    decreases places,
{
    if places <= 1 {
    } else if n % 10 == 0 {
        lemma_fraction_shape(n / 10, (places - 1) as nat);
    } else {
        lemma_padded_shape(n, places);
    }
}

/// Fractions that fit the places and have the same decimal places are the
/// same.
proof fn lemma_fraction_is_unique(a: nat, b: nat, places: nat)
    requires
        places >= 1,
        a < pow10(places),
        b < pow10(places),
        fraction(a, places) == fraction(b, places),
    ensures
        a == b,
    decreases places,
{
    lemma_fraction_shape(a, places);
    lemma_fraction_shape(b, places);
    if places <= 1 {
        assert(pow10(1) == 10) by {
            reveal_with_fuel(pow10, 2);
        }
        assert(fraction(a, places)[0] == digit_char(a % 10));
        assert(fraction(b, places)[0] == digit_char(b % 10));
    } else if a % 10 == 0 {
        lemma_fraction_is_unique(a / 10, b / 10, (places - 1) as nat);
    } else {
        lemma_padded_is_unique(a, b, places);
    }
}

/// The canonical text of a number stands for that number alone: numbers
/// with the same text are the same.
pub proof fn lemma_text_is_canonical(a: Number, b: Number)
    requires
        a.text() == b.text(),
    ensures
        a == b,
{
    let unit = UNIT as nat;
    let whole_a = digits(a.magnitude() / unit);
    let whole_b = digits(b.magnitude() / unit);
    let part_a = fraction(a.magnitude() % unit, 6);
    let part_b = fraction(b.magnitude() % unit, 6);
    lemma_digits_shape(a.magnitude() / unit);
    lemma_digits_shape(b.magnitude() / unit);
    lemma_fraction_shape(a.magnitude() % unit, 6);
    lemma_fraction_shape(b.magnitude() % unit, 6);
    let body_a = whole_a + seq!['.'] + part_a;
    let body_b = whole_b + seq!['.'] + part_b;
    assert(is_digit(body_a[0])) by {
        assert(body_a[0] == whole_a[0]);
    }
    assert(is_digit(body_b[0])) by {
        assert(body_b[0] == whole_b[0]);
    }
    // the sign
    if a.micros < 0 {
        assert(a.text() =~= seq!['-'] + body_a);
        assert(a.text()[0] == '-');
        if b.micros >= 0 {
            assert(b.text() =~= body_b);
            assert(false);
        }
        assert(b.text() =~= seq!['-'] + body_b);
        assert(body_a =~= a.text().subrange(1, a.text().len() as int));
        assert(body_b =~= b.text().subrange(1, b.text().len() as int));
    } else {
        assert(a.text() =~= body_a);
        if b.micros < 0 {
            assert(b.text() =~= seq!['-'] + body_b);
            assert(b.text()[0] == '-');
            assert(false);
        }
        assert(b.text() =~= body_b);
    }
    assert(body_a == body_b);
    // the point
    let at_a = whole_a.len() as int;
    let at_b = whole_b.len() as int;
    assert(body_a[at_a] == '.');
    assert(body_b[at_b] == '.');
    if at_a < at_b {
        assert(body_b[at_a] == whole_b[at_a]);
        assert(is_digit(whole_b[at_a]));
        assert(false);
    }
    if at_b < at_a {
        assert(body_a[at_b] == whole_a[at_b]);
        assert(is_digit(whole_a[at_b]));
        assert(false);
    }
    assert(whole_a =~= body_a.subrange(0, at_a));
    assert(whole_b =~= body_b.subrange(0, at_b));
    assert(part_a =~= body_a.subrange(at_a + 1, body_a.len() as int));
    assert(part_b =~= body_b.subrange(at_b + 1, body_b.len() as int));
    lemma_digits_are_unique(a.magnitude() / unit, b.magnitude() / unit);
    assert(pow10(6) == 1_000_000) by {
        reveal_with_fuel(pow10, 7);
    }
    lemma_fraction_is_unique(a.magnitude() % unit, b.magnitude() % unit, 6);
    assert(a.magnitude() == b.magnitude());
}

} // verus!
