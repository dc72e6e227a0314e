use vstd::arithmetic::power2::{lemma2_to64, lemma_pow2_strictly_increases, lemma_pow2_unfold, pow2};
use vstd::prelude::*;
use vstd::string::*;

use crate::raw::{RawNumber, RawValue};
use crate::text::same_text;

verus! {

/// The biased exponent field of a single-precision bit pattern.
pub open spec fn f32_exponent(bits: u32) -> int {
    (bits as int / 0x80_0000) % 256
}

/// The fraction field of a single-precision bit pattern.
pub open spec fn f32_fraction(bits: u32) -> int {
    bits as int % 0x80_0000
}

pub open spec fn f32_negative(bits: u32) -> bool {
    bits as int >= 0x8000_0000
}

/// Whether the value is its own ceiling: a zero, an infinity, or a finite
/// value without fraction. A NaN is not.
pub open spec fn f32_is_whole(bits: u32) -> bool {
    let e = f32_exponent(bits);
    let f = f32_fraction(bits);
    if e == 255 || e == 0 {
        f == 0
    } else if e >= 150 {
        true
    } else if e < 127 {
        false
    } else {
        (0x80_0000 + f) % (pow2((150 - e) as nat) as int) == 0
    }
}

/// The magnitude of a finite value of exponent 127 to 157, truncated.
pub open spec fn f32_magnitude(bits: u32) -> int {
    let e = f32_exponent(bits);
    let m = 0x80_0000 + f32_fraction(bits);
    if e >= 150 {
        m * pow2((e - 150) as nat)
    } else {
        m / (pow2((150 - e) as nat) as int)
    }
}

/// What Rust's saturating `as i32` makes of a value that is not a NaN.
pub open spec fn f32_to_i32(bits: u32) -> i32 {
    let e = f32_exponent(bits);
    if e < 127 {
        0
    } else if e >= 158 {
        if f32_negative(bits) {
            i32::MIN
        } else {
            i32::MAX
        }
    } else if f32_negative(bits) {
        (-f32_magnitude(bits)) as i32
    } else {
        f32_magnitude(bits) as i32
    }
}

/// The view of a [`Coercion`].
pub enum CoercionView {
    Float(u32),
    Integer(i32),
    Boolean(bool),
    Text(Option<Seq<char>>),
}

/// What the coercion rules make of the text `s` whose `f32` reading is `reading`.
pub open spec fn coercion_of_text(s: Seq<char>, reading: Option<u32>) -> CoercionView {
    if s == seq!['T', 'r', 'u', 'e'] {
        CoercionView::Boolean(true)
    } else if s == seq!['F', 'a', 'l', 's', 'e'] {
        CoercionView::Boolean(false)
    } else if s == seq!['N', 'o', 'n', 'e'] {
        CoercionView::Text(None)
    } else {
        match reading {
            Some(bits) => if f32_is_whole(bits) {
                CoercionView::Integer(f32_to_i32(bits))
            } else {
                CoercionView::Float(bits)
            },
            None => CoercionView::Text(Some(s)),
        }
    }
}

/// What the coercion rules make of a raw node: texts as above, native
/// scalars by kind, and `Null`, arrays and objects as an absent text.
pub open spec fn coercion_of_raw(v: RawValue) -> CoercionView {
    match v {
        RawValue::Text { text, reading } => coercion_of_text(text@, reading),
        RawValue::Bool(b) => CoercionView::Boolean(b),
        RawValue::Number(RawNumber::Signed(i)) => CoercionView::Integer(i as i32),
        RawValue::Number(RawNumber::Unsigned(u)) => CoercionView::Integer(u as i32),
        RawValue::Number(RawNumber::Float(bits)) => CoercionView::Float(bits),
        _ => CoercionView::Text(None),
    }
}

/// A scalar whose intended type has been recovered from the export, where
/// it may stand as a native JSON scalar or as a text.
#[derive(Debug, PartialEq)]
pub enum Coercion {
    /// A value with a fraction, as the IEEE-754 single-precision bit pattern.
    Float(u32),
    Integer(i32),
    Boolean(bool),
    /// A text; `None` stands for an explicit null.
    String(Option<String>),
}

impl View for Coercion {
    type V = CoercionView;

    open spec fn view(&self) -> CoercionView {
        match self {
            Coercion::Float(b) => CoercionView::Float(*b),
            Coercion::Integer(i) => CoercionView::Integer(*i),
            Coercion::Boolean(b) => CoercionView::Boolean(*b),
            Coercion::String(Some(s)) => CoercionView::Text(Some(s@)),
            Coercion::String(None) => CoercionView::Text(None),
        }
    }
}

impl Clone for Coercion {
    fn clone(&self) -> (r: Self)
        ensures
            r@ == self@,
    {
        match self {
            Coercion::Float(b) => Coercion::Float(*b),
            Coercion::Integer(i) => Coercion::Integer(*i),
            Coercion::Boolean(b) => Coercion::Boolean(*b),
            Coercion::String(Some(s)) => Coercion::String(Some(s.clone())),
            Coercion::String(None) => Coercion::String(None),
        }
    }
}

/// `2` to the power `n`.
fn pow2_u64(n: u32) -> (r: u64)
    requires
        n <= 32,
    ensures
        r as nat == pow2(n as nat),
        r >= 1,
{
    proof {
        lemma2_to64();
    }
    let mut r: u64 = 1;
    let mut i: u32 = 0;
    while i < n
        invariant
            i <= n <= 32,
            r as nat == pow2(i as nat),
            r >= 1,
        decreases n - i,
    {
        proof {
            lemma2_to64();
            lemma_pow2_strictly_increases(i as nat, 32);
            lemma_pow2_unfold((i + 1) as nat);
        }
        r = r * 2;
        i = i + 1;
    }
    r
}

/// Whether the single-precision value `bits` is its own ceiling.
pub fn f32_bits_whole(bits: u32) -> (r: bool)
    ensures
        r == f32_is_whole(bits),
{
    let e = (bits / 0x80_0000) % 256;
    let f = bits % 0x80_0000;
    if e == 255 || e == 0 {
        f == 0
    } else if e >= 150 {
        true
    } else if e < 127 {
        false
    } else {
        let p = pow2_u64(150 - e);
        (0x80_0000 + f as u64) % p == 0
    }
}

/// The single-precision value `bits`, not a NaN, cast to `i32` with saturation.
pub fn f32_bits_to_i32(bits: u32) -> (r: i32)
    ensures
        r == f32_to_i32(bits),
{
    let e = (bits / 0x80_0000) % 256;
    let m: u64 = 0x80_0000 + (bits % 0x80_0000) as u64;
    let negative = bits >= 0x8000_0000;
    if e < 127 {
        return 0;
    }
    if e >= 158 {
        return if negative { i32::MIN } else { i32::MAX };
    }
    proof {
        lemma2_to64();
    }
    let magnitude: u64 = if e >= 150 {
        let p = pow2_u64(e - 150);
        assert(m * p <= 0xFF_FFFF * 0x80) by (nonlinear_arith)
            requires
                m <= 0xFF_FFFF,
                p <= 0x80,
        ;
        m * p
    } else {
        m / pow2_u64(150 - e)
    };
    proof {
        assert(magnitude < 0x8000_0000);
    }
    if negative {
        -(magnitude as i64) as i32
    } else {
        magnitude as i32
    }
}

impl Coercion {
    /// The coercion of the text `text`, whose `f32` reading (`str::parse`) is
    /// `reading`, as a bit pattern.
    pub fn from_text(text: &str, reading: Option<u32>) -> (r: Self)
        ensures
            r@ == coercion_of_text(text@, reading),
    {
        proof {
            reveal_strlit("True");
            reveal_strlit("False");
            reveal_strlit("None");
            assert("True"@ =~= seq!['T', 'r', 'u', 'e']);
            assert("False"@ =~= seq!['F', 'a', 'l', 's', 'e']);
            assert("None"@ =~= seq!['N', 'o', 'n', 'e']);
        }
        if same_text(text, "True") {
            Coercion::Boolean(true)
        } else if same_text(text, "False") {
            Coercion::Boolean(false)
        } else if same_text(text, "None") {
            Coercion::String(None)
        } else {
            match reading {
                Some(bits) => if f32_bits_whole(bits) {
                    Coercion::Integer(f32_bits_to_i32(bits))
                } else {
                    Coercion::Float(bits)
                },
                None => Coercion::String(Some(String::from_str(text))),
            }
        }
    }

    /// The coercion of a raw node.
    pub fn from_raw(v: &RawValue) -> (r: Self)
        ensures
            r@ == coercion_of_raw(*v),
    {
        match v {
            RawValue::Text { text, reading } => Coercion::from_text(text.as_str(), *reading),
            RawValue::Bool(b) => Coercion::Boolean(*b),
            RawValue::Number(RawNumber::Signed(i)) => Coercion::Integer(*i as i32),
            RawValue::Number(RawNumber::Unsigned(u)) => Coercion::Integer(*u as i32),
            RawValue::Number(RawNumber::Float(bits)) => Coercion::Float(*bits),
            _ => Coercion::String(None),
        }
    }

    /// The bit pattern of a `Float`; `0` (the pattern of `0.0`) otherwise.
    pub fn into_float_bits(self) -> (r: u32)
        ensures
            r == (match self@ {
                CoercionView::Float(b) => b,
                _ => 0u32,
            }),
    {
        match self {
            Coercion::Float(b) => b,
            _ => 0,
        }
    }

    /// The value of an `Integer`; `0` otherwise.
    pub fn into_i32(self) -> (r: i32)
        ensures
            r == (match self@ {
                CoercionView::Integer(i) => i,
                _ => 0i32,
            }),
    {
        match self {
            Coercion::Integer(i) => i,
            _ => 0,
        }
    }

    /// The value of a `Boolean`; `false` otherwise.
    pub fn into_bool(self) -> (r: bool)
        ensures
            r == (self@ == CoercionView::Boolean(true)),
    {
        match self {
            Coercion::Boolean(b) => b,
            _ => false,
        }
    }

    /// The text of a `String`; `None` otherwise.
    pub fn into_option_string(self) -> (r: Option<String>)
        ensures
            match r {
                Some(s) => self@ == CoercionView::Text(Some(s@)),
                None => !(self@ matches CoercionView::Text(Some(_))),
            },
    {
        match self {
            Coercion::String(v) => v,
            _ => None,
        }
    }

    /// The text of a `String`; an empty text otherwise.
    pub fn into_string(self) -> (r: String)
        ensures
            r@ == (match self@ {
                CoercionView::Text(Some(s)) => s,
                _ => Seq::<char>::empty(),
            }),
    {
        match self {
            Coercion::String(Some(s)) => s,
            _ => String::new(),
        }
    }
}

} // verus!
