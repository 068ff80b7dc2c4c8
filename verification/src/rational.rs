//! Rational constants, and exact arithmetic on them.
use crate::text::{
    integer, lemma_integer_of_signed_decimal, parse_integer, signed_decimal, to_signed_decimal,
};
use num_rational::Ratio;
use vstd::prelude::*;
use vstd::string::*;

verus! {

/// The greatest common divisor of two natural numbers.
pub open spec fn gcd(a: nat, b: nat) -> nat
    decreases b,
{
    if b == 0 {
        a
    } else {
        gcd(b, a % b)
    }
}

/// The fraction `n / d` in lowest terms with a positive denominator, for a
/// denominator other than zero.
pub open spec fn reduced(n: int, d: int) -> (int, int) {
    let g = gcd(vstd::math::abs(n) as nat, vstd::math::abs(d) as nat) as int;
    if d > 0 {
        (n / g, d / g)
    } else {
        ((-n) / g, (-d) / g)
    }
}

/// `a + b` in lowest terms.
pub open spec fn sum(a: Constant, b: Constant) -> (int, int) {
    reduced(a.numer * b.denom + b.numer * a.denom, a.denom * b.denom)
}

/// `a - b` in lowest terms.
pub open spec fn difference(a: Constant, b: Constant) -> (int, int) {
    reduced(a.numer * b.denom - b.numer * a.denom, a.denom * b.denom)
}

/// `a * b` in lowest terms.
pub open spec fn product(a: Constant, b: Constant) -> (int, int) {
    reduced(a.numer * b.numer, a.denom * b.denom)
}

/// `a / b` in lowest terms, for `b` other than zero.
pub open spec fn quotient(a: Constant, b: Constant) -> (int, int) {
    reduced(a.numer * b.denom, a.denom * b.numer)
}

/// The fraction as a constant, where numerator and denominator fit the
/// machine's numbers.
pub open spec fn representable(q: (int, int)) -> Option<Constant> {
    if i64::MIN <= q.0 <= i64::MAX && 0 < q.1 <= i64::MAX {
        Some(Constant { numer: q.0 as i64, denom: q.1 as i64 })
    } else {
        None
    }
}

/// The fraction as a constant, where it is representable.
fn narrow(q: (i128, i128)) -> (r: Option<Constant>)
    ensures
        r == representable((q.0 as int, q.1 as int)),
{
    if -0x8000_0000_0000_0000 <= q.0 && q.0 <= 0x7fff_ffff_ffff_ffff && 0 < q.1 && q.1
        <= 0x7fff_ffff_ffff_ffff {
        Some(Constant { numer: q.0 as i64, denom: q.1 as i64 })
    } else {
        None
    }
}

/// `Ratio::new` of `num_rational`, on numbers wide enough that nothing
/// overflows: the fraction in lowest terms with a positive denominator. The
/// denominator given is not zero.
#[verifier::external_body]
fn ratio_new(numer: i64, denom: i64) -> (r: (i128, i128))
    requires
        denom != 0,
    ensures
        (r.0 as int, r.1 as int) == reduced(numer as int, denom as int),
{
    let q = Ratio::new(numer as i128, denom as i128);
    (*q.numer(), *q.denom())
}

/// `+` of `num_rational::Ratio`, on numbers wide enough that nothing
/// overflows: the sum of the two fractions, in lowest terms with a positive
/// denominator.
#[verifier::external_body]
fn ratio_add(a: Constant, b: Constant) -> (r: (i128, i128))
    requires
        a.wf(),
        b.wf(),
    ensures
        (r.0 as int, r.1 as int) == sum(a, b),
{
    let q = Ratio::new_raw(a.numer as i128, a.denom as i128) + Ratio::new_raw(
        b.numer as i128,
        b.denom as i128,
    );
    (*q.numer(), *q.denom())
}

/// `-` of `num_rational::Ratio`, on numbers wide enough that nothing
/// overflows: the difference of the two fractions, in lowest terms with a
/// positive denominator.
#[verifier::external_body]
fn ratio_sub(a: Constant, b: Constant) -> (r: (i128, i128))
    requires
        a.wf(),
        b.wf(),
    ensures
        (r.0 as int, r.1 as int) == difference(a, b),
{
    let q = Ratio::new_raw(a.numer as i128, a.denom as i128) - Ratio::new_raw(
        b.numer as i128,
        b.denom as i128,
    );
    (*q.numer(), *q.denom())
}

/// `*` of `num_rational::Ratio`, on numbers wide enough that nothing
/// overflows: the product of the two fractions, in lowest terms with a
/// positive denominator.
#[verifier::external_body]
fn ratio_mul(a: Constant, b: Constant) -> (r: (i128, i128))
    requires
        a.wf(),
        b.wf(),
    ensures
        (r.0 as int, r.1 as int) == product(a, b),
{
    let q = Ratio::new_raw(a.numer as i128, a.denom as i128) * Ratio::new_raw(
        b.numer as i128,
        b.denom as i128,
    );
    (*q.numer(), *q.denom())
}

/// `/` of `num_rational::Ratio`, on numbers wide enough that nothing
/// overflows: the quotient of the two fractions, in lowest terms with a
/// positive denominator. The divisor is not zero.
#[verifier::external_body]
fn ratio_div(a: Constant, b: Constant) -> (r: (i128, i128))
    requires
        a.wf(),
        b.wf(),
        b.numer != 0,
    ensures
        (r.0 as int, r.1 as int) == quotient(a, b),
{
    let q = Ratio::new_raw(a.numer as i128, a.denom as i128) / Ratio::new_raw(
        b.numer as i128,
        b.denom as i128,
    );
    (*q.numer(), *q.denom())
}

/// `k` is where the first `/` of the text stands, or the length of a text
/// without one.
pub open spec fn first_slash(s: Seq<char>, k: int) -> bool {
    &&& 0 <= k <= s.len()
    &&& forall|j: int| 0 <= j < k ==> s[j] != '/'
    &&& k < s.len() ==> s[k] == '/'
}

/// A rational constant: `numer / denom`.
#[derive(Clone, Copy, Debug, PartialEq, Eq, Structural, Hash)]
pub struct Constant {
    pub numer: i64,
    pub denom: i64,
}

impl Constant {
    /// The denominator is positive.
    pub open spec fn wf(self) -> bool {
        self.denom > 0
    }

    pub open spec fn spec_is_zero(self) -> bool {
        self.numer == 0
    }

    /// Whether the constant is zero.
    pub fn is_zero(self) -> (r: bool)
        ensures
            r == self.spec_is_zero(),
    {
        self.numer == 0
    }

    /// The whole number `n`.
    pub open spec fn integer(n: i64) -> Constant {
        Constant { numer: n, denom: 1 }
    }

    /// `self + other` in lowest terms, where it is representable.
    pub fn checked_add(self, other: Constant) -> (r: Option<Constant>)
        requires
            self.wf(),
            other.wf(),
        ensures
            r == representable(sum(self, other)),
    {
        narrow(ratio_add(self, other))
    }

    /// `self - other` in lowest terms, where it is representable.
    pub fn checked_sub(self, other: Constant) -> (r: Option<Constant>)
        requires
            self.wf(),
            other.wf(),
        ensures
            r == representable(difference(self, other)),
    {
        narrow(ratio_sub(self, other))
    }

    /// `self * other` in lowest terms, where it is representable.
    pub fn checked_mul(self, other: Constant) -> (r: Option<Constant>)
        requires
            self.wf(),
            other.wf(),
        ensures
            r == representable(product(self, other)),
    {
        narrow(ratio_mul(self, other))
    }

    /// `self / other` in lowest terms, where it is representable. The
    /// divisor is not zero.
    pub fn checked_div(self, other: Constant) -> (r: Option<Constant>)
        requires
            self.wf(),
            other.wf(),
            !other.spec_is_zero(),
        ensures
            r == representable(quotient(self, other)),
    {
        narrow(ratio_div(self, other))
    }

    /// The constant that a text stands for: a numeral with an optional
    /// sign, or two of them around a `/`, of which the second is not zero.
    /// Both lie in the range of the machine's numbers, and so does the
    /// fraction in lowest terms, which is the constant.
    pub open spec fn spec_parse(s: Seq<char>) -> Option<Constant> {
        let k = choose|k: int| first_slash(s, k);
        let numer = integer(s.take(k));
        let denom = if k < s.len() {
            integer(s.skip(k + 1))
        } else {
            Some(1int)
        };
        match (numer, denom) {
            (Some(n), Some(d)) => if i64::MIN <= n <= i64::MAX && i64::MIN <= d <= i64::MAX && d
                != 0 {
                representable(reduced(n, d))
            } else {
                None
            },
            _ => None,
        }
    }

    /// The text that the constant is written as: its numerator, and behind
    /// a `/` its denominator where that is not one.
    pub open spec fn spec_text(self) -> Seq<char> {
        if self.denom == 1 {
            signed_decimal(self.numer as int)
        } else {
            signed_decimal(self.numer as int) + seq!['/'] + signed_decimal(self.denom as int)
        }
    }

    /// The constant that a text stands for, if it stands for one.
    pub fn parse(s: &str) -> (r: Option<Constant>)
        ensures
            r == Self::spec_parse(s@),
            r matches Some(c) ==> c.wf(),
    {
        let len = s.unicode_len();
        let mut k: usize = 0;
        while k < len && s.get_char(k) != '/'
            invariant
                k <= len,
                len == s@.len(),
                forall|j: int| 0 <= j < k ==> s@[j] != '/',
            ensures
                k == len || s@[k as int] == '/',
            decreases len - k,
        {
            k += 1;
        }
        proof {
            assert(first_slash(s@, k as int));
            let chosen = choose|k: int| first_slash(s@, k);
            assert(first_slash(s@, chosen));
            assert(chosen == k) by {
                if chosen < k {
                    assert(s@[chosen] == '/');
                } else if chosen > k {
                    assert(s@[k as int] == '/');
                }
            }
        }
        let (numer, denom) = if k == len {
            assert(s@.take(k as int) =~= s@);
            (parse_integer(s, 0x7fff_ffff_ffff_ffff), Some(1i64))
        } else {
            let before = s.substring_char(0, k);
            let after = s.substring_char(k + 1, len);
            assert(before@ =~= s@.take(k as int));
            assert(after@ =~= s@.skip(k + 1));
            (
                parse_integer(before, 0x7fff_ffff_ffff_ffff),
                parse_integer(after, 0x7fff_ffff_ffff_ffff),
            )
        };
        match (numer, denom) {
            (Some(n), Some(d)) => {
                if d == 0 {
                    None
                } else {
                    narrow(ratio_new(n, d))
                }
            },
            _ => None,
        }
    }

    /// The text that the constant is written as.
    pub fn text(self) -> (r: String)
        ensures
            r@ == self.spec_text(),
    {
        if self.denom == 1 {
            to_signed_decimal(self.numer)
        } else {
            proof {
                reveal_strlit("/");
            }
            let denom = to_signed_decimal(self.denom);
            let r = to_signed_decimal(self.numer).concat("/").concat(denom.as_str());
            assert(r@ =~= self.spec_text());
            r
        }
    }
}

/// Reading what was written gives the constant back, for a constant in
/// lowest terms with a positive denominator.
pub proof fn lemma_read_what_was_written(c: Constant)
    requires
        c.wf(),
        reduced(c.numer as int, c.denom as int) == (c.numer as int, c.denom as int),
    ensures
        Constant::spec_parse(c.spec_text()) == Some(c),
{
    let s = c.spec_text();
    let numer = signed_decimal(c.numer as int);
    let denom = signed_decimal(c.denom as int);
    lemma_integer_of_signed_decimal(c.numer as int);
    lemma_integer_of_signed_decimal(c.denom as int);
    let k = numer.len() as int;
    assert(first_slash(s, k)) by {
        assert forall|j: int| 0 <= j < k implies s[j] != '/' by {
            assert(s[j] == numer[j]);
        }
        if c.denom != 1 {
            assert(s[k] == '/');
        }
    }
    let chosen = choose|k: int| first_slash(s, k);
    assert(chosen == k) by {
        if chosen < k {
            assert(s[chosen] == '/');
            assert(s[chosen] == numer[chosen]);
        } else if chosen > k {
            assert(s[k] == '/');
        }
    }
    assert(s.take(k) =~= numer);
    if c.denom != 1 {
        assert(s.skip(k + 1) =~= denom);
    }
}

} // verus!
