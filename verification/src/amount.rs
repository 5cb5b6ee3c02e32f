//! Unsigned token amounts of any size.
//!
//! Amounts arrive as 256-bit words and are summed without a bound, so a sum
//! never wraps. An amount is kept as its base-256 digits, most significant
//! first and without leading zeros.

use crate::ethers_api::{format_units_u256, units_text};
use vstd::prelude::*;

verus! {

/// The number that `digits` spell in base 256, most significant digit first.
pub open spec fn be_nat(digits: Seq<u8>) -> nat
    decreases digits.len(),
{
    if digits.len() == 0 {
        0
    } else {
        be_nat(digits.drop_last()) * 256 + digits.last() as nat
    }
}

/// `256^n`.
pub open spec fn pow256(n: nat) -> nat
    decreases n,
{
    if n == 0 {
        1
    } else {
        256 * pow256((n - 1) as nat)
    }
}

/// No leading zero digit.
pub open spec fn canonical(digits: Seq<u8>) -> bool {
    digits.len() == 0 || digits[0] != 0
}

/// A leading zero digit does not change the number.
pub proof fn lemma_leading_zero(digits: Seq<u8>)
    requires
        digits.len() > 0,
        digits[0] == 0,
    ensures
        be_nat(digits) == be_nat(digits.skip(1)),
    decreases digits.len(),
{
    let rest = digits.skip(1);
    if digits.len() == 1 {
        assert(be_nat(digits.drop_last()) == 0);
        assert(be_nat(rest) == 0);
    } else {
        lemma_leading_zero(digits.drop_last());
        assert(rest.drop_last() =~= digits.drop_last().skip(1));
        assert(rest.last() == digits.last());
    }
}

/// `n` digits spell a number below `256^n`; without a leading zero, one of at
/// least `256^(n-1)`.
pub proof fn lemma_be_nat_bounds(digits: Seq<u8>)
    ensures
        be_nat(digits) < pow256(digits.len()),
        digits.len() > 0 && digits[0] != 0 ==> be_nat(digits) >= pow256(
            (digits.len() - 1) as nat,
        ),
    decreases digits.len(),
{
    if digits.len() > 0 {
        lemma_be_nat_bounds(digits.drop_last());
        if digits.len() == 1 {
            assert(digits.drop_last().len() == 0);
            assert(pow256(0) == 1);
        }
    }
}

/// A number is spelled without leading zeros in one way only.
pub proof fn lemma_canonical_unique(a: Seq<u8>, b: Seq<u8>)
    requires
        canonical(a),
        canonical(b),
        be_nat(a) == be_nat(b),
    ensures
        a == b,
    decreases a.len() + b.len(),
{
    lemma_be_nat_bounds(a);
    lemma_be_nat_bounds(b);
    if a.len() == 0 || b.len() == 0 {
        if a.len() > 0 {
            lemma_pow256_positive((a.len() - 1) as nat);
        }
        if b.len() > 0 {
            lemma_pow256_positive((b.len() - 1) as nat);
        }
        assert(a =~= b);
    } else {
        let a0 = a.drop_last();
        let b0 = b.drop_last();
        assert(be_nat(a0) == be_nat(b0));
        assert(a.last() == b.last());
        if a0.len() > 0 {
            assert(a0[0] == a[0]);
        }
        if b0.len() > 0 {
            assert(b0[0] == b[0]);
        }
        lemma_canonical_unique(a0, b0);
        assert(a =~= a0.push(a.last()));
        assert(b =~= b0.push(b.last()));
    }
}

proof fn lemma_pow256_positive(n: nat)
    ensures
        pow256(n) >= 1,
    decreases n,
{
    if n > 0 {
        lemma_pow256_positive((n - 1) as nat);
    }
}

proof fn lemma_pow256_grows(m: nat, n: nat)
    requires
        m <= n,
    ensures
        pow256(m) <= pow256(n),
    decreases n,
{
    if m < n {
        lemma_pow256_grows(m, (n - 1) as nat);
        lemma_pow256_positive((n - 1) as nat);
    }
}

proof fn lemma_prefix_step(digits: Seq<u8>, n: int)
    requires
        0 < n <= digits.len(),
    ensures
        be_nat(digits.take(n)) == be_nat(digits.take(n - 1)) * 256 + digits[n - 1] as nat,
{
    assert(digits.take(n).drop_last() =~= digits.take(n - 1));
}

proof fn lemma_push_digit(digits: Seq<u8>, d: u8)
    ensures
        be_nat(digits.push(d)) == be_nat(digits) * 256 + d as nat,
{
    assert(digits.push(d).drop_last() =~= digits);
}

/// The digits of `a[..na] + b[..nb] + carry`: the last digit of each and the
/// carry give the last digit of the sum, and what is left of the two, with
/// the new carry, gives the digits before it.
fn add_digits(a: &Vec<u8>, b: &Vec<u8>, na: usize, nb: usize, carry: u8) -> (out: Vec<u8>)
    requires
        na <= a.len(),
        nb <= b.len(),
        carry <= 1,
        canonical(a@),
        canonical(b@),
    ensures
        be_nat(out@) == be_nat(a@.take(na as int)) + be_nat(b@.take(nb as int)) + carry as nat,
        canonical(out@),
    decreases na + nb,
{
    if na == 0 && nb == 0 {
        let mut out: Vec<u8> = Vec::new();
        if carry != 0 {
            out.push(carry);
            proof {
                lemma_push_digit(Seq::<u8>::empty(), carry);
            }
        }
        assert(a@.take(0).len() == 0);
        assert(b@.take(0).len() == 0);
        return out;
    }
    let da: u8 = if na > 0 {
        a[na - 1]
    } else {
        0
    };
    let db: u8 = if nb > 0 {
        b[nb - 1]
    } else {
        0
    };
    let ma: usize = if na > 0 {
        na - 1
    } else {
        0
    };
    let mb: usize = if nb > 0 {
        nb - 1
    } else {
        0
    };
    let sum: u16 = da as u16 + db as u16 + carry as u16;
    let digit: u8 = (sum % 256) as u8;
    let up: u8 = (sum / 256) as u8;
    let mut out = add_digits(a, b, ma, mb, up);
    proof {
        if na > 0 {
            lemma_prefix_step(a@, na as int);
        } else {
            assert(a@.take(0).len() == 0);
        }
        if nb > 0 {
            lemma_prefix_step(b@, nb as int);
        } else {
            assert(b@.take(0).len() == 0);
        }
        lemma_push_digit(out@, digit);
        if out@.len() == 0 {
            if ma > 0 {
                lemma_be_nat_bounds(a@.take(ma as int));
                lemma_pow256_positive((ma - 1) as nat);
            }
            if mb > 0 {
                lemma_be_nat_bounds(b@.take(mb as int));
                lemma_pow256_positive((mb - 1) as nat);
            }
        }
    }
    out.push(digit);
    out
}

/// The digits of `x`.
fn digits_of(x: u128) -> (out: Vec<u8>)
    ensures
        be_nat(out@) == x,
        canonical(out@),
    decreases x,
{
    if x == 0 {
        Vec::new()
    } else {
        let mut out = digits_of(x / 256);
        let digit: u8 = (x % 256) as u8;
        proof {
            lemma_push_digit(out@, digit);
        }
        out.push(digit);
        out
    }
}

/// An unsigned integer of any size.
///
/// The digits are kept without leading zeros, so that two amounts are equal
/// exactly when they are the same number.
#[derive(Debug, PartialEq, Eq)]
pub struct Amount {
    digits: Vec<u8>,
}

impl View for Amount {
    type V = nat;

    closed spec fn view(&self) -> nat {
        be_nat(self.digits@)
    }
}

impl Clone for Amount {
    fn clone(&self) -> (copy: Amount)
        ensures
            copy@ == self@,
    {
        proof {
            use_type_invariant(self);
        }
        let digits = self.digits.clone();
        assert(digits@ =~= self.digits@);
        Amount { digits }
    }
}

impl Amount {
    #[verifier::type_invariant]
    spec fn well_formed(&self) -> bool {
        canonical(self.digits@)
    }

    /// The amount zero.
    pub fn zero() -> (z: Amount)
        ensures
            z@ == 0,
    {
        Amount { digits: Vec::new() }
    }

    /// The amount `x`.
    pub fn from_u128(x: u128) -> (a: Amount)
        ensures
            a@ == x,
    {
        Amount { digits: digits_of(x) }
    }

    /// The amount that `bytes` spell in base 256, most significant byte
    /// first; leading zero bytes are allowed.
    pub fn from_be_bytes(bytes: &[u8]) -> (a: Amount)
        ensures
            a@ == be_nat(bytes@),
    {
        let mut first: usize = 0;
        assert(bytes@.skip(0) =~= bytes@);
        while first < bytes.len() && bytes[first] == 0
            invariant
                first <= bytes@.len(),
                be_nat(bytes@) == be_nat(bytes@.skip(first as int)),
            decreases bytes@.len() - first,
        {
            proof {
                lemma_leading_zero(bytes@.skip(first as int));
                assert(bytes@.skip(first as int).skip(1) =~= bytes@.skip(first as int + 1));
            }
            first = first + 1;
        }
        let mut digits: Vec<u8> = Vec::new();
        let mut i: usize = first;
        while i < bytes.len()
            invariant
                first <= i <= bytes@.len(),
                digits@ == bytes@.subrange(first as int, i as int),
            decreases bytes@.len() - i,
        {
            digits.push(bytes[i]);
            i = i + 1;
            assert(digits@ =~= bytes@.subrange(first as int, i as int));
        }
        assert(digits@ =~= bytes@.skip(first as int));
        Amount { digits }
    }

    /// The sum of the two amounts, exactly.
    pub fn add(&self, other: &Amount) -> (sum: Amount)
        ensures
            sum@ == self@ + other@,
    {
        proof {
            use_type_invariant(self);
            use_type_invariant(other);
            assert(self.digits@.take(self.digits@.len() as int) =~= self.digits@);
            assert(other.digits@.take(other.digits@.len() as int) =~= other.digits@);
        }
        Amount {
            digits: add_digits(
                &self.digits,
                &other.digits,
                self.digits.len(),
                other.digits.len(),
                0,
            ),
        }
    }

    /// Whether the amount is zero.
    pub fn is_zero(&self) -> (z: bool)
        ensures
            z == (self@ == 0),
    {
        proof {
            use_type_invariant(self);
            lemma_be_nat_bounds(self.digits@);
            if self.digits@.len() > 0 {
                lemma_pow256_positive((self.digits@.len() - 1) as nat);
            }
        }
        self.digits.len() == 0
    }

    /// The digits of the amount in base 256, most significant first, without
    /// leading zeros.
    pub fn to_be_bytes(&self) -> (bytes: Vec<u8>)
        ensures
            be_nat(bytes@) == self@,
            canonical(bytes@),
    {
        proof {
            use_type_invariant(self);
        }
        let bytes = self.digits.clone();
        assert(bytes@ =~= self.digits@);
        bytes
    }

    /// The amount as a `u128`, if it is small enough.
    pub fn to_u128(&self) -> (x: Option<u128>)
        ensures
            self@ <= u128::MAX ==> x == Some(self@ as u128),
            self@ > u128::MAX ==> x is None,
    {
        let mut acc: u128 = 0;
        let mut i: usize = 0;
        while i < self.digits.len()
            invariant
                i <= self.digits@.len(),
                acc == be_nat(self.digits@.take(i as int)),
            decreases self.digits@.len() - i,
        {
            proof {
                lemma_prefix_step(self.digits@, i + 1);
            }
            if acc > (u128::MAX - self.digits[i] as u128) / 256 {
                proof {
                    lemma_prefix_grows(self.digits@, i + 1);
                }
                return None;
            }
            acc = acc * 256 + self.digits[i] as u128;
            i = i + 1;
        }
        assert(self.digits@.take(i as int) =~= self.digits@);
        Some(acc)
    }

    /// Whether the amount fits in a 256-bit word.
    pub fn fits_word(&self) -> (fits: bool)
        ensures
            fits == (self@ < pow256(32)),
    {
        proof {
            use_type_invariant(self);
            lemma_word_digits(self.digits@);
        }
        self.digits.len() <= 32
    }

    /// The amount divided by `10^units`, written out in decimal with `units`
    /// fractional digits.
    ///
    /// There is no text for an amount that does not fit in 256 bits, nor for
    /// 78 fractional digits or more.
    pub fn format_units(&self, units: u32) -> (text: Option<String>)
        ensures
            text is Some <==> self@ < pow256(32) && units < 78,
            text matches Some(t) ==> t@ == units_text(self@, units as nat),
    {
        proof {
            use_type_invariant(self);
            lemma_word_digits(self.digits@);
        }
        if self.digits.len() <= 32 {
            format_units_u256(self.digits.as_slice(), units)
        } else {
            None
        }
    }
}

proof fn lemma_word_digits(digits: Seq<u8>)
    requires
        canonical(digits),
    ensures
        digits.len() <= 32 <==> be_nat(digits) < pow256(32),
{
    lemma_be_nat_bounds(digits);
    if digits.len() <= 32 {
        lemma_pow256_grows(digits.len(), 32);
    } else {
        lemma_pow256_grows(32, (digits.len() - 1) as nat);
    }
}

proof fn lemma_prefix_grows(digits: Seq<u8>, n: int)
    requires
        0 <= n <= digits.len(),
    ensures
        be_nat(digits.take(n)) <= be_nat(digits),
    decreases digits.len() - n,
{
    if n < digits.len() {
        lemma_prefix_step(digits, n + 1);
        lemma_prefix_grows(digits, n + 1);
    } else {
        assert(digits.take(n) =~= digits);
    }
}

} // verus!
