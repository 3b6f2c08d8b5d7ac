//! Identifiers: consecutive numbers, written in decimal.
use vstd::prelude::*;

verus! {

/// The character that writes a digit.
pub open spec fn digit(d: nat) -> char {
    if d == 0 {
        '0'
    } else if d == 1 {
        '1'
    } else if d == 2 {
        '2'
    } else if d == 3 {
        '3'
    } else if d == 4 {
        '4'
    } else if d == 5 {
        '5'
    } else if d == 6 {
        '6'
    } else if d == 7 {
        '7'
    } else if d == 8 {
        '8'
    } else {
        '9'
    }
}

/// The decimal numeral of `n`, without sign and without leading zeros.
pub open spec fn decimal(n: nat) -> Seq<char>
    decreases n,
{
    if n < 10 {
        seq![digit(n)]
    } else {
        decimal(n / 10).push(digit(n % 10))
    }
}

/// Different numbers have different numerals.
pub proof fn lemma_decimal_injective(a: nat, b: nat)
    requires
        decimal(a) == decimal(b),
    ensures
        a == b,
    decreases a,
{
    lemma_decimal_len(a);
    lemma_decimal_len(b);
    if a < 10 && b < 10 {
        assert(decimal(a)[0] == digit(a));
        assert(decimal(b)[0] == digit(b));
    } else if a < 10 {
        lemma_decimal_len(b / 10);
        assert(decimal(b).len() >= 2);
        assert(decimal(a).len() == 1);
    } else if b < 10 {
        lemma_decimal_len(a / 10);
        assert(decimal(a).len() >= 2);
        assert(decimal(b).len() == 1);
    } else {
        let s = decimal(a / 10);
        let t = decimal(b / 10);
        assert(s.push(digit(a % 10)).drop_last() =~= s);
        assert(t.push(digit(b % 10)).drop_last() =~= t);
        assert(s.push(digit(a % 10)).last() == digit(a % 10));
        assert(t.push(digit(b % 10)).last() == digit(b % 10));
        assert(s == t);
        lemma_decimal_injective(a / 10, b / 10);
        assert(digit(a % 10) == digit(b % 10));
        assert(a % 10 == b % 10);
    }
}

/// A numeral has at least one digit.
pub proof fn lemma_decimal_len(n: nat)
    ensures
        decimal(n).len() >= 1,
    decreases n,
{
    if n >= 10 {
        lemma_decimal_len(n / 10);
    }
}

/// `u64::to_string`, which writes an unsigned integer as `Display` formats
/// it: the decimal numeral, without sign, padding or leading zeros.
#[verifier::external_body]
fn decimal_string(n: u64) -> (s: String)
    ensures
        s@ == decimal(n as nat),
{
    n.to_string()
}

/// A source of identifiers that never gives the same one twice.
///
/// The counter holds the number of the identifier issued last; zero before
/// the first.
#[derive(Debug, PartialEq)]
pub struct IdCounter {
    counter: u64,
}

impl View for IdCounter {
    type V = nat;

    closed spec fn view(&self) -> nat {
        self.counter as nat
    }
}

impl IdCounter {
    /// A counter that has issued nothing yet.
    pub fn new() -> (c: Self)
        ensures
            c@ == 0,
    {
        IdCounter { counter: 0 }
    }

    /// A counter that has issued the identifiers up to `issued`.
    pub fn starting_after(issued: u64) -> (c: Self)
        ensures
            c@ == issued,
    {
        IdCounter { counter: issued }
    }

    /// The number of the identifier issued last.
    pub fn issued(&self) -> (n: u64)
        ensures
            n == self@,
    {
        self.counter
    }

    /// The next identifier: the numeral of the counter after it went up by
    /// one.
    pub fn next(&mut self) -> (id: String)
        requires
            old(self)@ < u64::MAX,
        ensures
            final(self)@ == old(self)@ + 1,
            id@ == decimal(final(self)@),
    {
        self.counter += 1;
        decimal_string(self.counter)
    }
}

impl Default for IdCounter {
    fn default() -> (c: Self)
        ensures
            c@ == 0,
    {
        IdCounter { counter: 0 }
    }
}

} // verus!
